//! Trade notifications over Telegram: the settings, whether they are complete, and
//! the text of each notification.  Posting a message is the caller's.
use vstd::prelude::*;
use crate::text::str_eq;

verus! {

/// Bot token and chat.
#[derive(Debug, Clone)]
pub struct TelegramConfig {
    pub bot_token: String,
    pub chat_id: String,
}

/// Sends trade events to one chat; without a token and a chat it is switched off.
#[derive(Debug, Clone)]
pub struct TelegramNotifier {
    pub bot_token: String,
    pub chat_id: String,
}

/// The endpoint that takes a message for the bot.
pub open spec fn send_url_text(token: Seq<char>) -> Seq<char> {
    "https://api.telegram.org/bot"@ + token + "/sendMessage"@
}

/// The text of a failed request.
pub open spec fn api_error_text(status: Seq<char>) -> Seq<char> {
    "Telegram API error: "@ + status
}

/// The notification of a fill: green for a long fill, red otherwise.
pub open spec fn order_filled_text(symbol: Seq<char>, side: Seq<char>, price: Seq<char>, qty: Seq<char>) -> Seq<char> {
    (if side == "LONG"@ { "🟢"@ } else { "🔴"@ }) + " *订单成交*\n品种: `"@ + symbol + "`\n方向: "@ + side
        + "\n价格: `"@ + price + "`\n数量: "@ + qty
}

/// A notification with a title, a symbol and a reason.
pub open spec fn symbol_reason_text(title: Seq<char>, symbol: Seq<char>, reason: Seq<char>) -> Seq<char> {
    title + "\n品种: `"@ + symbol + "`\n原因: "@ + reason
}

fn symbol_reason(title: &str, symbol: &str, reason: &str) -> (r: String)
    ensures
        r@ == symbol_reason_text(title@, symbol@, reason@),
{
    let mut s = title.to_string();
    s.append("\n品种: `");
    s.append(symbol);
    s.append("`\n原因: ");
    s.append(reason);
    s
}

impl TelegramNotifier {
    pub fn new(bot_token: String, chat_id: String) -> (r: TelegramNotifier)
        ensures
            r.bot_token == bot_token,
            r.chat_id == chat_id,
    {
        TelegramNotifier { bot_token, chat_id }
    }

    pub fn from_config(config: TelegramConfig) -> (r: TelegramNotifier)
        ensures
            r.bot_token == config.bot_token,
            r.chat_id == config.chat_id,
    {
        TelegramNotifier::new(config.bot_token, config.chat_id)
    }

    /// Both a token and a chat are set.
    pub fn is_configured(&self) -> (r: bool)
        ensures
            r == (self.bot_token@.len() > 0 && self.chat_id@.len() > 0),
    {
        !self.bot_token.as_str().is_empty() && !self.chat_id.as_str().is_empty()
    }

    /// The URL a message is posted to.
    pub fn send_url(&self) -> (r: String)
        ensures
            r@ == send_url_text(self.bot_token@),
    {
        let mut s = "https://api.telegram.org/bot".to_string();
        s.append(self.bot_token.as_str());
        s.append("/sendMessage");
        s
    }

    /// The text sent when an order was filled.
    pub fn order_filled_message(symbol: &str, side: &str, price: &str, qty: &str) -> (r: String)
        ensures
            r@ == order_filled_text(symbol@, side@, price@, qty@),
    {
        let mut s = if str_eq(side, "LONG") {
            "🟢".to_string()
        } else {
            "🔴".to_string()
        };
        s.append(" *订单成交*\n品种: `");
        s.append(symbol);
        s.append("`\n方向: ");
        s.append(side);
        s.append("\n价格: `");
        s.append(price);
        s.append("`\n数量: ");
        s.append(qty);
        s
    }

    /// The text sent when an order was rejected.
    pub fn order_rejected_message(symbol: &str, reason: &str) -> (r: String)
        ensures
            r@ == symbol_reason_text("🔴 *订单被拒绝*"@, symbol@, reason@),
    {
        symbol_reason("🔴 *订单被拒绝*", symbol, reason)
    }

    /// The text sent when the channel switched.
    pub fn channel_switch_message(from: &str, to: &str, volatility: &str) -> (r: String)
        ensures
            r@ == "⚡ *通道切换*\n"@ + from@ + " → "@ + to@ + "\n波动率: "@ + volatility@,
    {
        let mut s = "⚡ *通道切换*\n".to_string();
        s.append(from);
        s.append(" → ");
        s.append(to);
        s.append("\n波动率: ");
        s.append(volatility);
        s
    }

    /// The text sent on a forced liquidation.
    pub fn liquidation_message(symbol: &str, reason: &str) -> (r: String)
        ensures
            r@ == symbol_reason_text("🚨 *强制平仓*"@, symbol@, reason@),
    {
        symbol_reason("🚨 *强制平仓*", symbol, reason)
    }

    /// The text of an account snapshot.
    pub fn account_snapshot_message(equity: &str, positions: &str) -> (r: String)
        ensures
            r@ == "📊 *账户快照*\n权益: `"@ + equity@ + "`\n持仓: "@ + positions@,
    {
        let mut s = "📊 *账户快照*\n权益: `".to_string();
        s.append(equity);
        s.append("`\n持仓: ");
        s.append(positions);
        s
    }

    /// The text sent when high volatility begins.
    pub fn enter_high_volatility_message(volatility: &str, tr_ratio: &str) -> (r: String)
        ensures
            r@ == "🔺 *进入高波动模式*\n波动率: "@ + volatility@ + "\nTR比率: "@ + tr_ratio@,
    {
        let mut s = "🔺 *进入高波动模式*\n波动率: ".to_string();
        s.append(volatility);
        s.append("\nTR比率: ");
        s.append(tr_ratio);
        s
    }

    /// The text sent when high volatility ends.
    pub fn exit_high_volatility_message(reason: &str) -> (r: String)
        ensures
            r@ == "🔻 *退出高波动模式*\n原因: "@ + reason@,
    {
        let mut s = "🔻 *退出高波动模式*\n原因: ".to_string();
        s.append(reason);
        s
    }

    /// The text sent when risk control refused an order.
    pub fn risk_rejected_message(symbol: &str, reason: &str) -> (r: String)
        ensures
            r@ == symbol_reason_text("🛡️ *风控拒绝*"@, symbol@, reason@),
    {
        symbol_reason("🛡️ *风控拒绝*", symbol, reason)
    }

    /// The error text for a response with the given status.
    pub fn api_error_message(status: &str) -> (r: String)
        ensures
            r@ == api_error_text(status@),
    {
        let mut s = "Telegram API error: ".to_string();
        s.append(status);
        s
    }
}

impl Default for TelegramNotifier {
    /// Switched off: no token, no chat.
    fn default() -> (r: TelegramNotifier)
        ensures
            r.bot_token@.len() == 0,
            r.chat_id@.len() == 0,
    {
        TelegramNotifier { bot_token: String::new(), chat_id: String::new() }
    }
}

} // verus!
