use quant_engine::decimal::Dec;
use quant_engine::engine::error::EngineError;
use quant_engine::engine::memory_backup::{
    csv_index_step, csv_part_path, handle_load_error, needs_rollover, trim_depth_entries, trim_entries,
    CsvIndexStep, DepthEntry, IndicatorsData, KlineData, MemoryBackup, Positions, TaskInfo, TaskPool,
    INDICATORS_1D_HISTORY_DIR, INDICATORS_1D_REALTIME_DIR, INDICATORS_1M_HISTORY_DIR,
    INDICATORS_1M_REALTIME_DIR, KLINE_1D_HISTORY_DIR, KLINE_1D_REALTIME_DIR, KLINE_1M_HISTORY_DIR,
    KLINE_1M_REALTIME_DIR, MAX_CSV_FILE_SIZE, KlineEntry, KxianCache, KxianData, RealtimeTradeEntry,
    RealtimeTradesData, MAX_KXIAN_ENTRIES,
};
use quant_engine::engine::mode::ModeSwitcher;
use quant_engine::engine::order::OrderExecutor;
use quant_engine::engine::strategy_types::{OrderRequest, OrderType, Side, TradingMode};
use quant_engine::engine::telegram_notifier::{TelegramConfig, TelegramNotifier};

fn d(m: i64, scale: u32) -> Dec {
    Dec::new(m, scale)
}

#[test]
fn memory_backup_test_memory_backup_creation() {
    let backup = MemoryBackup::new("/dev/shm/backup", "data/backup", 30);
    assert_eq!(backup.tmpfs_dir(), "/dev/shm/backup");
    assert_eq!(backup.disk_dir(), "data/backup");
    assert_eq!(backup.sync_interval_secs(), 30);
}

#[test]
fn memory_backup_test_trim_entries() {
    let mut v = vec![1, 2, 3, 4, 5];
    trim_entries(&mut v, 3);
    assert_eq!(v, vec![3, 4, 5]);
}

#[test]
fn trim_entries_keeps_short_lists() {
    let mut v = vec![1, 2];
    trim_entries(&mut v, 3);
    assert_eq!(v, vec![1, 2]);
}

#[test]
fn test_positions_default() {
    let positions = Positions::default();
    assert!(positions.positions.is_empty());
}

#[test]
fn test_kline_data() {
    let kline = KlineData::new("1m", "realtime");
    assert_eq!(kline.period, "1m");
    assert_eq!(kline.data_type, "realtime");
    assert!(kline.klines.is_empty());
}

#[test]
fn test_indicators_data() {
    let indicators = IndicatorsData::new("1d", "history");
    assert_eq!(indicators.period, "1d");
    assert_eq!(indicators.data_type, "history");
}

#[test]
fn test_get_kline_dir() {
    let backup = MemoryBackup::new("/tmp", "/tmp/disk", 30);
    assert_eq!(backup.get_kline_dir("1m", "realtime"), KLINE_1M_REALTIME_DIR);
    assert_eq!(backup.get_kline_dir("1m", "history"), KLINE_1M_HISTORY_DIR);
    assert_eq!(backup.get_kline_dir("1d", "realtime"), KLINE_1D_REALTIME_DIR);
    assert_eq!(backup.get_kline_dir("1d", "history"), KLINE_1D_HISTORY_DIR);
}

#[test]
fn test_get_indicators_dir() {
    let backup = MemoryBackup::new("/tmp", "/tmp/disk", 30);
    assert_eq!(backup.get_indicators_dir("1m", "realtime"), INDICATORS_1M_REALTIME_DIR);
    assert_eq!(backup.get_indicators_dir("1m", "history"), INDICATORS_1M_HISTORY_DIR);
    assert_eq!(backup.get_indicators_dir("1d", "realtime"), INDICATORS_1D_REALTIME_DIR);
    assert_eq!(backup.get_indicators_dir("1d", "history"), INDICATORS_1D_HISTORY_DIR);
}

#[test]
fn backup_paths_follow_layout() {
    let backup = MemoryBackup::new("/shm", "/disk", 30);
    assert_eq!(backup.account_path(), "/shm/account.json");
    assert_eq!(backup.depth_path("btcusdt"), "/shm/depth/btcusdt.json");
    assert_eq!(backup.trades_path("btcusdt"), "/shm/trades/btcusdt.csv");
    assert_eq!(backup.kline_path("btcusdt", "1d", "history"), "/shm/kline-1d-历史/btcusdt.json");
    assert_eq!(backup.channel_path("daily").unwrap(), "/shm/channel/daily.json");
    assert_eq!(backup.task_pool_path("minute").unwrap(), "/shm/tasks/minute//pool.json");
    assert_eq!(backup.mutex_path("hour", "ethusdt").unwrap(), "/shm/mutex/hour/ethusdt.json");
}

#[test]
fn backup_rejects_unknown_kinds() {
    let backup = MemoryBackup::new("/shm", "/disk", 30);
    assert_eq!(backup.channel_path("weekly"), Err(EngineError::MemoryBackup("未知通道类型: weekly".to_string())));
    assert!(backup.task_pool_path("hourly").is_err());
    assert!(backup.mutex_path("day", "btc").is_err());
}

#[test]
fn csv_parts_and_rollover() {
    assert_eq!(csv_part_path("/shm/trades/btc.csv", 1), "/shm/trades/btc.csv");
    assert_eq!(csv_part_path("/shm/trades/btc.csv", 2), "/shm/trades/btc_002.csv");
    assert_eq!(csv_index_step(1, false, 0), CsvIndexStep::Use(1));
    assert_eq!(csv_index_step(1, true, MAX_CSV_FILE_SIZE - 1), CsvIndexStep::Use(1));
    assert_eq!(csv_index_step(1, true, MAX_CSV_FILE_SIZE), CsvIndexStep::Next(2));
    assert_eq!(
        csv_index_step(1000, true, MAX_CSV_FILE_SIZE),
        CsvIndexStep::TooMany(EngineError::MemoryBackup("CSV 文件数量超过限制: 1001".to_string()))
    );
    assert!(needs_rollover(MAX_CSV_FILE_SIZE));
    assert!(!needs_rollover(10));
}

#[test]
fn depth_levels_sorted_highest_first() {
    let mut v = vec![
        DepthEntry { price: d(100, 0), qty: d(1, 0) },
        DepthEntry { price: d(300, 0), qty: d(2, 0) },
        DepthEntry { price: d(200, 0), qty: d(3, 0) },
        DepthEntry { price: d(50, 0), qty: d(4, 0) },
    ];
    trim_depth_entries(&mut v, 3);
    let prices: Vec<Dec> = v.iter().map(|e| e.price.clone()).collect();
    assert_eq!(prices, vec![d(300, 0), d(200, 0), d(50, 0)]);
}

#[test]
fn missing_file_is_no_data() {
    let missing: Result<Option<u8>, EngineError> =
        handle_load_error(EngineError::MemoryBackup("打开文件失败: no such file".to_string()));
    assert_eq!(missing, Ok(None));
    let other: Result<Option<u8>, EngineError> =
        handle_load_error(EngineError::MemoryBackup("解析 JSON 失败: eof".to_string()));
    assert!(other.is_err());
}

#[test]
fn task_pool_merge_appends_and_takes_counts() {
    let task = |id: &str| TaskInfo {
        task_id: id.to_string(),
        symbol: "BTC".to_string(),
        task_type: "open".to_string(),
        status: "active".to_string(),
        created_at: "t".to_string(),
    };
    let mut stored = TaskPool::default();
    stored.active_tasks.push(task("a"));
    let mut incoming = TaskPool::default();
    incoming.active_tasks.push(task("b"));
    incoming.completed_count = 7;
    let merged = MemoryBackup::merge_task_pool(stored, incoming);
    assert_eq!(merged.active_tasks.len(), 2);
    assert_eq!(merged.active_tasks[1].task_id, "b");
    assert_eq!(merged.completed_count, 7);
}

#[test]
fn test_telegram_config_creation() {
    let config = TelegramConfig { bot_token: "test_token".to_string(), chat_id: "test_chat".to_string() };

    let notifier = TelegramNotifier::from_config(config);
    assert!(notifier.is_configured());
}

#[test]
fn test_default_notifier_not_configured() {
    let notifier = TelegramNotifier::default();
    assert!(!notifier.is_configured());
}

#[test]
fn telegram_messages() {
    let notifier = TelegramNotifier::new("T0K".to_string(), "42".to_string());
    assert_eq!(notifier.send_url(), "https://api.telegram.org/botT0K/sendMessage");
    assert_eq!(
        TelegramNotifier::order_filled_message("BTCUSDT", "LONG", "50000", "0.1"),
        "🟢 *订单成交*\n品种: `BTCUSDT`\n方向: LONG\n价格: `50000`\n数量: 0.1"
    );
    assert!(TelegramNotifier::order_filled_message("BTCUSDT", "SHORT", "1", "2").starts_with("🔴"));
    assert_eq!(
        TelegramNotifier::order_rejected_message("BTC", "余额不足"),
        "🔴 *订单被拒绝*\n品种: `BTC`\n原因: 余额不足"
    );
    assert_eq!(TelegramNotifier::api_error_message("500"), "Telegram API error: 500");
}

#[test]
fn mode_switcher_switches() {
    let mut switcher = ModeSwitcher::new();
    assert_eq!(switcher.mode(), TradingMode::Low);
    switcher.switch(TradingMode::High);
    assert_eq!(switcher.mode(), TradingMode::High);
    assert_eq!(ModeSwitcher::default().mode(), TradingMode::Low);
}

#[test]
fn order_executor_dispatch() {
    let executor = OrderExecutor::new();
    let market = OrderRequest {
        symbol: "BTC".to_string(),
        side: Side::Short,
        order_type: OrderType::Market,
        qty: d(1, 0),
        price: None,
    };
    assert!(executor.execute_market_order(&market).is_ok());
    assert_eq!(
        executor.execute_limit_order(&market),
        Err(EngineError::OrderExecutionFailed("Market order should use execute_market_order".to_string()))
    );
    let limit = OrderRequest { order_type: OrderType::Limit, price: Some(d(5, 0)), ..market };
    assert!(executor.execute_limit_order(&limit).is_ok());
}

#[test]
fn test_kxian_cache_default() {
    let cache = KxianCache::default();
    assert!(cache.m1.is_empty());
    assert!(cache.m5.is_empty());
    assert!(cache.m15.is_empty());
    assert!(cache.d1.is_empty());
}

fn bar(t: &str) -> KlineEntry {
    KlineEntry {
        t: t.to_string(),
        o: Dec::from_int(1),
        h: Dec::from_int(2),
        l: Dec::from_int(0),
        c: Dec::from_int(1),
        v: Dec::from_int(10),
    }
}

#[test]
fn kxian_merge_appends_and_keeps_the_newest() {
    let mut cache = KxianCache::default();
    for i in 0..MAX_KXIAN_ENTRIES {
        cache.m1.push(bar(&i.to_string()));
    }
    let mut new = KxianData::default();
    new.m1.push(bar("new"));
    new.d1.push(bar("day"));
    let merged = MemoryBackup::merge_kxian(cache, new);
    assert_eq!(merged.m1.len(), MAX_KXIAN_ENTRIES);
    assert_eq!(merged.m1[0].t, "1");
    assert_eq!(merged.m1[MAX_KXIAN_ENTRIES - 1].t, "new");
    assert_eq!(merged.d1.len(), 1);
    assert!(merged.m5.is_empty());
}

#[test]
fn trades_merge_keeps_the_newest_five_hundred() {
    let entry = |i: usize| RealtimeTradeEntry {
        t: i.to_string(),
        p: Dec::from_int(1),
        q: Dec::from_int(1),
        time: String::new(),
        is_buyer_maker: false,
    };
    let stored = RealtimeTradesData { trades: (0..400).map(entry).collect() };
    let incoming = RealtimeTradesData { trades: (400..600).map(entry).collect() };
    let merged = MemoryBackup::merge_trades(stored, incoming);
    assert_eq!(merged.trades.len(), 500);
    assert_eq!(merged.trades[0].t, "100");
    assert_eq!(merged.trades[499].t, "599");
}

#[test]
fn old_layout_paths() {
    let b = MemoryBackup::new("/shm", "/disk", 30);
    assert_eq!(b.kxian_path("BTCUSDT"), "/shm/symbols/BTCUSDT/kxian.json");
    assert_eq!(b.realtime_trades_path("BTCUSDT"), "/shm/symbols/BTCUSDT/trades.json");
    assert_eq!(b.position_path("BTCUSDT"), "/shm/symbols/BTCUSDT/position.json");
    assert_eq!(b.order_path("O1"), "/shm/order/O1.json");
    assert_eq!(b.trade_path("T1"), "/shm/trade/T1.json");
    assert_eq!(b.symbol_task_path("minute", "BTCUSDT").unwrap(), "/shm/tasks/minute//BTCUSDT.json");
    assert_eq!(b.symbol_task_path("daily", "BTCUSDT").unwrap(), "/shm/tasks/daily//BTCUSDT.json");
    match b.symbol_task_path("weekly", "BTCUSDT") {
        Err(EngineError::MemoryBackup(m)) => assert_eq!(m, "未知任务池类型: weekly"),
        other => panic!("unexpected {:?}", other),
    }
}
