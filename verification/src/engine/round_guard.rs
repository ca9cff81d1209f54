//! Round ids that tie the computations of one round together: a computation is
//! valid while no newer round has started.
use vstd::prelude::*;

verus! {

/// Hands out round ids, counting up from 1.
pub struct RoundGuard {
    round_id: u64,
}

impl RoundGuard {
    /// The id of the current round (0 before the first).
    pub closed spec fn id(self) -> u64 {
        self.round_id
    }

    /// No round yet: the current id is 0.
    pub fn new() -> (r: RoundGuard)
        ensures
            r.id() == 0,
    {
        RoundGuard { round_id: 0 }
    }

    /// Starts the next round and returns its id.  The id overflowing `u64` is left
    /// out.
    pub fn next_round_id(&mut self) -> (r: u64)
        requires
            old(self).id() < u64::MAX,
        ensures
            final(self).id() == old(self).id() + 1,
            r == final(self).id(),
    {
        self.round_id = self.round_id + 1;
        self.round_id
    }

    pub fn current_round_id(&self) -> (r: u64)
        ensures
            r == self.id(),
    {
        self.round_id
    }

    /// Whether the round `expected` is still the current one.
    pub fn verify(&self, expected: u64) -> (r: bool)
        ensures
            r == (self.id() == expected),
    {
        self.round_id == expected
    }
}

impl Default for RoundGuard {
    fn default() -> (r: RoundGuard)
        ensures
            r.id() == 0,
    {
        RoundGuard::new()
    }
}

/// One round of computation, started on a guard.
pub struct RoundGuardScope<'a> {
    guard: &'a RoundGuard,
    round_id: u64,
    valid: bool,
}

impl<'a> RoundGuardScope<'a> {
    /// The round this scope belongs to.
    pub closed spec fn scope_id(self) -> u64 {
        self.round_id
    }

    /// The current round of the guard it was started on.
    pub closed spec fn guard_id(self) -> u64 {
        self.guard.round_id
    }

    /// Not finished.
    pub closed spec fn unfinished(self) -> bool {
        self.valid
    }

    /// Starts a round on `guard`.
    pub fn new(guard: &'a mut RoundGuard) -> (r: RoundGuardScope<'a>)
        requires
            old(guard).id() < u64::MAX,
        ensures
            r.scope_id() == old(guard).id() + 1,
            r.guard_id() == r.scope_id(),
            final(guard).id() == r.scope_id(),
            r.unfinished(),
    {
        let round_id = guard.next_round_id();
        let shared: &'a RoundGuard = guard;
        RoundGuardScope { guard: shared, round_id, valid: true }
    }

    pub fn round_id(&self) -> (r: u64)
        ensures
            r == self.scope_id(),
    {
        self.round_id
    }

    /// Valid until finished, and while the guard is still on this round.
    pub fn is_valid(&self) -> (r: bool)
        ensures
            r == (self.unfinished() && self.guard_id() == self.scope_id()),
    {
        self.valid && self.guard.verify(self.round_id)
    }

    /// Ends the round.
    pub fn finish(self) {
    }
}

/// One call of `next_round_id`: the guard `before` becomes `after` and `id` comes back.
pub open spec fn round_step(before: RoundGuard, after: RoundGuard, id: u64) -> bool {
    after.id() == before.id() + 1 && id == after.id()
}

/// Successive calls of `next_round_id` count up in turn: k calls from a guard at
/// round c return c+1, c+2, ..., c+k, and leave the guard (and so
/// `current_round_id`) at c+k.
pub proof fn lemma_successive_rounds(guards: Seq<RoundGuard>, ids: Seq<u64>)
    requires
        guards.len() == ids.len() + 1,
        forall|i: int| #![trigger ids[i]] 0 <= i < ids.len() ==> round_step(guards[i], guards[i + 1], ids[i]),
    ensures
        forall|i: int| 0 <= i < ids.len() ==> #[trigger] ids[i] == guards[0].id() + i + 1,
        guards.last().id() == guards[0].id() + ids.len(),
    decreases ids.len(),
{
    if ids.len() > 0 {
        let g = guards.drop_last();
        let d = ids.drop_last();
        assert forall|i: int| #![trigger d[i]] 0 <= i < d.len() implies round_step(g[i], g[i + 1], d[i]) by {
            assert(d[i] == ids[i]);
        }
        lemma_successive_rounds(g, d);
        let n = ids.len() - 1;
        assert(round_step(guards[n], guards[n + 1], ids[n]));
        assert(g.last() == guards[n]);
        assert forall|i: int| 0 <= i < ids.len() implies #[trigger] ids[i] == guards[0].id() + i + 1 by {
            if i < n {
                assert(d[i] == ids[i]);
            }
        }
    }
}

/// A round stays valid until another one starts on its guard: `next_round_id` moves
/// the guard past every round started before, so none of them verifies any more, and
/// the new round does.
pub proof fn lemma_round_superseded(before: RoundGuard, after: RoundGuard, earlier: u64)
    requires
        earlier <= before.id(),
        after.id() == before.id() + 1,
    ensures
        after.id() > earlier,
        after.id() != earlier,
{
}

} // verus!
