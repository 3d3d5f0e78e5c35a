//! The cost-budget rule that decides whether a cached value is still fresh.

use vstd::prelude::*;

verus! {

/// The mathematical content of a [`Policy`]: three natural numbers.
pub struct PolicyView {
    /// Total cost a value may accumulate before it must be recomputed.
    pub budget: nat,
    /// Cost charged for each access served since the last refresh.
    pub access_cost: nat,
    /// Cost charged for each whole second elapsed since the last refresh.
    pub decay_cost: nat,
}

impl PolicyView {
    /// The cost accumulated after `hits` accesses and `secs` whole seconds.
    pub open spec fn spent(self, hits: nat, secs: nat) -> nat {
        self.access_cost * hits + self.decay_cost * secs
    }

    /// Whether a value that was served `hits` times and computed `secs` whole
    /// seconds ago is still within budget. The comparison is strict: a value
    /// whose cost equals the budget has expired.
    pub open spec fn remaining(self, hits: nat, secs: nat) -> bool {
        self.spent(hits, secs) < self.budget
    }

    /// The rule under which nothing ever expires.
    pub open spec fn bottom_less() -> PolicyView {
        PolicyView { budget: 1, access_cost: 0, decay_cost: 0 }
    }

    /// The rule under which nothing is ever kept.
    pub open spec fn pierced() -> PolicyView {
        PolicyView { budget: 0, access_cost: 1, decay_cost: 1 }
    }

    /// The rule that counts accesses only and allows `count` of them.
    pub open spec fn expire_within_counts(count: nat) -> PolicyView {
        PolicyView { budget: count, access_cost: 1, decay_cost: 0 }
    }

    /// The rule that counts seconds only and allows `secs` of them.
    pub open spec fn expire_within_secs(secs: nat) -> PolicyView {
        PolicyView { budget: secs, access_cost: 0, decay_cost: 1 }
    }
}

/// A cost-budget rule: a budget, a cost per access and a cost per second.
///
/// No relation between the three numbers is required. A budget of zero never
/// leaves anything remaining; two costs of zero never spend anything.
#[derive(Debug, PartialEq, Eq, Structural)]
pub struct Policy {
    budget: u32,
    access_cost: u32,
    decay_cost: u32,
}

impl View for Policy {
    type V = PolicyView;

    closed spec fn view(&self) -> PolicyView {
        PolicyView {
            budget: self.budget as nat,
            access_cost: self.access_cost as nat,
            decay_cost: self.decay_cost as nat,
        }
    }
}

impl Clone for Policy {
    fn clone(&self) -> (copy: Policy)
        ensures
            copy == *self,
    {
        Policy {
            budget: self.budget,
            access_cost: self.access_cost,
            decay_cost: self.decay_cost,
        }
    }
}

impl Policy {
    /// A policy with the given budget, cost per access and cost per second.
    pub fn new(budget: u32, access_cost: u32, decay_cost: u32) -> (policy: Policy)
        ensures
            policy@ == (PolicyView {
                budget: budget as nat,
                access_cost: access_cost as nat,
                decay_cost: decay_cost as nat,
            }),
    {
        Policy { budget, access_cost, decay_cost }
    }

    /// An infinite cache: a value under this policy never expires.
    pub fn bottom_less() -> (policy: Policy)
        ensures
            policy@ == PolicyView::bottom_less(),
    {
        Policy { budget: 1, access_cost: 0, decay_cost: 0 }
    }

    /// No cache at all: a value under this policy has always expired.
    pub fn pierced() -> (policy: Policy)
        ensures
            policy@ == PolicyView::pierced(),
    {
        Policy { budget: 0, access_cost: 1, decay_cost: 1 }
    }

    /// A value under this policy expires at its `count`-th access, however
    /// old it is.
    pub fn expire_within_counts(count: u32) -> (policy: Policy)
        ensures
            policy@ == PolicyView::expire_within_counts(count as nat),
    {
        Policy { budget: count, access_cost: 1, decay_cost: 0 }
    }

    /// A value under this policy expires `secs` seconds after it was
    /// computed, however often it is served.
    pub fn expire_within_secs(secs: u32) -> (policy: Policy)
        ensures
            policy@ == PolicyView::expire_within_secs(secs as nat),
    {
        Policy { budget: secs, access_cost: 0, decay_cost: 1 }
    }

    /// Whether a value served `hit_count` times and computed `duration_secs`
    /// whole seconds ago is still within budget.
    ///
    /// The two products are computed in 64 bits, where they cannot overflow,
    /// and their sum saturates, so the answer is that of the exact sum.
    pub fn is_remaining(&self, hit_count: u32, duration_secs: u32) -> (remaining: bool)
        ensures
            remaining == self@.remaining(hit_count as nat, duration_secs as nat),
    {
        assert(self.access_cost * hit_count <= 0xffff_ffff * 0xffff_ffff) by (nonlinear_arith)
            requires
                self.access_cost <= 0xffff_ffff,
                hit_count <= 0xffff_ffff,
        ;
        assert(self.decay_cost * duration_secs <= 0xffff_ffff * 0xffff_ffff) by (nonlinear_arith)
            requires
                self.decay_cost <= 0xffff_ffff,
                duration_secs <= 0xffff_ffff,
        ;
        let by_access: u64 = (self.access_cost as u64) * (hit_count as u64);
        let by_decay: u64 = (self.decay_cost as u64) * (duration_secs as u64);
        by_access.saturating_add(by_decay) < self.budget as u64
    }

    /// The total cost a value may accumulate.
    pub fn budget(&self) -> (budget: u32)
        ensures
            budget == self@.budget,
    {
        self.budget
    }

    /// The cost charged per access.
    pub fn access_cost(&self) -> (cost: u32)
        ensures
            cost == self@.access_cost,
    {
        self.access_cost
    }

    /// The cost charged per whole second.
    pub fn decay_cost(&self) -> (cost: u32)
        ensures
            cost == self@.decay_cost,
    {
        self.decay_cost
    }

    /// The three numbers of a policy are those it was made with, each within
    /// the range of a `u32`; two policies with the same numbers are the same
    /// policy.
    pub proof fn lemma_view_is_faithful(self, other: Policy)
        ensures
            self@.budget <= u32::MAX,
            self@.access_cost <= u32::MAX,
            self@.decay_cost <= u32::MAX,
            self@ == other@ <==> self == other,
    {
    }

    /// From `u32::MAX` seconds on, a longer wait no longer changes the answer:
    /// a duration that saturates is judged exactly as the true one.
    pub proof fn lemma_long_waits_alike(self, hits: nat, secs: nat, longer: nat)
        requires
            secs >= u32::MAX,
            longer >= secs,
        ensures
            self@.remaining(hits, longer) == self@.remaining(hits, secs),
    {
        let cost = self@.decay_cost;
        let by_access = self@.access_cost * hits;
        assert(by_access >= 0) by (nonlinear_arith)
            requires
                by_access == self@.access_cost * hits,
        ;
        if cost == 0 {
            assert(cost * secs == 0 && cost * longer == 0) by (nonlinear_arith)
                requires
                    cost == 0,
            ;
        } else {
            assert(cost * secs >= secs && cost * longer >= longer) by (nonlinear_arith)
                requires
                    cost >= 1,
            ;
        }
    }

    /// From `u32::MAX` accesses on, one more no longer changes the answer: a
    /// counter that stopped there is judged exactly as the true count.
    pub proof fn lemma_many_hits_alike(self, hits: nat, more: nat, secs: nat)
        requires
            hits >= u32::MAX,
            more >= hits,
        ensures
            self@.remaining(more, secs) == self@.remaining(hits, secs),
    {
        let cost = self@.access_cost;
        let by_decay = self@.decay_cost * secs;
        assert(by_decay >= 0) by (nonlinear_arith)
            requires
                by_decay == self@.decay_cost * secs,
        ;
        if cost == 0 {
            assert(cost * hits == 0 && cost * more == 0) by (nonlinear_arith)
                requires
                    cost == 0,
            ;
        } else {
            assert(cost * hits >= hits && cost * more >= more) by (nonlinear_arith)
                requires
                    cost >= 1,
            ;
        }
    }
}

/// Under the bottomless rule every value remains, however often it was served
/// and however old it is.
pub proof fn lemma_bottom_less_always_remaining(hits: nat, secs: nat)
    ensures
        PolicyView::bottom_less().remaining(hits, secs),
{
    assert(0 * hits == 0 && 0 * secs == 0) by (nonlinear_arith);
}

/// Under the pierced rule no value remains, not even one that was just
/// computed and never served.
pub proof fn lemma_pierced_never_remaining(hits: nat, secs: nat)
    ensures
        !PolicyView::pierced().remaining(hits, secs),
{
}

/// Under the rule that allows `count` accesses a value remains exactly while
/// it was served fewer than `count` times; its age does not matter.
pub proof fn lemma_expire_within_counts(count: nat, hits: nat, secs: nat)
    ensures
        PolicyView::expire_within_counts(count).remaining(hits, secs) <==> hits < count,
{
    assert(1 * hits == hits && 0 * secs == 0) by (nonlinear_arith);
}

/// Under the rule that allows `limit` seconds a value remains exactly while
/// fewer than `limit` whole seconds have passed; how often it was served does
/// not matter.
pub proof fn lemma_expire_within_secs(limit: nat, hits: nat, secs: nat)
    ensures
        PolicyView::expire_within_secs(limit).remaining(hits, secs) <==> secs < limit,
{
    assert(0 * hits == 0 && 1 * secs == secs) by (nonlinear_arith);
}

/// Cost never decreases: a value that has expired stays expired when it is
/// served again or grows older.
pub proof fn lemma_spent_is_monotonic(rule: PolicyView, hits: nat, secs: nat, more: nat, later: nat)
    requires
        hits <= more,
        secs <= later,
    ensures
        rule.spent(hits, secs) <= rule.spent(more, later),
        rule.remaining(more, later) ==> rule.remaining(hits, secs),
{
    assert(rule.access_cost * hits <= rule.access_cost * more) by (nonlinear_arith)
        requires
            hits <= more,
    ;
    assert(rule.decay_cost * secs <= rule.decay_cost * later) by (nonlinear_arith)
        requires
            secs <= later,
    ;
}

} // verus!
