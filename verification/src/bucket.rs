//! The single-slot cache and its decide-then-reuse-or-refresh protocol.

use crate::clock::{duration_secs, elapsed_secs, now, Timestamp};
use crate::policy::Policy;
use crate::task::Task;
use vstd::prelude::*;

verus! {

/// Where a bucket stands at a given instant.
#[derive(Debug, Clone, Copy, PartialEq, Eq, Structural)]
pub enum State {
    /// No value is cached.
    Empty,
    /// A value is cached and still within budget.
    Fresh,
    /// A value is cached and its budget is used up.
    Stale,
}

/// The mathematical content of a [`Bucket`].
pub struct BucketView<T> {
    /// The memoized value, if any.
    pub cache: Option<T>,
    /// The rule the bucket was made with.
    pub policy: Policy,
    /// Accesses counted since the last refresh.
    pub access_count: nat,
    /// The instant of the last refresh, or of construction.
    pub epoch: Timestamp,
}

impl<T> BucketView<T> {
    /// A bucket that holds nothing, as made at `epoch`.
    pub open spec fn empty(policy: Policy, epoch: Timestamp) -> Self {
        BucketView { cache: None, policy, access_count: 0, epoch }
    }

    /// A value is cached exactly when an access has been counted.
    pub open spec fn well_formed(self) -> bool {
        self.cache is Some <==> self.access_count > 0
    }

    /// The state of the bucket at the instant `now`.
    pub open spec fn state(self, now: Timestamp) -> State {
        if self.cache is None {
            State::Empty
        } else if self.policy@.remaining(self.access_count, elapsed_secs(self.epoch, now)) {
            State::Fresh
        } else {
            State::Stale
        }
    }

    /// How often an access at `now` runs the task: not at all while the
    /// bucket is fresh, once otherwise.
    pub open spec fn task_runs(self, now: Timestamp) -> nat {
        if self.state(now) is Fresh {
            0
        } else {
            1
        }
    }

    /// The bucket after one more access was served from the cache. The
    /// counter stops at `u32::MAX`.
    pub open spec fn reused(self) -> Self {
        BucketView {
            access_count: if self.access_count < u32::MAX {
                self.access_count + 1
            } else {
                self.access_count
            },
            ..self
        }
    }

    /// The bucket after `times` accesses in a row were served from the cache.
    pub open spec fn reused_times(self, times: nat) -> Self
        decreases times,
    {
        if times == 0 {
            self
        } else {
            self.reused_times((times - 1) as nat).reused()
        }
    }

    /// The bucket after a refresh was started at `now`: nothing cached, no
    /// access counted, the epoch moved to `now`.
    pub open spec fn refreshed(self, now: Timestamp) -> Self {
        BucketView { cache: None, policy: self.policy, access_count: 0, epoch: now }
    }

    /// The bucket after a refresh was completed with `kept` as the cached
    /// value: the computation counts as the first access.
    pub open spec fn filled(self, kept: T) -> Self {
        BucketView { cache: Some(kept), access_count: 1, ..self }
    }
}

impl<T: Clone> BucketView<T> {
    /// `value` is a copy of the cached value and `post` is the bucket after
    /// that access.
    pub open spec fn serves(self, post: Self, value: T) -> bool {
        &&& self.cache matches Some(cached)
        &&& cloned(cached, value)
        &&& post == self.reused()
    }

    /// `post` is the bucket after a refresh at `now` that computed `value`:
    /// it caches a copy of `value`.
    pub open spec fn renews(self, now: Timestamp, post: Self, value: T) -> bool {
        &&& post.cache matches Some(kept)
        &&& cloned(value, kept)
        &&& post == self.refreshed(now).filled(kept)
    }

    /// What the first half of an access at `now` leads to: a fresh bucket
    /// serves its cached value; any other bucket is emptied as of `now` and
    /// serves nothing.
    pub open spec fn reuse_tried(self, now: Timestamp, post: Self, served: Option<T>) -> bool {
        if self.task_runs(now) == 0 {
            served matches Some(value) && self.serves(post, value)
        } else {
            served is None && post == self.refreshed(now)
        }
    }

    /// What one access at `now` with `task` may lead to: a fresh bucket
    /// serves its cached value and the task is left alone; any other bucket
    /// is refreshed with a value that the task produced.
    pub open spec fn accessed<F: Task<T>>(
        self,
        now: Timestamp,
        task: F,
        post: Self,
        value: T,
    ) -> bool {
        if self.task_runs(now) == 0 {
            self.serves(post, value)
        } else {
            task.produces(value) && self.renews(now, post, value)
        }
    }

    /// What one access at `now` with a task that may fail may lead to. A
    /// fresh bucket serves its cached value. Any other bucket is emptied as
    /// of `now`; it then caches what the task computed, or stays empty and
    /// passes on the error with which the task failed.
    pub open spec fn attempted<E, F: Task<Result<T, E>>>(
        self,
        now: Timestamp,
        task: F,
        post: Self,
        outcome: Result<T, E>,
    ) -> bool {
        if self.task_runs(now) == 0 {
            outcome matches Ok(value) && self.serves(post, value)
        } else {
            &&& task.produces(outcome)
            &&& match outcome {
                Ok(value) => self.renews(now, post, value),
                Err(_) => post == self.refreshed(now),
            }
        }
    }
}

/// A single-slot cache: one memoized value, the policy that judges it, the
/// accesses counted and the instant of the last refresh.
///
/// A bucket is meant for one caller at a time; it is never shared by itself.
#[derive(Debug, PartialEq, Eq)]
pub struct Bucket<T> {
    cache: Option<T>,
    policy: Policy,
    access_count: u32,
    epoch: Timestamp,
}

impl<T> View for Bucket<T> {
    type V = BucketView<T>;

    closed spec fn view(&self) -> BucketView<T> {
        BucketView {
            cache: self.cache,
            policy: self.policy,
            access_count: self.access_count as nat,
            epoch: self.epoch,
        }
    }
}

impl Policy {
    /// An empty bucket under this policy whose epoch is `now`.
    pub fn into_bucket_at<T>(self, now: Timestamp) -> (bucket: Bucket<T>)
        ensures
            bucket@ == BucketView::<T>::empty(self, now),
    {
        Bucket { cache: None, policy: self, access_count: 0, epoch: now }
    }

    /// An empty bucket under this policy whose epoch is the current instant.
    pub fn into_bucket<T>(self) -> (bucket: Bucket<T>)
        ensures
            bucket@ == BucketView::<T>::empty(self, bucket@.epoch),
    {
        self.into_bucket_at(now())
    }
}

impl<T: Clone> Clone for Bucket<T> {
    /// A second bucket in the same state, with a copy of the cached value.
    fn clone(&self) -> (copy: Self)
        ensures
            copy@.policy == self@.policy,
            copy@.access_count == self@.access_count,
            copy@.epoch == self@.epoch,
            copy@.cache is Some <==> self@.cache is Some,
            self@.cache matches Some(cached) ==> cloned(cached, copy@.cache.unwrap()),
    {
        Bucket {
            cache: self.cache.clone(),
            policy: self.policy.clone(),
            access_count: self.access_count,
            epoch: self.epoch,
        }
    }
}

impl<T> AsRef<Policy> for Bucket<T> {
    /// The policy the bucket was made with.
    fn as_ref(&self) -> (policy: &Policy)
        ensures
            *policy == self@.policy,
    {
        &self.policy
    }
}

impl<T> Bucket<T> {
    /// A bucket made of the given parts, whatever they are.
    pub fn from_parts(
        cache: Option<T>,
        policy: Policy,
        access_count: u32,
        epoch: Timestamp,
    ) -> (bucket: Bucket<T>)
        ensures
            bucket@ == (BucketView { cache, policy, access_count: access_count as nat, epoch }),
    {
        Bucket { cache, policy, access_count, epoch }
    }

    /// Takes the bucket apart: the cached value, the policy, the accesses
    /// counted and the epoch.
    pub fn into_parts(self) -> (parts: (Option<T>, Policy, u32, Timestamp))
        ensures
            parts.0 == self@.cache,
            parts.1 == self@.policy,
            parts.2 == self@.access_count,
            parts.3 == self@.epoch,
    {
        (self.cache, self.policy, self.access_count, self.epoch)
    }

    /// The cached value, if there is one.
    pub fn cached(&self) -> (cached: Option<&T>)
        ensures
            cached is Some <==> self@.cache is Some,
            cached matches Some(value) ==> self@.cache == Some(*value),
    {
        self.cache.as_ref()
    }

    /// The accesses counted since the last refresh.
    pub fn access_count(&self) -> (count: u32)
        ensures
            count == self@.access_count,
    {
        self.access_count
    }

    /// The instant of the last refresh, or of construction.
    pub fn epoch(&self) -> (epoch: Timestamp)
        ensures
            epoch == self@.epoch,
    {
        self.epoch
    }

    /// The state of the bucket at the instant `now`.
    pub fn state_at(&self, now: Timestamp) -> (state: State)
        ensures
            state == self@.state(now),
    {
        if self.cache.is_none() {
            State::Empty
        } else {
            let waited = duration_secs(self.epoch, now);
            proof {
                let exact = elapsed_secs(self.epoch, now);
                if exact > u32::MAX {
                    self.policy.lemma_long_waits_alike(
                        self.access_count as nat,
                        waited as nat,
                        exact,
                    );
                }
            }
            if self.policy.is_remaining(self.access_count, waited) {
                State::Fresh
            } else {
                State::Stale
            }
        }
    }
}

impl<T> Bucket<T> where T: Clone {
    /// Empties the bucket as of `now`: the cached value is dropped, the
    /// counter is reset and the epoch moves to `now`. No task is run.
    pub fn refresh_at(&mut self, now: Timestamp)
        ensures
            final(self)@ == old(self)@.refreshed(now),
    {
        self.access_count = 0;
        self.cache = None;
        self.epoch = now;
    }

    /// Empties the bucket as of the current instant. No task is run.
    pub fn refresh(&mut self)
        ensures
            final(self)@ == old(self)@.refreshed(final(self)@.epoch),
    {
        self.refresh_at(now());
    }

    /// The first half of an access at `now`. A fresh bucket counts the access
    /// and hands out a copy of its value. Any other bucket is emptied as of
    /// `now` and hands out nothing: the caller then computes a value and
    /// gives it to [`Bucket::complete_refresh`].
    pub fn try_reuse_at(&mut self, now: Timestamp) -> (served: Option<T>)
        ensures
            old(self)@.reuse_tried(now, final(self)@, served),
    {
        match self.state_at(now) {
            State::Fresh => {
                let served = self.cache.clone();
                self.access_count = self.access_count.saturating_add(1);
                served
            },
            _ => {
                self.refresh_at(now);
                None
            },
        }
    }

    /// The first half of an access at the current instant, whatever the clock
    /// says it is: see [`Bucket::try_reuse_at`].
    pub fn try_reuse(&mut self) -> (served: Option<T>)
        ensures
            exists|now: Timestamp| #[trigger] old(self)@.reuse_tried(now, final(self)@, served),
    {
        self.try_reuse_at(now())
    }

    /// The second half of an access that found nothing to reuse: caches a
    /// copy of `value`, counts the computation as the first access and hands
    /// `value` back.
    pub fn complete_refresh(&mut self, value: T) -> (fresh: T)
        ensures
            fresh == value,
            final(self)@.cache matches Some(kept) && cloned(value, kept)
                && final(self)@ == old(self)@.filled(kept),
    {
        self.cache = Some(value.clone());
        self.access_count = 1;
        value
    }

    /// One access at the instant `now`: a fresh bucket serves a copy of its
    /// value; any other bucket is refreshed by running `task` once.
    pub fn call_at<F: Task<T>>(&mut self, now: Timestamp, task: F) -> (value: T)
        requires
            task.runnable(),
        ensures
            old(self)@.accessed(now, task, final(self)@, value),
    {
        match self.try_reuse_at(now) {
            Some(value) => value,
            None => {
                let fresh = task.call();
                self.complete_refresh(fresh)
            },
        }
    }

    /// One access at the current instant, whatever the clock says it is.
    pub fn call<F: Task<T>>(&mut self, task: F) -> (value: T)
        requires
            task.runnable(),
        ensures
            exists|now: Timestamp| #[trigger] old(self)@.accessed(now, task, final(self)@, value),
    {
        self.call_at(now(), task)
    }

    /// One access at the instant `now` with a task that may fail. A failure
    /// leaves the bucket empty, with nothing counted, and is handed on.
    pub fn try_call_at<E, F: Task<Result<T, E>>>(
        &mut self,
        now: Timestamp,
        task: F,
    ) -> (outcome: Result<T, E>)
        requires
            task.runnable(),
        ensures
            old(self)@.attempted(now, task, final(self)@, outcome),
    {
        match self.try_reuse_at(now) {
            Some(value) => Ok(value),
            None => {
                match task.call() {
                    Ok(fresh) => Ok(self.complete_refresh(fresh)),
                    Err(error) => Err(error),
                }
            },
        }
    }

    /// One access at the current instant with a task that may fail, whatever
    /// the clock says it is.
    pub fn try_call<E, F: Task<Result<T, E>>>(&mut self, task: F) -> (outcome: Result<T, E>)
        requires
            task.runnable(),
        ensures
            exists|now: Timestamp| #[trigger] old(self)@.attempted(now, task, final(self)@, outcome),
    {
        self.try_call_at(now(), task)
    }
}

/// A bucket that was just made is empty at every instant, whatever its
/// policy: its first access runs the task once and counts as the first
/// access.
pub proof fn lemma_first_access_refreshes<T: Clone, F: Task<T>>(
    policy: Policy,
    epoch: Timestamp,
    now: Timestamp,
    task: F,
    post: BucketView<T>,
    value: T,
)
    ensures
        BucketView::<T>::empty(policy, epoch).state(now) is Empty,
        BucketView::<T>::empty(policy, epoch).task_runs(now) == 1,
        BucketView::<T>::empty(policy, epoch).accessed(now, task, post, value) ==> {
            &&& task.produces(value)
            &&& post.cache is Some
            &&& post.access_count == 1
            &&& post.epoch == now
        },
{
}

/// Whatever a bucket held, once it was refreshed it is empty at every
/// instant: its next access runs the task once.
pub proof fn lemma_refresh_empties<T: Clone, F: Task<T>>(
    bucket: BucketView<T>,
    at: Timestamp,
    now: Timestamp,
    task: F,
    post: BucketView<T>,
    value: T,
)
    ensures
        bucket.refreshed(at).state(now) is Empty,
        bucket.refreshed(at).task_runs(now) == 1,
        bucket.refreshed(at).accessed(now, task, post, value) ==> {
            &&& task.produces(value)
            &&& post.cache is Some
            &&& post.access_count == 1
            &&& post.epoch == now
        },
{
}

/// An access always leaves a well-formed bucket with a value cached, under
/// the policy it was made with. A fresh bucket keeps its value and its epoch;
/// any other bucket starts a new epoch at the instant of the access.
pub proof fn lemma_access_leaves_value<T: Clone, F: Task<T>>(
    bucket: BucketView<T>,
    now: Timestamp,
    task: F,
    post: BucketView<T>,
    value: T,
)
    requires
        bucket.accessed(now, task, post, value),
    ensures
        post.well_formed(),
        post.cache is Some,
        post.policy == bucket.policy,
        post.access_count >= 1,
        bucket.state(now) is Fresh ==> post.cache == bucket.cache && post.epoch == bucket.epoch
            && post.access_count >= bucket.access_count,
        !(bucket.state(now) is Fresh) ==> post.epoch == now && post.access_count == 1,
{
}

/// A new bucket is well formed, and every step of the protocol leaves a
/// bucket so: a value is cached exactly when an access has been counted.
/// Serving from the cache is a step only where a value is cached.
pub proof fn lemma_steps_keep_well_formed<T>(
    bucket: BucketView<T>,
    policy: Policy,
    at: Timestamp,
    kept: T,
)
    ensures
        BucketView::<T>::empty(policy, at).well_formed(),
        bucket.refreshed(at).well_formed(),
        bucket.filled(kept).well_formed(),
        bucket.cache is Some ==> bucket.reused().well_formed(),
{
}

/// The counter never goes down while accesses are served from the cache, and
/// it is exactly zero after a refresh was started.
pub proof fn lemma_counter_between_refreshes<T>(bucket: BucketView<T>, at: Timestamp)
    ensures
        bucket.reused().access_count >= bucket.access_count,
        bucket.reused().access_count <= bucket.access_count + 1,
        bucket.refreshed(at).access_count == 0,
{
}

/// A bucket whose policy charges nothing for time is judged alike at every
/// instant: the clock has no say in whether it is reused.
pub proof fn lemma_timeless_policy_ignores_clock<T>(
    bucket: BucketView<T>,
    now: Timestamp,
    later: Timestamp,
)
    requires
        bucket.policy@.decay_cost == 0,
    ensures
        bucket.state(now) == bucket.state(later),
{
    let cost = bucket.policy@.decay_cost;
    assert(cost * elapsed_secs(bucket.epoch, now) == 0 && cost * elapsed_secs(bucket.epoch, later)
        == 0) by (nonlinear_arith)
        requires
            cost == 0,
    ;
}

/// Under a policy that charges nothing for time, a cached value is fresh
/// exactly while the accesses counted cost less than the budget.
pub proof fn lemma_timeless_policy_counts_accesses<T>(bucket: BucketView<T>, now: Timestamp)
    requires
        bucket.policy@.decay_cost == 0,
        bucket.cache is Some,
    ensures
        bucket.state(now) is Fresh <==> bucket.policy@.access_cost * bucket.access_count
            < bucket.policy@.budget,
{
    let cost = bucket.policy@.decay_cost;
    assert(cost * elapsed_secs(bucket.epoch, now) == 0) by (nonlinear_arith)
        requires
            cost == 0,
    ;
}

/// Accesses that follow one another before a whole second has passed are
/// all served from the cache, with its value untouched, as long as the
/// accesses counted cost less than the budget.
pub proof fn lemma_successive_accesses_are_served<T>(
    bucket: BucketView<T>,
    now: Timestamp,
    served: nat,
)
    requires
        bucket.cache is Some,
        elapsed_secs(bucket.epoch, now) == 0,
        bucket.policy@.access_cost * (bucket.access_count + served) < bucket.policy@.budget,
    ensures
        bucket.reused_times(served).state(now) is Fresh,
        bucket.reused_times(served).cache == bucket.cache,
        bucket.reused_times(served).policy == bucket.policy,
        bucket.reused_times(served).epoch == bucket.epoch,
        bucket.reused_times(served).access_count <= bucket.access_count + served,
        bucket.access_count + served <= u32::MAX ==> bucket.reused_times(served).access_count
            == bucket.access_count + served,
    decreases served,
{
    let cost = bucket.policy@.access_cost;
    let decay = bucket.policy@.decay_cost;
    assert(decay * 0 == 0) by (nonlinear_arith);
    if served > 0 {
        let fewer = (served - 1) as nat;
        assert(cost * (bucket.access_count + fewer) <= cost * (bucket.access_count + served))
            by (nonlinear_arith)
            requires
                fewer <= served,
        ;
        lemma_successive_accesses_are_served(bucket, now, fewer);
    }
    let counted = bucket.reused_times(served).access_count;
    assert(cost * counted <= cost * (bucket.access_count + served)) by (nonlinear_arith)
        requires
            counted <= bucket.access_count + served,
    ;
}

/// A failed refresh leaves the bucket empty with nothing counted, so that
/// the next access runs the task again.
pub proof fn lemma_failure_leaves_empty<T: Clone, E, F: Task<Result<T, E>>>(
    bucket: BucketView<T>,
    now: Timestamp,
    task: F,
    post: BucketView<T>,
    outcome: Result<T, E>,
    later: Timestamp,
)
    requires
        bucket.attempted(now, task, post, outcome),
        outcome is Err,
    ensures
        task.produces(outcome),
        !(bucket.state(now) is Fresh),
        post.cache is None,
        post.access_count == 0,
        post.task_runs(later) == 1,
{
}

/// A value that has gone stale stays stale as time goes on: only a refresh
/// makes the bucket fresh again.
pub proof fn lemma_stale_stays_stale<T>(bucket: BucketView<T>, now: Timestamp, later: Timestamp)
    requires
        bucket.state(now) is Stale,
        now@ <= later@,
    ensures
        bucket.state(later) is Stale,
{
    let before = elapsed_secs(bucket.epoch, now);
    let after = elapsed_secs(bucket.epoch, later);
    assert(before <= after);
    crate::policy::lemma_spent_is_monotonic(
        bucket.policy@,
        bucket.access_count,
        before,
        bucket.access_count,
        after,
    );
}

} // verus!
