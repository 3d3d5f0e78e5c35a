//! A single-slot memoizing cache whose freshness is governed by a cost budget.
//!
//! A [`Policy`] charges a cost for every access served from the cache and for
//! every whole second that has passed since the cached value was computed. A
//! [`Bucket`] holds one value under such a policy and recomputes it, through a
//! caller-supplied [`Task`], as soon as the accumulated cost reaches the budget.

pub mod bucket;
pub mod clock;
pub mod policy;
pub mod task;

pub use bucket::Bucket;
pub use bucket::BucketView;
pub use bucket::State;
pub use clock::Timestamp;
pub use policy::Policy;
pub use policy::PolicyView;
pub use task::Task;
