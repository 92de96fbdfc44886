//! Contexts for computing style in parallel.
//!
//! One [`SharedStyleContext`] is built for each reflow pass and read by every
//! worker thread. Each worker owns a [`ThreadLocalStyleContext`], built once
//! from the seed that the shared context guards and reused from pass to pass.
//! A [`StyleContext`] pairs the two for the time it takes to style one element.

pub mod animation;
pub mod channel;
pub mod context;
pub mod dom;
pub mod error_reporting;
pub mod matching;
pub mod stylist;
pub mod timer;

pub use animation::Animation;
pub use animation::AnimationMap;
pub use context::QuirksMode;
pub use context::ReflowGoal;
pub use context::SharedStyleContext;
pub use context::StyleContext;
pub use context::ThreadLocalStyleContext;
pub use context::ThreadLocalStyleContextCreationInfo;
pub use dom::OpaqueNode;
pub use error_reporting::ParseErrorReporter;
pub use matching::StyleHandle;
pub use matching::StyleSharingCandidate;
pub use matching::StyleSharingCandidateCache;
pub use stylist::Stylist;
pub use timer::Timer;
