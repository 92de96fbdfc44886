//! The contexts within which style is calculated.

use crate::animation::Animation;
use crate::animation::AnimationMap;
use crate::channel::clone_sender;
use crate::channel::send_on;
use crate::channel::sender_channel;
use crate::error_reporting::ParseErrorReporter;
use crate::matching::fresh_style;
use crate::matching::StyleHandle;
use crate::matching::StyleSharingCandidate;
use crate::matching::StyleSharingCandidateCache;
use crate::stylist::Stylist;
use crate::timer::Timer;
use app_units::Au;
use euclid::default::Size2D;
use parking_lot::RwLock;
use std::sync::mpsc::Sender;
use std::sync::Arc;
use std::sync::Mutex;
use std::sync::MutexGuard;
use std::sync::PoisonError;
use vstd::prelude::*;

verus! {

/// euclid's `Size2D`, a width and a height in some unit. It is carried as it
/// is.
#[verifier::external_type_specification]
#[verifier::external_body]
#[verifier::reject_recursive_types(T)]
#[verifier::reject_recursive_types(U)]
pub struct ExSize2D<T, U>(euclid::Size2D<T, U>);

/// euclid's `UnknownUnit`, the unit of a size that names none.
#[verifier::external_type_specification]
#[verifier::external_body]
pub struct ExUnknownUnit(euclid::UnknownUnit);

/// app_units' `Au`, a length in app units. It is carried as it is.
#[verifier::external_type_specification]
#[verifier::external_body]
pub struct ExAu(Au);

/// std's `std::sync::Mutex`. It is carried as it is: nothing is said of what
/// a mutex holds, which any thread that takes the lock may change.
#[verifier::external_type_specification]
#[verifier::external_body]
#[verifier::reject_recursive_types(T)]
pub struct ExMutex<T: ?Sized>(Mutex<T>);

/// std's `std::sync::MutexGuard`, which gives the lock back when it is
/// dropped.
#[verifier::external_type_specification]
#[verifier::external_body]
#[verifier::reject_recursive_types(T)]
pub struct ExMutexGuard<'a, T: ?Sized + 'a>(MutexGuard<'a, T>);

/// std's `std::sync::PoisonError`, the error of a lock whose holder
/// panicked. It holds the guard that the lock would have returned.
#[verifier::external_type_specification]
#[verifier::external_body]
#[verifier::reject_recursive_types(T)]
pub struct ExPoisonError<T>(PoisonError<T>);

/// The seed of the workers' contexts: what a worker needs, besides the shared
/// context, to build a context of its own.
pub struct ThreadLocalStyleContextCreationInfo {
    new_animations_sender: Sender<Animation>,
}

impl ThreadLocalStyleContextCreationInfo {
    /// The channel that the sender of this seed feeds, and with it the
    /// sender of every context that is built from the seed.
    pub closed spec fn channel(&self) -> int {
        sender_channel(self.new_animations_sender)
    }

    /// A seed that hands out clones of `animations_sender`.
    pub fn new(animations_sender: Sender<Animation>) -> (info: Self)
        ensures
            info.channel() == sender_channel(animations_sender),
    {
        ThreadLocalStyleContextCreationInfo { new_animations_sender: animations_sender }
    }

    /// A sender of its own for one worker, on the channel of the seed.
    /// Cloning does not fail; whether anyone still listens shows only when
    /// something is sent.
    pub fn clone_sender(&self) -> (sender: Sender<Animation>)
        ensures
            sender_channel(sender) == self.channel(),
    {
        clone_sender(&self.new_animations_sender)
    }
}

/// How permissively the style rules of the document are matched.
#[derive(PartialEq, Eq, Copy, Clone, Hash, Debug, Structural)]
pub enum QuirksMode {
    /// Quirks mode.
    Quirks,
    /// Limited quirks mode.
    LimitedQuirks,
    /// No quirks mode.
    NoQuirks,
}

/// Why a reflow pass is made.
#[derive(PartialEq, Eq, Copy, Clone, Debug, Structural)]
pub enum ReflowGoal {
    /// To put the document on the screen.
    ForDisplay,
    /// To answer a query of a script. Nothing is put on the screen.
    ForScriptQuery,
}

/// What all the workers of one reflow pass read. Every field can be read
/// from any thread without a lock, but for the animation maps and the seed,
/// which bring their own.
pub struct SharedStyleContext {
    /// The size of the viewport, which stays the same for the pass.
    pub viewport_size: Size2D<Au>,
    /// Whether the size of the screen has changed since the pass before.
    pub screen_size_changed: bool,
    /// The compiled style rules, shared by all readers.
    pub stylist: Arc<Stylist>,
    /// The number of the pass. It goes up by one with every pass, so that
    /// what is left over from an earlier pass can be told by its number.
    pub generation: u32,
    /// Why this pass is made.
    pub goal: ReflowGoal,
    /// The animations that are running, by node.
    pub running_animations: Arc<RwLock<AnimationMap>>,
    /// The animations that have ended since the pass before, by node.
    pub expired_animations: Arc<RwLock<AnimationMap>>,
    /// Where diagnostics go.
    pub error_reporter: Box<dyn ParseErrorReporter>,
    /// The seed from which the workers build their own contexts. The lock
    /// is there so that one worker at a time clones the sender.
    pub local_context_creation_data: Mutex<ThreadLocalStyleContextCreationInfo>,
    /// The time by which the pass measures transitions and animations.
    pub timer: Timer,
    /// The quirks mode of the document.
    pub quirks_mode: QuirksMode,
}

/// `next` is the context of the pass that follows the pass of `previous`:
/// its generation is one more, and nothing else has changed.
pub open spec fn is_next_pass(previous: SharedStyleContext, next: SharedStyleContext) -> bool {
    &&& previous.generation < u32::MAX
    &&& next == (SharedStyleContext { generation: (previous.generation + 1) as u32, ..previous })
}

/// In `passes` every context but the first is the next pass of the one
/// before it.
pub open spec fn is_run_of_passes(passes: Seq<SharedStyleContext>) -> bool {
    forall|k: int| 0 < k < passes.len() ==> is_next_pass(passes[k - 1], #[trigger] passes[k])
}

/// Generations count the passes. In a run of passes the generation of a
/// later pass is that of an earlier one plus the number of passes between
/// them, so it grows by one from each pass to the next; and a later pass
/// differs from an earlier one in its generation alone.
pub proof fn lemma_generations_count_passes(
    passes: Seq<SharedStyleContext>,
    earlier: int,
    later: int,
)
    requires
        is_run_of_passes(passes),
        0 <= earlier <= later < passes.len(),
    ensures
        passes[later].generation == passes[earlier].generation + (later - earlier),
        passes[later] == (SharedStyleContext {
            generation: passes[later].generation,
            ..passes[earlier]
        }),
    decreases later - earlier,
{
    if earlier < later {
        lemma_generations_count_passes(passes, earlier, later - 1);
        assert(is_next_pass(passes[later - 1], passes[later]));
    }
}

/// A style that a worker has cached in one pass is not shared in any later
/// pass of the run, though the cache was not cleared in between.
pub proof fn lemma_cached_style_is_stale_in_later_passes(
    passes: Seq<SharedStyleContext>,
    earlier: int,
    later: int,
    entries: Map<u64, StyleSharingCandidate>,
    key: u64,
)
    requires
        is_run_of_passes(passes),
        0 <= earlier < later < passes.len(),
        entries.contains_key(key),
        entries[key].generation == passes[earlier].generation,
    ensures
        fresh_style(entries, key, passes[later].generation) is None,
{
    lemma_generations_count_passes(passes, earlier, later);
}

/// Calls `Mutex::new`, which puts the seed behind a lock that nobody holds.
/// Nothing is claimed of the mutex.
#[verifier::external_body]
fn guard_seed(seed: ThreadLocalStyleContextCreationInfo) -> (guarded: Mutex<
    ThreadLocalStyleContextCreationInfo,
>) {
    Mutex::new(seed)
}

/// Calls `Mutex::lock`, which waits until nobody else holds the lock. std
/// returns the guard in an error when an earlier holder panicked; both
/// outcomes are handed on. A thread that already holds the lock must not
/// call it. Nothing is claimed of the result.
#[verifier::external_body]
fn lock_seed<'a>(guarded: &'a Mutex<ThreadLocalStyleContextCreationInfo>) -> (locked: Result<
    MutexGuard<'a, ThreadLocalStyleContextCreationInfo>,
    PoisonError<MutexGuard<'a, ThreadLocalStyleContextCreationInfo>>,
>) {
    guarded.lock()
}

/// Calls `PoisonError::into_inner`, which gives the guard that the error
/// holds. The call does not fail.
#[verifier::external_body]
fn guard_of_poisoned<'a>(
    poisoned: PoisonError<MutexGuard<'a, ThreadLocalStyleContextCreationInfo>>,
) -> (guard: MutexGuard<'a, ThreadLocalStyleContextCreationInfo>) {
    poisoned.into_inner()
}

/// Calls `Deref::deref` of std's `MutexGuard`: the seed behind the lock.
/// Nothing is claimed of it.
#[verifier::external_body]
fn locked_seed<'a, 'b>(
    guard: &'b MutexGuard<'a, ThreadLocalStyleContextCreationInfo>,
) -> (seed: &'b ThreadLocalStyleContextCreationInfo) {
    &**guard
}

impl SharedStyleContext {
    /// The context of one reflow pass. The seed goes behind a lock of its own.
    pub fn new(
        viewport_size: Size2D<Au>,
        screen_size_changed: bool,
        stylist: Arc<Stylist>,
        generation: u32,
        goal: ReflowGoal,
        running_animations: Arc<RwLock<AnimationMap>>,
        expired_animations: Arc<RwLock<AnimationMap>>,
        error_reporter: Box<dyn ParseErrorReporter>,
        local_context_creation_data: ThreadLocalStyleContextCreationInfo,
        timer: Timer,
        quirks_mode: QuirksMode,
    ) -> (context: Self)
        ensures
            context.viewport_size == viewport_size,
            context.screen_size_changed == screen_size_changed,
            context.stylist == stylist,
            context.generation == generation,
            context.goal == goal,
            context.running_animations == running_animations,
            context.expired_animations == expired_animations,
            context.error_reporter === error_reporter,
            context.timer == timer,
            context.quirks_mode == quirks_mode,
    {
        SharedStyleContext {
            viewport_size,
            screen_size_changed,
            stylist,
            generation,
            goal,
            running_animations,
            expired_animations,
            error_reporter,
            local_context_creation_data: guard_seed(local_context_creation_data),
            timer,
            quirks_mode,
        }
    }

    /// Builds the context of a worker thread from the seed: takes the lock
    /// on the seed, clones its sender, and gives the lock back. A worker does
    /// this once, when it first takes part in a pass. A lock that an earlier
    /// holder left poisoned is taken all the same: the seed is only read.
    /// The calling thread must not hold the lock on the seed already.
    ///
    /// Which seed the lock holds is not known here;
    /// [`ThreadLocalStyleContext::new`] says what is built from it.
    pub fn new_thread_local_context(&self) -> (local: ThreadLocalStyleContext)
        ensures
            local.style_sharing_candidate_cache@ == Map::<u64, StyleSharingCandidate>::empty(),
    {
        let guard = match lock_seed(&self.local_context_creation_data) {
            Ok(guard) => guard,
            Err(poisoned) => guard_of_poisoned(poisoned),
        };
        ThreadLocalStyleContext::new(locked_seed(&guard))
    }

    /// Moves on to the next pass: the generation goes up by one and nothing
    /// else changes. Where the counter has run out, nothing changes at all and
    /// the result is `false`.
    pub fn advance_generation(&mut self) -> (advanced: bool)
        ensures
            advanced == (old(self).generation < u32::MAX),
            advanced ==> is_next_pass(*old(self), *final(self)),
            !advanced ==> *final(self) == *old(self),
    {
        if self.generation < u32::MAX {
            self.generation = self.generation + 1;
            true
        } else {
            false
        }
    }
}

/// What one worker thread keeps to itself, from pass to pass.
pub struct ThreadLocalStyleContext {
    /// The styles that this worker has resolved and can share.
    pub style_sharing_candidate_cache: StyleSharingCandidateCache,
    /// The channel on which this worker reports the animations that style
    /// recalculation has started.
    pub new_animations_sender: Sender<Animation>,
}

impl ThreadLocalStyleContext {
    /// The context of a worker that has not styled anything yet: its cache
    /// is empty, and its sender is a clone of the seed's.
    pub fn new(local_context_creation_data: &ThreadLocalStyleContextCreationInfo) -> (local: Self)
        ensures
            local.style_sharing_candidate_cache@ == Map::<u64, StyleSharingCandidate>::empty(),
            sender_channel(local.new_animations_sender) == local_context_creation_data.channel(),
    {
        ThreadLocalStyleContext {
            style_sharing_candidate_cache: StyleSharingCandidateCache::new(),
            new_animations_sender: local_context_creation_data.clone_sender(),
        }
    }

    /// Reports `animation` to the animation scheduler. The result is `false`
    /// where the channel did not take it, because the scheduler has dropped
    /// the receiving end; that is no fault, and the worker goes on.
    pub fn send_animation(&self, animation: Animation) -> (accepted: bool) {
        send_on(&self.new_animations_sender, animation)
    }
}

/// The two contexts of a worker at work on one element.
pub struct StyleContext<'a> {
    /// What all workers of the pass read.
    pub shared: &'a SharedStyleContext,
    /// What this worker keeps to itself. The borrow is exclusive: while
    /// the pair stands, nothing else reaches the worker's cache.
    pub thread_local: &'a mut ThreadLocalStyleContext,
}

/// All workers of a pass read the same. Two workers that pair their own
/// contexts with the shared context of one pass see the same generation, the
/// same viewport, the same style rules, the same goal and the same quirks
/// mode, whatever each of them keeps to itself.
pub proof fn lemma_workers_of_a_pass_read_the_same(first: StyleContext, second: StyleContext)
    requires
        first.shared == second.shared,
    ensures
        first.shared.generation == second.shared.generation,
        first.shared.viewport_size == second.shared.viewport_size,
        first.shared.stylist == second.shared.stylist,
        first.shared.goal == second.shared.goal,
        first.shared.quirks_mode == second.shared.quirks_mode,
{
}

impl<'a> StyleContext<'a> {
    /// The entries of the worker's style-sharing cache.
    pub open spec fn cache(&self) -> Map<u64, StyleSharingCandidate> {
        self.thread_local.style_sharing_candidate_cache@
    }

    /// The style that this worker can share with an element whose
    /// equivalence key is `key`: one that it has cached in the current pass.
    pub fn shared_style(&self, key: u64) -> (found: Option<StyleHandle>)
        ensures
            found == fresh_style(self.cache(), key, self.shared.generation),
    {
        self.thread_local.style_sharing_candidate_cache.lookup(key, self.shared.generation)
    }

    /// Caches `style` under `key` as resolved in the current pass.
    pub fn cache_style(&mut self, key: u64, style: StyleHandle)
        ensures
            final(self).shared == old(self).shared,
            *final(final(self).thread_local) == *final(old(self).thread_local),
            final(self).cache() == old(self).cache().insert(
                key,
                (StyleSharingCandidate { style, generation: old(self).shared.generation }),
            ),
            final(self).thread_local.new_animations_sender == old(
                self,
            ).thread_local.new_animations_sender,
    {
        self.thread_local.style_sharing_candidate_cache.insert(key, style, self.shared.generation);
    }
}

} // verus!
