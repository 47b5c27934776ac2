//! The decisions of the main loop: when to sample, when to paint, and what
//! each incoming event means. The loop itself (clock, channels, terminal)
//! runs outside and hands the coordinator plain values.

use vstd::prelude::*;
use crate::redraw::{RedrawCause, RedrawEventEnum, all_causes};
use crate::registry::{ResourceKind, ResourceTag, route, tag_matches};

verus! {

/// Milliseconds since `last` at time `now`, or `None` when the clock went
/// backwards.
pub open spec fn since(now: u64, last: u64) -> Option<nat> {
    if now >= last {
        Some((now - last) as nat)
    } else {
        None
    }
}

/// A sampling pass is due once more than `interval` has passed since the last
/// one. A clock that went backwards postpones sampling.
pub open spec fn sample_due(now: u64, last_sync: u64, interval: u64) -> bool {
    match since(now, last_sync) {
        Some(d) => d > interval,
        None => false,
    }
}

/// A paint is due for a terminal event or new data at once, and for a bare
/// periodic tick only once at least `min_redraw` has passed since the last
/// paint. A clock that went backwards counts as long enough.
pub open spec fn paint_due(causes: Set<RedrawCause>, now: u64, last_draw: u64, min_redraw: u64) -> bool {
    ||| causes.contains(RedrawCause::Term)
    ||| causes.contains(RedrawCause::Sensor)
    ||| (causes.contains(RedrawCause::Interval) && match since(now, last_draw) {
        Some(d) => d >= min_redraw,
        None => true,
    })
}

/// Periodic ticks alone are rate-limited: when nothing but the tick is
/// pending and the clock runs forward, a paint happens only once at least
/// `min_redraw` has passed since the last one.
pub proof fn lemma_ticks_are_rate_limited(
    causes: Set<RedrawCause>,
    now: u64,
    last_draw: u64,
    min_redraw: u64,
)
    requires
        causes.subset_of(set![RedrawCause::Interval]),
        now >= last_draw,
        paint_due(causes, now, last_draw, min_redraw),
    ensures
        now - last_draw >= min_redraw,
{
    if causes.contains(RedrawCause::Term) {
        assert(set![RedrawCause::Interval].contains(RedrawCause::Term));
    }
    if causes.contains(RedrawCause::Sensor) {
        assert(set![RedrawCause::Interval].contains(RedrawCause::Sensor));
    }
}

/// What the loop hands the coordinator after its bounded wait.
#[derive(Debug, Clone)]
pub enum LoopEvent {
    /// The terminal was resized.
    Resize(u16, u16),
    /// A key was pressed (the layout interprets it).
    Key,
    /// A sensor response of `kind` with identity `id` arrived.
    Sensor(ResourceKind, String),
    /// The view reports which resource has focus.
    FocusedIndex(usize),
    /// The user asked to quit.
    Quit,
    /// The wait timed out with no event.
    Timeout,
    /// The event channel is closed.
    Disconnected,
}

/// What the loop must do about an event.
#[derive(Debug, Clone, Copy, PartialEq, Eq, Structural)]
pub enum Reaction {
    /// Recompute the layout for the new terminal size.
    Relayout(u16, u16),
    /// Let the layout handle the key.
    HandleKey,
    /// Apply the response to the resource at this registry index.
    Apply(usize),
    /// No resource matches the response; drop it.
    Unrouted,
    /// Leave the loop.
    Stop,
    /// Nothing to do.
    Idle,
}

/// The main loop's state: pending redraw causes, the times of the last
/// sampling pass and of the last paint, and the registry in display order.
pub struct Coordinator {
    causes: RedrawEventEnum,
    last_sync_ms: u64,
    last_draw_ms: u64,
    sync_interval_ms: u64,
    min_redraw_ms: u64,
    tags: Vec<ResourceTag>,
    focused_index: Option<usize>,
    quit: bool,
}

/// What an event leaves of the coordinator's state: pending causes, last
/// sampling time, last paint time, registry, focused index, stopped.
pub type CoordinatorState = (Set<RedrawCause>, u64, u64, Seq<ResourceTag>, Option<usize>, bool);

/// The state after handling one event.
pub open spec fn event_step(s: CoordinatorState, e: LoopEvent) -> CoordinatorState {
    match e {
        LoopEvent::Resize(_, _) => (s.0.insert(RedrawCause::Term), s.1, s.2, s.3, s.4, s.5),
        LoopEvent::Key => (s.0.insert(RedrawCause::Term), s.1, s.2, s.3, s.4, s.5),
        LoopEvent::Sensor(_, _) => (s.0.insert(RedrawCause::Sensor), s.1, s.2, s.3, s.4, s.5),
        LoopEvent::FocusedIndex(i) => (s.0, s.1, s.2, s.3, Some(i), s.5),
        LoopEvent::Quit => (s.0, s.1, s.2, s.3, s.4, true),
        LoopEvent::Timeout => (s.0.insert(RedrawCause::Interval), s.1, s.2, s.3, s.4, s.5),
        LoopEvent::Disconnected => s,
    }
}

/// The state after handling `events` in order.
pub open spec fn after_events(s: CoordinatorState, events: Seq<LoopEvent>) -> CoordinatorState
    decreases events.len(),
{
    if events.len() == 0 {
        s
    } else {
        event_step(after_events(s, events.drop_last()), events.last())
    }
}

/// Isolation: whatever events arrive between two sampling passes (responses
/// of any resource, or none at all because a fetch failed), the sampling
/// time and the registry stay as they were, so the next pass is due at the
/// same moment and requests every resource again.
pub proof fn lemma_events_keep_sampling(s: CoordinatorState, events: Seq<LoopEvent>, now: u64, interval: u64)
    ensures
        after_events(s, events).1 == s.1,
        after_events(s, events).3 == s.3,
        sample_due(now, after_events(s, events).1, interval) == sample_due(now, s.1, interval),
    decreases events.len(),
{
    if events.len() > 0 {
        lemma_events_keep_sampling(s, events.drop_last(), now, interval);
    }
}

/// Coalescing over a burst: after any non-empty run of sensor responses the
/// next paint decision paints, whatever the time; the paint clears the set,
/// and with no event after it the following decision does not paint.
pub proof fn lemma_burst_coalesces(s: CoordinatorState, events: Seq<LoopEvent>, now: u64, later: u64, min_redraw: u64)
    requires
        events.len() > 0,
        forall|i: int| 0 <= i < events.len() ==> (#[trigger] events[i]) is Sensor,
    ensures
        paint_due(after_events(s, events).0, now, after_events(s, events).2, min_redraw),
        !paint_due(Set::<RedrawCause>::empty(), later, now, min_redraw),
{
    assert(events.last() is Sensor);
    assert(after_events(s, events).0.contains(RedrawCause::Sensor));
}

impl Coordinator {
    /// The state the event laws speak of.
    pub closed spec fn state(&self) -> CoordinatorState {
        (self.causes@, self.last_sync_ms, self.last_draw_ms, self.tags@, self.focused_index, self.quit)
    }

    pub closed spec fn causes(&self) -> Set<RedrawCause> {
        self.causes@
    }

    pub closed spec fn last_sync(&self) -> u64 {
        self.last_sync_ms
    }

    pub closed spec fn last_draw(&self) -> u64 {
        self.last_draw_ms
    }

    pub closed spec fn sync_interval(&self) -> u64 {
        self.sync_interval_ms
    }

    pub closed spec fn min_redraw(&self) -> u64 {
        self.min_redraw_ms
    }

    pub closed spec fn registry(&self) -> Seq<ResourceTag> {
        self.tags@
    }

    pub closed spec fn focused(&self) -> Option<usize> {
        self.focused_index
    }

    pub closed spec fn stopped(&self) -> bool {
        self.quit
    }

    /// A coordinator over the resources `tags`, in display order. Nothing has
    /// been sampled or painted yet (both times are the epoch), and every cause
    /// is pending so that the first iteration paints.
    pub fn new(tags: Vec<ResourceTag>, sync_interval_ms: u64, min_redraw_ms: u64) -> (r: Self)
        ensures
            r.causes() == all_causes(),
            r.last_sync() == 0,
            r.last_draw() == 0,
            r.sync_interval() == sync_interval_ms,
            r.min_redraw() == min_redraw_ms,
            r.registry() == tags@,
            r.focused() is None,
            !r.stopped(),
    {
        Coordinator {
            causes: RedrawEventEnum::all(),
            last_sync_ms: 0,
            last_draw_ms: 0,
            sync_interval_ms,
            min_redraw_ms,
            tags,
            focused_index: None,
            quit: false,
        }
    }

    /// The resources in display order.
    pub fn resources(&self) -> (r: &Vec<ResourceTag>)
        ensures
            r@ == self.registry(),
    {
        &self.tags
    }

    pub fn focused_index(&self) -> (r: Option<usize>)
        ensures
            r == self.focused(),
    {
        self.focused_index
    }

    pub fn is_stopped(&self) -> (r: bool)
        ensures
            r == self.stopped(),
    {
        self.quit
    }

    pub fn pending(&self) -> (r: RedrawEventEnum)
        ensures
            r@ == self.causes(),
    {
        self.causes
    }

    /// Sampling phase: whether a pass is due at `now`. When it is, the pass is
    /// recorded as done at `now`; the loop then requests every resource, in
    /// the order `sampling_order` gives.
    pub fn sampling_due(&mut self, now: u64) -> (r: bool)
        ensures
            r == sample_due(now, old(self).last_sync(), old(self).sync_interval()),
            final(self).last_sync() == if r { now } else { old(self).last_sync() },
            final(self).causes() == old(self).causes(),
            final(self).last_draw() == old(self).last_draw(),
            final(self).sync_interval() == old(self).sync_interval(),
            final(self).min_redraw() == old(self).min_redraw(),
            final(self).registry() == old(self).registry(),
            final(self).focused() == old(self).focused(),
            final(self).stopped() == old(self).stopped(),
    {
        let due = now >= self.last_sync_ms && now - self.last_sync_ms > self.sync_interval_ms;
        if due {
            self.last_sync_ms = now;
        }
        due
    }

    /// The registry indices that a sampling pass requests, in order: every
    /// resource, whatever any earlier fetch returned.
    pub fn sampling_order(&self) -> (r: Vec<usize>)
        ensures
            r@.len() == self.registry().len(),
            forall|i: int| 0 <= i < r@.len() ==> #[trigger] r@[i] == i,
    {
        let n = self.tags.len();
        let mut r: Vec<usize> = Vec::new();
        let mut i: usize = 0;
        while i < n
            invariant
                i <= n,
                n == self.tags@.len(),
                r@.len() == i,
                forall|k: int| 0 <= k < i ==> #[trigger] r@[k] == k,
            decreases n - i,
        {
            r.push(i);
            i = i + 1;
        }
        r
    }

    /// Paint-decision phase: whether to paint at `now`. When it paints, the
    /// paint time becomes `now` and the cause set is cleared in the same step.
    pub fn paint_due(&mut self, now: u64) -> (r: bool)
        ensures
            r == paint_due(old(self).causes(), now, old(self).last_draw(), old(self).min_redraw()),
            final(self).causes() == if r { Set::<RedrawCause>::empty() } else { old(self).causes() },
            final(self).last_draw() == if r { now } else { old(self).last_draw() },
            final(self).last_sync() == old(self).last_sync(),
            final(self).sync_interval() == old(self).sync_interval(),
            final(self).min_redraw() == old(self).min_redraw(),
            final(self).registry() == old(self).registry(),
            final(self).focused() == old(self).focused(),
            final(self).stopped() == old(self).stopped(),
    {
        let tick_ready = now < self.last_draw_ms || now - self.last_draw_ms >= self.min_redraw_ms;
        let due = self.causes.contains(RedrawCause::Term) || self.causes.contains(RedrawCause::Sensor)
            || (self.causes.contains(RedrawCause::Interval) && tick_ready);
        if due {
            self.last_draw_ms = now;
            self.causes = RedrawEventEnum::empty();
        }
        due
    }

    /// Wait phase: what an event means. Terminal events and sensor responses
    /// mark their cause, a timeout marks the periodic tick, and only `Quit`
    /// stops the loop. A response goes to the first resource it matches.
    pub fn handle_event(&mut self, event: LoopEvent) -> (r: Reaction)
        ensures
            final(self).state() == event_step(old(self).state(), event),
            final(self).last_sync() == old(self).last_sync(),
            final(self).last_draw() == old(self).last_draw(),
            final(self).sync_interval() == old(self).sync_interval(),
            final(self).min_redraw() == old(self).min_redraw(),
            final(self).registry() == old(self).registry(),
            final(self).stopped() == (old(self).stopped() || event is Quit),
            match event {
                LoopEvent::Resize(w, h) => {
                    &&& r == Reaction::Relayout(w, h)
                    &&& final(self).causes() == old(self).causes().insert(RedrawCause::Term)
                    &&& final(self).focused() == old(self).focused()
                },
                LoopEvent::Key => {
                    &&& r == Reaction::HandleKey
                    &&& final(self).causes() == old(self).causes().insert(RedrawCause::Term)
                    &&& final(self).focused() == old(self).focused()
                },
                LoopEvent::Sensor(kind, id) => {
                    &&& final(self).causes() == old(self).causes().insert(RedrawCause::Sensor)
                    &&& final(self).focused() == old(self).focused()
                    &&& match r {
                        Reaction::Apply(i) => {
                            &&& i < old(self).registry().len()
                            &&& tag_matches(old(self).registry()[i as int], kind, id@)
                            &&& forall|j: int|
                                0 <= j < i ==> !tag_matches(#[trigger] old(self).registry()[j], kind, id@)
                        },
                        Reaction::Unrouted => forall|j: int|
                            0 <= j < old(self).registry().len() ==> !tag_matches(
                                #[trigger] old(self).registry()[j],
                                kind,
                                id@,
                            ),
                        _ => false,
                    }
                },
                LoopEvent::FocusedIndex(i) => {
                    &&& r == Reaction::Idle
                    &&& final(self).causes() == old(self).causes()
                    &&& final(self).focused() == Some(i)
                },
                LoopEvent::Quit => {
                    &&& r == Reaction::Stop
                    &&& final(self).causes() == old(self).causes()
                    &&& final(self).focused() == old(self).focused()
                },
                LoopEvent::Timeout => {
                    &&& r == Reaction::Idle
                    &&& final(self).causes() == old(self).causes().insert(RedrawCause::Interval)
                    &&& final(self).focused() == old(self).focused()
                },
                LoopEvent::Disconnected => {
                    &&& r == Reaction::Idle
                    &&& final(self).causes() == old(self).causes()
                    &&& final(self).focused() == old(self).focused()
                },
            },
    {
        match event {
            LoopEvent::Resize(w, h) => {
                self.causes = self.causes.union(RedrawCause::Term);
                Reaction::Relayout(w, h)
            },
            LoopEvent::Key => {
                self.causes = self.causes.union(RedrawCause::Term);
                Reaction::HandleKey
            },
            LoopEvent::Sensor(kind, id) => {
                let target = route(&self.tags, kind, &id);
                self.causes = self.causes.union(RedrawCause::Sensor);
                match target {
                    Some(i) => Reaction::Apply(i),
                    None => Reaction::Unrouted,
                }
            },
            LoopEvent::FocusedIndex(i) => {
                self.focused_index = Some(i);
                Reaction::Idle
            },
            LoopEvent::Quit => {
                self.quit = true;
                Reaction::Stop
            },
            LoopEvent::Timeout => {
                self.causes = self.causes.union(RedrawCause::Interval);
                Reaction::Idle
            },
            LoopEvent::Disconnected => Reaction::Idle,
        }
    }
}

} // verus!
