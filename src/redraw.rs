//! Why a repaint is pending: a small set accumulated between paints.

use vstd::prelude::*;

verus! {

/// One reason to repaint.
#[derive(Debug, Clone, Copy, PartialEq, Eq, Structural)]
pub enum RedrawCause {
    /// A sensor response changed resource state.
    Sensor,
    /// The periodic tick elapsed without any other event.
    Interval,
    /// A terminal event: a key press or a resize.
    Term,
}

/// The set of pending redraw causes.
#[derive(Debug, Clone, Copy, PartialEq, Eq, Structural)]
pub struct RedrawEventEnum {
    sensor: bool,
    interval: bool,
    term: bool,
}

impl View for RedrawEventEnum {
    type V = Set<RedrawCause>;

    closed spec fn view(&self) -> Set<RedrawCause> {
        Set::new(
            |c: RedrawCause|
                match c {
                    RedrawCause::Sensor => self.sensor,
                    RedrawCause::Interval => self.interval,
                    RedrawCause::Term => self.term,
                },
        )
    }
}

/// Every cause.
pub open spec fn all_causes() -> Set<RedrawCause> {
    set![RedrawCause::Sensor, RedrawCause::Interval, RedrawCause::Term]
}

impl RedrawEventEnum {
    pub fn empty() -> (r: Self)
        ensures
            r@ == Set::<RedrawCause>::empty(),
    {
        let r = RedrawEventEnum { sensor: false, interval: false, term: false };
        assert(r@ =~= Set::<RedrawCause>::empty());
        r
    }

    pub fn all() -> (r: Self)
        ensures
            r@ == all_causes(),
    {
        let r = RedrawEventEnum { sensor: true, interval: true, term: true };
        assert(r@ =~= all_causes());
        r
    }

    pub fn contains(&self, c: RedrawCause) -> (r: bool)
        ensures
            r == self@.contains(c),
    {
        match c {
            RedrawCause::Sensor => self.sensor,
            RedrawCause::Interval => self.interval,
            RedrawCause::Term => self.term,
        }
    }

    pub fn is_empty(&self) -> (r: bool)
        ensures
            r == (self@ == Set::<RedrawCause>::empty()),
    {
        let r = !self.sensor && !self.interval && !self.term;
        if !r {
            if self.sensor {
                assert(self@.contains(RedrawCause::Sensor));
            } else if self.interval {
                assert(self@.contains(RedrawCause::Interval));
            } else {
                assert(self@.contains(RedrawCause::Term));
            }
        } else {
            assert(self@ =~= Set::<RedrawCause>::empty());
        }
        r
    }

    /// The set with `c` added.
    pub fn union(self, c: RedrawCause) -> (r: Self)
        ensures
            r@ == self@.insert(c),
    {
        let r = match c {
            RedrawCause::Sensor => RedrawEventEnum { sensor: true, ..self },
            RedrawCause::Interval => RedrawEventEnum { interval: true, ..self },
            RedrawCause::Term => RedrawEventEnum { term: true, ..self },
        };
        assert(r@ =~= self@.insert(c));
        r
    }
}

} // verus!
