//! What the pet is after: the cursor, or a point of its own choosing.
//!
//! A double click sends the pet wandering towards a random point of the
//! screen area it has seen so far; every few seconds it picks a new one. A
//! single click calls it back to the cursor. Time is counted in nanoseconds
//! on a clock that never runs backwards.

use crate::animation::{Animations, Travel};
use crate::random::random_below;
use vstd::prelude::*;

verus! {

/// Two clicks closer together than this many nanoseconds are a double click.
pub const DOUBLE_CLICK_NANOS: u128 = 500_000_000;

/// Nanoseconds in a millisecond.
pub const NANOS_PER_MILLI: u128 = 1_000_000;

/// A wandering pet keeps its target for more than this many whole
/// milliseconds before it picks another.
pub const WANDER_PERIOD_MILLIS: u128 = 12_000;

/// Pixels per second of a pet that follows the cursor.
pub const FOLLOW_SPEED: u32 = 50;

/// Pixels per second of a pet that wanders.
pub const WANDER_SPEED: u32 = 120;

/// A point of the screen, or the size of an area of it, in whole pixels.
#[derive(Debug, Clone, Copy, PartialEq, Eq, Structural)]
pub struct Point {
    pub x: i32,
    pub y: i32,
}

/// How the pet gets nearer to what it is after.
#[derive(Debug, Clone, Copy, PartialEq, Eq, Structural)]
pub enum Motion {
    /// Held by the mouse button, the pet is drawn along, gently at first.
    Eased,
    /// Let go, the pet goes by itself at so many pixels per second.
    Paced(u32),
}

/// What the pet does in a frame, once clicks have been dealt with.
#[derive(Debug, Clone, Copy, PartialEq, Eq, Structural)]
pub struct Reaction {
    pub motion: Motion,
    pub animation: Animations,
}

/// Time that has passed at `now` since `since`; none if `since` lies ahead.
pub open spec fn elapsed(since: u128, now: u128) -> nat {
    if now >= since {
        (now - since) as nat
    } else {
        0
    }
}

/// The larger of two coordinates.
pub open spec fn larger(a: i32, b: i32) -> i32 {
    if b > a {
        b
    } else {
        a
    }
}

fn elapsed_between(since: u128, now: u128) -> (nanos: u128)
    ensures
        nanos == elapsed(since, now),
{
    if now >= since {
        now - since
    } else {
        0
    }
}

/// The pet's memory of clicks and of its wandering.
#[derive(Debug, Clone, Copy, PartialEq, Eq, Structural)]
pub struct DQ {
    /// Whether the pet wanders instead of following the cursor.
    pub wander: bool,
    /// The point a wandering pet heads for.
    pub wander_pos: Point,
    /// When the mouse button was last pressed.
    pub last_clicked: u128,
    /// The largest coordinates the pet has been sent to so far.
    pub window_size: Point,
    /// When the pet last chose a point to wander to.
    pub wandering_since: u128,
}

impl DQ {
    /// The area seen so far has room for a point.
    pub open spec fn has_extent(&self) -> bool {
        self.window_size.x > 0 && self.window_size.y > 0
    }

    /// The wander target lies inside the area seen so far.
    pub open spec fn targets_extent(&self) -> bool {
        &&& 0 <= self.wander_pos.x < self.window_size.x
        &&& 0 <= self.wander_pos.y < self.window_size.y
    }

    /// The area seen so far, once it also holds `target`.
    pub open spec fn grown(&self, target: Point) -> Point {
        Point {
            x: larger(self.window_size.x, target.x),
            y: larger(self.window_size.y, target.y),
        }
    }

    /// The speed of a pet that goes by itself.
    pub open spec fn pace(wander: bool) -> u32 {
        if wander {
            WANDER_SPEED
        } else {
            FOLLOW_SPEED
        }
    }

    /// The pet as it is after it has taken note of `target`.
    pub open spec fn observed(&self, target: Point) -> DQ {
        DQ { window_size: self.grown(target), ..*self }
    }

    /// The pet is what `before` was, but for a new wander target, chosen at
    /// `now` somewhere inside the area seen so far.
    pub open spec fn retargets(&self, before: DQ, now: u128) -> bool {
        &&& self.targets_extent()
        &&& self.wandering_since == now
        &&& self.wander == before.wander
        &&& self.last_clicked == before.last_clicked
        &&& self.window_size == before.window_size
    }

    /// The pet is what `before` was, with a new wander target if at `now`
    /// one was due.
    pub open spec fn refreshes(&self, before: DQ, now: u128) -> bool {
        if before.wander && before.expired_at(now) {
            self.retargets(before, now)
        } else {
            *self == before
        }
    }

    /// The pet is what a click at `now` makes of `before`: the click is
    /// remembered; a double click sets the pet wandering to a new target, any
    /// other click stops the wandering and leaves the target alone.
    pub open spec fn follows_click(&self, before: DQ, now: u128) -> bool {
        &&& self.last_clicked == now
        &&& self.window_size == before.window_size
        &&& self.wander == before.double_click_at(now)
        &&& if before.double_click_at(now) {
            self.targets_extent() && self.wandering_since == now
        } else {
            self.wander_pos == before.wander_pos && self.wandering_since
                == before.wandering_since
        }
    }

    /// A pet that wanders heads for a point inside the area seen so far.
    pub open spec fn wf(&self) -> bool {
        self.wander ==> self.targets_extent()
    }

    /// A click at `now` follows the last one closely enough to count as a
    /// double click.
    pub open spec fn double_click_at(&self, now: u128) -> bool {
        elapsed(self.last_clicked, now) < DOUBLE_CLICK_NANOS
    }

    /// At `now` the wander target has been kept for longer than the period.
    pub open spec fn expired_at(&self, now: u128) -> bool {
        elapsed(self.wandering_since, now) / (NANOS_PER_MILLI as nat) > WANDER_PERIOD_MILLIS
    }

    /// A pet that follows the cursor, has seen nothing of the screen yet and
    /// counts the moment of its creation as a click.
    pub fn new(now: u128) -> (dq: DQ)
        ensures
            dq == (DQ {
                wander: false,
                wander_pos: Point { x: 0, y: 0 },
                last_clicked: now,
                window_size: Point { x: 0, y: 0 },
                wandering_since: now,
            }),
            dq.wf(),
    {
        DQ {
            wander: false,
            wander_pos: Point { x: 0, y: 0 },
            last_clicked: now,
            window_size: Point { x: 0, y: 0 },
            wandering_since: now,
        }
    }

    /// Whether the area seen so far has room for a point to wander to.
    pub fn can_wander(&self) -> (yes: bool)
        ensures
            yes == self.has_extent(),
    {
        self.window_size.x > 0 && self.window_size.y > 0
    }

    /// Whether a click at `now` would count as a double click.
    pub fn is_double_click(&self, now: u128) -> (yes: bool)
        ensures
            yes == self.double_click_at(now),
    {
        elapsed_between(self.last_clicked, now) < DOUBLE_CLICK_NANOS
    }

    /// Whether at `now` it is time for a new point to wander to.
    pub fn wander_expired(&self, now: u128) -> (yes: bool)
        ensures
            yes == self.expired_at(now),
    {
        elapsed_between(self.wandering_since, now) / NANOS_PER_MILLI > WANDER_PERIOD_MILLIS
    }

    /// Pixels per second at which the pet moves by itself.
    pub fn speed(&self) -> (pixels: u32)
        ensures
            pixels == DQ::pace(self.wander),
    {
        if self.wander {
            WANDER_SPEED
        } else {
            FOLLOW_SPEED
        }
    }

    /// Takes note of a point the pet is sent to: the area seen so far grows
    /// to hold it, in each direction by itself, and never shrinks.
    pub fn observe(&mut self, target: Point)
        ensures
            *final(self) == old(self).observed(target),
            old(self).wf() ==> final(self).wf(),
    {
        if target.x > self.window_size.x {
            self.window_size.x = target.x;
        }
        if target.y > self.window_size.y {
            self.window_size.y = target.y;
        }
    }

    /// Makes `target` the point to wander to, chosen at `now`.
    pub fn retarget(&mut self, now: u128, target: Point)
        ensures
            *final(self) == (DQ { wander_pos: target, wandering_since: now, ..*old(self) }),
    {
        self.wandering_since = now;
        self.wander_pos = target;
    }

    /// Chooses at random a new point to wander to, inside the area seen so
    /// far. Which point it is may differ from call to call.
    pub fn change_wander(&mut self, now: u128)
        requires
            old(self).has_extent(),
        ensures
            final(self).retargets(*old(self), now),
    {
        let x: i32 = random_below(self.window_size.x);
        let y: i32 = random_below(self.window_size.y);
        self.retarget(now, Point { x, y });
    }

    /// The part of a frame that looks after the wandering: a pet that
    /// wanders and has kept its target for longer than the period chooses a
    /// new one. Otherwise nothing changes.
    pub fn refresh(&mut self, now: u128)
        requires
            old(self).wander && old(self).expired_at(now) ==> old(self).has_extent(),
        ensures
            final(self).refreshes(*old(self), now),
            old(self).wf() ==> final(self).wf(),
    {
        if self.wander && self.wander_expired(now) {
            self.change_wander(now);
        }
    }

    /// A press of the mouse button at `now`. A double click sends the pet
    /// wandering to a point chosen at random; any other click calls it back
    /// to the cursor. Either way the click is remembered.
    pub fn click(&mut self, now: u128)
        requires
            old(self).double_click_at(now) ==> old(self).has_extent(),
        ensures
            final(self).follows_click(*old(self), now),
            final(self).wf(),
    {
        if self.is_double_click(now) {
            self.wander = true;
            self.change_wander(now);
        } else {
            self.wander = false;
        }
        self.last_clicked = now;
    }

    /// The first half of a frame: what the pet heads for.
    ///
    /// `cursor` is where the cursor asks the pet to be; the area seen so far
    /// grows to hold it. A pet that wanders heads for its wander target, and
    /// the answer is that point; any other pet heads for the cursor, and the
    /// answer is `None`. A wander target that has been kept for longer than
    /// the period is then exchanged for a new one, which counts from the
    /// next frame on.
    pub fn aim(&mut self, now: u128, cursor: Point) -> (goal: Option<Point>)
        requires
            old(self).wander && old(self).expired_at(now) ==> old(self).observed(
                cursor,
            ).has_extent(),
        ensures
            goal == if old(self).wander {
                Some(old(self).wander_pos)
            } else {
                None
            },
            final(self).refreshes(old(self).observed(cursor), now),
            old(self).wf() ==> final(self).wf(),
    {
        self.observe(cursor);
        let goal: Option<Point> = if self.wander {
            Some(self.wander_pos)
        } else {
            None
        };
        self.refresh(now);
        goal
    }

    /// The second half of a frame: clicks, and how the pet moves and looks.
    ///
    /// A press of the button in this frame (`clicked`) is dealt with first.
    /// A pet `held` by the button is drawn along; one let go walks at the
    /// speed of what it is now after. The animation follows from `held` and
    /// from the way the pet has come lately.
    pub fn react(&mut self, now: u128, clicked: bool, held: bool, travel: Travel) -> (reaction:
        Reaction)
        requires
            clicked && old(self).double_click_at(now) ==> old(self).has_extent(),
        ensures
            clicked ==> final(self).follows_click(*old(self), now),
            !clicked ==> *final(self) == *old(self),
            old(self).wf() ==> final(self).wf(),
            reaction.motion == if held {
                Motion::Eased
            } else {
                Motion::Paced(DQ::pace(final(self).wander))
            },
            reaction.animation == Animations::selected(held, travel),
    {
        if clicked {
            self.click(now);
        }
        let motion: Motion = if held {
            Motion::Eased
        } else {
            Motion::Paced(self.speed())
        };
        Reaction { motion, animation: Animations::select(held, travel) }
    }
}

impl DQ {
    /// A pet that wanders has seen an area with room for a point, and keeps
    /// it whatever it is sent to next: it can always choose another point.
    pub proof fn lemma_wandering_has_extent(self, target: Point)
        requires
            self.wf(),
            self.wander,
        ensures
            self.has_extent(),
            self.observed(target).has_extent(),
    {
    }

    /// The area seen so far never shrinks.
    pub proof fn lemma_extent_grows(self, target: Point)
        ensures
            self.grown(target).x >= self.window_size.x,
            self.grown(target).y >= self.window_size.y,
            self.grown(target).x >= target.x,
            self.grown(target).y >= target.y,
            self.grown(target).x == self.window_size.x || self.grown(target).x == target.x,
            self.grown(target).y == self.window_size.y || self.grown(target).y == target.y,
    {
    }

    /// The wander target is due for a change from twelve seconds and one
    /// millisecond after it was chosen, to the nanosecond.
    pub proof fn lemma_expiry_threshold(self, now: u128)
        ensures
            self.expired_at(now) <==> elapsed(self.wandering_since, now) >= 12_001_000_000,
    {
    }

    /// A click is a double click up to, but not including, half a second
    /// after the click before; a clock reading from before that click counts
    /// as no time passed.
    pub proof fn lemma_double_click_window(self, now: u128)
        ensures
            self.double_click_at(now) <==> now < self.last_clicked + 500_000_000,
    {
    }
}

} // verus!
