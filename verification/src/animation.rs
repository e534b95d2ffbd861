//! Sprite-sheet animation: skins, animation ranges and frame stepping.
//!
//! The sheet holds one block of sprites per skin. An animation is a range of
//! sprites inside a block; the frame shown is an index into the whole sheet.

use vstd::arithmetic::div_mod::{
    lemma_fundamental_div_mod, lemma_fundamental_div_mod_converse, lemma_mod_add_multiples_vanish,
    lemma_mod_bound, lemma_small_mod,
};
use vstd::prelude::*;

verus! {

/// Sprites in a row of the sheet.
pub const SHEET_COLUMNS: u32 = 9;

/// Rows of sprites in the sheet.
pub const SHEET_ROWS: u32 = 27;

/// Number of sprites that one skin occupies in the sheet.
pub const SKIN_FRAMES: usize = 81;

/// Number of skins in the sheet.
pub const SKINS: usize = 3;

/// Factor by which the sprite is enlarged on screen.
pub const SPRITE_SCALE: i32 = 6;

/// The horizontal scale that turns the sprite towards what it is after, if
/// it is to turn at all: none while the goal is not `far` enough to either
/// side, the full scale for a goal that lies `rightward`, its mirror image
/// for any other.
pub open spec fn facing(far: bool, rightward: bool) -> Option<i32> {
    if !far {
        None
    } else if rightward {
        Some(SPRITE_SCALE)
    } else {
        Some((-SPRITE_SCALE) as i32)
    }
}

/// Decides whether the sprite turns, and which way it then looks.
pub fn flip(far: bool, rightward: bool) -> (scale: Option<i32>)
    ensures
        scale == facing(far, rightward),
{
    if !far {
        None
    } else if rightward {
        Some(SPRITE_SCALE)
    } else {
        Some(-SPRITE_SCALE)
    }
}

/// What the program has measured of the way the pet has come lately.
#[derive(Debug, Clone, Copy, PartialEq, Eq, Structural)]
pub struct Travel {
    /// Sideways, less than the little that keeps a held pet in the air.
    pub hardly_sideways: bool,
    /// Sideways, less than it takes to walk.
    pub short_sideways: bool,
    /// Up or down, less than it takes to walk.
    pub short_vertical: bool,
}

/// The looping animations of the pet.
#[derive(Debug, Clone, Copy, PartialEq, Eq, Structural)]
pub enum Animations {
    Walking,
    Flying,
    Idle,
}

impl Animations {
    /// First sprite of the animation, counted from the start of a skin.
    pub open spec fn first_frame(self) -> nat {
        match self {
            Animations::Walking => 8,
            Animations::Flying => 19,
            Animations::Idle => 0,
        }
    }

    /// Last sprite of the animation, counted from the start of a skin.
    pub open spec fn last_frame(self) -> nat {
        match self {
            Animations::Walking => 15,
            Animations::Flying => 20,
            Animations::Idle => 6,
        }
    }

    /// The animation for a pet that is `held` by the mouse button or free,
    /// given the way it has come lately: a held pet flies unless it has
    /// hardly moved sideways; a free pet walks unless it has come a short way
    /// only, sideways or up and down.
    pub open spec fn selected(held: bool, travel: Travel) -> Animations {
        if held {
            if travel.hardly_sideways {
                Animations::Idle
            } else {
                Animations::Flying
            }
        } else {
            if travel.short_sideways || travel.short_vertical {
                Animations::Idle
            } else {
                Animations::Walking
            }
        }
    }

    /// Picks the animation to play.
    pub fn select(held: bool, travel: Travel) -> (animation: Animations)
        ensures
            animation == Animations::selected(held, travel),
    {
        if held {
            if travel.hardly_sideways {
                Animations::Idle
            } else {
                Animations::Flying
            }
        } else {
            if travel.short_sideways || travel.short_vertical {
                Animations::Idle
            } else {
                Animations::Walking
            }
        }
    }
}

/// The skins of the pet, laid out one after another in the sprite sheet.
#[derive(Debug, Clone, Copy, PartialEq, Eq, Structural)]
pub enum Style {
    Crimson,
    House,
    Toxic,
}

impl Style {
    /// Position of the skin in the sheet, counted in skins.
    pub open spec fn ordinal(self) -> nat {
        match self {
            Style::Crimson => 0,
            Style::House => 1,
            Style::Toxic => 2,
        }
    }

    /// Index of the first sprite of the skin.
    pub open spec fn starting_point(self) -> nat {
        self.ordinal() * (SKIN_FRAMES as nat)
    }

    /// The skin that follows this one; after the last comes the first.
    pub open spec fn successor(self) -> Style {
        match self {
            Style::Crimson => Style::House,
            Style::House => Style::Toxic,
            Style::Toxic => Style::Crimson,
        }
    }

    /// Index of the first sprite of the skin in the sheet.
    pub fn get_starting_point(&self) -> (start: usize)
        ensures
            start == self.starting_point(),
    {
        match self {
            Style::Crimson => 0,
            Style::House => SKIN_FRAMES,
            Style::Toxic => SKIN_FRAMES * 2,
        }
    }

    /// The skin to switch to from this one.
    pub fn next(self) -> (style: Style)
        ensures
            style == self.successor(),
    {
        match self {
            Style::Crimson => Style::House,
            Style::House => Style::Toxic,
            Style::Toxic => Style::Crimson,
        }
    }
}

/// What a tick of the frame timer leads to.
#[derive(Debug, Clone, Copy, PartialEq, Eq, Structural)]
pub struct Frame {
    /// Sprite to show from now on.
    pub index: usize,
    /// Whether the frame timer is to be replaced by a fresh one.
    pub rearm: bool,
}

/// The animation that is playing: a range of sprites inside a skin, and the
/// rate at which it advances.
#[derive(Debug, Clone, Copy, PartialEq, Eq, Structural)]
pub struct AnimationConfig {
    pub first_sprite_index: usize,
    pub last_sprite_index: usize,
    pub fps: u8,
    pub style: Style,
}

impl AnimationConfig {
    /// Sheet index of the first sprite of the animation in the current skin.
    pub open spec fn lowest(&self) -> int {
        self.first_sprite_index + self.style.starting_point()
    }

    /// Sheet index of the last sprite of the animation in the current skin.
    pub open spec fn highest(&self) -> int {
        self.last_sprite_index + self.style.starting_point()
    }

    /// Both ends of the animation are sheet indices that the machine can hold.
    pub open spec fn fits(&self) -> bool {
        self.lowest() <= usize::MAX && self.highest() <= usize::MAX
    }

    /// The animation has a successor for `index`: it lies in the range and
    /// is not the last sprite.
    pub open spec fn in_cycle(&self, index: int) -> bool {
        self.lowest() <= index < self.highest()
    }

    /// The sprite that follows `index`: the next one inside the range, the
    /// first one of the range from its end and from anywhere outside.
    pub open spec fn next_index(&self, index: int) -> int {
        if self.in_cycle(index) {
            index + 1
        } else {
            self.lowest()
        }
    }

    /// The sprite shown after `ticks` ticks of the frame timer, from `index`.
    pub open spec fn frame_after(&self, index: int, ticks: nat) -> int
        decreases ticks,
    {
        if ticks == 0 {
            index
        } else {
            self.next_index(self.frame_after(index, (ticks - 1) as nat))
        }
    }

    /// Number of sprites in the animation.
    pub open spec fn period(&self) -> int {
        self.highest() - self.lowest() + 1
    }

    /// An animation over the given range at the given rate, in the last skin.
    pub fn new(first: usize, last: usize, fps: u8) -> (config: Self)
        ensures
            config.first_sprite_index == first,
            config.last_sprite_index == last,
            config.fps == fps,
            config.style == Style::Toxic,
    {
        Self { first_sprite_index: first, last_sprite_index: last, fps, style: Style::Toxic }
    }

    /// Switches to the range of `animation`; rate and skin stay.
    pub fn set_animation(&mut self, animation: Animations)
        ensures
            final(self).first_sprite_index == animation.first_frame(),
            final(self).last_sprite_index == animation.last_frame(),
            final(self).fps == old(self).fps,
            final(self).style == old(self).style,
            final(self).fits(),
    {
        match animation {
            Animations::Walking => {
                self.first_sprite_index = 8;
                self.last_sprite_index = 15;
            },
            Animations::Flying => {
                self.first_sprite_index = 19;
                self.last_sprite_index = 20;
            },
            Animations::Idle => {
                self.first_sprite_index = 0;
                self.last_sprite_index = 6;
            },
        }
    }

    /// Switches to the next skin; range and rate stay.
    pub fn change_skin(&mut self)
        ensures
            final(self).style == old(self).style.successor(),
            final(self).first_sprite_index == old(self).first_sprite_index,
            final(self).last_sprite_index == old(self).last_sprite_index,
            final(self).fps == old(self).fps,
    {
        self.style = self.style.next();
    }

    /// Whether both ends of the animation are sheet indices that the machine
    /// can hold, as a step of the animation needs them to be.
    pub fn can_step(&self) -> (yes: bool)
        ensures
            yes == self.fits(),
    {
        let additional: usize = self.style.get_starting_point();
        self.first_sprite_index <= usize::MAX - additional && self.last_sprite_index
            <= usize::MAX - additional
    }

    /// One tick of the frame timer with the sprite `index` on show.
    ///
    /// While the timer has not finished nothing changes. When it has, the
    /// animation moves to the next sprite and asks for a fresh timer, or, at
    /// the end of the range and from outside it, starts over and keeps the
    /// timer.
    pub fn step(&self, index: usize, timer_finished: bool) -> (frame: Frame)
        requires
            timer_finished ==> self.fits(),
        ensures
            timer_finished ==> frame.index == self.next_index(index as int),
            !timer_finished ==> frame.index == index,
            frame.rearm == (timer_finished && self.in_cycle(index as int)),
    {
        if !timer_finished {
            return Frame { index, rearm: false };
        }
        let additional: usize = self.style.get_starting_point();
        if index >= self.last_sprite_index + additional || index < self.first_sprite_index
            + additional {
            Frame { index: self.first_sprite_index + additional, rearm: false }
        } else {
            Frame { index: index + 1, rearm: true }
        }
    }
}

/// The remainder of a successor: one more than the remainder before, until
/// that would reach the modulus, then zero.
proof fn lemma_mod_successor(a: int, p: int)
    requires
        a >= 0,
        p > 0,
    ensures
        (a + 1) % p == if a % p == p - 1 {
            0
        } else {
            a % p + 1
        },
{
    let q = a / p;
    let r = a % p;
    lemma_fundamental_div_mod(a, p);
    lemma_mod_bound(a, p);
    if r == p - 1 {
        assert(a + 1 == (q + 1) * p + 0) by (nonlinear_arith)
            requires
                a == p * q + r,
                r == p - 1,
        ;
        lemma_fundamental_div_mod_converse(a + 1, p, q + 1, 0);
    } else {
        assert(a + 1 == q * p + (r + 1)) by (nonlinear_arith)
            requires
                a == p * q + r,
        ;
        lemma_fundamental_div_mod_converse(a + 1, p, q, r + 1);
    }
}

impl Style {
    /// The skins follow each other in a ring of three: a change of skin
    /// always gives another skin, and three changes give the first one back.
    pub proof fn lemma_skins_cycle(self)
        ensures
            self.successor() != self,
            self.successor().successor() != self,
            self.successor().successor().successor() == self,
            self.successor().ordinal() == (self.ordinal() + 1) % (SKINS as nat),
    {
    }
}

impl AnimationConfig {
    /// The range is that of the named animation.
    pub open spec fn plays(&self, animation: Animations) -> bool {
        &&& self.first_sprite_index == animation.first_frame()
        &&& self.last_sprite_index == animation.last_frame()
    }

    /// A named animation lies inside the block of its skin, whatever the
    /// skin, and so inside the sheet, which the skins fill exactly.
    pub proof fn lemma_animation_within_skin(self, animation: Animations)
        requires
            self.plays(animation),
        ensures
            self.style.starting_point() <= self.lowest() <= self.highest(),
            self.highest() < self.style.starting_point() + SKIN_FRAMES,
            self.highest() < SHEET_COLUMNS * SHEET_ROWS,
            SKINS * SKIN_FRAMES == SHEET_COLUMNS * SHEET_ROWS,
    {
    }

    /// After the first tick the sprite on show belongs to the animation,
    /// wherever it started.
    pub proof fn lemma_frames_stay_in_range(self, index: int, ticks: nat)
        requires
            self.lowest() <= self.highest(),
            ticks > 0,
        ensures
            self.lowest() <= self.frame_after(index, ticks) <= self.highest(),
        decreases ticks,
    {
        if ticks > 1 {
            self.lemma_frames_stay_in_range(index, (ticks - 1) as nat);
        }
    }

    /// From a sprite of the animation, the sprite on show after any number of
    /// ticks is found by counting round the range.
    pub proof fn lemma_frame_after(self, index: int, ticks: nat)
        requires
            self.lowest() <= index <= self.highest(),
        ensures
            self.frame_after(index, ticks) == self.lowest() + (index - self.lowest() + ticks)
                % self.period(),
        decreases ticks,
    {
        let offset = index - self.lowest();
        if ticks == 0 {
            lemma_small_mod(offset as nat, self.period() as nat);
        } else {
            self.lemma_frame_after(index, (ticks - 1) as nat);
            lemma_mod_successor(offset + ticks - 1, self.period());
        }
    }

    /// An animation loops: as many ticks as it has sprites bring back the
    /// sprite it started from.
    pub proof fn lemma_animation_loops(self, index: int)
        requires
            self.lowest() <= index <= self.highest(),
        ensures
            self.frame_after(index, self.period() as nat) == index,
    {
        let offset = index - self.lowest();
        self.lemma_frame_after(index, self.period() as nat);
        lemma_mod_add_multiples_vanish(offset, self.period());
        lemma_small_mod(offset as nat, self.period() as nat);
    }
}

} // verus!
