//! The word entity: one on-screen typing target.
//!
//! A word owns its text, the count of leading characters already typed,
//! a position and velocity, a base color, a lifecycle state and its own
//! death animation. Each frame it consumes at most the one newly
//! pressed key; while any character is untyped it drifts by its
//! velocity; once fully typed it freezes and plays the death animation
//! to its end, after which it is inert.

use vstd::prelude::*;

use crate::color_scheme::{ColorPalette, TweenableColor};
use crate::geom::Vec2;
use crate::keys::{ch_to_keycode, spec_key_for_char, Key};
use crate::tween::{ColorAnimation, ColorKeyframe, Easing};

verus! {

/// Total length of the death animation, in thousandths of a time unit.
pub const ANIMATION_DURATION: u64 = 1000;

/// The lifecycle of a word: `Active` until fully typed, `Typed` while
/// its death animation plays, `Dead` afterwards.
#[derive(Copy, Clone, Debug, PartialEq, Eq, Structural)]
pub enum WordState {
    Active,
    Typed,
    Dead,
}

/// Lifecycle states in the order they are visited.
pub open spec fn spec_state_rank(s: WordState) -> int {
    match s {
        WordState::Active => 0,
        WordState::Typed => 1,
        WordState::Dead => 2,
    }
}

/// The errors the game can raise: a word's next character has no key
/// mapping, a vocabulary defect discovered the moment that character
/// would need to be typed.
#[derive(Copy, Clone, Debug, PartialEq, Eq, Structural)]
pub enum GameError {
    UnmappedCharacter(char),
}

/// The keyframes of the death animation: a bright flash that settles
/// through near-white and blue into the background color, the first
/// two stops linear, the last two eased in and out.
pub open spec fn spec_death_keyframes() -> Seq<ColorKeyframe> {
    seq![
        ColorKeyframe {
            value: ColorPalette::BrightYellow.spec_tweenable(),
            time: 0,
            easing: Easing::Linear,
        },
        ColorKeyframe { value: ColorPalette::Fg0.spec_tweenable(), time: 50, easing: Easing::Linear },
        ColorKeyframe {
            value: ColorPalette::Blue.spec_tweenable(),
            time: 450,
            easing: Easing::EaseInOut,
        },
        ColorKeyframe {
            value: ColorPalette::Bg.spec_tweenable(),
            time: ANIMATION_DURATION,
            easing: Easing::EaseInOut,
        },
    ]
}

/// A fresh death animation, not yet started.
pub fn new_death_animation() -> (r: ColorAnimation)
    ensures
        r.keyframes@ == spec_death_keyframes(),
        r.elapsed == 0,
        r.wf(),
{
    let mut anim = ColorAnimation::new();
    anim.insert(
        ColorKeyframe {
            value: ColorPalette::BrightYellow.to_tweenable(),
            time: 0,
            easing: Easing::Linear,
        },
    );
    anim.insert(
        ColorKeyframe { value: ColorPalette::Fg0.to_tweenable(), time: 50, easing: Easing::Linear },
    );
    anim.insert(
        ColorKeyframe {
            value: ColorPalette::Blue.to_tweenable(),
            time: 450,
            easing: Easing::EaseInOut,
        },
    );
    anim.insert(
        ColorKeyframe {
            value: ColorPalette::Bg.to_tweenable(),
            time: ANIMATION_DURATION,
            easing: Easing::EaseInOut,
        },
    );
    proof {
        assert(anim.keyframes@ =~= spec_death_keyframes());
    }
    anim
}

/// One on-screen typing target.
pub struct Word {
    pub state: WordState,
    pub num_typed: usize,
    pub word: Vec<char>,
    pub position: Vec2,
    pub velocity: Vec2,
    pub color: ColorPalette,
    pub death_animation: ColorAnimation,
}

impl Word {
    /// The typed count never exceeds the text's length, only an
    /// `Active` word can have untyped characters left, and the death
    /// animation is well formed.
    pub open spec fn wf(self) -> bool {
        &&& self.word@.len() <= usize::MAX
        &&& self.num_typed <= self.word@.len()
        &&& self.state != WordState::Active ==> self.num_typed == self.word@.len()
        &&& self.death_animation.wf()
    }

    /// The next untyped character must be typed with `key`.
    pub open spec fn spec_next_matches(self, key: Option<Key>) -> bool {
        &&& self.num_typed < self.word@.len()
        &&& key is Some
        &&& spec_key_for_char(self.word@[self.num_typed as int]) == key
    }

    /// A key was pressed while the next untyped character has no key
    /// mapping: the unmapped-character error.
    pub open spec fn spec_update_errors(self, key: Option<Key>) -> bool {
        &&& self.num_typed < self.word@.len()
        &&& key is Some
        &&& spec_key_for_char(self.word@[self.num_typed as int]) is None
    }

    /// The word after one frame: with untyped characters left, a
    /// matching fresh key advances the typed count and the word drifts
    /// by its velocity; a fully typed `Active` word turns `Typed`; a
    /// `Typed` word turns `Dead` once its animation has finished and
    /// otherwise accumulates the frame's time delta; a `Dead` word is
    /// inert. On the unmapped-character error nothing changes.
    pub open spec fn spec_updated(self, key: Option<Key>, delta: int) -> Word {
        if self.num_typed < self.word@.len() {
            if self.spec_update_errors(key) {
                self
            } else {
                Word {
                    num_typed: if self.spec_next_matches(key) {
                        (self.num_typed + 1) as usize
                    } else {
                        self.num_typed
                    },
                    position: self.position.spec_add(self.velocity),
                    ..self
                }
            }
        } else if self.state == WordState::Active {
            Word { state: WordState::Typed, ..self }
        } else if self.state == WordState::Typed {
            if self.death_animation.spec_finished() {
                Word { state: WordState::Dead, ..self }
            } else {
                Word {
                    death_animation: ColorAnimation {
                        keyframes: self.death_animation.keyframes,
                        elapsed: self.death_animation.spec_advanced(delta) as u64,
                    },
                    ..self
                }
            }
        } else {
            self
        }
    }

    /// A word on its way in: no progress, `Active`, default foreground
    /// color, its death animation built but not started.
    pub fn new(word: &str, position: Vec2, velocity: Vec2) -> (r: Word)
        ensures
            r.word@ == word@,
            r.num_typed == 0,
            r.state == WordState::Active,
            r.color == ColorPalette::Fg,
            r.position == position,
            r.velocity == velocity,
            r.death_animation.keyframes@ == spec_death_keyframes(),
            r.death_animation.elapsed == 0,
            r.wf(),
    {
        let n = word.unicode_len();
        let mut chars: Vec<char> = Vec::new();
        let mut i: usize = 0;
        while i < n
            invariant
                0 <= i <= n,
                n == word@.len(),
                chars@ =~= word@.subrange(0, i as int),
            decreases n - i,
        {
            chars.push(word.get_char(i));
            i = i + 1;
        }
        proof {
            assert(chars@ =~= word@);
        }
        Word {
            state: WordState::Active,
            num_typed: 0,
            word: chars,
            position,
            velocity,
            color: ColorPalette::Fg,
            death_animation: new_death_animation(),
        }
    }

    /// The same word with another base color.
    pub fn with_color(self, color: ColorPalette) -> (r: Word)
        ensures
            r == (Word { color, ..self }),
    {
        Word { color, ..self }
    }

    /// One frame of the word's life; `key_pressed` is the single newly
    /// pressed key, if any, and `delta` the elapsed time since the
    /// previous frame in thousandths of a time unit.
    ///
    /// The typed count stays within the text's length, never decreases,
    /// is frozen unless the word is `Active`, and the lifecycle only
    /// ever moves forward.
    pub fn update(&mut self, delta: u64, key_pressed: Option<Key>) -> (r: Result<(), GameError>)
        requires
            old(self).wf(),
        ensures
            *final(self) == old(self).spec_updated(key_pressed, delta as int),
            r == (if old(self).spec_update_errors(key_pressed) {
                Err::<(), GameError>(
                    GameError::UnmappedCharacter(old(self).word@[old(self).num_typed as int]),
                )
            } else {
                Ok::<(), GameError>(())
            }),
            final(self).wf(),
            final(self).word@ == old(self).word@,
            old(self).num_typed <= final(self).num_typed <= old(self).num_typed + 1,
            old(self).state != WordState::Active ==> final(self).num_typed == old(
                self,
            ).num_typed,
            spec_state_rank(old(self).state) <= spec_state_rank(final(self).state),
    {
        if self.state == WordState::Typed && self.death_animation.finished() {
            self.state = WordState::Dead;
        }
        if self.state == WordState::Typed {
            self.death_animation.advance_by(delta);
        }
        if self.num_typed < self.word.len() {
            let next_ch = self.word[self.num_typed];
            if let Some(key) = key_pressed {
                match ch_to_keycode(next_ch) {
                    None => {
                        return Err(GameError::UnmappedCharacter(next_ch));
                    },
                    Some(code) => {
                        if key == code {
                            self.num_typed = self.num_typed + 1;
                        }
                    },
                }
            }
            self.position = self.position.add(self.velocity);
        } else if self.state == WordState::Active {
            self.state = WordState::Typed;
        }
        Ok(())
    }

    /// The color of the already-typed prefix: a highlight tone while
    /// the word is still `Active`, the live death-animation color while
    /// `Typed` (background once the animation yields nothing), and the
    /// background color once `Dead`.
    pub open spec fn spec_typed_color(self) -> TweenableColor {
        match self.state {
            WordState::Active => ColorPalette::BrightYellow.spec_tweenable(),
            WordState::Typed => match self.death_animation.spec_now() {
                Some(c) => c,
                None => ColorPalette::Bg.spec_tweenable(),
            },
            WordState::Dead => ColorPalette::Bg.spec_tweenable(),
        }
    }

    /// What the host must render for this word: the text split at the
    /// typed count into two colored runs, centered on the word's
    /// position.
    pub fn draw(&self) -> (d: WordDrawing)
        requires
            self.wf(),
        ensures
            d.typed@ == self.word@.subrange(0, self.num_typed as int),
            d.untyped@ == self.word@.subrange(self.num_typed as int, self.word@.len() as int),
            d.typed_color == self.spec_typed_color(),
            d.untyped_color == self.color,
            d.position == self.position,
    {
        let typed_color = match self.state {
            WordState::Active => ColorPalette::BrightYellow.to_tweenable(),
            WordState::Typed => match self.death_animation.now_strict() {
                Some(c) => c,
                None => ColorPalette::Bg.to_tweenable(),
            },
            WordState::Dead => ColorPalette::Bg.to_tweenable(),
        };
        let typed = copy_chars(&self.word, 0, self.num_typed);
        let untyped = copy_chars(&self.word, self.num_typed, self.word.len());
        WordDrawing {
            typed,
            typed_color,
            untyped,
            untyped_color: self.color,
            position: self.position,
        }
    }
}

/// Queried at time zero, the death animation yields its first stop,
/// the bright flash color; from its total duration onward the raw
/// query yields nothing, and the renderer must fall back to the
/// background color.
pub proof fn lemma_death_animation_endpoints()
    ensures
        crate::tween::spec_now_seq(spec_death_keyframes(), 0) == Some(
            ColorPalette::BrightYellow.spec_tweenable(),
        ),
        forall|e: int|
            e >= ANIMATION_DURATION ==> crate::tween::spec_now_seq(
                spec_death_keyframes(),
                e,
            ) is None,
{
    let kfs = spec_death_keyframes();
    assert(crate::tween::times_increasing(kfs));
    crate::tween::lemma_now_endpoints(kfs, 0);
    assert forall|e: int| e >= ANIMATION_DURATION implies crate::tween::spec_now_seq(
        kfs,
        e,
    ) is None by {
        crate::tween::lemma_now_endpoints(kfs, e);
    }
}

/// At all times `0 <= typed count <= length of the text`; within one
/// frame the typed count never decreases, grows by at most one, and is
/// frozen unless the word is `Active`.
pub proof fn lemma_typed_count(w: Word, key: Option<Key>, delta: int)
    requires
        w.wf(),
        delta >= 0,
    ensures
        0 <= w.spec_updated(key, delta).num_typed <= w.spec_updated(key, delta).word@.len(),
        w.spec_updated(key, delta).word@ == w.word@,
        w.num_typed <= w.spec_updated(key, delta).num_typed <= w.num_typed + 1,
        w.state != WordState::Active ==> w.spec_updated(key, delta).num_typed == w.num_typed,
        w.spec_updated(key, delta).wf(),
{
}

/// The lifecycle only ever moves forward: a word visited in the order
/// `Active`, `Typed`, `Dead` never revisits an earlier state.
pub proof fn lemma_state_monotonic(w: Word, key: Option<Key>, delta: int)
    requires
        w.wf(),
    ensures
        spec_state_rank(w.state) <= spec_state_rank(w.spec_updated(key, delta).state),
{
}

/// The two colored text runs a word is rendered as, centered on
/// `position`.
pub struct WordDrawing {
    pub typed: Vec<char>,
    pub typed_color: TweenableColor,
    pub untyped: Vec<char>,
    pub untyped_color: ColorPalette,
    pub position: Vec2,
}

/// A copy of `v[from..to]`.
pub fn copy_chars(v: &Vec<char>, from: usize, to: usize) -> (r: Vec<char>)
    requires
        from <= to <= v@.len(),
    ensures
        r@ == v@.subrange(from as int, to as int),
{
    let mut r: Vec<char> = Vec::new();
    let mut i: usize = from;
    while i < to
        invariant
            from <= i <= to <= v@.len(),
            r@ =~= v@.subrange(from as int, i as int),
        decreases to - i,
    {
        r.push(v[i]);
        i = i + 1;
    }
    proof {
        assert(r@ =~= v@.subrange(from as int, to as int));
    }
    r
}

} // verus!
