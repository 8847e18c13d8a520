//! The game: the player, the word population, the per-frame update
//! pass with edge-triggered input and the reset cooldown, and the
//! screen manager that switches between menus and play.
//!
//! Layout at game start: a fixed decorative ring of thirteen angle
//! labels, plus the whole vocabulary, shuffled, spawned at random
//! angles and increasing radii, each word aimed at the player with a
//! speed that falls off with distance.

use vstd::prelude::*;

use crate::color_scheme::ColorPalette;
use crate::geom::{
    cos_mdeg, div_toward_zero, scale_milli, sin_mdeg, spec_cos_mdeg,
    spec_div_toward_zero, spec_scale_milli, spec_sin_mdeg, Vec2,
};
use crate::keys::{first_new_key, spec_first_new_key, Key};
use crate::menu::{str_eq, MainMenu, Menu, EXIT, MAIN_MENU, NEW_GAME, PAUSE_MENU_TITLE, RESUME};
use crate::word::{spec_death_keyframes, GameError, Word, WordState};

verus! {

/// Largest accepted screen dimension, in thousandths of a pixel.
pub const MAX_SCREEN: i64 = 1_000_000_000;

/// How many decorative ring labels the layout emits.
pub const RING_COUNT: usize = 13;

/// How many vocabulary words the layout emits.
pub const VOCABULARY_COUNT: usize = 171;

/// Frames of typed-progress resetting after any word completes.
pub const RESET_COOLDOWN: usize = 2;

/// Relies on rand::Rng::gen_range over the half-open range `lo..hi`:
/// it returns a value uniform in [lo, hi) and panics only on an empty
/// range, which the precondition rules out.
#[verifier::external_body]
fn rand_range_u64(lo: u64, hi: u64) -> (r: u64)
    requires
        lo < hi,
    ensures
        lo <= r < hi,
{
    rand::Rng::gen_range(&mut rand::thread_rng(), lo..hi)
}

/// Relies on rand::seq::SliceRandom::shuffle: an in-place pass of
/// swaps (Fisher-Yates), so afterwards the slice holds exactly the
/// items it held before, in some order.
#[verifier::external_body]
fn shuffle_strs(words: &mut Vec<&'static str>)
    ensures
        final(words)@.to_multiset() == old(words)@.to_multiset(),
        final(words)@.len() == old(words)@.len(),
{
    rand::seq::SliceRandom::shuffle(words.as_mut_slice(), &mut rand::thread_rng())
}

/// The fixed 171-entry vocabulary of three-letter words.
pub open spec fn spec_word_list() -> Seq<&'static str> {
    seq![
        "and", "are", "ape", "ace", "act", "ask", "arm", "age", "ago", "air", "ate", "all", "but",
        "bye", "bad", "big", "bed", "bat", "boy", "bus", "bag", "box", "bit", "bee", "buy", "bun",
        "cub", "cat", "car", "cut", "cow", "cry", "cab", "can", "dad", "dab", "dam", "did", "dug",
        "den", "dot", "dip", "day", "ear", "eye", "eat", "end", "elf", "egg", "far", "fat", "few",
        "fan", "fun", "fit", "fin", "fox", "fix", "fly", "fry", "for", "got", "get", "god", "gel",
        "gas", "hat", "hit", "has", "had", "how", "her", "his", "hen", "ink", "ice", "ill", "jab",
        "jug", "jet", "jam", "jar", "job", "jog", "kit", "key", "lot", "lit", "let", "lay", "mat",
        "man", "mad", "mug", "mix", "map", "mum", "mud", "mom", "may", "met", "net", "new", "nap",
        "now", "nod", "net", "not", "nut", "oar", "one", "out", "owl", "old", "own", "odd", "our",
        "pet", "pat", "peg", "paw", "pup", "pit", "put", "pot", "pop", "pin", "rat", "rag", "rub",
        "row", "rug", "run", "rap", "ram", "sow", "see", "saw", "set", "sit", "sir", "sat", "sob",
        "tap", "tip", "top", "tug", "tow", "toe", "tan", "ten", "two", "use", "van", "vet", "was",
        "wet", "win", "won", "wig", "war", "why", "who", "way", "wow", "you", "yes", "yak", "yet",
        "zip", "zap",
    ]
}

/// The vocabulary as a vector, for shuffling.
pub fn word_list() -> (v: Vec<&'static str>)
    ensures
        v@ == spec_word_list(),
        v@.len() == VOCABULARY_COUNT,
{
    let v: Vec<&'static str> = vec![
        "and", "are", "ape", "ace", "act", "ask", "arm", "age", "ago", "air", "ate", "all", "but",
        "bye", "bad", "big", "bed", "bat", "boy", "bus", "bag", "box", "bit", "bee", "buy", "bun",
        "cub", "cat", "car", "cut", "cow", "cry", "cab", "can", "dad", "dab", "dam", "did", "dug",
        "den", "dot", "dip", "day", "ear", "eye", "eat", "end", "elf", "egg", "far", "fat", "few",
        "fan", "fun", "fit", "fin", "fox", "fix", "fly", "fry", "for", "got", "get", "god", "gel",
        "gas", "hat", "hit", "has", "had", "how", "her", "his", "hen", "ink", "ice", "ill", "jab",
        "jug", "jet", "jam", "jar", "job", "jog", "kit", "key", "lot", "lit", "let", "lay", "mat",
        "man", "mad", "mug", "mix", "map", "mum", "mud", "mom", "may", "met", "net", "new", "nap",
        "now", "nod", "net", "not", "nut", "oar", "one", "out", "owl", "old", "own", "odd", "our",
        "pet", "pat", "peg", "paw", "pup", "pit", "put", "pot", "pop", "pin", "rat", "rag", "rub",
        "row", "rug", "run", "rap", "ram", "sow", "see", "saw", "set", "sit", "sir", "sat", "sob",
        "tap", "tip", "top", "tug", "tow", "toe", "tan", "ten", "two", "use", "van", "vet", "was",
        "wet", "win", "won", "wig", "war", "why", "who", "way", "wow", "you", "yes", "yak", "yet",
        "zip", "zap",
    ];
    proof {
        assert(v@ =~= spec_word_list());
    }
    v
}

/// The thirteen ring labels: angles in degrees, fifteen apart.
pub open spec fn spec_ring_labels() -> Seq<&'static str> {
    seq![
        "0", "15", "30", "45", "60", "75", "90", "105", "120", "135", "150", "165", "180",
    ]
}

fn ring_label(i: usize) -> (r: &'static str)
    requires
        i < RING_COUNT,
    ensures
        r == spec_ring_labels()[i as int],
{
    match i {
        0 => "0",
        1 => "15",
        2 => "30",
        3 => "45",
        4 => "60",
        5 => "75",
        6 => "90",
        7 => "105",
        8 => "120",
        9 => "135",
        10 => "150",
        11 => "165",
        _ => "180",
    }
}

/// The horizontal screen center.
pub open spec fn spec_center_x(w: int) -> int {
    w / 2
}

/// The vertical layout center, thirty pixels above the screen middle.
pub open spec fn spec_center_y(h: int) -> int {
    h / 2 - 30_000
}

/// The spawn ring's base radius.
pub open spec fn spec_layout_radius(h: int) -> int {
    h * 10 / 17
}

/// Where the player sits: centered, thirty pixels above the bottom.
pub open spec fn spec_player_position(w: int, h: int) -> Vec2 {
    Vec2 { x: (w / 2) as i64, y: (h - 30_000) as i64 }
}

/// The x of a point at distance `r` and angle `angle` (thousandths of
/// a degree) from `(cx, _)`, under the `(angle - 180)` rotation
/// convention: `cos(angle - 180) == -cos(angle)`.
pub open spec fn spec_spawn_x(r: int, angle: int, cx: int) -> int {
    cx + spec_scale_milli(r, -spec_cos_mdeg(angle))
}

/// The matching y: `sin(angle - 180) == -sin(angle)`.
pub open spec fn spec_spawn_y(r: int, angle: int, cy: int) -> int {
    cy + spec_scale_milli(r, -spec_sin_mdeg(angle))
}

/// Polar-to-Cartesian spawn placement.
fn spawn_position(r: i64, angle: u64, cx: i64, cy: i64) -> (p: Vec2)
    requires
        0 <= r <= 0x1000_0000_0000,
        angle <= 180_000,
        -0x4000_0000_0000_0000 <= cx <= 0x4000_0000_0000_0000,
        -0x4000_0000_0000_0000 <= cy <= 0x4000_0000_0000_0000,
    ensures
        p.x == spec_spawn_x(r as int, angle as int, cx as int),
        p.y == spec_spawn_y(r as int, angle as int, cy as int),
        cx - 0x1000_0000_0000 <= p.x <= cx + 0x1000_0000_0000,
        cy - 0x1000_0000_0000 <= p.y <= cy + 0x1000_0000_0000,
{
    let c = cos_mdeg(angle);
    let s = sin_mdeg(angle);
    let dx = scale_milli(r, -c);
    let dy = scale_milli(r, -(s as i64));
    Vec2 { x: cx + dx, y: cy + dy }
}

/// The fixed-radius circle the player is drawn as.
pub struct Player {
    pub position: Vec2,
    pub radius: i64,
    pub precision: i64,
}

impl Player {
    pub fn new(position: Vec2, radius: i64) -> (p: Player)
        ensures
            p.position == position,
            p.radius == radius,
            p.precision == 10,
    {
        Player { position, radius, precision: 10 }
    }

    /// The player never moves between frames.
    pub fn update(&mut self)
        ensures
            *final(self) == *old(self),
    {
    }
}

/// A decorative ring label as the layout places it: at `i * 15`
/// degrees on the base ring around the doubled vertical center,
/// motionless, muted, untyped.
pub open spec fn spec_ring_word(wd: Word, i: int, w: int, h: int) -> bool {
    &&& wd.word@ == spec_ring_labels()[i]@
    &&& wd.state == WordState::Active
    &&& wd.num_typed == 0
    &&& wd.color == ColorPalette::Bg2
    &&& wd.velocity == (Vec2 { x: 0i64, y: 0i64 })
    &&& wd.position.x == spec_spawn_x(spec_layout_radius(h), i * 15_000, spec_center_x(w))
    &&& wd.position.y == spec_spawn_y(spec_layout_radius(h), i * 15_000, 2 * spec_center_y(h))
    &&& wd.death_animation.keyframes@ == spec_death_keyframes()
    &&& wd.death_animation.elapsed == 0
}

/// A vocabulary word as the layout places it, given the random angle
/// and the random extra radius drawn for it: at radius
/// `base + i * rr`, aimed at the player, scaled down by
/// `500 + r/2` pixels so that farther spawns move proportionally
/// slower.
pub open spec fn spec_target_word_at(
    wd: Word,
    text: &str,
    i: int,
    w: int,
    h: int,
    angle: int,
    rr: int,
) -> bool {
    let r = spec_layout_radius(h) + i * rr;
    let px = spec_spawn_x(r, angle, spec_center_x(w));
    let py = spec_spawn_y(r, angle, spec_center_y(h));
    let denom = 500 + r / 2000;
    &&& 0 <= angle <= 180_000
    &&& 50_000 <= rr < 300_000
    &&& wd.word@ == text@
    &&& wd.state == WordState::Active
    &&& wd.num_typed == 0
    &&& wd.color == ColorPalette::Fg
    &&& wd.position == (Vec2 { x: px as i64, y: py as i64 })
    &&& wd.velocity.x == spec_div_toward_zero(spec_player_position(w, h).x - px, denom)
    &&& wd.velocity.y == spec_div_toward_zero(spec_player_position(w, h).y - py, denom)
    &&& wd.death_animation.keyframes@ == spec_death_keyframes()
    &&& wd.death_animation.elapsed == 0
}

/// A vocabulary word as the layout places it, for some admissible
/// random draw.
pub open spec fn spec_target_word(wd: Word, text: &str, i: int, w: int, h: int) -> bool {
    exists|angle: int, rr: int| spec_target_word_at(wd, text, i, w, h, angle, rr)
}

/// A newly built game: the player in place, no cooldown, no held keys,
/// the thirteen ring labels followed by the whole vocabulary in some
/// shuffled order.
pub open spec fn spec_fresh_game(g: Game, w: int, h: int) -> bool {
    &&& g.player.position == spec_player_position(w, h)
    &&& g.player.radius == 4000
    &&& g.player.precision == 10
    &&& g.reset_typed == 0
    &&& g.keys_pressed@ == Seq::<Key>::empty()
    &&& g.words@.len() == RING_COUNT + VOCABULARY_COUNT
    &&& forall|i: int| 0 <= i < RING_COUNT ==> spec_ring_word(#[trigger] g.words@[i], i, w, h)
    &&& exists|shuffled: Seq<&'static str>|
        {
            &&& shuffled.to_multiset() == spec_word_list().to_multiset()
            &&& shuffled.len() == VOCABULARY_COUNT
            &&& forall|i: int|
                0 <= i < VOCABULARY_COUNT ==> spec_target_word(
                    #[trigger] g.words@[RING_COUNT + i],
                    shuffled[i],
                    i,
                    w,
                    h,
                )
        }
}

/// The playing field: the player, every word ever spawned, the
/// reset-progress cooldown, and the previous frame's held keys for
/// edge detection.
pub struct Game {
    pub player: Player,
    pub words: Vec<Word>,
    pub reset_typed: usize,
    pub keys_pressed: Vec<Key>,
}

impl Game {
    /// Every word is well formed.
    pub open spec fn wf(self) -> bool {
        forall|i: int| 0 <= i < self.words@.len() ==> (#[trigger] self.words@[i]).wf()
    }

    /// Builds the starting population for the given screen size, in
    /// thousandths of a pixel.
    pub fn new(screen_width: i64, screen_height: i64) -> (g: Game)
        requires
            0 <= screen_width <= MAX_SCREEN,
            0 <= screen_height <= MAX_SCREEN,
        ensures
            spec_fresh_game(g, screen_width as int, screen_height as int),
            g.wf(),
    {
        let ghost w = screen_width as int;
        let ghost h = screen_height as int;
        let player_radius: i64 = 4000;
        let player_position = Vec2 { x: ((screen_width as u64) / 2) as i64, y: screen_height
            - 30_000 };
        let radius: i64 = (((screen_height as u64) * 10) / 17) as i64;
        let center_x: i64 = ((screen_width as u64) / 2) as i64;
        let center_y: i64 = ((screen_height as u64) / 2) as i64 - 30_000;

        let mut words: Vec<Word> = Vec::new();

        let mut i: usize = 0;
        while i < RING_COUNT
            invariant
                0 <= i <= RING_COUNT,
                words@.len() == i,
                0 <= radius <= 0x1000_0000_0000,
                radius == spec_layout_radius(h),
                center_x == spec_center_x(w),
                center_y == spec_center_y(h),
                0 <= w <= MAX_SCREEN,
                0 <= h <= MAX_SCREEN,
                forall|j: int| 0 <= j < i ==> spec_ring_word(#[trigger] words@[j], j, w, h),
                forall|j: int| 0 <= j < i ==> (#[trigger] words@[j]).wf(),
            decreases RING_COUNT - i,
        {
            let angle: u64 = (i as u64) * 15_000;
            let pos = spawn_position(radius, angle, center_x, 2 * center_y);
            let wd = Word::new(ring_label(i), pos, Vec2::zero()).with_color(ColorPalette::Bg2);
            words.push(wd);
            i = i + 1;
        }

        let mut list = word_list();
        shuffle_strs(&mut list);
        let ghost shuffled = list@;

        let mut i: usize = 0;
        while i < VOCABULARY_COUNT
            invariant
                0 <= i <= VOCABULARY_COUNT,
                words@.len() == RING_COUNT + i,
                list@ == shuffled,
                shuffled.len() == VOCABULARY_COUNT,
                0 <= radius <= 0x1000_0000_0000,
                radius == spec_layout_radius(h),
                center_x == spec_center_x(w),
                center_y == spec_center_y(h),
                player_position == spec_player_position(w, h),
                0 <= w <= MAX_SCREEN,
                0 <= h <= MAX_SCREEN,
                forall|j: int| 0 <= j < RING_COUNT ==> spec_ring_word(#[trigger] words@[j], j, w, h),
                forall|j: int|
                    0 <= j < i ==> spec_target_word(
                        #[trigger] words@[RING_COUNT + j],
                        shuffled[j],
                        j,
                        w,
                        h,
                    ),
                forall|j: int| 0 <= j < words@.len() ==> (#[trigger] words@[j]).wf(),
            decreases VOCABULARY_COUNT - i,
        {
            let angle: u64 = rand_range_u64(0, 180_001);
            let rand_r: u64 = rand_range_u64(50_000, 300_000);
            proof {
                assert(0 <= (i as int) * (rand_r as int) <= 171 * 300_000) by (nonlinear_arith)
                    requires
                        0 <= i as int <= 171,
                        0 <= rand_r as int <= 300_000,
                ;
            }
            let r: i64 = radius + (i as i64) * (rand_r as i64);
            let pos = spawn_position(r, angle, center_x, center_y);
            let denom: i64 = (500 + (r as u64) / 2000) as i64;
            let vx = div_toward_zero(player_position.x - pos.x, denom);
            let vy = div_toward_zero(player_position.y - pos.y, denom);
            let wd = Word::new(list[i], pos, Vec2 { x: vx, y: vy });
            proof {
                assert(spec_target_word_at(
                    wd,
                    shuffled[i as int],
                    i as int,
                    w,
                    h,
                    angle as int,
                    rand_r as int,
                ));
            }
            words.push(wd);
            i = i + 1;
        }

        let g = Game {
            player: Player::new(player_position, player_radius),
            words,
            reset_typed: 0,
            keys_pressed: Vec::new(),
        };
        proof {
            assert(g.keys_pressed@ =~= Seq::<Key>::empty());
            assert(spec_fresh_game(g, w, h));
        }
        g
    }
}

/// A word that completes this frame: still `Active` with every
/// character already typed, so this update flips it to `Typed`.
pub open spec fn spec_word_completes(w: Word) -> bool {
    w.state == WordState::Active && w.num_typed == w.word@.len()
}

/// The update pass stops at a word that errors or completes.
pub open spec fn spec_word_stops(w: Word, key: Option<Key>) -> bool {
    w.spec_update_errors(key) || spec_word_completes(w)
}

/// The index of the first word at which the update pass stops, or the
/// sequence's length when it runs through all of them.
pub open spec fn spec_first_stop(words: Seq<Word>, key: Option<Key>) -> int
    decreases words.len(),
{
    if words.len() == 0 {
        0
    } else if spec_word_stops(words[0], key) {
        0
    } else {
        1 + spec_first_stop(words.drop_first(), key)
    }
}

/// The stop index is pinned down by a stop-free prefix followed by a
/// stopping word (or the sequence's end).
proof fn lemma_first_stop_is(words: Seq<Word>, key: Option<Key>, i: int)
    requires
        0 <= i <= words.len(),
        forall|j: int| 0 <= j < i ==> !spec_word_stops(#[trigger] words[j], key),
        i < words.len() ==> spec_word_stops(words[i], key),
    ensures
        spec_first_stop(words, key) == i,
    decreases words.len(),
{
    if words.len() > 0 {
        if i == 0 {
            if words.len() > 0 && !spec_word_stops(words[0], key) {
                assert(i < words.len());
            }
        } else {
            let tail = words.drop_first();
            assert(forall|j: int| 0 <= j < tail.len() ==> #[trigger] tail[j] == words[j + 1]);
            assert(forall|j: int| 0 <= j < i - 1 ==> !spec_word_stops(#[trigger] tail[j], key));
            lemma_first_stop_is(tail, key, i - 1);
        }
    }
}

/// What the cooldown does to one word: an `Active` word loses its
/// typed progress, others are untouched.
pub open spec fn spec_reset_word(w: Word) -> Word {
    if w.state == WordState::Active {
        Word { num_typed: 0usize, ..w }
    } else {
        w
    }
}

/// The whole per-frame relation between the game before and after
/// `Game::update`, given the held-key snapshot and the frame's time
/// delta. The newly pressed key is edge-detected against the previous
/// snapshot, which is then replaced. Under an active cooldown every
/// `Active` word's progress resets and the cooldown counts down;
/// otherwise words update in order, stopping early at the first
/// completion (which arms the cooldown) or unmapped-character error
/// (which is returned).
pub open spec fn spec_game_step(
    g0: Game,
    g1: Game,
    pressed: Seq<Key>,
    delta: int,
    r: Result<(), GameError>,
) -> bool {
    let key = spec_first_new_key(pressed, g0.keys_pressed@);
    let words = g0.words@;
    let stop = spec_first_stop(words, key);
    &&& g1.keys_pressed@ == pressed
    &&& g1.player == g0.player
    &&& g1.words@.len() == words.len()
    &&& if g0.reset_typed > 0 {
        &&& r is Ok
        &&& g1.reset_typed == g0.reset_typed - 1
        &&& forall|i: int|
            0 <= i < words.len() ==> g1.words@[i] == spec_reset_word(#[trigger] words[i])
    } else {
        &&& forall|i: int|
            0 <= i < stop ==> g1.words@[i] == (#[trigger] words[i]).spec_updated(key, delta)
        &&& if stop == words.len() {
            &&& r is Ok
            &&& g1.reset_typed == 0
        } else if words[stop].spec_update_errors(key) {
            &&& r == Err::<(), GameError>(
                GameError::UnmappedCharacter(words[stop].word@[words[stop].num_typed as int]),
            )
            &&& forall|i: int| stop <= i < words.len() ==> g1.words@[i] == #[trigger] words[i]
            &&& g1.reset_typed == 0
        } else {
            &&& r is Ok
            &&& g1.words@[stop] == words[stop].spec_updated(key, delta)
            &&& forall|i: int| stop < i < words.len() ==> g1.words@[i] == #[trigger] words[i]
            &&& g1.reset_typed == RESET_COOLDOWN
        }
    }
}

/// A copy of a held-key snapshot.
fn clone_keys(v: &Vec<Key>) -> (r: Vec<Key>)
    ensures
        r@ == v@,
{
    let mut r: Vec<Key> = Vec::new();
    let mut i: usize = 0;
    let n = v.len();
    while i < n
        invariant
            0 <= i <= n,
            n == v@.len(),
            r@ =~= v@.subrange(0, i as int),
        decreases n - i,
    {
        r.push(v[i]);
        i = i + 1;
    }
    proof {
        assert(r@ =~= v@);
    }
    r
}

impl Game {
    /// One frame: edge-detect the newly pressed key against the
    /// previous snapshot, then either spend a cooldown frame resetting
    /// every `Active` word's progress, or update the words in order,
    /// stopping at the first completion (arming the cooldown) or
    /// unmapped-character error.
    pub fn update(&mut self, pressed: &Vec<Key>, delta: u64) -> (r: Result<(), GameError>)
        requires
            old(self).wf(),
        ensures
            final(self).wf(),
            spec_game_step(*old(self), *final(self), pressed@, delta as int, r),
    {
        let new_keypress = first_new_key(pressed, &self.keys_pressed);
        self.keys_pressed = clone_keys(pressed);
        let ghost key = spec_first_new_key(pressed@, old(self).keys_pressed@);
        let ghost words0 = old(self).words@;

        let n = self.words.len();
        if self.reset_typed > 0 {
            let mut i: usize = 0;
            while i < n
                invariant
                    0 <= i <= n,
                    n == self.words@.len(),
                    n == words0.len(),
                    self.keys_pressed@ == pressed@,
                    self.player == old(self).player,
                    self.reset_typed == old(self).reset_typed,
                    forall|j: int| 0 <= j < i ==> self.words@[j] == spec_reset_word(#[trigger] words0[j]),
                    forall|j: int| i <= j < n ==> self.words@[j] == #[trigger] words0[j],
                    forall|j: int| 0 <= j < n ==> (#[trigger] self.words@[j]).wf(),
                decreases n - i,
            {
                if self.words[i].state == WordState::Active {
                    self.words[i].num_typed = 0;
                }
                i = i + 1;
            }
            self.reset_typed = self.reset_typed - 1;
            Ok(())
        } else {
            let mut i: usize = 0;
            while i < n
                invariant
                    0 <= i <= n,
                    n == self.words@.len(),
                    n == words0.len(),
                    self.keys_pressed@ == pressed@,
                    self.player == old(self).player,
                    self.reset_typed == 0,
                    old(self).reset_typed == 0,
                    words0 == old(self).words@,
                    key == spec_first_new_key(pressed@, old(self).keys_pressed@),
                    new_keypress == key,
                    forall|j: int| 0 <= j < i ==> !spec_word_stops(#[trigger] words0[j], key),
                    forall|j: int|
                        0 <= j < i ==> self.words@[j] == (#[trigger] words0[j]).spec_updated(
                            key,
                            delta as int,
                        ),
                    forall|j: int| i <= j < n ==> self.words@[j] == #[trigger] words0[j],
                    forall|j: int| 0 <= j < n ==> (#[trigger] self.words@[j]).wf(),
                decreases n - i,
            {
                let old_state = self.words[i].state;
                let res = self.words[i].update(delta, new_keypress);
                match res {
                    Err(e) => {
                        proof {
                            lemma_first_stop_is(words0, key, i as int);
                        }
                        return Err(e);
                    },
                    Ok(()) => {},
                }
                if old_state == WordState::Active && self.words[i].state == WordState::Typed {
                    self.reset_typed = RESET_COOLDOWN;
                    proof {
                        lemma_first_stop_is(words0, key, i as int);
                    }
                    return Ok(());
                }
                proof {
                    assert(!spec_word_stops(words0[i as int], key));
                }
                i = i + 1;
            }
            proof {
                lemma_first_stop_is(words0, key, n as int);
            }
            Ok(())
        }
    }
}

/// Once a word's completion arms the cooldown, each of the next two
/// updates forces every still-`Active` word's typed count back to
/// zero and accepts no typing, and the cooldown is then spent: normal
/// processing resumes on the third.
pub proof fn lemma_reset_cooldown(
    g0: Game,
    g1: Game,
    g2: Game,
    keys1: Seq<Key>,
    keys2: Seq<Key>,
    d1: int,
    d2: int,
    r1: Result<(), GameError>,
    r2: Result<(), GameError>,
)
    requires
        g0.reset_typed == RESET_COOLDOWN,
        spec_game_step(g0, g1, keys1, d1, r1),
        spec_game_step(g1, g2, keys2, d2, r2),
    ensures
        forall|i: int|
            0 <= i < g0.words@.len() ==> g1.words@[i] == spec_reset_word(#[trigger] g0.words@[i]),
        forall|i: int|
            0 <= i < g1.words@.len() ==> g2.words@[i] == spec_reset_word(#[trigger] g1.words@[i]),
        forall|i: int|
            0 <= i < g0.words@.len() ==> ((#[trigger] g0.words@[i]).state == WordState::Active
                ==> g2.words@[i].num_typed == 0),
        g1.reset_typed == 1,
        g2.reset_typed == 0,
{
    assert forall|i: int|
        0 <= i < g0.words@.len() && (#[trigger] g0.words@[i]).state == WordState::Active implies g2
        .words@[i].num_typed == 0 by {
        assert(g1.words@[i] == spec_reset_word(g0.words@[i]));
        assert(g2.words@[i] == spec_reset_word(g1.words@[i]));
    }
}

/// Which screen the game shows.
#[derive(Copy, Clone, Debug, PartialEq, Eq, Structural)]
pub enum GameState {
    Active,
    MainMenu,
    Paused,
}

/// The top of the program: the current screen, the running game and
/// the two menus.
pub struct GameManager<'a> {
    pub game_state: GameState,
    pub game: Game,
    pub main_menu: MainMenu<'a>,
    pub pause_menu: Menu<'a>,
}

impl<'a> GameManager<'a> {
    pub open spec fn wf(self) -> bool {
        &&& self.game.wf()
        &&& self.main_menu.wf()
        &&& self.pause_menu.wf()
    }

    /// Starts at the main menu, with an empty placeholder game.
    pub fn new() -> (r: GameManager<'a>)
        ensures
            r.game_state == GameState::MainMenu,
            spec_fresh_game(r.game, 0, 0),
            r.main_menu.menu.menu_items@ == seq![NEW_GAME, EXIT],
            r.main_menu.menu.selected_index == 0,
            r.main_menu.show_resume == false,
            r.pause_menu.title == PAUSE_MENU_TITLE,
            r.pause_menu.menu_items@ == seq![RESUME, MAIN_MENU, EXIT],
            r.pause_menu.selected_index == 0,
            r.pause_menu.shade_background == true,
            r.wf(),
    {
        let pause_items: [&'static str; 3] = [RESUME, MAIN_MENU, EXIT];
        let r = GameManager {
            game_state: GameState::MainMenu,
            game: Game::new(0, 0),
            main_menu: MainMenu::new(),
            pause_menu: Menu::new(PAUSE_MENU_TITLE, pause_items.as_slice()).shade_background(true),
        };
        proof {
            assert(r.pause_menu.menu_items@ =~= seq![RESUME, MAIN_MENU, EXIT]);
        }
        r
    }

    /// One frame: the active game advances; a menu screen does
    /// nothing.
    pub fn update(&mut self, pressed: &Vec<Key>, delta: u64) -> (r: Result<(), GameError>)
        requires
            old(self).wf(),
        ensures
            final(self).wf(),
            final(self).game_state == old(self).game_state,
            final(self).main_menu == old(self).main_menu,
            final(self).pause_menu == old(self).pause_menu,
            old(self).game_state == GameState::Active ==> spec_game_step(
                old(self).game,
                final(self).game,
                pressed@,
                delta as int,
                r,
            ),
            old(self).game_state != GameState::Active ==> final(self).game == old(self).game && r
                is Ok,
    {
        match self.game_state {
            GameState::Active => self.game.update(pressed, delta),
            GameState::MainMenu => {
                self.main_menu.update();
                Ok(())
            },
            GameState::Paused => {
                self.pause_menu.update();
                Ok(())
            },
        }
    }

    /// A key arriving while the game is on screen: escape pauses,
    /// anything else is left for the per-frame edge detector.
    ///
    /// On a menu screen, enter acts on the selected item — starting a
    /// fresh game for the current screen size, resuming, exiting (a
    /// host concern, nothing here), or returning to the main menu —
    /// and any other key navigates the menu.
    pub fn key_down_event(&mut self, keycode: Key, screen_width: i64, screen_height: i64)
        requires
            old(self).wf(),
            0 <= screen_width <= MAX_SCREEN,
            0 <= screen_height <= MAX_SCREEN,
        ensures
            final(self).wf(),
            ({
                let m = *old(self);
                match m.game_state {
                    GameState::Active => {
                        if keycode == Key::Escape {
                            *final(self) == (GameManager { game_state: GameState::Paused, ..m })
                        } else {
                            *final(self) == m
                        }
                    },
                    GameState::MainMenu => {
                        if keycode == Key::Enter {
                            let selected =
                                m.main_menu.menu.menu_items@[m.main_menu.menu.selected_index as int];
                            if selected@ == NEW_GAME@ {
                                &&& final(self).game_state == GameState::Active
                                &&& spec_fresh_game(
                                    final(self).game,
                                    screen_width as int,
                                    screen_height as int,
                                )
                                &&& m.main_menu.spec_shown_resume(final(self).main_menu)
                                &&& final(self).pause_menu == m.pause_menu
                            } else if selected@ == RESUME@ {
                                *final(self) == (GameManager {
                                    game_state: GameState::Active,
                                    ..m
                                })
                            } else {
                                *final(self) == m
                            }
                        } else {
                            *final(self) == (GameManager {
                                main_menu: MainMenu {
                                    menu: m.main_menu.menu.spec_nav(keycode),
                                    ..m.main_menu
                                },
                                ..m
                            })
                        }
                    },
                    GameState::Paused => {
                        let reset = Menu { selected_index: 0usize, ..m.pause_menu };
                        if keycode == Key::Enter {
                            let selected = m.pause_menu.menu_items@[m.pause_menu.selected_index as int];
                            if selected@ == RESUME@ {
                                *final(self) == (GameManager {
                                    game_state: GameState::Active,
                                    pause_menu: reset,
                                    ..m
                                })
                            } else if selected@ == EXIT@ {
                                *final(self) == (GameManager { pause_menu: reset, ..m })
                            } else if selected@ == MAIN_MENU@ {
                                *final(self) == (GameManager {
                                    game_state: GameState::MainMenu,
                                    pause_menu: reset,
                                    ..m
                                })
                            } else {
                                *final(self) == (GameManager { pause_menu: reset, ..m })
                            }
                        } else if keycode == Key::Escape {
                            *final(self) == (GameManager {
                                game_state: GameState::Active,
                                pause_menu: reset,
                                ..m
                            })
                        } else {
                            *final(self) == (GameManager {
                                pause_menu: m.pause_menu.spec_nav(keycode),
                                ..m
                            })
                        }
                    },
                }
            }),
    {
        match self.game_state {
            GameState::Active => {
                if keycode == Key::Escape {
                    self.game_state = GameState::Paused;
                }
            },
            GameState::MainMenu => {
                if keycode == Key::Enter {
                    let selected = self.main_menu.selected_item();
                    if str_eq(selected, NEW_GAME) {
                        self.game = Game::new(screen_width, screen_height);
                        self.game_state = GameState::Active;
                        self.main_menu.show_resume(true);
                    } else if str_eq(selected, RESUME) {
                        self.game_state = GameState::Active;
                    } else if str_eq(selected, EXIT) {
                    }
                } else {
                    self.main_menu.key_down_event(keycode);
                }
            },
            GameState::Paused => {
                if keycode == Key::Enter {
                    let selected = self.pause_menu.selected_item();
                    if str_eq(selected, RESUME) {
                        self.game_state = GameState::Active;
                    } else if str_eq(selected, EXIT) {
                    } else if str_eq(selected, MAIN_MENU) {
                        self.game_state = GameState::MainMenu;
                    }
                    self.pause_menu.reset_selection();
                } else if keycode == Key::Escape {
                    self.game_state = GameState::Active;
                    self.pause_menu.reset_selection();
                } else {
                    self.pause_menu.key_down_event(keycode);
                }
            },
        }
    }
}

} // verus!
