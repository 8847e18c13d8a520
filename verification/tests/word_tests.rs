use word_arcade::color_scheme::ColorPalette;
use word_arcade::geom::Vec2;
use word_arcade::keys::{ch_to_keycode, Key};
use word_arcade::word::{new_death_animation, GameError, Word, WordState, ANIMATION_DURATION};

fn still() -> Vec2 {
    Vec2 { x: 0, y: 0 }
}

#[test]
fn test_ch_to_keycode() {
    assert_eq!(ch_to_keycode('a'), Some(Key::A));
    assert_eq!(ch_to_keycode('z'), Some(Key::Z));
    assert_eq!(ch_to_keycode('0'), Some(Key::Key0));
    assert_eq!(ch_to_keycode('9'), Some(Key::Key9));
    assert_eq!(ch_to_keycode('A'), None);
    assert_eq!(ch_to_keycode('!'), None);
    assert_eq!(ch_to_keycode(' '), None);
}

#[test]
fn test_new_word() {
    let w = Word::new("cat", Vec2 { x: 5, y: 6 }, Vec2 { x: 1, y: 2 });
    assert_eq!(w.word, vec!['c', 'a', 't']);
    assert_eq!(w.num_typed, 0);
    assert_eq!(w.state, WordState::Active);
    assert_eq!(w.color, ColorPalette::Fg);
    assert_eq!(w.position, Vec2 { x: 5, y: 6 });
    assert_eq!(w.velocity, Vec2 { x: 1, y: 2 });
    assert_eq!(w.death_animation.elapsed, 0);
    assert_eq!(w.death_animation.keyframes.len(), 4);

    let colored = w.with_color(ColorPalette::Bg2);
    assert_eq!(colored.color, ColorPalette::Bg2);
}

// The scenario from the state-machine design: "cat" is typed key by
// key; a wrong or repeated key changes nothing; the flip to `Typed`
// lands on the update after the final character matched.
#[test]
fn test_typing_cat() {
    let mut w = Word::new("cat", still(), Vec2 { x: 3, y: 4 });

    w.update(16, Some(Key::C)).unwrap();
    assert_eq!(w.num_typed, 1);
    assert_eq!(w.state, WordState::Active);
    assert_eq!(w.position, Vec2 { x: 3, y: 4 });

    // 'c' again: the next expected character is 'a', nothing matches.
    w.update(16, Some(Key::C)).unwrap();
    assert_eq!(w.num_typed, 1);
    assert_eq!(w.state, WordState::Active);

    w.update(16, Some(Key::A)).unwrap();
    assert_eq!(w.num_typed, 2);

    w.update(16, Some(Key::T)).unwrap();
    assert_eq!(w.num_typed, 3);
    // The word is fully typed, but the transition check runs before
    // the character match within an update, so the flip lands on the
    // next call.
    assert_eq!(w.state, WordState::Active);
    // The word still moved on the frame of the final match.
    assert_eq!(w.position, Vec2 { x: 12, y: 16 });

    w.update(16, None).unwrap();
    assert_eq!(w.state, WordState::Typed);
    // Motion stops once fully typed.
    assert_eq!(w.position, Vec2 { x: 12, y: 16 });

    // While `Typed`, keystrokes no longer change the typed count.
    w.update(16, Some(Key::C)).unwrap();
    assert_eq!(w.num_typed, 3);
    assert_eq!(w.state, WordState::Typed);
}

#[test]
fn test_single_character_word_takes_two_updates() {
    let mut w = Word::new("a", still(), still());
    w.update(16, Some(Key::A)).unwrap();
    assert_eq!(w.num_typed, 1);
    assert_eq!(w.state, WordState::Active);
    w.update(16, None).unwrap();
    assert_eq!(w.state, WordState::Typed);
}

#[test]
fn test_death_animation_runs_to_dead() {
    let mut w = Word::new("a", still(), still());
    w.update(16, Some(Key::A)).unwrap();
    w.update(16, None).unwrap();
    assert_eq!(w.state, WordState::Typed);

    // The animation clock starts accumulating from here on.
    w.update(400, None).unwrap();
    assert_eq!(w.state, WordState::Typed);
    assert_eq!(w.death_animation.elapsed, 400);

    w.update(ANIMATION_DURATION, None).unwrap();
    assert_eq!(w.death_animation.elapsed, ANIMATION_DURATION);
    assert_eq!(w.state, WordState::Typed);

    // The animation has finished; the next update notices.
    w.update(16, None).unwrap();
    assert_eq!(w.state, WordState::Dead);
    assert_eq!(w.death_animation.elapsed, ANIMATION_DURATION);

    // Dead words are inert.
    w.update(16, Some(Key::A)).unwrap();
    assert_eq!(w.state, WordState::Dead);
    assert_eq!(w.num_typed, 1);
}

#[test]
fn test_unmapped_character_error() {
    let mut w = Word::new("!a", still(), still());
    // No key pressed: no error is raised.
    w.update(16, None).unwrap();
    assert_eq!(w.num_typed, 0);
    // A key arrives while the next character has no mapping.
    let err = w.update(16, Some(Key::A)).unwrap_err();
    assert_eq!(err, GameError::UnmappedCharacter('!'));
    assert_eq!(w.num_typed, 0);
    assert_eq!(w.state, WordState::Active);
}

#[test]
fn test_draw_splits_text_and_colors() {
    let mut w = Word::new("cat", Vec2 { x: 7, y: 8 }, still());
    w.update(16, Some(Key::C)).unwrap();

    let d = w.draw();
    assert_eq!(d.typed, vec!['c']);
    assert_eq!(d.untyped, vec!['a', 't']);
    assert_eq!(d.typed_color, ColorPalette::BrightYellow.to_tweenable());
    assert_eq!(d.untyped_color, ColorPalette::Fg);
    assert_eq!(d.position, Vec2 { x: 7, y: 8 });

    // Once typed, the prefix takes the animation's current color,
    // which at time zero is the animation's first stop.
    w.update(16, Some(Key::A)).unwrap();
    w.update(16, Some(Key::T)).unwrap();
    w.update(0, None).unwrap();
    assert_eq!(w.state, WordState::Typed);
    let d = w.draw();
    assert_eq!(d.typed_color, ColorPalette::BrightYellow.to_tweenable());

    // Once the animation is over, a dead word renders as background.
    w.update(ANIMATION_DURATION, None).unwrap();
    w.update(0, None).unwrap();
    assert_eq!(w.state, WordState::Dead);
    let d = w.draw();
    assert_eq!(d.typed_color, ColorPalette::Bg.to_tweenable());
}

#[test]
fn test_death_animation_shape() {
    let anim = new_death_animation();
    assert_eq!(anim.keyframes[0].value, ColorPalette::BrightYellow.to_tweenable());
    assert_eq!(anim.keyframes[0].time, 0);
    assert_eq!(anim.keyframes[1].value, ColorPalette::Fg0.to_tweenable());
    assert_eq!(anim.keyframes[1].time, 50);
    assert_eq!(anim.keyframes[2].value, ColorPalette::Blue.to_tweenable());
    assert_eq!(anim.keyframes[2].time, 450);
    assert_eq!(anim.keyframes[3].value, ColorPalette::Bg.to_tweenable());
    assert_eq!(anim.keyframes[3].time, ANIMATION_DURATION);
}
