use word_arcade::color_scheme::ColorPalette;
use word_arcade::game::{Game, GameManager, GameState, Player, word_list};
use word_arcade::geom::Vec2;
use word_arcade::keys::{first_new_key, Key};
use word_arcade::menu::{MAIN_MENU, NEW_GAME, RESUME};
use word_arcade::word::{Word, WordState};

fn text_of(w: &Word) -> String {
    w.word.iter().collect()
}

// Held-key sets {} then {A} then {A} then {A,B} give the detected
// sequence None, A, None, B: a key held across frames is never
// re-reported.
#[test]
fn test_edge_detection_sequence() {
    let empty: Vec<Key> = vec![];
    let a: Vec<Key> = vec![Key::A];
    let ab: Vec<Key> = vec![Key::A, Key::B];

    assert_eq!(first_new_key(&empty, &empty), None);
    assert_eq!(first_new_key(&a, &empty), Some(Key::A));
    assert_eq!(first_new_key(&a, &a), None);
    assert_eq!(first_new_key(&ab, &a), Some(Key::B));
}

#[test]
fn test_game_tracks_previous_keys() {
    let mut g = Game {
        player: Player::new(Vec2 { x: 0, y: 0 }, 4000),
        words: vec![],
        reset_typed: 0,
        keys_pressed: vec![],
    };
    let a: Vec<Key> = vec![Key::A];
    g.update(&a, 16).unwrap();
    assert_eq!(g.keys_pressed, vec![Key::A]);
    g.update(&vec![], 16).unwrap();
    assert!(g.keys_pressed.is_empty());
}

// Two words sharing a prefix both take the same keystrokes; the first
// to complete arms the cooldown, which then wipes the other's progress
// for exactly the two following updates.
#[test]
fn test_reset_cooldown() {
    let still = Vec2 { x: 0, y: 0 };
    let cat = Word::new("cat", still, still);
    let car = Word::new("car", still, still);
    let mut g = Game {
        player: Player::new(Vec2 { x: 0, y: 0 }, 4000),
        words: vec![cat, car],
        reset_typed: 0,
        keys_pressed: vec![],
    };

    let press = |k: Key| vec![k];
    let none: Vec<Key> = vec![];

    g.update(&press(Key::C), 16).unwrap();
    g.update(&none, 16).unwrap();
    g.update(&press(Key::A), 16).unwrap();
    g.update(&none, 16).unwrap();
    g.update(&press(Key::T), 16).unwrap();
    assert_eq!(g.words[0].num_typed, 3);
    assert_eq!(g.words[0].state, WordState::Active);
    // "car" matched the shared prefix and is two characters in.
    assert_eq!(g.words[1].num_typed, 2);

    // The completed word flips to Typed, arming the cooldown.
    g.update(&none, 16).unwrap();
    assert_eq!(g.words[0].state, WordState::Typed);
    assert_eq!(g.reset_typed, 2);
    assert_eq!(g.words[1].num_typed, 2);

    // First cooldown update: every still-Active word loses its
    // progress, and no typing is accepted.
    g.update(&press(Key::R), 16).unwrap();
    assert_eq!(g.words[1].num_typed, 0);
    assert_eq!(g.reset_typed, 1);

    // Second cooldown update: progress is still pinned to zero.
    g.update(&press(Key::C), 16).unwrap();
    assert_eq!(g.words[1].num_typed, 0);
    assert_eq!(g.reset_typed, 0);

    // Cooldown spent: typing works again.
    g.update(&none, 16).unwrap();
    g.update(&press(Key::C), 16).unwrap();
    assert_eq!(g.words[1].num_typed, 1);
}

#[test]
fn test_unmapped_character_stops_the_frame() {
    let still = Vec2 { x: 0, y: 0 };
    let ok = Word::new("an", still, still);
    let bad = Word::new("?x", still, still);
    let tail = Word::new("be", still, still);
    let mut g = Game {
        player: Player::new(Vec2 { x: 0, y: 0 }, 4000),
        words: vec![ok, bad, tail],
        reset_typed: 0,
        keys_pressed: vec![],
    };
    let err = g.update(&vec![Key::A], 16).unwrap_err();
    assert_eq!(
        err,
        word_arcade::word::GameError::UnmappedCharacter('?')
    );
    // The word before the fault was processed; the ones from the
    // fault on were not.
    assert_eq!(g.words[0].num_typed, 1);
    assert_eq!(g.words[1].num_typed, 0);
    assert_eq!(g.words[2].num_typed, 0);
}

// The layout always yields 13 + 171 words, and the 171 targets are a
// permutation of the fixed vocabulary.
#[test]
fn test_layout_counts_and_permutation() {
    let g = Game::new(800_000, 600_000);
    assert_eq!(g.words.len(), 184);

    let labels = ["0", "15", "30", "45", "60", "75", "90", "105", "120", "135", "150", "165",
        "180"];
    for (i, label) in labels.iter().enumerate() {
        assert_eq!(text_of(&g.words[i]), *label);
        assert_eq!(g.words[i].velocity, Vec2 { x: 0, y: 0 });
        assert_eq!(g.words[i].color, ColorPalette::Bg2);
        assert_eq!(g.words[i].state, WordState::Active);
        assert_eq!(g.words[i].num_typed, 0);
    }

    // The ring's first label sits at angle 0: directly left of the
    // center on the base ring around the doubled vertical center.
    // radius = 600000 * 10 / 17; center = (400000, 270000).
    assert_eq!(g.words[0].position, Vec2 { x: 400_000 - 352_941, y: 540_000 });

    let mut spawned: Vec<String> = g.words[13..].iter().map(text_of).collect();
    let mut vocabulary: Vec<String> = word_list().iter().map(|s| s.to_string()).collect();
    assert_eq!(spawned.len(), 171);
    spawned.sort();
    vocabulary.sort();
    assert_eq!(spawned, vocabulary);

    for w in &g.words[13..] {
        assert_eq!(w.color, ColorPalette::Fg);
        assert_eq!(w.state, WordState::Active);
        assert_eq!(w.num_typed, 0);
    }

    // Two runs almost surely disagree on the spawn order; both are
    // permutations of the same list.
    let g2 = Game::new(800_000, 600_000);
    let mut spawned2: Vec<String> = g2.words[13..].iter().map(text_of).collect();
    spawned2.sort();
    assert_eq!(spawned2, vocabulary);
}

#[test]
fn test_player_is_fixed() {
    let g = Game::new(800_000, 600_000);
    assert_eq!(g.player.position, Vec2 { x: 400_000, y: 570_000 });
    assert_eq!(g.player.radius, 4000);
    assert_eq!(g.player.precision, 10);
    let mut p = Player::new(Vec2 { x: 1, y: 2 }, 4000);
    p.update();
    assert_eq!(p.position, Vec2 { x: 1, y: 2 });
}

#[test]
fn test_manager_screens() {
    let mut m = GameManager::new();
    assert_eq!(m.game_state, GameState::MainMenu);
    assert_eq!(m.main_menu.selected_item(), NEW_GAME);

    // Enter on "New Game": a fresh game for the current screen size.
    m.key_down_event(Key::Enter, 800_000, 600_000);
    assert_eq!(m.game_state, GameState::Active);
    assert_eq!(m.game.words.len(), 184);
    assert!(m.main_menu.show_resume);
    assert_eq!(m.main_menu.selected_item(), RESUME);

    // Escape pauses; enter on "Main Menu" goes back and resets the
    // pause menu's selection.
    m.key_down_event(Key::Escape, 800_000, 600_000);
    assert_eq!(m.game_state, GameState::Paused);
    m.key_down_event(Key::Down, 800_000, 600_000);
    assert_eq!(m.pause_menu.selected_item(), MAIN_MENU);
    m.key_down_event(Key::Enter, 800_000, 600_000);
    assert_eq!(m.game_state, GameState::MainMenu);
    assert_eq!(m.pause_menu.selected_index, 0);

    // Enter on "Resume" returns to the running game.
    m.key_down_event(Key::Enter, 800_000, 600_000);
    assert_eq!(m.game_state, GameState::Active);

    // While active, other keys leave the screen alone.
    m.key_down_event(Key::A, 800_000, 600_000);
    assert_eq!(m.game_state, GameState::Active);

    // A menu screen's frame update does nothing to the game.
    m.key_down_event(Key::Escape, 800_000, 600_000);
    assert_eq!(m.game_state, GameState::Paused);
    m.update(&vec![Key::A], 16).unwrap();
    assert!(m.game.keys_pressed.is_empty());
}
