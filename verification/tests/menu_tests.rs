use word_arcade::color_scheme::ColorPalette;
use word_arcade::keys::Key;
use word_arcade::menu::{str_eq, MainMenu, Menu, EXIT, NEW_GAME, RESUME};

#[test]
fn test_next_selection() {
    let menu_items = vec!["Item 1", "Item 2", "Item 3"];

    let mut menu = Menu::new("Test Title", &menu_items);

    assert_eq!(menu.selected_index, 0);
    assert_eq!(menu.selected_item(), menu_items[0]);

    menu.next_selection();

    assert_eq!(menu.selected_index, 1);
    assert_eq!(menu.selected_item(), menu_items[1]);

    menu.next_selection();

    assert_eq!(menu.selected_index, 2);
    assert_eq!(menu.selected_item(), menu_items[2]);

    menu.next_selection();

    assert_eq!(menu.selected_index, 0);
    assert_eq!(menu.selected_item(), menu_items[0]);
}

#[test]
fn test_prev_selection() {
    let menu_items = vec!["Item 1", "Item 2", "Item 3"];

    let mut menu = Menu::new("Test Title", &menu_items);

    assert_eq!(menu.selected_index, 0);
    assert_eq!(menu.selected_item(), menu_items[0]);

    menu.prev_selection();

    assert_eq!(menu.selected_index, 2);
    assert_eq!(menu.selected_item(), menu_items[2]);

    menu.prev_selection();

    assert_eq!(menu.selected_index, 1);
    assert_eq!(menu.selected_item(), menu_items[1]);

    menu.prev_selection();

    assert_eq!(menu.selected_index, 0);
    assert_eq!(menu.selected_item(), menu_items[0]);
}

#[test]
fn test_key_navigation_and_item_color() {
    let menu_items = vec!["Item 1", "Item 2"];
    let mut menu = Menu::new("Test Title", &menu_items);

    menu.key_down_event(Key::Down);
    assert_eq!(menu.selected_index, 1);
    menu.key_down_event(Key::Up);
    assert_eq!(menu.selected_index, 0);
    menu.key_down_event(Key::Enter);
    assert_eq!(menu.selected_index, 0);

    assert_eq!(menu.item_color(0), ColorPalette::BrightYellow);
    assert_eq!(menu.item_color(1), ColorPalette::Fg);

    menu.reset_selection();
    assert_eq!(menu.selected_index, 0);
}

#[test]
fn test_shade_builders() {
    let menu_items = vec!["Item 1"];
    let menu = Menu::new("Test Title", &menu_items);
    assert!(!menu.shade_background);
    assert!(!menu.shade_menu_items);
    let menu = menu.shade_background(true).shade_menu_items(true);
    assert!(menu.shade_background);
    assert!(menu.shade_menu_items);
    assert_eq!(menu.title, "Test Title");
    assert_eq!(menu.selected_index, 0);
}

#[test]
fn test_main_menu_show_resume() {
    let mut main_menu = MainMenu::new();
    assert_eq!(main_menu.selected_item(), NEW_GAME);
    assert!(!main_menu.show_resume);
    assert_eq!(main_menu.menu.menu_items, vec![NEW_GAME, EXIT]);

    main_menu.show_resume(true);
    assert!(main_menu.show_resume);
    assert_eq!(main_menu.menu.menu_items, vec![RESUME, NEW_GAME, EXIT]);
    assert_eq!(main_menu.selected_item(), RESUME);

    main_menu.show_resume(true);
    assert_eq!(main_menu.menu.menu_items, vec![RESUME, NEW_GAME, EXIT]);

    main_menu.show_resume(false);
    assert!(!main_menu.show_resume);
    assert_eq!(main_menu.menu.menu_items, vec![NEW_GAME, EXIT]);
}

#[test]
fn test_str_eq() {
    assert!(str_eq("New Game", "New Game"));
    assert!(!str_eq("New Game", "Resume"));
    assert!(!str_eq("ab", "abc"));
    assert!(str_eq("", ""));
}
