//! Menus: a titled list of selectable items.
//!
//! A menu keeps a selected index that wraps around under up/down
//! navigation; the main menu additionally shows a resume entry once a
//! game has been started. Rendering positions and sizes belong to the
//! host; the menu only decides its items, the selection and each
//! item's color.

use vstd::prelude::*;
use vstd::slice::slice_to_vec;

use crate::color_scheme::ColorPalette;
use crate::keys::Key;

verus! {

pub const MAIN_MENU_TITLE: &'static str = "Animated Memory";

pub const PAUSE_MENU_TITLE: &'static str = "Paused";

pub const NEW_GAME: &'static str = "New Game";

pub const RESUME: &'static str = "Resume";

pub const MAIN_MENU: &'static str = "Main Menu";

pub const EXIT: &'static str = "Exit";

/// Character-by-character string equality.
pub fn str_eq(a: &str, b: &str) -> (r: bool)
    ensures
        r == (a@ == b@),
{
    let n = a.unicode_len();
    if n != b.unicode_len() {
        return false;
    }
    let mut i: usize = 0;
    while i < n
        invariant
            0 <= i <= n,
            n == a@.len(),
            n == b@.len(),
            forall|j: int| 0 <= j < i ==> a@[j] == b@[j],
        decreases n - i,
    {
        if a.get_char(i) != b.get_char(i) {
            return false;
        }
        i = i + 1;
    }
    proof {
        assert(a@ =~= b@);
    }
    true
}

/// A titled list of selectable items.
pub struct Menu<'a> {
    pub title: &'a str,
    pub menu_items: Vec<&'a str>,
    pub shade_background: bool,
    pub shade_menu_items: bool,
    pub selected_index: usize,
}

impl<'a> Menu<'a> {
    /// The selection always points at an item.
    pub open spec fn wf(self) -> bool {
        self.selected_index < self.menu_items@.len()
    }

    /// The menu with its selection moved down, wrapped to the top.
    pub open spec fn spec_next(self) -> Menu<'a> {
        Menu {
            selected_index: ((self.selected_index + 1) % (self.menu_items@.len() as int)) as usize,
            ..self
        }
    }

    /// The menu with its selection moved up, wrapped to the bottom.
    pub open spec fn spec_prev(self) -> Menu<'a> {
        Menu {
            selected_index: (if self.selected_index == 0 {
                self.menu_items@.len() - 1
            } else {
                self.selected_index - 1
            }) as usize,
            ..self
        }
    }

    /// The menu after a key: up and down move the selection, other keys
    /// leave it alone.
    pub open spec fn spec_nav(self, keycode: Key) -> Menu<'a> {
        match keycode {
            Key::Up => self.spec_prev(),
            Key::Down => self.spec_next(),
            _ => self,
        }
    }

    pub fn new(title: &'a str, menu_items: &[&'a str]) -> (r: Menu<'a>)
        requires
            menu_items@.len() > 0,
        ensures
            r.title == title,
            r.menu_items@ == menu_items@,
            r.shade_background == false,
            r.shade_menu_items == false,
            r.selected_index == 0,
            r.wf(),
    {
        Menu {
            title,
            menu_items: slice_to_vec(menu_items),
            shade_background: false,
            shade_menu_items: false,
            selected_index: 0,
        }
    }

    pub fn shade_background(self, val: bool) -> (r: Menu<'a>)
        ensures
            r == (Menu { shade_background: val, ..self }),
    {
        Menu { shade_background: val, ..self }
    }

    pub fn shade_menu_items(self, val: bool) -> (r: Menu<'a>)
        ensures
            r == (Menu { shade_menu_items: val, ..self }),
    {
        Menu { shade_menu_items: val, ..self }
    }

    pub fn reset_selection(&mut self)
        ensures
            *final(self) == (Menu { selected_index: 0usize, ..*old(self) }),
    {
        self.selected_index = 0;
    }

    pub fn selected_item(&self) -> (r: &'a str)
        requires
            self.wf(),
        ensures
            r == self.menu_items@[self.selected_index as int],
    {
        self.menu_items[self.selected_index]
    }

    /// Moves the selection down, wrapping to the top.
    pub fn next_selection(&mut self)
        requires
            old(self).wf(),
        ensures
            *final(self) == old(self).spec_next(),
            final(self).wf(),
    {
        let n = self.menu_items.len();
        self.selected_index = (self.selected_index + 1) % n;
    }

    /// Moves the selection up, wrapping to the bottom.
    pub fn prev_selection(&mut self)
        requires
            old(self).wf(),
        ensures
            *final(self) == old(self).spec_prev(),
            final(self).wf(),
    {
        self.selected_index = if self.selected_index == 0 {
            self.menu_items.len() - 1
        } else {
            self.selected_index - 1
        };
    }

    /// A menu does nothing between frames.
    pub fn update(&mut self)
        ensures
            *final(self) == *old(self),
    {
    }

    /// Up and down move the selection; other keys are ignored.
    pub fn key_down_event(&mut self, keycode: Key)
        requires
            old(self).wf(),
        ensures
            *final(self) == old(self).spec_nav(keycode),
            final(self).wf(),
    {
        match keycode {
            Key::Up => self.prev_selection(),
            Key::Down => self.next_selection(),
            _ => (),
        }
    }

    /// The color an item is rendered in: the selected item carries the
    /// highlight color.
    pub fn item_color(&self, i: usize) -> (c: ColorPalette)
        ensures
            c == (if i == self.selected_index {
                ColorPalette::BrightYellow
            } else {
                ColorPalette::Fg
            }),
    {
        if i == self.selected_index {
            ColorPalette::BrightYellow
        } else {
            ColorPalette::Fg
        }
    }
}

/// The main menu: new game and exit, with a resume entry shown once a
/// game exists.
pub struct MainMenu<'a> {
    pub menu: Menu<'a>,
    pub show_resume: bool,
}

impl<'a> MainMenu<'a> {
    pub open spec fn wf(self) -> bool {
        self.menu.wf()
    }

    /// What showing the resume entry does: nothing when it is already
    /// shown, otherwise it enters at the top of the list, with the rest
    /// of the menu untouched.
    pub open spec fn spec_shown_resume(self, post: MainMenu<'a>) -> bool {
        if self.show_resume {
            post == self
        } else {
            &&& post.menu.menu_items@ == self.menu.menu_items@.insert(0, RESUME)
            &&& post.menu.selected_index == self.menu.selected_index
            &&& post.menu.title == self.menu.title
            &&& post.menu.shade_background == self.menu.shade_background
            &&& post.menu.shade_menu_items == self.menu.shade_menu_items
            &&& post.show_resume == true
        }
    }

    pub fn new() -> (r: MainMenu<'a>)
        ensures
            r.menu.title == MAIN_MENU_TITLE,
            r.menu.menu_items@ == seq![NEW_GAME, EXIT],
            r.menu.shade_background == false,
            r.menu.shade_menu_items == true,
            r.menu.selected_index == 0,
            r.show_resume == false,
            r.wf(),
    {
        let items: [&'static str; 2] = [NEW_GAME, EXIT];
        let r = MainMenu {
            menu: Menu::new(MAIN_MENU_TITLE, items.as_slice()).shade_menu_items(true),
            show_resume: false,
        };
        proof {
            assert(r.menu.menu_items@ =~= seq![NEW_GAME, EXIT]);
        }
        r
    }

    pub fn selected_item(&self) -> (r: &'a str)
        requires
            self.wf(),
        ensures
            r == self.menu.menu_items@[self.menu.selected_index as int],
    {
        self.menu.selected_item()
    }

    /// Shows or hides the resume entry at the top of the list; nothing
    /// changes when the entry is already as asked.
    pub fn show_resume(&mut self, show: bool)
        requires
            old(self).wf(),
        ensures
            show ==> old(self).spec_shown_resume(*final(self)),
            show == old(self).show_resume ==> *final(self) == *old(self),
            !show && old(self).show_resume ==> final(self).menu.menu_items@ == old(
                self,
            ).menu.menu_items@.remove(0) && !final(self).show_resume,
            final(self).menu.selected_index == old(self).menu.selected_index,
            final(self).menu.title == old(self).menu.title,
            show ==> final(self).wf(),
    {
        if show != self.show_resume {
            if show {
                self.menu.menu_items.insert(0, RESUME);
            } else {
                self.menu.menu_items.remove(0);
            }
            self.show_resume = show;
        }
    }

    /// The main menu does nothing between frames.
    pub fn update(&mut self)
        ensures
            *final(self) == *old(self),
    {
        self.menu.update();
    }

    pub fn key_down_event(&mut self, keycode: Key)
        requires
            old(self).wf(),
        ensures
            final(self).wf(),
            *final(self) == (MainMenu { menu: old(self).menu.spec_nav(keycode), ..*old(self) }),
    {
        self.menu.key_down_event(keycode);
    }
}

} // verus!
