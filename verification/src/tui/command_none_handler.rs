//! The built-in idle command: the menu from which every other command starts.

use crate::tui::{command_names, EventView, GameCommand, GameEvent, Key};
use vstd::prelude::*;

verus! {

/// The menu, as a mathematical value: the position of the highlighted
/// command, and whether the player has asked to leave the game.
pub struct MenuView {
    pub selected: int,
    pub exit: bool,
}

/// The menu as it is when the idle command becomes active.
pub open spec fn fresh_menu() -> MenuView {
    MenuView { selected: 0, exit: false }
}

/// What one key does to the menu, and the transition that it asks for. The
/// arrows move the highlight, which stops at either end of the list; Enter
/// asks for the highlighted command; Esc and `q` ask to leave the game.
pub open spec fn menu_step(menu: MenuView, key: Key) -> (MenuView, EventView) {
    match key {
        Key::Up => (
            MenuView { selected: if menu.selected > 0 { menu.selected - 1 } else { 0 }, ..menu },
            EventView::Stay,
        ),
        Key::Down => (
            MenuView {
                selected: if menu.selected + 1 < command_names().len() {
                    menu.selected + 1
                } else {
                    menu.selected
                },
                ..menu
            },
            EventView::Stay,
        ),
        Key::Enter => (menu, EventView::ChangeState(command_names()[menu.selected])),
        Key::Esc => (MenuView { exit: true, ..menu }, EventView::Stay),
        Key::Char(c) => if c == 'q' {
            (MenuView { exit: true, ..menu }, EventView::Stay)
        } else {
            (menu, EventView::Stay)
        },
        Key::Other => (menu, EventView::Stay),
    }
}

/// One line of the menu.
#[derive(Clone, Copy, Debug, PartialEq, Eq)]
pub struct MenuLine {
    pub name: &'static str,
    pub selected: bool,
}

/// The handler of the idle command.
#[derive(Debug, PartialEq, Eq)]
pub struct CommandNoneHandler {
    selected: usize,
    exit: bool,
}

impl View for CommandNoneHandler {
    type V = MenuView;

    closed spec fn view(&self) -> MenuView {
        MenuView { selected: self.selected as int, exit: self.exit }
    }
}

impl Default for CommandNoneHandler {
    fn default() -> (handler: CommandNoneHandler)
        ensures
            handler@ == fresh_menu(),
    {
        CommandNoneHandler { selected: 0, exit: false }
    }
}

impl CommandNoneHandler {
    #[verifier::type_invariant]
    spec fn inv(&self) -> bool {
        self.selected < command_names().len()
    }

    /// The position of the highlighted command in the list of command names.
    pub fn selected(&self) -> (selected: usize)
        ensures
            selected == self@.selected,
            selected < command_names().len(),
    {
        proof {
            use_type_invariant(self);
        }
        self.selected
    }

    /// Whether the player has asked to leave the game.
    pub fn wants_exit(&self) -> (exit: bool)
        ensures
            exit == self@.exit,
    {
        self.exit
    }

    /// The lines to draw: the command names in their order, the highlighted
    /// one marked.
    pub fn menu(&self) -> (lines: Vec<MenuLine>)
        ensures
            lines@.len() == command_names().len(),
            forall|i: int|
                0 <= i < lines@.len() ==> (#[trigger] lines@[i]).name@ == command_names()[i]
                    && lines@[i].selected == (i == self@.selected),
    {
        let names = GameCommand::get_commands_name();
        let mut lines: Vec<MenuLine> = Vec::new();
        let mut i: usize = 0;
        while i < names.len()
            invariant
                i <= names.len(),
                names@.len() == command_names().len(),
                forall|j: int| 0 <= j < names@.len() ==> (#[trigger] names@[j])@ == command_names()[j],
                lines@.len() == i,
                forall|j: int|
                    0 <= j < i ==> (#[trigger] lines@[j]).name@ == command_names()[j]
                        && lines@[j].selected == (j == self@.selected),
            decreases names.len() - i,
        {
            lines.push(MenuLine { name: names[i], selected: i == self.selected });
            i += 1;
        }
        lines
    }

    /// Interprets one key.
    pub fn event_handler(&mut self, key: Key) -> (event: GameEvent)
        ensures
            (final(self)@, event@) == menu_step(old(self)@, key),
            0 <= old(self)@.selected < command_names().len(),
            0 <= final(self)@.selected < command_names().len(),
    {
        proof {
            use_type_invariant(&*self);
        }
        let names = GameCommand::get_commands_name();
        match key {
            Key::Up => {
                if self.selected > 0 {
                    self.selected = self.selected - 1;
                }
                GameEvent::Stay
            },
            Key::Down => {
                if self.selected + 1 < names.len() {
                    self.selected = self.selected + 1;
                }
                GameEvent::Stay
            },
            Key::Enter => GameEvent::ChangeState(names[self.selected].to_owned()),
            Key::Esc => {
                self.exit = true;
                GameEvent::Stay
            },
            Key::Char(c) => {
                if c == 'q' {
                    self.exit = true;
                }
                GameEvent::Stay
            },
            Key::Other => GameEvent::Stay,
        }
    }
}

} // verus!
