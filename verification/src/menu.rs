//! The title screen: a two-entry selection confirmed with Enter.

use vstd::prelude::*;

use crate::draw::{Color, DrawCmd, Label, TEXT_SIZE_PX};
use crate::game::{initial_game_model, lemma_initial_game_wf, Game};
use crate::input::Key;
use crate::state_machine::{transition_wf, State, StateModel, Transition, TransitionModel};

verus! {

/// The two entries the cursor can rest on.
#[derive(Clone, Copy, PartialEq, Eq, Structural, Debug)]
pub enum Selection {
    NewGame,
    Quit,
}

/// The title screen; the cursor starts on the new-game entry.
#[derive(Clone, Copy, PartialEq, Eq, Structural, Debug)]
pub struct Menu {
    pub selection: Selection,
}

/// The other entry: both arrow keys toggle the selection rather than move
/// it directionally, deliberately so.
pub open spec fn menu_toggle(s: Selection) -> Selection {
    match s {
        Selection::NewGame => Selection::Quit,
        Selection::Quit => Selection::NewGame,
    }
}

/// What a key press does to the menu: Enter confirms the selected entry
/// (a fresh game session, or quitting); Up and Down toggle the selection;
/// anything else changes nothing.
pub open spec fn menu_handle_key_model(m: Menu, k: Key) -> (Menu, TransitionModel) {
    match k {
        Key::Enter => (
            m,
            match m.selection {
                Selection::NewGame => TransitionModel::Push(
                    StateModel::Game(initial_game_model()),
                ),
                Selection::Quit => TransitionModel::Quit,
            },
        ),
        Key::Up => (Menu { selection: menu_toggle(m.selection) }, TransitionModel::Stay),
        Key::Down => (Menu { selection: menu_toggle(m.selection) }, TransitionModel::Stay),
        Key::Left => (m, TransitionModel::Stay),
        Key::Right => (m, TransitionModel::Stay),
    }
}

/// The frame the menu draws: a cleared background, the title, both
/// entries, and the cursor beside the selected one.
pub open spec fn menu_render_spec(m: Menu) -> Seq<DrawCmd> {
    seq![
        DrawCmd::Clear(Color::Green),
        DrawCmd::Text { label: Label::Title, x: 10, y: 12, size: TEXT_SIZE_PX },
        DrawCmd::Text { label: Label::NewGameEntry, x: 14, y: 50, size: TEXT_SIZE_PX },
        DrawCmd::Text { label: Label::QuitEntry, x: 14, y: 70, size: TEXT_SIZE_PX },
        DrawCmd::Text {
            label: Label::Cursor,
            x: 5,
            y: if m.selection is NewGame { 50 as u32 } else { 70 as u32 },
            size: TEXT_SIZE_PX,
        },
    ]
}

impl Menu {
    /// A menu with the cursor on the new-game entry.
    pub fn new() -> (m: Menu)
        ensures
            m.selection == Selection::NewGame,
    {
        Menu { selection: Selection::NewGame }
    }

    /// Time passing does nothing on the title screen.
    pub fn update(&mut self, _dt_ms: u64) -> (t: Transition)
        ensures
            *final(self) == *old(self),
            t@ is Stay,
    {
        Transition::Stay
    }

    /// React to a key press as `menu_handle_key_model` says.
    pub fn handle_event(&mut self, k: Key) -> (t: Transition)
        ensures
            *final(self) == menu_handle_key_model(*old(self), k).0,
            t@ == menu_handle_key_model(*old(self), k).1,
            transition_wf(t@),
    {
        match k {
            Key::Enter => match self.selection {
                Selection::NewGame => {
                    let g = Game::new();
                    proof {
                        lemma_initial_game_wf();
                    }
                    Transition::Push(State::Game(g))
                },
                Selection::Quit => Transition::Quit,
            },
            Key::Up => {
                self.selection = match self.selection {
                    Selection::NewGame => Selection::Quit,
                    Selection::Quit => Selection::NewGame,
                };
                Transition::Stay
            },
            Key::Down => {
                self.selection = match self.selection {
                    Selection::NewGame => Selection::Quit,
                    Selection::Quit => Selection::NewGame,
                };
                Transition::Stay
            },
            Key::Left => Transition::Stay,
            Key::Right => Transition::Stay,
        }
    }

    /// Describe this frame of the title screen.
    pub fn render(&self) -> (r: Vec<DrawCmd>)
        ensures
            r@ == menu_render_spec(*self),
    {
        let mut r: Vec<DrawCmd> = Vec::new();
        r.push(DrawCmd::Clear(Color::Green));
        r.push(DrawCmd::Text { label: Label::Title, x: 10, y: 12, size: TEXT_SIZE_PX });
        r.push(DrawCmd::Text { label: Label::NewGameEntry, x: 14, y: 50, size: TEXT_SIZE_PX });
        r.push(DrawCmd::Text { label: Label::QuitEntry, x: 14, y: 70, size: TEXT_SIZE_PX });
        let cursor_y: u32 = match self.selection {
            Selection::NewGame => 50,
            Selection::Quit => 70,
        };
        r.push(DrawCmd::Text { label: Label::Cursor, x: 5, y: cursor_y, size: TEXT_SIZE_PX });
        proof {
            assert(r@ =~= menu_render_spec(*self));
        }
        r
    }
}

} // verus!
