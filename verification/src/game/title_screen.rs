//! Title menu options.
use vstd::prelude::*;
use crate::game::character_select::{cursor_after, cursor_moves_defined};
use crate::gamecore::game_state::{GameStateManager, GameStateModel};
use crate::gamecore::types::GameState;
use crate::resources::input_state::{InputAction, InputStateResource};

verus! {

/// The entries of the title menu, in display order.
#[derive(Debug, Clone, Copy, PartialEq, Eq, Structural)]
pub enum MenuOption {
    NewGame,
    Continue,
    Options,
    Quit,
}

/// The label shown for `o`.
pub open spec fn menu_label(o: MenuOption) -> &'static str {
    match o {
        MenuOption::NewGame => "New Game",
        MenuOption::Continue => "Continue",
        MenuOption::Options => "Options",
        MenuOption::Quit => "Quit",
    }
}

/// The help line shown for `o`.
pub open spec fn menu_description(o: MenuOption) -> &'static str {
    match o {
        MenuOption::NewGame => "Begin a new adventure in the world of Shambala",
        MenuOption::Continue => "Continue your previous journey",
        MenuOption::Options => "Adjust game settings",
        MenuOption::Quit => "Exit the game",
    }
}

impl MenuOption {
    /// Every option, in display order.
    pub fn all() -> (r: &'static [MenuOption])
        ensures
            r@ == seq![MenuOption::NewGame, MenuOption::Continue, MenuOption::Options, MenuOption::Quit],
    {
        &[MenuOption::NewGame, MenuOption::Continue, MenuOption::Options, MenuOption::Quit]
    }

    /// The label shown for this option.
    pub fn label(&self) -> (r: &'static str)
        ensures
            r == menu_label(*self),
    {
        match self {
            MenuOption::NewGame => "New Game",
            MenuOption::Continue => "Continue",
            MenuOption::Options => "Options",
            MenuOption::Quit => "Quit",
        }
    }

    /// The help line shown for this option.
    pub fn description(&self) -> (r: &'static str)
        ensures
            r == menu_description(*self),
    {
        match self {
            MenuOption::NewGame => "Begin a new adventure in the world of Shambala",
            MenuOption::Continue => "Continue your previous journey",
            MenuOption::Options => "Adjust game settings",
            MenuOption::Quit => "Exit the game",
        }
    }
}

/// The state machine after choosing `option` on the title screen: a new
/// game goes to character selection, Continue goes to loading, Options is
/// opened on top of the title screen, and Quit leaves the machine alone
/// (the game loop acts on it).
pub open spec fn after_title_choice(m: GameStateModel, option: MenuOption) -> GameStateModel {
    match option {
        MenuOption::NewGame => m.transitioned(GameState::CharacterSelect),
        MenuOption::Continue => m.transitioned(GameState::Loading),
        MenuOption::Options => m.pushed(GameState::Menu),
        MenuOption::Quit => m,
    }
}

/// The title menu: the options offered, the one under the cursor, and
/// whether the menu is shown. Its title animation runs in the application.
pub struct TitleScreen {
    pub selected_index: usize,
    pub options: Vec<MenuOption>,
    pub visible: bool,
}

impl TitleScreen {
    /// A visible menu offering every option, the first under the cursor.
    pub fn new() -> (r: Self)
        ensures
            r.selected_index == 0,
            r.options@ == seq![MenuOption::NewGame, MenuOption::Continue, MenuOption::Options, MenuOption::Quit],
            r.visible,
    {
        Self {
            selected_index: 0,
            options: vec![MenuOption::NewGame, MenuOption::Continue, MenuOption::Options, MenuOption::Quit],
            visible: true,
        }
    }

    /// Handle one frame of input while the menu is shown: MoveUp/MoveDown
    /// move the cursor with wrap-around (up first), and Confirm hides the
    /// menu and returns the option under the cursor. A hidden menu ignores
    /// input.
    pub fn update(&mut self, input: &InputStateResource) -> (r: Option<MenuOption>)
        requires
            old(self).visible ==> {
                let up = input.pressed(InputAction::MoveUp);
                let down = input.pressed(InputAction::MoveDown);
                let n = old(self).options@.len() as int;
                &&& cursor_moves_defined(old(self).selected_index as int, n, up, down)
                &&& input.pressed(InputAction::Confirm)
                    ==> 0 <= cursor_after(old(self).selected_index as int, n, up, down) < n
            },
        ensures
            final(self).options@ == old(self).options@,
            !old(self).visible ==> r is None && final(self).selected_index == old(self).selected_index
                && !final(self).visible,
            old(self).visible ==> {
                let index = cursor_after(
                    old(self).selected_index as int,
                    old(self).options@.len() as int,
                    input.pressed(InputAction::MoveUp),
                    input.pressed(InputAction::MoveDown),
                );
                &&& final(self).selected_index == index
                &&& input.pressed(InputAction::Confirm) ==> r == Some(old(self).options@[index]) && !final(self).visible
                &&& !input.pressed(InputAction::Confirm) ==> r is None && final(self).visible
            },
    {
        if !self.visible {
            return None;
        }
        if input.is_action_pressed(InputAction::MoveUp) {
            self.selected_index = if self.selected_index == 0 {
                self.options.len() - 1
            } else {
                self.selected_index - 1
            };
        }
        if input.is_action_pressed(InputAction::MoveDown) {
            self.selected_index = (self.selected_index + 1) % self.options.len();
        }
        if input.is_action_pressed(InputAction::Confirm) {
            let selected = self.options[self.selected_index];
            self.visible = false;
            return Some(selected);
        }
        None
    }

    /// Act on the chosen option (see [`after_title_choice`]).
    pub fn handle_selection(option: MenuOption, state_manager: &mut GameStateManager)
        ensures
            final(state_manager)@ == after_title_choice(old(state_manager)@, option),
    {
        match option {
            MenuOption::NewGame => {
                state_manager.transition_to(GameState::CharacterSelect);
            },
            MenuOption::Continue => {
                state_manager.transition_to(GameState::Loading);
            },
            MenuOption::Options => {
                state_manager.push_state(GameState::Menu);
            },
            MenuOption::Quit => {},
        }
    }

    /// Show the menu again with the first option under the cursor.
    pub fn reset(&mut self)
        ensures
            final(self).selected_index == 0,
            final(self).visible,
            final(self).options@ == old(self).options@,
    {
        self.selected_index = 0;
        self.visible = true;
    }
}

/// Leaving the options screen opened from the title menu returns to the
/// title menu state exactly.
pub proof fn law_options_then_back(m: GameStateModel)
    ensures
        after_title_choice(m, MenuOption::Options).popped() == m,
{
    crate::gamecore::game_state::law_pop_undoes_push(m, GameState::Menu);
}

} // verus!
