//! Class previews and the name-entry and class-selection screen.
use vstd::prelude::*;
use crate::components::stats::{Stats, class_profile};
use crate::gamecore::game_state::GameStateManager;
use crate::gamecore::types::{Class, GameState};
use crate::resources::input_state::{InputAction, InputStateResource};
use crate::text::{char_is_alphanumeric, string_pop, string_push, unicode_alphanumeric};

verus! {

/// The longest name, in UTF-8 bytes, that still accepts another character.
pub const MAX_NAME_BYTES: usize = 12;

/// What the selection screen shows for a class: its level-1 stats and a
/// one-line description.
#[derive(Debug, Clone)]
pub struct CharacterPreview {
    pub class: Class,
    pub stats: Stats,
    pub description: &'static str,
}

/// The description shown for `class`.
pub open spec fn class_description(class: Class) -> &'static str {
    match class {
        Class::TwinBlade => "Fast and agile melee fighter. Excellent speed and combo potential.",
        Class::HeavyBlade => "Powerful tank with high HP and defense. Slow but devastating.",
        Class::LongArm => "Versatile hybrid fighter. Balanced melee and magic capabilities.",
        Class::Wavemaster => "Pure magic user with powerful spells. Fragile but deadly at range.",
    }
}

/// `p` is the preview of `class`: level-1 stats of the class and its description.
pub open spec fn previews_class(p: CharacterPreview, class: Class) -> bool {
    &&& p.class == class
    &&& p.description == class_description(class)
    &&& p.stats.class == class
    &&& p.stats.level == 1
    &&& p.stats.experience == 0
    &&& p.stats.next_level_exp == 100
    &&& (p.stats.hp, p.stats.mp, p.stats.attack, p.stats.defense, p.stats.magic_attack, p.stats.magic_defense, p.stats.agility)
        == class_profile(class)
    &&& p.stats.max_hp == p.stats.hp
    &&& p.stats.max_mp == p.stats.mp
}

/// The classes in the order the selection screen lists them.
pub open spec fn class_order() -> Seq<Class> {
    seq![Class::TwinBlade, Class::HeavyBlade, Class::LongArm, Class::Wavemaster]
}

/// `ps` previews every class, in [`class_order`].
pub open spec fn previews_all(ps: Seq<CharacterPreview>) -> bool {
    &&& ps.len() == 4
    &&& forall|i: int| 0 <= i < 4 ==> previews_class(#[trigger] ps[i], class_order()[i])
}

/// The characters a name may contain: letters, digits, `_` and `-`.
pub open spec fn name_char(c: char) -> bool {
    unicode_alphanumeric(c) || c == '_' || c == '-'
}

/// The UTF-8 length, in bytes, of the text `s`, as `str::len` reports it.
pub open spec fn byte_len(s: Seq<char>) -> usize {
    vstd::utf8::encode_utf8(s).len() as usize
}

/// The name a class is known by, used for a character left unnamed.
pub open spec fn class_name(class: Class) -> Seq<char> {
    match class {
        Class::TwinBlade => "TwinBlade"@,
        Class::HeavyBlade => "HeavyBlade"@,
        Class::LongArm => "LongArm"@,
        Class::Wavemaster => "Wavemaster"@,
    }
}

pub(crate) fn class_name_string(class: Class) -> (r: String)
    ensures
        r@ == class_name(class),
{
    match class {
        Class::TwinBlade => "TwinBlade".to_string(),
        Class::HeavyBlade => "HeavyBlade".to_string(),
        Class::LongArm => "LongArm".to_string(),
        Class::Wavemaster => "Wavemaster".to_string(),
    }
}

/// The cursor after moving left (wrapping to the last of `n` entries) and/or
/// right (wrapping to the first), in that order.
pub open spec fn cursor_after(index: int, n: int, left: bool, right: bool) -> int {
    let after_left = if left { if index == 0 { n - 1 } else { index - 1 } } else { index };
    if right { (after_left + 1) % n } else { after_left }
}

/// Moving the cursor among `n` entries stays defined: a wrap to the last
/// entry or a step right needs at least one entry, and a step right needs
/// an index below `usize::MAX` to add one to.
pub open spec fn cursor_moves_defined(index: int, n: int, left: bool, right: bool) -> bool {
    let after_left = if left { if index == 0 { n - 1 } else { index - 1 } } else { index };
    &&& (left && index == 0 ==> n > 0)
    &&& (right ==> n > 0 && after_left < usize::MAX)
}

impl CharacterPreview {
    /// The preview of `class`.
    pub fn new(class: Class) -> (r: Self)
        ensures
            previews_class(r, class),
    {
        let stats = Stats::new(class);
        let description = match class {
            Class::TwinBlade => "Fast and agile melee fighter. Excellent speed and combo potential.",
            Class::HeavyBlade => "Powerful tank with high HP and defense. Slow but devastating.",
            Class::LongArm => "Versatile hybrid fighter. Balanced melee and magic capabilities.",
            Class::Wavemaster => "Pure magic user with powerful spells. Fragile but deadly at range.",
        };
        Self { class, stats, description }
    }

    /// The previews of all four classes, in [`class_order`].
    pub fn all() -> (r: Vec<Self>)
        ensures
            previews_all(r@),
    {
        vec![
            Self::new(Class::TwinBlade),
            Self::new(Class::HeavyBlade),
            Self::new(Class::LongArm),
            Self::new(Class::Wavemaster),
        ]
    }
}

/// Name entry followed by class selection.
pub struct CharacterSelectScreen {
    pub characters: Vec<CharacterPreview>,
    pub selected_index: usize,
    pub player_name: String,
    pub name_input_active: bool,
    pub confirmed: bool,
    pub visible: bool,
}

impl CharacterSelectScreen {
    /// A visible screen listing all classes, the first selected, with an
    /// empty name being entered.
    pub fn new() -> (r: Self)
        ensures
            previews_all(r.characters@),
            r.selected_index == 0,
            r.player_name@.len() == 0,
            r.name_input_active,
            !r.confirmed,
            r.visible,
    {
        Self {
            characters: CharacterPreview::all(),
            selected_index: 0,
            player_name: String::new(),
            name_input_active: true,
            confirmed: false,
            visible: true,
        }
    }

    /// Handle one frame of input.
    ///
    /// Nothing happens once the choice is confirmed or the screen is hidden.
    /// While the name is entered, Confirm with a non-empty name moves on to
    /// class selection. During class selection MoveLeft/MoveRight move the
    /// cursor with wrap-around, Confirm confirms the class under the cursor
    /// and returns it with the entered name (or, when no name was entered,
    /// the class's own name), and Cancel goes back to name entry.
    pub fn update(&mut self, input: &InputStateResource) -> (r: Option<(Class, String)>)
        requires
            old(self).visible && !old(self).confirmed && !old(self).name_input_active ==> {
                let left = input.pressed(InputAction::MoveLeft);
                let right = input.pressed(InputAction::MoveRight);
                let n = old(self).characters@.len() as int;
                &&& cursor_moves_defined(old(self).selected_index as int, n, left, right)
                &&& input.pressed(InputAction::Confirm)
                    ==> 0 <= cursor_after(old(self).selected_index as int, n, left, right) < n
            },
        ensures
            final(self).characters@ == old(self).characters@,
            final(self).player_name@ == old(self).player_name@,
            final(self).visible == old(self).visible,
            !old(self).visible || old(self).confirmed ==> {
                &&& r is None
                &&& final(self).selected_index == old(self).selected_index
                &&& final(self).name_input_active == old(self).name_input_active
                &&& final(self).confirmed == old(self).confirmed
            },
            old(self).visible && !old(self).confirmed && old(self).name_input_active ==> {
                &&& r is None
                &&& final(self).selected_index == old(self).selected_index
                &&& final(self).name_input_active
                    == !(input.pressed(InputAction::Confirm) && old(self).player_name@.len() > 0)
                &&& !final(self).confirmed
            },
            old(self).visible && !old(self).confirmed && !old(self).name_input_active ==> {
                let index = cursor_after(
                    old(self).selected_index as int,
                    old(self).characters@.len() as int,
                    input.pressed(InputAction::MoveLeft),
                    input.pressed(InputAction::MoveRight),
                );
                &&& final(self).selected_index == index
                &&& input.pressed(InputAction::Confirm) ==> {
                    let class = old(self).characters@[index].class;
                    &&& final(self).confirmed
                    &&& !final(self).name_input_active
                    &&& r is Some
                    &&& r.unwrap().0 == class
                    &&& r.unwrap().1@ == (if old(self).player_name@.len() == 0 {
                        class_name(class)
                    } else {
                        old(self).player_name@
                    })
                }
                &&& !input.pressed(InputAction::Confirm) ==> {
                    &&& r is None
                    &&& !final(self).confirmed
                    &&& final(self).name_input_active == input.pressed(InputAction::Cancel)
                }
            },
    {
        if !self.visible || self.confirmed {
            return None;
        }
        if self.name_input_active {
            if input.is_action_pressed(InputAction::Confirm) && !self.player_name.as_str().is_empty() {
                self.name_input_active = false;
            }
        } else {
            if input.is_action_pressed(InputAction::MoveLeft) {
                self.selected_index = if self.selected_index == 0 {
                    self.characters.len() - 1
                } else {
                    self.selected_index - 1
                };
            }
            if input.is_action_pressed(InputAction::MoveRight) {
                self.selected_index = (self.selected_index + 1) % self.characters.len();
            }
            if input.is_action_pressed(InputAction::Confirm) {
                self.confirmed = true;
                let selected = self.characters[self.selected_index].class;
                let name = if self.player_name.as_str().is_empty() {
                    class_name_string(selected)
                } else {
                    self.player_name.clone()
                };
                return Some((selected, name));
            }
            if input.is_action_pressed(InputAction::Cancel) {
                self.name_input_active = true;
            }
        }
        None
    }

    /// Type `c` into the name: accepted only while the name is being entered,
    /// the name is shorter than 12 bytes and `c` is a letter, a digit, `_` or
    /// `-`; otherwise nothing changes.
    pub fn add_char_to_name(&mut self, c: char)
        ensures
            final(self).player_name@ == (if old(self).name_input_active
                && byte_len(old(self).player_name@) < MAX_NAME_BYTES && name_char(c) {
                old(self).player_name@.push(c)
            } else {
                old(self).player_name@
            }),
            final(self).characters@ == old(self).characters@,
            final(self).selected_index == old(self).selected_index,
            final(self).name_input_active == old(self).name_input_active,
            final(self).confirmed == old(self).confirmed,
            final(self).visible == old(self).visible,
    {
        if self.name_input_active && self.player_name.as_str().len() < MAX_NAME_BYTES {
            if char_is_alphanumeric(c) || c == '_' || c == '-' {
                string_push(&mut self.player_name, c);
            }
        }
    }

    /// Erase the last character of the name while it is being entered.
    pub fn remove_char_from_name(&mut self)
        ensures
            final(self).player_name@ == (if old(self).name_input_active && old(self).player_name@.len() > 0 {
                old(self).player_name@.drop_last()
            } else {
                old(self).player_name@
            }),
            final(self).characters@ == old(self).characters@,
            final(self).selected_index == old(self).selected_index,
            final(self).name_input_active == old(self).name_input_active,
            final(self).confirmed == old(self).confirmed,
            final(self).visible == old(self).visible,
    {
        if self.name_input_active && !self.player_name.as_str().is_empty() {
            string_pop(&mut self.player_name);
        }
    }

    /// The class under the cursor.
    pub fn get_selected_class(&self) -> (r: Class)
        requires
            self.selected_index < self.characters@.len(),
        ensures
            r == self.characters@[self.selected_index as int].class,
    {
        self.characters[self.selected_index].class
    }

    /// The preview under the cursor.
    pub fn get_selected_preview(&self) -> (r: &CharacterPreview)
        requires
            self.selected_index < self.characters@.len(),
        ensures
            *r == self.characters@[self.selected_index as int],
    {
        &self.characters[self.selected_index]
    }

    /// Act on a confirmed character: the game moves to `Loading`.
    pub fn handle_selection(class: Class, name: &str, state_manager: &mut GameStateManager)
        ensures
            final(state_manager)@ == old(state_manager)@.transitioned(GameState::Loading),
    {
        state_manager.transition_to(GameState::Loading);
    }

    /// Back to the initial screen state, keeping the class list: first class
    /// selected, empty name being entered, nothing confirmed, visible.
    pub fn reset(&mut self)
        ensures
            final(self).characters@ == old(self).characters@,
            final(self).selected_index == 0,
            final(self).player_name@.len() == 0,
            final(self).name_input_active,
            !final(self).confirmed,
            final(self).visible,
    {
        self.selected_index = 0;
        self.player_name = String::new();
        self.name_input_active = true;
        self.confirmed = false;
        self.visible = true;
    }
}

} // verus!
