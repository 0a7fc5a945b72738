//! The options menu: its tabs, their items, and keyboard navigation.
use vstd::prelude::*;
use crate::resources::input_state::{InputAction, InputStateResource};
use crate::text::{decimal_view, push_decimal, string_push};

verus! {

/// The tabs of the options menu, in display order.
#[derive(Debug, Clone, Copy, PartialEq, Eq, Structural)]
pub enum OptionsTab {
    Audio,
    Controls,
    Display,
}

/// The label shown for `t`.
pub open spec fn tab_label(t: OptionsTab) -> &'static str {
    match t {
        OptionsTab::Audio => "Audio",
        OptionsTab::Controls => "Controls",
        OptionsTab::Display => "Display",
    }
}

impl OptionsTab {
    /// Every tab, in display order.
    pub fn all() -> (r: &'static [OptionsTab])
        ensures
            r@ == seq![OptionsTab::Audio, OptionsTab::Controls, OptionsTab::Display],
    {
        &[OptionsTab::Audio, OptionsTab::Controls, OptionsTab::Display]
    }

    /// The label shown for this tab.
    pub fn label(&self) -> (r: &'static str)
        ensures
            r == tab_label(*self),
    {
        match self {
            OptionsTab::Audio => "Audio",
            OptionsTab::Controls => "Controls",
            OptionsTab::Display => "Display",
        }
    }
}

/// What an options item is, with the state it holds. Slider positions are
/// whole numbers (the volume sliders run in percent).
#[derive(Debug, Clone)]
pub enum OptionsItemType {
    Slider { min: u32, max: u32, current: u32, step: u32 },
    Toggle { enabled: bool },
    KeyBinding { action: String, key: String },
    Action,
}

/// One line of an options tab: its id, label, the value shown beside it,
/// and what kind of item it is.
#[derive(Debug, Clone)]
pub struct OptionsMenuItem {
    pub id: String,
    pub label: String,
    pub value: String,
    pub item_type: OptionsItemType,
}

/// The options menu: whether it is shown, the selected tab and item, the
/// items of each tab, and whether a slider is being adjusted.
pub struct OptionsMenu {
    pub visible: bool,
    pub selected_tab: usize,
    pub tabs: Vec<OptionsTab>,
    pub selected_item: usize,
    pub items: Vec<Vec<OptionsMenuItem>>,
    pub is_adjusting: bool,
}

/// Id, label and shown value of `it`.
pub open spec fn item_text(it: OptionsMenuItem) -> (Seq<char>, Seq<char>, Seq<char>) {
    (it.id@, it.label@, it.value@)
}

/// `t` binds `action` to `key`.
pub open spec fn binds(t: OptionsItemType, action: Seq<char>, key: Seq<char>) -> bool {
    t matches OptionsItemType::KeyBinding { action: a, key: k } && a@ == action && k@ == key
}

/// A volume slider from 0 to 100 in steps of 5, at `current`.
pub open spec fn volume_slider(current: u32) -> OptionsItemType {
    OptionsItemType::Slider { min: 0, max: 100, current, step: 5 }
}

/// The items of the Audio tab: master, music and effects volume, and mute.
pub open spec fn is_audio_items(s: Seq<OptionsMenuItem>) -> bool {
    &&& s.len() == 4
    &&& item_text(s[0]) == ("master_volume"@, "Master Volume"@, "100%"@) && s[0].item_type == volume_slider(100)
    &&& item_text(s[1]) == ("bgm_volume"@, "BGM Volume"@, "70%"@) && s[1].item_type == volume_slider(70)
    &&& item_text(s[2]) == ("sfx_volume"@, "SFX Volume"@, "100%"@) && s[2].item_type == volume_slider(100)
    &&& item_text(s[3]) == ("mute"@, "Mute All"@, "Off"@) && s[3].item_type == (OptionsItemType::Toggle { enabled: false })
}

/// The items of the Controls tab: the six key bindings.
pub open spec fn is_controls_items(s: Seq<OptionsMenuItem>) -> bool {
    &&& s.len() == 6
    &&& item_text(s[0]) == ("move_up"@, "Move Up"@, "W / Up Arrow"@) && binds(s[0].item_type, "move_up"@, "W"@)
    &&& item_text(s[1]) == ("move_down"@, "Move Down"@, "S / Down Arrow"@) && binds(s[1].item_type, "move_down"@, "S"@)
    &&& item_text(s[2]) == ("move_left"@, "Move Left"@, "A / Left Arrow"@) && binds(s[2].item_type, "move_left"@, "A"@)
    &&& item_text(s[3]) == ("move_right"@, "Move Right"@, "D / Right Arrow"@) && binds(s[3].item_type, "move_right"@, "D"@)
    &&& item_text(s[4]) == ("confirm"@, "Confirm"@, "Enter / Space"@) && binds(s[4].item_type, "confirm"@, "Enter"@)
    &&& item_text(s[5]) == ("cancel"@, "Cancel"@, "Escape"@) && binds(s[5].item_type, "cancel"@, "Escape"@)
}

/// The items of the Display tab: resolution, fullscreen, v-sync and the
/// frame counter.
pub open spec fn is_display_items(s: Seq<OptionsMenuItem>) -> bool {
    &&& s.len() == 4
    &&& item_text(s[0]) == ("resolution"@, "Resolution"@, "1280x720"@) && s[0].item_type == OptionsItemType::Action
    &&& item_text(s[1]) == ("fullscreen"@, "Fullscreen"@, "Windowed"@) && s[1].item_type == (OptionsItemType::Toggle { enabled: false })
    &&& item_text(s[2]) == ("vsync"@, "V-Sync"@, "On"@) && s[2].item_type == (OptionsItemType::Toggle { enabled: true })
    &&& item_text(s[3]) == ("fps_display"@, "Show FPS"@, "Off"@) && s[3].item_type == (OptionsItemType::Toggle { enabled: false })
}

fn menu_item(id: &str, label: &str, value: &str, item_type: OptionsItemType) -> (r: OptionsMenuItem)
    ensures
        item_text(r) == (id@, label@, value@),
        r.item_type == item_type,
{
    OptionsMenuItem { id: id.to_string(), label: label.to_string(), value: value.to_string(), item_type }
}

fn key_binding(action: &str, key: &str) -> (r: OptionsItemType)
    ensures
        binds(r, action@, key@),
{
    OptionsItemType::KeyBinding { action: action.to_string(), key: key.to_string() }
}

impl OptionsMenu {
    /// The Audio tab's items.
    pub fn create_audio_items() -> (r: Vec<OptionsMenuItem>)
        ensures
            is_audio_items(r@),
    {
        let mut v: Vec<OptionsMenuItem> = Vec::new();
        v.push(menu_item("master_volume", "Master Volume", "100%", OptionsItemType::Slider { min: 0, max: 100, current: 100, step: 5 }));
        v.push(menu_item("bgm_volume", "BGM Volume", "70%", OptionsItemType::Slider { min: 0, max: 100, current: 70, step: 5 }));
        v.push(menu_item("sfx_volume", "SFX Volume", "100%", OptionsItemType::Slider { min: 0, max: 100, current: 100, step: 5 }));
        v.push(menu_item("mute", "Mute All", "Off", OptionsItemType::Toggle { enabled: false }));
        v
    }

    /// The Controls tab's items.
    pub fn create_controls_items() -> (r: Vec<OptionsMenuItem>)
        ensures
            is_controls_items(r@),
    {
        let mut v: Vec<OptionsMenuItem> = Vec::new();
        v.push(menu_item("move_up", "Move Up", "W / Up Arrow", key_binding("move_up", "W")));
        v.push(menu_item("move_down", "Move Down", "S / Down Arrow", key_binding("move_down", "S")));
        v.push(menu_item("move_left", "Move Left", "A / Left Arrow", key_binding("move_left", "A")));
        v.push(menu_item("move_right", "Move Right", "D / Right Arrow", key_binding("move_right", "D")));
        v.push(menu_item("confirm", "Confirm", "Enter / Space", key_binding("confirm", "Enter")));
        v.push(menu_item("cancel", "Cancel", "Escape", key_binding("cancel", "Escape")));
        v
    }

    /// The Display tab's items.
    pub fn create_display_items() -> (r: Vec<OptionsMenuItem>)
        ensures
            is_display_items(r@),
    {
        let mut v: Vec<OptionsMenuItem> = Vec::new();
        v.push(menu_item("resolution", "Resolution", "1280x720", OptionsItemType::Action));
        v.push(menu_item("fullscreen", "Fullscreen", "Windowed", OptionsItemType::Toggle { enabled: false }));
        v.push(menu_item("vsync", "V-Sync", "On", OptionsItemType::Toggle { enabled: true }));
        v.push(menu_item("fps_display", "Show FPS", "Off", OptionsItemType::Toggle { enabled: false }));
        v
    }

    /// A hidden menu on the first item of the Audio tab, with the three
    /// tabs and their items, not adjusting.
    pub fn new() -> (r: Self)
        ensures
            !r.visible,
            r.selected_tab == 0,
            r.selected_item == 0,
            !r.is_adjusting,
            r.tabs@ == seq![OptionsTab::Audio, OptionsTab::Controls, OptionsTab::Display],
            r.items@.len() == 3,
            is_audio_items(r.items@[0]@),
            is_controls_items(r.items@[1]@),
            is_display_items(r.items@[2]@),
            well_formed(r),
    {
        let mut tabs: Vec<OptionsTab> = Vec::new();
        tabs.push(OptionsTab::Audio);
        tabs.push(OptionsTab::Controls);
        tabs.push(OptionsTab::Display);
        let mut items: Vec<Vec<OptionsMenuItem>> = Vec::new();
        items.push(Self::create_audio_items());
        items.push(Self::create_controls_items());
        items.push(Self::create_display_items());
        Self { visible: false, selected_tab: 0, tabs, selected_item: 0, items, is_adjusting: false }
    }

    /// Show the menu on the first item of the first tab, not adjusting.
    pub fn open(&mut self)
        ensures
            final(self).visible,
            final(self).selected_tab == 0,
            final(self).selected_item == 0,
            !final(self).is_adjusting,
            final(self).tabs@ == old(self).tabs@,
            final(self).items@ == old(self).items@,
    {
        self.visible = true;
        self.selected_tab = 0;
        self.selected_item = 0;
        self.is_adjusting = false;
    }

    /// Hide the menu; everything else stays.
    pub fn close(&mut self)
        ensures
            !final(self).visible,
            final(self).selected_tab == old(self).selected_tab,
            final(self).selected_item == old(self).selected_item,
            final(self).is_adjusting == old(self).is_adjusting,
            final(self).tabs@ == old(self).tabs@,
            final(self).items@ == old(self).items@,
    {
        self.visible = false;
    }

    /// Whether the menu is shown.
    pub fn is_open(&self) -> (r: bool)
        ensures
            r == self.visible,
    {
        self.visible
    }

    /// The items of the selected tab.
    pub fn get_current_items(&self) -> (r: &[OptionsMenuItem])
        requires
            self.selected_tab < self.items@.len(),
        ensures
            r@ == self.items@[self.selected_tab as int]@,
    {
        self.items[self.selected_tab].as_slice()
    }

    /// The label of the selected tab.
    pub fn get_current_tab_label(&self) -> (r: &'static str)
        requires
            self.selected_tab < self.tabs@.len(),
        ensures
            r == tab_label(self.tabs@[self.selected_tab as int]),
    {
        self.tabs[self.selected_tab].label()
    }
}

/// The item at position `item` of tab `tab`, if both exist.
pub open spec fn item_at(m: OptionsMenu, tab: int, item: int) -> Option<OptionsMenuItem> {
    if 0 <= tab < m.items@.len() && 0 <= item < m.items@[tab]@.len() {
        Some(m.items@[tab]@[item])
    } else {
        None
    }
}

/// The item at position `item` of tab `tab` exists and is a slider.
pub open spec fn slider_at(m: OptionsMenu, tab: int, item: int) -> bool {
    item_at(m, tab, item) matches Some(it) && it.item_type is Slider
}

/// Tab and item after Left: on the first item it moves to the previous tab
/// (the last one from the first) and to that tab's first item.
pub open spec fn after_left(m: OptionsMenu, input: InputStateResource) -> (int, int) {
    if input.pressed(InputAction::MoveLeft) && m.selected_item == 0 {
        (if m.selected_tab == 0 { m.tabs@.len() - 1 } else { m.selected_tab - 1 }, 0)
    } else {
        (m.selected_tab as int, m.selected_item as int)
    }
}

/// Tab and item after Left then Right: on the first item Right moves to the
/// next tab (the first one from the last) and to its first item.
pub open spec fn after_right(m: OptionsMenu, input: InputStateResource) -> (int, int) {
    let (t, i) = after_left(m, input);
    if input.pressed(InputAction::MoveRight) && i == 0 {
        ((t + 1) % (m.tabs@.len() as int), 0)
    } else {
        (t, i)
    }
}

/// The item after Up, within the tab reached by Left and Right: the one
/// before, or the last one from the first.
pub open spec fn after_up(m: OptionsMenu, input: InputStateResource) -> int {
    let (t, i) = after_right(m, input);
    if input.pressed(InputAction::MoveUp) {
        if i == 0 { m.items@[t]@.len() - 1 } else { i - 1 }
    } else {
        i
    }
}

/// Tab and item after all arrow keys of `input`, in the order Left, Right,
/// Up, Down; Down moves to the next item, or the first one from the last.
pub open spec fn navigated(m: OptionsMenu, input: InputStateResource) -> (int, int) {
    let (t, _) = after_right(m, input);
    let i = after_up(m, input);
    if input.pressed(InputAction::MoveDown) {
        (t, (i + 1) % (m.items@[t]@.len() as int))
    } else {
        (t, i)
    }
}

/// The arrow keys of `input` can be handled on `m`: there is a tab to wrap
/// to, the tab reached exists, and there is an item to wrap to, with no
/// index overflowing.
pub open spec fn navigation_defined(m: OptionsMenu, input: InputStateResource) -> bool {
    let (t1, i1) = after_left(m, input);
    let (t2, i2) = after_right(m, input);
    let i3 = after_up(m, input);
    &&& (input.pressed(InputAction::MoveLeft) && m.selected_item == 0 && m.selected_tab == 0 ==> m.tabs@.len() > 0)
    &&& (input.pressed(InputAction::MoveRight) && i1 == 0 ==> m.tabs@.len() > 0 && t1 + 1 <= usize::MAX)
    &&& 0 <= t2 < m.items@.len()
    &&& (input.pressed(InputAction::MoveUp) && i2 == 0 ==> m.items@[t2]@.len() > 0)
    &&& (input.pressed(InputAction::MoveDown) ==> m.items@[t2]@.len() > 0 && i3 + 1 <= usize::MAX)
}

/// [`OptionsMenu::update`] can handle `input` on `m`: the menu is hidden,
/// or Cancel closes it, or the slider being adjusted is on an existing tab,
/// or the arrow keys can be handled.
pub open spec fn update_defined(m: OptionsMenu, input: InputStateResource) -> bool {
    ||| !m.visible
    ||| input.pressed(InputAction::Cancel)
    ||| (m.is_adjusting && m.selected_tab < m.items@.len())
    ||| (!m.is_adjusting && navigation_defined(m, input))
}

/// `a` and `b` hold the same items, except perhaps item `item` of tab `tab`.
pub open spec fn only_item_changed(a: Seq<Vec<OptionsMenuItem>>, b: Seq<Vec<OptionsMenuItem>>, tab: int, item: int) -> bool {
    &&& b.len() == a.len()
    &&& forall|t: int| 0 <= t < a.len() && t != tab ==> b[t] == a[t]
    &&& b[tab]@.len() == a[tab]@.len()
    &&& forall|i: int| 0 <= i < a[tab]@.len() && i != item ==> b[tab]@[i] == a[tab]@[i]
}

/// Slider `t` after one step down (when `down`, not below its minimum) and
/// then one step up (when `up`, not above its maximum); any other item is
/// left as it is.
pub open spec fn stepped(t: OptionsItemType, down: bool, up: bool) -> OptionsItemType {
    match t {
        OptionsItemType::Slider { min, max, current, step } => {
            let c1: int = if down {
                if current - step > min { current - step } else { min as int }
            } else {
                current as int
            };
            let c2: int = if up {
                if c1 + step < max { c1 + step } else { max as int }
            } else {
                c1
            };
            OptionsItemType::Slider { min, max, current: c2 as u32, step }
        },
        _ => t,
    }
}

/// The effect of `input` while a slider is being adjusted on `m`, giving
/// `n` and the result `r`. Confirm or Cancel ends the adjustment; if the
/// selected item is a slider, its shown value becomes its position in
/// percent and `r` carries that position, the master volume to apply.
/// Otherwise Left and Right step the slider.
pub open spec fn adjust_step(m: OptionsMenu, n: OptionsMenu, input: InputStateResource, r: Option<u32>) -> bool {
    let tab = m.selected_tab as int;
    let sel = m.selected_item as int;
    let it = item_at(m, tab, sel).unwrap();
    &&& n.visible == m.visible
    &&& n.selected_tab == m.selected_tab
    &&& n.selected_item == m.selected_item
    &&& n.tabs@ == m.tabs@
    &&& if input.pressed(InputAction::Cancel) || input.pressed(InputAction::Confirm) {
        &&& !n.is_adjusting
        &&& if slider_at(m, tab, sel) {
            &&& r == Some(it.item_type->current)
            &&& only_item_changed(m.items@, n.items@, tab, sel)
            &&& n.items@[tab]@[sel].id == it.id
            &&& n.items@[tab]@[sel].label == it.label
            &&& n.items@[tab]@[sel].item_type == it.item_type
            &&& n.items@[tab]@[sel].value@ == decimal_view(it.item_type->current as nat).push('%')
        } else {
            &&& r is None
            &&& n.items@ == m.items@
        }
    } else {
        &&& n.is_adjusting == m.is_adjusting
        &&& r is None
        &&& if slider_at(m, tab, sel) {
            &&& only_item_changed(m.items@, n.items@, tab, sel)
            &&& n.items@[tab]@[sel].id == it.id
            &&& n.items@[tab]@[sel].label == it.label
            &&& n.items@[tab]@[sel].value == it.value
            &&& n.items@[tab]@[sel].item_type == stepped(
                it.item_type,
                input.pressed(InputAction::MoveLeft),
                input.pressed(InputAction::MoveRight),
            )
        } else {
            n.items@ == m.items@
        }
    }
}

/// One frame of the options menu: `m` becomes `n` under `input`, with result
/// `r`. A hidden menu ignores input; Cancel closes it; while a slider is
/// adjusted, [`adjust_step`] applies; otherwise the arrow keys move the
/// selection (see [`navigated`]) and Confirm on a slider starts adjusting it.
pub open spec fn menu_step(m: OptionsMenu, n: OptionsMenu, input: InputStateResource, r: Option<u32>) -> bool {
    if !m.visible || input.pressed(InputAction::Cancel) {
        &&& !n.visible
        &&& n.selected_tab == m.selected_tab
        &&& n.selected_item == m.selected_item
        &&& n.is_adjusting == m.is_adjusting
        &&& n.tabs@ == m.tabs@
        &&& n.items@ == m.items@
        &&& r is None
    } else if m.is_adjusting {
        adjust_step(m, n, input, r)
    } else {
        let (t, i) = navigated(m, input);
        &&& n.visible
        &&& n.selected_tab == t
        &&& n.selected_item == i
        &&& n.tabs@ == m.tabs@
        &&& n.items@ == m.items@
        &&& n.is_adjusting == (input.pressed(InputAction::Confirm) && slider_at(m, t, i))
        &&& r is None
    }
}

/// Slider `min..max` at `current`, stepped by `step` as [`stepped`] says.
fn step_slider(min: u32, max: u32, current: u32, step: u32, down: bool, up: bool) -> (r: OptionsItemType)
    ensures
        r == stepped(OptionsItemType::Slider { min, max, current, step }, down, up),
{
    let mut c: u32 = current;
    if down {
        c = if current >= step && current - step > min { current - step } else { min };
    }
    if up {
        let raised: u64 = c as u64 + step as u64;
        c = if raised < max as u64 { raised as u32 } else { max };
    }
    OptionsItemType::Slider { min, max, current: c, step }
}

impl OptionsMenu {
    /// Handle one frame of input (see [`menu_step`]). Returns the master
    /// volume, in percent, when a slider adjustment is committed.
    pub fn update(&mut self, input: &InputStateResource) -> (r: Option<u32>)
        requires
            update_defined(*old(self), *input),
        ensures
            menu_step(*old(self), *final(self), *input, r),
    {
        if !self.visible {
            return None;
        }
        if input.is_action_pressed(InputAction::Cancel) {
            self.close();
            return None;
        }
        if self.is_adjusting {
            return self.handle_adjustment(input);
        }
        if input.is_action_pressed(InputAction::MoveLeft) && self.selected_item == 0 {
            self.selected_tab = if self.selected_tab == 0 { self.tabs.len() - 1 } else { self.selected_tab - 1 };
            self.selected_item = 0;
        }
        if input.is_action_pressed(InputAction::MoveRight) && self.selected_item == 0 {
            self.selected_tab = (self.selected_tab + 1) % self.tabs.len();
            self.selected_item = 0;
        }
        let count = self.items[self.selected_tab].len();
        if input.is_action_pressed(InputAction::MoveUp) {
            self.selected_item = if self.selected_item == 0 { count - 1 } else { self.selected_item - 1 };
        }
        if input.is_action_pressed(InputAction::MoveDown) {
            self.selected_item = (self.selected_item + 1) % count;
        }
        if input.is_action_pressed(InputAction::Confirm) && self.selected_item < count {
            match &self.items[self.selected_tab][self.selected_item].item_type {
                OptionsItemType::Slider { .. } => {
                    self.is_adjusting = true;
                },
                _ => {},
            }
        }
        None
    }

    /// While a slider is adjusted: Confirm or Cancel commits it, Left and
    /// Right step it (see [`adjust_step`]).
    fn handle_adjustment(&mut self, input: &InputStateResource) -> (r: Option<u32>)
        requires
            old(self).selected_tab < old(self).items@.len(),
        ensures
            adjust_step(*old(self), *final(self), *input, r),
    {
        let tab = self.selected_tab;
        let sel = self.selected_item;
        if input.is_action_pressed(InputAction::Cancel) || input.is_action_pressed(InputAction::Confirm) {
            self.is_adjusting = false;
            if sel < self.items[tab].len() {
                let position = match &self.items[tab][sel].item_type {
                    OptionsItemType::Slider { current, .. } => Some(*current),
                    _ => None,
                };
                if let Some(c) = position {
                    let ghost before = self.items@;
                    let mut row = self.items.remove(tab);
                    let mut it = row.remove(sel);
                    let mut shown = String::new();
                    push_decimal(&mut shown, c as u64);
                    string_push(&mut shown, '%');
                    it.value = shown;
                    row.insert(sel, it);
                    self.items.insert(tab, row);
                    assert(self.items@ =~= before.update(tab as int, row));
                    assert(row@ =~= before[tab as int]@.update(sel as int, it));
                    return Some(c);
                }
            }
            return None;
        }
        if sel < self.items[tab].len() {
            let next = match &self.items[tab][sel].item_type {
                OptionsItemType::Slider { min, max, current, step } => Some(
                    step_slider(
                        *min,
                        *max,
                        *current,
                        *step,
                        input.is_action_pressed(InputAction::MoveLeft),
                        input.is_action_pressed(InputAction::MoveRight),
                    ),
                ),
                _ => None,
            };
            if let Some(t) = next {
                let ghost before = self.items@;
                let mut row = self.items.remove(tab);
                let mut it = row.remove(sel);
                it.item_type = t;
                row.insert(sel, it);
                self.items.insert(tab, row);
                assert(self.items@ =~= before.update(tab as int, row));
                assert(row@ =~= before[tab as int]@.update(sel as int, it));
            }
        }
        None
    }
}

/// A menu every input can be given to: at least one tab, one row of items
/// per tab, no empty row, and the selection inside the selected row (all
/// lengths fitting in `usize`).
pub open spec fn well_formed(m: OptionsMenu) -> bool {
    &&& 0 < m.tabs@.len() <= usize::MAX
    &&& forall|t: int| 0 <= t < m.items@.len() ==> #[trigger] m.items@[t]@.len() <= usize::MAX
    &&& m.items@.len() == m.tabs@.len()
    &&& forall|t: int| 0 <= t < m.items@.len() ==> #[trigger] m.items@[t]@.len() > 0
    &&& m.selected_tab < m.tabs@.len()
    &&& m.selected_item < m.items@[m.selected_tab as int]@.len()
}

/// A fresh menu is well formed.
pub proof fn law_new_menu_well_formed(m: OptionsMenu)
    requires
        m.tabs@.len() == 3,
        m.items@.len() == 3,
        m.selected_tab == 0,
        m.selected_item == 0,
        is_audio_items(m.items@[0]@),
        is_controls_items(m.items@[1]@),
        is_display_items(m.items@[2]@),
    ensures
        well_formed(m),
{
}

/// A well-formed menu accepts every input, and stays well formed.
pub proof fn law_update_keeps_menu_well_formed(m: OptionsMenu, n: OptionsMenu, input: InputStateResource, r: Option<u32>)
    requires
        well_formed(m),
    ensures
        update_defined(m, input),
        menu_step(m, n, input, r) ==> well_formed(n),
{
    let (t2, _) = after_right(m, input);
    let (t1, _) = after_left(m, input);
    let n_tabs = m.tabs@.len() as int;
    if input.pressed(InputAction::MoveRight) {
        vstd::arithmetic::div_mod::lemma_mod_bound(t1 + 1, n_tabs);
    }
    assert(m.items@[t2]@.len() > 0);
    assert(m.items@[t2]@.len() <= usize::MAX);
    if menu_step(m, n, input, r) && m.visible && !input.pressed(InputAction::Cancel) && !m.is_adjusting {
        let (t, i) = navigated(m, input);
        assert(n.items@[t]@.len() > 0);
    }
    if menu_step(m, n, input, r) && m.visible && !input.pressed(InputAction::Cancel) && m.is_adjusting && slider_at(
        m,
        m.selected_tab as int,
        m.selected_item as int,
    ) {
        assert forall|t: int| 0 <= t < n.items@.len() implies #[trigger] n.items@[t]@.len() > 0 by {
            assert(m.items@[t]@.len() > 0);
        }
    }
}

/// On the first item of a tab, Right and then Left come back to the same
/// tab (and item).
pub proof fn law_right_then_left_returns(m: OptionsMenu, right: InputStateResource, left: InputStateResource)
    requires
        well_formed(m),
        m.selected_item == 0,
        right.pressed(InputAction::MoveRight),
        !right.pressed(InputAction::MoveLeft),
        !right.pressed(InputAction::MoveUp),
        !right.pressed(InputAction::MoveDown),
        left.pressed(InputAction::MoveLeft),
        !left.pressed(InputAction::MoveRight),
        !left.pressed(InputAction::MoveUp),
        !left.pressed(InputAction::MoveDown),
    ensures
        ({
            let (t, i) = navigated(m, right);
            let moved = OptionsMenu { selected_tab: t as usize, selected_item: i as usize, ..m };
            navigated(moved, left) == (m.selected_tab as int, 0int)
        }),
{
    let n = m.tabs@.len();
    let tab = m.selected_tab as int;
    if tab + 1 < n {
        vstd::arithmetic::div_mod::lemma_small_mod((tab + 1) as nat, n);
    } else {
        vstd::arithmetic::div_mod::lemma_mod_self_0(n as int);
    }
}

/// Stepping a slider: one step right moves it to the smaller of
/// `current + step` and `max`, one step left to the larger of
/// `current - step` and `min`, and nothing else about it changes. A slider
/// within its range stays within it, and a full step one way is undone by a
/// step the other way.
pub proof fn law_slider_steps(min: u32, max: u32, current: u32, step: u32)
    ensures
        stepped((OptionsItemType::Slider { min, max, current, step }), false, true) == (OptionsItemType::Slider {
            min,
            max,
            current: if current + step <= max { (current + step) as u32 } else { max },
            step,
        }),
        stepped((OptionsItemType::Slider { min, max, current, step }), true, false) == (OptionsItemType::Slider {
            min,
            max,
            current: if current - step >= min { (current - step) as u32 } else { min },
            step,
        }),
        min <= current <= max ==> {
            &&& min <= stepped((OptionsItemType::Slider { min, max, current, step }), false, true)->current <= max
            &&& min <= stepped((OptionsItemType::Slider { min, max, current, step }), true, false)->current <= max
        },
        min <= current && current + step <= max ==> stepped(
            stepped((OptionsItemType::Slider { min, max, current, step }), false, true),
            true,
            false,
        ) == (OptionsItemType::Slider { min, max, current, step }),
        min + step <= current && current <= max ==> stepped(
            stepped((OptionsItemType::Slider { min, max, current, step }), true, false),
            false,
            true,
        ) == (OptionsItemType::Slider { min, max, current, step }),
{
}

} // verus!
