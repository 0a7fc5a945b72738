//! Naming and describing save slots. Reading and writing the save files is
//! done by the application.
use vstd::prelude::*;
use crate::game::character_select::{class_name, class_name_string};
use crate::gamecore::types::Class;
use crate::text::{concat, decimal_view, push_decimal, string_push};

verus! {

/// How many save slots there are; slot 0 holds the auto-save.
pub const SAVE_SLOT_COUNT: usize = 3;

/// The file name of save slot `slot`: "save_", the slot number, ".ron".
pub open spec fn slot_file_view(slot: nat) -> Seq<char> {
    "save_"@ + decimal_view(slot) + ".ron"@
}

/// The file holding save slot `slot`.
pub fn slot_file_name(slot: usize) -> (r: String)
    ensures
        r@ == slot_file_view(slot as nat),
{
    let mut name = "save_".to_string();
    push_decimal(&mut name, slot as u64);
    concat(name.as_str(), ".ron")
}

/// The line describing a save: "<name> - Lv.<level> <class> (<hours>h)".
pub open spec fn slot_summary_view(name: Seq<char>, level: u32, class: Class, hours: u64) -> Seq<char> {
    name + " - Lv."@ + decimal_view(level as nat) + " "@ + class_name(class) + " ("@ + decimal_view(hours as nat) + "h)"@
}

/// The line shown for a save of `name`, a `class` at `level`, played for
/// `hours` whole hours.
pub fn slot_summary(name: &str, level: u32, class: Class, hours: u64) -> (r: String)
    ensures
        r@ == slot_summary_view(name@, level, class, hours),
{
    let mut line = concat(name, " - Lv.");
    push_decimal(&mut line, level as u64);
    string_push(&mut line, ' ');
    let class_text = class_name_string(class);
    let line = concat(line.as_str(), class_text.as_str());
    let mut line = concat(line.as_str(), " (");
    push_decimal(&mut line, hours);
    let line = concat(line.as_str(), "h)");
    proof {
        reveal_strlit(" ");
        assert(" "@ =~= seq![' ']);
    }
    line
}

/// Whether `slot` names one of the save slots; the error of a save, load or
/// delete request on any other slot.
pub fn check_slot(slot: usize) -> (r: Result<(), String>)
    ensures
        slot < SAVE_SLOT_COUNT ==> r is Ok,
        slot >= SAVE_SLOT_COUNT ==> (r matches Err(e) && e@ == "Invalid save slot"@),
{
    if slot >= SAVE_SLOT_COUNT {
        Err("Invalid save slot".to_string())
    } else {
        Ok(())
    }
}

} // verus!
