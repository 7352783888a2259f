//! Names of the ArduPilot Rover flight modes and their `custom_mode` numbers.
//!
//! The same table serves two directions: an operator's `set_mode` request
//! names a mode and the bridge sends its number; a heartbeat carries a number
//! and the bridge shows its name.

use vstd::prelude::*;

verus! {

/// `MAV_AUTOPILOT_ARDUPILOTMEGA`: the only autopilot whose custom modes are named.
pub const MAV_AUTOPILOT_ARDUPILOTMEGA: u8 = 3;

/// `ROVER_MODE_MANUAL`.
pub const ROVER_MODE_MANUAL: u16 = 0;
/// `ROVER_MODE_ACRO`.
pub const ROVER_MODE_ACRO: u16 = 1;
/// `ROVER_MODE_STEERING`.
pub const ROVER_MODE_STEERING: u16 = 3;
/// `ROVER_MODE_HOLD`.
pub const ROVER_MODE_HOLD: u16 = 4;
/// `ROVER_MODE_LOITER`.
pub const ROVER_MODE_LOITER: u16 = 5;
/// `ROVER_MODE_FOLLOW`.
pub const ROVER_MODE_FOLLOW: u16 = 6;
/// `ROVER_MODE_SIMPLE`.
pub const ROVER_MODE_SIMPLE: u16 = 7;
/// `ROVER_MODE_DOCK`.
pub const ROVER_MODE_DOCK: u16 = 8;
/// `ROVER_MODE_CIRCLE`.
pub const ROVER_MODE_CIRCLE: u16 = 9;
/// `ROVER_MODE_AUTO`.
pub const ROVER_MODE_AUTO: u16 = 10;
/// `ROVER_MODE_RTL`.
pub const ROVER_MODE_RTL: u16 = 11;
/// `ROVER_MODE_SMART_RTL`.
pub const ROVER_MODE_SMART_RTL: u16 = 12;
/// `ROVER_MODE_GUIDED`.
pub const ROVER_MODE_GUIDED: u16 = 15;
/// `ROVER_MODE_INITIALIZING`.
pub const ROVER_MODE_INITIALIZING: u16 = 16;

/// The Rover mode number that a mode name stands for, if it names one.
pub open spec fn mode_number(name: Seq<char>) -> Option<u16> {
    if name == "MANUAL"@ {
        Some(0u16)
    } else if name == "ACRO"@ {
        Some(1u16)
    } else if name == "STEERING"@ {
        Some(3u16)
    } else if name == "HOLD"@ {
        Some(4u16)
    } else if name == "LOITER"@ {
        Some(5u16)
    } else if name == "FOLLOW"@ {
        Some(6u16)
    } else if name == "SIMPLE"@ {
        Some(7u16)
    } else if name == "DOCK"@ {
        Some(8u16)
    } else if name == "CIRCLE"@ {
        Some(9u16)
    } else if name == "AUTO"@ {
        Some(10u16)
    } else if name == "RTL"@ {
        Some(11u16)
    } else if name == "SMART_RTL"@ {
        Some(12u16)
    } else if name == "GUIDED"@ {
        Some(15u16)
    } else if name == "INITIALISING"@ {
        Some(16u16)
    } else {
        None
    }
}

/// The name shown for a heartbeat's `custom_mode`: the Rover mode name when
/// the autopilot is ArduPilot and the number is a known mode, else `UNKNOWN`.
pub open spec fn flight_mode_name(autopilot: u8, custom_mode: u32) -> Seq<char> {
    if autopilot != MAV_AUTOPILOT_ARDUPILOTMEGA {
        "UNKNOWN"@
    } else if custom_mode == 0 {
        "MANUAL"@
    } else if custom_mode == 1 {
        "ACRO"@
    } else if custom_mode == 3 {
        "STEERING"@
    } else if custom_mode == 4 {
        "HOLD"@
    } else if custom_mode == 5 {
        "LOITER"@
    } else if custom_mode == 6 {
        "FOLLOW"@
    } else if custom_mode == 7 {
        "SIMPLE"@
    } else if custom_mode == 8 {
        "DOCK"@
    } else if custom_mode == 9 {
        "CIRCLE"@
    } else if custom_mode == 10 {
        "AUTO"@
    } else if custom_mode == 11 {
        "RTL"@
    } else if custom_mode == 12 {
        "SMART_RTL"@
    } else if custom_mode == 15 {
        "GUIDED"@
    } else if custom_mode == 16 {
        "INITIALISING"@
    } else {
        "UNKNOWN"@
    }
}

fn same_text(a: &String, b: &str) -> (r: bool)
    ensures
        r == (a@ == b@),
{
    let owned = b.to_owned();
    *a == owned
}

/// Looks a mode name up in the Rover mode table.
pub fn rover_mode_number(name: &String) -> (r: Option<u16>)
    ensures
        r == mode_number(name@),
{
    if same_text(name, "MANUAL") {
        Some(0)
    } else if same_text(name, "ACRO") {
        Some(1)
    } else if same_text(name, "STEERING") {
        Some(3)
    } else if same_text(name, "HOLD") {
        Some(4)
    } else if same_text(name, "LOITER") {
        Some(5)
    } else if same_text(name, "FOLLOW") {
        Some(6)
    } else if same_text(name, "SIMPLE") {
        Some(7)
    } else if same_text(name, "DOCK") {
        Some(8)
    } else if same_text(name, "CIRCLE") {
        Some(9)
    } else if same_text(name, "AUTO") {
        Some(10)
    } else if same_text(name, "RTL") {
        Some(11)
    } else if same_text(name, "SMART_RTL") {
        Some(12)
    } else if same_text(name, "GUIDED") {
        Some(15)
    } else if same_text(name, "INITIALISING") {
        Some(16)
    } else {
        None
    }
}

/// The name of a heartbeat's flight mode.
pub fn flight_mode_label(autopilot: u8, custom_mode: u32) -> (r: &'static str)
    ensures
        r@ == flight_mode_name(autopilot, custom_mode),
{
    if autopilot != MAV_AUTOPILOT_ARDUPILOTMEGA {
        "UNKNOWN"
    } else if custom_mode == 0 {
        "MANUAL"
    } else if custom_mode == 1 {
        "ACRO"
    } else if custom_mode == 3 {
        "STEERING"
    } else if custom_mode == 4 {
        "HOLD"
    } else if custom_mode == 5 {
        "LOITER"
    } else if custom_mode == 6 {
        "FOLLOW"
    } else if custom_mode == 7 {
        "SIMPLE"
    } else if custom_mode == 8 {
        "DOCK"
    } else if custom_mode == 9 {
        "CIRCLE"
    } else if custom_mode == 10 {
        "AUTO"
    } else if custom_mode == 11 {
        "RTL"
    } else if custom_mode == 12 {
        "SMART_RTL"
    } else if custom_mode == 15 {
        "GUIDED"
    } else if custom_mode == 16 {
        "INITIALISING"
    } else {
        "UNKNOWN"
    }
}

/// A mode that an operator selects by name is shown under that same name when
/// an ArduPilot heartbeat reports its number.
pub proof fn lemma_selected_mode_is_reported_by_name(name: Seq<char>)
    requires
        mode_number(name) is Some,
    ensures
        flight_mode_name(MAV_AUTOPILOT_ARDUPILOTMEGA, mode_number(name)->0 as u32) == name,
{
}

spec fn name_key(name: Seq<char>) -> (int, char, char) {
    (name.len() as int, name[0], name[1])
}

/// Every mode name that an ArduPilot heartbeat can show, other than `UNKNOWN`,
/// selects exactly the reported mode number.
pub proof fn lemma_reported_mode_name_selects_it(custom_mode: u32)
    requires
        flight_mode_name(MAV_AUTOPILOT_ARDUPILOTMEGA, custom_mode) != "UNKNOWN"@,
    ensures
        mode_number(flight_mode_name(MAV_AUTOPILOT_ARDUPILOTMEGA, custom_mode)) == Some(
            custom_mode as u16,
        ),
{
    reveal_strlit("UNKNOWN");
    reveal_strlit("MANUAL");
    reveal_strlit("ACRO");
    reveal_strlit("STEERING");
    reveal_strlit("HOLD");
    reveal_strlit("LOITER");
    reveal_strlit("FOLLOW");
    reveal_strlit("SIMPLE");
    reveal_strlit("DOCK");
    reveal_strlit("CIRCLE");
    reveal_strlit("AUTO");
    reveal_strlit("RTL");
    reveal_strlit("SMART_RTL");
    reveal_strlit("GUIDED");
    reveal_strlit("INITIALISING");
    // The names differ in length or in one of their first two letters.
    assert(name_key("UNKNOWN"@) == (7int, 'U', 'N'));
    assert(name_key("MANUAL"@) == (6int, 'M', 'A'));
    assert(name_key("ACRO"@) == (4int, 'A', 'C'));
    assert(name_key("STEERING"@) == (8int, 'S', 'T'));
    assert(name_key("HOLD"@) == (4int, 'H', 'O'));
    assert(name_key("LOITER"@) == (6int, 'L', 'O'));
    assert(name_key("FOLLOW"@) == (6int, 'F', 'O'));
    assert(name_key("SIMPLE"@) == (6int, 'S', 'I'));
    assert(name_key("DOCK"@) == (4int, 'D', 'O'));
    assert(name_key("CIRCLE"@) == (6int, 'C', 'I'));
    assert(name_key("AUTO"@) == (4int, 'A', 'U'));
    assert(name_key("RTL"@) == (3int, 'R', 'T'));
    assert(name_key("SMART_RTL"@) == (9int, 'S', 'M'));
    assert(name_key("GUIDED"@) == (6int, 'G', 'U'));
    assert(name_key("INITIALISING"@) == (12int, 'I', 'N'));
}

/// Each mode name selects the Rover mode of that name (`INITIALISING` stands
/// for `ROVER_MODE_INITIALIZING`), every name that selects a mode is the name
/// a heartbeat shows for it, and `UNKNOWN` selects none.
pub proof fn lemma_mode_names_select_their_modes(name: Seq<char>)
    ensures
        mode_number("MANUAL"@) == Some(ROVER_MODE_MANUAL),
        mode_number("ACRO"@) == Some(ROVER_MODE_ACRO),
        mode_number("STEERING"@) == Some(ROVER_MODE_STEERING),
        mode_number("HOLD"@) == Some(ROVER_MODE_HOLD),
        mode_number("LOITER"@) == Some(ROVER_MODE_LOITER),
        mode_number("FOLLOW"@) == Some(ROVER_MODE_FOLLOW),
        mode_number("SIMPLE"@) == Some(ROVER_MODE_SIMPLE),
        mode_number("DOCK"@) == Some(ROVER_MODE_DOCK),
        mode_number("CIRCLE"@) == Some(ROVER_MODE_CIRCLE),
        mode_number("AUTO"@) == Some(ROVER_MODE_AUTO),
        mode_number("RTL"@) == Some(ROVER_MODE_RTL),
        mode_number("SMART_RTL"@) == Some(ROVER_MODE_SMART_RTL),
        mode_number("GUIDED"@) == Some(ROVER_MODE_GUIDED),
        mode_number("INITIALISING"@) == Some(ROVER_MODE_INITIALIZING),
        mode_number(name) is Some ==> name == flight_mode_name(
            MAV_AUTOPILOT_ARDUPILOTMEGA,
            mode_number(name)->0 as u32,
        ),
        (mode_number(name) is Some && name != "UNKNOWN"@) || mode_number(name) is None,
{
    reveal_strlit("UNKNOWN");
    reveal_strlit("MANUAL");
    reveal_strlit("ACRO");
    reveal_strlit("STEERING");
    reveal_strlit("HOLD");
    reveal_strlit("LOITER");
    reveal_strlit("FOLLOW");
    reveal_strlit("SIMPLE");
    reveal_strlit("DOCK");
    reveal_strlit("CIRCLE");
    reveal_strlit("AUTO");
    reveal_strlit("RTL");
    reveal_strlit("SMART_RTL");
    reveal_strlit("GUIDED");
    reveal_strlit("INITIALISING");
    assert(name_key("UNKNOWN"@) == (7int, 'U', 'N'));
    assert(name_key("MANUAL"@) == (6int, 'M', 'A'));
    assert(name_key("ACRO"@) == (4int, 'A', 'C'));
    assert(name_key("STEERING"@) == (8int, 'S', 'T'));
    assert(name_key("HOLD"@) == (4int, 'H', 'O'));
    assert(name_key("LOITER"@) == (6int, 'L', 'O'));
    assert(name_key("FOLLOW"@) == (6int, 'F', 'O'));
    assert(name_key("SIMPLE"@) == (6int, 'S', 'I'));
    assert(name_key("DOCK"@) == (4int, 'D', 'O'));
    assert(name_key("CIRCLE"@) == (6int, 'C', 'I'));
    assert(name_key("AUTO"@) == (4int, 'A', 'U'));
    assert(name_key("RTL"@) == (3int, 'R', 'T'));
    assert(name_key("SMART_RTL"@) == (9int, 'S', 'M'));
    assert(name_key("GUIDED"@) == (6int, 'G', 'U'));
    assert(name_key("INITIALISING"@) == (12int, 'I', 'N'));
    if mode_number(name) is Some {
        lemma_selected_mode_is_reported_by_name(name);
    }
}

} // verus!
