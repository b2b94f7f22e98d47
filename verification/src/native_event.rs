//! Native event vocabulary: Quartz event kinds, fixed virtual key codes, the
//! provenance of an observed edge, and the side-specific modifier table.

use vstd::prelude::*;

verus! {

pub const K_CG_EVENT_LEFT_MOUSE_DOWN: u32 = 1;
pub const K_CG_EVENT_LEFT_MOUSE_UP: u32 = 2;
pub const K_CG_EVENT_RIGHT_MOUSE_DOWN: u32 = 3;
pub const K_CG_EVENT_RIGHT_MOUSE_UP: u32 = 4;
pub const K_CG_EVENT_KEY_DOWN: u32 = 10;
pub const K_CG_EVENT_KEY_UP: u32 = 11;
pub const K_CG_EVENT_FLAGS_CHANGED: u32 = 12;
pub const K_CG_EVENT_OTHER_MOUSE_DOWN: u32 = 25;
pub const K_CG_EVENT_OTHER_MOUSE_UP: u32 = 26;

pub const ESCAPE_KEY_CODE: u16 = 53;
pub const RETURN_KEY_CODE: u16 = 36;
pub const KEYPAD_ENTER_KEY_CODE: u16 = 76;
pub const LEFT_COMMAND_KEY_CODE: u16 = 55;
pub const RIGHT_COMMAND_KEY_CODE: u16 = 54;
pub const LEFT_SHIFT_KEY_CODE: u16 = 56;
pub const RIGHT_SHIFT_KEY_CODE: u16 = 60;
pub const LEFT_OPTION_KEY_CODE: u16 = 58;
pub const RIGHT_OPTION_KEY_CODE: u16 = 61;
pub const LEFT_CONTROL_KEY_CODE: u16 = 59;
pub const RIGHT_CONTROL_KEY_CODE: u16 = 62;

/// Virtual key codes of the letters A through Z, in alphabetical order.
pub open spec fn letter_key_codes() -> Seq<u16> {
    seq![0u16, 11, 8, 2, 14, 3, 5, 4, 34, 38, 40, 37, 46, 45, 31, 35, 12, 15, 1, 17, 32, 9, 13, 7, 16, 6]
}

/// The virtual key code of letter `index` (0 is A).
pub fn letter_key_code(index: usize) -> (key_code: u16)
    requires
        index < 26,
    ensures
        key_code == letter_key_codes()[index as int],
{
    let table: [u16; 26] = [0, 11, 8, 2, 14, 3, 5, 4, 34, 38, 40, 37, 46, 45, 31, 35, 12, 15, 1, 17, 32, 9, 13, 7, 16, 6];
    proof {
        assert(table@ =~= letter_key_codes());
    }
    table[index]
}

pub open spec fn spec_is_mouse_event_type(event_type: u32) -> bool {
    event_type == K_CG_EVENT_LEFT_MOUSE_DOWN || event_type == K_CG_EVENT_LEFT_MOUSE_UP
        || event_type == K_CG_EVENT_RIGHT_MOUSE_DOWN || event_type == K_CG_EVENT_RIGHT_MOUSE_UP
        || event_type == K_CG_EVENT_OTHER_MOUSE_DOWN || event_type == K_CG_EVENT_OTHER_MOUSE_UP
}

pub open spec fn spec_mouse_event_is_down(event_type: u32) -> bool {
    event_type == K_CG_EVENT_LEFT_MOUSE_DOWN || event_type == K_CG_EVENT_RIGHT_MOUSE_DOWN
        || event_type == K_CG_EVENT_OTHER_MOUSE_DOWN
}

pub fn is_mouse_event_type(event_type: u32) -> (mouse: bool)
    ensures
        mouse == spec_is_mouse_event_type(event_type),
{
    event_type == K_CG_EVENT_LEFT_MOUSE_DOWN || event_type == K_CG_EVENT_LEFT_MOUSE_UP
        || event_type == K_CG_EVENT_RIGHT_MOUSE_DOWN || event_type == K_CG_EVENT_RIGHT_MOUSE_UP
        || event_type == K_CG_EVENT_OTHER_MOUSE_DOWN || event_type == K_CG_EVENT_OTHER_MOUSE_UP
}

pub fn mouse_event_is_down(event_type: u32) -> (down: bool)
    ensures
        down == spec_mouse_event_is_down(event_type),
{
    event_type == K_CG_EVENT_LEFT_MOUSE_DOWN || event_type == K_CG_EVENT_RIGHT_MOUSE_DOWN
        || event_type == K_CG_EVENT_OTHER_MOUSE_DOWN
}

/// The mouse button of a deferred edge: the reported button number when it
/// is a valid `u32`, otherwise the button that the event kind implies.
pub open spec fn spec_deferred_mouse_button(event_type: u32, reported_button: i64) -> Option<u32> {
    if 0 <= reported_button <= u32::MAX {
        Some(reported_button as u32)
    } else if event_type == K_CG_EVENT_LEFT_MOUSE_DOWN || event_type == K_CG_EVENT_LEFT_MOUSE_UP {
        Some(0)
    } else if event_type == K_CG_EVENT_RIGHT_MOUSE_DOWN || event_type == K_CG_EVENT_RIGHT_MOUSE_UP {
        Some(1)
    } else if event_type == K_CG_EVENT_OTHER_MOUSE_DOWN || event_type == K_CG_EVENT_OTHER_MOUSE_UP {
        Some(2)
    } else {
        None
    }
}

pub fn deferred_mouse_button(event_type: u32, reported_button: i64) -> (button: Option<u32>)
    ensures
        button == spec_deferred_mouse_button(event_type, reported_button),
{
    if 0 <= reported_button && reported_button <= 0xffff_ffff {
        Some(reported_button as u32)
    } else if event_type == K_CG_EVENT_LEFT_MOUSE_DOWN || event_type == K_CG_EVENT_LEFT_MOUSE_UP {
        Some(0)
    } else if event_type == K_CG_EVENT_RIGHT_MOUSE_DOWN || event_type == K_CG_EVENT_RIGHT_MOUSE_UP {
        Some(1)
    } else if event_type == K_CG_EVENT_OTHER_MOUSE_DOWN || event_type == K_CG_EVENT_OTHER_MOUSE_UP {
        Some(2)
    } else {
        None
    }
}

/// Where an observed native edge came from.
#[derive(Clone, Copy, Debug, PartialEq, Eq, Structural)]
pub enum InputSource {
    Physical,
    TestPhysical,
    External,
    HelperReplay,
    HelperPaste,
    HelperDummy,
}

impl InputSource {
    pub fn is_test_physical(self) -> (test_physical: bool)
        ensures
            test_physical == (self == InputSource::TestPhysical),
    {
        match self {
            InputSource::TestPhysical => true,
            _ => false,
        }
    }

    pub fn is_physical(self) -> (physical: bool)
        ensures
            physical == (self == InputSource::Physical || self == InputSource::TestPhysical),
    {
        match self {
            InputSource::Physical | InputSource::TestPhysical => true,
            _ => false,
        }
    }
}

/// Classification of a virtual key code by the keyboard core.
#[derive(Clone, Copy, Debug, PartialEq, Eq, Structural)]
pub enum PhysicalKey {
    /// A letter, by its alphabetical index (0 is A).
    Letter(u8),
    Escape,
    Enter,
    Other,
}

/// Index of `key_code` in the letter table, if it is a letter key.
pub open spec fn spec_letter_index(key_code: u16) -> Option<int> {
    if exists|i: int| 0 <= i < 26 && letter_key_codes()[i] == key_code {
        Some(choose|i: int| 0 <= i < 26 && letter_key_codes()[i] == key_code)
    } else {
        None
    }
}

pub open spec fn spec_map_key_code(key_code: u16) -> PhysicalKey {
    match spec_letter_index(key_code) {
        Some(i) => PhysicalKey::Letter(i as u8),
        None => if key_code == ESCAPE_KEY_CODE {
            PhysicalKey::Escape
        } else if key_code == RETURN_KEY_CODE || key_code == KEYPAD_ENTER_KEY_CODE {
            PhysicalKey::Enter
        } else {
            PhysicalKey::Other
        },
    }
}

proof fn lemma_letter_codes_distinct()
    ensures
        forall|i: int, j: int|
            0 <= i < 26 && 0 <= j < 26 && letter_key_codes()[i] == letter_key_codes()[j] ==> i == j,
{
    let s = letter_key_codes();
    assert(s.len() == 26);
    assert forall|i: int, j: int|
        0 <= i < 26 && 0 <= j < 26 && s[i] == s[j] implies i == j by {
        assert(s[0] == 0 && s[1] == 11 && s[2] == 8 && s[3] == 2 && s[4] == 14 && s[5] == 3);
        assert(s[6] == 5 && s[7] == 4 && s[8] == 34 && s[9] == 38 && s[10] == 40 && s[11] == 37);
        assert(s[12] == 46 && s[13] == 45 && s[14] == 31 && s[15] == 35 && s[16] == 12);
        assert(s[17] == 15 && s[18] == 1 && s[19] == 17 && s[20] == 32 && s[21] == 9);
        assert(s[22] == 13 && s[23] == 7 && s[24] == 16 && s[25] == 6);
    }
}

/// Classifies a virtual key code as a letter, Escape, Enter, or another key.
pub fn map_key_code(key_code: u16) -> (key: PhysicalKey)
    ensures
        key == spec_map_key_code(key_code),
{
    let mut index: usize = 0;
    while index < 26
        invariant
            index <= 26,
            forall|j: int| 0 <= j < index ==> letter_key_codes()[j] != key_code,
        decreases 26 - index,
    {
        if letter_key_code(index) == key_code {
            proof {
                lemma_letter_codes_distinct();
                let c = choose|i: int| 0 <= i < 26 && letter_key_codes()[i] == key_code;
                assert(c == index);
            }
            return PhysicalKey::Letter(index as u8);
        }
        index = index + 1;
    }
    if key_code == ESCAPE_KEY_CODE {
        PhysicalKey::Escape
    } else if key_code == RETURN_KEY_CODE || key_code == KEYPAD_ENTER_KEY_CODE {
        PhysicalKey::Enter
    } else {
        PhysicalKey::Other
    }
}

/// One side of one modifier key.
#[derive(Clone, Copy, Debug, PartialEq, Eq, Structural)]
pub enum ModifierSide {
    LeftControl,
    RightControl,
    LeftOption,
    RightOption,
    LeftShift,
    RightShift,
    LeftCommand,
    RightCommand,
}

pub open spec fn spec_side_bit(side: ModifierSide) -> u8 {
    match side {
        ModifierSide::LeftControl => 1,
        ModifierSide::RightControl => 2,
        ModifierSide::LeftOption => 4,
        ModifierSide::RightOption => 8,
        ModifierSide::LeftShift => 16,
        ModifierSide::RightShift => 32,
        ModifierSide::LeftCommand => 64,
        ModifierSide::RightCommand => 128,
    }
}

impl ModifierSide {
    /// The single bit that stands for this side in a modifier mask.
    pub fn bit(self) -> (bit: u8)
        ensures
            bit == spec_side_bit(self),
    {
        match self {
            ModifierSide::LeftControl => 1,
            ModifierSide::RightControl => 2,
            ModifierSide::LeftOption => 4,
            ModifierSide::RightOption => 8,
            ModifierSide::LeftShift => 16,
            ModifierSide::RightShift => 32,
            ModifierSide::LeftCommand => 64,
            ModifierSide::RightCommand => 128,
        }
    }
}

pub open spec fn spec_modifier_side_for_key_code(key_code: u16) -> Option<ModifierSide> {
    if key_code == LEFT_CONTROL_KEY_CODE {
        Some(ModifierSide::LeftControl)
    } else if key_code == RIGHT_CONTROL_KEY_CODE {
        Some(ModifierSide::RightControl)
    } else if key_code == LEFT_OPTION_KEY_CODE {
        Some(ModifierSide::LeftOption)
    } else if key_code == RIGHT_OPTION_KEY_CODE {
        Some(ModifierSide::RightOption)
    } else if key_code == LEFT_SHIFT_KEY_CODE {
        Some(ModifierSide::LeftShift)
    } else if key_code == RIGHT_SHIFT_KEY_CODE {
        Some(ModifierSide::RightShift)
    } else if key_code == LEFT_COMMAND_KEY_CODE {
        Some(ModifierSide::LeftCommand)
    } else if key_code == RIGHT_COMMAND_KEY_CODE {
        Some(ModifierSide::RightCommand)
    } else {
        None
    }
}

/// The modifier side that a flagsChanged key code names, if any.
pub fn modifier_side_for_key_code(key_code: u16) -> (side: Option<ModifierSide>)
    ensures
        side == spec_modifier_side_for_key_code(key_code),
{
    if key_code == LEFT_CONTROL_KEY_CODE {
        Some(ModifierSide::LeftControl)
    } else if key_code == RIGHT_CONTROL_KEY_CODE {
        Some(ModifierSide::RightControl)
    } else if key_code == LEFT_OPTION_KEY_CODE {
        Some(ModifierSide::LeftOption)
    } else if key_code == RIGHT_OPTION_KEY_CODE {
        Some(ModifierSide::RightOption)
    } else if key_code == LEFT_SHIFT_KEY_CODE {
        Some(ModifierSide::LeftShift)
    } else if key_code == RIGHT_SHIFT_KEY_CODE {
        Some(ModifierSide::RightShift)
    } else if key_code == LEFT_COMMAND_KEY_CODE {
        Some(ModifierSide::LeftCommand)
    } else if key_code == RIGHT_COMMAND_KEY_CODE {
        Some(ModifierSide::RightCommand)
    } else {
        None
    }
}

} // verus!
