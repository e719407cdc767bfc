//! Keys and modifiers: from the key values that the settings store to the
//! key codes that the keyboards report.

use std::collections::HashSet;
use vstd::prelude::*;
use vstd::std_specs::hash::*;
use vstd::std_specs::iter::IteratorSpec;
use vstd::string::StringExecFns;
use crate::numerals::{hex, hex_min_text};

verus! {

/// The modifier flag of Shift.
pub const MOD_SHIFT: u32 = 1;

/// The modifier flag of Control.
pub const MOD_CTRL: u32 = 4;

/// The modifier flag of Alt.
pub const MOD_ALT: u32 = 8;

/// The modifier flag of Super.
pub const MOD_SUPER: u32 = 64;

/// The key code of the left Control key.
pub const EV_KEY_LEFTCTRL: u16 = 29;

/// The key code of the right Control key.
pub const EV_KEY_RIGHTCTRL: u16 = 97;

/// The key code of the left Alt key.
pub const EV_KEY_LEFTALT: u16 = 56;

/// The key code of the right Alt key.
pub const EV_KEY_RIGHTALT: u16 = 100;

/// The key code of the left Shift key.
pub const EV_KEY_LEFTSHIFT: u16 = 42;

/// The key code of the right Shift key.
pub const EV_KEY_RIGHTSHIFT: u16 = 54;

/// The key code of the left Super key.
pub const EV_KEY_LEFTMETA: u16 = 125;

/// The key code of the right Super key.
pub const EV_KEY_RIGHTMETA: u16 = 126;

/// A shortcut as the keyboards report it: the code of its key and the
/// modifiers that must be held with it.
#[derive(Debug, Clone, Copy, PartialEq, Eq, Structural)]
pub struct EvdevKeybinding {
    /// The code of the key.
    pub key_code: u16,
    /// The modifier flags that must be held.
    pub modifiers: u32,
}

/// The modifier flag of the key with `code`, 0 if the key is no modifier.
pub open spec fn modifier_flag(code: u16) -> u32 {
    if code == EV_KEY_LEFTCTRL || code == EV_KEY_RIGHTCTRL {
        MOD_CTRL
    } else if code == EV_KEY_LEFTALT || code == EV_KEY_RIGHTALT {
        MOD_ALT
    } else if code == EV_KEY_LEFTSHIFT || code == EV_KEY_RIGHTSHIFT {
        MOD_SHIFT
    } else if code == EV_KEY_LEFTMETA || code == EV_KEY_RIGHTMETA {
        MOD_SUPER
    } else {
        0
    }
}

/// `flag` if `held`, else no flag.
pub open spec fn flag_if(held: bool, flag: u32) -> u32 {
    if held {
        flag
    } else {
        0
    }
}

/// The modifier flags of the keys in `held`: a flag is set if its left or
/// its right key is held.
pub open spec fn held_flags(held: Set<u16>) -> u32 {
    flag_if(held.contains(EV_KEY_LEFTCTRL) || held.contains(EV_KEY_RIGHTCTRL), MOD_CTRL) | flag_if(
        held.contains(EV_KEY_LEFTALT) || held.contains(EV_KEY_RIGHTALT),
        MOD_ALT,
    ) | flag_if(held.contains(EV_KEY_LEFTSHIFT) || held.contains(EV_KEY_RIGHTSHIFT), MOD_SHIFT)
        | flag_if(held.contains(EV_KEY_LEFTMETA) || held.contains(EV_KEY_RIGHTMETA), MOD_SUPER)
}

/// Whether the key with `code` is a modifier: Control, Alt, Shift or Super,
/// left or right.
pub fn is_modifier_key(code: u16) -> (r: bool)
    ensures
        r == (modifier_flag(code) != 0),
{
    code == EV_KEY_LEFTCTRL || code == EV_KEY_RIGHTCTRL || code == EV_KEY_LEFTALT || code
        == EV_KEY_RIGHTALT || code == EV_KEY_LEFTSHIFT || code == EV_KEY_RIGHTSHIFT || code
        == EV_KEY_LEFTMETA || code == EV_KEY_RIGHTMETA
}

/// The modifier flag of the key with `code`, if the key is a modifier.
pub fn modifier_flag_for_key(code: u16) -> (flag: Option<u32>)
    ensures
        flag == if modifier_flag(code) != 0 {
            Some(modifier_flag(code))
        } else {
            None
        },
{
    if code == EV_KEY_LEFTCTRL || code == EV_KEY_RIGHTCTRL {
        Some(MOD_CTRL)
    } else if code == EV_KEY_LEFTALT || code == EV_KEY_RIGHTALT {
        Some(MOD_ALT)
    } else if code == EV_KEY_LEFTSHIFT || code == EV_KEY_RIGHTSHIFT {
        Some(MOD_SHIFT)
    } else if code == EV_KEY_LEFTMETA || code == EV_KEY_RIGHTMETA {
        Some(MOD_SUPER)
    } else {
        None
    }
}

proof fn lemma_flag_joins(ctrl: u32, alt: u32, shift: u32, sup: u32)
    requires
        ctrl == 0 || ctrl == 4,
        alt == 0 || alt == 8,
        shift == 0 || shift == 1,
        sup == 0 || sup == 64,
    ensures
        (ctrl | alt | shift | sup) | 4 == (4u32 | alt | shift | sup),
        (ctrl | alt | shift | sup) | 8 == (ctrl | 8u32 | shift | sup),
        (ctrl | alt | shift | sup) | 1 == (ctrl | alt | 1u32 | sup),
        (ctrl | alt | shift | sup) | 64 == (ctrl | alt | shift | 64u32),
{
    assert((ctrl | alt | shift | sup) | 4 == (4u32 | alt | shift | sup)) by (bit_vector)
        requires
            ctrl == 0 || ctrl == 4,
    ;
    assert((ctrl | alt | shift | sup) | 8 == (ctrl | 8u32 | shift | sup)) by (bit_vector)
        requires
            alt == 0 || alt == 8,
    ;
    assert((ctrl | alt | shift | sup) | 1 == (ctrl | alt | 1u32 | sup)) by (bit_vector)
        requires
            shift == 0 || shift == 1,
    ;
    assert((ctrl | alt | shift | sup) | 64 == (ctrl | alt | shift | 64u32)) by (bit_vector)
        requires
            sup == 0 || sup == 64,
    ;
}

/// The modifier flags of the held keys.
pub fn modifiers_from_held_keys(held: &HashSet<u16>) -> (mods: u32)
    ensures
        mods == held_flags(held@),
{
    broadcast use group_hash_axioms;

    let mut mods: u32 = 0;
    let ghost mut seen: Set<u16> = Set::empty();
    proof {
        assert(0u32 | 0u32 | 0u32 | 0u32 == 0u32) by (bit_vector);
    }
    for code in it: held.iter()
        invariant
            it.seq() == spec_hash_keys_iter(held).remaining(),
            seen == it.seq().subrange(0, it.index() as int).unref().to_set(),
            mods == held_flags(seen),
    {
        let ghost before = seen;
        proof {
            let so_far = it.seq().subrange(0, it.index() as int).unref();
            let more = it.seq().subrange(0, it.index() + 1).unref();
            assert(more =~= so_far.push(*code));
            seen = before.insert(*code);
            assert(more.to_set() =~= before.insert(*code)) by {
                assert forall|k: u16| more.to_set().contains(k) <==> before.insert(*code).contains(
                    k,
                ) by {
                    if more.to_set().contains(k) {
                        let j = choose|j: int| 0 <= j < more.len() && more[j] == k;
                        if j < so_far.len() {
                            assert(so_far[j] == k);
                        }
                    }
                    if before.contains(k) {
                        let j = choose|j: int| 0 <= j < so_far.len() && so_far[j] == k;
                        assert(more[j] == k);
                    }
                    if k == *code {
                        assert(more[so_far.len() as int] == k);
                    }
                }
            }
            lemma_flag_joins(
                flag_if(
                    before.contains(EV_KEY_LEFTCTRL) || before.contains(EV_KEY_RIGHTCTRL),
                    MOD_CTRL,
                ),
                flag_if(before.contains(EV_KEY_LEFTALT) || before.contains(EV_KEY_RIGHTALT), MOD_ALT),
                flag_if(
                    before.contains(EV_KEY_LEFTSHIFT) || before.contains(EV_KEY_RIGHTSHIFT),
                    MOD_SHIFT,
                ),
                flag_if(
                    before.contains(EV_KEY_LEFTMETA) || before.contains(EV_KEY_RIGHTMETA),
                    MOD_SUPER,
                ),
            );
        }
        match modifier_flag_for_key(*code) {
            Some(flag) => {
                mods = mods | flag;
            },
            None => {},
        }
    }
    proof {
        let keys = spec_hash_keys_iter(held).remaining();
        assert(keys.subrange(0, keys.len() as int) =~= keys);
    }
    mods
}

/// The key code for a key value of the settings, if the key is supported.
/// Upper-case letters stand for their lower-case ones.
pub open spec fn keyval_code(keyval: u32) -> Option<u16> {
    let keyval = if 0x41 <= keyval <= 0x5a {
        (keyval + 0x20) as u32
    } else {
        keyval
    };
    match keyval {
        // Letters
        0x61 => Some(30u16),
        0x62 => Some(48u16),
        0x63 => Some(46u16),
        0x64 => Some(32u16),
        0x65 => Some(18u16),
        0x66 => Some(33u16),
        0x67 => Some(34u16),
        0x68 => Some(35u16),
        0x69 => Some(23u16),
        0x6a => Some(36u16),
        0x6b => Some(37u16),
        0x6c => Some(38u16),
        0x6d => Some(50u16),
        0x6e => Some(49u16),
        0x6f => Some(24u16),
        0x70 => Some(25u16),
        0x71 => Some(16u16),
        0x72 => Some(19u16),
        0x73 => Some(31u16),
        0x74 => Some(20u16),
        0x75 => Some(22u16),
        0x76 => Some(47u16),
        0x77 => Some(17u16),
        0x78 => Some(45u16),
        0x79 => Some(21u16),
        0x7a => Some(44u16),
        // Digits
        0x30 => Some(11u16),
        0x31 => Some(2u16),
        0x32 => Some(3u16),
        0x33 => Some(4u16),
        0x34 => Some(5u16),
        0x35 => Some(6u16),
        0x36 => Some(7u16),
        0x37 => Some(8u16),
        0x38 => Some(9u16),
        0x39 => Some(10u16),
        // Function keys
        0xffbe => Some(59u16),
        0xffbf => Some(60u16),
        0xffc0 => Some(61u16),
        0xffc1 => Some(62u16),
        0xffc2 => Some(63u16),
        0xffc3 => Some(64u16),
        0xffc4 => Some(65u16),
        0xffc5 => Some(66u16),
        0xffc6 => Some(67u16),
        0xffc7 => Some(68u16),
        0xffc8 => Some(87u16),
        0xffc9 => Some(88u16),
        // Editing and navigation
        0xff0d => Some(28u16),
        0xff1b => Some(1u16),
        0xff09 => Some(15u16),
        0xff08 => Some(14u16),
        0xffff => Some(111u16),
        0xff63 => Some(110u16),
        0xff50 => Some(102u16),
        0xff57 => Some(107u16),
        0xff55 => Some(104u16),
        0xff56 => Some(109u16),
        0x20 => Some(57u16),
        // Arrows
        0xff51 => Some(105u16),
        0xff52 => Some(103u16),
        0xff53 => Some(106u16),
        0xff54 => Some(108u16),
        // Punctuation
        0x2d => Some(12u16),
        0x3d => Some(13u16),
        0x5b => Some(26u16),
        0x5d => Some(27u16),
        0x5c => Some(43u16),
        0x3b => Some(39u16),
        0x27 => Some(40u16),
        0x60 => Some(41u16),
        0x2c => Some(51u16),
        0x2e => Some(52u16),
        0x2f => Some(53u16),
        // Print, scroll lock, pause
        0xff61 => Some(210u16),
        0xff14 => Some(70u16),
        0xff13 => Some(119u16),
        // Locks and menu
        0xffe5 => Some(58u16),
        0xff7f => Some(69u16),
        0xff67 => Some(127u16),
        _ => None,
    }
}

/// The key code for a key value of the settings, if the key is supported:
/// letters in either case, digits, F1 to F12, the editing, navigation and
/// arrow keys, the punctuation keys of the main block, and the lock, print,
/// pause and menu keys.
pub fn gdk_keyval_to_evdev(keyval: u32) -> (code: Option<u16>)
    ensures
        code == keyval_code(keyval),
{
    let keyval = if 0x41 <= keyval && keyval <= 0x5a {
        keyval + 0x20
    } else {
        keyval
    };
    match keyval {
        // Letters
        0x61 => Some(30),
        0x62 => Some(48),
        0x63 => Some(46),
        0x64 => Some(32),
        0x65 => Some(18),
        0x66 => Some(33),
        0x67 => Some(34),
        0x68 => Some(35),
        0x69 => Some(23),
        0x6a => Some(36),
        0x6b => Some(37),
        0x6c => Some(38),
        0x6d => Some(50),
        0x6e => Some(49),
        0x6f => Some(24),
        0x70 => Some(25),
        0x71 => Some(16),
        0x72 => Some(19),
        0x73 => Some(31),
        0x74 => Some(20),
        0x75 => Some(22),
        0x76 => Some(47),
        0x77 => Some(17),
        0x78 => Some(45),
        0x79 => Some(21),
        0x7a => Some(44),
        // Digits
        0x30 => Some(11),
        0x31 => Some(2),
        0x32 => Some(3),
        0x33 => Some(4),
        0x34 => Some(5),
        0x35 => Some(6),
        0x36 => Some(7),
        0x37 => Some(8),
        0x38 => Some(9),
        0x39 => Some(10),
        // Function keys
        0xffbe => Some(59),
        0xffbf => Some(60),
        0xffc0 => Some(61),
        0xffc1 => Some(62),
        0xffc2 => Some(63),
        0xffc3 => Some(64),
        0xffc4 => Some(65),
        0xffc5 => Some(66),
        0xffc6 => Some(67),
        0xffc7 => Some(68),
        0xffc8 => Some(87),
        0xffc9 => Some(88),
        // Editing and navigation
        0xff0d => Some(28),
        0xff1b => Some(1),
        0xff09 => Some(15),
        0xff08 => Some(14),
        0xffff => Some(111),
        0xff63 => Some(110),
        0xff50 => Some(102),
        0xff57 => Some(107),
        0xff55 => Some(104),
        0xff56 => Some(109),
        0x20 => Some(57),
        // Arrows
        0xff51 => Some(105),
        0xff52 => Some(103),
        0xff53 => Some(106),
        0xff54 => Some(108),
        // Punctuation
        0x2d => Some(12),
        0x3d => Some(13),
        0x5b => Some(26),
        0x5d => Some(27),
        0x5c => Some(43),
        0x3b => Some(39),
        0x27 => Some(40),
        0x60 => Some(41),
        0x2c => Some(51),
        0x2e => Some(52),
        0x2f => Some(53),
        // Print, scroll lock, pause
        0xff61 => Some(210),
        0xff14 => Some(70),
        0xff13 => Some(119),
        // Locks and menu
        0xffe5 => Some(58),
        0xff7f => Some(69),
        0xff67 => Some(127),
        _ => None,
    }
}

/// The shortcut for a key value and modifiers of the settings, if the key
/// is supported.
pub fn resolve_keybinding(keyval: u32, modifiers: u32) -> (binding: Option<EvdevKeybinding>)
    ensures
        binding == match keyval_code(keyval) {
            Some(key_code) => Some(EvdevKeybinding { key_code, modifiers }),
            None => None,
        },
{
    match gdk_keyval_to_evdev(keyval) {
        Some(key_code) => Some(EvdevKeybinding { key_code, modifiers }),
        None => None,
    }
}

/// A key value with an upper-case letter replaced by its lower-case one.
pub open spec fn normalized_keyval(keyval: u32) -> u32 {
    if 0x41 <= keyval <= 0x5a {
        (keyval + 0x20) as u32
    } else {
        keyval
    }
}

/// Replaces the key value of an upper-case letter by that of its lower-case
/// one.
pub fn normalize_keyval(keyval: u32) -> (normal: u32)
    ensures
        normal == normalized_keyval(keyval),
{
    if 0x41 <= keyval && keyval <= 0x5a {
        keyval + 0x20
    } else {
        keyval
    }
}

/// The name that the keyboard layer gives to the key with `code`.
pub uninterp spec fn evdev_key_name(code: u16) -> Seq<char>;

/// The name of the key with `code`, as `evdev::Key` prints itself for
/// debugging: the name of the key's constant, or `unknown key:` and the code
/// for a code without one. Nothing is claimed of the text but that it
/// depends on the code alone.
#[verifier::external_body]
fn key_name(code: u16) -> (name: String)
    ensures
        name@ == evdev_key_name(code),
{
    format!("{:?}", evdev::Key::new(code))
}

/// The shortcut as the settings store it: a key value and modifier flags.
#[derive(Clone, Copy, Debug, PartialEq, Eq, Structural)]
pub struct ShortcutConfig {
    pub keyval: u32,
    pub modifiers: u32,
}

/// The names of the modifiers in `modifiers`, each followed by `+`: Ctrl,
/// Alt, Shift, Super.
pub open spec fn modifier_prefix(modifiers: u32) -> Seq<char> {
    (if modifiers & MOD_CTRL != 0 {
        "Ctrl+"@
    } else {
        Seq::empty()
    }) + (if modifiers & MOD_ALT != 0 {
        "Alt+"@
    } else {
        Seq::empty()
    }) + (if modifiers & MOD_SHIFT != 0 {
        "Shift+"@
    } else {
        Seq::empty()
    }) + (if modifiers & MOD_SUPER != 0 {
        "Super+"@
    } else {
        Seq::empty()
    })
}

/// The name of the key of a shortcut: the keyboard layer's name for a
/// supported key, else `keyval_` and the key value in hexadecimal.
pub open spec fn key_label(keyval: u32) -> Seq<char> {
    match keyval_code(keyval) {
        Some(code) => evdev_key_name(code),
        None => "keyval_0x"@ + hex_min_text(keyval as nat),
    }
}

impl ShortcutConfig {
    /// The shortcut for a key value and modifiers as the settings hold
    /// them.
    pub fn from_settings(keyval: u32, modifiers: u32) -> (config: Self)
        ensures
            config == (ShortcutConfig { keyval: normalized_keyval(keyval), modifiers }),
    {
        ShortcutConfig { keyval: normalize_keyval(keyval), modifiers }
    }

    /// The shortcut as the keyboards report it, if its key is supported.
    pub fn resolve(&self) -> (binding: Option<EvdevKeybinding>)
        ensures
            binding == match keyval_code(self.keyval) {
                Some(key_code) => Some(EvdevKeybinding { key_code, modifiers: self.modifiers }),
                None => None,
            },
    {
        resolve_keybinding(self.keyval, self.modifiers)
    }

    /// The shortcut for a human reader: its modifiers and its key, joined
    /// by `+`.
    pub fn human_description(&self) -> (description: String)
        ensures
            description@ == modifier_prefix(self.modifiers) + key_label(self.keyval),
    {
        let mut description = String::new();
        if self.modifiers & MOD_CTRL != 0 {
            description = description.concat("Ctrl+");
        }
        if self.modifiers & MOD_ALT != 0 {
            description = description.concat("Alt+");
        }
        if self.modifiers & MOD_SHIFT != 0 {
            description = description.concat("Shift+");
        }
        if self.modifiers & MOD_SUPER != 0 {
            description = description.concat("Super+");
        }
        assert(description@ =~= modifier_prefix(self.modifiers));
        let key = match gdk_keyval_to_evdev(self.keyval) {
            Some(code) => key_name(code),
            None => String::from_str("keyval_0x").concat(hex(self.keyval as u64).as_str()),
        };
        description.concat(key.as_str())
    }
}

} // verus!
