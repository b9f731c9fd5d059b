//! Boot-protocol keyboard reports of USB HID keyboards.
use vstd::prelude::*;

verus! {

/// The modifier byte of a keyboard report: one bit per modifier key.
#[derive(Debug, Clone, Copy, PartialEq, Eq, Structural)]
pub struct KeyModifiers {
    pub bits: u8,
}

impl KeyModifiers {
    pub const LEFT_CTRL: u8 = 0x01;

    pub const LEFT_SHIFT: u8 = 0x02;

    pub const LEFT_ALT: u8 = 0x04;

    pub const LEFT_SUPER: u8 = 0x08;

    pub const RIGHT_CTRL: u8 = 0x10;

    pub const RIGHT_SHIFT: u8 = 0x20;

    pub const RIGHT_ALT: u8 = 0x40;

    pub const RIGHT_SUPER: u8 = 0x80;

    /// Whether any bit of `mask` is set.
    pub fn intersects(&self, mask: u8) -> (r: bool)
        ensures
            r == (self.bits & mask != 0),
    {
        self.bits & mask != 0
    }
}

/// A key as a keyboard layout maps it.
pub trait ToChar: Sized {
    /// The key a usage code stands for, if the layout has one.
    fn from_keycode(code: u8) -> Option<Self>;

    /// The character the key types, with or without shift.
    fn char(&self, shift: bool) -> Option<char>;
}

/// One report of a keyboard in boot protocol: modifiers and up to six keys
/// held down, zero where no key is.
#[derive(Debug, Clone, Copy)]
pub struct HidKeyboardReport {
    pub modifiers: KeyModifiers,
    pub reserved: u8,
    pub keycodes: [u8; 6],
}

impl HidKeyboardReport {
    /// The report in the eight bytes a keyboard sends.
    pub fn new(data: [u8; 8]) -> (r: HidKeyboardReport)
        ensures
            r.modifiers.bits == data[0],
            r.reserved == data[1],
            r.keycodes@ == data@.subrange(2, 8),
    {
        let r = HidKeyboardReport {
            modifiers: KeyModifiers { bits: data[0] },
            reserved: data[1],
            keycodes: [data[2], data[3], data[4], data[5], data[6], data[7]],
        };
        assert(r.keycodes@ =~= data@.subrange(2, 8));
        r
    }

    pub fn is_shift(&self) -> (r: bool)
        ensures
            r == (self.modifiers.bits & (KeyModifiers::LEFT_SHIFT | KeyModifiers::RIGHT_SHIFT) != 0),
    {
        self.modifiers.intersects(KeyModifiers::LEFT_SHIFT | KeyModifiers::RIGHT_SHIFT)
    }

    pub fn is_ctrl(&self) -> (r: bool)
        ensures
            r == (self.modifiers.bits & (KeyModifiers::LEFT_CTRL | KeyModifiers::RIGHT_CTRL) != 0),
    {
        self.modifiers.intersects(KeyModifiers::LEFT_CTRL | KeyModifiers::RIGHT_CTRL)
    }

    pub fn is_alt(&self) -> (r: bool)
        ensures
            r == (self.modifiers.bits & (KeyModifiers::LEFT_ALT | KeyModifiers::RIGHT_ALT) != 0),
    {
        self.modifiers.intersects(KeyModifiers::LEFT_ALT | KeyModifiers::RIGHT_ALT)
    }

    pub fn is_super(&self) -> (r: bool)
        ensures
            r == (self.modifiers.bits & (KeyModifiers::LEFT_SUPER | KeyModifiers::RIGHT_SUPER)
                != 0),
    {
        self.modifiers.intersects(KeyModifiers::LEFT_SUPER | KeyModifiers::RIGHT_SUPER)
    }

    /// The characters of the keys held down, in report order: `None` where
    /// no key is held, and elsewhere what `translated` gives for that slot.
    pub fn select_keys(&self, translated: [Option<char>; 6]) -> (r: [Option<char>; 6])
        ensures
            forall|i: int|
                0 <= i < 6 ==> r@[i] == if self.keycodes@[i] == 0 {
                    None
                } else {
                    translated@[i]
                },
    {
        let mut keys = translated;
        let mut i: usize = 0;
        while i < 6
            invariant
                0 <= i <= 6,
                forall|j: int|
                    0 <= j < 6 ==> keys@[j] == if j < i && self.keycodes@[j] == 0 {
                        None
                    } else {
                        translated@[j]
                    },
            decreases 6 - i,
        {
            if self.keycodes[i] == 0 {
                keys[i] = None;
            }
            i = i + 1;
        }
        keys
    }

    /// The characters of the keys held down, in report order, as layout `K`
    /// maps them with the report's shift state; `None` where no key is held
    /// or the layout has no character for it. What the layout answers is its
    /// own; [`HidKeyboardReport::select_keys`] states what is done with it.
    pub fn get<K: ToChar>(&self) -> (r: [Option<char>; 6])
        ensures
            forall|i: int| 0 <= i < 6 && self.keycodes@[i] == 0 ==> r@[i] is None,
    {
        let shift = self.is_shift();
        let mut translated: [Option<char>; 6] = [None, None, None, None, None, None];
        let mut i: usize = 0;
        while i < 6
            decreases 6 - i,
        {
            if self.keycodes[i] != 0 {
                if let Some(key) = K::from_keycode(self.keycodes[i]) {
                    translated[i] = key.char(shift);
                }
            }
            i = i + 1;
        }
        self.select_keys(translated)
    }
}

} // verus!
