use vstd::prelude::*;

verus! {

/// A key of the host keyboard: the digit row, the letters, or any other key.
#[derive(Debug, Clone, Copy, PartialEq, Eq, Structural)]
pub enum HostKey {
    D0,
    D1,
    D2,
    D3,
    D4,
    D5,
    D6,
    D7,
    D8,
    D9,
    A,
    B,
    C,
    D,
    E,
    F,
    G,
    H,
    I,
    J,
    K,
    L,
    M,
    N,
    O,
    P,
    Q,
    R,
    S,
    T,
    U,
    V,
    W,
    X,
    Y,
    Z,
    Other,
}

/// How host keys stand for the sixteen keys of the machine.
#[derive(Debug, Clone, Copy, PartialEq, Eq, Structural)]
pub enum KeyMapping {
    /// Each key is the host key with its own hexadecimal digit.
    Default,
    /// The sixteen keys are the four-by-four block from `1` to `V`, laid
    /// out as on the original keypad.
    Improved,
}

/// The machine key of a host key under the default mapping.
pub open spec fn default_key(k: HostKey) -> Option<u8> {
    match k {
        HostKey::D0 => Some(0x0u8),
        HostKey::D1 => Some(0x1u8),
        HostKey::D2 => Some(0x2u8),
        HostKey::D3 => Some(0x3u8),
        HostKey::D4 => Some(0x4u8),
        HostKey::D5 => Some(0x5u8),
        HostKey::D6 => Some(0x6u8),
        HostKey::D7 => Some(0x7u8),
        HostKey::D8 => Some(0x8u8),
        HostKey::D9 => Some(0x9u8),
        HostKey::A => Some(0xAu8),
        HostKey::B => Some(0xBu8),
        HostKey::C => Some(0xCu8),
        HostKey::D => Some(0xDu8),
        HostKey::E => Some(0xEu8),
        HostKey::F => Some(0xFu8),
        _ => None,
    }
}

/// The machine key of a host key under the keypad-shaped mapping:
///
/// ```text
/// 1 2 3 4        1 2 3 C
/// Q W E R        4 5 6 D
/// A S D F   =>   7 8 9 E
/// Z X C V        A 0 B F
/// ```
pub open spec fn improved_key(k: HostKey) -> Option<u8> {
    match k {
        HostKey::D1 => Some(0x1u8),
        HostKey::D2 => Some(0x2u8),
        HostKey::D3 => Some(0x3u8),
        HostKey::D4 => Some(0xCu8),
        HostKey::Q => Some(0x4u8),
        HostKey::W => Some(0x5u8),
        HostKey::E => Some(0x6u8),
        HostKey::R => Some(0xDu8),
        HostKey::A => Some(0x7u8),
        HostKey::S => Some(0x8u8),
        HostKey::D => Some(0x9u8),
        HostKey::F => Some(0xEu8),
        HostKey::Z => Some(0xAu8),
        HostKey::X => Some(0x0u8),
        HostKey::C => Some(0xBu8),
        HostKey::V => Some(0xFu8),
        _ => None,
    }
}

pub open spec fn mapped_key(m: KeyMapping, k: HostKey) -> Option<u8> {
    match m {
        KeyMapping::Default => default_key(k),
        KeyMapping::Improved => improved_key(k),
    }
}

pub struct Keyboard {
    mapping: KeyMapping,
}

impl View for Keyboard {
    type V = KeyMapping;

    closed spec fn view(&self) -> KeyMapping {
        self.mapping
    }
}

impl Keyboard {
    pub fn new(map: KeyMapping) -> (k: Keyboard)
        ensures
            k@ == map,
    {
        Keyboard { mapping: map }
    }

    /// The machine key that a host key stands for, if any; every machine
    /// key that comes back is below 16.
    pub fn map_key(&self, button: HostKey) -> (r: Option<u8>)
        ensures
            r == mapped_key(self@, button),
            r matches Some(k) ==> k < 16,
    {
        match self.mapping {
            KeyMapping::Default => self.default_keymapping(button),
            KeyMapping::Improved => self.improved_keymapping(button),
        }
    }

    fn default_keymapping(&self, button: HostKey) -> (r: Option<u8>)
        ensures
            r == default_key(button),
    {
        match button {
            HostKey::D0 => Some(0x0),
            HostKey::D1 => Some(0x1),
            HostKey::D2 => Some(0x2),
            HostKey::D3 => Some(0x3),
            HostKey::D4 => Some(0x4),
            HostKey::D5 => Some(0x5),
            HostKey::D6 => Some(0x6),
            HostKey::D7 => Some(0x7),
            HostKey::D8 => Some(0x8),
            HostKey::D9 => Some(0x9),
            HostKey::A => Some(0xA),
            HostKey::B => Some(0xB),
            HostKey::C => Some(0xC),
            HostKey::D => Some(0xD),
            HostKey::E => Some(0xE),
            HostKey::F => Some(0xF),
            _ => None,
        }
    }

    fn improved_keymapping(&self, button: HostKey) -> (r: Option<u8>)
        ensures
            r == improved_key(button),
    {
        match button {
            HostKey::D1 => Some(0x1),
            HostKey::D2 => Some(0x2),
            HostKey::D3 => Some(0x3),
            HostKey::D4 => Some(0xC),
            HostKey::Q => Some(0x4),
            HostKey::W => Some(0x5),
            HostKey::E => Some(0x6),
            HostKey::R => Some(0xD),
            HostKey::A => Some(0x7),
            HostKey::S => Some(0x8),
            HostKey::D => Some(0x9),
            HostKey::F => Some(0xE),
            HostKey::Z => Some(0xA),
            HostKey::X => Some(0x0),
            HostKey::C => Some(0xB),
            HostKey::V => Some(0xF),
            _ => None,
        }
    }
}

} // verus!
