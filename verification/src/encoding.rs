//! The binary form of presses and combos.
//!
//! A press is four bytes: the modifier mask and the key code, each as a
//! little-endian 16-bit value. A combo is eight bytes: its first press, then
//! its second press, or four zero bytes where it has none.
use vstd::prelude::*;
use crate::error::KeypadError;
use crate::keys::{Key, ModifierKey};
use crate::press::{KeyCombo, KeyPress};

verus! {

/// Number of bytes in an encoded press.
pub const PRESS_LEN: usize = 4;

/// Number of bytes in an encoded combo.
pub const COMBO_LEN: usize = 8;

/// The two bytes of `x`, low byte first.
pub open spec fn le_bytes(x: u16) -> Seq<u8> {
    seq![(x % 256) as u8, (x / 256) as u8]
}

/// The 16-bit value whose low byte is `lo` and whose high byte is `hi`.
pub open spec fn le_u16(lo: u8, hi: u8) -> u16 {
    (lo + hi * 256) as u16
}

/// The code of `m` where `on` holds, and no bit at all where it does not.
pub open spec fn flag(on: bool, m: ModifierKey) -> u16 {
    if on {
        m.spec_code()
    } else {
        0
    }
}

/// Whether every bit of the code of `m` is set in `modifier`.
pub open spec fn has_flag(modifier: u16, m: ModifierKey) -> bool {
    modifier & m.spec_code() == m.spec_code()
}

/// Splits `x` into its two bytes, low byte first.
pub fn u16_to_le(x: u16) -> (bytes: [u8; 2])
    ensures
        bytes@ == le_bytes(x),
{
    let bytes = [(x % 256) as u8, (x / 256) as u8];
    assert(bytes@ =~= le_bytes(x));
    bytes
}

/// Joins a low and a high byte into one 16-bit value.
pub fn u16_from_le(lo: u8, hi: u8) -> (x: u16)
    ensures
        x == le_u16(lo, hi),
{
    lo as u16 + hi as u16 * 256
}

/// Joining the two bytes of a value gives the value back.
pub proof fn lemma_le_round_trip(x: u16)
    ensures
        le_u16(le_bytes(x)[0], le_bytes(x)[1]) == x,
{
}

/// The two bytes of an optional modifier: its code, or zeros for none.
pub fn modifier_key_to_bytes(key: Option<ModifierKey>) -> (bytes: [u8; 2])
    ensures
        bytes@ == match key {
            Some(m) => le_bytes(m.spec_code()),
            None => seq![0u8, 0u8],
        },
{
    match key {
        Some(modifier) => u16_to_le(modifier.code()),
        None => {
            let bytes = [0u8, 0u8];
            assert(bytes@ =~= seq![0u8, 0u8]);
            bytes
        },
    }
}

/// The two bytes of an optional key: its code, or zeros for none.
pub fn key_to_bytes(key: Option<Key>) -> (bytes: [u8; 2])
    ensures
        bytes@ == match key {
            Some(k) => le_bytes(k.spec_code()),
            None => seq![0u8, 0u8],
        },
{
    match key {
        Some(key) => u16_to_le(key.code()),
        None => {
            let bytes = [0u8, 0u8];
            assert(bytes@ =~= seq![0u8, 0u8]);
            bytes
        },
    }
}

/// The four bytes of an optional press: its encoding, or zeros for none.
pub fn optional_key_bytes(option: &Option<KeyPress>) -> (bytes: [u8; 4])
    ensures
        bytes@ == KeyPress::encode_optional(*option),
{
    match option {
        Some(press) => press.to_bytes(),
        None => {
            let bytes = [0u8, 0u8, 0u8, 0u8];
            assert(bytes@ =~= seq![0u8, 0u8, 0u8, 0u8]);
            bytes
        },
    }
}

impl KeyPress {
    /// The modifier mask of this press: the codes of the modifiers held,
    /// or-ed together. With no modifier held the mask is zero.
    pub open spec fn modifier_mask(self) -> u16 {
        flag(self.ctrl, ModifierKey::LeftCtrl) | flag(self.alt, ModifierKey::LeftAlt) | flag(
            self.shift,
            ModifierKey::LeftShift,
        ) | flag(self.windows, ModifierKey::LeftGui)
    }

    /// The four bytes of this press.
    pub open spec fn encode(self) -> Seq<u8> {
        le_bytes(self.modifier_mask()) + le_bytes(self.key.spec_code())
    }

    /// The four bytes that stand for an optional press.
    pub open spec fn encode_optional(press: Option<KeyPress>) -> Seq<u8> {
        match press {
            Some(p) => p.encode(),
            None => seq![0u8, 0u8, 0u8, 0u8],
        }
    }

    /// The press that a modifier mask and a key code stand for. Only the four
    /// left-hand modifiers are read from the mask.
    pub open spec fn spec_from_u16(modifier: u16, key: u16) -> Result<KeyPress, KeypadError> {
        match Key::spec_from_u16(key) {
            Some(k) => Ok(
                KeyPress {
                    ctrl: has_flag(modifier, ModifierKey::LeftCtrl),
                    alt: has_flag(modifier, ModifierKey::LeftAlt),
                    shift: has_flag(modifier, ModifierKey::LeftShift),
                    windows: has_flag(modifier, ModifierKey::LeftGui),
                    key: k,
                },
            ),
            None => Err(KeypadError::InvalidDataError),
        }
    }

    /// The press that the four bytes starting at `at` stand for.
    pub open spec fn decode_at(bytes: Seq<u8>, at: int) -> Result<KeyPress, KeypadError> {
        KeyPress::spec_from_u16(
            le_u16(bytes[at], bytes[at + 1]),
            le_u16(bytes[at + 2], bytes[at + 3]),
        )
    }

    /// The press that four bytes stand for.
    pub open spec fn decode(bytes: Seq<u8>) -> Result<KeyPress, KeypadError> {
        KeyPress::decode_at(bytes, 0)
    }

    /// Builds a press from a modifier mask and a key code. Fails with
    /// `InvalidDataError` exactly when no key has the code `key`, which
    /// includes every code without the key marker.
    pub fn from_u16(modifier: u16, key: u16) -> (r: Result<KeyPress, KeypadError>)
        ensures
            r == KeyPress::spec_from_u16(modifier, key),
            r is Err <==> forall|k: Key| k.spec_code() != key,
            r is Err ==> r == Err::<KeyPress, KeypadError>(KeypadError::InvalidDataError),
            !crate::keys::has_key_tag(key) ==> r is Err,
    {
        match Key::from_u16(key) {
            Some(k) => Ok(
                KeyPress {
                    ctrl: modifier & ModifierKey::LeftCtrl.code() == ModifierKey::LeftCtrl.code(),
                    alt: modifier & ModifierKey::LeftAlt.code() == ModifierKey::LeftAlt.code(),
                    shift: modifier & ModifierKey::LeftShift.code()
                        == ModifierKey::LeftShift.code(),
                    windows: modifier & ModifierKey::LeftGui.code() == ModifierKey::LeftGui.code(),
                    key: k,
                },
            ),
            None => Err(KeypadError::InvalidDataError),
        }
    }

    /// Encodes this press as four bytes.
    pub fn to_bytes(&self) -> (bytes: [u8; 4])
        ensures
            bytes@ == self.encode(),
    {
        let ctrl: u16 = if self.ctrl {
            ModifierKey::LeftCtrl.code()
        } else {
            0
        };
        let alt: u16 = if self.alt {
            ModifierKey::LeftAlt.code()
        } else {
            0
        };
        let shift: u16 = if self.shift {
            ModifierKey::LeftShift.code()
        } else {
            0
        };
        let windows: u16 = if self.windows {
            ModifierKey::LeftGui.code()
        } else {
            0
        };
        let modifier = u16_to_le(ctrl | alt | shift | windows);
        let key = u16_to_le(self.key.code());
        let bytes = [modifier[0], modifier[1], key[0], key[1]];
        assert(bytes@ =~= self.encode());
        bytes
    }

    /// Decoding reads back exactly the modifiers that were held.
    pub proof fn lemma_mask_flags(self)
        ensures
            has_flag(self.modifier_mask(), ModifierKey::LeftCtrl) == self.ctrl,
            has_flag(self.modifier_mask(), ModifierKey::LeftAlt) == self.alt,
            has_flag(self.modifier_mask(), ModifierKey::LeftShift) == self.shift,
            has_flag(self.modifier_mask(), ModifierKey::LeftGui) == self.windows,
    {
        let c = flag(self.ctrl, ModifierKey::LeftCtrl);
        let a = flag(self.alt, ModifierKey::LeftAlt);
        let s = flag(self.shift, ModifierKey::LeftShift);
        let w = flag(self.windows, ModifierKey::LeftGui);
        assert((c == 0 || c == 0xE001) && (a == 0 || a == 0xE004) && (s == 0 || s == 0xE002) && (w
            == 0 || w == 0xE008) ==> {
            &&& ((c | a | s | w) & 0xE001 == 0xE001) == (c == 0xE001)
            &&& ((c | a | s | w) & 0xE004 == 0xE004) == (a == 0xE004)
            &&& ((c | a | s | w) & 0xE002 == 0xE002) == (s == 0xE002)
            &&& ((c | a | s | w) & 0xE008 == 0xE008) == (w == 0xE008)
        }) by (bit_vector);
    }

    /// Decoding the bytes of a press gives the press back.
    pub proof fn lemma_round_trip(self)
        ensures
            self.encode().len() == PRESS_LEN,
            KeyPress::decode(self.encode()) == Ok::<KeyPress, KeypadError>(self),
    {
        self.lemma_mask_flags();
        Key::lemma_from_code(self.key);
        lemma_le_round_trip(self.modifier_mask());
        lemma_le_round_trip(self.key.spec_code());
    }
}

impl KeyCombo {
    /// The eight bytes of this combo: the first press, then the second, or
    /// four zero bytes where there is none.
    pub open spec fn encode(self) -> Seq<u8> {
        self.one.encode() + KeyPress::encode_optional(self.two)
    }

    /// The combo that the eight bytes starting at `at` stand for. A second
    /// key field of zero means that there is no second press; its modifier
    /// field is then not looked at.
    pub open spec fn decode_at(bytes: Seq<u8>, at: int) -> Result<KeyCombo, KeypadError> {
        match KeyPress::decode_at(bytes, at) {
            Err(e) => Err(e),
            Ok(one) => if le_u16(bytes[at + 6], bytes[at + 7]) == 0 {
                Ok(KeyCombo { one, two: None })
            } else {
                match KeyPress::decode_at(bytes, at + 4) {
                    Err(e) => Err(e),
                    Ok(two) => Ok(KeyCombo { one, two: Some(two) }),
                }
            },
        }
    }

    /// The combo that eight bytes stand for.
    pub open spec fn decode(bytes: Seq<u8>) -> Result<KeyCombo, KeypadError> {
        KeyCombo::decode_at(bytes, 0)
    }

    /// What reading a combo from a chunk of bytes yields: a chunk of odd
    /// length cannot be split into 16-bit fields and is invalid; otherwise
    /// the first eight bytes are decoded.
    pub open spec fn spec_from_bytes(bytes: Seq<u8>) -> Result<KeyCombo, KeypadError> {
        if bytes.len() % 2 == 1 {
            Err(KeypadError::InvalidDataError)
        } else {
            KeyCombo::decode(bytes)
        }
    }

    /// Encodes this combo as eight bytes.
    pub fn to_bytes(&self) -> (bytes: Vec<u8>)
        ensures
            bytes@ == self.encode(),
            bytes@.len() == COMBO_LEN,
            self.two is None ==> bytes@.subrange(4, 8) == seq![0u8, 0u8, 0u8, 0u8],
    {
        let one = self.one.to_bytes();
        let two = optional_key_bytes(&self.two);
        let bytes = vec![one[0], one[1], one[2], one[3], two[0], two[1], two[2], two[3]];
        assert(bytes@ =~= self.encode());
        assert(self.two is None ==> bytes@.subrange(4, 8) =~= seq![0u8, 0u8, 0u8, 0u8]);
        bytes
    }

    /// Reads a combo from a chunk of bytes. A chunk of odd length is invalid;
    /// of any other chunk the first eight bytes are decoded. The only failure
    /// is `InvalidDataError`.
    pub fn from_bytes(bytes: &[u8]) -> (r: Result<KeyCombo, KeypadError>)
        requires
            bytes@.len() % 2 == 1 || bytes@.len() >= COMBO_LEN,
        ensures
            r == KeyCombo::spec_from_bytes(bytes@),
            r is Err ==> r == Err::<KeyCombo, KeypadError>(KeypadError::InvalidDataError),
            r matches Ok(c) ==> (c.two is None <==> le_u16(bytes@[6], bytes@[7]) == 0),
    {
        if bytes.len() % 2 == 1 {
            return Err(KeypadError::InvalidDataError);
        }
        let one = match KeyPress::from_u16(
            u16_from_le(bytes[0], bytes[1]),
            u16_from_le(bytes[2], bytes[3]),
        ) {
            Ok(one) => one,
            Err(e) => {
                return Err(e);
            },
        };
        let modifier = u16_from_le(bytes[4], bytes[5]);
        let key = u16_from_le(bytes[6], bytes[7]);
        if key > 0 {
            match KeyPress::from_u16(modifier, key) {
                Ok(two) => Ok(KeyCombo { one, two: Some(two) }),
                Err(e) => Err(e),
            }
        } else {
            Ok(KeyCombo { one, two: None })
        }
    }

    /// Decoding the bytes of a combo gives the combo back, whether or not it
    /// has a second press.
    pub proof fn lemma_round_trip(self)
        ensures
            self.encode().len() == COMBO_LEN,
            KeyCombo::decode(self.encode()) == Ok::<KeyCombo, KeypadError>(self),
            KeyCombo::spec_from_bytes(self.encode()) == Ok::<KeyCombo, KeypadError>(self),
    {
        let bytes = self.encode();
        self.one.lemma_round_trip();
        assert(KeyPress::decode_at(bytes, 0) == KeyPress::decode(self.one.encode()));
        match self.two {
            Some(p) => {
                p.lemma_round_trip();
                Key::lemma_code_tagged(p.key);
                lemma_le_round_trip(p.key.spec_code());
                assert(KeyPress::decode_at(bytes, 4) == KeyPress::decode(p.encode()));
            },
            None => {},
        }
    }

    /// A combo without a second press ends in four zero bytes, and only such
    /// a combo has a zero second key field.
    pub proof fn lemma_second_press_field(self)
        ensures
            self.two is None ==> self.encode().subrange(4, 8) == seq![0u8, 0u8, 0u8, 0u8],
            self.two is None <==> le_u16(self.encode()[6], self.encode()[7]) == 0,
    {
        assert(self.two is None ==> self.encode().subrange(4, 8) =~= seq![0u8, 0u8, 0u8, 0u8]);
        if let Some(p) = self.two {
            Key::lemma_code_tagged(p.key);
            lemma_le_round_trip(p.key.spec_code());
        }
    }
}

} // verus!
