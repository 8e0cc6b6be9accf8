//! The serial protocol of the keypad, as functions on bytes.
//!
//! Every command is one request and one reply of fixed size: a command byte,
//! possibly followed by a payload, goes out, and the device answers with an
//! acknowledge byte or with the six combos it holds. The functions here build
//! the requests and interpret the replies; moving the bytes over the port is
//! left to the caller.
use vstd::prelude::*;
use vstd::slice::slice_subrange;
use crate::encoding::COMBO_LEN;
use crate::error::KeypadError;
use crate::press::KeyCombo;

verus! {

/// Sent to a port to ask whether a keypad listens there.
pub const HELLO: u8 = 0x48;

/// The keypad's answer to a handshake or a flash command.
pub const ACK: u8 = 0x41;

/// Asks the keypad for the combos it holds.
pub const READ_KEYS: u8 = 0x52;

/// Announces six combos for the keypad to store.
pub const WRITE_KEYS: u8 = 0x57;

/// Announces a mask of buttons to flash.
pub const FLASH: u8 = 0x46;

/// Number of buttons on the keypad.
pub const BUTTON_COUNT: usize = 6;

/// Number of bytes in the keypad's report of its combos.
pub const RESPONSE_LEN: usize = 48;

/// Number of bytes in a request to store combos.
pub const WRITE_FRAME_LEN: usize = 49;

/// Speed of the serial connection, in baud.
pub const BAUD_RATE: u32 = 115200;

/// How long a read waits for the keypad, in milliseconds.
pub const TIMEOUT_MILLIS: u64 = 500;

/// Which buttons to flash, one flag per button.
#[derive(Clone, Copy, Debug, PartialEq, Eq, Structural)]
pub struct FlashCommand {
    pub one: bool,
    pub two: bool,
    pub three: bool,
    pub four: bool,
    pub five: bool,
    pub six: bool,
}

impl Default for FlashCommand {
    fn default() -> (command: FlashCommand)
        ensures
            command.flags() == seq![false, false, false, false, false, false],
    {
        FlashCommand { one: false, two: false, three: false, four: false, five: false, six: false }
    }
}

impl FlashCommand {
    /// The flags in button order.
    pub open spec fn flags(self) -> Seq<bool> {
        seq![self.one, self.two, self.three, self.four, self.five, self.six]
    }

    /// The flags in button order.
    pub fn to_array(&self) -> (flash: [bool; 6])
        ensures
            flash@ == self.flags(),
    {
        let flash = [self.one, self.two, self.three, self.four, self.five, self.six];
        assert(flash@ =~= self.flags());
        flash
    }
}

/// Bit `position` alone where `on` holds, and no bit where it does not.
pub open spec fn button_bit(on: bool, position: u8) -> u8 {
    if on {
        1u8 << position
    } else {
        0
    }
}

/// The mask byte of a flash command: bit `i` is set exactly when button `i`
/// is to flash, and the two high bits are clear.
pub open spec fn spec_flash_mask(flash: Seq<bool>) -> u8 {
    button_bit(flash[0], 0) | button_bit(flash[1], 1) | button_bit(flash[2], 2) | button_bit(
        flash[3],
        3,
    ) | button_bit(flash[4], 4) | button_bit(flash[5], 5)
}

/// The bytes of `combos`, eight for each, in button order.
pub open spec fn payload(combos: Seq<KeyCombo>) -> Seq<u8> {
    Seq::new(8 * combos.len(), |k: int| combos[k / 8].encode()[k % 8])
}

/// Number of chunks of eight bytes that `len` bytes fall into, a shorter
/// last one included.
pub open spec fn chunk_count(len: nat) -> nat {
    ((len + 7) / 8) as nat
}

/// The `i`-th chunk of eight bytes of `bytes`; the last one may be shorter.
pub open spec fn chunk(bytes: Seq<u8>, i: int) -> Seq<u8> {
    bytes.subrange(
        8 * i,
        if 8 * i + 8 <= bytes.len() {
            8 * i + 8
        } else {
            bytes.len() as int
        },
    )
}

/// Whether every chunk of `bytes` decodes to a combo.
pub open spec fn all_chunks_decode(bytes: Seq<u8>) -> bool {
    forall|i: int|
        0 <= i < chunk_count(bytes.len()) ==> (#[trigger] KeyCombo::spec_from_bytes(
            chunk(bytes, i),
        )) is Ok
}

/// Where the search for a keypad among the serial ports stands.
#[derive(Clone, Copy, Debug, PartialEq, Eq, Structural)]
pub enum Detection {
    /// The port at this position is to be opened and greeted next.
    Probe(usize),
    /// The port at this position answered the handshake; the search is over.
    Found(usize),
    /// Every port was tried and none answered; the search is over.
    NoDeviceFound,
}

/// The search with the ports before `next` tried in vain: the port at `next`
/// is tried, or the search has failed where no port is left.
pub open spec fn probe_from(ports: int, next: int) -> Detection {
    if next < ports {
        Detection::Probe(next as usize)
    } else {
        Detection::NoDeviceFound
    }
}

/// Whether port `i` answered and no port before it did.
pub open spec fn is_first_answer(answers: Seq<bool>, i: int) -> bool {
    &&& 0 <= i < answers.len()
    &&& answers[i]
    &&& forall|j: int| 0 <= j < i ==> !#[trigger] answers[j]
}

/// Packs six flags into the low six bits of a byte, bit `i` for button `i`.
pub fn flash_mask(flash: [bool; 6]) -> (mask: u8)
    ensures
        mask == spec_flash_mask(flash@),
        mask < 64,
        forall|i: u8| 0 <= i < 6 ==> (#[trigger] (mask >> i) & 1 == 1) == flash@[i as int],
{
    let b0: u8 = if flash[0] { 1 } else { 0 };
    let b1: u8 = if flash[1] { 2 } else { 0 };
    let b2: u8 = if flash[2] { 4 } else { 0 };
    let b3: u8 = if flash[3] { 8 } else { 0 };
    let b4: u8 = if flash[4] { 16 } else { 0 };
    let b5: u8 = if flash[5] { 32 } else { 0 };
    let mask = b0 | b1 | b2 | b3 | b4 | b5;
    proof {
        assert(1u8 << 0u8 == 1 && 1u8 << 1u8 == 2 && 1u8 << 2u8 == 4 && 1u8 << 3u8 == 8 && 1u8
            << 4u8 == 16 && 1u8 << 5u8 == 32) by (bit_vector);
        assert((b0 == 0 || b0 == 1) && (b1 == 0 || b1 == 2) && (b2 == 0 || b2 == 4) && (b3 == 0
            || b3 == 8) && (b4 == 0 || b4 == 16) && (b5 == 0 || b5 == 32) && mask == b0 | b1 | b2
            | b3 | b4 | b5 ==> {
            &&& mask < 64
            &&& ((mask >> 0u8) & 1 == 1) == (b0 == 1)
            &&& ((mask >> 1u8) & 1 == 1) == (b1 == 2)
            &&& ((mask >> 2u8) & 1 == 1) == (b2 == 4)
            &&& ((mask >> 3u8) & 1 == 1) == (b3 == 8)
            &&& ((mask >> 4u8) & 1 == 1) == (b4 == 16)
            &&& ((mask >> 5u8) & 1 == 1) == (b5 == 32)
        }) by (bit_vector);
    }
    mask
}

/// The request that makes the keypad flash the given buttons: the flash
/// command byte, then the mask.
pub fn flash_keys_frame(flash: [bool; 6]) -> (frame: [u8; 2])
    ensures
        frame@ == seq![FLASH, spec_flash_mask(flash@)],
{
    let frame = [FLASH, flash_mask(flash)];
    assert(frame@ =~= seq![FLASH, spec_flash_mask(flash@)]);
    frame
}

/// The request that makes the keypad flash the buttons named in `flash`.
pub fn flash_key_frame(flash: FlashCommand) -> (frame: [u8; 2])
    ensures
        frame@ == seq![FLASH, spec_flash_mask(flash.flags())],
{
    flash_keys_frame(flash.to_array())
}

/// The request that makes the keypad store `combos`: the write command byte,
/// then the eight bytes of each combo, in button order.
pub fn write_keys_frame(combos: &[KeyCombo; 6]) -> (frame: [u8; 49])
    ensures
        frame@ == seq![WRITE_KEYS] + payload(combos@),
{
    let mut frame = [0u8; 49];
    frame[0] = WRITE_KEYS;
    let mut i: usize = 0;
    while i < 6
        invariant
            i <= 6,
            frame@[0] == WRITE_KEYS,
            forall|p: int|
                1 <= p < 1 + 8 * i ==> #[trigger] frame@[p] == combos@[(p - 1) / 8].encode()[(p
                    - 1) % 8],
        decreases 6 - i,
    {
        let bytes = combos[i].to_bytes();
        let mut j: usize = 0;
        while j < 8
            invariant
                i < 6,
                j <= 8,
                bytes@ == combos@[i as int].encode(),
                bytes@.len() == 8,
                frame@[0] == WRITE_KEYS,
                forall|p: int|
                    1 <= p < 1 + 8 * i + j ==> #[trigger] frame@[p] == combos@[(p - 1)
                        / 8].encode()[(p - 1) % 8],
            decreases 8 - j,
        {
            frame[1 + 8 * i + j] = bytes[j];
            j += 1;
        }
        i += 1;
    }
    assert(frame@ =~= seq![WRITE_KEYS] + payload(combos@));
    frame
}

/// Starts the search for a keypad among `ports` serial ports.
pub fn begin_detection(ports: usize) -> (d: Detection)
    ensures
        d == probe_from(ports as int, 0),
{
    if ports > 0 {
        Detection::Probe(0)
    } else {
        Detection::NoDeviceFound
    }
}

/// Goes on with the search after port `probed` was tried. `answered` tells
/// whether the port could be opened and answered the handshake. The first
/// port that answers ends the search; a port that does not is passed over.
pub fn continue_detection(ports: usize, probed: usize, answered: bool) -> (d: Detection)
    requires
        probed < ports,
    ensures
        d == if answered {
            Detection::Found(probed)
        } else {
            probe_from(ports as int, probed + 1)
        },
{
    if answered {
        Detection::Found(probed)
    } else if probed + 1 < ports {
        Detection::Probe(probed + 1)
    } else {
        Detection::NoDeviceFound
    }
}

/// Runs the search over ports whose answers are known: the position of the
/// first port that answered, or `NoDeviceFound` where none did.
pub fn first_answering(answers: &Vec<bool>) -> (r: Result<usize, KeypadError>)
    ensures
        r matches Ok(i) ==> is_first_answer(answers@, i as int),
        r is Err <==> forall|j: int| 0 <= j < answers@.len() ==> !#[trigger] answers@[j],
        r is Err ==> r == Err::<usize, KeypadError>(KeypadError::NoDeviceFound),
{
    let ports = answers.len();
    let mut at = begin_detection(ports);
    loop
        invariant
            ports == answers@.len(),
            match at {
                Detection::Probe(i) => i < ports && forall|j: int|
                    0 <= j < i ==> !#[trigger] answers@[j],
                Detection::Found(i) => is_first_answer(answers@, i as int),
                Detection::NoDeviceFound => forall|j: int|
                    0 <= j < ports ==> !#[trigger] answers@[j],
            },
        decreases
            match at {
                Detection::Probe(i) => ports - i + 1,
                _ => 0,
            },
    {
        match at {
            Detection::Probe(i) => {
                at = continue_detection(ports, i, answers[i]);
            },
            Detection::Found(i) => {
                return Ok(i);
            },
            Detection::NoDeviceFound => {
                return Err(KeypadError::NoDeviceFound);
            },
        }
    }
}

/// Interprets the single byte the keypad sends after a handshake or a flash
/// command. `None` stands for a reply that never came: the read failed or
/// ran out of time.
pub fn wait_for_acknowledge(reply: Option<u8>) -> (r: Result<(), KeypadError>)
    ensures
        r is Ok <==> reply == Some(ACK),
        r == Err::<(), KeypadError>(KeypadError::SerialCommunicationError) <==> reply is None,
        r == Err::<(), KeypadError>(KeypadError::NoAcknowledge) <==> (reply is Some
            && reply != Some(ACK)),
{
    match reply {
        None => Err(KeypadError::SerialCommunicationError),
        Some(byte) => if byte == ACK {
            Ok(())
        } else {
            Err(KeypadError::NoAcknowledge)
        },
    }
}

/// Decodes the keypad's report of its combos: each chunk of eight bytes is
/// one combo, in button order.
///
/// The first chunk that does not decode fails the whole report with
/// `InvalidDataError`. A report whose chunks all decode but are not six in
/// number fails with `WrongKeyCountFromDevice`.
pub fn read_combos(resp: &[u8]) -> (r: Result<[KeyCombo; 6], KeypadError>)
    requires
        resp@.len() % 8 == 0 || resp@.len() % 2 == 1,
    ensures
        r is Ok <==> all_chunks_decode(resp@) && chunk_count(resp@.len()) == 6,
        r matches Ok(combos) ==> forall|i: int|
            0 <= i < 6 ==> Ok::<KeyCombo, KeypadError>(#[trigger] combos@[i])
                == KeyCombo::spec_from_bytes(chunk(resp@, i)),
        r == Err::<[KeyCombo; 6], KeypadError>(KeypadError::InvalidDataError)
            <==> !all_chunks_decode(resp@),
        r == Err::<[KeyCombo; 6], KeypadError>(KeypadError::WrongKeyCountFromDevice) <==> (
        all_chunks_decode(resp@) && chunk_count(resp@.len()) != 6),
{
    let mut combos: Vec<KeyCombo> = Vec::new();
    let len = resp.len();
    let mut start: usize = 0;
    while start < len
        invariant
            len == resp@.len(),
            len % 8 == 0 || len % 2 == 1,
            start == 8 * combos@.len(),
            start <= len,
            forall|i: int|
                0 <= i < combos@.len() ==> Ok::<KeyCombo, KeypadError>(#[trigger] combos@[i])
                    == KeyCombo::spec_from_bytes(chunk(resp@, i)),
        decreases len - start,
    {
        let end = if len - start >= COMBO_LEN {
            start + COMBO_LEN
        } else {
            len
        };
        let piece = slice_subrange(resp, start, end);
        assert(piece@ == chunk(resp@, combos@.len() as int));
        match KeyCombo::from_bytes(piece) {
            Ok(combo) => {
                combos.push(combo);
            },
            Err(e) => {
                assert(!all_chunks_decode(resp@));
                return Err(e);
            },
        }
        start = end;
    }
    assert forall|i: int| 0 <= i < chunk_count(resp@.len()) implies (
    #[trigger] KeyCombo::spec_from_bytes(chunk(resp@, i))) is Ok by {
        assert(Ok::<KeyCombo, KeypadError>(combos@[i]) == KeyCombo::spec_from_bytes(
            chunk(resp@, i),
        ));
    }
    if combos.len() == BUTTON_COUNT {
        Ok([combos[0], combos[1], combos[2], combos[3], combos[4], combos[5]])
    } else {
        Err(KeypadError::WrongKeyCountFromDevice)
    }
}

/// The `i`-th chunk of a payload is the encoding of the `i`-th combo.
pub proof fn lemma_payload_chunk(combos: Seq<KeyCombo>, i: int)
    requires
        0 <= i < combos.len(),
    ensures
        payload(combos).len() == 8 * combos.len(),
        chunk(payload(combos), i) == combos[i].encode(),
{
    let bytes = payload(combos);
    let encoded = combos[i].encode();
    assert(encoded.len() == 8);
    assert(chunk(bytes, i).len() == 8);
    assert forall|j: int| 0 <= j < 8 implies chunk(bytes, i)[j] == encoded[j] by {
        assert((8 * i + j) / 8 == i && (8 * i + j) % 8 == j);
        assert(bytes[8 * i + j] == combos[(8 * i + j) / 8].encode()[(8 * i + j) % 8]);
    }
    assert(chunk(bytes, i) =~= encoded);
}

/// Decoding the payload of a write request gives the six combos back, in
/// button order: a keypad that echoes what it was sent is read as holding it.
pub proof fn lemma_payload_round_trip(combos: Seq<KeyCombo>)
    requires
        combos.len() == 6,
    ensures
        payload(combos).len() == RESPONSE_LEN,
        chunk_count(payload(combos).len()) == 6,
        all_chunks_decode(payload(combos)),
        forall|i: int|
            0 <= i < 6 ==> KeyCombo::spec_from_bytes(chunk(payload(combos), i)) == Ok::<
                KeyCombo,
                KeypadError,
            >(#[trigger] combos[i]),
{
    let bytes = payload(combos);
    assert forall|i: int| 0 <= i < 6 implies KeyCombo::spec_from_bytes(chunk(bytes, i)) == Ok::<
        KeyCombo,
        KeypadError,
    >(#[trigger] combos[i]) by {
        lemma_payload_chunk(combos, i);
        combos[i].lemma_round_trip();
    }
    assert forall|i: int| 0 <= i < chunk_count(bytes.len()) implies (
    #[trigger] KeyCombo::spec_from_bytes(chunk(bytes, i))) is Ok by {
        assert(KeyCombo::spec_from_bytes(chunk(bytes, i)) == Ok::<KeyCombo, KeypadError>(
            combos[i],
        ));
    }
}

} // verus!
