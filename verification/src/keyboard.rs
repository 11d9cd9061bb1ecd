//! The keyboard decoder: scancode bytes in, decoded keys out.
//!
//! The translation of scancodes is the work of the `pc-keyboard` engine, set
//! up for scancode set 1 and a US 104-key layout. This module feeds it one
//! byte at a time, absorbs what it rejects, and says how a decoded key is
//! shown on the console.

use vstd::prelude::*;
use vstd::utf8::encode_utf8;
use pc_keyboard::layouts::Us104Key;
use pc_keyboard::{Error, HandleControl, KeyCode, KeyEvent, Keyboard, ScancodeSet1};
use crate::console_laws::lemma_write_bytes_push;
use crate::vga_text::{Writer, PLACEHOLDER};

verus! {

/// Port from which the keyboard controller hands over one scancode byte.
pub const KEYBOARD_DATA_PORT: u16 = 0x60;

/// The scancode engine: `pc_keyboard::Keyboard` for the US 104-key layout
/// and scancode set 1, with its decode state and the modifier keys it has
/// seen. Its inside is not read here.
#[verifier::external_body]
pub struct ScancodeEngine {
    keyboard: Keyboard<Us104Key, ScancodeSet1>,
}

/// `pc_keyboard::KeyEvent`, a key together with whether it went down or up.
/// Its inside is not read here.
#[verifier::external_type_specification]
#[verifier::external_body]
pub struct ExKeyEvent(KeyEvent);

/// `pc_keyboard::Error`, the reason for which the engine rejects a byte. Its
/// inside is not read here.
#[verifier::external_type_specification]
#[verifier::external_body]
pub struct ExError(Error);

/// `pc_keyboard::KeyCode`, the name of a key. Its inside is not read here.
#[verifier::external_type_specification]
#[verifier::external_body]
pub struct ExKeyCode(KeyCode);

/// A decoded key: a character, or the name of a key that has none.
#[derive(Debug, Clone, Copy, PartialEq, Eq)]
pub enum DecodedKey {
    Unicode(char),
    RawKey(KeyCode),
}

/// What the engine makes of a letter that is typed while a control key is
/// held.
#[derive(Debug, Clone, Copy, PartialEq, Eq, Structural)]
pub enum ControlHandling {
    /// The letter stays the letter.
    Ignore,
    /// The letters A to Z become the control characters U+0001 to U+001A.
    MapLettersToUnicode,
}

/// The engine that `Keyboard::new` makes for the US 104-key layout and
/// scancode set 1 with a given handling of the control keys: at the start of
/// a scancode, with no modifier key held.
pub uninterp spec fn fresh_engine(handling: ControlHandling) -> ScancodeEngine;

/// What `Keyboard::add_byte` makes of a byte in a given engine state: the
/// engine state afterwards, and what the call returns.
pub uninterp spec fn scancode_outcome(engine: ScancodeEngine, byte: u8) -> (
    ScancodeEngine,
    Result<Option<KeyEvent>, Error>,
);

/// What `Keyboard::process_keyevent` makes of a key event in a given engine
/// state: the engine state afterwards, and the key it decodes to, if any.
pub uninterp spec fn key_event_outcome(engine: ScancodeEngine, event: KeyEvent) -> (
    ScancodeEngine,
    Option<DecodedKey>,
);

/// The name under which `KeyCode`'s `Debug` form shows a key.
pub uninterp spec fn key_code_name(code: KeyCode) -> Seq<char>;

/// `Keyboard::new` for the US 104-key layout and scancode set 1: the engine
/// it makes depends on the handling of the control keys alone. The handling
/// goes to the call in the engine's own type, variant for variant.
#[verifier::external_body]
fn engine_new(handling: ControlHandling) -> (engine: ScancodeEngine)
    ensures
        engine == fresh_engine(handling),
{
    let handle_ctrl = match handling {
        ControlHandling::Ignore => HandleControl::Ignore,
        ControlHandling::MapLettersToUnicode => HandleControl::MapLettersToUnicode,
    };
    ScancodeEngine { keyboard: Keyboard::new(Us104Key, ScancodeSet1, handle_ctrl) }
}

/// `Keyboard::add_byte`: what it returns and the state it leaves depend on
/// the state before and on the byte alone. With scancode set 1 the engine
/// only ever is at the start of a code or behind an extension byte, and in
/// both states the call returns for every byte.
#[verifier::external_body]
fn engine_add_byte(engine: &mut ScancodeEngine, byte: u8) -> (outcome: Result<
    Option<KeyEvent>,
    Error,
>)
    ensures
        (*final(engine), outcome) == scancode_outcome(*old(engine), byte),
{
    engine.keyboard.add_byte(byte)
}

/// `Keyboard::process_keyevent`: what it returns and the state it leaves
/// depend on the state before and on the event alone. The key comes back in
/// this library's own type, variant for variant.
#[verifier::external_body]
fn engine_process_keyevent(engine: &mut ScancodeEngine, event: KeyEvent) -> (key: Option<
    DecodedKey,
>)
    ensures
        (*final(engine), key) == key_event_outcome(*old(engine), event),
{
    match engine.keyboard.process_keyevent(event) {
        Some(pc_keyboard::DecodedKey::Unicode(character)) => Some(DecodedKey::Unicode(character)),
        Some(pc_keyboard::DecodedKey::RawKey(code)) => Some(DecodedKey::RawKey(code)),
        None => None,
    }
}

/// The `Debug` form of a `KeyCode`, which is the key's name.
#[verifier::external_body]
fn key_name(code: KeyCode) -> (name: String)
    ensures
        name@ == key_code_name(code),
{
    format!("{:?}", code)
}

/// The key event that an outcome of the engine completes: the event where
/// there is one, nothing where the code is not complete yet or the engine
/// rejected the byte.
pub open spec fn completed(outcome: Result<Option<KeyEvent>, Error>) -> Option<KeyEvent> {
    match outcome {
        Ok(Some(event)) => Some(event),
        _ => None,
    }
}

/// Takes the completed key event out of an outcome of the engine. A rejected
/// byte is absorbed: it completes nothing and is not reported.
pub fn completed_event(outcome: Result<Option<KeyEvent>, Error>) -> (event: Option<KeyEvent>)
    ensures
        event == completed(outcome),
{
    match outcome {
        Ok(Some(event)) => Some(event),
        Ok(None) => None,
        Err(_) => None,
    }
}

/// One step of the decoder: the engine takes the byte, and where that
/// completes a key event, the engine decodes the event.
pub open spec fn decode_step(engine: ScancodeEngine, byte: u8) -> (
    ScancodeEngine,
    Option<DecodedKey>,
) {
    let (after_byte, outcome) = scancode_outcome(engine, byte);
    match completed(outcome) {
        Some(event) => key_event_outcome(after_byte, event),
        None => (after_byte, None),
    }
}

/// The keyboard decoder. It keeps what the engine has seen so far, so that a
/// code of several bytes is put together over several calls.
pub struct KeyboardDecoder {
    engine: ScancodeEngine,
}

impl View for KeyboardDecoder {
    type V = ScancodeEngine;

    closed spec fn view(&self) -> ScancodeEngine {
        self.engine
    }
}

impl KeyboardDecoder {
    /// A decoder with a fresh engine, which leaves a letter typed with a
    /// control key as the letter.
    pub fn new() -> (decoder: KeyboardDecoder)
        ensures
            decoder@ == fresh_engine(ControlHandling::Ignore),
    {
        KeyboardDecoder { engine: engine_new(ControlHandling::Ignore) }
    }

    /// Feeds one scancode byte. Returns the decoded key where the byte
    /// completes one, and nothing where the code is not complete yet, where
    /// the event has no key of its own, or where the engine rejects the byte.
    pub fn feed(&mut self, byte: u8) -> (key: Option<DecodedKey>)
        ensures
            (final(self)@, key) == decode_step(old(self)@, byte),
    {
        let outcome = engine_add_byte(&mut self.engine, byte);
        match completed_event(outcome) {
            Some(event) => engine_process_keyevent(&mut self.engine, event),
            None => None,
        }
    }
}

/// The text under which a decoded key is shown: the character itself, or the
/// name of the key.
pub open spec fn key_text(key: DecodedKey) -> Seq<u8> {
    match key {
        DecodedKey::Unicode(character) => encode_utf8(seq![character]),
        DecodedKey::RawKey(code) => encode_utf8(key_code_name(code)),
    }
}

/// The UTF-8 form of an ASCII character is its own code, and every byte of
/// the UTF-8 form of any other character lies above ASCII.
proof fn lemma_bytes_of_scalar(scalar: u32)
    requires
        vstd::utf8::is_scalar(scalar),
    ensures
        scalar < 0x80 ==> vstd::utf8::encode_scalar(scalar) == seq![scalar as u8],
        scalar >= 0x80 ==> forall|i: int|
            0 <= i < vstd::utf8::encode_scalar(scalar).len() ==> #[trigger] vstd::utf8::encode_scalar(
                scalar,
            )[i] >= 0x80,
        scalar >= 0x80 ==> vstd::utf8::encode_scalar(scalar).len() == if scalar < 0x800 {
            2int
        } else if scalar < 0x10000 {
            3int
        } else {
            4int
        },
{
    assert(scalar < 0x80 ==> (scalar & 0x7F) as u8 == scalar as u8) by (bit_vector);
    assert((0xC0u8 | ((scalar >> 6) & 0x1F) as u8) >= 0x80) by (bit_vector);
    assert((0xE0u8 | ((scalar >> 12) & 0x0F) as u8) >= 0x80) by (bit_vector);
    assert((0xF0u8 | ((scalar >> 18) & 0x7) as u8) >= 0x80) by (bit_vector);
    assert((0x80u8 | (scalar & 0x3F) as u8) >= 0x80) by (bit_vector);
    assert((0x80u8 | ((scalar >> 6) & 0x3F) as u8) >= 0x80) by (bit_vector);
    assert((0x80u8 | ((scalar >> 12) & 0x3F) as u8) >= 0x80) by (bit_vector);
}

/// Shows a character on the console as a string of that one character would
/// be shown: an ASCII character as its glyph or as a scroll, any other as one
/// placeholder for each byte of its UTF-8 form.
pub fn print_char(writer: &mut Writer, character: char)
    ensures
        final(writer)@ == old(writer)@.write_bytes(encode_utf8(seq![character])),
        final(writer)@.wf(),
{
    let scalar: u32 = character as u32;
    let ghost bytes = vstd::utf8::encode_scalar(scalar);
    proof {
        vstd::utf8::char_is_scalar(character);
        lemma_bytes_of_scalar(scalar);
        assert(seq![character].drop_first() =~= Seq::<char>::empty());
        assert(encode_utf8(Seq::<char>::empty()) =~= Seq::<u8>::empty());
        assert(encode_utf8(seq![character]) =~= bytes);
    }
    if scalar < 0x80 {
        let byte: u8 = scalar as u8;
        proof {
            assert(Seq::<u8>::empty().push(byte) =~= bytes);
            lemma_write_bytes_push(old(writer)@, Seq::<u8>::empty(), byte);
        }
        writer.write_byte(byte);
    } else {
        let count: usize = if scalar < 0x800 {
            2
        } else if scalar < 0x10000 {
            3
        } else {
            4
        };
        proof {
            assert(bytes.take(0) =~= Seq::<u8>::empty());
        }
        let mut written: usize = 0;
        while written < count
            invariant
                written <= count,
                count == bytes.len(),
                count >= 2,
                forall|i: int| 0 <= i < bytes.len() ==> #[trigger] bytes[i] >= 0x80,
                writer@ == old(writer)@.write_bytes(bytes.take(written as int)),
                written > 0 ==> writer@.wf(),
            decreases count - written,
        {
            proof {
                let next = bytes[written as int];
                assert(bytes.take(written + 1) =~= bytes.take(written as int).push(next));
                lemma_write_bytes_push(old(writer)@, bytes.take(written as int), next);
                assert(writer@.write_byte(next) == writer@.write_byte(PLACEHOLDER));
            }
            writer.write_byte(PLACEHOLDER);
            written += 1;
        }
        proof {
            assert(bytes.take(count as int) =~= bytes);
        }
    }
}

/// Shows a decoded key on the console: a character as itself, a key without
/// a character by its name.
pub fn print_key(writer: &mut Writer, key: DecodedKey)
    ensures
        final(writer)@ == old(writer)@.write_bytes(key_text(key)),
        final(writer)@.wf(),
{
    match key {
        DecodedKey::Unicode(character) => {
            print_char(writer, character);
        },
        DecodedKey::RawKey(code) => {
            let name = key_name(code);
            writer.write_string(name.as_str());
        },
    }
}

} // verus!
