//! Interrupt dispatch: the trap table, the vectors of the hardware lines, and
//! what each handler does with the console, the keyboard decoder and the
//! controllers.
//!
//! A handler for a hardware line returns an `Acknowledgement`. Its caller
//! performs the port writes that the acknowledgement holds, also where the
//! handler found nothing to do.

use vstd::prelude::*;
use vstd::string::StringSliceAdditionalSpecFns;
use crate::keyboard::{decode_step, key_text, print_key, DecodedKey, KeyboardDecoder};
use crate::pic::{Acknowledgement, PicOffsets, PicPair};
use crate::vga_text::{ConsoleState, Writer, NEWLINE};

verus! {

/// First vector of the primary controller: the hardware lines follow the
/// processor's 32 exception vectors.
pub const PIC_1_OFFSET: u8 = 32;

/// First vector of the secondary controller.
pub const PIC_2_OFFSET: u8 = PIC_1_OFFSET + 8;

/// The vector of the breakpoint exception.
pub const BREAKPOINT_VECTOR: u8 = 3;

/// Number of slots in the trap table.
pub const VECTOR_COUNT: usize = 256;

/// The hardware lines that have a handler.
#[derive(Debug, Clone, Copy, PartialEq, Eq, Structural)]
pub enum InterruptIndex {
    /// Line 0, the interval timer.
    Timer,
    /// Line 1, the keyboard.
    Keyboard,
}

impl InterruptIndex {
    /// The vector on which the line interrupts.
    pub open spec fn vector(self) -> u8 {
        match self {
            InterruptIndex::Timer => PIC_1_OFFSET,
            InterruptIndex::Keyboard => (PIC_1_OFFSET + 1) as u8,
        }
    }

    /// The vector on which the line interrupts.
    pub fn as_u8(self) -> (vector: u8)
        ensures
            vector == self.vector(),
    {
        match self {
            InterruptIndex::Timer => PIC_1_OFFSET,
            InterruptIndex::Keyboard => PIC_1_OFFSET + 1,
        }
    }

    /// The vector as an index into the trap table.
    pub fn as_usize(self) -> (index: usize)
        ensures
            index == self.vector(),
            index < VECTOR_COUNT,
    {
        self.as_u8() as usize
    }
}

/// The handlers that a slot of the trap table can be bound to.
#[derive(Debug, Clone, Copy, PartialEq, Eq, Structural)]
pub enum Handler {
    /// Reports the machine context at a breakpoint and resumes.
    Breakpoint,
    /// Serves the interval timer.
    Timer,
    /// Serves the keyboard.
    Keyboard,
}

/// The handler that each vector is bound to: the breakpoint vector, the timer
/// line and the keyboard line have one, and every other vector is left to
/// the processor's own fault handling.
pub open spec fn bound_handler(vector: int) -> Option<Handler> {
    if vector == BREAKPOINT_VECTOR {
        Some(Handler::Breakpoint)
    } else if vector == InterruptIndex::Timer.vector() {
        Some(Handler::Timer)
    } else if vector == InterruptIndex::Keyboard.vector() {
        Some(Handler::Keyboard)
    } else {
        None
    }
}

/// Each handler sits on one vector only, and with the controllers at their
/// usual offsets the timer and the keyboard sit on the vectors of lines 0
/// and 1.
pub proof fn lemma_hardware_vectors_distinct()
    ensures
        forall|vector: int|
            bound_handler(vector) == Some(Handler::Timer) <==> vector == PIC_1_OFFSET,
        forall|vector: int|
            bound_handler(vector) == Some(Handler::Keyboard) <==> vector == PIC_1_OFFSET + 1,
        forall|vector: int|
            bound_handler(vector) == Some(Handler::Breakpoint) <==> vector == BREAKPOINT_VECTOR,
        (PicOffsets { primary: PIC_1_OFFSET, secondary: PIC_2_OFFSET }).supported(),
        (PicOffsets { primary: PIC_1_OFFSET, secondary: PIC_2_OFFSET }).vector_of(0)
            == InterruptIndex::Timer.vector(),
        (PicOffsets { primary: PIC_1_OFFSET, secondary: PIC_2_OFFSET }).vector_of(1)
            == InterruptIndex::Keyboard.vector(),
{
}

/// What the trap table holds: the handler of each vector, and whether the
/// table has been made the processor's live table.
pub struct TrapTableState {
    pub slots: Seq<Option<Handler>>,
    pub active: bool,
}

impl TrapTableState {
    /// The table has a slot for each vector, bound as `bound_handler` says.
    pub open spec fn wf(self) -> bool {
        &&& self.slots.len() == VECTOR_COUNT
        &&& forall|vector: int|
            0 <= vector < VECTOR_COUNT ==> #[trigger] self.slots[vector] == bound_handler(vector)
    }
}

/// Why the trap table was not made live.
#[derive(Debug, Clone, Copy, PartialEq, Eq, Structural)]
pub enum ActivationError {
    /// The table is live already; it is loaded once and never again.
    AlreadyActive,
}

/// The trap table: one slot for each of the 256 vectors.
pub struct TrapTable {
    slots: [Option<Handler>; VECTOR_COUNT],
    active: bool,
}

impl View for TrapTable {
    type V = TrapTableState;

    closed spec fn view(&self) -> TrapTableState {
        TrapTableState { slots: self.slots@, active: self.active }
    }
}

impl TrapTable {
    #[verifier::type_invariant]
    spec fn bindings_fixed(self) -> bool {
        self@.wf()
    }

    /// Builds the table: the breakpoint vector, the timer line and the
    /// keyboard line are bound to their handlers, every other slot is empty.
    /// The table is not live yet.
    pub fn initialize() -> (table: TrapTable)
        ensures
            table@.wf(),
            !table@.active,
    {
        let mut slots: [Option<Handler>; VECTOR_COUNT] = [None; VECTOR_COUNT];
        slots[InterruptIndex::Timer.as_usize()] = Some(Handler::Timer);
        slots[InterruptIndex::Keyboard.as_usize()] = Some(Handler::Keyboard);
        slots[BREAKPOINT_VECTOR as usize] = Some(Handler::Breakpoint);
        TrapTable { slots, active: false }
    }

    /// The handler that a vector is bound to, if it has one. A vector
    /// without one is not served: it is left to the processor's own fault
    /// handling.
    pub fn handler(&self, vector: u8) -> (handler: Option<Handler>)
        ensures
            handler == bound_handler(vector as int),
            handler == self@.slots[vector as int],
            self@.wf(),
    {
        proof {
            use_type_invariant(self);
        }
        self.slots[vector as usize]
    }

    /// Whether the table has been made the processor's live table.
    pub fn is_active(&self) -> (active: bool)
        ensures
            active == self@.active,
    {
        self.active
    }
}

/// Makes the trap table the processor's live table, once. On `Ok` the caller
/// loads the table into the processor; a table that is live already is left
/// as it is and the call is refused.
pub fn init_idt(table: &mut TrapTable) -> (loaded: Result<(), ActivationError>)
    ensures
        loaded is Ok <==> !old(table)@.active,
        loaded is Err ==> loaded == Err::<(), ActivationError>(ActivationError::AlreadyActive),
        final(table)@ == (TrapTableState { slots: old(table)@.slots, active: true }),
        final(table)@.wf(),
{
    proof {
        use_type_invariant(&*table);
    }
    if table.active {
        Err(ActivationError::AlreadyActive)
    } else {
        table.active = true;
        Ok(())
    }
}

/// The first line of a breakpoint report.
pub open spec fn breakpoint_banner() -> Seq<u8> {
    "EXCEPTION: BREAKPOINT\n".spec_bytes()
}

/// Serves a breakpoint: reports it on the console, followed by the machine
/// context as its caller has put it into words, and a line feed. Nothing is
/// acknowledged, as no controller raised it.
pub fn breakpoint_handler(writer: &mut Writer, context: &str)
    ensures
        final(writer)@ == old(writer)@.write_bytes(breakpoint_banner()).write_bytes(
            context.spec_bytes(),
        ).new_line(),
        final(writer)@.wf(),
{
    writer.write_string("EXCEPTION: BREAKPOINT\n");
    writer.write_string(context);
    writer.write_byte(NEWLINE);
}

/// Serves the timer line: there is nothing to do but to acknowledge.
pub fn timer_interrupt_handler(pics: &PicPair) -> (ack: Acknowledgement)
    ensures
        ack@ == pics@.route(InterruptIndex::Timer.vector()),
{
    pics.acknowledge(InterruptIndex::Timer.as_u8())
}

/// What the console shows after a step of the decoder: the key's text where a
/// key was decoded, nothing new where none was.
pub open spec fn key_shown(state: ConsoleState, key: Option<DecodedKey>) -> ConsoleState {
    match key {
        Some(key) => state.write_bytes(key_text(key)),
        None => state,
    }
}

/// Serves the keyboard line with the scancode byte read from the keyboard's
/// data port: the decoder takes the byte, a key that it completes is shown
/// on the console, and the line is acknowledged whatever the decoder made of
/// the byte.
pub fn keyboard_interrupt_handler(
    keyboard: &mut KeyboardDecoder,
    writer: &mut Writer,
    pics: &PicPair,
    scancode: u8,
) -> (ack: Acknowledgement)
    ensures
        ack@ == pics@.route(InterruptIndex::Keyboard.vector()),
        final(keyboard)@ == decode_step(old(keyboard)@, scancode).0,
        final(writer)@ == key_shown(old(writer)@, decode_step(old(keyboard)@, scancode).1),
{
    match keyboard.feed(scancode) {
        Some(key) => {
            print_key(writer, key);
        },
        None => {},
    }
    pics.acknowledge(InterruptIndex::Keyboard.as_u8())
}

} // verus!
