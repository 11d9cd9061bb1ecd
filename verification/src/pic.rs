//! The two cascaded 8259 interrupt controllers: which vectors each of them
//! raises, and which of them must hear that an interrupt has been served.
//!
//! The secondary controller is wired to a line of the primary one, so an
//! interrupt of the secondary passes through both, and both wait for its end.

use vstd::prelude::*;

verus! {

/// Command port of the primary controller.
pub const PIC1_COMMAND_PORT: u16 = 0x20;

/// Command port of the secondary controller.
pub const PIC2_COMMAND_PORT: u16 = 0xA0;

/// The command that ends an interrupt.
pub const CMD_END_OF_INTERRUPT: u8 = 0x20;

/// Number of interrupt lines on one controller.
pub const LINES_PER_PIC: u8 = 8;

/// Number of interrupt lines on the two controllers together.
pub const IRQ_LINES: u8 = 16;

/// Number of vectors that the processor keeps for its own exceptions.
pub const EXCEPTION_VECTORS: u8 = 32;

/// One byte to be written to one I/O port.
#[derive(Debug, Clone, Copy, PartialEq, Eq, Structural)]
pub struct PortWrite {
    pub port: u16,
    pub value: u8,
}

/// Why a pair of vector offsets is refused.
#[derive(Debug, Clone, Copy, PartialEq, Eq, Structural)]
pub enum RemapError {
    /// A controller's vectors would start among the processor's exceptions.
    ReservedVectors,
    /// A controller's vectors would run past the last vector.
    OutOfRange,
    /// The two controllers would share a vector.
    Overlap,
    /// The secondary controller's vectors would not follow the primary's.
    NotContiguous,
}

/// The vector offsets of the two controllers.
pub struct PicOffsets {
    pub primary: u8,
    pub secondary: u8,
}

/// Which controllers hear the end of an interrupt.
pub struct EoiRoute {
    pub primary: bool,
    pub secondary: bool,
}

impl PicOffsets {
    /// The offsets that a pair of controllers can be given: both lie above
    /// the processor's exceptions, and the secondary controller's eight
    /// vectors follow the primary's eight without a gap.
    pub open spec fn supported(self) -> bool {
        &&& self.primary >= EXCEPTION_VECTORS
        &&& self.secondary == self.primary + LINES_PER_PIC
        &&& self.secondary + LINES_PER_PIC <= 256
    }

    /// Why the offsets are refused, if they are.
    pub open spec fn refusal(self) -> Option<RemapError> {
        if self.primary < EXCEPTION_VECTORS || self.secondary < EXCEPTION_VECTORS {
            Some(RemapError::ReservedVectors)
        } else if self.primary + LINES_PER_PIC > 256 || self.secondary + LINES_PER_PIC > 256 {
            Some(RemapError::OutOfRange)
        } else if self.primary - LINES_PER_PIC < self.secondary < self.primary + LINES_PER_PIC {
            Some(RemapError::Overlap)
        } else if self.secondary != self.primary + LINES_PER_PIC {
            Some(RemapError::NotContiguous)
        } else {
            None
        }
    }

    /// The vector is raised by the primary controller.
    pub open spec fn on_primary(self, vector: u8) -> bool {
        self.primary <= vector < self.primary + LINES_PER_PIC
    }

    /// The vector is raised by the secondary controller.
    pub open spec fn on_secondary(self, vector: u8) -> bool {
        self.secondary <= vector < self.secondary + LINES_PER_PIC
    }

    /// The vector on which an interrupt line interrupts: the first eight
    /// lines are the primary controller's, the next eight the secondary's.
    pub open spec fn vector_of(self, irq: u8) -> int {
        if irq < LINES_PER_PIC {
            self.primary + irq
        } else {
            self.secondary + (irq - LINES_PER_PIC)
        }
    }

    /// The interrupt line that interrupts on a vector, if one does.
    pub open spec fn irq_of(self, vector: u8) -> Option<u8> {
        if self.on_primary(vector) {
            Some((vector - self.primary) as u8)
        } else if self.on_secondary(vector) {
            Some((vector - self.secondary + LINES_PER_PIC) as u8)
        } else {
            None
        }
    }

    /// The controllers that must hear the end of an interrupt on a vector:
    /// the primary for each vector of either controller, the secondary for
    /// its own, none for a vector that is not theirs.
    pub open spec fn route(self, vector: u8) -> EoiRoute {
        EoiRoute {
            primary: self.on_primary(vector) || self.on_secondary(vector),
            secondary: self.on_secondary(vector),
        }
    }

    /// Offsets are refused exactly where they are not supported.
    pub proof fn lemma_refused_iff_unsupported(self)
        ensures
            self.refusal() is None <==> self.supported(),
    {
    }

    /// With supported offsets no vector belongs to both controllers.
    pub proof fn lemma_ranges_never_overlap(self)
        requires
            self.supported(),
        ensures
            forall|vector: u8| !(self.on_primary(vector) && self.on_secondary(vector)),
    {
    }

    /// With supported offsets the sixteen lines interrupt on sixteen vectors
    /// in a row, above the processor's exceptions, and each of these vectors
    /// belongs to one line only.
    pub proof fn lemma_lines_on_vectors_in_a_row(self)
        requires
            self.supported(),
        ensures
            forall|irq: u8|
                irq < IRQ_LINES ==> #[trigger] self.vector_of(irq) == self.primary + irq
                    && EXCEPTION_VECTORS <= self.vector_of(irq) <= u8::MAX,
            forall|irq: u8|
                irq < IRQ_LINES ==> self.irq_of(#[trigger] self.vector_of(irq) as u8) == Some(irq),
            forall|vector: u8|
                self.irq_of(vector) is Some <==> self.primary <= vector < self.primary + IRQ_LINES,
            forall|vector: u8|
                self.irq_of(vector) is Some ==> self.vector_of(
                    #[trigger] self.irq_of(vector).unwrap(),
                ) == vector,
    {
    }

    /// The end of an interrupt of the secondary controller goes to both
    /// controllers, that of an interrupt of the primary to the primary alone.
    pub proof fn lemma_eoi_reaches_the_cascade(self, vector: u8)
        requires
            self.supported(),
        ensures
            self.on_secondary(vector) ==> self.route(vector) == (EoiRoute {
                primary: true,
                secondary: true,
            }),
            self.on_primary(vector) ==> self.route(vector) == (EoiRoute {
                primary: true,
                secondary: false,
            }),
    {
    }
}

impl EoiRoute {
    /// The port writes that carry the end of the interrupt: the secondary
    /// controller first, then the primary.
    pub open spec fn commands(self) -> Seq<PortWrite> {
        let to_secondary = if self.secondary {
            seq![PortWrite { port: PIC2_COMMAND_PORT, value: CMD_END_OF_INTERRUPT }]
        } else {
            Seq::<PortWrite>::empty()
        };
        let to_primary = if self.primary {
            seq![PortWrite { port: PIC1_COMMAND_PORT, value: CMD_END_OF_INTERRUPT }]
        } else {
            Seq::<PortWrite>::empty()
        };
        to_secondary + to_primary
    }
}

/// The pair of controllers with the vector offsets it has been given.
#[derive(Debug, Clone, Copy, PartialEq, Eq)]
pub struct PicPair {
    offset1: u8,
    offset2: u8,
}

impl View for PicPair {
    type V = PicOffsets;

    closed spec fn view(&self) -> PicOffsets {
        PicOffsets { primary: self.offset1, secondary: self.offset2 }
    }
}

/// What a served interrupt owes the controllers. Only `PicPair::acknowledge`
/// makes one, so a handler that must return one cannot leave without having
/// asked which controllers to notify.
#[must_use]
#[derive(Debug, Clone, Copy, PartialEq, Eq)]
pub struct Acknowledgement {
    primary: bool,
    secondary: bool,
}

impl View for Acknowledgement {
    type V = EoiRoute;

    closed spec fn view(&self) -> EoiRoute {
        EoiRoute { primary: self.primary, secondary: self.secondary }
    }
}

impl PicPair {
    #[verifier::type_invariant]
    spec fn offsets_supported(self) -> bool {
        self@.supported()
    }

    /// Gives the two controllers their vector offsets. The offsets are taken
    /// where they are supported, and refused with the reason where not.
    pub fn remap(offset1: u8, offset2: u8) -> (pair: Result<PicPair, RemapError>)
        ensures
            match pair {
                Ok(pics) => {
                    &&& pics@ == (PicOffsets { primary: offset1, secondary: offset2 })
                    &&& pics@.supported()
                    &&& forall|vector: u8| !(pics@.on_primary(vector) && pics@.on_secondary(vector))
                },
                Err(reason) => (PicOffsets { primary: offset1, secondary: offset2 }).refusal()
                    == Some(reason),
            },
            pair is Ok <==> (PicOffsets { primary: offset1, secondary: offset2 }).supported(),
    {
        let first: u16 = offset1 as u16;
        let second: u16 = offset2 as u16;
        let lines: u16 = LINES_PER_PIC as u16;
        if offset1 < EXCEPTION_VECTORS || offset2 < EXCEPTION_VECTORS {
            Err(RemapError::ReservedVectors)
        } else if first + lines > 256 || second + lines > 256 {
            Err(RemapError::OutOfRange)
        } else if second < first + lines && first < second + lines {
            Err(RemapError::Overlap)
        } else if second != first + lines {
            Err(RemapError::NotContiguous)
        } else {
            Ok(PicPair { offset1, offset2 })
        }
    }

    /// The first vector of the primary controller.
    pub fn primary_offset(&self) -> (offset: u8)
        ensures
            offset == self@.primary,
            self@.supported(),
    {
        proof {
            use_type_invariant(self);
        }
        self.offset1
    }

    /// The first vector of the secondary controller.
    pub fn secondary_offset(&self) -> (offset: u8)
        ensures
            offset == self@.secondary,
            self@.supported(),
    {
        proof {
            use_type_invariant(self);
        }
        self.offset2
    }

    /// Whether either controller raises the vector.
    pub fn handles_interrupt(&self, vector: u8) -> (handled: bool)
        ensures
            handled == (self@.on_primary(vector) || self@.on_secondary(vector)),
    {
        proof {
            use_type_invariant(self);
        }
        self.offset1 <= vector && vector - self.offset1 < 2 * LINES_PER_PIC
    }

    /// The vector on which an interrupt line interrupts, for the lines 0
    /// to 15.
    pub fn vector_for_irq(&self, irq: u8) -> (vector: Option<u8>)
        ensures
            vector == if irq < IRQ_LINES {
                Some(self@.vector_of(irq) as u8)
            } else {
                None
            },
    {
        proof {
            use_type_invariant(self);
        }
        if irq < LINES_PER_PIC {
            Some(self.offset1 + irq)
        } else if irq < IRQ_LINES {
            Some(self.offset2 + (irq - LINES_PER_PIC))
        } else {
            None
        }
    }

    /// The interrupt line that interrupts on a vector, if one does.
    pub fn irq_for_vector(&self, vector: u8) -> (irq: Option<u8>)
        ensures
            irq == self@.irq_of(vector),
    {
        proof {
            use_type_invariant(self);
        }
        if self.offset1 <= vector && vector - self.offset1 < LINES_PER_PIC {
            Some(vector - self.offset1)
        } else if self.offset2 <= vector && vector - self.offset2 < LINES_PER_PIC {
            Some(vector - self.offset2 + LINES_PER_PIC)
        } else {
            None
        }
    }

    /// Says which controllers must hear that the interrupt on a vector has
    /// been served.
    pub fn acknowledge(&self, vector: u8) -> (ack: Acknowledgement)
        ensures
            ack@ == self@.route(vector),
    {
        proof {
            use_type_invariant(self);
        }
        let secondary = self.offset2 <= vector && vector - self.offset2 < LINES_PER_PIC;
        let primary = secondary || (self.offset1 <= vector && vector - self.offset1 < LINES_PER_PIC);
        Acknowledgement { primary, secondary }
    }
}

impl Acknowledgement {
    #[verifier::type_invariant]
    spec fn through_primary(self) -> bool {
        self.secondary ==> self.primary
    }

    /// Whether the primary controller is told.
    pub fn notifies_primary(&self) -> (told: bool)
        ensures
            told == self@.primary,
    {
        self.primary
    }

    /// Whether the secondary controller is told.
    pub fn notifies_secondary(&self) -> (told: bool)
        ensures
            told == self@.secondary,
            told ==> self@.primary,
    {
        proof {
            use_type_invariant(self);
        }
        self.secondary
    }

    /// The port writes to perform, in order.
    pub fn port_writes(&self) -> (writes: Vec<PortWrite>)
        ensures
            writes@ == self@.commands(),
    {
        let mut writes: Vec<PortWrite> = Vec::new();
        if self.secondary {
            writes.push(PortWrite { port: PIC2_COMMAND_PORT, value: CMD_END_OF_INTERRUPT });
        }
        if self.primary {
            writes.push(PortWrite { port: PIC1_COMMAND_PORT, value: CMD_END_OF_INTERRUPT });
        }
        assert(writes@ =~= self@.commands());
        writes
    }
}

} // verus!
