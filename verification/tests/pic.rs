use optios::pic::{
    PicPair, PortWrite, RemapError, CMD_END_OF_INTERRUPT, PIC1_COMMAND_PORT, PIC2_COMMAND_PORT,
};

fn standard() -> PicPair {
    PicPair::remap(32, 40).unwrap()
}

const TO_PRIMARY: PortWrite = PortWrite { port: 0x20, value: 0x20 };
const TO_SECONDARY: PortWrite = PortWrite { port: 0xa0, value: 0x20 };

#[test]
fn remap_takes_the_usual_offsets() {
    let pics = standard();
    assert_eq!(pics.primary_offset(), 32);
    assert_eq!(pics.secondary_offset(), 40);
}

#[test]
fn remap_takes_every_contiguous_pair_above_the_exceptions() {
    for offset in 32u8..=240 {
        let pics = PicPair::remap(offset, offset + 8).unwrap();
        assert_eq!(pics.primary_offset(), offset);
        assert_eq!(pics.secondary_offset(), offset + 8);
    }
}

#[test]
fn remap_refuses_the_exception_range() {
    assert_eq!(PicPair::remap(0, 8), Err(RemapError::ReservedVectors));
    assert_eq!(PicPair::remap(8, 0x70), Err(RemapError::ReservedVectors));
    assert_eq!(PicPair::remap(31, 39), Err(RemapError::ReservedVectors));
    assert_eq!(PicPair::remap(40, 31), Err(RemapError::ReservedVectors));
    assert_eq!(PicPair::remap(24, 32), Err(RemapError::ReservedVectors));
}

#[test]
fn remap_refuses_ranges_past_the_last_vector() {
    assert_eq!(PicPair::remap(241, 249), Err(RemapError::OutOfRange));
    assert_eq!(PicPair::remap(249, 32), Err(RemapError::OutOfRange));
    assert_eq!(PicPair::remap(255, 255), Err(RemapError::OutOfRange));
}

#[test]
fn remap_refuses_overlapping_ranges() {
    assert_eq!(PicPair::remap(32, 32), Err(RemapError::Overlap));
    assert_eq!(PicPair::remap(32, 39), Err(RemapError::Overlap));
    assert_eq!(PicPair::remap(39, 32), Err(RemapError::Overlap));
    assert_eq!(PicPair::remap(40, 33), Err(RemapError::Overlap));
}

#[test]
fn remap_refuses_ranges_that_do_not_follow_each_other() {
    assert_eq!(PicPair::remap(32, 48), Err(RemapError::NotContiguous));
    assert_eq!(PicPair::remap(40, 32), Err(RemapError::NotContiguous));
    assert_eq!(PicPair::remap(32, 41), Err(RemapError::NotContiguous));
    assert_eq!(PicPair::remap(248, 240), Err(RemapError::NotContiguous));
}

#[test]
fn remap_never_gives_overlapping_ranges() {
    for offset1 in 0u8..=255 {
        for offset2 in 0u8..=255 {
            if let Ok(pics) = PicPair::remap(offset1, offset2) {
                for vector in 0u8..=255 {
                    let ack = pics.acknowledge(vector);
                    let on_secondary = ack.notifies_secondary();
                    let on_primary = ack.notifies_primary() && !on_secondary;
                    assert_eq!(on_primary, (offset1..=offset1 + 7).contains(&vector));
                    assert_eq!(on_secondary, (offset2..=offset2.saturating_add(7)).contains(&vector));
                }
            }
        }
    }
}

#[test]
fn primary_interrupts_are_acknowledged_to_the_primary_alone() {
    let pics = standard();
    for vector in 32u8..40 {
        let ack = pics.acknowledge(vector);
        assert!(ack.notifies_primary());
        assert!(!ack.notifies_secondary());
        assert_eq!(ack.port_writes(), vec![TO_PRIMARY]);
    }
}

#[test]
fn secondary_interrupts_are_acknowledged_to_both_chips() {
    let pics = standard();
    for vector in 40u8..48 {
        let ack = pics.acknowledge(vector);
        assert!(ack.notifies_primary());
        assert!(ack.notifies_secondary());
        assert_eq!(ack.port_writes(), vec![TO_SECONDARY, TO_PRIMARY]);
    }
}

#[test]
fn other_vectors_are_acknowledged_to_no_chip() {
    let pics = standard();
    for vector in (0u8..32).chain(48..=255) {
        let ack = pics.acknowledge(vector);
        assert!(!ack.notifies_primary());
        assert!(!ack.notifies_secondary());
        assert_eq!(ack.port_writes(), vec![]);
        assert!(!pics.handles_interrupt(vector));
    }
}

#[test]
fn handles_interrupt_covers_both_ranges() {
    let pics = standard();
    for vector in 32u8..48 {
        assert!(pics.handles_interrupt(vector));
    }
    assert!(!pics.handles_interrupt(31));
    assert!(!pics.handles_interrupt(48));
}

#[test]
fn the_highest_offsets_reach_the_last_vector() {
    let pics = PicPair::remap(240, 248).unwrap();
    assert!(pics.handles_interrupt(255));
    assert_eq!(pics.acknowledge(255).port_writes(), vec![TO_SECONDARY, TO_PRIMARY]);
    assert_eq!(pics.acknowledge(247).port_writes(), vec![TO_PRIMARY]);
    assert_eq!(pics.acknowledge(239).port_writes(), vec![]);
}

#[test]
fn command_ports_and_command_byte_are_those_of_the_hardware() {
    assert_eq!(PIC1_COMMAND_PORT, 0x20);
    assert_eq!(PIC2_COMMAND_PORT, 0xa0);
    assert_eq!(CMD_END_OF_INTERRUPT, 0x20);
}

#[test]
fn lines_and_vectors_map_onto_each_other() {
    let pics = standard();
    for irq in 0u8..16 {
        assert_eq!(pics.vector_for_irq(irq), Some(32 + irq));
        assert_eq!(pics.irq_for_vector(32 + irq), Some(irq));
    }
    assert_eq!(pics.vector_for_irq(16), None);
    assert_eq!(pics.vector_for_irq(255), None);
    assert_eq!(pics.irq_for_vector(31), None);
    assert_eq!(pics.irq_for_vector(48), None);
    assert_eq!(pics.irq_for_vector(3), None);
    let high = PicPair::remap(240, 248).unwrap();
    assert_eq!(high.vector_for_irq(15), Some(255));
    assert_eq!(high.irq_for_vector(255), Some(15));
    assert_eq!(high.irq_for_vector(248), Some(8));
    assert_eq!(high.irq_for_vector(239), None);
}
