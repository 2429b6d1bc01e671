//! The 8259A programmable interrupt controller: the port writes that program it
use vstd::prelude::*;

verus! {

/// Command port of the master controller
pub const MASTER: u16 = 0x20;

/// Command port of the slave controller
pub const SLAVE: u16 = 0xa0;

/// An unused port; writing to it waits for the controllers to take the previous write
pub const WAIT: u16 = 0x80;

/// The writes that initialize the controllers with interrupt vectors starting at `offset`,
/// in order: ICW1 to both, ICW2 (the vector offsets), ICW3 (the slave on IRQ2) and ICW4 (8086
/// mode), each followed by a wait.
pub open spec fn init_writes_spec(offset: u8) -> Seq<(u16, u8)> {
    seq![
        (MASTER, 0b0001_0001u8), (WAIT, 0u8), (SLAVE, 0b0001_0001u8), (WAIT, 0u8),
        ((MASTER + 1) as u16, offset), (WAIT, 0u8), ((SLAVE + 1) as u16, (offset + 8) as u8), (WAIT, 0u8),
        ((MASTER + 1) as u16, 0b0000_0100u8), (WAIT, 0u8),
        ((SLAVE + 1) as u16, 2u8), (WAIT, 0u8),
        ((MASTER + 1) as u16, 0b0000_0001u8), (WAIT, 0u8), ((SLAVE + 1) as u16, 0b0000_0001u8), (WAIT, 0u8),
    ]
}

/// Initialising the controllers sends each its four initialisation words in order, every
/// write followed by one to the wait port 0x80: ICW1 0x11 (initialise, ICW4 follows) to the
/// command ports 0x20 and 0xa0; then on the data ports 0x21 and 0xa1, ICW2, the first vector:
/// `offset` for the master and the next eight vectors for the slave; ICW3, the slave on the
/// master's IRQ 2 (bit 2 on the master, the number 2 on the slave); and ICW4 with bit 0 set,
/// 8086 mode.
pub proof fn lemma_init_sequence(offset: u8)
    requires
        offset % 8 == 0,
        offset <= 247,
    ensures
        init_writes_spec(offset).len() == 16,
        forall|i: int| 0 <= i < 8 ==> #[trigger] init_writes_spec(offset)[2 * i + 1] == (0x80u16, 0u8),
        init_writes_spec(offset)[0] == (0x20u16, 0x11u8),
        init_writes_spec(offset)[2] == (0xa0u16, 0x11u8),
        init_writes_spec(offset)[4] == (0x21u16, offset),
        init_writes_spec(offset)[6].0 == 0xa1u16,
        init_writes_spec(offset)[6].1 == offset + 8,
        init_writes_spec(offset)[8] == (0x21u16, 0b100u8),
        init_writes_spec(offset)[10] == (0xa1u16, 2u8),
        init_writes_spec(offset)[12] == (0x21u16, 1u8),
        init_writes_spec(offset)[14] == (0xa1u16, 1u8),
{
    assert forall|i: int| 0 <= i < 8 implies #[trigger] init_writes_spec(offset)[2 * i + 1] == (0x80u16, 0u8) by {
        assert(i == 0 || i == 1 || i == 2 || i == 3 || i == 4 || i == 5 || i == 6 || i == 7);
    }
}

/// The port writes that initialize the 8259A interrupt controllers with interrupt vectors
/// starting at `offset`, which must be a multiple of 8
pub fn init_writes(offset: u8) -> (writes: Vec<(u16, u8)>)
    requires
        offset % 8 == 0,
        offset <= 247,
    ensures
        writes@ == init_writes_spec(offset),
{
    let writes = vec![
        (MASTER, 0b0001_0001u8), (WAIT, 0u8), (SLAVE, 0b0001_0001u8), (WAIT, 0u8),
        (MASTER + 1, offset), (WAIT, 0u8), (SLAVE + 1, offset + 8), (WAIT, 0u8),
        (MASTER + 1, 0b0000_0100u8), (WAIT, 0u8),
        (SLAVE + 1, 2u8), (WAIT, 0u8),
        (MASTER + 1, 0b0000_0001u8), (WAIT, 0u8), (SLAVE + 1, 0b0000_0001u8), (WAIT, 0u8),
    ];
    writes
}

/// The port writes that set the interrupt mask `mask`.
pub open spec fn mask_writes_spec(mask: u16) -> Seq<(u16, u8)> {
    seq![((MASTER + 1) as u16, (mask & 0xff) as u8), ((SLAVE + 1) as u16, ((mask >> 8u16) & 0xff) as u8)]
}

/// The port writes that notify the end of interrupt `irq`.
pub open spec fn end_of_interrupt_spec(irq: u8) -> Seq<(u16, u8)> {
    if irq > 8 {
        seq![(SLAVE, 0b0010_0000u8), (MASTER, 0b0010_0000u8)]
    } else {
        seq![(MASTER, 0b0010_0000u8)]
    }
}

/// The port writes that set the interrupt mask: the low byte masks the master's lines, the
/// high byte the slave's
pub fn mask_writes(mask: u16) -> (writes: Vec<(u16, u8)>)
    ensures
        writes@ == mask_writes_spec(mask),
{
    let writes = vec![(MASTER + 1, (mask & 0xff) as u8), (SLAVE + 1, ((mask >> 8) & 0xff) as u8)];
    writes
}

/// The port writes that notify the end of interrupt `irq`: the slave is notified too for
/// lines above 8
pub fn end_of_interrupt_writes(irq: u8) -> (writes: Vec<(u16, u8)>)
    ensures
        writes@ == end_of_interrupt_spec(irq),
{
    let mut writes: Vec<(u16, u8)> = Vec::new();
    if irq > 8 {
        writes.push((SLAVE, 0b0010_0000u8));
    }
    writes.push((MASTER, 0b0010_0000u8));
    writes
}

/// Setting a mask writes its low byte to the master's data port 0x21 and its high byte to the
/// slave's 0xa1: the two bytes make up the mask again.
pub proof fn lemma_mask_round_trip(mask: u16)
    ensures
        mask_writes_spec(mask).len() == 2,
        mask_writes_spec(mask)[0].0 == 0x21 && mask_writes_spec(mask)[1].0 == 0xa1,
        mask_writes_spec(mask)[0].1 + mask_writes_spec(mask)[1].1 * 0x100 == mask,
{
    assert(((mask & 0xff) as u8) + (((mask >> 8u16) & 0xff) as u8) * 0x100 == mask) by (bit_vector);
}

/// The end of an interrupt is always acknowledged to the master (command 0x20, non-specific
/// EOI, on port 0x20), last; for interrupts above 8 the slave on port 0xa0 is acknowledged
/// first.
pub proof fn lemma_end_of_interrupt(irq: u8)
    ensures
        end_of_interrupt_spec(irq).len() == if irq > 8 { 2int } else { 1int },
        end_of_interrupt_spec(irq).last() == (0x20u16, 0x20u8),
        irq > 8 ==> end_of_interrupt_spec(irq)[0] == (0xa0u16, 0x20u8),
{
}

/// The interrupt mask with only the serial port (IRQ4) unmasked
pub const SERIAL_ONLY_MASK: u16 = 0b1111_1111_1110_1111;

/// The interrupt mask with the timer (IRQ0) and the serial port (IRQ4) unmasked
pub const TIMER_AND_SERIAL_MASK: u16 = 0b1111_1111_1110_1110;

/// The mask that enables the timer interrupt besides the serial port
pub fn enable_timer() -> (writes: Vec<(u16, u8)>)
    ensures
        writes@ == seq![((MASTER + 1) as u16, (TIMER_AND_SERIAL_MASK & 0xff) as u8), ((SLAVE + 1) as u16, ((TIMER_AND_SERIAL_MASK >> 8u16) & 0xff) as u8)],
{
    mask_writes(TIMER_AND_SERIAL_MASK)
}

} // verus!
