//! A serial port driver: the port writes that program a 16550 UART
use vstd::prelude::*;

verus! {

/// The writes that set the port at `port` up (38400 baud, 8 bits, no parity, one stop bit,
/// FIFOs on) and enable its Received Data Available interrupt; none where that interrupt is
/// already enabled, `interrupt_enable` being what the interrupt enable register reads.
pub open spec fn init_writes_spec(port: u16, interrupt_enable: u8) -> Seq<(u16, u8)> {
    if interrupt_enable & 1u8 == 0 {
        seq![
            ((port + 1) as u16, 0x00u8), ((port + 3) as u16, 0x80u8), (port, 0x03u8), ((port + 1) as u16, 0x00u8),
            ((port + 3) as u16, 0x03u8), ((port + 2) as u16, 0xc7u8), ((port + 4) as u16, 0x0bu8),
            ((port + 4) as u16, 0x0fu8), ((port + 1) as u16, 0x01u8),
        ]
    } else {
        Seq::empty()
    }
}

/// Setting a port up programs a 38400 baud line of 8 data bits, no parity and one stop bit:
/// interrupts off; with the divisor latch open (line control bit 7) the divisor 3 (115200 /
/// 38400), low byte to the data port and high byte to port + 1; then line control with word
/// length bits 0 and 1 = 0b11 (8 bits), bit 2 clear (one stop bit), bits 3..6 clear (no parity)
/// and the latch closed; FIFO control 0xc7 (FIFOs on and cleared, 14-byte trigger level);
/// modem control with DTR, RTS and OUT2 (which routes the interrupt) set, then OUT1 too; the
/// last write enables the Received Data Available interrupt. A port whose interrupt is enabled
/// already is left as it is.
pub proof fn lemma_line_setup(port: u16, interrupt_enable: u8)
    requires
        port <= 0xffff - 4,
    ensures
        interrupt_enable & 1u8 != 0 ==> init_writes_spec(port, interrupt_enable).len() == 0,
        interrupt_enable & 1u8 == 0 ==> {
            let writes = init_writes_spec(port, interrupt_enable);
            &&& writes.len() == 9
            &&& writes[0].0 == port + 1 && writes[0].1 == 0
            &&& writes[1].0 == port + 3 && writes[1].1 & 0x80u8 == 0x80u8
            &&& writes[2].0 == port && writes[2].1 == 3
            &&& writes[3].0 == port + 1 && writes[3].1 == 0
            &&& writes[4].0 == port + 3
            &&& writes[4].1 & 0b11u8 == 0b11u8
            &&& writes[4].1 & 0b100u8 == 0
            &&& writes[4].1 & 0b11_1000u8 == 0
            &&& writes[4].1 & 0x80u8 == 0
            &&& writes[5].0 == port + 2 && writes[5].1 == 0xc7
            &&& writes[6].0 == port + 4 && writes[6].1 == 0x0b
            &&& writes[7].0 == port + 4 && writes[7].1 == 0x0f
            &&& writes[8].0 == port + 1 && writes[8].1 == 1
        },
{
    assert(0x80u8 & 0x80u8 == 0x80u8) by (bit_vector);
    assert(0x03u8 & 0b11u8 == 0b11u8 && 0x03u8 & 0b100u8 == 0 && 0x03u8 & 0b11_1000u8 == 0 && 0x03u8 & 0x80u8 == 0)
        by (bit_vector);
}

/// A serial port
pub struct Serial {
    pub port: u16,
}

impl Serial {
    /// The port writes that initialize the serial port at `port`, given what its interrupt
    /// enable register (at `port + 1`) reads
    pub fn init_writes(port: u16, interrupt_enable: u8) -> (writes: Vec<(u16, u8)>)
        requires
            port <= 0xffff - 4,
        ensures
            writes@ == init_writes_spec(port, interrupt_enable),
    {
        let mut writes: Vec<(u16, u8)> = Vec::new();
        if interrupt_enable & 1 == 0 {
            writes = vec![
                (port + 1, 0x00u8), (port + 3, 0x80u8), (port, 0x03u8), (port + 1, 0x00u8),
                (port + 3, 0x03u8), (port + 2, 0xc7u8), (port + 4, 0x0bu8),
                (port + 4, 0x0fu8), (port + 1, 0x01u8),
            ];
        }
        writes
    }

    /// A serial port at `port`, once its initialization writes are done
    pub fn new(port: u16) -> (serial: Serial)
        ensures
            serial.port == port,
    {
        Serial { port }
    }

    /// The port to poll before each byte: the line status register
    pub fn line_status_port(&self) -> (port: u16)
        requires
            self.port <= 0xffff - 5,
        ensures
            port == self.port + 5,
    {
        self.port + 5
    }

    /// Whether the line status register reads "transmitter holding register empty", so that
    /// the next byte can be written
    pub fn ready_to_send(line_status: u8) -> (ready: bool)
        ensures
            ready == (line_status & 0x20u8 != 0),
    {
        line_status & 0x20 != 0
    }
}

} // verus!
