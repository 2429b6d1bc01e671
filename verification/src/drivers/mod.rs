//! Drivers: the ttys, the 8259A interrupt controller and the serial port
pub mod tty;
pub mod pic8259;
pub mod serial;
