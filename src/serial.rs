//! Serial ports: their settings and the interface a port driver offers.
use vstd::prelude::*;

use crate::error::RrubError;

verus! {

/// Control and status lines of a serial port, one bit each.
#[derive(Clone, Copy, Debug, Default, PartialEq, Eq, PartialOrd, Ord, Structural)]
pub struct SerialControlBits {
    pub bits: u32,
}

impl SerialControlBits {
    pub const DATA_TERMINAL_READY: u32 = 0x1;

    pub const REQUEST_TO_SEND: u32 = 0x2;

    pub const CLEAR_TO_SEND: u32 = 0x10;

    pub const DATA_SET_READY: u32 = 0x20;

    pub const RING_INDICATE: u32 = 0x40;

    pub const CARRIER_DETECT: u32 = 0x80;

    pub const INPUT_BUFFER_EMPTY: u32 = 0x100;

    pub const OUTPUT_BUFFER_EMPTY: u32 = 0x200;

    pub const HARDWARE_LOOPBACK_ENABLE: u32 = 0x1000;

    pub const SOFTWARE_LOOPBACK_ENABLE: u32 = 0x2000;

    pub const HARDWARE_FLOW_CONTROL_ENABLE: u32 = 0x4000;

    /// The lines of `bits`, unknown bits kept.
    pub fn from_bits_retain(bits: u32) -> (r: SerialControlBits)
        ensures
            r.bits == bits,
    {
        SerialControlBits { bits }
    }

    pub fn contains(&self, flag: u32) -> (r: bool)
        ensures
            r == (self.bits & flag == flag),
    {
        self.bits & flag == flag
    }
}

#[derive(Debug, Clone, Copy, Default, PartialEq, Eq, PartialOrd, Ord, Structural)]
pub enum SerialParity {
    #[default]
    Default,
    NoParity,
    Even,
    Odd,
    Mark,
    Space,
    Unknown(u32),
}

/// The parity a firmware parity number stands for.
pub open spec fn parity_of_code(code: u32) -> SerialParity {
    if code == 0 {
        SerialParity::Default
    } else if code == 1 {
        SerialParity::NoParity
    } else if code == 2 {
        SerialParity::Even
    } else if code == 3 {
        SerialParity::Odd
    } else if code == 4 {
        SerialParity::Mark
    } else if code == 5 {
        SerialParity::Space
    } else {
        SerialParity::Unknown(code)
    }
}

/// The firmware number of a parity.
pub open spec fn parity_code(p: SerialParity) -> u32 {
    match p {
        SerialParity::Default => 0,
        SerialParity::NoParity => 1,
        SerialParity::Even => 2,
        SerialParity::Odd => 3,
        SerialParity::Mark => 4,
        SerialParity::Space => 5,
        SerialParity::Unknown(c) => c,
    }
}

impl SerialParity {
    pub fn from_code(code: u32) -> (r: SerialParity)
        ensures
            r == parity_of_code(code),
    {
        match code {
            0 => SerialParity::Default,
            1 => SerialParity::NoParity,
            2 => SerialParity::Even,
            3 => SerialParity::Odd,
            4 => SerialParity::Mark,
            5 => SerialParity::Space,
            _ => SerialParity::Unknown(code),
        }
    }

    pub fn code(self) -> (r: u32)
        ensures
            r == parity_code(self),
    {
        match self {
            SerialParity::Default => 0,
            SerialParity::NoParity => 1,
            SerialParity::Even => 2,
            SerialParity::Odd => 3,
            SerialParity::Mark => 4,
            SerialParity::Space => 5,
            SerialParity::Unknown(c) => c,
        }
    }
}

#[derive(Debug, Clone, Copy, Default, PartialEq, Eq, PartialOrd, Ord, Structural)]
pub enum SerialStopBits {
    #[default]
    Default,
    One,
    OneFive,
    Two,
    Unknown(u32),
}

/// The stop bits a firmware stop-bits number stands for.
pub open spec fn stop_bits_of_code(code: u32) -> SerialStopBits {
    if code == 0 {
        SerialStopBits::Default
    } else if code == 1 {
        SerialStopBits::One
    } else if code == 2 {
        SerialStopBits::OneFive
    } else if code == 3 {
        SerialStopBits::Two
    } else {
        SerialStopBits::Unknown(code)
    }
}

/// The firmware number of a stop-bits setting.
pub open spec fn stop_bits_code(s: SerialStopBits) -> u32 {
    match s {
        SerialStopBits::Default => 0,
        SerialStopBits::One => 1,
        SerialStopBits::OneFive => 2,
        SerialStopBits::Two => 3,
        SerialStopBits::Unknown(c) => c,
    }
}

impl SerialStopBits {
    pub fn from_code(code: u32) -> (r: SerialStopBits)
        ensures
            r == stop_bits_of_code(code),
    {
        match code {
            0 => SerialStopBits::Default,
            1 => SerialStopBits::One,
            2 => SerialStopBits::OneFive,
            3 => SerialStopBits::Two,
            _ => SerialStopBits::Unknown(code),
        }
    }

    pub fn code(self) -> (r: u32)
        ensures
            r == stop_bits_code(self),
    {
        match self {
            SerialStopBits::Default => 0,
            SerialStopBits::One => 1,
            SerialStopBits::OneFive => 2,
            SerialStopBits::Two => 3,
            SerialStopBits::Unknown(c) => c,
        }
    }
}

/// The settings of a serial port. Zero, and the default parity and stop
/// bits, ask the port to keep its own value.
#[derive(Debug, Clone, Copy, PartialEq, Eq, Structural)]
pub struct SerialMode {
    pub control_mask: SerialControlBits,
    pub timeout: u32,
    pub baud_rate: u64,
    pub receive_fifo_depth: u32,
    pub data_bits: u32,
    pub parity: SerialParity,
    pub stop_bits: SerialStopBits,
}

/// Settings that change nothing.
pub open spec fn unchanged_mode() -> SerialMode {
    SerialMode {
        control_mask: SerialControlBits { bits: 0 },
        timeout: 0,
        baud_rate: 0,
        receive_fifo_depth: 0,
        data_bits: 0,
        parity: SerialParity::Default,
        stop_bits: SerialStopBits::Default,
    }
}

impl SerialMode {
    /// Settings that change nothing.
    pub fn unchanged() -> (r: SerialMode)
        ensures
            r == unchanged_mode(),
    {
        SerialMode {
            control_mask: SerialControlBits { bits: 0 },
            timeout: 0,
            baud_rate: 0,
            receive_fifo_depth: 0,
            data_bits: 0,
            parity: SerialParity::Default,
            stop_bits: SerialStopBits::Default,
        }
    }

    /// Settings that change the timeout alone.
    pub fn timeout_only(timeout: u32) -> (r: SerialMode)
        ensures
            r == (SerialMode { timeout, ..unchanged_mode() }),
    {
        SerialMode { timeout, ..Self::unchanged() }
    }

    /// Settings that change the baud rate alone.
    pub fn baud_rate_only(baud_rate: u64) -> (r: SerialMode)
        ensures
            r == (SerialMode { baud_rate, ..unchanged_mode() }),
    {
        SerialMode { baud_rate, ..Self::unchanged() }
    }

    /// Settings that change the receive FIFO depth alone.
    pub fn receive_fifo_depth_only(receive_fifo_depth: u32) -> (r: SerialMode)
        ensures
            r == (SerialMode { receive_fifo_depth, ..unchanged_mode() }),
    {
        SerialMode { receive_fifo_depth, ..Self::unchanged() }
    }

    /// Settings that change the data bits alone.
    pub fn data_bits_only(data_bits: u32) -> (r: SerialMode)
        ensures
            r == (SerialMode { data_bits, ..unchanged_mode() }),
    {
        SerialMode { data_bits, ..Self::unchanged() }
    }

    /// Settings that change the parity alone.
    pub fn parity_only(parity: SerialParity) -> (r: SerialMode)
        ensures
            r == (SerialMode { parity, ..unchanged_mode() }),
    {
        SerialMode { parity, ..Self::unchanged() }
    }

    /// Settings that change the stop bits alone.
    pub fn stop_bits_only(stop_bits: SerialStopBits) -> (r: SerialMode)
        ensures
            r == (SerialMode { stop_bits, ..unchanged_mode() }),
    {
        SerialMode { stop_bits, ..Self::unchanged() }
    }
}

/// A serial port driver.
pub trait SerialBackend {
    fn control_bits(&self) -> Result<SerialControlBits, RrubError>;

    fn timeout(&self) -> u32;

    fn set_timeout(&mut self, timeout: u32) -> Result<(), RrubError>;

    fn baud_rate(&self) -> u64;

    fn set_baud_rate(&mut self, baud_rate: u64) -> Result<(), RrubError>;

    fn receive_fifo_depth(&self) -> u32;

    fn set_receive_fifo_depth(&mut self, receive_fifo_depth: u32) -> Result<(), RrubError>;

    fn data_bits(&self) -> u32;

    fn set_data_bits(&mut self, data_bits: u32) -> Result<(), RrubError>;

    fn parity(&self) -> SerialParity;

    fn set_parity(&mut self, parity: SerialParity) -> Result<(), RrubError>;

    fn stop_bits(&self) -> SerialStopBits;

    fn set_stop_bits(&mut self, parity: SerialStopBits) -> Result<(), RrubError>;

    /// Fills `data`, or returns how many bytes were read before a failure.
    fn read(&mut self, data: &mut [u8]) -> Result<(), usize>;

    /// Sends `data`, or returns how many bytes were sent before a failure.
    fn write(&mut self, data: &[u8]) -> Result<(), usize>;
}

/// Text output over a serial port.
pub struct GenericSerial<B: SerialBackend> {
    backend: B,
}

impl<B: SerialBackend> GenericSerial<B> {
    pub closed spec fn spec_backend(&self) -> B {
        self.backend
    }

    pub fn new(backend: B) -> (r: GenericSerial<B>)
        ensures
            r.spec_backend() == backend,
    {
        GenericSerial { backend }
    }

    /// Sends the bytes of `s`.
    pub fn write_str(&mut self, s: &str) -> (r: Result<(), usize>) {
        self.backend.write(s.as_bytes())
    }
}

} // verus!
