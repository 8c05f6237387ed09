//! The pieces of the serial-port (termios) interface that the rest of
//! the system speaks in: the configuration structure, the flag and speed
//! constants, and the operations a serial port offers.  The foreign calls
//! that carry them to the kernel live with the caller.

use vstd::prelude::*;

verus! {

/// The termios configuration structure, field for field.
pub struct CTermios {
    pub c_iflag: u32,
    pub c_oflag: u32,
    pub c_cflag: u32,
    pub c_lflag: u32,
    pub c_line: u8,
    pub c_cc: [u8; 32],
    pub c_ispeed: u32,
    pub c_ospeed: u32,
}

impl CTermios {
    /// An all-zero configuration, ready to be filled in.
    pub fn new() -> (t: CTermios)
        ensures
            t.c_iflag == 0,
            t.c_oflag == 0,
            t.c_cflag == 0,
            t.c_lflag == 0,
            t.c_line == 0,
            t.c_ispeed == 0,
            t.c_ospeed == 0,
    {
        CTermios {
            c_iflag: 0,
            c_oflag: 0,
            c_cflag: 0,
            c_lflag: 0,
            c_line: 0,
            c_cc: [0u8; 32],
            c_ispeed: 0,
            c_ospeed: 0,
        }
    }
}

/// What a serial port offers the rest of the system.  The concrete
/// implementation, over the C termios calls, lives with the caller.
pub trait Termio {
    fn set_speed(&self, speed: Speed) -> Result<i32, i32>;

    fn get_speed(&self) -> Result<Speed, i32>;

    fn drain(&self) -> Result<i32, i32>;

    fn drop_input(&self) -> Result<i32, i32>;

    fn drop_output(&self) -> Result<i32, i32>;

    fn drop_input_output(&self) -> Result<i32, i32>;

    fn input_buffer_count(&self) -> Result<i32, i32>;

    fn errno(&self) -> i32;
}

/// The line speeds a serial port can be set to.
#[allow(non_camel_case_types)]
#[derive(Clone, Copy, Debug, PartialEq, Eq, Structural)]
pub enum Speed {
    B0,
    B50,
    B75,
    B110,
    B134,
    B150,
    B200,
    B300,
    B600,
    B1200,
    B1800,
    B2400,
    B4800,
    B9600,
    B19200,
    B38400,
    B57600,
    B115200,
    B230400,
    B460800,
    B500000,
    B576000,
    B921600,
    B1000000,
    B1152000,
    B1500000,
    B2000000,
    B2500000,
    B3000000,
    B3500000,
    B4000000,
}

/// The numeric value of each `Speed` entry in the C interface.
pub open spec fn speed_value_spec(v: Speed) -> u32 {
    match v {
        Speed::B0 => 0,
        Speed::B50 => 1,
        Speed::B75 => 2,
        Speed::B110 => 3,
        Speed::B134 => 4,
        Speed::B150 => 5,
        Speed::B200 => 6,
        Speed::B300 => 7,
        Speed::B600 => 8,
        Speed::B1200 => 9,
        Speed::B1800 => 10,
        Speed::B2400 => 11,
        Speed::B4800 => 12,
        Speed::B9600 => 13,
        Speed::B19200 => 14,
        Speed::B38400 => 15,
        Speed::B57600 => 4097,
        Speed::B115200 => 4098,
        Speed::B230400 => 4099,
        Speed::B460800 => 4100,
        Speed::B500000 => 4101,
        Speed::B576000 => 4102,
        Speed::B921600 => 4103,
        Speed::B1000000 => 4104,
        Speed::B1152000 => 4105,
        Speed::B1500000 => 4106,
        Speed::B2000000 => 4107,
        Speed::B2500000 => 4108,
        Speed::B3000000 => 4109,
        Speed::B3500000 => 4110,
        Speed::B4000000 => 4111,
    }
}

impl Speed {
    /// The numeric value this entry has in the C interface.
    pub fn value(&self) -> (v: u32)
        ensures
            v == speed_value_spec(*self),
    {
        match *self {
            Speed::B0 => 0,
            Speed::B50 => 1,
            Speed::B75 => 2,
            Speed::B110 => 3,
            Speed::B134 => 4,
            Speed::B150 => 5,
            Speed::B200 => 6,
            Speed::B300 => 7,
            Speed::B600 => 8,
            Speed::B1200 => 9,
            Speed::B1800 => 10,
            Speed::B2400 => 11,
            Speed::B4800 => 12,
            Speed::B9600 => 13,
            Speed::B19200 => 14,
            Speed::B38400 => 15,
            Speed::B57600 => 4097,
            Speed::B115200 => 4098,
            Speed::B230400 => 4099,
            Speed::B460800 => 4100,
            Speed::B500000 => 4101,
            Speed::B576000 => 4102,
            Speed::B921600 => 4103,
            Speed::B1000000 => 4104,
            Speed::B1152000 => 4105,
            Speed::B1500000 => 4106,
            Speed::B2000000 => 4107,
            Speed::B2500000 => 4108,
            Speed::B3000000 => 4109,
            Speed::B3500000 => 4110,
            Speed::B4000000 => 4111,
        }
    }
}

impl Speed {
    /// The speed a numeric value stands for, if any.
    pub fn from_u32(value: u32) -> (r: Option<Speed>)
        ensures
            r is Some ==> speed_value_spec(r.unwrap()) == value,
            r is None ==> forall|s: Speed| speed_value_spec(s) != value,
    {
        match value {
            0 => Some(Speed::B0),
            1 => Some(Speed::B50),
            2 => Some(Speed::B75),
            3 => Some(Speed::B110),
            4 => Some(Speed::B134),
            5 => Some(Speed::B150),
            6 => Some(Speed::B200),
            7 => Some(Speed::B300),
            8 => Some(Speed::B600),
            9 => Some(Speed::B1200),
            10 => Some(Speed::B1800),
            11 => Some(Speed::B2400),
            12 => Some(Speed::B4800),
            13 => Some(Speed::B9600),
            14 => Some(Speed::B19200),
            15 => Some(Speed::B38400),
            4097 => Some(Speed::B57600),
            4098 => Some(Speed::B115200),
            4099 => Some(Speed::B230400),
            4100 => Some(Speed::B460800),
            4101 => Some(Speed::B500000),
            4102 => Some(Speed::B576000),
            4103 => Some(Speed::B921600),
            4104 => Some(Speed::B1000000),
            4105 => Some(Speed::B1152000),
            4106 => Some(Speed::B1500000),
            4107 => Some(Speed::B2000000),
            4108 => Some(Speed::B2500000),
            4109 => Some(Speed::B3000000),
            4110 => Some(Speed::B3500000),
            4111 => Some(Speed::B4000000),
            _ => None,
        }
    }
}

/// The indices of the control characters in a termios configuration.
#[allow(non_camel_case_types)]
#[derive(Clone, Copy, Debug, PartialEq, Eq, Structural)]
pub enum ControlCharacters {
    VINTR,
    VQUIT,
    VERASE,
    VKILL,
    VEOF,
    VTIME,
    VMIN,
    VSWTC,
    VSTART,
    VSTOP,
    VSUSP,
    VEOL,
    VREPRINT,
    VDISCARD,
    VWERASE,
    VLNEXT,
    VEOL2,
}

/// The numeric value of each `ControlCharacters` entry in the C interface.
pub open spec fn controlcharacters_value_spec(v: ControlCharacters) -> u32 {
    match v {
        ControlCharacters::VINTR => 0,
        ControlCharacters::VQUIT => 1,
        ControlCharacters::VERASE => 2,
        ControlCharacters::VKILL => 3,
        ControlCharacters::VEOF => 4,
        ControlCharacters::VTIME => 5,
        ControlCharacters::VMIN => 6,
        ControlCharacters::VSWTC => 7,
        ControlCharacters::VSTART => 8,
        ControlCharacters::VSTOP => 9,
        ControlCharacters::VSUSP => 10,
        ControlCharacters::VEOL => 11,
        ControlCharacters::VREPRINT => 12,
        ControlCharacters::VDISCARD => 13,
        ControlCharacters::VWERASE => 14,
        ControlCharacters::VLNEXT => 15,
        ControlCharacters::VEOL2 => 16,
    }
}

impl ControlCharacters {
    /// The numeric value this entry has in the C interface.
    pub fn value(&self) -> (v: u32)
        ensures
            v == controlcharacters_value_spec(*self),
    {
        match *self {
            ControlCharacters::VINTR => 0,
            ControlCharacters::VQUIT => 1,
            ControlCharacters::VERASE => 2,
            ControlCharacters::VKILL => 3,
            ControlCharacters::VEOF => 4,
            ControlCharacters::VTIME => 5,
            ControlCharacters::VMIN => 6,
            ControlCharacters::VSWTC => 7,
            ControlCharacters::VSTART => 8,
            ControlCharacters::VSTOP => 9,
            ControlCharacters::VSUSP => 10,
            ControlCharacters::VEOL => 11,
            ControlCharacters::VREPRINT => 12,
            ControlCharacters::VDISCARD => 13,
            ControlCharacters::VWERASE => 14,
            ControlCharacters::VLNEXT => 15,
            ControlCharacters::VEOL2 => 16,
        }
    }
}

/// The input mode flag bits.
#[allow(non_camel_case_types)]
#[derive(Clone, Copy, Debug, PartialEq, Eq, Structural)]
pub enum IflagBits {
    IGNBRK,
    BRKINT,
    IGNPAR,
    PARMRK,
    INPCK,
    ISTRIP,
    INLCR,
    IGNCR,
    ICRNL,
    IUCLC,
    IXON,
    IXANY,
    IXOFF,
    IMAXBEL,
    IUTF8,
}

/// The numeric value of each `IflagBits` entry in the C interface.
pub open spec fn iflagbits_value_spec(v: IflagBits) -> u32 {
    match v {
        IflagBits::IGNBRK => 1,
        IflagBits::BRKINT => 2,
        IflagBits::IGNPAR => 4,
        IflagBits::PARMRK => 8,
        IflagBits::INPCK => 16,
        IflagBits::ISTRIP => 32,
        IflagBits::INLCR => 64,
        IflagBits::IGNCR => 128,
        IflagBits::ICRNL => 256,
        IflagBits::IUCLC => 512,
        IflagBits::IXON => 1024,
        IflagBits::IXANY => 2048,
        IflagBits::IXOFF => 4096,
        IflagBits::IMAXBEL => 8192,
        IflagBits::IUTF8 => 16384,
    }
}

impl IflagBits {
    /// The numeric value this entry has in the C interface.
    pub fn value(&self) -> (v: u32)
        ensures
            v == iflagbits_value_spec(*self),
    {
        match *self {
            IflagBits::IGNBRK => 1,
            IflagBits::BRKINT => 2,
            IflagBits::IGNPAR => 4,
            IflagBits::PARMRK => 8,
            IflagBits::INPCK => 16,
            IflagBits::ISTRIP => 32,
            IflagBits::INLCR => 64,
            IflagBits::IGNCR => 128,
            IflagBits::ICRNL => 256,
            IflagBits::IUCLC => 512,
            IflagBits::IXON => 1024,
            IflagBits::IXANY => 2048,
            IflagBits::IXOFF => 4096,
            IflagBits::IMAXBEL => 8192,
            IflagBits::IUTF8 => 16384,
        }
    }
}

/// The output mode flag bits.
#[allow(non_camel_case_types)]
#[derive(Clone, Copy, Debug, PartialEq, Eq, Structural)]
pub enum OflagBits {
    OPOST,
    OLCUC,
    ONLCR,
    OCRNL,
    ONOCR,
    ONLRET,
    OFILL,
    OFDEL,
    VTDLY,
}

/// The numeric value of each `OflagBits` entry in the C interface.
pub open spec fn oflagbits_value_spec(v: OflagBits) -> u32 {
    match v {
        OflagBits::OPOST => 1,
        OflagBits::OLCUC => 2,
        OflagBits::ONLCR => 4,
        OflagBits::OCRNL => 8,
        OflagBits::ONOCR => 16,
        OflagBits::ONLRET => 32,
        OflagBits::OFILL => 64,
        OflagBits::OFDEL => 128,
        OflagBits::VTDLY => 16384,
    }
}

impl OflagBits {
    /// The numeric value this entry has in the C interface.
    pub fn value(&self) -> (v: u32)
        ensures
            v == oflagbits_value_spec(*self),
    {
        match *self {
            OflagBits::OPOST => 1,
            OflagBits::OLCUC => 2,
            OflagBits::ONLCR => 4,
            OflagBits::OCRNL => 8,
            OflagBits::ONOCR => 16,
            OflagBits::ONLRET => 32,
            OflagBits::OFILL => 64,
            OflagBits::OFDEL => 128,
            OflagBits::VTDLY => 16384,
        }
    }
}

/// The control mode flag bits.
#[allow(non_camel_case_types)]
#[derive(Clone, Copy, Debug, PartialEq, Eq, Structural)]
pub enum CflagBits {
    CS5,
    CS6,
    CS7,
    CS8,
    CSTOPB,
    CREAD,
    PARENB,
    PARODD,
    HUPCL,
    CLOCAL,
}

/// The numeric value of each `CflagBits` entry in the C interface.
pub open spec fn cflagbits_value_spec(v: CflagBits) -> u32 {
    match v {
        CflagBits::CS5 => 0,
        CflagBits::CS6 => 16,
        CflagBits::CS7 => 32,
        CflagBits::CS8 => 48,
        CflagBits::CSTOPB => 64,
        CflagBits::CREAD => 128,
        CflagBits::PARENB => 256,
        CflagBits::PARODD => 512,
        CflagBits::HUPCL => 1024,
        CflagBits::CLOCAL => 2048,
    }
}

impl CflagBits {
    /// The numeric value this entry has in the C interface.
    pub fn value(&self) -> (v: u32)
        ensures
            v == cflagbits_value_spec(*self),
    {
        match *self {
            CflagBits::CS5 => 0,
            CflagBits::CS6 => 16,
            CflagBits::CS7 => 32,
            CflagBits::CS8 => 48,
            CflagBits::CSTOPB => 64,
            CflagBits::CREAD => 128,
            CflagBits::PARENB => 256,
            CflagBits::PARODD => 512,
            CflagBits::HUPCL => 1024,
            CflagBits::CLOCAL => 2048,
        }
    }
}

} // verus!
