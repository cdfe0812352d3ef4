//! The vocabulary of the SAE J2534 "PassThru" API: protocols, IOCTL identifiers,
//! status codes, filter kinds and the message records that cross the API.
//!
//! Every enumeration carries the number that J2534 assigns to each of its values.
//! `raw` is that number, `Parsable::parse` is its inverse, and the executable
//! `to_raw` and `from_raw` compute exactly these.

use vstd::prelude::*;

verus! {

/// A value with a fixed human-readable description.
pub trait Loggable {
    /// The description of this value.
    spec fn text(&self) -> Seq<char>;

    /// Returns the description of this value.
    fn to_string(&self) -> (r: &str)
        ensures
            r@ == self.text(),
    ;
}

/// A value that can be recognised from its number.
pub trait Parsable: Sized {
    /// The value whose number is `x`, if there is one.
    spec fn parse(x: u32) -> Option<Self>;

    /// Recognises the value whose number is `x`; `None` when no value has that number.
    fn from_raw(x: u32) -> (r: Option<Self>)
        ensures
            r == Self::parse(x),
    ;
}

/// A vehicle bus protocol that a channel can speak.
#[derive(Debug, Copy, Clone, PartialEq, Eq, Structural)]
#[allow(non_camel_case_types)]
pub enum Protocol {
    J1850VPW,
    J1850PWM,
    ISO9141,
    ISO14230,
    CAN,
    ISO15765,
    SCI_A_ENGINE,
    SCI_A_TRANS,
    SCI_B_ENGINE,
    SCI_B_TRANS,
}

impl Protocol {
    /// The number that stands for this value on the wire and at the API.
    pub open spec fn raw(self) -> u32 {
        match self {
            Protocol::J1850VPW => 0x01,
            Protocol::J1850PWM => 0x02,
            Protocol::ISO9141 => 0x03,
            Protocol::ISO14230 => 0x04,
            Protocol::CAN => 0x05,
            Protocol::ISO15765 => 0x06,
            Protocol::SCI_A_ENGINE => 0x07,
            Protocol::SCI_A_TRANS => 0x08,
            Protocol::SCI_B_ENGINE => 0x09,
            Protocol::SCI_B_TRANS => 0x0A,
        }
    }

    /// Gives the number of this value.
    pub fn to_raw(self) -> (r: u32)
        ensures
            r == self.raw(),
    {
        match self {
            Protocol::J1850VPW => 0x01,
            Protocol::J1850PWM => 0x02,
            Protocol::ISO9141 => 0x03,
            Protocol::ISO14230 => 0x04,
            Protocol::CAN => 0x05,
            Protocol::ISO15765 => 0x06,
            Protocol::SCI_A_ENGINE => 0x07,
            Protocol::SCI_A_TRANS => 0x08,
            Protocol::SCI_B_ENGINE => 0x09,
            Protocol::SCI_B_TRANS => 0x0A,
        }
    }

    /// Numbers and values correspond one to one: a value's number parses back to
    /// it, and a number that parses is the number of what it parses to.
    pub proof fn lemma_raw_round_trip(v: Protocol, x: u32)
        ensures
            <Protocol as Parsable>::parse(v.raw()) == Some(v),
            <Protocol as Parsable>::parse(x) matches Some(w) ==> w.raw() == x,
    {
    }

    /// The text that describes this value to a reader.
    pub open spec fn display_text(self) -> Seq<char> {
        match self {
            Protocol::J1850VPW => "J1850 VPW"@,
            Protocol::J1850PWM => "J1850 PWM"@,
            Protocol::ISO9141 => "ISO 9141"@,
            Protocol::ISO14230 => "ISO 14230"@,
            Protocol::CAN => "CAN"@,
            Protocol::ISO15765 => "ISO 15765"@,
            Protocol::SCI_A_ENGINE => "SCI A ENGINE"@,
            Protocol::SCI_A_TRANS => "SCI A TRANS"@,
            Protocol::SCI_B_ENGINE => "SCI B ENGINE"@,
            Protocol::SCI_B_TRANS => "SCI B TRANS"@,
        }
    }

    /// Renders this value as text.
    pub fn to_string(&self) -> (r: String)
        ensures
            r@ == self.display_text(),
    {
        match self {
            Protocol::J1850VPW => "J1850 VPW".to_owned(),
            Protocol::J1850PWM => "J1850 PWM".to_owned(),
            Protocol::ISO9141 => "ISO 9141".to_owned(),
            Protocol::ISO14230 => "ISO 14230".to_owned(),
            Protocol::CAN => "CAN".to_owned(),
            Protocol::ISO15765 => "ISO 15765".to_owned(),
            Protocol::SCI_A_ENGINE => "SCI A ENGINE".to_owned(),
            Protocol::SCI_A_TRANS => "SCI A TRANS".to_owned(),
            Protocol::SCI_B_ENGINE => "SCI B ENGINE".to_owned(),
            Protocol::SCI_B_TRANS => "SCI B TRANS".to_owned(),
        }
    }
}

impl Parsable for Protocol {
    open spec fn parse(x: u32) -> Option<Self> {
        if x == 0x01 {
            Some(Protocol::J1850VPW)
        } else if x == 0x02 {
            Some(Protocol::J1850PWM)
        } else if x == 0x03 {
            Some(Protocol::ISO9141)
        } else if x == 0x04 {
            Some(Protocol::ISO14230)
        } else if x == 0x05 {
            Some(Protocol::CAN)
        } else if x == 0x06 {
            Some(Protocol::ISO15765)
        } else if x == 0x07 {
            Some(Protocol::SCI_A_ENGINE)
        } else if x == 0x08 {
            Some(Protocol::SCI_A_TRANS)
        } else if x == 0x09 {
            Some(Protocol::SCI_B_ENGINE)
        } else if x == 0x0A {
            Some(Protocol::SCI_B_TRANS)
        } else {
            None
        }
    }

    fn from_raw(x: u32) -> (r: Option<Self>) {
        match x {
            0x01 => Some(Protocol::J1850VPW),
            0x02 => Some(Protocol::J1850PWM),
            0x03 => Some(Protocol::ISO9141),
            0x04 => Some(Protocol::ISO14230),
            0x05 => Some(Protocol::CAN),
            0x06 => Some(Protocol::ISO15765),
            0x07 => Some(Protocol::SCI_A_ENGINE),
            0x08 => Some(Protocol::SCI_A_TRANS),
            0x09 => Some(Protocol::SCI_B_ENGINE),
            0x0A => Some(Protocol::SCI_B_TRANS),
            _ => None,
        }
    }
}

/// An operation that the IOCTL entry point can be asked for.
#[derive(Debug, Copy, Clone, PartialEq, Eq, Structural)]
#[allow(non_camel_case_types)]
pub enum IoctlID {
    GET_CONFIG,
    SET_CONFIG,
    READ_VBATT,
    FIVE_BAUD_INIT,
    FAST_INIT,
    CLEAR_TX_BUFFER,
    CLEAR_RX_BUFFER,
    CLEAR_PERIODIC_MSGS,
    CLEAR_MSG_FILTERS,
    CLEAR_FUNCT_MSG_LOOKUP_TABLE,
    ADD_TO_FUNCT_MSG_LOOKUP_TABLE,
    DELETE_FROM_FUNCT_MSG_LOOKUP_TABLE,
    READ_PROG_VOLTAGE,
}

impl IoctlID {
    /// The number that stands for this value on the wire and at the API.
    pub open spec fn raw(self) -> u32 {
        match self {
            IoctlID::GET_CONFIG => 0x01,
            IoctlID::SET_CONFIG => 0x02,
            IoctlID::READ_VBATT => 0x03,
            IoctlID::FIVE_BAUD_INIT => 0x05,
            IoctlID::FAST_INIT => 0x06,
            IoctlID::CLEAR_TX_BUFFER => 0x07,
            IoctlID::CLEAR_RX_BUFFER => 0x08,
            IoctlID::CLEAR_PERIODIC_MSGS => 0x09,
            IoctlID::CLEAR_MSG_FILTERS => 0x0A,
            IoctlID::CLEAR_FUNCT_MSG_LOOKUP_TABLE => 0x0B,
            IoctlID::ADD_TO_FUNCT_MSG_LOOKUP_TABLE => 0x0C,
            IoctlID::DELETE_FROM_FUNCT_MSG_LOOKUP_TABLE => 0x0D,
            IoctlID::READ_PROG_VOLTAGE => 0x0E,
        }
    }

    /// Gives the number of this value.
    pub fn to_raw(self) -> (r: u32)
        ensures
            r == self.raw(),
    {
        match self {
            IoctlID::GET_CONFIG => 0x01,
            IoctlID::SET_CONFIG => 0x02,
            IoctlID::READ_VBATT => 0x03,
            IoctlID::FIVE_BAUD_INIT => 0x05,
            IoctlID::FAST_INIT => 0x06,
            IoctlID::CLEAR_TX_BUFFER => 0x07,
            IoctlID::CLEAR_RX_BUFFER => 0x08,
            IoctlID::CLEAR_PERIODIC_MSGS => 0x09,
            IoctlID::CLEAR_MSG_FILTERS => 0x0A,
            IoctlID::CLEAR_FUNCT_MSG_LOOKUP_TABLE => 0x0B,
            IoctlID::ADD_TO_FUNCT_MSG_LOOKUP_TABLE => 0x0C,
            IoctlID::DELETE_FROM_FUNCT_MSG_LOOKUP_TABLE => 0x0D,
            IoctlID::READ_PROG_VOLTAGE => 0x0E,
        }
    }

    /// Numbers and values correspond one to one: a value's number parses back to
    /// it, and a number that parses is the number of what it parses to.
    pub proof fn lemma_raw_round_trip(v: IoctlID, x: u32)
        ensures
            <IoctlID as Parsable>::parse(v.raw()) == Some(v),
            <IoctlID as Parsable>::parse(x) matches Some(w) ==> w.raw() == x,
    {
    }

    /// The text that describes this value to a reader.
    pub open spec fn display_text(self) -> Seq<char> {
        match self {
            IoctlID::GET_CONFIG => "GET_CONFIG"@,
            IoctlID::SET_CONFIG => "SET_CONFIG"@,
            IoctlID::READ_VBATT => "READ_VBATT"@,
            IoctlID::FIVE_BAUD_INIT => "FIVE_BAUD_INIT"@,
            IoctlID::FAST_INIT => "FAST_INIT"@,
            IoctlID::CLEAR_TX_BUFFER => "CLEAR_TX_BUFFER"@,
            IoctlID::CLEAR_RX_BUFFER => "CLEAR_RX_BUFFER"@,
            IoctlID::CLEAR_PERIODIC_MSGS => "CLEAR_PERIODIC_MSGS"@,
            IoctlID::CLEAR_MSG_FILTERS => "CLEAR_MSG_FILTERS"@,
            IoctlID::CLEAR_FUNCT_MSG_LOOKUP_TABLE => "CLEAR_FUNCT_MSG_LOOKUP_TABLE"@,
            IoctlID::ADD_TO_FUNCT_MSG_LOOKUP_TABLE => "ADD_TO_FUNCT_MSG_LOOKUP_TABLE"@,
            IoctlID::DELETE_FROM_FUNCT_MSG_LOOKUP_TABLE => "DELETE_FROM_FUNCT_MSG_LOOKUP_TABLE"@,
            IoctlID::READ_PROG_VOLTAGE => "READ_PROG_VOLTAGE"@,
        }
    }

    /// Renders this value as text.
    pub fn to_string(&self) -> (r: String)
        ensures
            r@ == self.display_text(),
    {
        match self {
            IoctlID::GET_CONFIG => "GET_CONFIG".to_owned(),
            IoctlID::SET_CONFIG => "SET_CONFIG".to_owned(),
            IoctlID::READ_VBATT => "READ_VBATT".to_owned(),
            IoctlID::FIVE_BAUD_INIT => "FIVE_BAUD_INIT".to_owned(),
            IoctlID::FAST_INIT => "FAST_INIT".to_owned(),
            IoctlID::CLEAR_TX_BUFFER => "CLEAR_TX_BUFFER".to_owned(),
            IoctlID::CLEAR_RX_BUFFER => "CLEAR_RX_BUFFER".to_owned(),
            IoctlID::CLEAR_PERIODIC_MSGS => "CLEAR_PERIODIC_MSGS".to_owned(),
            IoctlID::CLEAR_MSG_FILTERS => "CLEAR_MSG_FILTERS".to_owned(),
            IoctlID::CLEAR_FUNCT_MSG_LOOKUP_TABLE => "CLEAR_FUNCT_MSG_LOOKUP_TABLE".to_owned(),
            IoctlID::ADD_TO_FUNCT_MSG_LOOKUP_TABLE => "ADD_TO_FUNCT_MSG_LOOKUP_TABLE".to_owned(),
            IoctlID::DELETE_FROM_FUNCT_MSG_LOOKUP_TABLE => "DELETE_FROM_FUNCT_MSG_LOOKUP_TABLE".to_owned(),
            IoctlID::READ_PROG_VOLTAGE => "READ_PROG_VOLTAGE".to_owned(),
        }
    }
}

impl Parsable for IoctlID {
    open spec fn parse(x: u32) -> Option<Self> {
        if x == 0x01 {
            Some(IoctlID::GET_CONFIG)
        } else if x == 0x02 {
            Some(IoctlID::SET_CONFIG)
        } else if x == 0x03 {
            Some(IoctlID::READ_VBATT)
        } else if x == 0x05 {
            Some(IoctlID::FIVE_BAUD_INIT)
        } else if x == 0x06 {
            Some(IoctlID::FAST_INIT)
        } else if x == 0x07 {
            Some(IoctlID::CLEAR_TX_BUFFER)
        } else if x == 0x08 {
            Some(IoctlID::CLEAR_RX_BUFFER)
        } else if x == 0x09 {
            Some(IoctlID::CLEAR_PERIODIC_MSGS)
        } else if x == 0x0A {
            Some(IoctlID::CLEAR_MSG_FILTERS)
        } else if x == 0x0B {
            Some(IoctlID::CLEAR_FUNCT_MSG_LOOKUP_TABLE)
        } else if x == 0x0C {
            Some(IoctlID::ADD_TO_FUNCT_MSG_LOOKUP_TABLE)
        } else if x == 0x0D {
            Some(IoctlID::DELETE_FROM_FUNCT_MSG_LOOKUP_TABLE)
        } else if x == 0x0E {
            Some(IoctlID::READ_PROG_VOLTAGE)
        } else {
            None
        }
    }

    fn from_raw(x: u32) -> (r: Option<Self>) {
        match x {
            0x01 => Some(IoctlID::GET_CONFIG),
            0x02 => Some(IoctlID::SET_CONFIG),
            0x03 => Some(IoctlID::READ_VBATT),
            0x05 => Some(IoctlID::FIVE_BAUD_INIT),
            0x06 => Some(IoctlID::FAST_INIT),
            0x07 => Some(IoctlID::CLEAR_TX_BUFFER),
            0x08 => Some(IoctlID::CLEAR_RX_BUFFER),
            0x09 => Some(IoctlID::CLEAR_PERIODIC_MSGS),
            0x0A => Some(IoctlID::CLEAR_MSG_FILTERS),
            0x0B => Some(IoctlID::CLEAR_FUNCT_MSG_LOOKUP_TABLE),
            0x0C => Some(IoctlID::ADD_TO_FUNCT_MSG_LOOKUP_TABLE),
            0x0D => Some(IoctlID::DELETE_FROM_FUNCT_MSG_LOOKUP_TABLE),
            0x0E => Some(IoctlID::READ_PROG_VOLTAGE),
            _ => None,
        }
    }
}

/// A configuration parameter named in a GET_CONFIG or SET_CONFIG list.
#[derive(Debug, Copy, Clone, PartialEq, Eq, Structural)]
#[allow(non_camel_case_types)]
pub enum IoctlParam {
    DATA_RATE,
    LOOPBACK,
    NODE_ADDRESS,
    NETWORK_LINE,
    P1_MIN,
    P1_MAX,
    P2_MIN,
    P2_MAX,
    P3_MIN,
    P3_MAX,
    P4_MIN,
    P4_MAX,
    W1,
    W2,
    W3,
    W4,
    W5,
    TIDLE,
    TINL,
    TWUP,
    PARITY,
    BIT_SAMPLE_POINT,
    SYNCH_JUMP_WIDTH,
    W0,
    T1_MAX,
    T2_MAX,
    T4_MAX,
    T5_MAX,
    ISO15765_BS,
    ISO15765_STMIN,
    DATA_BITS,
    FIVE_BAUD_MOD,
    BS_TX,
    STMIN_TX,
    T3_MAX,
    ISO15765_WFT_MAX,
}

impl IoctlParam {
    /// The number that stands for this value on the wire and at the API.
    pub open spec fn raw(self) -> u32 {
        match self {
            IoctlParam::DATA_RATE => 0x01,
            IoctlParam::LOOPBACK => 0x03,
            IoctlParam::NODE_ADDRESS => 0x04,
            IoctlParam::NETWORK_LINE => 0x05,
            IoctlParam::P1_MIN => 0x06,
            IoctlParam::P1_MAX => 0x07,
            IoctlParam::P2_MIN => 0x08,
            IoctlParam::P2_MAX => 0x09,
            IoctlParam::P3_MIN => 0x0A,
            IoctlParam::P3_MAX => 0x0B,
            IoctlParam::P4_MIN => 0x0C,
            IoctlParam::P4_MAX => 0x0D,
            IoctlParam::W1 => 0x0E,
            IoctlParam::W2 => 0x0F,
            IoctlParam::W3 => 0x10,
            IoctlParam::W4 => 0x11,
            IoctlParam::W5 => 0x12,
            IoctlParam::TIDLE => 0x13,
            IoctlParam::TINL => 0x14,
            IoctlParam::TWUP => 0x15,
            IoctlParam::PARITY => 0x16,
            IoctlParam::BIT_SAMPLE_POINT => 0x17,
            IoctlParam::SYNCH_JUMP_WIDTH => 0x18,
            IoctlParam::W0 => 0x19,
            IoctlParam::T1_MAX => 0x1A,
            IoctlParam::T2_MAX => 0x1B,
            IoctlParam::T4_MAX => 0x1C,
            IoctlParam::T5_MAX => 0x1D,
            IoctlParam::ISO15765_BS => 0x1E,
            IoctlParam::ISO15765_STMIN => 0x1F,
            IoctlParam::DATA_BITS => 0x20,
            IoctlParam::FIVE_BAUD_MOD => 0x21,
            IoctlParam::BS_TX => 0x22,
            IoctlParam::STMIN_TX => 0x23,
            IoctlParam::T3_MAX => 0x24,
            IoctlParam::ISO15765_WFT_MAX => 0x25,
        }
    }

    /// Gives the number of this value.
    pub fn to_raw(self) -> (r: u32)
        ensures
            r == self.raw(),
    {
        match self {
            IoctlParam::DATA_RATE => 0x01,
            IoctlParam::LOOPBACK => 0x03,
            IoctlParam::NODE_ADDRESS => 0x04,
            IoctlParam::NETWORK_LINE => 0x05,
            IoctlParam::P1_MIN => 0x06,
            IoctlParam::P1_MAX => 0x07,
            IoctlParam::P2_MIN => 0x08,
            IoctlParam::P2_MAX => 0x09,
            IoctlParam::P3_MIN => 0x0A,
            IoctlParam::P3_MAX => 0x0B,
            IoctlParam::P4_MIN => 0x0C,
            IoctlParam::P4_MAX => 0x0D,
            IoctlParam::W1 => 0x0E,
            IoctlParam::W2 => 0x0F,
            IoctlParam::W3 => 0x10,
            IoctlParam::W4 => 0x11,
            IoctlParam::W5 => 0x12,
            IoctlParam::TIDLE => 0x13,
            IoctlParam::TINL => 0x14,
            IoctlParam::TWUP => 0x15,
            IoctlParam::PARITY => 0x16,
            IoctlParam::BIT_SAMPLE_POINT => 0x17,
            IoctlParam::SYNCH_JUMP_WIDTH => 0x18,
            IoctlParam::W0 => 0x19,
            IoctlParam::T1_MAX => 0x1A,
            IoctlParam::T2_MAX => 0x1B,
            IoctlParam::T4_MAX => 0x1C,
            IoctlParam::T5_MAX => 0x1D,
            IoctlParam::ISO15765_BS => 0x1E,
            IoctlParam::ISO15765_STMIN => 0x1F,
            IoctlParam::DATA_BITS => 0x20,
            IoctlParam::FIVE_BAUD_MOD => 0x21,
            IoctlParam::BS_TX => 0x22,
            IoctlParam::STMIN_TX => 0x23,
            IoctlParam::T3_MAX => 0x24,
            IoctlParam::ISO15765_WFT_MAX => 0x25,
        }
    }

    /// Numbers and values correspond one to one: a value's number parses back to
    /// it, and a number that parses is the number of what it parses to.
    pub proof fn lemma_raw_round_trip(v: IoctlParam, x: u32)
        ensures
            <IoctlParam as Parsable>::parse(v.raw()) == Some(v),
            <IoctlParam as Parsable>::parse(x) matches Some(w) ==> w.raw() == x,
    {
    }

    /// The text that describes this value to a reader.
    pub open spec fn display_text(self) -> Seq<char> {
        match self {
            IoctlParam::DATA_RATE => "DATA_RATE"@,
            IoctlParam::LOOPBACK => "LOOPBACK"@,
            IoctlParam::NODE_ADDRESS => "NODE_ADDRESS"@,
            IoctlParam::NETWORK_LINE => "NETWORK_LINE"@,
            IoctlParam::P1_MIN => "P1_MIN"@,
            IoctlParam::P1_MAX => "P1_MAX"@,
            IoctlParam::P2_MIN => "P2_MIN"@,
            IoctlParam::P2_MAX => "P2_MAX"@,
            IoctlParam::P3_MIN => "P3_MIN"@,
            IoctlParam::P3_MAX => "P3_MAX"@,
            IoctlParam::P4_MIN => "P4_MIN"@,
            IoctlParam::P4_MAX => "P4_MAX"@,
            IoctlParam::W1 => "W1"@,
            IoctlParam::W2 => "W2"@,
            IoctlParam::W3 => "W3"@,
            IoctlParam::W4 => "W4"@,
            IoctlParam::W5 => "W5"@,
            IoctlParam::TIDLE => "TIDLE"@,
            IoctlParam::TINL => "TINL"@,
            IoctlParam::TWUP => "TWUP"@,
            IoctlParam::PARITY => "PARITY"@,
            IoctlParam::BIT_SAMPLE_POINT => "BIT_SAMPLE_POINT"@,
            IoctlParam::SYNCH_JUMP_WIDTH => "SYNCH_JUMP_WIDTH"@,
            IoctlParam::W0 => "W0"@,
            IoctlParam::T1_MAX => "T1_MAX"@,
            IoctlParam::T2_MAX => "T2_MAX"@,
            IoctlParam::T4_MAX => "T4_MAX"@,
            IoctlParam::T5_MAX => "T5_MAX"@,
            IoctlParam::ISO15765_BS => "ISO15765_BS"@,
            IoctlParam::ISO15765_STMIN => "ISO15765_STMIN"@,
            IoctlParam::DATA_BITS => "DATA_BITS"@,
            IoctlParam::FIVE_BAUD_MOD => "FIVE_BAUD_MOD"@,
            IoctlParam::BS_TX => "BS_TX"@,
            IoctlParam::STMIN_TX => "STMIN_TX"@,
            IoctlParam::T3_MAX => "T3_MAX"@,
            IoctlParam::ISO15765_WFT_MAX => "ISO15765_WFT_MAX"@,
        }
    }

    /// Renders this value as text.
    pub fn to_string(&self) -> (r: String)
        ensures
            r@ == self.display_text(),
    {
        match self {
            IoctlParam::DATA_RATE => "DATA_RATE".to_owned(),
            IoctlParam::LOOPBACK => "LOOPBACK".to_owned(),
            IoctlParam::NODE_ADDRESS => "NODE_ADDRESS".to_owned(),
            IoctlParam::NETWORK_LINE => "NETWORK_LINE".to_owned(),
            IoctlParam::P1_MIN => "P1_MIN".to_owned(),
            IoctlParam::P1_MAX => "P1_MAX".to_owned(),
            IoctlParam::P2_MIN => "P2_MIN".to_owned(),
            IoctlParam::P2_MAX => "P2_MAX".to_owned(),
            IoctlParam::P3_MIN => "P3_MIN".to_owned(),
            IoctlParam::P3_MAX => "P3_MAX".to_owned(),
            IoctlParam::P4_MIN => "P4_MIN".to_owned(),
            IoctlParam::P4_MAX => "P4_MAX".to_owned(),
            IoctlParam::W1 => "W1".to_owned(),
            IoctlParam::W2 => "W2".to_owned(),
            IoctlParam::W3 => "W3".to_owned(),
            IoctlParam::W4 => "W4".to_owned(),
            IoctlParam::W5 => "W5".to_owned(),
            IoctlParam::TIDLE => "TIDLE".to_owned(),
            IoctlParam::TINL => "TINL".to_owned(),
            IoctlParam::TWUP => "TWUP".to_owned(),
            IoctlParam::PARITY => "PARITY".to_owned(),
            IoctlParam::BIT_SAMPLE_POINT => "BIT_SAMPLE_POINT".to_owned(),
            IoctlParam::SYNCH_JUMP_WIDTH => "SYNCH_JUMP_WIDTH".to_owned(),
            IoctlParam::W0 => "W0".to_owned(),
            IoctlParam::T1_MAX => "T1_MAX".to_owned(),
            IoctlParam::T2_MAX => "T2_MAX".to_owned(),
            IoctlParam::T4_MAX => "T4_MAX".to_owned(),
            IoctlParam::T5_MAX => "T5_MAX".to_owned(),
            IoctlParam::ISO15765_BS => "ISO15765_BS".to_owned(),
            IoctlParam::ISO15765_STMIN => "ISO15765_STMIN".to_owned(),
            IoctlParam::DATA_BITS => "DATA_BITS".to_owned(),
            IoctlParam::FIVE_BAUD_MOD => "FIVE_BAUD_MOD".to_owned(),
            IoctlParam::BS_TX => "BS_TX".to_owned(),
            IoctlParam::STMIN_TX => "STMIN_TX".to_owned(),
            IoctlParam::T3_MAX => "T3_MAX".to_owned(),
            IoctlParam::ISO15765_WFT_MAX => "ISO15765_WFT_MAX".to_owned(),
        }
    }
}

impl Parsable for IoctlParam {
    open spec fn parse(x: u32) -> Option<Self> {
        if x == 0x01 {
            Some(IoctlParam::DATA_RATE)
        } else if x == 0x03 {
            Some(IoctlParam::LOOPBACK)
        } else if x == 0x04 {
            Some(IoctlParam::NODE_ADDRESS)
        } else if x == 0x05 {
            Some(IoctlParam::NETWORK_LINE)
        } else if x == 0x06 {
            Some(IoctlParam::P1_MIN)
        } else if x == 0x07 {
            Some(IoctlParam::P1_MAX)
        } else if x == 0x08 {
            Some(IoctlParam::P2_MIN)
        } else if x == 0x09 {
            Some(IoctlParam::P2_MAX)
        } else if x == 0x0A {
            Some(IoctlParam::P3_MIN)
        } else if x == 0x0B {
            Some(IoctlParam::P3_MAX)
        } else if x == 0x0C {
            Some(IoctlParam::P4_MIN)
        } else if x == 0x0D {
            Some(IoctlParam::P4_MAX)
        } else if x == 0x0E {
            Some(IoctlParam::W1)
        } else if x == 0x0F {
            Some(IoctlParam::W2)
        } else if x == 0x10 {
            Some(IoctlParam::W3)
        } else if x == 0x11 {
            Some(IoctlParam::W4)
        } else if x == 0x12 {
            Some(IoctlParam::W5)
        } else if x == 0x13 {
            Some(IoctlParam::TIDLE)
        } else if x == 0x14 {
            Some(IoctlParam::TINL)
        } else if x == 0x15 {
            Some(IoctlParam::TWUP)
        } else if x == 0x16 {
            Some(IoctlParam::PARITY)
        } else if x == 0x17 {
            Some(IoctlParam::BIT_SAMPLE_POINT)
        } else if x == 0x18 {
            Some(IoctlParam::SYNCH_JUMP_WIDTH)
        } else if x == 0x19 {
            Some(IoctlParam::W0)
        } else if x == 0x1A {
            Some(IoctlParam::T1_MAX)
        } else if x == 0x1B {
            Some(IoctlParam::T2_MAX)
        } else if x == 0x1C {
            Some(IoctlParam::T4_MAX)
        } else if x == 0x1D {
            Some(IoctlParam::T5_MAX)
        } else if x == 0x1E {
            Some(IoctlParam::ISO15765_BS)
        } else if x == 0x1F {
            Some(IoctlParam::ISO15765_STMIN)
        } else if x == 0x20 {
            Some(IoctlParam::DATA_BITS)
        } else if x == 0x21 {
            Some(IoctlParam::FIVE_BAUD_MOD)
        } else if x == 0x22 {
            Some(IoctlParam::BS_TX)
        } else if x == 0x23 {
            Some(IoctlParam::STMIN_TX)
        } else if x == 0x24 {
            Some(IoctlParam::T3_MAX)
        } else if x == 0x25 {
            Some(IoctlParam::ISO15765_WFT_MAX)
        } else {
            None
        }
    }

    fn from_raw(x: u32) -> (r: Option<Self>) {
        match x {
            0x01 => Some(IoctlParam::DATA_RATE),
            0x03 => Some(IoctlParam::LOOPBACK),
            0x04 => Some(IoctlParam::NODE_ADDRESS),
            0x05 => Some(IoctlParam::NETWORK_LINE),
            0x06 => Some(IoctlParam::P1_MIN),
            0x07 => Some(IoctlParam::P1_MAX),
            0x08 => Some(IoctlParam::P2_MIN),
            0x09 => Some(IoctlParam::P2_MAX),
            0x0A => Some(IoctlParam::P3_MIN),
            0x0B => Some(IoctlParam::P3_MAX),
            0x0C => Some(IoctlParam::P4_MIN),
            0x0D => Some(IoctlParam::P4_MAX),
            0x0E => Some(IoctlParam::W1),
            0x0F => Some(IoctlParam::W2),
            0x10 => Some(IoctlParam::W3),
            0x11 => Some(IoctlParam::W4),
            0x12 => Some(IoctlParam::W5),
            0x13 => Some(IoctlParam::TIDLE),
            0x14 => Some(IoctlParam::TINL),
            0x15 => Some(IoctlParam::TWUP),
            0x16 => Some(IoctlParam::PARITY),
            0x17 => Some(IoctlParam::BIT_SAMPLE_POINT),
            0x18 => Some(IoctlParam::SYNCH_JUMP_WIDTH),
            0x19 => Some(IoctlParam::W0),
            0x1A => Some(IoctlParam::T1_MAX),
            0x1B => Some(IoctlParam::T2_MAX),
            0x1C => Some(IoctlParam::T4_MAX),
            0x1D => Some(IoctlParam::T5_MAX),
            0x1E => Some(IoctlParam::ISO15765_BS),
            0x1F => Some(IoctlParam::ISO15765_STMIN),
            0x20 => Some(IoctlParam::DATA_BITS),
            0x21 => Some(IoctlParam::FIVE_BAUD_MOD),
            0x22 => Some(IoctlParam::BS_TX),
            0x23 => Some(IoctlParam::STMIN_TX),
            0x24 => Some(IoctlParam::T3_MAX),
            0x25 => Some(IoctlParam::ISO15765_WFT_MAX),
            _ => None,
        }
    }
}

/// The J2534 status codes. The same numbers travel on the wire and come back from
/// every entry point.
#[derive(Debug, Copy, Clone, PartialEq, Eq, Structural)]
#[allow(non_camel_case_types)]
pub enum PassthruError {
    STATUS_NOERROR,
    ERR_NOT_SUPPORTED,
    ERR_INVALID_CHANNEL_ID,
    ERR_INVALID_PROTOCOL_ID,
    ERR_NULL_PARAMETER,
    ERR_INVALID_IOCTL_VALUE,
    ERR_INVALID_FLAGS,
    ERR_FAILED,
    ERR_DEVICE_NOT_CONNECTED,
    ERR_TIMEOUT,
    ERR_INVALID_MSG,
    ERR_INVALID_TIME_INTERVAL,
    ERR_EXCEEDED_LIMIT,
    ERR_INVALID_MSG_ID,
    ERR_DEVICE_IN_USE,
    ERR_INVALID_IOCTL_ID,
    ERR_BUFFER_EMPTY,
    ERR_BUFFER_FULL,
    ERR_BUFFER_OVERFLOW,
    ERR_PIN_INVALID,
    ERR_CHANNEL_IN_USE,
    ERR_MSG_PROTOCOL_ID,
    ERR_INVALID_FILTER_ID,
    ERR_NO_FLOW_CONTROL,
    ERR_NOT_UNIQUE,
    ERR_INVALID_BAUDRATE,
    ERR_INVALID_DEVICE_ID,
}

impl PassthruError {
    /// The number that stands for this value on the wire and at the API.
    pub open spec fn raw(self) -> u32 {
        match self {
            PassthruError::STATUS_NOERROR => 0x00,
            PassthruError::ERR_NOT_SUPPORTED => 0x01,
            PassthruError::ERR_INVALID_CHANNEL_ID => 0x02,
            PassthruError::ERR_INVALID_PROTOCOL_ID => 0x03,
            PassthruError::ERR_NULL_PARAMETER => 0x04,
            PassthruError::ERR_INVALID_IOCTL_VALUE => 0x05,
            PassthruError::ERR_INVALID_FLAGS => 0x06,
            PassthruError::ERR_FAILED => 0x07,
            PassthruError::ERR_DEVICE_NOT_CONNECTED => 0x08,
            PassthruError::ERR_TIMEOUT => 0x09,
            PassthruError::ERR_INVALID_MSG => 0x0A,
            PassthruError::ERR_INVALID_TIME_INTERVAL => 0x0B,
            PassthruError::ERR_EXCEEDED_LIMIT => 0x0C,
            PassthruError::ERR_INVALID_MSG_ID => 0x0D,
            PassthruError::ERR_DEVICE_IN_USE => 0x0E,
            PassthruError::ERR_INVALID_IOCTL_ID => 0x0F,
            PassthruError::ERR_BUFFER_EMPTY => 0x10,
            PassthruError::ERR_BUFFER_FULL => 0x11,
            PassthruError::ERR_BUFFER_OVERFLOW => 0x12,
            PassthruError::ERR_PIN_INVALID => 0x13,
            PassthruError::ERR_CHANNEL_IN_USE => 0x14,
            PassthruError::ERR_MSG_PROTOCOL_ID => 0x15,
            PassthruError::ERR_INVALID_FILTER_ID => 0x16,
            PassthruError::ERR_NO_FLOW_CONTROL => 0x17,
            PassthruError::ERR_NOT_UNIQUE => 0x18,
            PassthruError::ERR_INVALID_BAUDRATE => 0x19,
            PassthruError::ERR_INVALID_DEVICE_ID => 0x1A,
        }
    }

    /// Gives the number of this value.
    pub fn to_raw(self) -> (r: u32)
        ensures
            r == self.raw(),
    {
        match self {
            PassthruError::STATUS_NOERROR => 0x00,
            PassthruError::ERR_NOT_SUPPORTED => 0x01,
            PassthruError::ERR_INVALID_CHANNEL_ID => 0x02,
            PassthruError::ERR_INVALID_PROTOCOL_ID => 0x03,
            PassthruError::ERR_NULL_PARAMETER => 0x04,
            PassthruError::ERR_INVALID_IOCTL_VALUE => 0x05,
            PassthruError::ERR_INVALID_FLAGS => 0x06,
            PassthruError::ERR_FAILED => 0x07,
            PassthruError::ERR_DEVICE_NOT_CONNECTED => 0x08,
            PassthruError::ERR_TIMEOUT => 0x09,
            PassthruError::ERR_INVALID_MSG => 0x0A,
            PassthruError::ERR_INVALID_TIME_INTERVAL => 0x0B,
            PassthruError::ERR_EXCEEDED_LIMIT => 0x0C,
            PassthruError::ERR_INVALID_MSG_ID => 0x0D,
            PassthruError::ERR_DEVICE_IN_USE => 0x0E,
            PassthruError::ERR_INVALID_IOCTL_ID => 0x0F,
            PassthruError::ERR_BUFFER_EMPTY => 0x10,
            PassthruError::ERR_BUFFER_FULL => 0x11,
            PassthruError::ERR_BUFFER_OVERFLOW => 0x12,
            PassthruError::ERR_PIN_INVALID => 0x13,
            PassthruError::ERR_CHANNEL_IN_USE => 0x14,
            PassthruError::ERR_MSG_PROTOCOL_ID => 0x15,
            PassthruError::ERR_INVALID_FILTER_ID => 0x16,
            PassthruError::ERR_NO_FLOW_CONTROL => 0x17,
            PassthruError::ERR_NOT_UNIQUE => 0x18,
            PassthruError::ERR_INVALID_BAUDRATE => 0x19,
            PassthruError::ERR_INVALID_DEVICE_ID => 0x1A,
        }
    }

    /// Numbers and values correspond one to one: a value's number parses back to
    /// it, and a number that parses is the number of what it parses to.
    pub proof fn lemma_raw_round_trip(v: PassthruError, x: u32)
        ensures
            <PassthruError as Parsable>::parse(v.raw()) == Some(v),
            <PassthruError as Parsable>::parse(x) matches Some(w) ==> w.raw() == x,
    {
    }
}

impl PassthruError {
    /// The identifier of this status code, as it is written in J2534.
    pub open spec fn name_text(self) -> Seq<char> {
        match self {
            PassthruError::STATUS_NOERROR => "STATUS_NOERROR"@,
            PassthruError::ERR_NOT_SUPPORTED => "ERR_NOT_SUPPORTED"@,
            PassthruError::ERR_INVALID_CHANNEL_ID => "ERR_INVALID_CHANNEL_ID"@,
            PassthruError::ERR_INVALID_PROTOCOL_ID => "ERR_INVALID_PROTOCOL_ID"@,
            PassthruError::ERR_NULL_PARAMETER => "ERR_NULL_PARAMETER"@,
            PassthruError::ERR_INVALID_IOCTL_VALUE => "ERR_INVALID_IOCTL_VALUE"@,
            PassthruError::ERR_INVALID_FLAGS => "ERR_INVALID_FLAGS"@,
            PassthruError::ERR_FAILED => "ERR_FAILED"@,
            PassthruError::ERR_DEVICE_NOT_CONNECTED => "ERR_DEVICE_NOT_CONNECTED"@,
            PassthruError::ERR_TIMEOUT => "ERR_TIMEOUT"@,
            PassthruError::ERR_INVALID_MSG => "ERR_INVALID_MSG"@,
            PassthruError::ERR_INVALID_TIME_INTERVAL => "ERR_INVALID_TIME_INTERVAL"@,
            PassthruError::ERR_EXCEEDED_LIMIT => "ERR_EXCEEDED_LIMIT"@,
            PassthruError::ERR_INVALID_MSG_ID => "ERR_INVALID_MSG_ID"@,
            PassthruError::ERR_DEVICE_IN_USE => "ERR_DEVICE_IN_USE"@,
            PassthruError::ERR_INVALID_IOCTL_ID => "ERR_INVALID_IOCTL_ID"@,
            PassthruError::ERR_BUFFER_EMPTY => "ERR_BUFFER_EMPTY"@,
            PassthruError::ERR_BUFFER_FULL => "ERR_BUFFER_FULL"@,
            PassthruError::ERR_BUFFER_OVERFLOW => "ERR_BUFFER_OVERFLOW"@,
            PassthruError::ERR_PIN_INVALID => "ERR_PIN_INVALID"@,
            PassthruError::ERR_CHANNEL_IN_USE => "ERR_CHANNEL_IN_USE"@,
            PassthruError::ERR_MSG_PROTOCOL_ID => "ERR_MSG_PROTOCOL_ID"@,
            PassthruError::ERR_INVALID_FILTER_ID => "ERR_INVALID_FILTER_ID"@,
            PassthruError::ERR_NO_FLOW_CONTROL => "ERR_NO_FLOW_CONTROL"@,
            PassthruError::ERR_NOT_UNIQUE => "ERR_NOT_UNIQUE"@,
            PassthruError::ERR_INVALID_BAUDRATE => "ERR_INVALID_BAUDRATE"@,
            PassthruError::ERR_INVALID_DEVICE_ID => "ERR_INVALID_DEVICE_ID"@,
        }
    }

    /// Returns the identifier of this status code.
    pub fn name(&self) -> (r: &'static str)
        ensures
            r@ == self.name_text(),
    {
        match self {
            PassthruError::STATUS_NOERROR => "STATUS_NOERROR",
            PassthruError::ERR_NOT_SUPPORTED => "ERR_NOT_SUPPORTED",
            PassthruError::ERR_INVALID_CHANNEL_ID => "ERR_INVALID_CHANNEL_ID",
            PassthruError::ERR_INVALID_PROTOCOL_ID => "ERR_INVALID_PROTOCOL_ID",
            PassthruError::ERR_NULL_PARAMETER => "ERR_NULL_PARAMETER",
            PassthruError::ERR_INVALID_IOCTL_VALUE => "ERR_INVALID_IOCTL_VALUE",
            PassthruError::ERR_INVALID_FLAGS => "ERR_INVALID_FLAGS",
            PassthruError::ERR_FAILED => "ERR_FAILED",
            PassthruError::ERR_DEVICE_NOT_CONNECTED => "ERR_DEVICE_NOT_CONNECTED",
            PassthruError::ERR_TIMEOUT => "ERR_TIMEOUT",
            PassthruError::ERR_INVALID_MSG => "ERR_INVALID_MSG",
            PassthruError::ERR_INVALID_TIME_INTERVAL => "ERR_INVALID_TIME_INTERVAL",
            PassthruError::ERR_EXCEEDED_LIMIT => "ERR_EXCEEDED_LIMIT",
            PassthruError::ERR_INVALID_MSG_ID => "ERR_INVALID_MSG_ID",
            PassthruError::ERR_DEVICE_IN_USE => "ERR_DEVICE_IN_USE",
            PassthruError::ERR_INVALID_IOCTL_ID => "ERR_INVALID_IOCTL_ID",
            PassthruError::ERR_BUFFER_EMPTY => "ERR_BUFFER_EMPTY",
            PassthruError::ERR_BUFFER_FULL => "ERR_BUFFER_FULL",
            PassthruError::ERR_BUFFER_OVERFLOW => "ERR_BUFFER_OVERFLOW",
            PassthruError::ERR_PIN_INVALID => "ERR_PIN_INVALID",
            PassthruError::ERR_CHANNEL_IN_USE => "ERR_CHANNEL_IN_USE",
            PassthruError::ERR_MSG_PROTOCOL_ID => "ERR_MSG_PROTOCOL_ID",
            PassthruError::ERR_INVALID_FILTER_ID => "ERR_INVALID_FILTER_ID",
            PassthruError::ERR_NO_FLOW_CONTROL => "ERR_NO_FLOW_CONTROL",
            PassthruError::ERR_NOT_UNIQUE => "ERR_NOT_UNIQUE",
            PassthruError::ERR_INVALID_BAUDRATE => "ERR_INVALID_BAUDRATE",
            PassthruError::ERR_INVALID_DEVICE_ID => "ERR_INVALID_DEVICE_ID",
        }
    }
}

impl Parsable for PassthruError {
    open spec fn parse(x: u32) -> Option<Self> {
        if x == 0x00 {
            Some(PassthruError::STATUS_NOERROR)
        } else if x == 0x01 {
            Some(PassthruError::ERR_NOT_SUPPORTED)
        } else if x == 0x02 {
            Some(PassthruError::ERR_INVALID_CHANNEL_ID)
        } else if x == 0x03 {
            Some(PassthruError::ERR_INVALID_PROTOCOL_ID)
        } else if x == 0x04 {
            Some(PassthruError::ERR_NULL_PARAMETER)
        } else if x == 0x05 {
            Some(PassthruError::ERR_INVALID_IOCTL_VALUE)
        } else if x == 0x06 {
            Some(PassthruError::ERR_INVALID_FLAGS)
        } else if x == 0x07 {
            Some(PassthruError::ERR_FAILED)
        } else if x == 0x08 {
            Some(PassthruError::ERR_DEVICE_NOT_CONNECTED)
        } else if x == 0x09 {
            Some(PassthruError::ERR_TIMEOUT)
        } else if x == 0x0A {
            Some(PassthruError::ERR_INVALID_MSG)
        } else if x == 0x0B {
            Some(PassthruError::ERR_INVALID_TIME_INTERVAL)
        } else if x == 0x0C {
            Some(PassthruError::ERR_EXCEEDED_LIMIT)
        } else if x == 0x0D {
            Some(PassthruError::ERR_INVALID_MSG_ID)
        } else if x == 0x0E {
            Some(PassthruError::ERR_DEVICE_IN_USE)
        } else if x == 0x0F {
            Some(PassthruError::ERR_INVALID_IOCTL_ID)
        } else if x == 0x10 {
            Some(PassthruError::ERR_BUFFER_EMPTY)
        } else if x == 0x11 {
            Some(PassthruError::ERR_BUFFER_FULL)
        } else if x == 0x12 {
            Some(PassthruError::ERR_BUFFER_OVERFLOW)
        } else if x == 0x13 {
            Some(PassthruError::ERR_PIN_INVALID)
        } else if x == 0x14 {
            Some(PassthruError::ERR_CHANNEL_IN_USE)
        } else if x == 0x15 {
            Some(PassthruError::ERR_MSG_PROTOCOL_ID)
        } else if x == 0x16 {
            Some(PassthruError::ERR_INVALID_FILTER_ID)
        } else if x == 0x17 {
            Some(PassthruError::ERR_NO_FLOW_CONTROL)
        } else if x == 0x18 {
            Some(PassthruError::ERR_NOT_UNIQUE)
        } else if x == 0x19 {
            Some(PassthruError::ERR_INVALID_BAUDRATE)
        } else if x == 0x1A {
            Some(PassthruError::ERR_INVALID_DEVICE_ID)
        } else {
            None
        }
    }

    fn from_raw(x: u32) -> (r: Option<Self>) {
        match x {
            0x00 => Some(PassthruError::STATUS_NOERROR),
            0x01 => Some(PassthruError::ERR_NOT_SUPPORTED),
            0x02 => Some(PassthruError::ERR_INVALID_CHANNEL_ID),
            0x03 => Some(PassthruError::ERR_INVALID_PROTOCOL_ID),
            0x04 => Some(PassthruError::ERR_NULL_PARAMETER),
            0x05 => Some(PassthruError::ERR_INVALID_IOCTL_VALUE),
            0x06 => Some(PassthruError::ERR_INVALID_FLAGS),
            0x07 => Some(PassthruError::ERR_FAILED),
            0x08 => Some(PassthruError::ERR_DEVICE_NOT_CONNECTED),
            0x09 => Some(PassthruError::ERR_TIMEOUT),
            0x0A => Some(PassthruError::ERR_INVALID_MSG),
            0x0B => Some(PassthruError::ERR_INVALID_TIME_INTERVAL),
            0x0C => Some(PassthruError::ERR_EXCEEDED_LIMIT),
            0x0D => Some(PassthruError::ERR_INVALID_MSG_ID),
            0x0E => Some(PassthruError::ERR_DEVICE_IN_USE),
            0x0F => Some(PassthruError::ERR_INVALID_IOCTL_ID),
            0x10 => Some(PassthruError::ERR_BUFFER_EMPTY),
            0x11 => Some(PassthruError::ERR_BUFFER_FULL),
            0x12 => Some(PassthruError::ERR_BUFFER_OVERFLOW),
            0x13 => Some(PassthruError::ERR_PIN_INVALID),
            0x14 => Some(PassthruError::ERR_CHANNEL_IN_USE),
            0x15 => Some(PassthruError::ERR_MSG_PROTOCOL_ID),
            0x16 => Some(PassthruError::ERR_INVALID_FILTER_ID),
            0x17 => Some(PassthruError::ERR_NO_FLOW_CONTROL),
            0x18 => Some(PassthruError::ERR_NOT_UNIQUE),
            0x19 => Some(PassthruError::ERR_INVALID_BAUDRATE),
            0x1A => Some(PassthruError::ERR_INVALID_DEVICE_ID),
            _ => None,
        }
    }
}

impl Loggable for PassthruError {
    open spec fn text(&self) -> Seq<char> {
        match self {
            PassthruError::STATUS_NOERROR => "No Error"@,
            PassthruError::ERR_NOT_SUPPORTED => "Operation not supported"@,
            PassthruError::ERR_INVALID_CHANNEL_ID => "Invalid channel ID"@,
            PassthruError::ERR_INVALID_PROTOCOL_ID => "Invalid protocol ID"@,
            PassthruError::ERR_NULL_PARAMETER => "Null parameter received"@,
            PassthruError::ERR_INVALID_IOCTL_VALUE => "Invalid IOCTL Value"@,
            PassthruError::ERR_INVALID_FLAGS => "Invalid flags"@,
            PassthruError::ERR_FAILED => "Unspecified error"@,
            PassthruError::ERR_DEVICE_NOT_CONNECTED => "Device not connected"@,
            PassthruError::ERR_TIMEOUT => "Device timeout"@,
            PassthruError::ERR_INVALID_MSG => "Invalid or malformed message"@,
            PassthruError::ERR_INVALID_TIME_INTERVAL => "Time interval outside specified range"@,
            PassthruError::ERR_EXCEEDED_LIMIT => "Too many filters or periodic messages"@,
            PassthruError::ERR_INVALID_MSG_ID => "Message ID / Handle ID not recognized"@,
            PassthruError::ERR_DEVICE_IN_USE => "Device is already in use"@,
            PassthruError::ERR_INVALID_IOCTL_ID => "IOCTL ID not recognized"@,
            PassthruError::ERR_BUFFER_EMPTY => "Receive buffer is empty"@,
            PassthruError::ERR_BUFFER_FULL => "Transmit buffer is full"@,
            PassthruError::ERR_BUFFER_OVERFLOW => "Device buffer overflow"@,
            PassthruError::ERR_PIN_INVALID => "Unknown pin specified"@,
            PassthruError::ERR_CHANNEL_IN_USE => "Channel is already in use"@,
            PassthruError::ERR_MSG_PROTOCOL_ID => "Message protocol ID does not match that of the communication channel"@,
            PassthruError::ERR_INVALID_FILTER_ID => "Filter ID not recognized"@,
            PassthruError::ERR_NO_FLOW_CONTROL => "No flow control filter is set"@,
            PassthruError::ERR_NOT_UNIQUE => "An existing filter already matches"@,
            PassthruError::ERR_INVALID_BAUDRATE => "Unable to set requested baudrate"@,
            PassthruError::ERR_INVALID_DEVICE_ID => "Device ID not recognized"@,
        }
    }

    fn to_string(&self) -> (r: &str) {
        match self {
            PassthruError::STATUS_NOERROR => "No Error",
            PassthruError::ERR_NOT_SUPPORTED => "Operation not supported",
            PassthruError::ERR_INVALID_CHANNEL_ID => "Invalid channel ID",
            PassthruError::ERR_INVALID_PROTOCOL_ID => "Invalid protocol ID",
            PassthruError::ERR_NULL_PARAMETER => "Null parameter received",
            PassthruError::ERR_INVALID_IOCTL_VALUE => "Invalid IOCTL Value",
            PassthruError::ERR_INVALID_FLAGS => "Invalid flags",
            PassthruError::ERR_FAILED => "Unspecified error",
            PassthruError::ERR_DEVICE_NOT_CONNECTED => "Device not connected",
            PassthruError::ERR_TIMEOUT => "Device timeout",
            PassthruError::ERR_INVALID_MSG => "Invalid or malformed message",
            PassthruError::ERR_INVALID_TIME_INTERVAL => "Time interval outside specified range",
            PassthruError::ERR_EXCEEDED_LIMIT => "Too many filters or periodic messages",
            PassthruError::ERR_INVALID_MSG_ID => "Message ID / Handle ID not recognized",
            PassthruError::ERR_DEVICE_IN_USE => "Device is already in use",
            PassthruError::ERR_INVALID_IOCTL_ID => "IOCTL ID not recognized",
            PassthruError::ERR_BUFFER_EMPTY => "Receive buffer is empty",
            PassthruError::ERR_BUFFER_FULL => "Transmit buffer is full",
            PassthruError::ERR_BUFFER_OVERFLOW => "Device buffer overflow",
            PassthruError::ERR_PIN_INVALID => "Unknown pin specified",
            PassthruError::ERR_CHANNEL_IN_USE => "Channel is already in use",
            PassthruError::ERR_MSG_PROTOCOL_ID => "Message protocol ID does not match that of the communication channel",
            PassthruError::ERR_INVALID_FILTER_ID => "Filter ID not recognized",
            PassthruError::ERR_NO_FLOW_CONTROL => "No flow control filter is set",
            PassthruError::ERR_NOT_UNIQUE => "An existing filter already matches",
            PassthruError::ERR_INVALID_BAUDRATE => "Unable to set requested baudrate",
            PassthruError::ERR_INVALID_DEVICE_ID => "Device ID not recognized",
        }
    }
}

/// The kind of a message filter.
#[derive(Debug, Copy, Clone, PartialEq, Eq, Structural)]
#[allow(non_camel_case_types)]
pub enum FilterType {
    PASS_FILTER,
    BLOCK_FILTER,
    FLOW_CONTROL_FILTER,
}

impl FilterType {
    /// The number that stands for this value on the wire and at the API.
    pub open spec fn raw(self) -> u32 {
        match self {
            FilterType::PASS_FILTER => 0x01,
            FilterType::BLOCK_FILTER => 0x02,
            FilterType::FLOW_CONTROL_FILTER => 0x03,
        }
    }

    /// Gives the number of this value.
    pub fn to_raw(self) -> (r: u32)
        ensures
            r == self.raw(),
    {
        match self {
            FilterType::PASS_FILTER => 0x01,
            FilterType::BLOCK_FILTER => 0x02,
            FilterType::FLOW_CONTROL_FILTER => 0x03,
        }
    }

    /// Numbers and values correspond one to one: a value's number parses back to
    /// it, and a number that parses is the number of what it parses to.
    pub proof fn lemma_raw_round_trip(v: FilterType, x: u32)
        ensures
            <FilterType as Parsable>::parse(v.raw()) == Some(v),
            <FilterType as Parsable>::parse(x) matches Some(w) ==> w.raw() == x,
    {
    }

    /// The text that describes this value to a reader.
    pub open spec fn display_text(self) -> Seq<char> {
        match self {
            FilterType::PASS_FILTER => "Pass filter"@,
            FilterType::BLOCK_FILTER => "Block filter"@,
            FilterType::FLOW_CONTROL_FILTER => "ISO-TP flow control filter"@,
        }
    }

    /// Renders this value as text.
    pub fn to_string(&self) -> (r: String)
        ensures
            r@ == self.display_text(),
    {
        match self {
            FilterType::PASS_FILTER => "Pass filter".to_owned(),
            FilterType::BLOCK_FILTER => "Block filter".to_owned(),
            FilterType::FLOW_CONTROL_FILTER => "ISO-TP flow control filter".to_owned(),
        }
    }
}

impl Parsable for FilterType {
    open spec fn parse(x: u32) -> Option<Self> {
        if x == 0x01 {
            Some(FilterType::PASS_FILTER)
        } else if x == 0x02 {
            Some(FilterType::BLOCK_FILTER)
        } else if x == 0x03 {
            Some(FilterType::FLOW_CONTROL_FILTER)
        } else {
            None
        }
    }

    fn from_raw(x: u32) -> (r: Option<Self>) {
        match x {
            0x01 => Some(FilterType::PASS_FILTER),
            0x02 => Some(FilterType::BLOCK_FILTER),
            0x03 => Some(FilterType::FLOW_CONTROL_FILTER),
            _ => None,
        }
    }
}

impl Loggable for FilterType {
    open spec fn text(&self) -> Seq<char> {
        match self {
            FilterType::PASS_FILTER => "Pass filter"@,
            FilterType::BLOCK_FILTER => "Block filter"@,
            FilterType::FLOW_CONTROL_FILTER => "ISO-TP Flow control filter"@,
        }
    }

    fn to_string(&self) -> (r: &str) {
        match self {
            FilterType::PASS_FILTER => "Pass filter",
            FilterType::BLOCK_FILTER => "Block filter",
            FilterType::FLOW_CONTROL_FILTER => "ISO-TP Flow control filter",
        }
    }
}

/// Whether transmitted messages are echoed back to the receive queue.
#[derive(Debug, Copy, Clone, PartialEq, Eq, Structural)]
#[allow(non_camel_case_types)]
pub enum LoopBackSetting {
    OFF,
    ON,
}

impl LoopBackSetting {
    /// The number that stands for this value on the wire and at the API.
    pub open spec fn raw(self) -> u32 {
        match self {
            LoopBackSetting::OFF => 0x00,
            LoopBackSetting::ON => 0x01,
        }
    }

    /// Gives the number of this value.
    pub fn to_raw(self) -> (r: u32)
        ensures
            r == self.raw(),
    {
        match self {
            LoopBackSetting::OFF => 0x00,
            LoopBackSetting::ON => 0x01,
        }
    }
}

/// The number of data bits of a serial frame.
#[derive(Debug, Copy, Clone, PartialEq, Eq, Structural)]
#[allow(non_camel_case_types)]
pub enum DataBits {
    DATA_BITS_8,
    DATA_BITS_7,
}

impl DataBits {
    /// The number that stands for this value on the wire and at the API.
    pub open spec fn raw(self) -> u32 {
        match self {
            DataBits::DATA_BITS_8 => 0x00,
            DataBits::DATA_BITS_7 => 0x01,
        }
    }

    /// Gives the number of this value.
    pub fn to_raw(self) -> (r: u32)
        ensures
            r == self.raw(),
    {
        match self {
            DataBits::DATA_BITS_8 => 0x00,
            DataBits::DATA_BITS_7 => 0x01,
        }
    }
}

/// The parity of a serial frame.
#[derive(Debug, Copy, Clone, PartialEq, Eq, Structural)]
#[allow(non_camel_case_types)]
pub enum ParitySetting {
    NO_PARITY,
    ODD_PARITY,
    EVEN_PARITY,
}

impl ParitySetting {
    /// The number that stands for this value on the wire and at the API.
    pub open spec fn raw(self) -> u32 {
        match self {
            ParitySetting::NO_PARITY => 0x00,
            ParitySetting::ODD_PARITY => 0x01,
            ParitySetting::EVEN_PARITY => 0x02,
        }
    }

    /// Gives the number of this value.
    pub fn to_raw(self) -> (r: u32)
        ensures
            r == self.raw(),
    {
        match self {
            ParitySetting::NO_PARITY => 0x00,
            ParitySetting::ODD_PARITY => 0x01,
            ParitySetting::EVEN_PARITY => 0x02,
        }
    }
}

/// The active network line of a J1850 PWM bus.
#[derive(Debug, Copy, Clone, PartialEq, Eq, Structural)]
#[allow(non_camel_case_types)]
pub enum J1850PWMNetworkLine {
    BUS_NORMAL,
    BUS_PLUS,
    BUS_MINUS,
}

impl J1850PWMNetworkLine {
    /// The number that stands for this value on the wire and at the API.
    pub open spec fn raw(self) -> u32 {
        match self {
            J1850PWMNetworkLine::BUS_NORMAL => 0x00,
            J1850PWMNetworkLine::BUS_PLUS => 0x01,
            J1850PWMNetworkLine::BUS_MINUS => 0x02,
        }
    }

    /// Gives the number of this value.
    pub fn to_raw(self) -> (r: u32)
        ensures
            r == self.raw(),
    {
        match self {
            J1850PWMNetworkLine::BUS_NORMAL => 0x00,
            J1850PWMNetworkLine::BUS_PLUS => 0x01,
            J1850PWMNetworkLine::BUS_MINUS => 0x02,
        }
    }
}

/// A flag that may be set when a channel is connected.
#[derive(Debug, Copy, Clone, PartialEq, Eq, Structural)]
#[allow(non_camel_case_types)]
pub enum ConnectFlags {
    CAN_29BIT_ID,
    ISO9141_NO_CHECKSUM,
    CAN_ID_BOTH,
    ISO15765_ADDR_TYPE,
    ISO9141_K_LINE_ONLY,
}

impl ConnectFlags {
    /// The number that stands for this value on the wire and at the API.
    pub open spec fn raw(self) -> u32 {
        match self {
            ConnectFlags::CAN_29BIT_ID => 0x00000100,
            ConnectFlags::ISO9141_NO_CHECKSUM => 0x00000200,
            ConnectFlags::CAN_ID_BOTH => 0x00000800,
            ConnectFlags::ISO15765_ADDR_TYPE => 0x00000080,
            ConnectFlags::ISO9141_K_LINE_ONLY => 0x00001000,
        }
    }

    /// Gives the number of this value.
    pub fn to_raw(self) -> (r: u32)
        ensures
            r == self.raw(),
    {
        match self {
            ConnectFlags::CAN_29BIT_ID => 0x00000100,
            ConnectFlags::ISO9141_NO_CHECKSUM => 0x00000200,
            ConnectFlags::CAN_ID_BOTH => 0x00000800,
            ConnectFlags::ISO15765_ADDR_TYPE => 0x00000080,
            ConnectFlags::ISO9141_K_LINE_ONLY => 0x00001000,
        }
    }

    /// Numbers and values correspond one to one: a value's number parses back to
    /// it, and a number that parses is the number of what it parses to.
    pub proof fn lemma_raw_round_trip(v: ConnectFlags, x: u32)
        ensures
            <ConnectFlags as Parsable>::parse(v.raw()) == Some(v),
            <ConnectFlags as Parsable>::parse(x) matches Some(w) ==> w.raw() == x,
    {
    }
}

impl Parsable for ConnectFlags {
    open spec fn parse(x: u32) -> Option<Self> {
        if x == 0x00000100 {
            Some(ConnectFlags::CAN_29BIT_ID)
        } else if x == 0x00000200 {
            Some(ConnectFlags::ISO9141_NO_CHECKSUM)
        } else if x == 0x00000800 {
            Some(ConnectFlags::CAN_ID_BOTH)
        } else if x == 0x00000080 {
            Some(ConnectFlags::ISO15765_ADDR_TYPE)
        } else if x == 0x00001000 {
            Some(ConnectFlags::ISO9141_K_LINE_ONLY)
        } else {
            None
        }
    }

    fn from_raw(x: u32) -> (r: Option<Self>) {
        match x {
            0x00000100 => Some(ConnectFlags::CAN_29BIT_ID),
            0x00000200 => Some(ConnectFlags::ISO9141_NO_CHECKSUM),
            0x00000800 => Some(ConnectFlags::CAN_ID_BOTH),
            0x00000080 => Some(ConnectFlags::ISO15765_ADDR_TYPE),
            0x00001000 => Some(ConnectFlags::ISO9141_K_LINE_ONLY),
            _ => None,
        }
    }
}

impl Loggable for ConnectFlags {
    open spec fn text(&self) -> Seq<char> {
        match self {
            ConnectFlags::CAN_29BIT_ID => "CAN ID 29Bit"@,
            ConnectFlags::ISO9141_NO_CHECKSUM => "ISO9141 no checksum"@,
            ConnectFlags::CAN_ID_BOTH => "unknown"@,
            ConnectFlags::ISO15765_ADDR_TYPE => "ISO-TP Extended addressing"@,
            ConnectFlags::ISO9141_K_LINE_ONLY => "ISO9141 only use K-Line"@,
        }
    }

    fn to_string(&self) -> (r: &str) {
        match self {
            ConnectFlags::CAN_29BIT_ID => "CAN ID 29Bit",
            ConnectFlags::ISO9141_NO_CHECKSUM => "ISO9141 no checksum",
            ConnectFlags::CAN_ID_BOTH => "unknown",
            ConnectFlags::ISO15765_ADDR_TYPE => "ISO-TP Extended addressing",
            ConnectFlags::ISO9141_K_LINE_ONLY => "ISO9141 only use K-Line",
        }
    }
}

/// The number of data bytes that a `PASSTHRU_MSG` can hold.
pub const PASSTHRU_MSG_DATA_SIZE: usize = 4128;

/// The message record of the API, used for transmit, receive and filters alike.
///
/// Only the first `data_size` bytes of `data` are meaningful; they are the
/// record's `payload`.
#[derive(Debug, Copy, Clone, PartialEq)]
#[allow(non_camel_case_types)]
pub struct PASSTHRU_MSG {
    pub protocol_id: u32,
    pub rx_status: u32,
    pub tx_flags: u32,
    pub timestamp: u32,
    pub data_size: u32,
    pub extra_data_size: u32,
    pub data: [u8; 4128],
}

impl PASSTHRU_MSG {
    /// A record is well formed when the bytes it claims to hold fit in `data`.
    pub open spec fn wf(&self) -> bool {
        self.data_size <= 4128
    }

    /// The meaningful bytes of the record.
    pub open spec fn payload(&self) -> Seq<u8> {
        self.data@.subrange(0, self.data_size as int)
    }

    /// Holds of the record with every field zero, every data byte zero and no payload.
    pub open spec fn is_zeroed(&self) -> bool {
        &&& self.protocol_id == 0
        &&& self.rx_status == 0
        &&& self.tx_flags == 0
        &&& self.timestamp == 0
        &&& self.data_size == 0
        &&& self.extra_data_size == 0
        &&& forall|i: int| 0 <= i < 4128 ==> self.data@[i] == 0
    }

    /// Copies the meaningful bytes of the record out of it.
    pub fn payload_bytes(&self) -> (r: Vec<u8>)
        requires
            self.wf(),
        ensures
            r@ == self.payload(),
    {
        let n: usize = self.data_size as usize;
        let mut out: Vec<u8> = Vec::new();
        let mut i: usize = 0;
        while i < n
            invariant
                i <= n <= 4128,
                n == self.data_size,
                out@ == self.data@.subrange(0, i as int),
            decreases n - i,
        {
            out.push(self.data[i]);
            i += 1;
        }
        out
    }
}

impl Default for PASSTHRU_MSG {
    fn default() -> (r: Self)
        ensures
            r.is_zeroed(),
    {
        PASSTHRU_MSG {
            protocol_id: 0,
            rx_status: 0,
            tx_flags: 0,
            timestamp: 0,
            data_size: 0,
            extra_data_size: 0,
            data: [0u8; 4128],
        }
    }
}

/// A counted run of bytes handed to an IOCTL. `byte_ptr` holds the bytes that the
/// caller's pointer leads to.
#[derive(Debug, Clone, PartialEq, Eq)]
#[allow(non_camel_case_types)]
pub struct SBYTE_ARRAY {
    pub num_of_bytes: u32,
    pub byte_ptr: Vec<u8>,
}

/// One configuration entry: a parameter's number and its value.
#[derive(Debug, Copy, Clone, PartialEq, Eq, Structural)]
pub struct SConfig {
    pub parameter: u32,
    pub value: u32,
}

/// A counted list of configuration entries. `config_ptr` holds the entries that the
/// caller's pointer leads to; an entry that `num_of_params` counts but that is not
/// there stands for a null pointer.
#[derive(Debug, Clone, PartialEq, Eq)]
pub struct SConfigList {
    pub num_of_params: u32,
    pub config_ptr: Vec<SConfig>,
}

} // verus!
