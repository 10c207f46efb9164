//! The session's settings: from the values given on the command line to
//! the parameters the serial port is opened with.
use vstd::prelude::*;
use vstd::string::StringSliceAdditionalSpecFns;
use vstd::utf8::encode_utf8;

use serialport::{DataBits, FlowControl, Parity, StopBits};

verus! {

/// Number of bits per character.
#[verifier::external_type_specification]
pub struct ExDataBits(serialport::DataBits);

/// Parity checking mode.
#[verifier::external_type_specification]
pub struct ExParity(serialport::Parity);

/// Number of stop bits.
#[verifier::external_type_specification]
pub struct ExStopBits(serialport::StopBits);

/// Flow control mode.
#[verifier::external_type_specification]
pub struct ExFlowControl(serialport::FlowControl);

/// How long one read from the device waits for data, in milliseconds.
pub const READ_TIMEOUT_MS: u64 = 10;

/// The session's settings as given on the command line.
pub struct SessionArgs {
    /// Path of the serial device.
    pub device: String,
    /// Baud rate.
    pub baud_rate: u32,
    /// Data bits per character: 5, 6, 7 or 8.
    pub data_bits: u8,
    /// Parity: `N`, `O` or `E`, or `none`, `odd`, `even`, in any case.
    pub parity: String,
    /// Stop bits: 1 or 2.
    pub stop_bits: u8,
    /// Flow control: `N`, `H` or `S`, or `none`, `hardware`, `software`, in
    /// any case.
    pub flow_control: String,
}

/// The parameters the serial port is opened with.
pub struct PortConfig {
    pub device: String,
    pub baud_rate: u32,
    pub data_bits: DataBits,
    pub parity: Parity,
    pub stop_bits: StopBits,
    pub flow_control: FlowControl,
    /// How long one read waits for data, in milliseconds.
    pub timeout_ms: u64,
}

/// `b` with an ASCII upper-case letter made lower case.
pub open spec fn ascii_lower(b: u8) -> u8 {
    if 0x41 <= b <= 0x5a {
        (b + 0x20) as u8
    } else {
        b
    }
}

/// Whether `text` spells `word` (written in lower case), ignoring ASCII case.
pub open spec fn spells(text: Seq<u8>, word: Seq<u8>) -> bool {
    &&& text.len() == word.len()
    &&& forall|i: int| 0 <= i < text.len() ==> ascii_lower(#[trigger] text[i]) == word[i]
}

/// Whether `text` is `letter` or `word` (both lower case), ignoring ASCII case.
pub open spec fn names(text: Seq<u8>, letter: u8, word: Seq<u8>) -> bool {
    spells(text, seq![letter]) || spells(text, word)
}

pub open spec fn data_bits_of(n: u8) -> DataBits {
    if n == 5 {
        DataBits::Five
    } else if n == 6 {
        DataBits::Six
    } else if n == 7 {
        DataBits::Seven
    } else {
        DataBits::Eight
    }
}

pub open spec fn parity_of(text: Seq<u8>) -> Parity {
    if names(text, 0x6f, seq![0x6f, 0x64, 0x64]) {
        Parity::Odd
    } else if names(text, 0x65, seq![0x65, 0x76, 0x65, 0x6e]) {
        Parity::Even
    } else {
        Parity::None
    }
}

pub open spec fn stop_bits_of(n: u8) -> StopBits {
    if n == 2 {
        StopBits::Two
    } else {
        StopBits::One
    }
}

pub open spec fn flow_control_of(text: Seq<u8>) -> FlowControl {
    if names(text, 0x68, seq![0x68, 0x61, 0x72, 0x64, 0x77, 0x61, 0x72, 0x65]) {
        FlowControl::Hardware
    } else if names(text, 0x73, seq![0x73, 0x6f, 0x66, 0x74, 0x77, 0x61, 0x72, 0x65]) {
        FlowControl::Software
    } else {
        FlowControl::None
    }
}

fn to_ascii_lower(b: u8) -> (r: u8)
    ensures
        r == ascii_lower(b),
{
    if 0x41 <= b && b <= 0x5a {
        b + 0x20
    } else {
        b
    }
}

/// Whether `text` spells `word`, ignoring ASCII case.
fn spells_word(text: &[u8], word: &[u8]) -> (r: bool)
    ensures
        r == spells(text@, word@),
{
    if text.len() != word.len() {
        return false;
    }
    let mut i: usize = 0;
    while i < text.len()
        invariant
            text@.len() == word@.len(),
            i <= text@.len(),
            forall|j: int| 0 <= j < i ==> ascii_lower(#[trigger] text@[j]) == word@[j],
        decreases text@.len() - i,
    {
        if to_ascii_lower(text[i]) != word[i] {
            return false;
        }
        i = i + 1;
    }
    true
}

/// Maps the data-bits value to its setting; anything but 5, 6 or 7 gives
/// eight bits.
pub fn match_data_bits(data_bits: u8) -> (r: DataBits)
    ensures
        r == data_bits_of(data_bits),
{
    match data_bits {
        5 => DataBits::Five,
        6 => DataBits::Six,
        7 => DataBits::Seven,
        _ => DataBits::Eight,
    }
}

/// Maps the parity text to its setting; an unknown text gives no parity.
pub fn match_parity(parity: &str) -> (r: Parity)
    ensures
        r == parity_of(parity.spec_bytes()),
{
    let text = parity.as_bytes();
    if spells_word(text, &[0x6f]) || spells_word(text, &[0x6f, 0x64, 0x64]) {
        Parity::Odd
    } else if spells_word(text, &[0x65]) || spells_word(text, &[0x65, 0x76, 0x65, 0x6e]) {
        Parity::Even
    } else {
        Parity::None
    }
}

/// Maps the stop-bits value to its setting; anything but 2 gives one stop
/// bit.
pub fn match_stop_bits(stop_bits: u8) -> (r: StopBits)
    ensures
        r == stop_bits_of(stop_bits),
{
    match stop_bits {
        2 => StopBits::Two,
        _ => StopBits::One,
    }
}

/// Maps the flow-control text to its setting; an unknown text gives none.
pub fn match_flow_control(flow_control: &str) -> (r: FlowControl)
    ensures
        r == flow_control_of(flow_control.spec_bytes()),
{
    let text = flow_control.as_bytes();
    if spells_word(text, &[0x68]) || spells_word(
        text,
        &[0x68, 0x61, 0x72, 0x64, 0x77, 0x61, 0x72, 0x65],
    ) {
        FlowControl::Hardware
    } else if spells_word(text, &[0x73]) || spells_word(
        text,
        &[0x73, 0x6f, 0x66, 0x74, 0x77, 0x61, 0x72, 0x65],
    ) {
        FlowControl::Software
    } else {
        FlowControl::None
    }
}

/// The port parameters for the settings given on the command line: the
/// device and baud rate as given, each other value mapped to its setting,
/// and the read timeout.
pub fn parse_arguments_into_serialport(args: &SessionArgs) -> (r: PortConfig)
    ensures
        r.device@ == args.device@,
        r.baud_rate == args.baud_rate,
        r.data_bits == data_bits_of(args.data_bits),
        r.parity == parity_of(encode_utf8(args.parity@)),
        r.stop_bits == stop_bits_of(args.stop_bits),
        r.flow_control == flow_control_of(encode_utf8(args.flow_control@)),
        r.timeout_ms == READ_TIMEOUT_MS,
{
    PortConfig {
        device: args.device.clone(),
        baud_rate: args.baud_rate,
        data_bits: match_data_bits(args.data_bits),
        parity: match_parity(args.parity.as_str()),
        stop_bits: match_stop_bits(args.stop_bits),
        flow_control: match_flow_control(args.flow_control.as_str()),
        timeout_ms: READ_TIMEOUT_MS,
    }
}

} // verus!
