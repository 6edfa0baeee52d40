//! The MDT693B three-channel piezo controller, which takes text commands
//! over a serial line.
use vstd::prelude::*;
use vstd::utf8::encode_utf8;
use crate::protocols::{BaudRate, CharSize, FlowControl, Parity, Serial, StopBits};

verus! {

/// The MDT693B piezo controller.
#[derive(Clone, Copy, Debug, PartialEq, Eq)]
pub struct MDT693B;

impl Default for MDT693B {
    fn default() -> (r: MDT693B) {
        MDT693B
    }
}

impl crate::DefaultConfig for MDT693B {
    type DefaultProtocol = Serial;

    open spec fn spec_default_protocol() -> Serial {
        Serial {
            baud_rate: BaudRate::Baud115200,
            data_bits: CharSize::Bits8,
            parity: Parity::ParityNone,
            stop_bits: StopBits::Stop1,
            flow_control: FlowControl::FlowNone,
        }
    }

    fn default_protocol() -> (r: Serial) {
        Serial {
            baud_rate: BaudRate::Baud115200,
            data_bits: CharSize::Bits8,
            parity: Parity::ParityNone,
            stop_bits: StopBits::Stop1,
            flow_control: FlowControl::FlowNone,
        }
    }
}

impl super::Model for MDT693B {
    const DESCRIPTION: &'static str = "Piezo controller";

    type Command = Command;

    type Query = Query;

    const TERMINATOR: u8 = 10;

    const END_BYTE: u8 = 93;
}

/// What the controller can be asked.
#[derive(Clone, Copy, Debug, PartialEq, Eq, Structural)]
pub enum Query {
    GetCommands,
    ProductInformation,
    GetEchoCommandValue,
    LimitSwitchSetting,
    GetDisplayIntensity,
    GetMaserScanEnable,
    ReadXVoltage,
    ReadYVoltage,
    ReadZVoltage,
    ReadMinXVoltage,
    ReadMinYVoltage,
    ReadMinZVoltage,
    ReadMaxXVoltage,
    ReadMaxYVoltage,
    ReadMaxZVoltage,
    GetVoltageAdjustmentResolution,
    GetFriendlyName,
    GetSerialNumber,
    GetCompatibility,
    GetRotaryMode,
    GetDisableRotaryPushToAdjust,
}

impl Query {
    /// The text of the question.
    pub open spec fn spec_text(self) -> Seq<char> {
        match self {
            Query::GetCommands => "?"@,
            Query::ProductInformation => "id?"@,
            Query::GetEchoCommandValue => "echo?"@,
            Query::LimitSwitchSetting => "vlimit?"@,
            Query::GetDisplayIntensity => "intensity?"@,
            Query::GetMaserScanEnable => "msenable?"@,
            Query::ReadXVoltage => "xvoltage?"@,
            Query::ReadYVoltage => "yvoltage?"@,
            Query::ReadZVoltage => "zvoltage?"@,
            Query::ReadMinXVoltage => "xmin?"@,
            Query::ReadMinYVoltage => "ymin?"@,
            Query::ReadMinZVoltage => "zmin?"@,
            Query::ReadMaxXVoltage => "xmax?"@,
            Query::ReadMaxYVoltage => "ymax?"@,
            Query::ReadMaxZVoltage => "zmax?"@,
            Query::GetVoltageAdjustmentResolution => "dacstep?"@,
            Query::GetFriendlyName => "friendly?"@,
            Query::GetSerialNumber => "serial?"@,
            Query::GetCompatibility => "cm?"@,
            Query::GetRotaryMode => "rotarymode?"@,
            Query::GetDisableRotaryPushToAdjust => "disablepush?"@,
        }
    }
}

impl super::Query for Query {
    type R = &'static str;

    fn to_bytes(self) -> (r: &'static str)
        ensures
            r@ == self.spec_text(),
    {
        match self {
            Query::GetCommands => "?",
            Query::ProductInformation => "id?",
            Query::GetEchoCommandValue => "echo?",
            Query::LimitSwitchSetting => "vlimit?",
            Query::GetDisplayIntensity => "intensity?",
            Query::GetMaserScanEnable => "msenable?",
            Query::ReadXVoltage => "xvoltage?",
            Query::ReadYVoltage => "yvoltage?",
            Query::ReadZVoltage => "zvoltage?",
            Query::ReadMinXVoltage => "xmin?",
            Query::ReadMinYVoltage => "ymin?",
            Query::ReadMinZVoltage => "zmin?",
            Query::ReadMaxXVoltage => "xmax?",
            Query::ReadMaxYVoltage => "ymax?",
            Query::ReadMaxZVoltage => "zmax?",
            Query::GetVoltageAdjustmentResolution => "dacstep?",
            Query::GetFriendlyName => "friendly?",
            Query::GetSerialNumber => "serial?",
            Query::GetCompatibility => "cm?",
            Query::GetRotaryMode => "rotarymode?",
            Query::GetDisableRotaryPushToAdjust => "disablepush?",
        }
    }
}

/// What the controller can be told. A voltage is given as its decimal text,
/// such as `30` or `74.5`; the library computes with no fractions.
#[derive(Clone, Debug, PartialEq, Eq)]
pub enum Command {
    SetEchoCommand(bool),
    /// From 0 to 15.
    SetDisplayIntensity(u8),
    SetAllVoltages(u8),
    SetMasterScanEnable(bool),
    SetMasterScanVoltage(u8),
    SetXVoltage(String),
    SetYVoltage(String),
    SetZVoltage(String),
    SetMinXVoltage(String),
    SetMinYVoltage(String),
    SetMinZVoltage(String),
    SetMaxXVoltage(String),
    SetMaxYVoltage(String),
    SetMaxZVoltage(String),
    /// From 1 to 1000.
    SetVoltageAdjustmentResolution(u16),
    IncrementVoltage,
    DecrementVoltage,
    DecreaseChannel,
    IncreaseChannel,
    SetFriendlyName(String),
    SetCompatibilityMode(bool),
    SetDisableRotaryPushToAdjust(bool),
}

/// The digits of `n` in base ten, without leading zeros.
pub open spec fn decimal(n: nat) -> Seq<u8>
    decreases n,
{
    if n < 10 {
        seq![(48 + n) as u8]
    } else {
        decimal(n / 10).push((48 + n % 10) as u8)
    }
}

/// A flag as the digit one or zero.
pub open spec fn flag_digit(flag: bool) -> Seq<u8> {
    decimal(if flag { 1nat } else { 0nat })
}

/// A key, an equals sign and a value: the form of every setting.
pub open spec fn setting(key: Seq<char>, value: Seq<u8>) -> Seq<u8> {
    encode_utf8(key) + seq![61u8] + value
}

/// The escape sequence of a cursor key: escape, an opening bracket and a
/// letter.
pub open spec fn cursor_key(letter: u8) -> Seq<u8> {
    seq![0x1bu8, 91u8, letter]
}

impl Command {
    /// The bytes of the command, without terminator.
    pub open spec fn spec_bytes(self) -> Seq<u8> {
        match self {
            Command::SetEchoCommand(on) => setting(
                "echo"@,
                if on {
                    encode_utf8("true"@)
                } else {
                    encode_utf8("false"@)
                },
            ),
            Command::SetDisplayIntensity(n) => setting("intensity"@, decimal(n as nat)),
            Command::SetAllVoltages(n) => setting("allvoltage"@, decimal(n as nat)),
            Command::SetMasterScanEnable(on) => setting("msenable"@, flag_digit(on)),
            Command::SetMasterScanVoltage(n) => setting("msvoltage"@, decimal(n as nat)),
            Command::SetXVoltage(v) => setting("xvoltage"@, encode_utf8(v@)),
            Command::SetYVoltage(v) => setting("yvoltage"@, encode_utf8(v@)),
            Command::SetZVoltage(v) => setting("zvoltage"@, encode_utf8(v@)),
            Command::SetMinXVoltage(v) => setting("xmin"@, encode_utf8(v@)),
            Command::SetMinYVoltage(v) => setting("ymin"@, encode_utf8(v@)),
            Command::SetMinZVoltage(v) => setting("zmin"@, encode_utf8(v@)),
            Command::SetMaxXVoltage(v) => setting("xmax"@, encode_utf8(v@)),
            Command::SetMaxYVoltage(v) => setting("ymax"@, encode_utf8(v@)),
            Command::SetMaxZVoltage(v) => setting("zmax"@, encode_utf8(v@)),
            Command::SetVoltageAdjustmentResolution(n) => setting("dacstep"@, decimal(n as nat)),
            Command::IncrementVoltage => cursor_key(65),
            Command::DecrementVoltage => cursor_key(66),
            Command::DecreaseChannel => cursor_key(68),
            Command::IncreaseChannel => cursor_key(67),
            Command::SetFriendlyName(name) => setting("friendly"@, encode_utf8(name@)),
            Command::SetCompatibilityMode(on) => setting("cm"@, flag_digit(on)),
            Command::SetDisableRotaryPushToAdjust(on) => setting("disablepush"@, flag_digit(on)),
        }
    }
}

/// Appends the digits of `n` in base ten to `out`.
pub fn push_decimal(out: &mut Vec<u8>, n: u16)
    ensures
        final(out)@ == old(out)@ + decimal(n as nat),
    decreases n,
{
    if n >= 10 {
        push_decimal(out, n / 10);
    }
    out.push(48 + (n % 10) as u8);
    assert(out@ =~= old(out)@ + decimal(n as nat));
}

/// Starts a setting: the key and the equals sign.
fn start_setting(key: &str) -> (r: Vec<u8>)
    ensures
        r@ == encode_utf8(key@) + seq![61u8],
{
    let mut out: Vec<u8> = Vec::new();
    out.extend_from_slice(key.as_bytes());
    out.push(61u8);
    assert(out@ =~= encode_utf8(key@) + seq![61u8]);
    out
}

/// A setting whose value is a number.
fn number_setting(key: &str, n: u16) -> (r: Vec<u8>)
    ensures
        r@ == setting(key@, decimal(n as nat)),
{
    let mut out = start_setting(key);
    push_decimal(&mut out, n);
    out
}

/// A setting whose value is text.
fn text_setting(key: &str, value: &str) -> (r: Vec<u8>)
    ensures
        r@ == setting(key@, encode_utf8(value@)),
{
    let mut out = start_setting(key);
    out.extend_from_slice(value.as_bytes());
    out
}

/// A setting whose value is a flag, written as one or zero.
fn flag_setting(key: &str, on: bool) -> (r: Vec<u8>)
    ensures
        r@ == setting(key@, flag_digit(on)),
{
    number_setting(key, if on { 1 } else { 0 })
}

/// The escape sequence of a cursor key.
fn cursor(letter: u8) -> (r: Vec<u8>)
    ensures
        r@ == cursor_key(letter),
{
    let mut out: Vec<u8> = Vec::new();
    out.push(0x1bu8);
    out.push(91u8);
    out.push(letter);
    assert(out@ =~= cursor_key(letter));
    out
}

impl super::Command for Command {
    type R = Vec<u8>;

    fn to_bytes(self) -> (r: Vec<u8>)
        ensures
            r@ == self.spec_bytes(),
    {
        match self {
            Command::SetEchoCommand(on) => text_setting(
                "echo",
                if on {
                    "true"
                } else {
                    "false"
                },
            ),
            Command::SetDisplayIntensity(n) => number_setting("intensity", n as u16),
            Command::SetAllVoltages(n) => number_setting("allvoltage", n as u16),
            Command::SetMasterScanEnable(on) => flag_setting("msenable", on),
            Command::SetMasterScanVoltage(n) => number_setting("msvoltage", n as u16),
            Command::SetXVoltage(v) => text_setting("xvoltage", v.as_str()),
            Command::SetYVoltage(v) => text_setting("yvoltage", v.as_str()),
            Command::SetZVoltage(v) => text_setting("zvoltage", v.as_str()),
            Command::SetMinXVoltage(v) => text_setting("xmin", v.as_str()),
            Command::SetMinYVoltage(v) => text_setting("ymin", v.as_str()),
            Command::SetMinZVoltage(v) => text_setting("zmin", v.as_str()),
            Command::SetMaxXVoltage(v) => text_setting("xmax", v.as_str()),
            Command::SetMaxYVoltage(v) => text_setting("ymax", v.as_str()),
            Command::SetMaxZVoltage(v) => text_setting("zmax", v.as_str()),
            Command::SetVoltageAdjustmentResolution(n) => number_setting("dacstep", n),
            Command::IncrementVoltage => cursor(65),
            Command::DecrementVoltage => cursor(66),
            Command::DecreaseChannel => cursor(68),
            Command::IncreaseChannel => cursor(67),
            Command::SetFriendlyName(name) => text_setting("friendly", name.as_str()),
            Command::SetCompatibilityMode(on) => flag_setting("cm", on),
            Command::SetDisableRotaryPushToAdjust(on) => flag_setting("disablepush", on),
        }
    }
}

} // verus!
