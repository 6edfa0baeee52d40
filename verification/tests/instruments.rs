use rustrument::instruments::mdt693_b::{push_decimal, Command, Query, MDT693B};
use rustrument::instruments::{answer_end, outgoing, Command as CommandBytes, Model, Query as QueryBytes};
use rustrument::protocols::{BaudRate, CharSize, FlowControl, Parity, Serial, StopBits};
use rustrument::DefaultConfig;

/// A serial port that lives in memory: it keeps what was written to it and
/// answers from a script, a few bytes at a time.
struct FakePort {
    number: u8,
    settings: Serial,
    written: Vec<u8>,
    script: Vec<u8>,
    cursor: usize,
}

impl FakePort {
    fn read(&mut self, max: usize) -> Vec<u8> {
        let end = (self.cursor + max).min(self.script.len());
        let chunk = self.script[self.cursor..end].to_vec();
        self.cursor = end;
        chunk
    }

    fn query(&mut self, query: Query) -> Result<Vec<u8>, Box<dyn std::error::Error>> {
        let request = outgoing(query.to_bytes().as_bytes(), MDT693B::TERMINATOR);
        self.written.extend_from_slice(&request);
        let mut received = Vec::new();
        loop {
            let chunk = self.read(3);
            if chunk.is_empty() {
                return Err("the port ran dry before the answer ended".into());
            }
            received.extend_from_slice(&chunk);
            if let Some(end) = answer_end(&received, MDT693B::END_BYTE) {
                received.truncate(end);
                return Ok(received);
            }
        }
    }
}

/// Opens the controller on the fake port of this number, with the model's
/// usual settings.
fn default_connect(number: u8) -> Result<FakePort, Box<dyn std::error::Error>> {
    Ok(FakePort {
        number,
        settings: MDT693B::default_protocol(),
        written: Vec::new(),
        script: b"?\r\n[id?, echo?]\r\n> ".to_vec(),
        cursor: 0,
    })
}

#[test]
fn stress_serial() -> Result<(), Box<dyn std::error::Error>> {
    let mut handler = default_connect(5)?;
    handler.query(Query::GetCommands)?;
    Ok(())
}

#[test]
fn query_over_a_serial_line() -> Result<(), Box<dyn std::error::Error>> {
    let mut handler = default_connect(5)?;
    assert_eq!(handler.number, 5);
    assert_eq!(handler.settings.baud_rate.speed(), 115200);
    let answer = handler.query(Query::GetCommands)?;
    assert_eq!(handler.written, b"?\n");
    assert_eq!(answer, b"?\r\n[id?, echo?]");
    assert!(handler.query(Query::ProductInformation).is_err());
    assert_eq!(handler.written, b"?\nid?\n");
    Ok(())
}

#[test]
fn default_serial_settings() {
    assert_eq!(
        MDT693B::default_protocol(),
        Serial {
            baud_rate: BaudRate::Baud115200,
            data_bits: CharSize::Bits8,
            parity: Parity::ParityNone,
            stop_bits: StopBits::Stop1,
            flow_control: FlowControl::FlowNone,
        }
    );
    assert_eq!(BaudRate::BaudOther(4_000_000).speed(), 4_000_000);
    assert_eq!(BaudRate::Baud9600.speed(), 9600);
}

#[test]
fn model_constants() {
    assert_eq!(MDT693B::DESCRIPTION, "Piezo controller");
    assert_eq!(MDT693B::TERMINATOR, b'\n');
    assert_eq!(MDT693B::END_BYTE, b']');
}

#[test]
fn query_texts() {
    assert_eq!(Query::GetCommands.to_bytes(), "?");
    assert_eq!(Query::ProductInformation.to_bytes(), "id?");
    assert_eq!(Query::GetEchoCommandValue.to_bytes(), "echo?");
    assert_eq!(Query::LimitSwitchSetting.to_bytes(), "vlimit?");
    assert_eq!(Query::GetDisplayIntensity.to_bytes(), "intensity?");
    assert_eq!(Query::GetMaserScanEnable.to_bytes(), "msenable?");
    assert_eq!(Query::ReadXVoltage.to_bytes(), "xvoltage?");
    assert_eq!(Query::ReadYVoltage.to_bytes(), "yvoltage?");
    assert_eq!(Query::ReadZVoltage.to_bytes(), "zvoltage?");
    assert_eq!(Query::ReadMinXVoltage.to_bytes(), "xmin?");
    assert_eq!(Query::ReadMinYVoltage.to_bytes(), "ymin?");
    assert_eq!(Query::ReadMinZVoltage.to_bytes(), "zmin?");
    assert_eq!(Query::ReadMaxXVoltage.to_bytes(), "xmax?");
    assert_eq!(Query::ReadMaxYVoltage.to_bytes(), "ymax?");
    assert_eq!(Query::ReadMaxZVoltage.to_bytes(), "zmax?");
    assert_eq!(Query::GetVoltageAdjustmentResolution.to_bytes(), "dacstep?");
    assert_eq!(Query::GetFriendlyName.to_bytes(), "friendly?");
    assert_eq!(Query::GetSerialNumber.to_bytes(), "serial?");
    assert_eq!(Query::GetCompatibility.to_bytes(), "cm?");
    assert_eq!(Query::GetRotaryMode.to_bytes(), "rotarymode?");
    assert_eq!(Query::GetDisableRotaryPushToAdjust.to_bytes(), "disablepush?");
}

#[test]
fn command_bytes() {
    assert_eq!(Command::SetEchoCommand(true).to_bytes(), b"echo=true");
    assert_eq!(Command::SetEchoCommand(false).to_bytes(), b"echo=false");
    assert_eq!(Command::SetDisplayIntensity(15).to_bytes(), b"intensity=15");
    assert_eq!(Command::SetAllVoltages(0).to_bytes(), b"allvoltage=0");
    assert_eq!(Command::SetAllVoltages(255).to_bytes(), b"allvoltage=255");
    assert_eq!(Command::SetMasterScanEnable(true).to_bytes(), b"msenable=1");
    assert_eq!(Command::SetMasterScanEnable(false).to_bytes(), b"msenable=0");
    assert_eq!(Command::SetMasterScanVoltage(75).to_bytes(), b"msvoltage=75");
    assert_eq!(Command::SetVoltageAdjustmentResolution(1000).to_bytes(), b"dacstep=1000");
    assert_eq!(Command::SetVoltageAdjustmentResolution(65535).to_bytes(), b"dacstep=65535");
    assert_eq!(Command::SetFriendlyName(String::from("bench 3")).to_bytes(), b"friendly=bench 3");
    assert_eq!(Command::SetCompatibilityMode(true).to_bytes(), b"cm=1");
    assert_eq!(Command::SetDisableRotaryPushToAdjust(false).to_bytes(), b"disablepush=0");
}

#[test]
fn voltage_commands_carry_the_decimal_text() {
    assert_eq!(Command::SetXVoltage(format!("{}", 30.0f32)).to_bytes(), b"xvoltage=30");
    assert_eq!(Command::SetYVoltage(format!("{}", 74.5f32)).to_bytes(), b"yvoltage=74.5");
    assert_eq!(Command::SetZVoltage(String::from("0.1")).to_bytes(), b"zvoltage=0.1");
    assert_eq!(Command::SetMinXVoltage(String::from("0")).to_bytes(), b"xmin=0");
    assert_eq!(Command::SetMinYVoltage(String::from("1")).to_bytes(), b"ymin=1");
    assert_eq!(Command::SetMinZVoltage(String::from("2")).to_bytes(), b"zmin=2");
    assert_eq!(Command::SetMaxXVoltage(String::from("150")).to_bytes(), b"xmax=150");
    assert_eq!(Command::SetMaxYVoltage(String::from("150")).to_bytes(), b"ymax=150");
    assert_eq!(Command::SetMaxZVoltage(String::from("150")).to_bytes(), b"zmax=150");
}

#[test]
fn cursor_key_commands() {
    assert_eq!(Command::IncrementVoltage.to_bytes(), vec![0x1b, b'[', b'A']);
    assert_eq!(Command::DecrementVoltage.to_bytes(), vec![0x1b, b'[', b'B']);
    assert_eq!(Command::DecreaseChannel.to_bytes(), vec![0x1b, b'[', b'D']);
    assert_eq!(Command::IncreaseChannel.to_bytes(), vec![0x1b, b'[', b'C']);
}

#[test]
fn decimal_digits() {
    for (n, text) in [(0u16, "0"), (9, "9"), (10, "10"), (99, "99"), (100, "100"), (1000, "1000"), (65535, "65535")] {
        let mut out = b"x=".to_vec();
        push_decimal(&mut out, n);
        assert_eq!(out, format!("x={}", text).into_bytes());
    }
}

#[test]
fn terminator_is_appended() {
    assert_eq!(outgoing(b"id?", b'\n'), b"id?\n");
    assert_eq!(outgoing(b"", b'\n'), b"\n");
    assert_eq!(outgoing(b"*IDN?", b'\r'), b"*IDN?\r");
}

#[test]
fn answer_ends_behind_first_end_byte() {
    assert_eq!(answer_end(b"[abc]", b']'), Some(5));
    assert_eq!(answer_end(b"]", b']'), Some(1));
    assert_eq!(answer_end(b"a]b]", b']'), Some(2));
    assert_eq!(answer_end(b"abc", b']'), None);
    assert_eq!(answer_end(b"", b']'), None);
}
