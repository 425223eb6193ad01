use dogs164::bus::{Record, Recorder, Transport};
use dogs164::commands::{
    DisplayConfig, DoubleHeight, EntryModeSettings, FontWidth, HorizontalDir, ViewMode,
};
use dogs164::config::Config;
use dogs164::ssd18030_i2c::{Lcd, LcdError, SSD18030};

const ADDR: u8 = 0x3C;

type Frames = Vec<(u8, Vec<u8>)>;

fn session() -> SSD18030<Recorder> {
    SSD18030::new_i2c(Recorder::new(), ADDR)
}

fn sent(records: &[Record]) -> Frames {
    records
        .iter()
        .filter_map(|r| match r {
            Record::Sent(a, b) => Some((*a, b.clone())),
            Record::Pause(_) => None,
        })
        .collect()
}

fn pauses(records: &[Record]) -> Vec<u32> {
    records
        .iter()
        .filter_map(|r| match r {
            Record::Pause(ms) => Some(*ms),
            Record::Sent(..) => None,
        })
        .collect()
}

fn frames(s: SSD18030<Recorder>) -> Frames {
    sent(s.release().records())
}

fn cmd(c: u8) -> (u8, Vec<u8>) {
    (ADDR, vec![0x00, c])
}

fn cmds(cs: &[u8]) -> Frames {
    cs.iter().map(|c| cmd(*c)).collect()
}

fn space() -> (u8, Vec<u8>) {
    (ADDR, vec![0x40, b' '])
}

fn row_base(row: u8) -> u8 {
    [0x00, 0x20, 0x40, 0x60][(row - 1) as usize]
}

#[test]
fn new_session_sends_nothing() {
    let s = session();
    assert!(s.release().records().is_empty());
}

#[test]
fn locate_top_view_all_positions() {
    for row in 1..=4u8 {
        for col in 1..=16u8 {
            let mut s = session();
            assert!(s.locate(row, col).is_ok());
            assert_eq!(frames(s), cmds(&[0x84 + row_base(row) + (col - 1)]));
        }
    }
}

#[test]
fn locate_bottom_view_all_positions() {
    for row in 1..=4u8 {
        for col in 1..=16u8 {
            let mut s = session();
            assert!(s.set_view_mode(ViewMode::Bottom).is_ok());
            assert!(s.locate(row, col).is_ok());
            let f = frames(s);
            assert_eq!(f[2..].to_vec(), cmds(&[0x80 + row_base(row) + (col - 1)]));
        }
    }
}

#[test]
fn locate_rejects_positions_off_the_display() {
    let mut s = session();
    for row in [0u8, 5, 6, 200, 255] {
        for col in [1u8, 8, 16] {
            assert!(matches!(s.locate(row, col), Err(LcdError::InvalidInputData)));
        }
    }
    for col in [0u8, 17, 18, 255] {
        for row in [1u8, 4] {
            assert!(matches!(s.locate(row, col), Err(LcdError::InvalidInputData)));
        }
    }
    assert!(frames(s).is_empty());
}

#[test]
fn write_accepts_31_bytes() {
    let mut s = session();
    let text = "abcdefghijklmnopqrstuvwxyz01234";
    assert_eq!(text.len(), 31);
    assert!(s.write(text).is_ok());
    let mut expected = vec![0x40u8];
    expected.extend_from_slice(text.as_bytes());
    assert_eq!(frames(s), vec![(ADDR, expected)]);
}

#[test]
fn write_refuses_32_bytes() {
    let mut s = session();
    let text = "abcdefghijklmnopqrstuvwxyz012345";
    assert_eq!(text.len(), 32);
    assert!(matches!(s.write(text), Err(LcdError::InvalidInputData)));
    assert!(frames(s).is_empty());
}

#[test]
fn write_empty_text_sends_the_control_byte() {
    let mut s = session();
    assert!(s.write("").is_ok());
    assert_eq!(frames(s), vec![(ADDR, vec![0x40])]);
}

#[test]
fn send_primitives() {
    let mut s = session();
    assert!(s.send_command(0x12).is_ok());
    assert!(s.send_data_byte(0x41).is_ok());
    assert!(s.send_data(&[1, 2, 3]).is_ok());
    assert!(matches!(s.send_data(&[0u8; 40]), Err(LcdError::InvalidInputData)));
    assert_eq!(
        frames(s),
        vec![(ADDR, vec![0x00, 0x12]), (ADDR, vec![0x40, 0x41]), (ADDR, vec![0x40, 1, 2, 3])]
    );
}

#[test]
fn clear_line_writes_sixteen_spaces_between_two_locates() {
    for line in 1..=4u8 {
        let mut s = session();
        assert!(s.clear_line(line).is_ok());
        let loc = cmd(0x84 + row_base(line));
        let mut expected = vec![loc.clone()];
        expected.extend(std::iter::repeat(space()).take(16));
        expected.push(loc);
        assert_eq!(frames(s), expected);
    }
}

#[test]
fn clear_line_refuses_lines_off_the_display() {
    let mut s = session();
    assert!(matches!(s.clear_line(0), Err(LcdError::InvalidInputData)));
    assert!(matches!(s.clear_line(5), Err(LcdError::InvalidInputData)));
    assert!(frames(s).is_empty());
}

#[test]
fn clear_chars_writes_count_spaces() {
    let mut s = session();
    assert!(s.clear_chars((2, 5), 4).is_ok());
    let loc = cmd(0xA8);
    let mut expected = vec![loc.clone()];
    expected.extend(std::iter::repeat(space()).take(4));
    expected.push(loc);
    assert_eq!(frames(s), expected);
}

#[test]
fn clear_chars_past_the_line_end_is_not_refused() {
    let mut s = session();
    assert!(s.clear_chars((1, 14), 4).is_ok());
    let loc = cmd(0x84 + 13);
    let mut expected = vec![loc.clone()];
    expected.extend(std::iter::repeat(space()).take(4));
    expected.push(loc);
    assert_eq!(frames(s), expected);
}

#[test]
fn clear_chars_refuses_bad_arguments() {
    let mut s = session();
    for (rc, n) in [((0u8, 1u8), 1u8), ((5, 1), 1), ((1, 0), 1), ((1, 17), 1), ((1, 1), 0), ((1, 1), 17)] {
        assert!(matches!(s.clear_chars(rc, n), Err(LcdError::InvalidInputData)));
    }
    assert!(frames(s).is_empty());
}

#[test]
fn double_height_unset_sends_nothing() {
    let mut s = session();
    assert!(s.set_double_height().is_ok());
    assert!(frames(s).is_empty());
}

#[test]
fn init_with_default_config() {
    let mut s = session();
    assert!(s.init(Config::default()).is_ok());
    let port = s.release();
    assert_eq!(
        sent(port.records()),
        cmds(&[
            0x38, 0x06, 0x3A, 0x05, 0x3A, 0x09, 0x3A, 0x1E, 0x39, 0x1B, 0x39, 0x6C, 0x56, 0x6B, 0x38,
            0x0C, 0x84, 0x01,
        ])
    );
    let mut pauses = vec![15u32];
    pauses.extend(std::iter::repeat(100).take(11));
    assert_eq!(self::pauses(port.records()), pauses);
}

#[test]
fn init_pauses_before_each_step() {
    let mut s = session();
    assert!(s.init(Config::default()).is_ok());
    let port = s.release();
    let p = |ms| Record::Pause(ms);
    let c = |b| Record::Sent(ADDR, vec![0x00, b]);
    let expected = vec![
        p(15), c(0x38), c(0x06),
        p(100), c(0x3A), c(0x05),
        p(100),
        p(100), c(0x3A), c(0x09),
        p(100), c(0x3A), c(0x1E), c(0x39), c(0x1B),
        p(100), c(0x39),
        p(100), c(0x6C),
        p(100), c(0x56),
        p(100), c(0x6B),
        p(100), c(0x38), c(0x0C),
        p(100), c(0x84),
        p(100), c(0x01),
    ];
    assert_eq!(*port.records(), expected);
}

#[test]
fn init_with_double_height_and_bottom_view() {
    let mut config = Config::default();
    config.view_mode = ViewMode::Bottom;
    config.double_height = Some(DoubleHeight::Lines3Top);
    config.font_width = FontWidth::SixDot;
    config.display_control = DisplayConfig::new(true, true, false);
    let mut s = session();
    assert!(s.init(config).is_ok());
    assert!(s.set_double_height().is_ok());
    assert!(s.locate(2, 1).is_ok());
    assert_eq!(
        frames(s),
        cmds(&[
            0x38, 0x06, 0x3A, 0x06, 0x3A, 0x1F, 0x3C, 0x3A, 0x0D, 0x3A, 0x1E, 0x39, 0x1B, 0x39,
            0x6C, 0x56, 0x6B, 0x38, 0x0E, 0x80, 0x01, 0x3A, 0x1F, 0x3C, 0xA0,
        ])
    );
}

#[test]
fn cursor_and_blink_off_update_the_remembered_flags() {
    let mut s = session();
    assert!(s.set_display(DisplayConfig::new(true, true, true)).is_ok());
    assert!(s.set_cursor_off().is_ok());
    assert!(s.set_blinking_off().is_ok());
    assert!(s.set_cursor_off().is_ok());
    assert_eq!(frames(s), cmds(&[0x38, 0x0F, 0x0D, 0x0C, 0x0C]));
}

#[test]
fn entry_mode_home_clear_and_extended_function_set() {
    let mut s = session();
    assert!(s.set_entry_mode(EntryModeSettings::new(HorizontalDir::RightToLeft, true)).is_ok());
    assert!(s.home().is_ok());
    assert!(s.clear().is_ok());
    assert!(s.extended_function_set().is_ok());
    assert_eq!(frames(s), cmds(&[0x38, 0x05, 0x02, 0x01, 0x3A, 0x09]));
}

#[test]
fn setup_sends_the_fixed_sequence() {
    let mut s = session();
    assert!(s.setup().is_ok());
    let port = s.release();
    assert_eq!(
        sent(port.records()),
        cmds(&[
            0x38, 0x06, 0x3A, 0x09, 0x05, 0x1E, 0x39, 0x1B, 0x6C, 0x56, 0x6B, 0x38, 0x0F, 0x38,
            0x01,
        ])
    );
    let records = port.records();
    assert_eq!(pauses(records), vec![100]);
    assert_eq!(records[14], Record::Pause(100));
    assert_eq!(records[15], Record::Sent(ADDR, vec![0x00, 0x01]));
}

/// A transport that accepts a number of writes and then fails them all.
struct FailingPort {
    left: usize,
    accepted: usize,
    waited: u32,
    calls_after_failure: usize,
    failed: bool,
}

impl FailingPort {
    fn new(left: usize) -> Self {
        FailingPort { left, accepted: 0, waited: 0, calls_after_failure: 0, failed: false }
    }
}

#[derive(Debug, PartialEq)]
struct Nack;

impl Transport for FailingPort {
    type Error = Nack;

    fn write(&mut self, _address: u8, _bytes: &[u8]) -> Result<(), Nack> {
        if self.failed {
            self.calls_after_failure += 1;
        }
        if self.left == 0 {
            self.failed = true;
            return Err(Nack);
        }
        self.left -= 1;
        self.accepted += 1;
        Ok(())
    }

    fn delay_ms(&mut self, ms: u32) {
        if self.failed {
            self.calls_after_failure += 1;
        }
        self.waited += ms;
    }
}

#[test]
fn bus_error_stops_init() {
    let mut s = SSD18030::new_i2c(FailingPort::new(3), ADDR);
    assert!(matches!(s.init(Config::default()), Err(LcdError::I2c(Nack))));
    let port = s.release();
    assert_eq!(port.accepted, 3);
    assert_eq!(port.waited, 115);
    assert_eq!(port.calls_after_failure, 0);
}

#[test]
fn bus_error_stops_clear_line() {
    let mut s = SSD18030::new_i2c(FailingPort::new(5), ADDR);
    assert!(matches!(s.clear_line(3), Err(LcdError::I2c(Nack))));
    let port = s.release();
    assert_eq!(port.accepted, 5);
    assert_eq!(port.waited, 0);
    assert_eq!(port.calls_after_failure, 0);
}

#[test]
fn argument_errors_come_before_bus_errors() {
    let mut s = SSD18030::new_i2c(FailingPort::new(0), ADDR);
    assert!(matches!(s.locate(0, 1), Err(LcdError::InvalidInputData)));
    assert!(matches!(s.locate(1, 1), Err(LcdError::I2c(Nack))));
    assert!(matches!(s.clear_line(9), Err(LcdError::InvalidInputData)));
    assert!(matches!(s.clear_line(1), Err(LcdError::I2c(Nack))));
}

fn greet<L: Lcd>(lcd: &mut L) -> Result<(), L::Error> {
    lcd.clear()?;
    lcd.locate(1, 1)?;
    lcd.write("Hi")
}

#[test]
fn generic_use_through_the_lcd_trait() {
    let mut s = session();
    assert!(greet(&mut s).is_ok());
    assert_eq!(
        frames(s),
        vec![cmd(0x01), cmd(0x84), (ADDR, vec![0x40, b'H', b'i'])]
    );
}
