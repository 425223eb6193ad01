//! Encoders that turn controller settings into instruction bytes.
//!
//! Each value type covers one field group of the controller's instruction
//! tables. Its encoder is pure: the `spec_*` function states the byte as the
//! base opcode ORed with the field bits, and the executable method is proved
//! to return exactly that byte.

use vstd::prelude::*;

verus! {

/// Control byte that introduces a command byte on the bus.
pub const MODE_COMMAND: u8 = 0x00;

/// Control byte that introduces display data on the bus.
pub const MODE_DATA: u8 = 0x40;

pub const CMD_CLEAR_DISPLAY: u8 = 0x01;

pub const CMD_RETURN_HOME: u8 = 0x02;

pub const CMD_ENTRY_MODE_SET: u8 = 0x04;

pub const CMD_DISPLAY_SHIFT_LEFT: u8 = 0x08;

pub const CMD_DISPLAY_SHIFT_RIGHT: u8 = 0x0C;

pub const CMD_CURSOR_SHIFT_LEFT: u8 = 0x00;

pub const CMD_CURSOR_SHIFT_RIGHT: u8 = 0x04;

pub const CMD_SHIFT: u8 = 0x10;

pub const ADDR_CGRAM: u8 = 0x40;

pub const ADDR_DDRAM: u8 = 0x80;

/// DDRAM base offset of the top view relative to the bottom view.
pub const ADDR_DDRAM_TOP_OFFSET: u8 = 0x04;

/// Function set with RE = 1, IS = 0 (8-bit bus, 2/4 lines).
pub const CMD_8BIT_4LINES_RE1_IS0: u8 = 0x3A;

/// Function set with RE = 0, IS = 1.
pub const CMD_8BIT_4LINES_RE0_IS1: u8 = 0x39;

/// Function set with RE = 0, IS = 0 and double height on.
pub const CMD_8BIT_4LINES_RE0_IS0_DH1: u8 = 0x3C;

/// Function set with RE = 0, IS = 1 and double height on.
pub const CMD_8BIT_4LINES_RE0_IS1_DH1: u8 = 0x3D;

/// Function set with RE = 0, IS = 0.
pub const CMD_8BIT_4LINES_RE0_IS0: u8 = 0x38;

/// Bias setting BS1 = 1 (extended table, RE = 1, IS = 0).
pub const CMD_BS1_1: u8 = 0x1E;

pub const CMD_POWER_DOWN_DISABLE: u8 = 0x02;

/// Display on/off control (RE = 0).
pub const CMD_DISPLAY: u8 = 0x08;

/// Internal oscillator with BS0 = 1 (RE = 0, IS = 1).
pub const CMD_BS0_1: u8 = 0x1B;

pub const CMD_INTERNAL_DIVIDER: u8 = 0x13;

pub const CMD_CONTRAST_DEFAULT_DOGS164: u8 = 0x6B;

pub const CMD_POWER_CONTROL_DOGS164: u8 = 0x56;

pub const CMD_POWER_ICON_CONTRAST: u8 = 0x5C;

pub const CMD_FOLLOWER_CONTROL_DOGS164: u8 = 0x6C;

pub const CMD_FOLLOWER_CONTROL: u8 = 0x60;

pub const CMD_ROM_SELECT: u8 = 0x72;

/// Double-height line layouts (RE = 1, IS = 0 table).
pub const COMMAND_3LINES_TOP: u8 = 0x1F;

pub const COMMAND_3LINES_MIDDLE: u8 = 0x17;

pub const COMMAND_3LINES_BOTTOM: u8 = 0x13;

pub const COMMAND_2LINES: u8 = 0x1B;

/// One bit of the display on/off control instruction.
#[derive(Clone, Copy, Debug, PartialEq, Eq, Structural)]
pub enum DisplayFlag {
    DisplayOn,
    CursorOn,
    BlinkOn,
}

impl DisplayFlag {
    pub open spec fn spec_bit(self) -> u8 {
        match self {
            DisplayFlag::DisplayOn => 0x04,
            DisplayFlag::CursorOn => 0x02,
            DisplayFlag::BlinkOn => 0x01,
        }
    }

    #[verifier::when_used_as_spec(spec_bit)]
    pub fn bit(self) -> (r: u8)
        ensures
            r == self.spec_bit(),
    {
        match self {
            DisplayFlag::DisplayOn => 0x04,
            DisplayFlag::CursorOn => 0x02,
            DisplayFlag::BlinkOn => 0x01,
        }
    }
}

/// The set of display control flags: display on, cursor on, cursor blink.
#[derive(Clone, Copy, Debug, PartialEq, Eq, Structural)]
pub struct DisplayConfig {
    pub display_on: bool,
    pub cursor_on: bool,
    pub blink_on: bool,
}

impl DisplayConfig {
    /// Whether `flag` is in the set.
    pub open spec fn has(self, flag: DisplayFlag) -> bool {
        match flag {
            DisplayFlag::DisplayOn => self.display_on,
            DisplayFlag::CursorOn => self.cursor_on,
            DisplayFlag::BlinkOn => self.blink_on,
        }
    }

    /// The flags as they stand in the low three bits of the instruction.
    pub open spec fn spec_bits(&self) -> u8 {
        (if self.display_on {
            0x04u8
        } else {
            0x00u8
        }) | (if self.cursor_on {
            0x02u8
        } else {
            0x00u8
        }) | (if self.blink_on {
            0x01u8
        } else {
            0x00u8
        })
    }

    pub fn new(display_on: bool, cursor_on: bool, blink_on: bool) -> (r: Self)
        ensures
            r.display_on == display_on,
            r.cursor_on == cursor_on,
            r.blink_on == blink_on,
    {
        DisplayConfig { display_on, cursor_on, blink_on }
    }

    /// The set that holds `flag` alone.
    pub fn of(flag: DisplayFlag) -> (r: Self)
        ensures
            forall|f: DisplayFlag| #[trigger] r.has(f) <==> f == flag,
    {
        DisplayConfig {
            display_on: flag == DisplayFlag::DisplayOn,
            cursor_on: flag == DisplayFlag::CursorOn,
            blink_on: flag == DisplayFlag::BlinkOn,
        }
    }

    /// The flags that are in either set.
    pub fn union(self, other: Self) -> (r: Self)
        ensures
            forall|f: DisplayFlag| #[trigger] r.has(f) <==> self.has(f) || other.has(f),
    {
        DisplayConfig {
            display_on: self.display_on || other.display_on,
            cursor_on: self.cursor_on || other.cursor_on,
            blink_on: self.blink_on || other.blink_on,
        }
    }

    /// Takes `flag` out of the set and leaves the others.
    pub fn remove(&mut self, flag: DisplayFlag)
        ensures
            forall|f: DisplayFlag| #[trigger] final(self).has(f) <==> old(self).has(f) && f != flag,
    {
        match flag {
            DisplayFlag::DisplayOn => self.display_on = false,
            DisplayFlag::CursorOn => self.cursor_on = false,
            DisplayFlag::BlinkOn => self.blink_on = false,
        }
    }

    pub fn contains(&self, flag: DisplayFlag) -> (r: bool)
        ensures
            r == self.has(flag),
    {
        match flag {
            DisplayFlag::DisplayOn => self.display_on,
            DisplayFlag::CursorOn => self.cursor_on,
            DisplayFlag::BlinkOn => self.blink_on,
        }
    }

    #[verifier::when_used_as_spec(spec_bits)]
    pub fn bits(&self) -> (r: u8)
        ensures
            r == self.spec_bits(),
    {
        let d: u8 = if self.display_on {
            0x04
        } else {
            0x00
        };
        let c: u8 = if self.cursor_on {
            0x02
        } else {
            0x00
        };
        let b: u8 = if self.blink_on {
            0x01
        } else {
            0x00
        };
        d | c | b
    }
}

/// Horizontal scan or shift direction.
#[derive(Clone, Copy, Debug, PartialEq, Eq, Structural)]
pub enum HorizontalDir {
    RightToLeft,
    LeftToRight,
}

/// Vertical scan direction of the common electrodes.
#[derive(Clone, Copy, Debug, PartialEq, Eq, Structural)]
pub enum VerticalDir {
    TopToBottom,
    BottomToTop,
}

/// Entry mode: cursor movement direction and display shift on write.
#[derive(Clone, Copy, Debug)]
pub struct EntryModeSettings {
    pub direction: HorizontalDir,
    pub shift_incr: bool,
}

impl EntryModeSettings {
    pub fn new(direction: HorizontalDir, shift_incr: bool) -> (r: Self)
        ensures
            r.direction == direction,
            r.shift_incr == shift_incr,
    {
        Self { direction, shift_incr }
    }

    /// Base `0x04`, direction bit `0x02` for left to right, `0x01` for shift.
    pub open spec fn spec_cmd(&self) -> u8 {
        CMD_ENTRY_MODE_SET | (if self.direction == HorizontalDir::LeftToRight {
            0x02u8
        } else {
            0x00u8
        }) | (if self.shift_incr {
            0x01u8
        } else {
            0x00u8
        })
    }

    #[verifier::when_used_as_spec(spec_cmd)]
    pub fn cmd(&self) -> (r: u8)
        ensures
            r == self.spec_cmd(),
    {
        let shift_bit: u8 = if self.shift_incr {
            0x01
        } else {
            0x00
        };
        let direction_bit: u8 = match self.direction {
            HorizontalDir::LeftToRight => 0x02,
            HorizontalDir::RightToLeft => 0x00,
        };
        CMD_ENTRY_MODE_SET | direction_bit | shift_bit
    }
}

/// Scan directions of the segment and common electrodes.
#[derive(Clone, Copy, Debug)]
pub struct SegCommControl {
    pub seg_dir: HorizontalDir,
    pub com_dir: VerticalDir,
}

impl SegCommControl {
    pub fn new(seg_dir: HorizontalDir, com_dir: VerticalDir) -> (r: Self)
        ensures
            r.seg_dir == seg_dir,
            r.com_dir == com_dir,
    {
        Self { seg_dir, com_dir }
    }

    /// Base `0x40`, `0x01` for segments left to right, `0x20` for commons
    /// top to bottom.
    pub open spec fn spec_cmd(&self) -> u8 {
        0x40u8 | (if self.seg_dir == HorizontalDir::LeftToRight {
            0x01u8
        } else {
            0x00u8
        }) | (if self.com_dir == VerticalDir::TopToBottom {
            0x20u8
        } else {
            0x00u8
        })
    }

    #[verifier::when_used_as_spec(spec_cmd)]
    pub fn cmd(&self) -> (r: u8)
        ensures
            r == self.spec_cmd(),
    {
        let seg_bit: u8 = match self.seg_dir {
            HorizontalDir::LeftToRight => 0x01,
            HorizontalDir::RightToLeft => 0x00,
        };
        let com_bit: u8 = match self.com_dir {
            VerticalDir::TopToBottom => 0x20,
            VerticalDir::BottomToTop => 0x00,
        };
        0x40 | seg_bit | com_bit
    }
}

/// What a shift instruction moves.
#[derive(Clone, Copy, Debug, PartialEq, Eq, Structural)]
pub enum ShiftType {
    Display,
    Cursor,
}

/// Cursor or display shift instruction.
#[derive(Clone, Copy, Debug)]
pub struct ShiftSettings {
    pub mode: HorizontalDir,
    pub shift_type: ShiftType,
}

impl ShiftSettings {
    pub fn new(mode: HorizontalDir, shift_type: ShiftType) -> (r: Self)
        ensures
            r.mode == mode,
            r.shift_type == shift_type,
    {
        Self { mode, shift_type }
    }

    /// Base `0x10` ORed with the left variant for right to left and the
    /// right variant for left to right.
    pub open spec fn spec_cmd(&self) -> u8 {
        CMD_SHIFT | match (self.mode, self.shift_type) {
            (HorizontalDir::RightToLeft, ShiftType::Display) => CMD_DISPLAY_SHIFT_LEFT,
            (HorizontalDir::RightToLeft, ShiftType::Cursor) => CMD_CURSOR_SHIFT_LEFT,
            (HorizontalDir::LeftToRight, ShiftType::Display) => CMD_DISPLAY_SHIFT_RIGHT,
            (HorizontalDir::LeftToRight, ShiftType::Cursor) => CMD_CURSOR_SHIFT_RIGHT,
        }
    }

    #[verifier::when_used_as_spec(spec_cmd)]
    pub fn cmd(&self) -> (r: u8)
        ensures
            r == self.spec_cmd(),
    {
        match (self.mode, self.shift_type) {
            (HorizontalDir::RightToLeft, ShiftType::Display) => CMD_SHIFT | CMD_DISPLAY_SHIFT_LEFT,
            (HorizontalDir::RightToLeft, ShiftType::Cursor) => CMD_SHIFT | CMD_CURSOR_SHIFT_LEFT,
            (HorizontalDir::LeftToRight, ShiftType::Display) => CMD_SHIFT | CMD_DISPLAY_SHIFT_RIGHT,
            (HorizontalDir::LeftToRight, ShiftType::Cursor) => CMD_SHIFT | CMD_CURSOR_SHIFT_RIGHT,
        }
    }
}

/// Viewing direction of the module.
#[derive(Clone, Copy, Debug, PartialEq, Eq, Structural)]
pub enum ViewMode {
    Top,
    Bottom,
}

impl ViewMode {
    /// The view-mode instruction (RE = 1, IS = 0 table).
    pub open spec fn spec_cmd(self) -> u8 {
        match self {
            ViewMode::Top => 0x05,
            ViewMode::Bottom => 0x06,
        }
    }

    #[verifier::when_used_as_spec(spec_cmd)]
    pub fn cmd(self) -> (r: u8)
        ensures
            r == self.spec_cmd(),
    {
        match self {
            ViewMode::Top => 0x05,
            ViewMode::Bottom => 0x06,
        }
    }
}

/// Double-height line layouts.
#[derive(Clone, Copy, Debug, PartialEq, Eq, Structural)]
pub enum DoubleHeight {
    Lines2,
    Lines3Top,
    Lines3Middle,
    Lines3Bottom,
}

impl DoubleHeight {
    /// The two UD bits that select the layout.
    pub open spec fn spec_bits(self) -> u8 {
        match self {
            DoubleHeight::Lines2 => 2,
            DoubleHeight::Lines3Top => 3,
            DoubleHeight::Lines3Middle => 1,
            DoubleHeight::Lines3Bottom => 0,
        }
    }

    #[verifier::when_used_as_spec(spec_bits)]
    pub fn bits(self) -> (r: u8)
        ensures
            r == self.spec_bits(),
    {
        match self {
            DoubleHeight::Lines2 => 2,
            DoubleHeight::Lines3Top => 3,
            DoubleHeight::Lines3Middle => 1,
            DoubleHeight::Lines3Bottom => 0,
        }
    }

    /// The complete double-height instruction the driver sends for the layout.
    pub open spec fn spec_cmd(self) -> u8 {
        match self {
            DoubleHeight::Lines2 => COMMAND_2LINES,
            DoubleHeight::Lines3Top => COMMAND_3LINES_TOP,
            DoubleHeight::Lines3Middle => COMMAND_3LINES_MIDDLE,
            DoubleHeight::Lines3Bottom => COMMAND_3LINES_BOTTOM,
        }
    }

    #[verifier::when_used_as_spec(spec_cmd)]
    pub fn cmd(self) -> (r: u8)
        ensures
            r == self.spec_cmd(),
    {
        match self {
            DoubleHeight::Lines2 => COMMAND_2LINES,
            DoubleHeight::Lines3Top => COMMAND_3LINES_TOP,
            DoubleHeight::Lines3Middle => COMMAND_3LINES_MIDDLE,
            DoubleHeight::Lines3Bottom => COMMAND_3LINES_BOTTOM,
        }
    }
}

/// Character ROM selection.
#[derive(Clone, Copy, Debug, PartialEq, Eq, Structural)]
pub enum Rom {
    A,
    B,
    C,
}

impl Rom {
    pub open spec fn spec_bits(self) -> u8 {
        match self {
            Rom::A => 0x00,
            Rom::B => 0x04,
            Rom::C => 0x08,
        }
    }

    #[verifier::when_used_as_spec(spec_bits)]
    pub fn bits(self) -> (r: u8)
        ensures
            r == self.spec_bits(),
    {
        match self {
            Rom::A => 0x00,
            Rom::B => 0x04,
            Rom::C => 0x08,
        }
    }
}

/// Booster, icon and contrast setting (RE = 0, IS = 1 table), sent as two
/// instructions.
#[derive(Clone, Copy, Debug)]
pub struct PowerIconContrast {
    pub booster: bool,
    pub icon: bool,
    /// Six-bit contrast value.
    pub contrast: u8,
}

impl Default for PowerIconContrast {
    fn default() -> (r: Self)
        ensures
            r.booster,
            !r.icon,
            r.contrast == 42,
    {
        Self { booster: true, icon: false, contrast: 42 }
    }
}

impl PowerIconContrast {
    /// Contrast above 63 is clamped to 63, not rejected.
    pub fn new(booster: bool, icon: bool, contrast: u8) -> (r: Self)
        ensures
            r.booster == booster,
            r.icon == icon,
            r.contrast == if contrast > 63 {
                63
            } else {
                contrast
            },
    {
        let contrast_checked: u8 = if contrast > 63 {
            63
        } else {
            contrast
        };
        Self { booster, icon, contrast: contrast_checked }
    }

    /// `0x50`, booster `0x04`, icon `0x08`, contrast bits C5 and C4.
    pub open spec fn spec_cmd_byte1(&self) -> u8 {
        0x50u8 | (if self.booster {
            0x04u8
        } else {
            0x00u8
        }) | (if self.icon {
            0x08u8
        } else {
            0x00u8
        }) | ((self.contrast >> 4u8) & 0x03u8)
    }

    /// `0x70` with contrast bits C3 to C0.
    pub open spec fn spec_cmd_byte2(&self) -> u8 {
        0x70u8 | (self.contrast & 0x0Fu8)
    }

    #[verifier::when_used_as_spec(spec_cmd_byte1)]
    pub fn cmd_byte1(&self) -> (r: u8)
        ensures
            r == self.spec_cmd_byte1(),
    {
        let booster_bit: u8 = if self.booster {
            0x04
        } else {
            0x00
        };
        let icon_bit: u8 = if self.icon {
            0x08
        } else {
            0x00
        };
        0x50 | booster_bit | icon_bit | ((self.contrast >> 4u8) & 0x03)
    }

    #[verifier::when_used_as_spec(spec_cmd_byte2)]
    pub fn cmd_byte2(&self) -> (r: u8)
        ensures
            r == self.spec_cmd_byte2(),
    {
        0x70 | (self.contrast & 0x0F)
    }
}

/// Voltage follower control (RE = 0, IS = 1 table).
#[derive(Clone, Copy, Debug)]
pub struct FollowerControl {
    pub rab: Rab,
    pub d_on: bool,
}

impl FollowerControl {
    pub fn new(rab: Rab, d_on: bool) -> (r: Self)
        ensures
            r.rab == rab,
            r.d_on == d_on,
    {
        Self { rab, d_on }
    }

    /// `0x60` with the amplifier ratio in bits 0 to 2 and the follower
    /// switch in bit 3.
    pub open spec fn spec_cmd(&self) -> u8 {
        CMD_FOLLOWER_CONTROL | self.rab.bits() | (if self.d_on {
            0x08u8
        } else {
            0x00u8
        })
    }

    #[verifier::when_used_as_spec(spec_cmd)]
    pub fn cmd(&self) -> (r: u8)
        ensures
            r == self.spec_cmd(),
    {
        let d_bit: u8 = if self.d_on {
            0x08
        } else {
            0x00
        };
        CMD_FOLLOWER_CONTROL | self.rab.bits() | d_bit
    }
}

impl Default for FollowerControl {
    fn default() -> (r: Self)
        ensures
            r.rab == Rab::IR4_3p6,
            r.d_on,
    {
        Self { rab: Rab::IR4_3p6, d_on: true }
    }
}

/// Booster amplifier ratio of the voltage follower.
#[derive(Clone, Copy, Debug, PartialEq, Eq, Structural, Default)]
pub enum Rab {
    IR0_1p9,
    IR1_2p2,
    IR2_2p6,
    IR3_3p0,
    #[default]
    IR4_3p6,
    IR5_4p4,
    IR6_5p3,
    IR7_6p5,
}

impl Rab {
    pub open spec fn spec_bits(self) -> u8 {
        match self {
            Rab::IR0_1p9 => 0,
            Rab::IR1_2p2 => 1,
            Rab::IR2_2p6 => 2,
            Rab::IR3_3p0 => 3,
            Rab::IR4_3p6 => 4,
            Rab::IR5_4p4 => 5,
            Rab::IR6_5p3 => 6,
            Rab::IR7_6p5 => 7,
        }
    }

    #[verifier::when_used_as_spec(spec_bits)]
    pub fn bits(self) -> (r: u8)
        ensures
            r == self.spec_bits(),
    {
        match self {
            Rab::IR0_1p9 => 0,
            Rab::IR1_2p2 => 1,
            Rab::IR2_2p6 => 2,
            Rab::IR3_3p0 => 3,
            Rab::IR4_3p6 => 4,
            Rab::IR5_4p4 => 5,
            Rab::IR6_5p3 => 6,
            Rab::IR7_6p5 => 7,
        }
    }
}

/// Extended function set (RE = 1 table): font width, black/white
/// inversion, four-line mode.
#[derive(Clone, Copy, Debug)]
pub struct ExtendedFunctionSet {
    /// FW bit.
    pub font_width: FontWidth,
    /// B/W bit.
    pub bw_inversion: bool,
    /// NW bit.
    pub four_line_enabled: bool,
}

impl ExtendedFunctionSet {
    pub fn new(font_width: FontWidth, bw_inversion: bool, four_line_enabled: bool) -> (r: Self)
        ensures
            r.font_width == font_width,
            r.bw_inversion == bw_inversion,
            r.four_line_enabled == four_line_enabled,
    {
        Self { font_width, bw_inversion, four_line_enabled }
    }

    /// `0x08`, font width in bit 2, inversion in bit 1, four lines in bit 0.
    pub open spec fn spec_cmd(&self) -> u8 {
        0x08u8 | (self.font_width.bits() << 2u8) | (if self.bw_inversion {
            0x02u8
        } else {
            0x00u8
        }) | (if self.four_line_enabled {
            0x01u8
        } else {
            0x00u8
        })
    }

    #[verifier::when_used_as_spec(spec_cmd)]
    pub fn cmd(&self) -> (r: u8)
        ensures
            r == self.spec_cmd(),
    {
        let bw_bit: u8 = if self.bw_inversion {
            0x02
        } else {
            0x00
        };
        let nw_bit: u8 = if self.four_line_enabled {
            0x01
        } else {
            0x00
        };
        0x08 | (self.font_width.bits() << 2u8) | bw_bit | nw_bit
    }
}

impl Default for ExtendedFunctionSet {
    fn default() -> (r: Self)
        ensures
            r.font_width == FontWidth::FiveDot,
            !r.bw_inversion,
            r.four_line_enabled,
    {
        Self { font_width: FontWidth::FiveDot, bw_inversion: false, four_line_enabled: true }
    }
}

/// Function set: the instruction that also selects the instruction table
/// through its RE and IS bits.
#[derive(Clone, Copy, Debug)]
pub struct DisplaySettings {
    /// N bit.
    pub line_number_control: LineDisplayMode,
    /// DH bit (RE = 0 only).
    pub double_height: bool,
    /// BE bit (RE = 1 only).
    pub data_blink_enable: bool,
    /// REV bit (RE = 1 only).
    pub reverse_enable: bool,
}

impl DisplaySettings {
    pub fn new(
        line_number_control: LineDisplayMode,
        double_height: bool,
        data_blink: bool,
        reverse_enabled: bool,
    ) -> (r: Self)
        ensures
            r.line_number_control == line_number_control,
            r.double_height == double_height,
            r.data_blink_enable == data_blink,
            r.reverse_enable == reverse_enabled,
    {
        Self {
            line_number_control,
            double_height,
            data_blink_enable: data_blink,
            reverse_enable: reverse_enabled,
        }
    }

    /// RE = 0, IS = 0: `0x30`, line mode in bit 3, double height in bit 2.
    pub open spec fn spec_re0_is0(&self) -> u8 {
        0x30u8 | (self.line_number_control.bits() << 3u8) | (if self.double_height {
            0x04u8
        } else {
            0x00u8
        })
    }

    /// RE = 0, IS = 1: the RE = 0, IS = 0 instruction with bit 0 set.
    pub open spec fn spec_re0_is1(&self) -> u8 {
        self.spec_re0_is0() | 0x01u8
    }

    /// RE = 1, IS = 0: `0x32`, line mode in bit 3, blink in bit 2, reverse
    /// in bit 0.
    pub open spec fn spec_re1_is0(&self) -> u8 {
        0x32u8 | (self.line_number_control.bits() << 3u8) | (if self.data_blink_enable {
            0x04u8
        } else {
            0x00u8
        }) | (if self.reverse_enable {
            0x01u8
        } else {
            0x00u8
        })
    }

    #[verifier::when_used_as_spec(spec_re0_is0)]
    pub fn cmd_re0_is0(&self) -> (r: u8)
        ensures
            r == self.spec_re0_is0(),
    {
        let dh_bit: u8 = if self.double_height {
            0x04
        } else {
            0x00
        };
        0x30 | (self.line_number_control.bits() << 3u8) | dh_bit
    }

    #[verifier::when_used_as_spec(spec_re0_is1)]
    pub fn cmd_re0_is1(&self) -> (r: u8)
        ensures
            r == self.spec_re0_is1(),
    {
        self.cmd_re0_is0() | 0x01
    }

    #[verifier::when_used_as_spec(spec_re1_is0)]
    pub fn cmd_re1_is0(&self) -> (r: u8)
        ensures
            r == self.spec_re1_is0(),
    {
        let be_bit: u8 = if self.data_blink_enable {
            0x04
        } else {
            0x00
        };
        let rev_bit: u8 = if self.reverse_enable {
            0x01
        } else {
            0x00
        };
        0x32 | (self.line_number_control.bits() << 3u8) | be_bit | rev_bit
    }

    /// RE = 1, IS = 1 takes two instructions: the RE = 0, IS = 1 one and then
    /// the RE = 1, IS = 0 one.
    pub fn cmds_re1_is1(&self) -> (r: [u8; 2])
        ensures
            r@ == seq![self.spec_re0_is1(), self.spec_re1_is0()],
    {
        let cmd1 = self.cmd_re0_is1();
        let cmd2 = self.cmd_re1_is0();
        let r = [cmd1, cmd2];
        assert(r@ =~= seq![cmd1, cmd2]);
        r
    }
}

/// Double-height layout, bias bit BS1 and dot shift (RE = 1, IS = 0 table).
#[derive(Clone, Copy, Debug)]
pub struct DoubleHeightBiasDisplayShift {
    pub double_height_mode: DoubleHeight,
    pub display_dot_shift: bool,
    pub bs1: bool,
}

impl DoubleHeightBiasDisplayShift {
    pub fn new(double_height_mode: DoubleHeight, display_dot_shift: bool, bs1: bool) -> (r: Self)
        ensures
            r.double_height_mode == double_height_mode,
            r.display_dot_shift == display_dot_shift,
            r.bs1 == bs1,
    {
        Self { double_height_mode, display_dot_shift, bs1 }
    }

    /// `0x10`, layout in bits 2 and 3, BS1 in bit 1, dot shift in bit 0.
    pub open spec fn spec_cmd(&self) -> u8 {
        0x10u8 | (self.double_height_mode.bits() << 2u8) | (if self.display_dot_shift {
            0x01u8
        } else {
            0x00u8
        }) | (if self.bs1 {
            0x02u8
        } else {
            0x00u8
        })
    }

    #[verifier::when_used_as_spec(spec_cmd)]
    pub fn cmd(&self) -> (r: u8)
        ensures
            r == self.spec_cmd(),
    {
        let shift_bit: u8 = if self.display_dot_shift {
            0x01
        } else {
            0x00
        };
        let bs1_bit: u8 = if self.bs1 {
            0x02
        } else {
            0x00
        };
        0x10 | (self.double_height_mode.bits() << 2u8) | shift_bit | bs1_bit
    }
}

/// Internal oscillator frequency and bias bit BS0 (RE = 0, IS = 1 table).
#[derive(Clone, Copy, Debug)]
pub struct OscillatorSettings {
    pub freq: OscillatorFreq,
    pub bs0: bool,
}

impl Default for OscillatorSettings {
    fn default() -> (r: Self)
        ensures
            r.freq == OscillatorFreq::Freq540kHz,
            r.bs0,
    {
        Self { freq: OscillatorFreq::Freq540kHz, bs0: true }
    }
}

impl OscillatorSettings {
    pub fn new(freq: OscillatorFreq, bs0: bool) -> (r: Self)
        ensures
            r.freq == freq,
            r.bs0 == bs0,
    {
        Self { freq, bs0 }
    }

    /// `0x10`, frequency in bits 0 to 2, BS0 in bit 3.
    pub open spec fn spec_cmd(&self) -> u8 {
        0x10u8 | self.freq.bits() | (if self.bs0 {
            0x08u8
        } else {
            0x00u8
        })
    }

    #[verifier::when_used_as_spec(spec_cmd)]
    pub fn cmd(&self) -> (r: u8)
        ensures
            r == self.spec_cmd(),
    {
        let bs0_bit: u8 = if self.bs0 {
            0x08
        } else {
            0x00
        };
        0x10 | self.freq.bits() | bs0_bit
    }
}

/// Font width.
#[derive(Clone, Copy, Debug, PartialEq, Eq, Structural, Default)]
pub enum FontWidth {
    #[default]
    FiveDot,
    SixDot,
}

impl FontWidth {
    pub open spec fn spec_bits(self) -> u8 {
        match self {
            FontWidth::FiveDot => 0,
            FontWidth::SixDot => 1,
        }
    }

    #[verifier::when_used_as_spec(spec_bits)]
    pub fn bits(self) -> (r: u8)
        ensures
            r == self.spec_bits(),
    {
        match self {
            FontWidth::FiveDot => 0,
            FontWidth::SixDot => 1,
        }
    }
}

/// Line count selection (N bit).
#[derive(Clone, Copy, Debug, PartialEq, Eq, Structural)]
pub enum LineDisplayMode {
    OneOrThreeLines,
    TwoOrFourLines,
}

impl LineDisplayMode {
    pub open spec fn spec_bits(self) -> u8 {
        match self {
            LineDisplayMode::OneOrThreeLines => 0,
            LineDisplayMode::TwoOrFourLines => 1,
        }
    }

    #[verifier::when_used_as_spec(spec_bits)]
    pub fn bits(self) -> (r: u8)
        ensures
            r == self.spec_bits(),
    {
        match self {
            LineDisplayMode::OneOrThreeLines => 0,
            LineDisplayMode::TwoOrFourLines => 1,
        }
    }
}

/// Internal oscillator frequency.
#[derive(Clone, Copy, Debug, PartialEq, Eq, Structural)]
pub enum OscillatorFreq {
    Freq680kHz,
    Freq640kHz,
    Freq620kHz,
    Freq580kHz,
    Freq540kHz,
    Freq500kHz,
    Freq460kHz,
    Freq420kHz,
}

impl OscillatorFreq {
    pub open spec fn spec_bits(self) -> u8 {
        match self {
            OscillatorFreq::Freq680kHz => 7,
            OscillatorFreq::Freq640kHz => 6,
            OscillatorFreq::Freq620kHz => 5,
            OscillatorFreq::Freq580kHz => 4,
            OscillatorFreq::Freq540kHz => 3,
            OscillatorFreq::Freq500kHz => 2,
            OscillatorFreq::Freq460kHz => 1,
            OscillatorFreq::Freq420kHz => 0,
        }
    }

    #[verifier::when_used_as_spec(spec_bits)]
    pub fn bits(self) -> (r: u8)
        ensures
            r == self.spec_bits(),
    {
        match self {
            OscillatorFreq::Freq680kHz => 7,
            OscillatorFreq::Freq640kHz => 6,
            OscillatorFreq::Freq620kHz => 5,
            OscillatorFreq::Freq580kHz => 4,
            OscillatorFreq::Freq540kHz => 3,
            OscillatorFreq::Freq500kHz => 2,
            OscillatorFreq::Freq460kHz => 1,
            OscillatorFreq::Freq420kHz => 0,
        }
    }
}

} // verus!
