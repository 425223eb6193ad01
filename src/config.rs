//! The configuration a session is initialised with.

use vstd::prelude::*;
use crate::commands::{
    DisplayConfig, DisplaySettings, DoubleHeight, EntryModeSettings, FontWidth, HorizontalDir,
    LineDisplayMode, OscillatorFreq, OscillatorSettings, Rom, SegCommControl, VerticalDir,
    ViewMode,
};

verus! {

/// All settings the driver applies to the controller. The fields are not
/// checked against each other.
#[derive(Clone, Copy, Debug)]
pub struct Config {
    pub display_control: DisplayConfig,
    pub entry_mode: EntryModeSettings,
    pub seg_comm: SegCommControl,
    pub view_mode: ViewMode,
    pub double_height: Option<DoubleHeight>,
    pub charset: Rom,
    pub display_settings: DisplaySettings,
    pub osc_freq_cmd: OscillatorSettings,
    pub bw_inversion: bool,
    pub font_width: FontWidth,
    pub four_line_enabled: bool,
}

impl Config {
    /// The default settings: display on without cursor or blink,
    /// left-to-right entry without shift, segments left to right and
    /// commons top to bottom, top view, no double height, ROM A, two or
    /// four lines without blink or reverse, 540 kHz with BS0, no
    /// inversion, 5-dot font, four lines.
    pub open spec fn is_default(&self) -> bool {
        &&& self.four_line_enabled
        &&& !self.bw_inversion
        &&& self.font_width == FontWidth::FiveDot
        &&& self.display_control == (DisplayConfig { display_on: true, cursor_on: false, blink_on: false })
        &&& self.entry_mode.direction == HorizontalDir::LeftToRight
        &&& !self.entry_mode.shift_incr
        &&& self.seg_comm.seg_dir == HorizontalDir::LeftToRight
        &&& self.seg_comm.com_dir == VerticalDir::TopToBottom
        &&& self.view_mode == ViewMode::Top
        &&& self.charset == Rom::A
        &&& self.display_settings.line_number_control == LineDisplayMode::TwoOrFourLines
        &&& !self.display_settings.double_height
        &&& !self.display_settings.data_blink_enable
        &&& !self.display_settings.reverse_enable
        &&& self.osc_freq_cmd.freq == OscillatorFreq::Freq540kHz
        &&& self.osc_freq_cmd.bs0
        &&& self.double_height.is_none()
    }
}

impl Default for Config {
    fn default() -> (r: Self)
        ensures
            r.is_default(),
    {
        Config {
            four_line_enabled: true,
            bw_inversion: false,
            font_width: FontWidth::FiveDot,
            display_control: DisplayConfig::new(true, false, false),
            entry_mode: EntryModeSettings::new(HorizontalDir::LeftToRight, false),
            seg_comm: SegCommControl {
                seg_dir: HorizontalDir::LeftToRight,
                com_dir: VerticalDir::TopToBottom,
            },
            view_mode: ViewMode::Top,
            charset: Rom::A,
            display_settings: DisplaySettings::new(
                LineDisplayMode::TwoOrFourLines,
                false,
                false,
                false,
            ),
            osc_freq_cmd: OscillatorSettings::default(),
            double_height: None,
        }
    }
}

} // verus!
