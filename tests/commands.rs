use dogs164::commands::{
    DisplayConfig, DisplayFlag, DisplaySettings, DoubleHeight, DoubleHeightBiasDisplayShift,
    EntryModeSettings, ExtendedFunctionSet, FollowerControl, FontWidth, HorizontalDir,
    LineDisplayMode, OscillatorFreq, OscillatorSettings, PowerIconContrast, Rab, Rom,
    SegCommControl, ShiftSettings, ShiftType, VerticalDir, ViewMode,
};
use dogs164::config::Config;

#[test]
fn test_entry_mode_settings() {
    let ems = EntryModeSettings::new(HorizontalDir::LeftToRight, true);
    assert_eq!(ems.cmd(), 0x07);

    let ems = EntryModeSettings::new(HorizontalDir::RightToLeft, false);
    assert_eq!(ems.cmd(), 0x04);

    let ems = EntryModeSettings::new(HorizontalDir::LeftToRight, false);
    assert_eq!(ems.cmd(), 0x06);
}

#[test]
fn test_seg_comm_control() {
    let scc = SegCommControl::new(HorizontalDir::LeftToRight, VerticalDir::TopToBottom);
    assert_eq!(scc.cmd(), 0x61);

    let scc = SegCommControl::new(HorizontalDir::RightToLeft, VerticalDir::BottomToTop);
    assert_eq!(scc.cmd(), 0x40);
}

#[test]
fn test_shift_settings() {
    let ss = ShiftSettings::new(HorizontalDir::LeftToRight, ShiftType::Display);
    assert_eq!(ss.cmd(), 0x1C);

    let ss = ShiftSettings::new(HorizontalDir::RightToLeft, ShiftType::Cursor);
    assert_eq!(ss.cmd(), 0x10);
}

#[test]
fn test_power_icon_contrast() {
    let pic = PowerIconContrast::new(true, true, 45);
    assert_eq!(pic.cmd_byte1(), 0x5E);
    assert_eq!(pic.cmd_byte2(), 0x7D);

    let pic = PowerIconContrast::new(false, false, 15);
    assert_eq!(pic.cmd_byte1(), 0x50);
    assert_eq!(pic.cmd_byte2(), 0x7F);
}

#[test]
fn test_function_set_cmd() {
    let fsc = DisplaySettings::new(LineDisplayMode::TwoOrFourLines, false, false, false);

    assert_eq!(fsc.cmd_re0_is0(), 0x38);
    assert_eq!(fsc.cmd_re0_is1(), 0x39);
    assert_eq!(fsc.cmd_re1_is0(), 0x3A);
    assert_eq!(fsc.cmds_re1_is1(), [0x39, 0x3A]);

    let fsc_dh = DisplaySettings::new(LineDisplayMode::TwoOrFourLines, true, false, false);
    assert_eq!(fsc_dh.cmd_re0_is0(), 0x3C);
    assert_eq!(fsc_dh.cmd_re0_is1(), 0x3D);
}

#[test]
fn test_extended_function_set() {
    let efs = ExtendedFunctionSet::new(FontWidth::SixDot, true, true);
    assert_eq!(efs.cmd(), 0x0F);
    let efs = ExtendedFunctionSet::new(FontWidth::FiveDot, false, false);
    assert_eq!(efs.cmd(), 0x08);
}

#[test]
fn test_follower_control() {
    let fc = FollowerControl::new(Rab::IR3_3p0, true);
    assert_eq!(fc.cmd(), 0x6B);
    let fc = FollowerControl::new(Rab::IR0_1p9, false);
    assert_eq!(fc.cmd(), 0x60);
}

#[test]
fn test_osc_freq_cmd() {
    let ofc = OscillatorSettings::new(OscillatorFreq::Freq540kHz, true);
    assert_eq!(ofc.cmd(), 0x1B);
    let ofc = OscillatorSettings::new(OscillatorFreq::Freq420kHz, false);
    assert_eq!(ofc.cmd(), 0x10);
}

const DIRS: [HorizontalDir; 2] = [HorizontalDir::RightToLeft, HorizontalDir::LeftToRight];

#[test]
fn entry_mode_table() {
    for (dir, dir_bit) in DIRS.iter().zip([0x00u8, 0x02]) {
        for (shift, shift_bit) in [(false, 0x00u8), (true, 0x01)] {
            assert_eq!(EntryModeSettings::new(*dir, shift).cmd(), 0x04 | dir_bit | shift_bit);
        }
    }
}

#[test]
fn seg_comm_table() {
    let coms = [(VerticalDir::TopToBottom, 0x20u8), (VerticalDir::BottomToTop, 0x00)];
    for (seg, seg_bit) in DIRS.iter().zip([0x00u8, 0x01]) {
        for (com, com_bit) in coms {
            assert_eq!(SegCommControl::new(*seg, com).cmd(), 0x40 | seg_bit | com_bit);
        }
    }
}

#[test]
fn shift_table() {
    let table = [
        (HorizontalDir::RightToLeft, ShiftType::Display, 0x18u8),
        (HorizontalDir::LeftToRight, ShiftType::Display, 0x1C),
        (HorizontalDir::RightToLeft, ShiftType::Cursor, 0x10),
        (HorizontalDir::LeftToRight, ShiftType::Cursor, 0x14),
    ];
    for (dir, kind, byte) in table {
        assert_eq!(ShiftSettings::new(dir, kind).cmd(), byte);
    }
}

#[test]
fn power_icon_contrast_table() {
    for booster in [false, true] {
        for icon in [false, true] {
            for contrast in 0u8..=63 {
                let pic = PowerIconContrast::new(booster, icon, contrast);
                let b = if booster { 0x04 } else { 0 };
                let i = if icon { 0x08 } else { 0 };
                assert_eq!(pic.cmd_byte1(), 0x50 | b | i | ((contrast >> 4) & 0x3));
                assert_eq!(pic.cmd_byte2(), 0x70 | (contrast & 0x0F));
            }
        }
    }
}

#[test]
fn contrast_is_clamped_to_63() {
    let pic = PowerIconContrast::new(false, false, 200);
    assert_eq!(pic.contrast, 63);
    assert_eq!(pic.cmd_byte1() & 0x03, 0x3);
    assert_eq!(pic.cmd_byte1(), 0x53);
    assert_eq!(pic.cmd_byte2(), 0x7F);
    assert_eq!(PowerIconContrast::new(true, false, 64).contrast, 63);
    assert_eq!(PowerIconContrast::new(true, false, 63).contrast, 63);
    assert_eq!(PowerIconContrast::new(true, false, 255).cmd_byte1(), 0x57);
}

#[test]
fn follower_table() {
    let rabs = [
        Rab::IR0_1p9,
        Rab::IR1_2p2,
        Rab::IR2_2p6,
        Rab::IR3_3p0,
        Rab::IR4_3p6,
        Rab::IR5_4p4,
        Rab::IR6_5p3,
        Rab::IR7_6p5,
    ];
    for (bits, rab) in rabs.iter().enumerate() {
        assert_eq!(FollowerControl::new(*rab, false).cmd(), 0x60 | bits as u8);
        assert_eq!(FollowerControl::new(*rab, true).cmd(), 0x68 | bits as u8);
    }
    assert_eq!(FollowerControl::default().cmd(), 0x6C);
}

#[test]
fn extended_function_set_table() {
    for (fw, fw_bit) in [(FontWidth::FiveDot, 0u8), (FontWidth::SixDot, 0x04)] {
        for (bw, bw_bit) in [(false, 0u8), (true, 0x02)] {
            for (nw, nw_bit) in [(false, 0u8), (true, 0x01)] {
                assert_eq!(ExtendedFunctionSet::new(fw, bw, nw).cmd(), 0x08 | fw_bit | bw_bit | nw_bit);
            }
        }
    }
    assert_eq!(ExtendedFunctionSet::default().cmd(), 0x09);
}

#[test]
fn function_set_table() {
    for (n, n_bit) in [(LineDisplayMode::OneOrThreeLines, 0u8), (LineDisplayMode::TwoOrFourLines, 0x08)] {
        for dh in [false, true] {
            for be in [false, true] {
                for rev in [false, true] {
                    let ds = DisplaySettings::new(n, dh, be, rev);
                    let re0 = 0x30 | n_bit | if dh { 0x04 } else { 0 };
                    let re1 = 0x32 | n_bit | if be { 0x04 } else { 0 } | if rev { 0x01 } else { 0 };
                    assert_eq!(ds.cmd_re0_is0(), re0);
                    assert_eq!(ds.cmd_re0_is1(), re0 | 0x01);
                    assert_eq!(ds.cmd_re1_is0(), re1);
                    assert_eq!(ds.cmds_re1_is1(), [re0 | 0x01, re1]);
                }
            }
        }
    }
    let ds = DisplaySettings::new(LineDisplayMode::OneOrThreeLines, false, true, true);
    assert_eq!(ds.cmd_re1_is0(), 0x37);
}

#[test]
fn double_height_bias_shift_table() {
    let modes = [
        (DoubleHeight::Lines3Bottom, 0u8),
        (DoubleHeight::Lines3Middle, 1),
        (DoubleHeight::Lines2, 2),
        (DoubleHeight::Lines3Top, 3),
    ];
    for (mode, ud) in modes {
        for shift in [false, true] {
            for bs1 in [false, true] {
                let expected = 0x10 | ud << 2 | if shift { 0x01 } else { 0 } | if bs1 { 0x02 } else { 0 };
                assert_eq!(DoubleHeightBiasDisplayShift::new(mode, shift, bs1).cmd(), expected);
            }
        }
    }
    assert_eq!(DoubleHeightBiasDisplayShift::new(DoubleHeight::Lines3Top, true, true).cmd(), 0x1F);
}

#[test]
fn oscillator_table() {
    let freqs = [
        (OscillatorFreq::Freq420kHz, 0u8),
        (OscillatorFreq::Freq460kHz, 1),
        (OscillatorFreq::Freq500kHz, 2),
        (OscillatorFreq::Freq540kHz, 3),
        (OscillatorFreq::Freq580kHz, 4),
        (OscillatorFreq::Freq620kHz, 5),
        (OscillatorFreq::Freq640kHz, 6),
        (OscillatorFreq::Freq680kHz, 7),
    ];
    for (freq, bits) in freqs {
        assert_eq!(OscillatorSettings::new(freq, false).cmd(), 0x10 | bits);
        assert_eq!(OscillatorSettings::new(freq, true).cmd(), 0x18 | bits);
    }
    assert_eq!(OscillatorSettings::default().cmd(), 0x1B);
}

#[test]
fn enum_values() {
    assert_eq!(ViewMode::Top.cmd(), 0x05);
    assert_eq!(ViewMode::Bottom.cmd(), 0x06);
    assert_eq!(Rom::A.bits(), 0x00);
    assert_eq!(Rom::B.bits(), 0x04);
    assert_eq!(Rom::C.bits(), 0x08);
    assert_eq!(DoubleHeight::Lines2.cmd(), 0x1B);
    assert_eq!(DoubleHeight::Lines3Top.cmd(), 0x1F);
    assert_eq!(DoubleHeight::Lines3Middle.cmd(), 0x17);
    assert_eq!(DoubleHeight::Lines3Bottom.cmd(), 0x13);
}

#[test]
fn display_flags() {
    let on = DisplayConfig::of(DisplayFlag::DisplayOn);
    assert_eq!(on.bits(), 0x04);
    let all = on
        .union(DisplayConfig::of(DisplayFlag::CursorOn))
        .union(DisplayConfig::of(DisplayFlag::BlinkOn));
    assert_eq!(all.bits(), 0x07);
    let mut flags = all;
    flags.remove(DisplayFlag::CursorOn);
    assert_eq!(flags.bits(), 0x05);
    assert!(!flags.contains(DisplayFlag::CursorOn));
    assert!(flags.contains(DisplayFlag::BlinkOn));
    flags.remove(DisplayFlag::CursorOn);
    assert_eq!(flags.bits(), 0x05);
    assert_eq!(DisplayConfig::new(false, true, false).bits(), 0x02);
}

#[test]
fn default_config() {
    let c = Config::default();
    assert!(c.four_line_enabled);
    assert!(!c.bw_inversion);
    assert_eq!(c.font_width, FontWidth::FiveDot);
    assert_eq!(c.display_control.bits(), 0x04);
    assert_eq!(c.entry_mode.cmd(), 0x06);
    assert_eq!(c.seg_comm.cmd(), 0x61);
    assert_eq!(c.view_mode, ViewMode::Top);
    assert_eq!(c.charset, Rom::A);
    assert_eq!(c.display_settings.cmd_re0_is0(), 0x38);
    assert_eq!(c.osc_freq_cmd.cmd(), 0x1B);
    assert!(c.double_height.is_none());
    let pic = PowerIconContrast::default();
    assert_eq!((pic.cmd_byte1(), pic.cmd_byte2()), (0x56, 0x7A));
}
