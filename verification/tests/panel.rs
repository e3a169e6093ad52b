//! The panel's state.

use cosmic_hdr::calib::{calibrate_args, show_pattern_args, CalibPattern, HDR_CAL};
use cosmic_hdr::conf::{HdrConf, NvidiaConf};
use cosmic_hdr::controls::{Knob, Menu, Switch};
use cosmic_hdr::panel::{Action, CosmicHdr, Message};

const PATTERNS: [CalibPattern; 8] = [
    CalibPattern::Black,
    CalibPattern::DarkGray,
    CalibPattern::Gray50,
    CalibPattern::White,
    CalibPattern::Red,
    CalibPattern::Green,
    CalibPattern::Blue,
    CalibPattern::SdrHdrSplit,
];

fn panel() -> CosmicHdr {
    CosmicHdr::init(HdrConf::default(), NvidiaConf::default(), "nvidia", false, None)
}

fn shown(p: &CosmicHdr) -> String {
    format!("{p:?}")
}

fn every_message() -> Vec<Message> {
    vec![
        Message::HdrToggle(true),
        Message::HdrToggle(false),
        Message::SdrNits(90),
        Message::PeakNits(900),
        Message::Gamut(50),
        Message::GamutMode(1),
        Message::Saturation(150),
        Message::MidtoneGamma(120),
        Message::BitDepth(2),
        Message::Apply,
        Message::Reset,
        Message::Applied(Ok(())),
        Message::Applied(Err("no".to_string())),
        Message::ShowCalPat(CalibPattern::Red),
        Message::CalibrateHdr,
        Message::CloseCalPat,
        Message::OledPreset(true),
        Message::OledDimTimeout(5),
        Message::NvSmoothMotion(false),
        Message::NvReflex(false),
        Message::NvVibrance(-32),
        Message::NvUpscale(2),
        Message::NvDldsr(true),
        Message::NvGsResolution(1920, 1080),
        Message::NvGsFps(60),
        Message::NvApply,
        Message::NvApplied(Ok(())),
        Message::NvApplied(Err("no".to_string())),
    ]
}

#[test]
fn the_panel_starts_with_what_was_read() {
    let mut c = HdrConf::default();
    c.sdr_nits = 111;
    let p = CosmicHdr::init(c, NvidiaConf::default(), "amd", true, None);
    assert_eq!(p.conf.sdr_nits, 111);
    assert!(!p.is_nvidia && p.hdr_enabled && !p.cal_open);
    assert_eq!(p.gpu_vendor, "amd");
    assert!(p.status.is_none() && p.display.is_none());
    assert!(panel().is_nvidia);
}

#[test]
fn the_toggle_applies_or_resets() {
    let mut p = panel();
    p.conf.gamut = 42;
    match p.update(Message::HdrToggle(true), true) {
        Action::ApplyConf(c) => assert_eq!(c.gamut, 42),
        other => panic!("{other:?}"),
    }
    assert!(p.hdr_enabled && p.status.is_none());
    assert!(matches!(p.update(Message::HdrToggle(false), true), Action::ResetHdr));
    assert!(!p.hdr_enabled && p.status.is_none());
}

#[test]
fn values_are_taken_over() {
    let mut p = panel();
    for m in [
        Message::SdrNits(90),
        Message::PeakNits(900),
        Message::Gamut(50),
        Message::Saturation(150),
        Message::MidtoneGamma(120),
        Message::OledDimTimeout(5),
        Message::NvSmoothMotion(false),
        Message::NvReflex(false),
        Message::NvVibrance(-32),
        Message::NvDldsr(true),
        Message::NvGsResolution(1920, 1080),
        Message::NvGsFps(60),
    ] {
        assert!(matches!(p.update(m, false), Action::Rest));
    }
    let c = &p.conf;
    assert_eq!((c.sdr_nits, c.peak_nits, c.gamut), (90, 900, 50));
    assert_eq!((c.saturation, c.midtone_gamma, c.oled_dim_min), (150, 120, 5));
    let n = &p.nvidia_conf;
    assert!(!n.smooth_motion && !n.reflex && n.dldsr);
    assert_eq!((n.vibrance, n.gs_width, n.gs_height, n.gs_fps), (-32, 1920, 1080, 60));
    assert!(p.status.is_none());
}

#[test]
fn choices_behind_the_end_stand_for_the_last() {
    let mut p = panel();
    let gamuts = ["bt2020", "dci-p3", "srgb", "srgb"];
    let depths = [8, 10, 12, 12];
    for i in 0..4 {
        p.update(Message::GamutMode(i), false);
        assert_eq!(p.conf.gamut_mode, gamuts[i]);
        p.update(Message::BitDepth(i), false);
        assert_eq!(p.conf.max_bpc, depths[i]);
    }
    let upscalers = ["none", "fsr", "nis", "dlss", "integer", "integer"];
    for i in 0..6 {
        p.update(Message::NvUpscale(i), false);
        assert_eq!(p.nvidia_conf.upscale, upscalers[i]);
    }
    p.update(Message::GamutMode(usize::MAX), false);
    assert_eq!(p.conf.gamut_mode, "srgb");
}

#[test]
fn the_status_line_follows_the_work() {
    let mut p = panel();
    let mut status = |m: Message, daemon: bool| {
        p.update(m, daemon);
        p.status.clone().unwrap_or_default()
    };
    assert_eq!(status(Message::Apply, true), "Signalling daemon…");
    assert_eq!(status(Message::Apply, false), "Applying…");
    assert_eq!(status(Message::Reset, false), "Resetting…");
    assert_eq!(status(Message::Applied(Ok(())), true), "Conf saved — daemon re-applying ✓");
    assert_eq!(status(Message::Applied(Ok(())), false), "Applied ✓");
    assert_eq!(status(Message::Applied(Err("e1".to_string())), false), "Error: e1");
    assert_eq!(status(Message::NvApply, false), "Saving NVIDIA settings…");
    assert_eq!(status(Message::NvApplied(Ok(())), false), "NVIDIA settings saved ✓");
    assert_eq!(status(Message::NvApplied(Err("e2".to_string())), false), "NVIDIA error: e2");
    // A message without a status leaves the last one.
    assert_eq!(status(Message::SdrNits(90), false), "NVIDIA error: e2");
}

#[test]
fn applying_and_saving_hand_out_the_settings() {
    let mut p = panel();
    p.conf.saturation = 175;
    p.nvidia_conf.gs_fps = 90;
    match p.update(Message::Apply, false) {
        Action::ApplyConf(c) => assert_eq!(c.saturation, 175),
        other => panic!("{other:?}"),
    }
    match p.update(Message::NvApply, false) {
        Action::SaveGame(c) => assert_eq!(c.gs_fps, 90),
        other => panic!("{other:?}"),
    }
    p.hdr_enabled = true;
    assert!(matches!(p.update(Message::Reset, false), Action::ResetHdr));
    assert!(!p.hdr_enabled);
}

#[test]
fn calibration_windows_are_opened_and_closed() {
    let mut p = panel();
    match p.update(Message::ShowCalPat(CalibPattern::Gray50), false) {
        Action::OpenCalibration(args) => assert_eq!(args, [HDR_CAL, "gray50"]),
        other => panic!("{other:?}"),
    }
    assert!(!p.cal_open);
    p.calibration_started(Ok(()));
    assert!(p.cal_open && p.status.is_none());
    match p.update(Message::CalibrateHdr, false) {
        Action::OpenCalibration(args) => assert_eq!(args, calibrate_args(&p.conf)),
        other => panic!("{other:?}"),
    }
    // The old window is closed; a new one that fails to open leaves none.
    p.calibration_started(Err("not found".to_string()));
    assert!(!p.cal_open);
    assert_eq!(p.status.as_deref(), Some("hdr-cal: not found"));
    p.calibration_started(Ok(()));
    assert!(matches!(p.update(Message::CloseCalPat, false), Action::CloseCalibration));
    assert!(!p.cal_open);
}

#[test]
fn patterns_have_labels_and_arguments() {
    let labels = ["Black", "5% Gray", "50% Gray", "White", "Red", "Green", "Blue", "SDR│HDR"];
    let args = ["black", "darkgray", "gray50", "white", "red", "green", "blue", "sdr_hdr"];
    for i in 0..8 {
        assert_eq!(PATTERNS[i].label(), labels[i]);
        assert_eq!(PATTERNS[i].arg(), args[i]);
        assert_eq!(show_pattern_args(PATTERNS[i]), [HDR_CAL, args[i]]);
    }
    assert_eq!(HDR_CAL, "/usr/local/lib/kms-hdr/hdr-cal.py");
}

#[test]
fn patterns_are_told_apart_by_their_arguments() {
    for p in PATTERNS {
        for q in PATTERNS {
            assert_eq!(p.arg() == q.arg(), p == q);
        }
    }
}

#[test]
fn calibration_gets_the_settings() {
    let mut c = HdrConf::default();
    c.gamut_mode = "srgb".to_string();
    let want = [
        HDR_CAL, "--calibrate", "--sdr-nits", "203", "--peak-nits", "800", "--gamut", "100",
        "--bpc", "10", "--gamut-mode", "srgb",
    ];
    assert_eq!(calibrate_args(&c), want);
}

#[test]
fn the_longevity_preset_sets_the_brightness() {
    let mut p = panel();
    p.conf.sdr_nits = 300;
    p.conf.peak_nits = 1000;
    p.update(Message::OledPreset(true), false);
    assert!(p.conf.oled_preset);
    assert_eq!((p.conf.sdr_nits, p.conf.peak_nits), (150, 600));
    p.update(Message::OledPreset(false), false);
    assert!(!p.conf.oled_preset);
    // The defaults come back, not what was set before the preset.
    assert_eq!((p.conf.sdr_nits, p.conf.peak_nits), (203, 800));
}

#[test]
fn no_message_changes_the_hardware() {
    for m in every_message() {
        let mut p = panel();
        p.update(m, true);
        assert!(p.is_nvidia && p.display.is_none());
        assert_eq!(p.gpu_vendor, "nvidia");
    }
}

#[test]
fn a_message_changes_settings_or_asks_for_something() {
    let before = panel();
    for m in every_message() {
        let mut p = panel();
        let action = p.update(m, true);
        let hdr = format!("{:?}", p.conf) != format!("{:?}", before.conf);
        let gaming = format!("{:?}", p.nvidia_conf) != format!("{:?}", before.nvidia_conf);
        assert!(!(hdr && gaming));
        assert!(matches!(action, Action::Rest) || !(hdr || gaming));
    }
}

#[test]
fn the_daemon_shows_in_the_status_alone() {
    for m in every_message() {
        let mut alive = panel();
        let mut dead = panel();
        alive.update(m.clone(), true);
        dead.update(m, false);
        alive.status = None;
        dead.status = None;
        assert_eq!(shown(&alive), shown(&dead));
    }
}

#[test]
fn toggle_and_reset_differ_in_the_status_alone() {
    let mut a = panel();
    let mut b = panel();
    a.hdr_enabled = true;
    b.hdr_enabled = true;
    assert!(matches!(a.update(Message::HdrToggle(false), true), Action::ResetHdr));
    assert!(matches!(b.update(Message::Reset, true), Action::ResetHdr));
    b.status = None;
    assert_eq!(shown(&a), shown(&b));
}

#[test]
fn the_later_choice_wins() {
    let mut both = panel();
    let mut last = panel();
    both.update(Menu::NvGsResolution.message(0), false);
    both.update(Menu::NvGsResolution.message(4), false);
    both.update(Knob::Gamut.message(10), false);
    both.update(Knob::Gamut.message(20), false);
    both.update(Switch::OledPreset.message(true), false);
    both.update(Switch::OledPreset.message(false), false);
    last.update(Menu::NvGsResolution.message(4), false);
    last.update(Knob::Gamut.message(20), false);
    last.update(Switch::OledPreset.message(false), false);
    assert_eq!(shown(&both), shown(&last));
}

#[test]
fn messages_are_copied_whole() {
    for m in every_message() {
        assert_eq!(format!("{:?}", m.clone()), format!("{m:?}"));
    }
}
