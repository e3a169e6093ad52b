//! What the panel shows.

use cosmic_hdr::calib::CalibPattern;
use cosmic_hdr::conf::{HdrConf, NvidiaConf};
use cosmic_hdr::controls::{
    Button, ButtonStyle, Control, Knob, Menu, Page, Readouts, Section, Switch,
};
use cosmic_hdr::edid::DisplayInfo;
use cosmic_hdr::panel::{CosmicHdr, Message};

fn display(is_oled: bool) -> DisplayInfo {
    DisplayInfo {
        name: "Screen".to_string(),
        connector_dir: "card0-HDMI-A-1".to_string(),
        hdr10: true,
        hlg: false,
        hdr10plus: true,
        dolby: false,
        bt2020: true,
        dci_p3: false,
        dsc: true,
        cec: false,
        max_lum_nits: 993,
        hdmi_ver: Some("HDMI 2.1".to_string()),
        dp_ver: None,
        is_oled,
    }
}

fn panel(vendor: &'static str, shown: Option<DisplayInfo>) -> CosmicHdr {
    CosmicHdr::init(HdrConf::default(), NvidiaConf::default(), vendor, true, shown)
}

fn readouts() -> Readouts {
    Readouts {
        display_pq: "75.1".to_string(),
        sdr_pq: "58.1".to_string(),
        peak_pq: "72.7".to_string(),
        vibrance_pct: 50,
    }
}

fn page(p: &CosmicHdr) -> Page {
    p.page(false, &readouts())
}

fn headings(p: &Page) -> Vec<String> {
    p.sections.iter().map(|s| s.heading.clone()).collect()
}

fn find<'a>(p: &'a Page, heading: &str) -> &'a Section {
    p.sections.iter().find(|s| s.heading == heading).unwrap()
}

fn labels(buttons: &[Button]) -> Vec<String> {
    buttons.iter().map(|b| b.label.clone()).collect()
}

#[test]
fn sections_depend_on_the_hardware() {
    let plain = [
        "HDR Output", "Brightness", "Colour", "Color Intensity", "Tone Mapping",
        "Output Format", "HDR Calibration",
    ];
    assert_eq!(headings(&page(&panel("amd", None))), plain);
    assert_eq!(headings(&page(&panel("amd", Some(display(false))))), plain);
    let full = [
        "HDR Output", "Brightness", "Colour  (AMD/Intel only)",
        "Color Intensity  (AMD/Intel only)", "Tone Mapping", "Output Format", "NVIDIA Gaming",
        "Gamescope (hdr-game)", "OLED Care", "HDR Calibration",
    ];
    assert_eq!(headings(&page(&panel("nvidia", Some(display(true))))), full);
    let oled = [
        "HDR Output", "Brightness", "Colour", "Color Intensity", "Tone Mapping",
        "Output Format", "OLED Care", "HDR Calibration",
    ];
    assert_eq!(headings(&page(&panel("intel", Some(display(true))))), oled);
}

#[test]
fn the_display_is_described() {
    let p = page(&panel("amd", Some(display(false))));
    let s = p.display.unwrap();
    assert_eq!(s.heading, "Display");
    assert_eq!(s.rows.len(), 1);
    assert_eq!(s.rows[0].title, "Screen");
    assert_eq!(s.rows[0].description, "HDMI 2.1 · EDID peak 993 nits  (75.1% PQ)");
    match &s.rows[0].control {
        Control::Capabilities { hdr, colour } => {
            assert_eq!(*hdr, ["HDR10 ✓", "HLG —", "HDR10+ ✓", "Dolby Vision —"]);
            assert_eq!(*colour, ["BT.2020 ✓", "DCI-P3 —", "DSC ✓", "HDMI-CEC —"]);
        }
        other => panic!("{other:?}"),
    }
    assert!(page(&panel("amd", None)).display.is_none());
}

#[test]
fn the_interface_is_hdmi_before_display_port() {
    let line = |hdmi: Option<&str>, dp: Option<&str>| {
        let mut d = display(false);
        d.hdmi_ver = hdmi.map(|v| v.to_string());
        d.dp_ver = dp.map(|v| v.to_string());
        d.max_lum_nits = 0;
        page(&panel("amd", Some(d))).display.unwrap().rows[0].description.clone()
    };
    let rest = " · peak luminance not specified in EDID";
    assert_eq!(line(Some("HDMI 2.0"), Some("DP 1.4")), format!("HDMI 2.0{rest}"));
    assert_eq!(line(None, Some("DP 1.4")), format!("DP 1.4{rest}"));
    assert_eq!(line(None, None), format!("?{rest}"));
}

#[test]
fn the_badge_names_hardware_and_daemon() {
    let badge = |vendor: &'static str, alive: bool| panel(vendor, None).page(alive, &readouts()).badge;
    assert_eq!(
        badge("amd", false),
        "AMD  ·  Full pipeline: DEGAMMA + CTM + GAMMA + saturation + midtone"
    );
    assert_eq!(
        badge("intel", false),
        "Intel  ·  Full pipeline: DEGAMMA + CTM + GAMMA + saturation + midtone"
    );
    assert_eq!(
        badge("nvidia", false),
        "NVIDIA  ·  Gamma-only on desktop (PQ + midtone); full HDR + gaming via hdr-game"
    );
    assert_eq!(
        badge("unknown", true),
        "GPU vendor unknown  ·  daemon ✓ (live reload active)"
    );
}

#[test]
fn brightness_shows_nits_and_pq() {
    let p = page(&panel("amd", None));
    let s = find(&p, "Brightness");
    assert_eq!(s.rows[0].title, "SDR White");
    match &s.rows[0].control {
        Control::Slider { knob, min, max, step, value, text, text_width } => {
            assert_eq!(*knob, Knob::SdrNits);
            assert_eq!((*min, *max, *step, *value, *text_width), (80, 400, 1, 203, 140));
            assert_eq!(text, "203 nits  (58.1% PQ)");
        }
        other => panic!("{other:?}"),
    }
    match &s.rows[1].control {
        Control::Slider { knob, min, max, step, value, text, text_width } => {
            assert_eq!(*knob, Knob::PeakNits);
            assert_eq!((*min, *max, *step, *value, *text_width), (400, 1200, 10, 800, 140));
            assert_eq!(text, "800 nits  (72.7% PQ)");
        }
        other => panic!("{other:?}"),
    }
}

#[test]
fn midtones_are_described() {
    let line = |gamma: u32| {
        let mut p = panel("amd", None);
        p.conf.midtone_gamma = gamma;
        find(&page(&p), "Tone Mapping").rows[0].description.clone()
    };
    assert_eq!(line(111), "111%  — HDR punch (darkened midtones, higher contrast)");
    assert_eq!(line(110), "110%  — neutral");
    assert_eq!(line(90), "90%  — neutral");
    assert_eq!(line(89), "89%  — lifted midtones (lower contrast, may look washed)");
}

#[test]
fn unknown_choices_are_shown_at_their_default() {
    let mut p = panel("nvidia", None);
    p.conf.gamut_mode = "adobe".to_string();
    p.conf.max_bpc = 16;
    p.nvidia_conf.upscale = "xess".to_string();
    p.nvidia_conf.gs_width = 1280;
    let shown = page(&p);
    let selected = |heading: &str, row: usize| match &find(&shown, heading).rows[row].control {
        Control::Dropdown { selected, .. } => *selected,
        other => panic!("{other:?}"),
    };
    assert_eq!(selected("Colour  (AMD/Intel only)", 0), Some(0));
    assert_eq!(selected("Output Format", 0), Some(1));
    assert_eq!(selected("NVIDIA Gaming", 4), Some(0));
    assert_eq!(selected("Gamescope (hdr-game)", 0), None);
}

#[test]
fn choices_that_are_made_are_shown() {
    let places = [
        (Menu::GamutMode, "Colour  (AMD/Intel only)", 0, 3),
        (Menu::BitDepth, "Output Format", 0, 3),
        (Menu::NvUpscale, "NVIDIA Gaming", 4, 5),
        (Menu::NvGsResolution, "Gamescope (hdr-game)", 0, 5),
    ];
    for (m, heading, row, len) in places {
        for i in 0..len {
            let mut p = panel("nvidia", None);
            p.update(m.message(i), false);
            match &find(&page(&p), heading).rows[row].control {
                Control::Dropdown { menu, options, selected } => {
                    assert_eq!(*menu, m);
                    assert_eq!(options.len(), len);
                    assert_eq!(*selected, Some(i));
                }
                other => panic!("{other:?}"),
            }
        }
    }
}

#[test]
fn resolutions_are_listed_with_their_sizes() {
    let p = page(&panel("nvidia", None));
    match &find(&p, "Gamescope (hdr-game)").rows[0].control {
        Control::Dropdown { options, selected, .. } => {
            let want = [
                "1920 × 1080  (1080p)", "2560 × 1440  (1440p)", "3840 × 2160  (4K UHD)",
                "5120 × 2880  (5K)", "7680 × 4320  (8K)",
            ];
            assert_eq!(*options, want);
            assert_eq!(*selected, Some(2));
        }
        other => panic!("{other:?}"),
    }
    let sizes = [(1920, 1080), (2560, 1440), (3840, 2160), (5120, 2880), (7680, 4320)];
    for (i, (w, h)) in sizes.into_iter().enumerate() {
        match Menu::NvGsResolution.message(i) {
            Message::NvGsResolution(a, b) => assert_eq!((a, b), (w, h)),
            other => panic!("{other:?}"),
        }
    }
}

#[test]
fn values_that_are_set_are_shown() {
    let places = [
        (Knob::SdrNits, "Brightness", 0),
        (Knob::PeakNits, "Brightness", 1),
        (Knob::Gamut, "Colour  (AMD/Intel only)", 1),
        (Knob::Saturation, "Color Intensity  (AMD/Intel only)", 0),
        (Knob::MidtoneGamma, "Tone Mapping", 0),
        (Knob::NvGsFps, "Gamescope (hdr-game)", 1),
        (Knob::OledDimTimeout, "OLED Care", 1),
    ];
    for (k, heading, row) in places {
        let mut p = panel("nvidia", Some(display(true)));
        p.update(k.message(77), false);
        match &find(&page(&p), heading).rows[row].control {
            Control::Slider { knob, value, .. } => {
                assert_eq!(*knob, k);
                assert_eq!(*value, 77);
            }
            other => panic!("{other:?}"),
        }
    }
}

#[test]
fn switches_that_are_set_are_shown() {
    let places = [
        (Switch::HdrToggle, "HDR Output", 0),
        (Switch::NvSmoothMotion, "NVIDIA Gaming", 0),
        (Switch::NvReflex, "NVIDIA Gaming", 1),
        (Switch::NvDldsr, "NVIDIA Gaming", 2),
        (Switch::OledPreset, "OLED Care", 0),
    ];
    for (s, heading, row) in places {
        for v in [true, false] {
            let mut p = panel("nvidia", Some(display(true)));
            p.update(s.message(v), false);
            match &find(&page(&p), heading).rows[row].control {
                Control::Toggle { switch, on } => {
                    assert_eq!(*switch, s);
                    assert_eq!(*on, v);
                }
                other => panic!("{other:?}"),
            }
        }
    }
}

#[test]
fn vibrance_is_a_signed_slider() {
    let mut p = panel("nvidia", None);
    p.update(Message::NvVibrance(-1024), false);
    match &find(&page(&p), "NVIDIA Gaming").rows[3].control {
        Control::Vibrance { low, high, stride, level, text, text_width } => {
            assert_eq!((*low, *high, *stride, *level, *text_width), (-1024, 1023, 32, -1024, 48));
            assert_eq!(text, "50%");
        }
        other => panic!("{other:?}"),
    }
}

#[test]
fn dimming_is_labelled() {
    let label = |minutes: u32| {
        let mut p = panel("amd", Some(display(true)));
        p.conf.oled_dim_min = minutes;
        match &find(&page(&p), "OLED Care").rows[1].control {
            Control::Slider { text, .. } => text.clone(),
            other => panic!("{other:?}"),
        }
    };
    assert_eq!(label(0), "Off");
    assert_eq!(label(15), "15 min");
}

#[test]
fn the_close_button_is_there_while_a_window_is_open() {
    let patterns = [
        "Black", "5% Gray", "50% Gray", "White", "Red", "Green", "Blue", "SDR│HDR",
    ];
    let mut p = panel("amd", None);
    match &find(&page(&p), "HDR Calibration").rows[1].control {
        Control::Buttons { buttons } => {
            assert_eq!(labels(buttons), patterns);
            assert!(matches!(buttons[4].message, Message::ShowCalPat(CalibPattern::Red)));
        }
        other => panic!("{other:?}"),
    }
    p.calibration_started(Ok(()));
    match &find(&page(&p), "HDR Calibration").rows[1].control {
        Control::Buttons { buttons } => {
            assert_eq!(buttons.len(), 9);
            assert_eq!(buttons[8].label, "✕ Close");
            assert_eq!(buttons[8].style, ButtonStyle::Destructive);
            assert!(matches!(buttons[8].message, Message::CloseCalPat));
        }
        other => panic!("{other:?}"),
    }
}

#[test]
fn the_page_ends_with_status_and_buttons() {
    let mut p = panel("amd", None);
    let shown = page(&p);
    assert_eq!(shown.status, None);
    assert_eq!(labels(&shown.buttons), ["Reset to SDR", "Apply"]);
    assert_eq!(shown.buttons[0].style, ButtonStyle::Destructive);
    assert!(matches!(shown.buttons[0].message, Message::Reset));
    assert_eq!(shown.buttons[1].style, ButtonStyle::Suggested);
    assert!(matches!(shown.buttons[1].message, Message::Apply));
    p.update(Message::Reset, false);
    assert_eq!(page(&p).status.as_deref(), Some("Resetting…"));
}

#[test]
fn single_buttons_send_their_message() {
    let p = page(&panel("nvidia", None));
    match &find(&p, "Gamescope (hdr-game)").rows[2].control {
        Control::Buttons { buttons } => {
            assert_eq!(labels(buttons), ["Save"]);
            assert!(matches!(buttons[0].message, Message::NvApply));
        }
        other => panic!("{other:?}"),
    }
    match &find(&p, "HDR Calibration").rows[0].control {
        Control::Buttons { buttons } => {
            assert_eq!(labels(buttons), ["Calibrate…"]);
            assert!(matches!(buttons[0].message, Message::CalibrateHdr));
        }
        other => panic!("{other:?}"),
    }
}
