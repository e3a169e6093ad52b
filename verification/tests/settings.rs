//! The settings files.

use cosmic_hdr::conf::{
    conf_args, nvidia_args, read_conf, read_nvidia_conf, HdrConf, NvidiaConf,
};

fn hdr(c: &HdrConf) -> String {
    format!("{c:?}")
}

fn nvidia(c: &NvidiaConf) -> String {
    format!("{c:?}")
}

#[test]
fn without_a_file_the_defaults_hold() {
    let c = read_conf(None);
    assert_eq!((c.sdr_nits, c.peak_nits, c.gamut, c.max_bpc), (203, 800, 100, 10));
    assert_eq!((c.saturation, c.midtone_gamma, c.oled_dim_min), (100, 100, 0));
    assert_eq!(c.gamut_mode, "bt2020");
    assert!(!c.oled_preset);
    let n = read_nvidia_conf(None);
    assert!(n.smooth_motion && n.reflex && !n.dldsr);
    assert_eq!((n.vibrance, n.gs_width, n.gs_height, n.gs_fps), (0, 3840, 2160, 120));
    assert_eq!(n.upscale, "fsr");
}

#[test]
fn an_empty_file_is_as_none() {
    assert_eq!(hdr(&read_conf(Some(""))), hdr(&HdrConf::default()));
    assert_eq!(nvidia(&read_nvidia_conf(Some(""))), nvidia(&NvidiaConf::default()));
}

#[test]
fn every_hdr_key_is_read() {
    let text = "SDR_NITS=150\nPEAK_NITS=600\nGAMUT=80\nMAX_BPC=12\nGAMUT_MODE=dci-p3\n\
                SATURATION=120\nMIDTONE_GAMMA=130\nOLED_PRESET=1\nOLED_DIM_MIN=15\n";
    let c = read_conf(Some(text));
    assert_eq!((c.sdr_nits, c.peak_nits, c.gamut, c.max_bpc), (150, 600, 80, 12));
    assert_eq!((c.saturation, c.midtone_gamma, c.oled_dim_min), (120, 130, 15));
    assert_eq!(c.gamut_mode, "dci-p3");
    assert!(c.oled_preset);
}

#[test]
fn every_gaming_key_is_read() {
    let text = "SMOOTH_MOTION=0\nREFLEX=0\nVIBRANCE=-512\nUPSCALE=dlss\nDLDSR=1\n\
                GS_WIDTH=2560\nGS_HEIGHT=1440\nGS_FPS=240";
    let c = read_nvidia_conf(Some(text));
    assert!(!c.smooth_motion && !c.reflex && c.dldsr);
    assert_eq!((c.vibrance, c.gs_width, c.gs_height, c.gs_fps), (-512, 2560, 1440, 240));
    assert_eq!(c.upscale, "dlss");
}

#[test]
fn white_space_and_carriage_returns_are_dropped() {
    let c = read_conf(Some("  SDR_NITS \t= 120 \r\n GAMUT_MODE =  srgb\u{a0}\r\n"));
    assert_eq!(c.sdr_nits, 120);
    assert_eq!(c.gamut_mode, "srgb");
}

#[test]
fn what_cannot_be_read_changes_nothing() {
    let text = "SDR_NITS=bright\nPEAK_NITS=-1\nGAMUT=\nMAX_BPC=4294967296\n# note\n\
                SATURATION 50\nsaturation=50\nMIDTONE_GAMMA=1.5\nOLED_DIM_MIN=5 min\nOTHER=1";
    assert_eq!(hdr(&read_conf(Some(text))), hdr(&HdrConf::default()));
    let text = "VIBRANCE=2147483648\nGS_WIDTH=wide\nGS_HEIGHT=-1\nGS_FPS=\nFPS=30";
    assert_eq!(nvidia(&read_nvidia_conf(Some(text))), nvidia(&NvidiaConf::default()));
}

#[test]
fn a_sign_in_front_of_a_number_is_read() {
    assert_eq!(read_conf(Some("SDR_NITS=+90")).sdr_nits, 90);
    assert_eq!(read_nvidia_conf(Some("VIBRANCE=+7")).vibrance, 7);
}

#[test]
fn switches_are_read_by_their_digit() {
    assert!(read_conf(Some("OLED_PRESET=1")).oled_preset);
    assert!(!read_conf(Some("OLED_PRESET=1\nOLED_PRESET=yes")).oled_preset);
    // Smooth motion and Reflex are off only at a zero.
    assert!(read_nvidia_conf(Some("SMOOTH_MOTION=no")).smooth_motion);
    assert!(!read_nvidia_conf(Some("SMOOTH_MOTION=0")).smooth_motion);
    assert!(read_nvidia_conf(Some("REFLEX=00")).reflex);
    assert!(!read_nvidia_conf(Some("DLDSR=01")).dldsr);
    assert!(read_nvidia_conf(Some("DLDSR=1")).dldsr);
}

#[test]
fn only_the_first_equals_sign_cuts() {
    assert_eq!(read_conf(Some("GAMUT_MODE=a=b")).gamut_mode, "a=b");
    assert_eq!(read_conf(Some("GAMUT_MODE=")).gamut_mode, "");
    assert_eq!(hdr(&read_conf(Some("=5"))), hdr(&HdrConf::default()));
}

#[test]
fn the_last_line_wins() {
    assert_eq!(read_conf(Some("SDR_NITS=100\nSDR_NITS=200")).sdr_nits, 200);
    // A last line that cannot be read leaves the one before it.
    assert_eq!(read_conf(Some("SDR_NITS=100\nSDR_NITS=x")).sdr_nits, 100);
    assert_eq!(read_nvidia_conf(Some("UPSCALE=nis\nUPSCALE=none")).upscale, "none");
}

#[test]
fn hdr_settings_become_options() {
    let mut c = HdrConf::default();
    c.oled_dim_min = 5;
    let want = [
        "--sdr-nits", "203", "--peak-nits", "800", "--gamut", "100", "--bpc", "10",
        "--gamut-mode", "bt2020", "--saturation", "100", "--midtone-gamma", "100",
        "--oled-dim-min", "5",
    ];
    assert_eq!(conf_args(&c), want);
}

#[test]
fn options_carry_all_but_the_preset() {
    let a = HdrConf::default();
    let mut b = a.clone();
    b.oled_preset = true;
    assert_eq!(conf_args(&a), conf_args(&b));
    b.saturation = 101;
    assert_ne!(conf_args(&a), conf_args(&b));
}

#[test]
fn gaming_settings_become_lines() {
    let mut c = NvidiaConf::default();
    c.vibrance = -1024;
    c.reflex = false;
    let want = [
        "SMOOTH_MOTION=1", "REFLEX=0", "VIBRANCE=-1024", "UPSCALE=fsr", "DLDSR=0",
        "GS_WIDTH=3840", "GS_HEIGHT=2160", "GS_FPS=120",
    ];
    assert_eq!(nvidia_args(&c), want);
}

#[test]
fn gaming_settings_read_back() {
    let c = NvidiaConf {
        smooth_motion: false,
        reflex: true,
        vibrance: i32::MIN,
        upscale: "integer".to_string(),
        dldsr: true,
        gs_width: 7680,
        gs_height: 4320,
        gs_fps: u32::MAX,
    };
    let lines = nvidia_args(&c);
    assert_eq!(nvidia(&read_nvidia_conf(Some(&lines.join("\n")))), nvidia(&c));
    let file = lines.join("\n") + "\n";
    assert_eq!(nvidia(&read_nvidia_conf(Some(&file))), nvidia(&c));
}
