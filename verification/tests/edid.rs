//! Displays: their EDID, their name and what they can do.

use cosmic_hdr::cta::{read_features, HdmiVersion};
use cosmic_hdr::edid::{
    describe_display, descriptor_text, display_name, dp_revision_text, is_display_port, parse_edid,
    ConnectorProbe,
};
use cosmic_hdr::luminance::luminance_nits;

/// A base block whose descriptor at `at` spells `name`, padded by spaces.
fn base(at: usize, name: &[u8]) -> Vec<u8> {
    let mut raw = vec![0u8; 128];
    raw[at + 3] = 0xfc;
    for i in 0..13 {
        raw[at + 5 + i] = if i < name.len() { name[i] } else { 0x20 };
    }
    raw
}

/// A data block with the given tag.
fn block(tag: u8, data: &[u8]) -> Vec<u8> {
    let mut b = vec![tag << 5 | data.len() as u8];
    b.extend_from_slice(data);
    b
}

/// A CTA extension with the given data blocks.
fn extension(blocks: &[Vec<u8>]) -> Vec<u8> {
    let mut body: Vec<u8> = Vec::new();
    for b in blocks {
        body.extend_from_slice(b);
    }
    let mut raw = vec![0x02, 3, 4 + body.len() as u8, 0];
    raw.extend_from_slice(&body);
    raw.resize(128, 0);
    raw
}

/// An EDID without a name and with one extension.
fn edid(blocks: &[Vec<u8>]) -> Vec<u8> {
    let mut raw = vec![0u8; 128];
    raw.extend_from_slice(&extension(blocks));
    raw
}

fn probe(dir: &str) -> ConnectorProbe {
    ConnectorProbe {
        connector_dir: dir.to_string(),
        dsc_enable: false,
        dpcd: None,
        cec: false,
        panel_type: None,
    }
}

#[test]
fn luminance_codes_match_the_formula() {
    for code in 0..=255u8 {
        let nits = (50.0 * 2f64.powf(code as f64 / 32.0)) as u32;
        assert_eq!(luminance_nits(code), nits, "{code}");
    }
}

#[test]
fn luminance_codes_have_exact_values() {
    assert_eq!(luminance_nits(0), 50);
    assert_eq!(luminance_nits(1), 51);
    assert_eq!(luminance_nits(32), 100);
    assert_eq!(luminance_nits(96), 400);
    assert_eq!(luminance_nits(138), 993);
    assert_eq!(luminance_nits(255), 12525);
}

#[test]
fn higher_luminance_codes_are_no_darker() {
    for code in 0..255u8 {
        assert!(luminance_nits(code) <= luminance_nits(code + 1));
    }
}

#[test]
fn ascii_names_are_read_up_to_the_line_feed() {
    let raw = base(54, b"DELL U2723QE\n");
    assert_eq!(descriptor_text(&raw), "DELL U2723QE");
    let raw = base(54, b"LG\nrest");
    assert_eq!(descriptor_text(&raw), "LG");
    assert_eq!(parse_edid(&raw, &probe("card0-DP-1")).name, "LG");
}

#[test]
fn names_hold_thirteen_bytes_at_most() {
    let raw = base(54, b"ABCDEFGHIJKLMNOP");
    assert_eq!(descriptor_text(&raw), "ABCDEFGHIJKLM");
}

#[test]
fn names_are_trimmed() {
    let raw = base(72, b"  Odyssey  ");
    assert_eq!(descriptor_text(&raw), "  Odyssey    ");
    assert_eq!(parse_edid(&raw, &probe("card0-DP-1")).name, "Odyssey");
}

#[test]
fn utf8_names_are_decoded() {
    let raw = base(54, "Grün é".as_bytes());
    assert_eq!(parse_edid(&raw, &probe("card0-DP-1")).name, "Grün é");
}

#[test]
fn broken_bytes_of_a_name_are_replaced() {
    let raw = base(54, &[b'A', 0xff, b'B', b'\n']);
    assert_eq!(descriptor_text(&raw), "A\u{fffd}B");
    assert_eq!(parse_edid(&raw, &probe("card0-DP-1")).name, "A\u{fffd}B");
    let raw = base(54, &[0xe2, 0x9c, b'\n']);
    assert_eq!(parse_edid(&raw, &probe("card0-DP-1")).name, "\u{fffd}");
}

#[test]
fn the_first_name_descriptor_counts() {
    let mut raw = base(72, b"Second\n");
    let late = base(108, b"Fourth\n");
    raw[108..126].copy_from_slice(&late[108..126]);
    assert_eq!(descriptor_text(&raw), "Second");
    assert_eq!(descriptor_text(&late), "Fourth");
}

#[test]
fn descriptors_of_other_kinds_are_passed_over() {
    let mut raw = base(54, b"Serial\n");
    raw[57] = 0xff;
    assert_eq!(descriptor_text(&raw), "");
    let mut raw = base(54, b"Timing\n");
    raw[54] = 1;
    assert_eq!(descriptor_text(&raw), "");
}

#[test]
fn short_data_has_no_name() {
    let raw = base(54, b"Name\n");
    assert_eq!(descriptor_text(&raw[..71]), "");
    assert_eq!(descriptor_text(&raw[..72]), "Name");
    assert_eq!(descriptor_text(&[]), "");
}

#[test]
fn nameless_displays_are_named_after_their_connector() {
    assert_eq!(display_name("", "card1-HDMI-A-1"), "HDMI A 1");
    assert_eq!(display_name(" \t ", "card0-eDP-1"), "eDP 1");
    assert_eq!(display_name("", "card0"), "Display");
    assert_eq!(display_name("LG", "card0"), "LG");
    // Nothing follows the dash, so nothing is left for a name.
    assert_eq!(display_name("", "card0-"), "");
}

#[test]
fn display_port_connectors_are_told_by_their_name() {
    assert!(is_display_port("card0-DP-1"));
    assert!(is_display_port("card1-eDP-1"));
    assert!(!is_display_port("card0-HDMI-A-1"));
    assert!(!is_display_port("card0-DP"));
    assert!(!is_display_port("DP-1"));
}

#[test]
fn display_port_revisions_are_named() {
    assert_eq!(dp_revision_text(0x10), "DP 1.0");
    assert_eq!(dp_revision_text(0x11), "DP 1.1");
    assert_eq!(dp_revision_text(0x12), "DP 1.2");
    assert_eq!(dp_revision_text(0x13), "DP 1.3");
    assert_eq!(dp_revision_text(0x14), "DP 1.4");
    assert_eq!(dp_revision_text(0x15), "DP (DPCD 0x15)");
    assert_eq!(dp_revision_text(0x0f), "DP (DPCD 0x0f)");
    assert_eq!(dp_revision_text(0x00), "DP (DPCD 0x00)");
    assert_eq!(dp_revision_text(0x1f), "DP (DPCD 0x1f)");
    assert_eq!(dp_revision_text(0x20), "DP 2.x (UHBR)");
    assert_eq!(dp_revision_text(0xff), "DP 2.x (UHBR)");
}

#[test]
fn display_port_versions_need_a_display_port() {
    let raw = base(54, b"Screen\n");
    let mut p = probe("card0-DP-1");
    p.dpcd = Some(vec![0x14, 0x0a]);
    assert_eq!(parse_edid(&raw, &p).dp_ver.as_deref(), Some("DP 1.4"));
    p.dpcd = Some(vec![]);
    assert_eq!(parse_edid(&raw, &p).dp_ver, None);
    p.dpcd = None;
    assert_eq!(parse_edid(&raw, &p).dp_ver, None);
    let mut p = probe("card0-HDMI-A-1");
    p.dpcd = Some(vec![0x14]);
    assert_eq!(parse_edid(&raw, &p).dp_ver, None);
}

#[test]
fn a_base_block_alone_declares_nothing() {
    for len in [0usize, 1, 128, 255] {
        let raw = vec![0x02u8; len];
        let f = read_features(&raw);
        assert!(!f.hdr10 && !f.hlg && !f.hdr10plus && !f.dolby);
        assert!(!f.bt2020 && !f.dci_p3 && !f.dsc);
        assert_eq!(f.max_lum_nits, 0);
        assert_eq!(f.hdmi, None);
    }
}

#[test]
fn hdr_metadata_declares_transfer_functions_and_peak() {
    let f = read_features(&edid(&[block(7, &[6, 0x0c, 1, 96])]));
    assert!(f.hdr10 && f.hlg);
    assert_eq!(f.max_lum_nits, 400);
    let f = read_features(&edid(&[block(7, &[6, 0x04])]));
    assert!(f.hdr10 && !f.hlg);
    assert_eq!(f.max_lum_nits, 0);
    let f = read_features(&edid(&[block(7, &[6, 0x08, 1])]));
    assert!(!f.hdr10 && f.hlg);
    assert_eq!(f.max_lum_nits, 0);
    let f = read_features(&edid(&[block(7, &[6])]));
    assert!(!f.hdr10 && !f.hlg);
}

#[test]
fn the_last_block_of_a_kind_decides() {
    let f = read_features(&edid(&[block(7, &[6, 0x0c, 1, 96]), block(7, &[6, 0x08])]));
    assert!(!f.hdr10 && f.hlg);
    // A block without a peak leaves an earlier one standing.
    assert_eq!(f.max_lum_nits, 400);
    let f = read_features(&edid(&[block(7, &[6, 0x04, 1, 96]), block(7, &[6, 0x04, 1, 0])]));
    assert_eq!(f.max_lum_nits, 400);
    let f = read_features(&edid(&[block(7, &[6, 0x04, 1, 96]), block(7, &[6, 0x04, 1, 32])]));
    assert_eq!(f.max_lum_nits, 100);
}

#[test]
fn colorimetry_declares_wide_gamuts() {
    let f = read_features(&edid(&[block(7, &[5, 0x80])]));
    assert!(f.bt2020 && !f.dci_p3);
    let f = read_features(&edid(&[block(7, &[5, 0x02, 0x80])]));
    assert!(!f.bt2020 && f.dci_p3);
    let f = read_features(&edid(&[block(7, &[5])]));
    assert!(!f.bt2020 && !f.dci_p3);
}

#[test]
fn hdr10_plus_is_declared_by_its_block() {
    assert!(read_features(&edid(&[block(7, &[13])])).hdr10plus);
    assert!(!read_features(&edid(&[block(7, &[12])])).hdr10plus);
    assert!(!read_features(&edid(&[block(7, &[])])).hdr10plus);
}

#[test]
fn dolby_vision_is_declared_by_either_vendor_block() {
    assert!(read_features(&edid(&[block(7, &[1, 0x46, 0xd0, 0x00])])).dolby);
    assert!(read_features(&edid(&[block(3, &[0x46, 0xd0, 0x00])])).dolby);
    assert!(!read_features(&edid(&[block(7, &[1, 0x46, 0xd0])])).dolby);
    assert!(!read_features(&edid(&[block(3, &[0x46, 0xd0])])).dolby);
    assert!(!read_features(&edid(&[block(3, &[0xd0, 0x46, 0x00])])).dolby);
    assert!(!read_features(&edid(&[block(3, &[0x46, 0xd0, 0x01])])).dolby);
}

#[test]
fn hdmi_blocks_declare_the_generation() {
    let licensing = block(3, &[0x03, 0x0c, 0x00]);
    let forum_20 = block(3, &[0x00, 0x5d, 0xc4, 1, 119]);
    let forum_21 = block(3, &[0x00, 0x5d, 0xc4, 1, 120]);
    let short = block(3, &[0x00, 0x5d, 0xc4, 1]);
    let hdmi = |blocks: &[Vec<u8>]| read_features(&edid(blocks)).hdmi;
    assert_eq!(hdmi(&[]), None);
    assert_eq!(hdmi(&[licensing.clone()]), Some(HdmiVersion::V14));
    assert_eq!(hdmi(&[forum_20.clone()]), Some(HdmiVersion::V20));
    assert_eq!(hdmi(&[forum_21.clone()]), Some(HdmiVersion::V21));
    assert_eq!(hdmi(&[short.clone()]), Some(HdmiVersion::V20));
    assert_eq!(hdmi(&[licensing.clone(), forum_21.clone()]), Some(HdmiVersion::V21));
    assert_eq!(hdmi(&[forum_21.clone(), licensing]), Some(HdmiVersion::V21));
    assert_eq!(hdmi(&[forum_21, forum_20]), Some(HdmiVersion::V20));
    assert_eq!(HdmiVersion::V14.label(), "HDMI 1.4");
    assert_eq!(HdmiVersion::V20.label(), "HDMI 2.0");
    assert_eq!(HdmiVersion::V21.label(), "HDMI 2.1");
}

#[test]
fn stream_compression_is_declared_by_block_or_driver() {
    let with = [0x00, 0x5d, 0xc4, 1, 120, 0, 0, 0, 0x80];
    assert!(read_features(&edid(&[block(3, &with)])).dsc);
    assert!(!read_features(&edid(&[block(3, &with[..8])])).dsc);
    let mut without = with;
    without[8] = 0x7f;
    assert!(!read_features(&edid(&[block(3, &without)])).dsc);
    let raw = base(54, b"Screen\n");
    let mut p = probe("card0-DP-1");
    assert!(!parse_edid(&raw, &p).dsc);
    p.dsc_enable = true;
    assert!(parse_edid(&raw, &p).dsc);
    assert!(parse_edid(&edid(&[block(3, &with)]), &probe("card0-DP-1")).dsc);
}

#[test]
fn declared_features_are_not_withdrawn() {
    let mut blocks = vec![
        block(7, &[13]),
        block(3, &[0x46, 0xd0, 0x00]),
        block(3, &[0x00, 0x5d, 0xc4, 1, 120, 0, 0, 0, 0x80]),
    ];
    blocks.push(block(3, &[0x00, 0x5d, 0xc4, 1, 1, 0, 0, 0, 0x00]));
    blocks.push(block(3, &[0x03, 0x0c, 0x00]));
    let f = read_features(&edid(&blocks));
    assert!(f.hdr10plus && f.dolby && f.dsc);
    assert_eq!(f.hdmi, Some(HdmiVersion::V20));
}

#[test]
fn later_extensions_are_read_and_others_skipped() {
    let mut raw = vec![0u8; 128];
    let mut other = extension(&[block(7, &[13])]);
    other[0] = 0x70;
    raw.extend_from_slice(&other);
    raw.extend_from_slice(&extension(&[block(7, &[5, 0x80])]));
    let f = read_features(&raw);
    assert!(f.bt2020 && !f.hdr10plus);
    // A block that is cut off is not read.
    assert!(!read_features(&raw[..383]).bt2020);
}

#[test]
fn blocks_behind_the_end_of_the_collection_are_not_read() {
    let mut raw = edid(&[block(7, &[13]), block(7, &[5, 0x80])]);
    raw[128 + 2] = 6;
    let f = read_features(&raw);
    assert!(f.hdr10plus && !f.bt2020);
    raw[128 + 2] = 0;
    let f = read_features(&raw);
    assert!(!f.hdr10plus && !f.bt2020);
}

#[test]
fn blocks_that_run_past_the_data_end_the_walk() {
    // One block fills the extension up to its last byte, whose header asks for
    // more than there is.
    let mut raw = vec![0u8; 256];
    raw[128] = 0x02;
    raw[130] = 255;
    for i in (4..124).step_by(24) {
        raw[128 + i] = 23;
    }
    raw[128 + 124] = 7 << 5 | 2;
    raw[128 + 125] = 5;
    raw[128 + 126] = 0x80;
    raw[128 + 127] = 7 << 5 | 1;
    assert!(read_features(&raw).bt2020);
    // With a following block the data reaches into it.
    raw.extend_from_slice(&[0u8; 128]);
    raw[256] = 13;
    assert!(read_features(&raw).hdr10plus);
}

#[test]
fn oled_panels_are_told_by_name_or_type() {
    let raw = base(54, b"QD-OLED 32\n");
    assert!(parse_edid(&raw, &probe("card0-DP-1")).is_oled);
    let raw = base(54, b"Screen\n");
    let mut p = probe("card0-DP-1");
    assert!(!parse_edid(&raw, &p).is_oled);
    p.panel_type = Some("AMOLED\n".to_string());
    assert!(parse_edid(&raw, &p).is_oled);
    p.panel_type = Some("IPS\n".to_string());
    assert!(!parse_edid(&raw, &p).is_oled);
}

#[test]
fn the_rest_of_a_description_follows_the_name() {
    let raw = edid(&[block(7, &[6, 0x04, 1, 96]), block(3, &[0x03, 0x0c, 0x00])]);
    let mut p = probe("card1-HDMI-A-1");
    p.cec = true;
    let d = describe_display(" My OLED ", &raw, &p);
    assert_eq!(d.name, "My OLED");
    assert_eq!(d.connector_dir, "card1-HDMI-A-1");
    assert!(d.hdr10 && !d.hlg && d.cec && d.is_oled && !d.dsc);
    assert_eq!(d.max_lum_nits, 400);
    assert_eq!(d.hdmi_ver.as_deref(), Some("HDMI 1.4"));
    assert_eq!(d.dp_ver, None);
    let d = parse_edid(&raw, &p);
    assert_eq!(d.name, "HDMI A 1");
    assert!(!d.is_oled);
}
