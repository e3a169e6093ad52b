//! Graphics cards and connectors.

use cosmic_hdr::connector::{
    edid_path_of, find_active_connector, is_real_connector, ConnectorEntry,
};
use cosmic_hdr::gpu::{gpu_vendor, is_card, is_nvidia, CardEntry, GpuProbe};

fn card(name: &str, vendor: Option<&str>) -> CardEntry {
    CardEntry { name: name.to_string(), vendor: vendor.map(|v| v.to_string()) }
}

fn vendor(nvidia_device: bool, cards: Vec<CardEntry>) -> &'static str {
    gpu_vendor(&GpuProbe { nvidia_device, cards })
}

fn entry(name: &str, edid_len: Option<usize>) -> ConnectorEntry {
    ConnectorEntry { name: name.to_string(), edid_len }
}

#[test]
fn cards_are_told_from_connectors() {
    assert!(is_card("card0"));
    assert!(is_card("card"));
    assert!(!is_card("card0-DP-1"));
    assert!(!is_card("renderD128"));
    assert!(!is_card("xcard0"));
}

#[test]
fn vendor_numbers_are_named() {
    assert_eq!(vendor(false, vec![card("card0", Some("0x1002\n"))]), "amd");
    assert_eq!(vendor(false, vec![card("card0", Some(" 0x8086 "))]), "intel");
    assert_eq!(vendor(false, vec![card("card0", Some("0x10de\n"))]), "unknown");
    assert_eq!(vendor(false, vec![card("card0", None)]), "unknown");
    assert_eq!(vendor(false, vec![]), "unknown");
}

#[test]
fn the_first_known_card_names_the_vendor() {
    let cards = || {
        vec![
            card("card0-DP-1", Some("0x8086")),
            card("renderD128", Some("0x8086")),
            card("card0", Some("0x10de")),
            card("card1", None),
            card("card2", Some("0x1002")),
            card("card3", Some("0x8086")),
        ]
    };
    assert_eq!(vendor(false, cards()), "amd");
    assert_eq!(vendor(true, cards()), "nvidia");
}

#[test]
fn nvidia_is_named_where_its_device_is() {
    for device in [false, true] {
        let probe = GpuProbe {
            nvidia_device: device,
            cards: vec![card("card0", Some("0x8086"))],
        };
        assert_eq!(is_nvidia(&probe), device);
        assert_eq!(gpu_vendor(&probe) == "nvidia", device);
    }
}

#[test]
fn real_connectors_are_told_from_virtual_ones() {
    assert!(is_real_connector("card0-DP-1"));
    assert!(is_real_connector("card1-HDMI-A-1"));
    assert!(is_real_connector("card0-"));
    assert!(!is_real_connector("card0"));
    assert!(!is_real_connector("renderD128-DP-1"));
    assert!(!is_real_connector("card0-X11-1"));
    assert!(!is_real_connector("card0-Virtual-1"));
    assert!(!is_real_connector("card0-HEADLESS-1"));
    assert!(!is_real_connector("card0-WL-1"));
    // The whole prefix counts, and only right behind the first dash.
    assert!(is_real_connector("card0-Virtual"));
    assert!(is_real_connector("card0-DP-X11-1"));
}

#[test]
fn edid_files_stand_in_the_connector_directory() {
    assert_eq!(edid_path_of("card0-DP-1"), "/sys/class/drm/card0-DP-1/edid");
}

#[test]
fn the_first_connector_with_a_whole_edid_is_active() {
    let found = find_active_connector(&vec![
        entry("card1-DP-2", Some(256)),
        entry("card0-Virtual-1", Some(256)),
        entry("card0-DP-1", Some(127)),
        entry("card0-HDMI-A-1", None),
        entry("card1-DP-1", Some(128)),
    ]);
    let want = ("/sys/class/drm/card1-DP-1/edid".to_string(), "card1-DP-1".to_string());
    assert_eq!(found, Some(want));
}

#[test]
fn without_a_whole_edid_no_connector_is_active() {
    assert_eq!(find_active_connector(&vec![]), None);
    assert_eq!(find_active_connector(&vec![entry("card0-DP-1", Some(0))]), None);
    assert_eq!(find_active_connector(&vec![entry("card0", Some(256))]), None);
}

#[test]
fn the_path_orders_connectors_not_the_name() {
    // As names "card0-DP" comes before "card0-DP-1"; as paths it comes after.
    let entries = vec![entry("card0-DP", Some(128)), entry("card0-DP-1", Some(128))];
    assert_eq!(find_active_connector(&entries).unwrap().1, "card0-DP-1");
}

#[test]
fn the_order_of_the_listing_does_not_matter() {
    let names = ["card2-DP-1", "card10-DP-1", "card1-eDP-1", "card1-HDMI-A-2"];
    let forward: Vec<ConnectorEntry> = names.iter().map(|n| entry(n, Some(384))).collect();
    let backward: Vec<ConnectorEntry> = names.iter().rev().map(|n| entry(n, Some(384))).collect();
    assert_eq!(find_active_connector(&forward), find_active_connector(&backward));
    assert_eq!(find_active_connector(&forward).unwrap().1, "card1-HDMI-A-2");
}
