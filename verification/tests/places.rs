use ghostsun_app::places::{
    float_text, json_string_field, parse_nominatim_json, truncate_chars, urlencoding_minimal,
};
use ghostsun_app::site::{
    connection_checklist, meridian_warning, native_software_button_label, parse_site_settings,
    platform_scan_description, site_settings_text, sort_ports, Platform,
};
use ghostsun_app::mount_panel::PortInfo;
use ghostsun_app::software::{opened_text, software_candidates, software_page};
use ghostsun_app::ports::{add_device, describe_port, keep_outgoing, PortKind};

#[test]
fn nominatim_json_scrapes_display_name_and_coords() {
    let body = r#"[{"lat":"51.5074","lon":"-0.1278","display_name":"London, UK"}]"#;
    let hits = parse_nominatim_json(body);
    assert_eq!(hits.len(), 1);
    assert!(hits[0].name.contains("London"));
    assert!((hits[0].latitude.parse::<f64>().unwrap() - 51.5074).abs() < 1e-6);
    assert!((hits[0].longitude.parse::<f64>().unwrap() + 0.1278).abs() < 1e-6);
}

#[test]
fn at_most_six_places_are_offered() {
    let one = r#"{"lat":"1","lon":"2","display_name":"A"}"#;
    assert_eq!(parse_nominatim_json(&one.repeat(9)).len(), 6);
    let mixed = format!("{}{}", r#"{"lat":"north","lon":"2","display_name":"A"}"#, one);
    assert_eq!(parse_nominatim_json(&mixed).len(), 1);
    assert!(parse_nominatim_json("[]").is_empty());
}

#[test]
fn string_fields_keep_escaped_characters() {
    let object = r#"{"a":"x\"y","b":"Düren"}"#;
    assert_eq!(json_string_field(object, "a"), Some("x\"y".to_owned()));
    assert_eq!(json_string_field(object, "b"), Some("Düren".to_owned()));
    assert_eq!(json_string_field(object, "c"), None);
    assert_eq!(json_string_field(r#"{"a":"open"#, "a"), None);
}

#[test]
fn coordinates_are_told_from_words() {
    for text in ["1", "-2.5", "+.5", "3.", "1e9", "-1.5E-3", "inf", "-Infinity", "nan"] {
        assert!(float_text(text), "{text}");
        assert!(text.parse::<f64>().is_ok(), "{text}");
    }
    for text in ["", "+", ".", "e5", "1e", "1 ", "0x1", "north", "1.2.3"] {
        assert!(!float_text(text), "{text}");
        assert!(text.parse::<f64>().is_err(), "{text}");
    }
}

#[test]
fn truncate_chars_is_utf8_safe() {
    let s = format!("{}€{}", "a".repeat(70), "b".repeat(10));
    let t = truncate_chars(&s, 72);
    assert!(t.ends_with('…'));
    assert!(t.is_char_boundary(t.len()));
    assert_eq!(t, format!("{}€b…", "a".repeat(70)));
    assert_eq!(truncate_chars("abc", 3), "abc");
}

#[test]
fn queries_are_percent_encoded() {
    assert_eq!(urlencoding_minimal("Bad Orb"), "Bad+Orb");
    assert_eq!(urlencoding_minimal("a-_.~Z9"), "a-_.~Z9");
    assert_eq!(urlencoding_minimal("ü/"), "%C3%BC%2F");
}

#[test]
fn site_settings_round_trip() {
    let text = site_settings_text("53.800000", "-3.050000", "1.0000", true, "Blackpool");
    assert_eq!(
        text,
        "{\n  \"lat\": 53.800000,\n  \"lon\": -3.050000,\n  \"utc_offset_hours\": 1.0000,\n  \"auto_sync\": true,\n  \"place\": \"Blackpool\"\n}\n"
    );
    let site = parse_site_settings(&text);
    assert_eq!(site.latitude.as_deref(), Some("53.800000"));
    assert_eq!(site.longitude.as_deref(), Some("-3.050000"));
    assert_eq!(site.utc_offset_hours.as_deref(), Some("1.0000"));
    assert_eq!(site.auto_sync, Some(true));
    assert_eq!(site.place.as_deref(), Some("Blackpool"));
}

#[test]
fn a_place_with_a_comma_loses_its_tail() {
    let text = site_settings_text("1.0", "2.0", "0.0", false, "Berlin, Germany");
    let site = parse_site_settings(&text);
    assert_eq!(site.place.as_deref(), Some("Berlin"));
    assert_eq!(site.auto_sync, Some(false));
}

#[test]
fn unreadable_site_settings_change_nothing() {
    let site = parse_site_settings("{\"lat\": north}");
    assert!(site.latitude.is_none());
    assert!(site.auto_sync.is_none());
    assert!(parse_site_settings("").place.is_none());
}

fn port(name: &str, is_zwo: bool) -> PortInfo {
    PortInfo { name: name.to_owned(), detail: String::new(), is_zwo }
}

#[test]
fn mounts_are_listed_before_other_ports() {
    let sorted = sort_ports(vec![port("b", false), port("c", true), port("a", false), port("a", true)]);
    let names: Vec<(&str, bool)> = sorted.iter().map(|p| (p.name.as_str(), p.is_zwo)).collect();
    assert_eq!(names, vec![("a", true), ("c", true), ("a", false), ("b", false)]);
}

#[test]
fn ports_are_described_by_what_they_are() {
    let usb = describe_port(
        "COM3".to_owned(),
        PortKind::Usb { vendor: 0x03c3, product: 0x1a2b, name: Some("ZWO AM5".to_owned()) },
    );
    assert_eq!((usb.name.as_str(), usb.detail.as_str(), usb.is_zwo), ("COM3", "ZWO AM5 - 03C3:1A2B", true));
    let other = describe_port(
        "COM4".to_owned(),
        PortKind::Usb { vendor: 0x1, product: 0x2, name: None },
    );
    assert_eq!((other.detail.as_str(), other.is_zwo), ("USB serial - 0001:0002", false));
    assert_eq!(describe_port("x".to_owned(), PortKind::Bluetooth).detail, "Bluetooth");
    assert_eq!(describe_port("x".to_owned(), PortKind::Pci).detail, "PCI serial");
    assert_eq!(describe_port("x".to_owned(), PortKind::Unknown).detail, "Serial port");
}

#[test]
fn only_outgoing_devices_are_kept_and_added() {
    let kept = keep_outgoing(vec![port("/dev/tty.usb", false), port("/dev/cu.usb", false)]);
    assert_eq!(kept.len(), 1);
    let mut ports = kept;
    add_device(&mut ports, "cu.usb");
    add_device(&mut ports, "tty.other");
    assert_eq!(ports.len(), 1);
    add_device(&mut ports, "cu.other");
    assert_eq!(ports[1].name, "/dev/cu.other");
    assert_eq!(ports[1].detail, "macOS /dev/cu fallback");
}

#[test]
fn each_platform_has_its_own_words() {
    assert_eq!(platform_scan_description(Platform::Windows), "Windows SetupAPI COM ports");
    assert_eq!(native_software_button_label(Platform::MacOs), "Open ASIStudio");
    assert_ne!(connection_checklist(Platform::Windows), connection_checklist(Platform::Other));
    assert_eq!(
        meridian_warning(true, "12"),
        "MERIDIAN WARNING · Sun transits in 12 min. Finish or defer automated scans and supervise the flip."
    );
    assert!(meridian_warning(false, "3").contains("transited 3 min ago"));
}

#[test]
fn the_vendor_software_is_looked_for_in_its_places() {
    let some = |s: &str| Some(s.to_owned());
    let windows = software_candidates(Platform::Windows, some("P86"), some("P"), some("H"));
    let joined: Vec<String> = windows.iter().map(|p| p.join("/")).collect();
    assert_eq!(
        joined,
        vec![
            "P86/Common Files/ASCOM/ZWO/ASIMount/ASCOM.ASIMount.Server.exe",
            "P86/ZWO/ASIStudio/ASIStudio.exe",
            "P/ZWO/ASIStudio/ASIStudio.exe",
            "P/ASIStudio/ASIStudio.exe"
        ]
    );
    let mac = software_candidates(Platform::MacOs, None, None, some("H"));
    assert_eq!(mac.len(), 4);
    assert_eq!(mac[3].join("/"), "H/Applications/ASI Mount.app");
    assert_eq!(software_candidates(Platform::MacOs, None, None, None).len(), 2);
    assert!(software_candidates(Platform::Other, some("P86"), some("P"), some("H")).is_empty());
    assert_eq!(opened_text(Platform::Other, Some("x")), "Opened x");
    assert_eq!(opened_text(Platform::Other, None), "Opened the ZWO software page");
    assert!(opened_text(Platform::MacOs, None).starts_with("ASIStudio was not found"));
    assert_eq!(software_page(), "https://www.zwoastro.com/software/");
}
