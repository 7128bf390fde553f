use tv_remote::discovery::{parse_ssdp_response, search_request, search_requests, Scan, ScanStep, SEARCH_WINDOW_MS};
use tv_remote::ssdp::{classify_vendor, extract_header, identify_brand, Vendor};

const SAMSUNG_REPLY: &str = "HTTP/1.1 200 OK\r\nCACHE-CONTROL: max-age=1800\r\nLOCATION: http://192.168.1.20:9197/dmr\r\nSERVER: SHP, UPnP/1.0, Samsung UPnP SDK/1.0\r\nST: upnp:rootdevice\r\nUSN: uuid:abc::upnp:rootdevice\r\n\r\n";

#[test]
fn header_lookup_ignores_case_and_trims() {
    let text = "HTTP/1.1 200 OK\r\nlocation:   http://10.0.0.2/desc.xml  \r\n\r\n";
    assert_eq!(extract_header(text, "LOCATION"), Some("http://10.0.0.2/desc.xml".to_string()));
}

#[test]
fn header_lookup_missing_header() {
    assert_eq!(extract_header("HTTP/1.1 200 OK\r\nST: x\r\n", "LOCATION"), None);
    assert_eq!(extract_header("", "LOCATION"), None);
}

#[test]
fn header_lookup_first_line_decides() {
    let text = "USN: first\nUSN: second\n";
    assert_eq!(extract_header(text, "USN"), Some("first".to_string()));
    // The first line that names the header has no colon: no value at all.
    let text = "USN without colon\nUSN: later\n";
    assert_eq!(extract_header(text, "USN"), None);
}

#[test]
fn header_lookup_keeps_later_colons() {
    let text = "LOCATION: http://1.2.3.4:8080/x\n";
    assert_eq!(extract_header(text, "LOCATION"), Some("http://1.2.3.4:8080/x".to_string()));
}

#[test]
fn header_lookup_empty_value() {
    assert_eq!(extract_header("SERVER:\r\n", "SERVER"), Some(String::new()));
    assert_eq!(extract_header("SERVER: \t \r\n", "SERVER"), Some(String::new()));
}

#[test]
fn header_lookup_matches_by_prefix() {
    // "SERVER-X" begins with "SERVER", so it is taken as the header.
    assert_eq!(extract_header("SERVER-X: a\nSERVER: b\n", "SERVER"), Some("a".to_string()));
}

#[test]
fn classification_rules() {
    assert_eq!(classify_vendor("Linux/4.1 UPnP/1.0 Tizen/5.0"), Vendor::Samsung);
    assert_eq!(classify_vendor("TIZEN"), Vendor::Samsung);
    assert_eq!(classify_vendor("WebOS/1.5 UPnP/1.0"), Vendor::Lg);
    assert_eq!(classify_vendor("Roku/9.3.0 UPnP/1.0"), Vendor::Roku);
    assert_eq!(classify_vendor("Android/9 Google Cast"), Vendor::AndroidTv);
    assert_eq!(classify_vendor("Linux/3.10 UPnP/1.0"), Vendor::Generic);
    assert_eq!(classify_vendor("Windows NT/10.0 UPnP/1.0"), Vendor::Unknown);
    assert_eq!(classify_vendor(""), Vendor::Unknown);
}

#[test]
fn classification_order_matters() {
    // Samsung rules come before the LG ones.
    assert_eq!(classify_vendor("Tizen webOS"), Vendor::Samsung);
    // "lg" inside another word still counts.
    assert_eq!(classify_vendor("Algo"), Vendor::Lg);
}

#[test]
fn brand_labels() {
    assert_eq!(identify_brand("Samsung"), "Samsung");
    assert_eq!(identify_brand("LG webOS TV"), "LG");
    assert_eq!(identify_brand("android"), "Android TV");
    assert_eq!(identify_brand("linux"), "Posible TV/Server");
    assert_eq!(identify_brand("nothing"), "Desconocido");
}

#[test]
fn reply_becomes_record() {
    let d = parse_ssdp_response(SAMSUNG_REPLY, "192.168.1.20".to_string()).unwrap();
    assert_eq!(d.id, "uuid:abc::upnp:rootdevice");
    assert_eq!(d.name, "SHP, UPnP/1.0, Samsung UPnP SDK/1.0");
    assert_eq!(d.ip, "192.168.1.20");
    assert_eq!(d.location, "http://192.168.1.20:9197/dmr");
    assert_eq!(d.model, "Samsung");
}

#[test]
fn reply_without_location_is_noise() {
    let text = "HTTP/1.1 200 OK\r\nSERVER: Tizen\r\nUSN: x\r\n\r\n";
    assert!(parse_ssdp_response(text, "10.0.0.1".to_string()).is_none());
}

#[test]
fn reply_falls_back_to_user_agent_then_label() {
    let text = "LOCATION: http://a/\r\nUSER-AGENT: Roku/9\r\n";
    let d = parse_ssdp_response(text, "10.0.0.3".to_string()).unwrap();
    assert_eq!(d.name, "Roku/9");
    assert_eq!(d.model, "Roku");
    assert_eq!(d.id, "");
    let d = parse_ssdp_response("LOCATION: http://a/\r\n", "10.0.0.4".to_string()).unwrap();
    assert_eq!(d.name, "Dispositivo Genérico");
    assert_eq!(d.model, "Desconocido");
}

#[test]
fn same_address_twice_keeps_first() {
    let mut scan = Scan::new();
    scan.on_reply("LOCATION: http://a/\r\nUSN: one\r\nSERVER: Tizen\r\n", "10.0.0.5".to_string());
    scan.on_reply("LOCATION: http://b/\r\nUSN: two\r\nSERVER: webOS\r\n", "10.0.0.5".to_string());
    let devices = scan.into_devices();
    assert_eq!(devices.len(), 1);
    assert_eq!(devices[0].id, "one");
    assert_eq!(devices[0].location, "http://a/");
    assert_eq!(devices[0].model, "Samsung");
}

#[test]
fn distinct_addresses_are_kept_in_order() {
    let mut scan = Scan::new();
    scan.on_reply("LOCATION: http://a/\r\n", "10.0.0.7".to_string());
    scan.on_reply("no location here", "10.0.0.8".to_string());
    scan.on_reply("LOCATION: http://c/\r\n", "10.0.0.6".to_string());
    let devices = scan.into_devices();
    assert_eq!(devices.len(), 2);
    assert_eq!(devices[0].ip, "10.0.0.7");
    assert_eq!(devices[1].ip, "10.0.0.6");
}

#[test]
fn reads_are_bounded_by_the_window() {
    let scan = Scan::new();
    assert_eq!(SEARCH_WINDOW_MS, 3000);
    match scan.next_step(0) {
        ScanStep::Listen { wait_ms } => assert_eq!(wait_ms, 3000),
        ScanStep::Done => panic!("a fresh scan listens"),
    }
    match scan.next_step(2500) {
        ScanStep::Listen { wait_ms } => assert_eq!(wait_ms, 500),
        ScanStep::Done => panic!("the window is still open"),
    }
    assert!(matches!(scan.next_step(3000), ScanStep::Done));
    assert!(matches!(scan.next_step(u64::MAX), ScanStep::Done));
}

#[test]
fn search_queries() {
    let expected = "M-SEARCH * HTTP/1.1\r\nHOST: 239.255.255.250:1900\r\nMAN: \"ssdp:discover\"\r\nMX: 2\r\nST: ssdp:all\r\n\r\n";
    assert_eq!(search_request("ssdp:all"), expected);
    let all = search_requests();
    assert_eq!(all.len(), 2);
    assert_eq!(all[0], expected);
    assert!(all[1].contains("ST: upnp:rootdevice\r\n\r\n"));
}

#[test]
fn classification_follows_unicode_lower_case() {
    // The Kelvin sign lower-cases to 'k'.
    assert_eq!(classify_vendor("RO\u{212A}U"), Vendor::Roku);
    assert_eq!(identify_brand("RO\u{212A}U"), "Roku");
}

#[test]
fn header_names_follow_unicode_upper_case() {
    // The long s upper-cases to 'S'.
    assert_eq!(extract_header("\u{17F}:a\n", "S"), Some("a".to_string()));
    assert_eq!(extract_header("u\u{17F}n: x\r\n", "USN"), Some("x".to_string()));
}
