use balboa_spa::tools::discovery::{format_mac, parse_discovery_packet, DiscoveryError};

#[test]
fn discovery_answer_gives_name_and_mac() {
    let (name, mac) = parse_discovery_packet(b"BWGSPA\r\n00-15-27-AB-cd-0F\r\n").unwrap();
    assert_eq!(name, "BWGSPA");
    assert_eq!(mac, vec![0x00, 0x15, 0x27, 0xab, 0xcd, 0x0f]);
}

#[test]
fn discovery_answer_without_final_newline() {
    let (name, mac) = parse_discovery_packet(b"spa\n1-2-3-4-5-6").unwrap();
    assert_eq!(name, "spa");
    assert_eq!(mac, vec![1, 2, 3, 4, 5, 6]);
}

#[test]
fn discovery_fields_that_are_not_bytes_are_skipped() {
    let (_, mac) = parse_discovery_packet(b"x\n+a-zz--100-0F-\n").unwrap();
    assert_eq!(mac, vec![0x0a, 0x0f]);
}

#[test]
fn discovery_errors() {
    assert_eq!(parse_discovery_packet(b""), Err(DiscoveryError::MissingHostname));
    assert_eq!(parse_discovery_packet(b"name only"), Err(DiscoveryError::MissingMac));
    assert_eq!(parse_discovery_packet(b"name only\n"), Err(DiscoveryError::MissingMac));
    assert_eq!(parse_discovery_packet(b"\xff\xfe\n00-01"), Err(DiscoveryError::InvalidUtf8));
    assert_eq!(parse_discovery_packet(b"name\n\xff-01"), Err(DiscoveryError::InvalidUtf8));
}

#[test]
fn mac_is_formatted_with_colons() {
    assert_eq!(format_mac(&[0x00, 0x15, 0x27, 0xab, 0xcd, 0x0f]), "00:15:27:ab:cd:0f");
    assert_eq!(format_mac(&[0xff; 6]), "ff:ff:ff:ff:ff:ff");
}
