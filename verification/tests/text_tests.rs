use lilap::log::format_bytes_as_hex;
use lilap::server::ServerState;
use lilap::settings::{conf_defaults, get_port, get_text, Settings};
use lilap::text::{chars_of, is_white_space, parse_bounded, push_decimal, scan, split_lines, trimmed_len, Mark};
use lilap::wire::be_bytes;

#[test]
fn lines_are_split_as_std_splits_them() {
    for sample in [
        "",
        "a",
        "a\n",
        "a\nb",
        "a\r\nb\r\n",
        "\n",
        "\r\n",
        "\n\n",
        "a\r",
        "a\r\r\nb",
        "\r",
        "x\n\ny\n",
        "tail\r\n\r",
        "h\u{e9}\n\u{20ac}",
    ] {
        let expected: Vec<String> = sample.lines().map(String::from).collect();
        assert_eq!(split_lines(sample), expected, "{:?}", sample);
    }
}

#[test]
fn white_space_is_what_std_calls_white_space() {
    let mut c = 0u32;
    while c <= 0x3100 {
        if let Some(ch) = char::from_u32(c) {
            assert_eq!(is_white_space(ch), ch.is_whitespace(), "{:x}", c);
        }
        c += 1;
    }
    assert!(!is_white_space('\u{feff}'));
    assert!(!is_white_space('\u{10ffff}'));
}

#[test]
fn numbers_are_read_as_std_reads_them() {
    for sample in [
        "0", "7", "007", "+7", "65535", "65536", "4294967295", "4294967296", "99999999999999999999",
        "", "+", "-", "-0", "++1", "+-1", "1 ", " 1", "1_000", "0x10", "12a", "\u{661}",
        "00000000000000000000000001",
    ] {
        assert_eq!(parse_bounded(sample, u32::MAX), sample.parse::<u32>().ok(), "{:?}", sample);
        assert_eq!(
            parse_bounded(sample, 65535),
            sample.parse::<u16>().ok().map(u32::from),
            "{:?}",
            sample
        );
    }
}

#[test]
fn numbers_are_written_in_decimal() {
    for n in [0usize, 1, 9, 10, 11, 99, 100, 255, 4096, 65535, 1234567890] {
        let mut out = String::from("n=");
        push_decimal(&mut out, n);
        assert_eq!(out, format!("n={}", n));
    }
}

#[test]
fn scan_finds_the_first_mark() {
    let chars = chars_of("ab  cd\te");
    assert_eq!(chars.len(), 8);
    assert_eq!(scan(&chars, 0, Mark::Space), 2);
    assert_eq!(scan(&chars, 2, Mark::Ink), 4);
    assert_eq!(scan(&chars, 0, Mark::Char('d')), 5);
    assert_eq!(scan(&chars, 6, Mark::Char('d')), 8);
    assert_eq!(scan(&chars, 8, Mark::Ink), 8);
    assert_eq!(trimmed_len(&chars_of("ab \t\n")), 2);
    assert_eq!(trimmed_len(&chars_of("   ")), 0);
    assert_eq!(trimmed_len(&chars_of(" a")), 2);
}

#[test]
fn bytes_are_in_network_order() {
    assert_eq!(be_bytes(0x01020304), [1, 2, 3, 4]);
    assert_eq!(be_bytes(0), [0, 0, 0, 0]);
    assert_eq!(be_bytes(u32::MAX), [255, 255, 255, 255]);
    assert_eq!(be_bytes(300), 300u32.to_be_bytes());
}

fn reference_dump(buffer: &[u8], n: usize) -> String {
    let shown = &buffer[..n.min(buffer.len())];
    let hex: Vec<String> = shown.iter().map(|b| format!("{:02x}", b)).collect();
    let mut out = String::new();
    for row in hex.chunks(32) {
        out.push_str(&row.join(" "));
        out.push('\n');
    }
    out
}

#[test]
fn dump_has_rows_of_32_bytes() {
    let buffer: Vec<u8> = (0..=255u8).collect();
    assert_eq!(format_bytes_as_hex(&buffer, 0), "");
    assert_eq!(format_bytes_as_hex(&buffer, 1), "00\n");
    assert_eq!(format_bytes_as_hex(&buffer, 3), "00 01 02\n");
    assert_eq!(format_bytes_as_hex(&[0xAB, 0x0F], 9), "ab 0f\n");
    for n in [31, 32, 33, 64, 65, 200, 256, 1000] {
        assert_eq!(format_bytes_as_hex(&buffer, n), reference_dump(&buffer, n), "{}", n);
    }
}

#[test]
fn log_entry_has_label_and_indented_lines() {
    let state = ServerState::labelled("dns");
    assert_eq!(state.log("Ready"), "dns: Ready");
    assert_eq!(state.log(""), "dns: ");
    assert_eq!(state.log("Received 2 bytes:\nab cd\n"), "dns: Received 2 bytes:\n\tab cd");
    assert_eq!(state.log("a\r\nb\n\nc"), "dns: a\n\tb\n\t\n\tc");
    assert_eq!(state.log("\n"), "dns: ");
    assert_eq!(ServerState::labelled("").log("x\ny"), ": x\n\ty");
}

#[test]
fn defaults_name_every_key_of_the_services() {
    let defaults = conf_defaults();
    let expected = [
        ("link_addr", "127.0.0.1"),
        ("link_parent_iface", "wlo1"),
        ("link_iface", "lilap0"),
        ("link_ssid", "lilapFree"),
        ("web_dir", "./example/"),
        ("web_port", "80"),
        ("dns_port", "53"),
        ("dhcp_src_port", "67"),
        ("dhcp_dst_port", "68"),
    ];
    assert_eq!(defaults.len(), expected.len());
    for (got, want) in defaults.iter().zip(expected.iter()) {
        assert_eq!(got.0, want.0);
        assert_eq!(got.1, want.1);
    }
}

#[test]
fn settings_are_read_by_key() {
    let conf = Settings { inner: confee::conf::Conf::from(conf_defaults()) };
    assert_eq!(get_text(&conf, "link_ssid"), Some("lilapFree".to_string()));
    assert_eq!(get_text(&conf, "web_port"), Some("80".to_string()));
    assert_eq!(get_text(&conf, "web_addr"), None);
    assert_eq!(get_port(&conf, "dns_port"), Some(53));
    assert_eq!(get_port(&conf, "dhcp_dst_port"), Some(68));
    assert_eq!(get_port(&conf, "link_ssid"), None);
    assert_eq!(get_port(&conf, "nothing"), None);
}
