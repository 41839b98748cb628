use clard::tui::app::sysinfo::{
    cpu_model, default_route, first_line, gpu_label, gpu_vendor, hex_le_to_ipv4, is_card_name, meminfo_kib,
    os_release_value, SysInfo,
};

#[test]
fn os_release_parses_quoted_and_plain() {
    let t = "# comment\nPRETTY_NAME=\"Fedora Linux 41 (Workstation Edition)\"\nNAME=Fedora\n";
    assert_eq!(
        os_release_value(t, "PRETTY_NAME"),
        Some("Fedora Linux 41 (Workstation Edition)".into())
    );
    assert_eq!(os_release_value(t, "NAME"), Some("Fedora".into()));
    assert_eq!(os_release_value(t, "MISSING"), None);
}

#[test]
fn cpu_model_takes_first() {
    let t = "processor\t: 0\nmodel name\t: Intel(R) Core(TM) i7-13700K\nprocessor\t: 1\nmodel name\t: Intel(R) Core(TM) i7-13700K\n";
    assert_eq!(cpu_model(t), Some("Intel(R) Core(TM) i7-13700K".into()));
    assert_eq!(cpu_model("no model here\n"), None);
}

#[test]
fn meminfo_parses_kib() {
    let t = "MemTotal:       16284832 kB\nMemAvailable:    8123456 kB\n";
    assert_eq!(meminfo_kib(t, "MemTotal"), Some(16284832));
    assert_eq!(meminfo_kib(t, "MemAvailable"), Some(8123456));
    assert_eq!(meminfo_kib(t, "Bogus"), None);
}

#[test]
fn route_default_parses_little_endian() {
    let t =
        "Iface\tDestination\tGateway \tFlags\nwlp4s0\t00000000\tFE4F020A\t0003\nbr0\t0000010A\t00000000\t0001\n";
    assert_eq!(default_route(t), Some(("wlp4s0".into(), "10.2.79.254".into())));
}

#[test]
fn route_without_gateway_or_default_is_none() {
    assert_eq!(
        default_route("Iface\tDestination\tGateway\nbr0\t0000010A\t00000000\t0001\n"),
        None
    );
    assert_eq!(
        default_route("Iface\tDestination\tGateway\nwlp4s0\t00000000\t00000000\t0003\n"),
        None
    );
}

#[test]
fn hex_le_converts() {
    assert_eq!(hex_le_to_ipv4("FE4F020A"), Some("10.2.79.254".into()));
    assert_eq!(hex_le_to_ipv4("00000000"), Some("0.0.0.0".into()));
    assert_eq!(hex_le_to_ipv4("FE4F02"), None, "shorter than 8");
    assert_eq!(hex_le_to_ipv4("GGGGGGGG"), None, "not hex");
}

#[test]
fn gpu_vendor_mapping() {
    assert_eq!(gpu_vendor("0x10de"), Some("NVIDIA".into()));
    assert_eq!(gpu_vendor("0x8086"), Some("Intel".into()));
    assert_eq!(gpu_vendor("0x1234"), Some("QEMU".into()));
    assert_eq!(gpu_vendor("0xdead"), None, "unknown vendor gives None");
    assert_eq!(gpu_vendor(""), None);
}

#[test]
fn number_parsing_edges_follow_from_str_radix() {
    // a leading '+' is accepted, a lone '+' or an overflow is not
    assert_eq!(meminfo_kib("MemTotal: +12 kB\n", "MemTotal"), Some(12));
    assert_eq!(meminfo_kib("MemTotal: + kB\n", "MemTotal"), None);
    assert_eq!(meminfo_kib("MemTotal: 18446744073709551616 kB\n", "MemTotal"), None);
    assert_eq!(meminfo_kib("MemTotal: 18446744073709551615 kB\n", "MemTotal"), Some(u64::MAX));
    assert_eq!(meminfo_kib("MemTotal:\nMemTotal: 7\n", "MemTotal"), Some(7), "a line without a number is skipped");
    assert_eq!(hex_le_to_ipv4("+1+2+3+4"), None, "each byte is exactly two hex digits");
    assert_eq!(hex_le_to_ipv4("+F+F+F+F"), None);
    assert_eq!(hex_le_to_ipv4("01020304"), Some("4.3.2.1".into()));
    assert_eq!(hex_le_to_ipv4("ffffffff"), Some("255.255.255.255".into()));
    assert_eq!(hex_le_to_ipv4("中文ab"), None, "non-ASCII never converts");
    assert_eq!(gpu_vendor("  0x0x1af4 \n"), Some("VirtIO".into()));
    assert_eq!(gpu_vendor("0x100000000"), None, "does not fit in u32");
    assert_eq!(gpu_vendor("-0x10de"), None);
}

#[test]
fn lines_handle_carriage_returns_and_quotes() {
    assert_eq!(os_release_value("NAME=\"x\"\r\n", "NAME"), Some("x".into()));
    assert_eq!(os_release_value("  NAME=\"\"\"\n", "NAME"), Some("".into()));
    assert_eq!(os_release_value("", "NAME"), None);
    assert_eq!(first_line("  5.15.0-generic  \nrest"), Some("5.15.0-generic".into()));
    assert_eq!(first_line("\nrest"), None);
    assert_eq!(first_line(""), None);
    assert_eq!(cpu_model("model name :   \nmodel name : B\n"), Some("B".into()));
    assert_eq!(cpu_model("model name X\n"), None);
}

#[test]
fn gpu_labels_and_card_names() {
    assert_eq!(gpu_label("0x10de\n", "0x2684\n"), Some("NVIDIA 0x2684".into()));
    assert_eq!(gpu_label("0x10de", ""), Some("NVIDIA".into()));
    assert_eq!(gpu_label("0xabcd", "0x1"), Some(String::new()));
    assert_eq!(gpu_label("0xdead", ""), Some(String::new()));
    assert_eq!(gpu_label("  ", "0x1"), None);
    assert!(is_card_name("card0"));
    assert!(is_card_name("card1-HDMI-A-1"));
    assert!(!is_card_name("card"));
    assert!(!is_card_name("renderD128"));
}

#[test]
fn sysinfo_from_texts_uses_defaults() {
    let info = SysInfo::from_texts(
        Some("PRETTY_NAME=\"Arch Linux\"\n"),
        Some("6.9.1-arch1\n"),
        None,
        Some("MemTotal: 100 kB\n"),
        Some("Iface\tDestination\tGateway\neth0\t00000000\t0100A8C0\t0003\n"),
        "AMD".to_string(),
    );
    assert_eq!(info.os, "Arch Linux");
    assert_eq!(info.kernel, "6.9.1-arch1");
    assert_eq!(info.cpu, "");
    assert_eq!(info.gpu, "AMD");
    assert_eq!(info.mem_total_kib, 100);
    assert_eq!(info.mem_available_kib, 0);
    assert_eq!(info.gateway, Some(("eth0".to_string(), "192.168.0.1".to_string())));
    let empty = SysInfo::from_texts(None, None, None, None, None, String::new());
    assert_eq!(empty.os, "Unknown OS");
    assert_eq!(empty.gateway, None);
}
