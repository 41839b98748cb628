use clard::calendar::civil_from_days;
use clard::format::{
    compact_chain, empty_as_dash, format_delay, format_network_bytes, format_rate, format_unix_time,
    latency_bar, progress_bar, sparkline_u16, sparkline_u64,
};

#[test]
fn format_unix_time_matches_known_instants() {
    assert_eq!(format_unix_time(0), "1970-01-01 00:00:00");
    assert_eq!(format_unix_time(1_600_000_000), "2020-09-13 12:26:40");
}

#[test]
fn civil_from_days_covers_leap_years() {
    assert_eq!(civil_from_days(0), (1970, 1, 1));
    assert_eq!(civil_from_days(18_518), (2020, 9, 13));
    assert_eq!(civil_from_days(11_016), (2000, 2, 29));
}

#[test]
fn canvas_format_network_bytes_upgrades_when_value_exceeds_three_digits() {
    assert_eq!(format_network_bytes(999), "999 B");
    assert_eq!(format_network_bytes(1000), "1 KB");
    assert_eq!(format_network_bytes(10 * 1024), "10 KB");
    assert_eq!(format_network_bytes(1536), "1.5 KB");
    assert_eq!(format_network_bytes(1000 * 1024), "1 MB");
    assert_eq!(format_network_bytes(1024 * 1024), "1 MB");
}

#[test]
fn network_bytes_round_half_to_even_and_large_units() {
    assert_eq!(format_network_bytes(0), "0 B");
    // 10496 / 1024 = 10.25 exactly: the tie goes to the even digit.
    assert_eq!(format_network_bytes(10496), "10.2 KB");
    // 10752 / 1024 = 10.5 exactly.
    assert_eq!(format_network_bytes(10752), "10.5 KB");
    assert_eq!(format_network_bytes(1023 * 1024 + 1000), "1 MB");
    assert_eq!(format_network_bytes(5 * 1024 * 1024 * 1024), "5 GB");
    assert_eq!(format_network_bytes(1u64 << 50), "1 PB");
    assert_eq!(format_network_bytes(u64::MAX), "16384 PB");
    assert_eq!(format_network_bytes((1u64 << 53) + 1), "8 PB");
    assert_eq!(format_network_bytes(999 * 1024), "999 KB");
}

#[test]
fn unix_time_before_the_epoch_and_leap_days() {
    assert_eq!(format_unix_time(-1), "1969-12-31 23:59:59");
    assert_eq!(format_unix_time(951_782_400), "2000-02-29 00:00:00");
    assert_eq!(format_unix_time(-62_167_219_200), "0000-01-01 00:00:00");
    assert_eq!(format_unix_time(-62_167_219_201), "-001-12-31 23:59:59");
    assert_eq!(format_unix_time(253_402_300_800), "10000-01-01 00:00:00");
    assert_eq!(civil_from_days(-1), (1969, 12, 31));
    assert_eq!(civil_from_days(-719_468), (0, 3, 1));
}

#[test]
fn delays_rates_and_dashes() {
    assert_eq!(format_delay(0), "0 ms");
    assert_eq!(format_delay(132), "132 ms");
    assert_eq!(format_rate(1536), "1.5 KB/s");
    assert_eq!(format_rate(12), "12 B/s");
    assert_eq!(empty_as_dash(""), "-");
    assert_eq!(empty_as_dash("x"), "x");
}

#[test]
fn chains_show_first_and_last_hop() {
    assert_eq!(compact_chain(&[]), "-");
    assert_eq!(compact_chain(&["a".to_string()]), "a");
    assert_eq!(
        compact_chain(&["a".to_string(), "b".to_string(), "c".to_string()]),
        "a → c"
    );
}

#[test]
fn sparklines_scale_the_last_eighteen_values() {
    assert_eq!(sparkline_u64(&[]), "");
    assert_eq!(sparkline_u64(&[5, 5, 5]), "▁▁▁");
    assert_eq!(sparkline_u64(&[0, 7]), "▁█");
    assert_eq!(sparkline_u16(&[0, 1, 2, 3, 4, 5, 6, 7]), "▁▂▃▄▅▆▇█");
    let many: Vec<u64> = (0..20).collect();
    let line = sparkline_u64(&many);
    assert_eq!(line.chars().count(), 18);
    assert!(line.starts_with('▁'));
    assert!(line.ends_with('█'));
}

#[test]
fn bars_fill_by_progress_and_latency() {
    assert_eq!(progress_bar(0, 0, 3), "░░░");
    assert_eq!(progress_bar(1, 3, 6), "██░░░░");
    assert_eq!(progress_bar(1, 2, 3), "██░");
    assert_eq!(progress_bar(5, 5, 4), "████");
    assert_eq!(latency_bar(100, 6), "██████");
    assert_eq!(latency_bar(300, 6), "████░░");
    assert_eq!(latency_bar(800, 6), "██░░░░");
    assert_eq!(latency_bar(2000, 6), "█░░░░░");
}

#[test]
fn format_network_bytes_upgrades_when_value_exceeds_three_digits() {
    assert_eq!(format_network_bytes(999), "999 B");
    assert_eq!(format_network_bytes(1000), "1 KB");
    assert_eq!(format_network_bytes(10 * 1024), "10 KB");
    assert_eq!(format_network_bytes(1536), "1.5 KB");
    assert_eq!(format_network_bytes(1000 * 1024), "1 MB");
    assert_eq!(format_network_bytes(1024 * 1024), "1 MB");
}

#[test]
fn shellexpand() {
    let expanded = shellexpand::tilde(clard::commands::CONFIG_FILE).into_owned();
    println!("{}", expanded);
    assert!(expanded.ends_with("/.config/clard-rs/clard-rs.toml"));
}
