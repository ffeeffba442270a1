use porthunter::banner::banner_text;
use porthunter::cli::{launch_mode, menu_choice, LaunchMode, MenuChoice, CLI_FIRST_PORT, CLI_LAST_PORT};
use porthunter::ports::{
    cli_port_guide, get_port_description, get_security_info, get_service_name, get_typical_usage,
    gui_port_guide, port_risk, PortRisk,
};
use porthunter::port_list::parse_port_list;
use porthunter::results::{banner_preview, export_file_name, sort_by_port};
use porthunter::scan::{
    clock_text, host_label, open_port_banner, port_range, socket_address, HostLookup, ScanMessage, ScanProgress,
    ScanResult, ScanSession,
};
use porthunter::state::{millis_setting, port_setting, PortHunterApp};
use porthunter::text::{decimal_string, parse_unsigned_max, same_text, trim};

fn result(port: u16, ts: &str) -> ScanResult {
    ScanResult {
        port,
        service: get_service_name(port),
        banner: format!("banner {}", port),
        timestamp: ts.to_string(),
        is_open: true,
    }
}

#[test]
fn service_names_of_known_and_unknown_ports() {
    assert_eq!(get_service_name(20), "FTP (Data)");
    assert_eq!(get_service_name(22), "SSH - Secure Shell");
    assert_eq!(get_service_name(443), "HTTPS - Secure Web");
    assert_eq!(get_service_name(27017), "MongoDB");
    assert_eq!(get_service_name(8080), "Service inconnu");
    assert_eq!(get_service_name(0), "Service inconnu");
}

#[test]
fn descriptions_security_and_usage() {
    assert_eq!(get_port_description(22), "Secure Shell - Accès terminal sécurisé et transfert de fichiers");
    assert_eq!(get_port_description(1), "Port non standard - Vérifier la documentation du service");
    assert_eq!(get_security_info(23), "🚨 TRÈS DANGEREUX - Tout est transmis en clair. À désactiver immédiatement");
    // Port 20 has no advice of its own.
    assert_eq!(get_security_info(20), "ℹ️ Port non standard. Identifier le service et évaluer les risques");
    assert_eq!(get_typical_usage(6379), "Cache applicatif, sessions utilisateurs, données temporaires");
    assert_eq!(get_typical_usage(65535), "Vérifier la documentation de l'application concernée");
}

#[test]
fn risk_levels() {
    assert_eq!(port_risk(22), PortRisk::Secure);
    assert_eq!(port_risk(995), PortRisk::Secure);
    assert_eq!(port_risk(80), PortRisk::Caution);
    assert_eq!(port_risk(21), PortRisk::Caution);
    assert_eq!(port_risk(3389), PortRisk::Dangerous);
    assert_eq!(port_risk(6379), PortRisk::Dangerous);
    assert_eq!(port_risk(3306), PortRisk::Neutral);
    assert_eq!(port_risk(20), PortRisk::Neutral);
}

#[test]
fn guides_list_ports_in_order_with_their_names() {
    let cli = cli_port_guide();
    let gui = gui_port_guide();
    assert_eq!(cli.len(), 14);
    assert_eq!(gui.len(), 22);
    for guide in [&cli, &gui] {
        for w in guide.windows(2) {
            assert!(w[0].0 < w[1].0);
        }
        for (port, name) in guide.iter() {
            assert_eq!(*name, get_service_name(*port));
            assert_ne!(name, "Service inconnu");
        }
    }
    for (port, _) in cli.iter() {
        assert!(gui.iter().any(|(p, _)| p == port));
    }
    assert_eq!(gui[0], (20, "FTP (Data)".to_string()));
    assert_eq!(gui[21], (27017, "MongoDB".to_string()));
}

#[test]
fn trimming_whitespace() {
    assert_eq!(trim("  1 \n"), "1");
    assert_eq!(trim("\t\r\n"), "");
    assert_eq!(trim(""), "");
    assert_eq!(trim("\u{3000}a b\u{A0}"), "a b");
    assert_eq!(trim("x"), "x");
}

#[test]
fn decimal_text_and_parsing() {
    assert_eq!(decimal_string(0), "0");
    assert_eq!(decimal_string(1024), "1024");
    assert_eq!(decimal_string(u64::MAX), "18446744073709551615");
    assert_eq!(parse_unsigned_max("1024", 65535), Some(1024));
    assert_eq!(parse_unsigned_max("+7", 65535), Some(7));
    assert_eq!(parse_unsigned_max("0007", 65535), Some(7));
    assert_eq!(parse_unsigned_max("65535", 65535), Some(65535));
    assert_eq!(parse_unsigned_max("65536", 65535), None);
    assert_eq!(parse_unsigned_max("18446744073709551615", u64::MAX), Some(u64::MAX));
    assert_eq!(parse_unsigned_max("18446744073709551616", u64::MAX), None);
    assert_eq!(parse_unsigned_max("", 65535), None);
    assert_eq!(parse_unsigned_max("+", 65535), None);
    assert_eq!(parse_unsigned_max("-1", 65535), None);
    assert_eq!(parse_unsigned_max(" 80", 65535), None);
    assert_eq!(parse_unsigned_max("8a", 65535), None);
}

#[test]
fn parsing_agrees_with_std() {
    for s in ["0", "1", "+12", "-3", "", "65535", "65536", "99999999999", "1 ", "x1", "++1"] {
        assert_eq!(parse_unsigned_max(s, 65535).map(|v| v as u16), s.parse::<u16>().ok());
        assert_eq!(parse_unsigned_max(s, u64::MAX), s.parse::<u64>().ok());
    }
}

#[test]
fn decimal_then_parse_round_trips() {
    for n in [0u64, 9, 10, 99, 100, 65535, 123456789, u64::MAX] {
        assert_eq!(parse_unsigned_max(&decimal_string(n), u64::MAX), Some(n));
    }
}

#[test]
fn settings_fall_back_to_defaults() {
    assert_eq!(port_setting("80", 1), 80);
    assert_eq!(port_setting("abc", 1), 1);
    assert_eq!(port_setting("70000", 1024), 1024);
    assert_eq!(millis_setting("250", 1000), 250);
    assert_eq!(millis_setting("", 1000), 1000);
}

#[test]
fn same_text_compares_characters() {
    assert!(same_text("abc", "abc"));
    assert!(!same_text("abc", "abd"));
    assert!(!same_text("ab", "abc"));
    assert!(same_text("", ""));
}

#[test]
fn clock_text_is_time_of_day() {
    assert_eq!(clock_text(0), "00:00:00");
    assert_eq!(clock_text(3661), "01:01:01");
    assert_eq!(clock_text(86399), "23:59:59");
    assert_eq!(clock_text(86400 + 45296), "12:34:56");
}

#[test]
fn socket_address_joins_host_and_port() {
    assert_eq!(socket_address("127.0.0.1", 9999), "127.0.0.1:9999");
    assert_eq!(socket_address("invalid_ip", 80), "invalid_ip:80");
}

#[test]
fn banners_read_from_open_ports() {
    assert_eq!(open_port_banner(b"SSH-2.0-OpenSSH_9.6\r\n"), "SSH-2.0-OpenSSH_9.6\r\n");
    assert_eq!(open_port_banner(b""), "Port ouvert, pas de bannière détectée");
    assert_eq!(open_port_banner("é".as_bytes()), "é");
    assert_eq!(open_port_banner(&[0x61, 0xff, 0x62]), "a\u{FFFD}b");
}

#[test]
fn host_labels() {
    assert_eq!(host_label(HostLookup::InvalidAddress), "Adresse invalide");
    assert_eq!(host_label(HostLookup::Unresolved), "Non résolu");
    assert_eq!(host_label(HostLookup::Resolved("localhost".to_string())), "localhost");
}

#[test]
fn session_scans_each_port_once_then_completes() {
    let (mut s, first) = ScanSession::start(port_range(5, 7), "host".to_string());
    match first {
        ScanMessage::Progress(p) => {
            assert_eq!((p.current_port, p.total_ports, p.scanned, p.open_ports), (5, 3, 0, 0));
            assert!(p.is_scanning);
            assert_eq!(p.hostname, "host");
        }
        _ => panic!("expected progress"),
    }
    let mut announced = Vec::new();
    let mut reported = Vec::new();
    loop {
        match s.advance(false) {
            ScanMessage::Progress(p) => {
                announced.push((p.current_port, p.scanned, p.open_ports));
                let banner = if p.current_port == 6 { Some("hello".to_string()) } else { None };
                if let Some(ScanMessage::Result(r)) = s.record_probe(banner, "10:00:00".to_string()) {
                    reported.push(r);
                }
            }
            ScanMessage::Complete => break,
            _ => panic!("unexpected message"),
        }
    }
    assert_eq!(announced, vec![(5, 1, 0), (6, 2, 0), (7, 3, 1)]);
    assert_eq!(reported.len(), 1);
    assert_eq!(reported[0].port, 6);
    assert_eq!(reported[0].service, "Service inconnu");
    assert_eq!(reported[0].banner, "hello");
    assert_eq!(reported[0].timestamp, "10:00:00");
    assert!(reported[0].is_open);
    assert!(s.finished());
    assert_eq!(s.progress().open_ports, 1);
    // Once over, the session stays over.
    assert!(matches!(s.advance(false), ScanMessage::Complete));
    assert_eq!(s.progress().scanned, 3);
}

#[test]
fn session_stops_on_request() {
    let (mut s, _) = ScanSession::start(port_range(1, 1024), String::new());
    assert!(matches!(s.advance(false), ScanMessage::Progress(_)));
    let r = s.record_probe(Some("x".to_string()), "00:00:01".to_string());
    assert!(matches!(r, Some(ScanMessage::Result(ref res)) if res.port == 1));
    assert!(matches!(s.advance(true), ScanMessage::Complete));
    assert!(s.finished());
    assert_eq!(s.progress().scanned, 1);
    assert_eq!(s.progress().total_ports, 1024);
}

#[test]
fn session_over_the_widest_range() {
    let (mut s, _) = ScanSession::start(port_range(1, 65535), String::new());
    assert_eq!(s.progress().total_ports, 65535);
    let mut count = 0u32;
    while let ScanMessage::Progress(_) = s.advance(false) {
        count += 1;
        assert!(s.record_probe(None, String::new()).is_none());
    }
    assert_eq!(count, 65535);
    assert_eq!(s.progress().current_port, 65535);
}

#[test]
fn default_state() {
    let app = PortHunterApp::default();
    assert_eq!(app.target_ip, "192.168.1.1");
    assert_eq!(app.start_port, "1");
    assert_eq!(app.end_port, "1024");
    assert_eq!(app.timeout_ms, "1000");
    assert!(app.scan_results.is_empty());
    assert!(!app.is_scanning);
    assert_eq!(app.active_tab, 0);
    assert!(app.show_only_open);
    assert_eq!(app.port_guide, gui_port_guide());
    assert_eq!(app.scan_progress.total_ports, 0);
}

#[test]
fn start_and_stop_scan() {
    let mut app = PortHunterApp::default();
    app.start_port = "20".to_string();
    app.end_port = "25".to_string();
    app.timeout_ms = "oops".to_string();
    let req = app.start_scan().expect("scan starts");
    assert_eq!(req.target, "192.168.1.1");
    assert_eq!(req.ports, vec![20, 21, 22, 23, 24, 25]);
    assert_eq!(req.timeout_ms, 1000);
    assert!(app.is_scanning);
    assert_eq!(app.scan_progress.current_port, 20);
    assert_eq!(app.scan_progress.total_ports, 6);
    assert!(app.scan_progress.is_scanning);
    // A second start while scanning does nothing.
    assert!(app.start_scan().is_none());
    app.stop_scan();
    assert!(!app.is_scanning);
    assert!(!app.scan_progress.is_scanning);
    assert_eq!(app.scan_progress.total_ports, 6);
}

#[test]
fn start_scan_with_unparsable_range_uses_defaults() {
    let mut app = PortHunterApp::default();
    app.start_port = "x".to_string();
    app.end_port = "".to_string();
    let req = app.start_scan().unwrap();
    assert_eq!(req.ports, (1..=1024).collect::<Vec<u16>>());
    assert_eq!(app.scan_progress.total_ports, 1024);
}

#[test]
fn messages_update_state_without_duplicates() {
    let mut app = PortHunterApp::default();
    app.start_scan().unwrap();
    let mut p = ScanProgress::idle();
    p.current_port = 22;
    p.total_ports = 1024;
    p.scanned = 22;
    p.is_scanning = true;
    let mut closed = result(23, "10:00:00");
    closed.is_open = false;
    app.update_from_scan_messages(vec![
        ScanMessage::Progress(p),
        ScanMessage::Result(result(22, "10:00:00")),
        ScanMessage::Result(result(22, "10:00:00")),
        ScanMessage::Result(result(22, "10:00:05")),
        ScanMessage::Result(closed),
    ]);
    assert_eq!(app.scan_results.len(), 2);
    assert_eq!(app.scan_results[0].timestamp, "10:00:00");
    assert_eq!(app.scan_results[1].timestamp, "10:00:05");
    assert_eq!(app.scan_progress.scanned, 22);
    assert!(app.is_scanning);
    app.apply_message(ScanMessage::Complete);
    assert!(!app.is_scanning);
    assert!(!app.scan_progress.is_scanning);
    app.start_scan().unwrap();
    app.apply_message(ScanMessage::Error("boom".to_string()));
    assert!(!app.is_scanning);
    assert_eq!(app.scan_results.len(), 2);
}

#[test]
fn reset_and_new_scan() {
    let mut app = PortHunterApp::default();
    app.apply_message(ScanMessage::Result(result(80, "01:02:03")));
    assert_eq!(app.scan_results.len(), 1);
    let req = app.new_scan().unwrap();
    assert_eq!(req.ports.len(), 1024);
    assert!(app.scan_results.is_empty());
    assert!(app.new_scan().is_none());
    app.apply_message(ScanMessage::Result(result(80, "01:02:03")));
    app.reset();
    assert!(app.scan_results.is_empty());
    assert_eq!(app.scan_progress.total_ports, 0);
    assert!(!app.scan_progress.is_scanning);
    assert!(app.is_scanning);
}

#[test]
fn results_are_listed_stably_by_port() {
    let mut app = PortHunterApp::default();
    for (port, ts) in [(443, "a"), (22, "b"), (443, "c"), (80, "d"), (22, "e")] {
        app.apply_message(ScanMessage::Result(result(port, ts)));
    }
    let sorted = app.sorted_results();
    let keys: Vec<(u16, String)> = sorted.iter().map(|r| (r.port, r.timestamp.clone())).collect();
    let expected: Vec<(u16, String)> = [(22, "b"), (22, "e"), (80, "d"), (443, "a"), (443, "c")]
        .iter()
        .map(|(p, t)| (*p, t.to_string()))
        .collect();
    assert_eq!(keys, expected);
    assert!(sort_by_port(&Vec::new()).is_empty());
}

#[test]
fn banner_previews() {
    assert_eq!(banner_preview("   \r\n"), "Aucune bannière détectée");
    assert_eq!(banner_preview(""), "Aucune bannière détectée");
    assert_eq!(banner_preview("SSH-2.0\r\n"), "SSH-2.0\r\n");
    let long = "x".repeat(100);
    assert_eq!(banner_preview(&long), format!("{}...", "x".repeat(80)));
    let exact = "y".repeat(80);
    assert_eq!(banner_preview(&exact), exact);
    let accented = format!("{}é{}", "a".repeat(78), "b".repeat(10));
    assert_eq!(banner_preview(&accented), format!("{}é...", "a".repeat(78)));
}

#[test]
fn export_file_names() {
    assert_eq!(export_file_name("192.168.1.1", 1700000000), "porthunter_192_168_1_1_1700000000.json");
    assert_eq!(export_file_name("scanme.nmap.org", 0), "porthunter_scanme_nmap_org_0.json");
}

#[test]
fn menu_choices() {
    assert_eq!(menu_choice("1\n"), MenuChoice::ScanPorts);
    assert_eq!(menu_choice("  2  "), MenuChoice::PortGuide);
    assert_eq!(menu_choice("3"), MenuChoice::OpenGui);
    assert_eq!(menu_choice("0\r\n"), MenuChoice::Quit);
    assert_eq!(menu_choice("4"), MenuChoice::Invalid);
    assert_eq!(menu_choice(""), MenuChoice::Invalid);
    assert_eq!(menu_choice("1 2"), MenuChoice::Invalid);
    assert_eq!((CLI_FIRST_PORT, CLI_LAST_PORT), (1, 1024));
}

#[test]
fn launch_modes() {
    let args = vec!["porthunter".to_string(), "--cli".to_string()];
    assert_eq!(launch_mode(&args, None), LaunchMode::Cli);
    let args = vec!["porthunter".to_string()];
    assert_eq!(launch_mode(&args, None), LaunchMode::Gui);
    assert_eq!(launch_mode(&args, Some("cli")), LaunchMode::Cli);
    assert_eq!(launch_mode(&args, Some("gui")), LaunchMode::Gui);
    assert_eq!(launch_mode(&vec!["--cli=1".to_string()], None), LaunchMode::Gui);
}

#[test]
fn banner_is_drawn_in_large_letters() {
    let drawing = banner_text().expect("standard font loads").expect("title is drawn");
    assert_ne!(drawing, "PortHunter");
    assert!(drawing.ends_with('\n'));
    let lines: Vec<&str> = drawing.lines().collect();
    assert_eq!(lines.len(), 6);
    assert!(lines.iter().any(|l| l.contains('|')));
}

#[test]
fn port_lists_and_ranges() {
    assert_eq!(parse_port_list("80,443,22"), Some(vec![22, 80, 443]));
    assert_eq!(parse_port_list("1-3, 8080"), Some(vec![1, 2, 3, 8080]));
    assert_eq!(parse_port_list("21,22,25,53,80,110,143,443,993,995"),
        Some(vec![21, 22, 25, 53, 80, 110, 143, 443, 993, 995]));
    assert_eq!(parse_port_list("10 - 12,11"), Some(vec![10, 11, 12]));
    assert_eq!(parse_port_list("+5,7-7"), Some(vec![5, 7]));
    assert_eq!(parse_port_list("1-1000").map(|v| v.len()), Some(1000));
    assert_eq!(parse_port_list("0-65535").map(|v| v.len()), Some(65536));
    assert_eq!(parse_port_list("80"), None);
    assert_eq!(parse_port_list(""), None);
    assert_eq!(parse_port_list("80,"), None);
    assert_eq!(parse_port_list(",80"), None);
    assert_eq!(parse_port_list("100-50"), None);
    assert_eq!(parse_port_list("1-2-3"), None);
    assert_eq!(parse_port_list("-5"), None);
    assert_eq!(parse_port_list("80,70000"), None);
    assert_eq!(parse_port_list("80,abc"), None);
}

#[test]
fn scan_of_a_port_list() {
    let mut app = PortHunterApp::default();
    app.start_port = "80,443,22".to_string();
    let req = app.start_scan().unwrap();
    assert_eq!(req.ports, vec![22, 80, 443]);
    assert_eq!(app.scan_progress.total_ports, 3);
    assert_eq!(app.scan_progress.current_port, 22);

    let mut app = PortHunterApp::default();
    app.start_port = "1-100".to_string();
    app.end_port = "5".to_string();
    let req = app.start_scan().unwrap();
    assert_eq!(req.ports, (1..=100).collect::<Vec<u16>>());

    // A malformed list falls back to the default first port.
    let mut app = PortHunterApp::default();
    app.start_port = "80,,443".to_string();
    app.end_port = "3".to_string();
    let req = app.start_scan().unwrap();
    assert_eq!(req.ports, vec![1, 2, 3]);

    let (mut s, _) = ScanSession::start(req.ports, String::new());
    let mut seen = Vec::new();
    while let ScanMessage::Progress(p) = s.advance(false) {
        assert!(p.is_scanning);
        seen.push((p.current_port, p.scanned, p.total_ports));
        s.record_probe(None, String::new());
    }
    assert_eq!(seen, vec![(1, 1, 3), (2, 2, 3), (3, 3, 3)]);
}

#[test]
fn known_ports_have_distinct_specific_texts() {
    let guide = gui_port_guide();
    for p in 0..=u16::MAX {
        let known = guide.iter().any(|(q, _)| *q == p);
        assert_eq!(get_service_name(p) != "Service inconnu", known);
        assert_eq!(get_port_description(p) != "Port non standard - Vérifier la documentation du service", known);
        assert_eq!(get_typical_usage(p) != "Vérifier la documentation de l'application concernée", known);
    }
    for (i, (_, a)) in guide.iter().enumerate() {
        for (_, b) in guide.iter().skip(i + 1) {
            assert_ne!(a, b);
        }
    }
}

#[test]
fn stopped_state_stays_stopped() {
    let mut app = PortHunterApp::default();
    app.start_scan().unwrap();
    app.stop_scan();
    let mut p = ScanProgress::idle();
    p.is_scanning = true;
    p.total_ports = 1024;
    app.update_from_scan_messages(vec![
        ScanMessage::Progress(p),
        ScanMessage::Result(result(22, "00:00:01")),
        ScanMessage::Complete,
    ]);
    assert!(!app.is_scanning);
    assert_eq!(app.scan_results.len(), 1);
}
