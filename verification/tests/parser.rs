use unit_parser::parse::{ServiceParser, UnitParser};
use unit_parser::quantity::{resolve_quantity, QuantityTable};
use unit_parser::unit::{ParseErrorType, TypeSpecificRecord, UnitType};

fn lines(v: &[&str]) -> Vec<String> {
    v.iter().map(|s| s.to_string()).collect()
}

#[test]
fn base_keys_reflected_under_unit() {
    let file = lines(&[
        "[Unit]",
        "Description=a demo unit",
        "Documentation=man:demo(1) https://example.org",
        "Requires=a.service b.service",
        "Wants=w.service",
        "After=x.target",
        "Before=y.target",
        "BindsTo=c.service",
        "PartOf=d.target",
        "OnFailure=e.service",
        "Conflicts=f.service g.service",
    ]);
    let rec = UnitParser::parse("demo.service", UnitType::Service, &file).unwrap();
    assert_eq!(rec.base.unit_type, UnitType::Service);
    assert_eq!(rec.base.description, "a demo unit");
    assert_eq!(rec.base.documentation, vec!["man:demo(1)", "https://example.org"]);
    assert_eq!(rec.base.requires_units, vec!["a.service", "b.service"]);
    assert_eq!(rec.base.wants, vec!["w.service"]);
    assert_eq!(rec.base.after, vec!["x.target"]);
    assert_eq!(rec.base.before, vec!["y.target"]);
    assert_eq!(rec.base.binds_to, vec!["c.service"]);
    assert_eq!(rec.base.part_of, vec!["d.target"]);
    assert_eq!(rec.base.on_failure, vec!["e.service"]);
    assert_eq!(rec.base.conflicts, vec!["f.service", "g.service"]);
}

#[test]
fn base_key_under_install_is_einval() {
    let keys = [
        "Description", "Documentation", "Requires", "Wants", "After", "Before", "BindsTo",
        "PartOf", "OnFailure", "Conflicts",
    ];
    for key in keys.iter() {
        let file = lines(&["[Install]", &format!("{}=x", key)]);
        let e = UnitParser::parse("demo.service", UnitType::Service, &file).unwrap_err();
        assert_eq!(e.error_type, ParseErrorType::EINVAL);
        assert_eq!(e.linenum, 2);
        assert_eq!(e.file, "demo.service");
    }
}

#[test]
fn base_key_before_any_header_is_syntax_error() {
    let file = lines(&["Description=x"]);
    let e = UnitParser::parse("demo.service", UnitType::Service, &file).unwrap_err();
    assert_eq!(e.error_type, ParseErrorType::ESyntaxError);
    assert_eq!(e.linenum, 1);
}

#[test]
fn line_without_eq_fails_at_its_line() {
    let file = lines(&["[Unit]", "# a comment", "no equals here"]);
    let e = UnitParser::parse("demo.service", UnitType::Service, &file).unwrap_err();
    assert_eq!(e.error_type, ParseErrorType::ESyntaxError);
    assert_eq!(e.linenum, 3);
    assert_eq!(e.file, "demo.service");
}

#[test]
fn value_splits_on_first_eq_only() {
    let file = lines(&["[Unit]", "Description=B=C"]);
    let rec = UnitParser::parse("a.service", UnitType::Service, &file).unwrap();
    assert_eq!(rec.base.description, "B=C");
}

#[test]
fn timer_file_requested_as_service_is_efile() {
    let file = lines(&["[Unit]"]);
    let e = UnitParser::parse("foo.timer", UnitType::Service, &file).unwrap_err();
    assert_eq!(e.error_type, ParseErrorType::EFILE);
    assert_eq!(e.file, "foo.timer");
    assert_eq!(e.linenum, 0);
}

#[test]
fn path_without_extension_is_efile() {
    let file = lines(&["[Unit]"]);
    let e = UnitParser::parse("foo", UnitType::Service, &file).unwrap_err();
    assert_eq!(e.error_type, ParseErrorType::EFILE);
    let e = UnitParser::parse("foo.conf", UnitType::Service, &file).unwrap_err();
    assert_eq!(e.error_type, ParseErrorType::EFILE);
}

#[test]
fn extension_table_maps_each_kind() {
    let file = lines(&["[Unit]"]);
    assert!(UnitParser::parse("a.automount", UnitType::Automount, &file).is_ok());
    assert!(UnitParser::parse("a.slice", UnitType::Slice, &file).is_ok());
    assert!(UnitParser::parse("a.device", UnitType::Device, &file).is_ok());
    assert!(UnitParser::parse("a.mount", UnitType::Mount, &file).is_ok());
    assert!(UnitParser::parse("a.path", UnitType::Path, &file).is_ok());
    assert!(UnitParser::parse("a.scope", UnitType::Scope, &file).is_ok());
    assert!(UnitParser::parse("a.socket", UnitType::Socket, &file).is_ok());
    assert!(UnitParser::parse("a.swap", UnitType::Swap, &file).is_ok());
    assert!(UnitParser::parse("a.target", UnitType::Target, &file).is_ok());
    assert!(UnitParser::parse("a.timer", UnitType::Timer, &file).is_ok());
    // The unambiguous, conventional pairing is pinned: neither extension
    // resolves to the other kind.
    let e = UnitParser::parse("a.automount", UnitType::Slice, &file).unwrap_err();
    assert_eq!(e.error_type, ParseErrorType::EFILE);
    let e = UnitParser::parse("a.slice", UnitType::Automount, &file).unwrap_err();
    assert_eq!(e.error_type, ParseErrorType::EFILE);
}

#[test]
fn byte_quantity_iec_and_si() {
    assert_eq!(resolve_quantity(QuantityTable::IecBytes, "100M"), Some(104857600));
    assert_eq!(resolve_quantity(QuantityTable::SiBytes, "100M"), Some(100000000));
    assert_eq!(resolve_quantity(QuantityTable::IecBytes, "7"), Some(7));
    assert_eq!(resolve_quantity(QuantityTable::IecBytes, "2B"), Some(2));
    assert_eq!(resolve_quantity(QuantityTable::IecBytes, "1K"), Some(1024));
    assert_eq!(resolve_quantity(QuantityTable::SiBytes, "1K"), Some(1000));
    assert_eq!(resolve_quantity(QuantityTable::IecBytes, "1E"), Some(1152921504606846976));
    assert_eq!(resolve_quantity(QuantityTable::SiBytes, "1E"), Some(1000000000000000000));
}

#[test]
fn duration_quantities_in_nanoseconds() {
    assert_eq!(resolve_quantity(QuantityTable::DurationNs, "10s"), Some(10_000_000_000));
    assert_eq!(resolve_quantity(QuantityTable::DurationNs, "5min"), Some(300_000_000_000));
    assert_eq!(resolve_quantity(QuantityTable::DurationNs, "5m"), Some(300_000_000_000));
    // A bare integer is read as seconds.
    assert_eq!(resolve_quantity(QuantityTable::DurationNs, "3"), Some(3_000_000_000));
    assert_eq!(resolve_quantity(QuantityTable::DurationNs, "4ms"), Some(4_000_000));
    assert_eq!(resolve_quantity(QuantityTable::DurationNs, "9us"), Some(9_000));
    assert_eq!(resolve_quantity(QuantityTable::DurationNs, "8ns"), Some(8));
    assert_eq!(resolve_quantity(QuantityTable::DurationNs, "2h"), Some(7_200_000_000_000));
}

#[test]
fn malformed_quantities_resolve_to_none() {
    assert_eq!(resolve_quantity(QuantityTable::DurationNs, ""), None);
    assert_eq!(resolve_quantity(QuantityTable::DurationNs, "s"), None);
    assert_eq!(resolve_quantity(QuantityTable::DurationNs, "5x"), None);
    assert_eq!(resolve_quantity(QuantityTable::DurationNs, "5 s"), None);
    // Far past u64::MAX even before scaling.
    assert_eq!(resolve_quantity(QuantityTable::DurationNs, "99999999999999999999ns"), None);
    // Overflows only once the multiplier is applied.
    assert_eq!(resolve_quantity(QuantityTable::DurationNs, "99999999999s"), None);
    assert_eq!(resolve_quantity(QuantityTable::IecBytes, "M"), None);
}

#[test]
fn service_section_attributes_are_applied() {
    let file = lines(&[
        "[Service]",
        "Type=simple",
        "RemainAfterExit=yes",
        "ExecStart=/bin/demo --serve",
        "ExecStartPre=/bin/pre",
        "ExecStartPost=/bin/post",
        "ExecStop=/bin/stop",
        "ExecStopPost=/bin/cleanup",
        "Restart=always",
        "RestartSec=5s",
        "TimeoutStartSec=2min",
        "TimeoutStopSec=100ms",
        "Environment=A=1 B=2",
        "EnvironmentFile=/etc/demo.env",
        "Nice=5",
        "WorkingDirectory=/var/lib/demo",
        "RootDirectory=/",
        "User=demo",
        "Group=demo",
        "MountFlags=shared",
    ]);
    let rec = ServiceParser::parse("demo.service", &file).unwrap();
    match &rec.type_part {
        TypeSpecificRecord::Service(sp) => {
            assert_eq!(sp.service_type, "simple");
            assert_eq!(sp.remain_after_exit, "yes");
            assert_eq!(sp.exec_start, "/bin/demo --serve");
            assert_eq!(sp.exec_start_pre, "/bin/pre");
            assert_eq!(sp.exec_start_post, "/bin/post");
            assert_eq!(sp.exec_stop, "/bin/stop");
            assert_eq!(sp.exec_stop_post, "/bin/cleanup");
            assert_eq!(sp.restart, "always");
            assert_eq!(sp.restart_sec, 5_000_000_000);
            assert_eq!(sp.timeout_start_sec, 120_000_000_000);
            assert_eq!(sp.timeout_stop_sec, 100_000_000);
            assert_eq!(sp.environment, vec!["A=1", "B=2"]);
            assert_eq!(sp.environment_file, "/etc/demo.env");
            assert_eq!(sp.nice, "5");
            assert_eq!(sp.working_directory, "/var/lib/demo");
            assert_eq!(sp.root_directory, "/");
            assert_eq!(sp.user, "demo");
            assert_eq!(sp.group, "demo");
            assert_eq!(sp.mount_flags, "shared");
        },
        other => panic!("expected a service record, got {:?}", other),
    }
}

#[test]
fn service_key_outside_service_segment_is_einval() {
    let file = lines(&["[Unit]", "Type=simple"]);
    let e = ServiceParser::parse("demo.service", &file).unwrap_err();
    assert_eq!(e.error_type, ParseErrorType::EINVAL);
    assert_eq!(e.linenum, 2);
}

#[test]
fn unknown_key_is_einval() {
    let file = lines(&["[Service]", "Bogus=1"]);
    let e = ServiceParser::parse("demo.service", &file).unwrap_err();
    assert_eq!(e.error_type, ParseErrorType::EINVAL);
    assert_eq!(e.linenum, 2);
}

#[test]
fn kinds_without_a_handler_reject_delegated_keys() {
    let file = lines(&["[Target]", "Anything=1"]);
    let e = UnitParser::parse("demo.target", UnitType::Target, &file).unwrap_err();
    assert_eq!(e.error_type, ParseErrorType::EINVAL);
    assert_eq!(e.linenum, 2);
    let ok = UnitParser::parse("demo.target", UnitType::Target, &lines(&["[Unit]"])).unwrap();
    assert_eq!(ok.type_part, TypeSpecificRecord::Target);
}

#[test]
fn bad_duration_value_is_einval() {
    let file = lines(&["[Service]", "RestartSec=abc"]);
    let e = ServiceParser::parse("demo.service", &file).unwrap_err();
    assert_eq!(e.error_type, ParseErrorType::EINVAL);
    assert_eq!(e.linenum, 2);
}

#[test]
fn continuation_group_merges_and_scanning_resumes() {
    let file = lines(&[
        "[Service]",
        "ExecStart=/bin/foo \\",
        "  --flag",
        "User=root",
    ]);
    let rec = ServiceParser::parse("demo.service", &file).unwrap();
    match &rec.type_part {
        TypeSpecificRecord::Service(sp) => {
            // The stripped first piece keeps its trailing space, the join adds
            // one, and the second line keeps its two leading spaces.
            assert_eq!(sp.exec_start, "/bin/foo    --flag");
            // The line after the group is still parsed.
            assert_eq!(sp.user, "root");
        },
        other => panic!("expected a service record, got {:?}", other),
    }
}

#[test]
fn continuation_group_at_end_of_file_is_closed() {
    let file = lines(&["[Service]", "ExecStart=/bin/x \\"]);
    let rec = ServiceParser::parse("demo.service", &file).unwrap();
    match &rec.type_part {
        TypeSpecificRecord::Service(sp) => assert_eq!(sp.exec_start, "/bin/x"),
        other => panic!("expected a service record, got {:?}", other),
    }
}

#[test]
fn continuation_before_any_header_fails_at_first_line() {
    let file = lines(&["Exec=x \\", "y"]);
    let e = ServiceParser::parse("demo.service", &file).unwrap_err();
    assert_eq!(e.error_type, ParseErrorType::ESyntaxError);
    assert_eq!(e.linenum, 1);
}

#[test]
fn parsing_twice_yields_identical_records() {
    let file = lines(&[
        "[Unit]",
        "Description=twice",
        "After=a.target b.target",
        "[Service]",
        "ExecStart=/bin/app",
        "RestartSec=10s",
        "[Install]",
        "WantedBy=multi-user.target",
    ]);
    let r1 = ServiceParser::parse("demo.service", &file).unwrap();
    let r2 = ServiceParser::parse("demo.service", &file).unwrap();
    assert_eq!(*r1, *r2);
}

#[test]
fn install_keys_reflected_under_install() {
    let file = lines(&[
        "[Install]",
        "WantedBy=multi-user.target",
        "RequiredBy=net.target",
        "Also=other.service",
        "Alias=foo.service bar.service",
    ]);
    let rec = ServiceParser::parse("demo.service", &file).unwrap();
    assert_eq!(rec.base.wanted_by, vec!["multi-user.target"]);
    assert_eq!(rec.base.required_by, vec!["net.target"]);
    assert_eq!(rec.base.also, vec!["other.service"]);
    assert_eq!(rec.base.alias, vec!["foo.service", "bar.service"]);
}

#[test]
fn blank_and_comment_lines_are_skipped() {
    let file = lines(&["", "   ", "# comment", "\t", "[Unit]", "Description=d"]);
    let rec = ServiceParser::parse("demo.service", &file).unwrap();
    assert_eq!(rec.base.description, "d");
}

#[test]
fn headers_match_trimmed_and_exact() {
    // Surrounding whitespace is trimmed away before the header lookup.
    let file = lines(&["  [Unit]  ", "Description=x"]);
    let rec = ServiceParser::parse("demo.service", &file).unwrap();
    assert_eq!(rec.base.description, "x");
    // A near-miss is no header: it becomes an attribute line without `=`.
    let file = lines(&["[unit]"]);
    let e = ServiceParser::parse("demo.service", &file).unwrap_err();
    assert_eq!(e.error_type, ParseErrorType::ESyntaxError);
    assert_eq!(e.linenum, 1);
}

#[test]
fn keys_and_values_are_trimmed() {
    let file = lines(&["[Unit]", "  Description  =  spaced out  "]);
    let rec = ServiceParser::parse("demo.service", &file).unwrap();
    assert_eq!(rec.base.description, "spaced out");
}

#[test]
fn last_write_wins_for_repeated_keys() {
    let file = lines(&["[Unit]", "Description=first", "Description=second"]);
    let rec = ServiceParser::parse("demo.service", &file).unwrap();
    assert_eq!(rec.base.description, "second");
}

#[test]
fn own_header_is_recognized_per_kind() {
    // `[Timer]` is a header for a timer unit ...
    let ok = UnitParser::parse("t.timer", UnitType::Timer, &lines(&["[Timer]"])).unwrap();
    assert_eq!(ok.type_part, TypeSpecificRecord::Timer);
    // ... but not for a service unit, where it is a malformed attribute line.
    let e = ServiceParser::parse("demo.service", &lines(&["[Timer]"])).unwrap_err();
    assert_eq!(e.error_type, ParseErrorType::ESyntaxError);
}
