use boplib::catalog::extract_data_from_file;
use boplib::catalog::parse_line;
use boplib::catalog::LineOutcome;
use boplib::catalog::ParseError;
use boplib::messages::bend_params;
use boplib::messages::choose_patch;
use boplib::patch::Patch;
use boplib::select::select_patch;
use boplib::zone::set_patch;
use boplib::zone::ChannelRange;

fn patch(pc: u8, msb: u8, lsb: u8, name: &str, category: &str) -> Patch {
    Patch { pc, msb, lsb, name: String::from(name), category: String::from(category) }
}

#[test]
fn bank_and_program_exact_bytes() {
    let buf = choose_patch(66, 81, 4, 1);
    assert_eq!(buf, vec![0xB0, 0, 81, 0xB0, 32, 4, 0xC0, 66]);
}

#[test]
fn wire_channel_boundaries() {
    let low = choose_patch(5, 1, 2, 1);
    assert_eq!(low[0], 0xB0);
    assert_eq!(low[6], 0xC0);
    let high = choose_patch(5, 1, 2, 16);
    assert_eq!(high[0], 0xBF);
    assert_eq!(high[6], 0xCF);
}

#[test]
fn bend_reset_exact_bytes() {
    let buf = bend_params(3);
    let expected = vec![
        0xB2, 0x31, 12, 0xB2, 0x32, 12, 0xB2, 0x65, 0, 0xB2, 0x64, 0, 0xB2, 0x26, 0, 0xB2, 0x06,
        12, 0xB2, 0x64, 0x7F, 0xB2, 0x65, 0x7F,
    ];
    assert_eq!(buf, expected);
}

#[test]
fn apply_sends_two_messages_per_channel_in_order() {
    let p = patch(10, 2, 3, "Solo", "Lead");
    let range = ChannelRange::new(2, 4).unwrap();
    let msgs = set_patch(&p, range);
    assert_eq!(msgs.len(), 6);
    let mut k: usize = 0;
    for ch in 2u8..=4 {
        assert_eq!(msgs[k], choose_patch(10, 2, 3, ch));
        assert_eq!(msgs[k + 1], bend_params(ch));
        k += 2;
    }
}

#[test]
fn reload_yields_identical_catalog() {
    let lines: Vec<String> = vec![
        String::from("66\t81\t4\tSupersaw\tLead"),
        String::from("a header row"),
        String::from("1\t2\t3\tWarm Pad\tPads"),
    ];
    let a = extract_data_from_file(&lines).unwrap();
    let b = extract_data_from_file(&lines).unwrap();
    assert_eq!(a, b);
    assert_eq!(a.len(), 2);
    assert_eq!(a[0], patch(66, 81, 4, "Supersaw", "Lead"));
    assert_eq!(a[1], patch(1, 2, 3, "Warm Pad", "Pads"));
}

#[test]
fn supersaw_line_parses() {
    match parse_line("66\t81\t4\tSupersaw\tLead") {
        LineOutcome::Parsed(p) => {
            assert_eq!(p.pc, 66);
            assert_eq!(p.msb, 81);
            assert_eq!(p.lsb, 4);
            assert_eq!(p.name, "Supersaw");
            assert_eq!(p.category, "Lead");
        }
        other => panic!("expected a record, got {:?}", other),
    }
}

#[test]
fn out_of_range_pc_fails_whole_load() {
    let lines: Vec<String> = vec![
        String::from("1\t2\t3\tGood\tLead"),
        String::from("200\t81\t4\tToo Big\tLead"),
        String::from("4\t5\t6\tAlso Good\tBass"),
    ];
    let err = extract_data_from_file(&lines).unwrap_err();
    assert_eq!(err, ParseError { line: 1 });
}

#[test]
fn huge_numeric_field_fails_load() {
    let lines: Vec<String> = vec![String::from("99999999999999999999\t0\t0\tHuge\tPads")];
    assert_eq!(extract_data_from_file(&lines).unwrap_err(), ParseError { line: 0 });
}

#[test]
fn boundary_values_accepted() {
    match parse_line("127\t127\t127\tEdge\tMax") {
        LineOutcome::Parsed(p) => {
            assert_eq!((p.pc, p.msb, p.lsb), (127, 127, 127));
        }
        other => panic!("expected a record, got {:?}", other),
    }
    match parse_line("0007\t000\t001\tZeros\tPads") {
        LineOutcome::Parsed(p) => {
            assert_eq!((p.pc, p.msb, p.lsb), (7, 0, 1));
        }
        other => panic!("expected a record, got {:?}", other),
    }
}

#[test]
fn malformed_lines_are_skipped_not_fatal() {
    let lines: Vec<String> = vec![
        String::from("no tabs at all"),
        String::from("only\tfour\tfields\there"),
        String::from(""),
        String::from("1\t2\t3\t\tEmptyName"),
        String::from("1\t2\tx3\tBad Digits\tLead"),
        String::from("7\t8\t9\tKeys\tPiano"),
    ];
    let ps = extract_data_from_file(&lines).unwrap();
    assert_eq!(ps.len(), 1);
    assert_eq!(ps[0], patch(7, 8, 9, "Keys", "Piano"));
}

#[test]
fn six_fields_do_not_match_the_record_shape() {
    assert_eq!(parse_line("1\t2\t3\tName\tCat\tExtra"), LineOutcome::Skipped);
}

#[test]
fn low_zone_touches_only_low_channels() {
    let p = patch(1, 0, 0, "Solo", "Lead");
    let msgs = set_patch(&p, ChannelRange::low());
    assert_eq!(msgs.len(), 16);
    for m in &msgs {
        assert!(m[0] & 0x0F <= 7);
    }
}

#[test]
fn full_zone_covers_all_sixteen_channels() {
    let p = patch(1, 0, 0, "Solo", "Lead");
    let msgs = set_patch(&p, ChannelRange::full());
    assert_eq!(msgs.len(), 32);
    for (k, m) in msgs.iter().enumerate() {
        assert_eq!((m[0] & 0x0F) as usize, k / 2);
    }
}

#[test]
fn channel_range_rejects_bad_bounds() {
    assert!(ChannelRange::new(0, 8).is_none());
    assert!(ChannelRange::new(9, 8).is_none());
    assert!(ChannelRange::new(1, 17).is_none());
    assert!(ChannelRange::new(5, 5).is_some());
}

#[test]
fn select_from_empty_catalog_fails() {
    let v: Vec<Patch> = Vec::new();
    assert!(select_patch(&v).is_err());
}

#[test]
fn select_returns_a_member() {
    let p = patch(9, 8, 7, "Solo", "Lead");
    let v = vec![p.clone()];
    let got = select_patch(&v).unwrap();
    assert_eq!(*got, p);
}
