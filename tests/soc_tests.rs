use sys_stats::{CPUUsage, Soc, SocDetails};

fn soc(name: &str, cores: u32, perf: Option<u32>, eff: Option<u32>, node: &str) -> Soc {
    Soc {
        name: Some(name.to_string()),
        vendor: Some("Apple".to_string()),
        process_node: Some(node.to_string()),
        core_count: cores,
        performance_cores: perf,
        efficiency_cores: eff,
        gpu_cores: None,
    }
}

fn table() -> Option<Vec<Soc>> {
    Some(vec![
        soc("Apple M1", 8, Some(4), Some(4), "5nm"),
        soc("Apple M1 Pro", 0, Some(6), Some(2), "5nm-a"),
        soc("Apple M1 Pro", 0, Some(8), Some(2), "5nm-b"),
        soc("Apple M2", 8, None, None, "5nm-c"),
        soc("Apple M2", 8, None, None, "5nm-d"),
    ])
}

#[test]
fn lookup_miss_is_empty_record() {
    let t = table();
    assert_eq!(SocDetails::get_soc_info_by_name(&t, ""), Soc::empty());
    assert_eq!(SocDetails::get_soc_info_by_name(&t, "no-such-part"), Soc::empty());
    assert_eq!(SocDetails::get_soc_info_by_name(&t, "apple m1"), Soc::empty());
}

#[test]
fn unparsed_table_is_empty_record() {
    assert_eq!(SocDetails::get_soc_info_by_name(&None, "Apple M1"), Soc::empty());
    let name = "Apple M1".to_string();
    assert_eq!(SocDetails::get_soc_info_by_name_and_cores(&None, &name, 8), Soc::empty());
}

#[test]
fn first_match_by_name_wins() {
    let t = table();
    assert_eq!(SocDetails::get_soc_info_by_name(&t, "Apple M1"), soc("Apple M1", 8, Some(4), Some(4), "5nm"));
    assert_eq!(SocDetails::get_soc_info_by_name(&t, "Apple M2").process_node, Some("5nm-c".to_string()));
    assert_eq!(SocDetails::get_soc_info_by_name(&t, "Apple M1 Pro").process_node, Some("5nm-a".to_string()));
}

#[test]
fn compound_match_skips_name_only_match() {
    let t = table();
    let name = "Apple M1 Pro".to_string();
    let r = SocDetails::get_soc_info_by_name_and_cores(&t, &name, 10);
    assert_eq!(r.process_node, Some("5nm-b".to_string()));
    assert_eq!(r.num_of_cores(), 10);
    let r = SocDetails::get_soc_info_by_name_and_cores(&t, &name, 8);
    assert_eq!(r.process_node, Some("5nm-a".to_string()));
}

#[test]
fn compound_match_rejects_differing_core_count() {
    let t = table();
    let name = "Apple M1".to_string();
    assert_eq!(SocDetails::get_soc_info_by_name_and_cores(&t, &name, 10), Soc::empty());
}

#[test]
fn derived_core_count() {
    assert_eq!(soc("a", 3, Some(4), Some(2), "n").num_of_cores(), 6);
    assert_eq!(soc("a", 3, None, None, "n").num_of_cores(), 3);
    assert_eq!(soc("a", 3, Some(4), None, "n").num_of_cores(), 3);
    assert_eq!(soc("a", 0, Some(u32::MAX), Some(u32::MAX), "n").num_of_cores(), 2 * (u32::MAX as u64));
}

#[test]
fn default_record_is_empty() {
    let d = Soc::default();
    assert_eq!(d, Soc::empty());
    assert_eq!(d.name, None);
    assert_eq!(d.core_count, 0);
    assert_eq!(d.num_of_cores(), 0);
    let s = soc("x", 1, None, None, "n");
    assert_eq!(s.duplicate(), s);
}

#[test]
fn current_soc_from_brand_output() {
    let cores = CPUUsage::num_of_cores().unwrap();
    let t = Some(vec![
        soc("Test SoC", cores + 1, None, None, "wrong"),
        soc("Test SoC", cores, None, None, "right"),
    ]);
    let r = SocDetails::get_current_soc_info(&t, &b"  Test SoC\n".to_vec());
    assert_eq!(r.process_node, Some("right".to_string()));
    let r = SocDetails::get_current_soc_info(&t, &b"Other SoC\n".to_vec());
    assert_eq!(r, Soc::empty());
}
