use iggy_core::cgroup::{first_cgroup_probe, next_cgroup_probe, CgroupProbe};
use std::path::PathBuf;

use iggy_core::cgroup::{
    available_memory_within, cgroup_relative_path, parse_file_u64, read_reclaimable, stat_value,
    v1_cgroup_path, v2_cgroup_path, CgroupLevel, CgroupVersion,
};

const HOST_TOTAL: u64 = 10_000;

fn level(limit: Option<&str>, usage: Option<&str>, stat: Option<&str>) -> CgroupLevel {
    CgroupLevel {
        limit: limit.map(str::to_owned),
        usage: usage.map(str::to_owned),
        stat: stat.map(str::to_owned),
    }
}

#[test]
fn cgroup_paths_parse_v2_and_v1_lines() {
    let hybrid = "12:cpuset:/\n11:memory,cpuacct:/system.slice/iggy.service\n0::/user.slice";

    assert_eq!(
        v2_cgroup_path(hybrid).map(PathBuf::from),
        Some(PathBuf::from("user.slice"))
    );
    assert_eq!(
        v1_cgroup_path(hybrid).map(PathBuf::from),
        Some(PathBuf::from("system.slice/iggy.service"))
    );
    assert_eq!(v1_cgroup_path("12:cpuset:/\n10:cpu:/"), None);
}

#[test]
fn v2_available_memory_adds_reclaimable_file_cache_back() {
    let levels = vec![
        level(
            Some("1000"),
            Some("900"),
            Some("anon 300\ninactive_file 400\nactive_file 100\n"),
        ),
        level(Some("max"), None, None),
    ];
    // limit - current would report 100; 500 of the 900 is reclaimable cache.
    assert_eq!(
        available_memory_within(&levels, CgroupVersion::V2, HOST_TOTAL),
        Some(600)
    );
}

#[test]
fn v2_tighter_parent_cap_wins_over_unlimited_leaf() {
    let levels = vec![
        level(Some("max"), Some("100"), Some("inactive_file 10\nactive_file 0\n")),
        level(Some("500"), Some("450"), Some("inactive_file 50\nactive_file 0\n")),
        level(Some("max"), None, None),
    ];
    assert_eq!(
        available_memory_within(&levels, CgroupVersion::V2, HOST_TOTAL),
        Some(100)
    );
}

#[test]
fn v2_missing_reclaimable_key_counts_as_zero() {
    let levels = vec![
        level(Some("1000"), Some("900"), Some("anon 300\ninactive_file 400\n")),
        level(Some("max"), None, None),
    ];
    assert_eq!(
        available_memory_within(&levels, CgroupVersion::V2, HOST_TOTAL),
        Some(500)
    );
}

#[test]
fn v2_no_capped_ancestor_yields_none() {
    let levels = vec![
        level(Some("max"), Some("100"), Some("inactive_file 10\nactive_file 0\n")),
        level(Some("max"), None, None),
    ];
    assert_eq!(
        available_memory_within(&levels, CgroupVersion::V2, HOST_TOTAL),
        None
    );
}

#[test]
fn v2_unreadable_usage_at_capped_level_yields_none() {
    let levels = vec![level(Some("1000"), None, None), level(Some("max"), None, None)];
    assert_eq!(
        available_memory_within(&levels, CgroupVersion::V2, HOST_TOTAL),
        None
    );
}

#[test]
fn v1_available_memory_uses_hierarchical_stat_keys() {
    let max = u64::MAX.to_string();
    let levels = vec![
        level(
            Some("1000"),
            Some("800"),
            Some("inactive_file 999\ntotal_inactive_file 250\ntotal_active_file 50\n"),
        ),
        level(Some(max.as_str()), None, None),
    ];
    assert_eq!(
        available_memory_within(&levels, CgroupVersion::V1, HOST_TOTAL),
        Some(500)
    );
}

#[test]
fn capped_level_with_unreadable_stat_yields_none() {
    let levels = vec![level(Some("1000"), Some("900"), None)];
    assert_eq!(
        available_memory_within(&levels, CgroupVersion::V2, HOST_TOTAL),
        None
    );
}

#[test]
fn headroom_saturates_at_zero() {
    let levels = vec![level(Some("100"), Some("900"), Some("inactive_file 10\n"))];
    assert_eq!(
        available_memory_within(&levels, CgroupVersion::V2, HOST_TOTAL),
        Some(0)
    );
}

#[test]
fn limit_above_host_total_does_not_cap() {
    let levels = vec![level(Some("20000"), Some("10"), Some(""))];
    assert_eq!(
        available_memory_within(&levels, CgroupVersion::V2, HOST_TOTAL),
        None
    );
}

#[test]
fn tightest_headroom_is_kept_across_levels() {
    let levels = vec![
        level(Some("5000"), Some("1000"), Some("")),
        level(Some("3000"), Some("2500"), Some("active_file 100\n")),
        level(Some("9000"), Some("100"), Some("")),
    ];
    assert_eq!(
        available_memory_within(&levels, CgroupVersion::V2, HOST_TOTAL),
        Some(600)
    );
}

#[test]
fn file_numbers_are_trimmed_and_strict() {
    assert_eq!(parse_file_u64("1000\n"), Some(1000));
    assert_eq!(parse_file_u64("  42 \t"), Some(42));
    assert_eq!(parse_file_u64("+7"), Some(7));
    assert_eq!(parse_file_u64("max\n"), None);
    assert_eq!(parse_file_u64(""), None);
    assert_eq!(parse_file_u64("-1"), None);
    assert_eq!(parse_file_u64("18446744073709551615"), Some(u64::MAX));
    assert_eq!(parse_file_u64("18446744073709551616"), None);
    assert_eq!(parse_file_u64("12 34"), None);
}

#[test]
fn stat_value_takes_first_parsable_line_for_key() {
    let stat = "active_file x\nanon 1\nactive_file 5\r\nactive_file 9\n";
    assert_eq!(stat_value(stat, "active_file"), Some(5));
    assert_eq!(stat_value(stat, "anon"), Some(1));
    assert_eq!(stat_value(stat, "inactive_file"), None);
    assert_eq!(stat_value("inactive_file  12 \n", "inactive_file"), Some(12));
}

#[test]
fn reclaimable_saturates() {
    let stat = "inactive_file 18446744073709551615\nactive_file 10\n";
    assert_eq!(read_reclaimable(stat, CgroupVersion::V2), u64::MAX);
    assert_eq!(read_reclaimable("", CgroupVersion::V1), 0);
}

#[test]
fn cgroup_lines_need_two_colons_and_an_absolute_path() {
    assert_eq!(cgroup_relative_path("0::relative", CgroupVersion::V2), None);
    assert_eq!(cgroup_relative_path("0:/x", CgroupVersion::V2), None);
    assert_eq!(
        cgroup_relative_path("0::/a:b\r\n", CgroupVersion::V2).map(PathBuf::from),
        Some(PathBuf::from("a:b"))
    );
    assert_eq!(
        cgroup_relative_path("0::/", CgroupVersion::V2).map(PathBuf::from),
        Some(PathBuf::from(""))
    );
    assert_eq!(cgroup_relative_path("1:memory2:/x", CgroupVersion::V1), None);
    assert_eq!(
        cgroup_relative_path("3:cpu,memory:/m", CgroupVersion::V1).map(PathBuf::from),
        Some(PathBuf::from("m"))
    );
    assert_eq!(cgroup_relative_path("0:memory:/m", CgroupVersion::V2), None);
}

#[test]
fn probe_prefers_v2_then_falls_back_to_v1() {
    assert_eq!(first_cgroup_probe(), CgroupProbe::Probe(CgroupVersion::V2));
    assert_eq!(next_cgroup_probe(CgroupVersion::V2, Some(600)), CgroupProbe::Done(Some(600)));
    assert_eq!(next_cgroup_probe(CgroupVersion::V2, None), CgroupProbe::Probe(CgroupVersion::V1));
    assert_eq!(next_cgroup_probe(CgroupVersion::V1, Some(500)), CgroupProbe::Done(Some(500)));
    assert_eq!(next_cgroup_probe(CgroupVersion::V1, None), CgroupProbe::Done(None));
    assert_eq!(CgroupVersion::V2.hierarchy_root(), "/sys/fs/cgroup");
    assert_eq!(CgroupVersion::V1.hierarchy_root(), "/sys/fs/cgroup/memory");
}
