use rewinder::process_metrics::parse_ps_rss_total_mb;

#[test]
fn parse_ps_rss_cpu_totals_sums_multiple_rows() {
    let input = "123456 12.5\n654321 3.5\n";
    let rss_mb = parse_ps_rss_total_mb(input);
    assert_eq!(rss_mb, Some((123_456_u64 + 654_321_u64) as u32 / 1024));
}

#[test]
fn rss_rows_without_a_size_are_skipped() {
    assert_eq!(parse_ps_rss_total_mb(""), None);
    assert_eq!(parse_ps_rss_total_mb("  \nabc 1.0\n"), None);
    assert_eq!(parse_ps_rss_total_mb("  2048 0.0\nxyz\n   1024\n"), Some(3));
    assert_eq!(parse_ps_rss_total_mb("18446744073709551615\n5\n"), Some(u32::MAX));
}
