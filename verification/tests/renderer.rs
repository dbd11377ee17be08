use zonefile::domain::{rendered_name, DomainName};
use zonefile::render::{build_zonefile, Record};

fn record(fqdn: &str, record_type: &str, class: &str, ttl: u32, rdata: &str) -> Record {
    Record {
        fqdn: DomainName::parse(fqdn).unwrap(),
        record_type: record_type.to_string(),
        class: class.to_string(),
        ttl,
        rdata: rdata.to_string(),
    }
}

#[test]
fn zonefile_construction() {
    let origin = DomainName::parse("example.org.").unwrap();

    let entries = vec![
        record("www.example.org.", "A", "IN", 360, "127.0.0.1"),
        record("example.org.", "CNAME", "IN", 360, "www.example.org."),
    ];

    let zonefile = build_zonefile(&origin, &entries);

    assert_eq!(
        zonefile,
        "$ORIGIN example.org.\n\
         \n\
         www              360      IN A 127.0.0.1\n\
         @                360      IN CNAME www.example.org."
    );
}

#[test]
fn rendering_is_deterministic() {
    let origin = DomainName::parse("example.org.").unwrap();
    let entries = vec![
        record("www.example.org.", "A", "IN", 360, "127.0.0.1"),
        record("mail.example.org.", "MX", "IN", 7200, "10 mx.example.org."),
    ];
    let first = build_zonefile(&origin, &entries);
    let second = build_zonefile(&origin, &entries);
    assert_eq!(first, second);
}

#[test]
fn empty_record_list_renders_header_only() {
    let origin = DomainName::parse("example.org.").unwrap();
    let zonefile = build_zonefile(&origin, &[]);
    assert_eq!(zonefile, "$ORIGIN example.org.\n\n");
}

#[test]
fn origin_itself_renders_as_at() {
    let origin = DomainName::parse("example.org.").unwrap();
    let fqdn = DomainName::parse("example.org.").unwrap();
    assert_eq!(rendered_name(&fqdn, &origin), "@");
}

#[test]
fn subdomain_renders_relative() {
    let origin = DomainName::parse("example.org.").unwrap();
    let fqdn = DomainName::parse("www.example.org.").unwrap();
    assert_eq!(rendered_name(&fqdn, &origin), "www");

    let deep = DomainName::parse("a.b.example.org.").unwrap();
    assert_eq!(rendered_name(&deep, &origin), "a.b");
}

#[test]
fn foreign_name_renders_unchanged() {
    let origin = DomainName::parse("example.org.").unwrap();
    let fqdn = DomainName::parse("glue.example.net.").unwrap();
    assert_eq!(rendered_name(&fqdn, &origin), "glue.example.net.");

    // A name that merely ends in the origin's text without a label boundary
    // is not a subdomain and renders in full.
    let near_miss = DomainName::parse("notexample.org.").unwrap();
    assert_eq!(rendered_name(&near_miss, &origin), "notexample.org.");
}

#[test]
fn out_of_zone_record_is_kept() {
    let origin = DomainName::parse("example.org.").unwrap();
    let entries = vec![record("ns1.example.net.", "A", "IN", 60, "192.0.2.1")];
    let zonefile = build_zonefile(&origin, &entries);
    assert_eq!(
        zonefile,
        "$ORIGIN example.org.\n\nns1.example.net. 60       IN A 192.0.2.1"
    );
}

#[test]
fn name_column_width_is_longest_fqdn() {
    let origin = DomainName::parse("example.org.").unwrap();
    let entries = vec![
        record("a.example.org.", "A", "IN", 60, "192.0.2.1"),
        record("longer-name.example.org.", "A", "IN", 60, "192.0.2.2"),
    ];
    let zonefile = build_zonefile(&origin, &entries);
    let lines: Vec<&str> = zonefile.lines().collect();
    // Header, blank line, two records.
    assert_eq!(lines.len(), 4);
    // Both name fields occupy the width of "longer-name.example.org." (24).
    assert_eq!(lines[2], "a                        60       IN A 192.0.2.1");
    assert_eq!(lines[3], "longer-name              60       IN A 192.0.2.2");
}

#[test]
fn long_ttl_is_not_truncated() {
    let origin = DomainName::parse("example.org.").unwrap();
    let entries = vec![record("www.example.org.", "A", "IN", 4294967295, "192.0.2.1")];
    let zonefile = build_zonefile(&origin, &entries);
    assert_eq!(
        zonefile,
        "$ORIGIN example.org.\n\nwww              4294967295 IN A 192.0.2.1"
    );
}

#[test]
fn zero_ttl_renders_as_single_digit() {
    let origin = DomainName::parse("example.org.").unwrap();
    let entries = vec![record("www.example.org.", "A", "IN", 0, "192.0.2.1")];
    let zonefile = build_zonefile(&origin, &entries);
    assert_eq!(
        zonefile,
        "$ORIGIN example.org.\n\nwww              0        IN A 192.0.2.1"
    );
}

#[test]
fn parse_accepts_fully_qualified_names() {
    assert_eq!(DomainName::parse("example.org.").unwrap().as_str(), "example.org.");
    assert_eq!(DomainName::parse("a.").unwrap().as_str(), "a.");
}

#[test]
fn parse_rejects_malformed_names() {
    assert!(DomainName::parse("").is_none());
    assert!(DomainName::parse(".").is_none());
    assert!(DomainName::parse("example.org").is_none());
    assert!(DomainName::parse(".example.org.").is_none());
    assert!(DomainName::parse("a..b.").is_none());
}
