use cflare::content::{resolve_content, DnsContent};
use cflare::errors::ValidationError;

#[test]
fn resolve_a_valid_quad_round_trips() {
    let r = resolve_content("A", "1.2.3.4", 0);
    assert_eq!(r, Ok(DnsContent::A { content: String::from("1.2.3.4") }));
    let r = resolve_content("A", "255.255.255.255", 0);
    assert_eq!(r, Ok(DnsContent::A { content: String::from("255.255.255.255") }));
    let r = resolve_content("A", "0.0.0.0", 0);
    assert_eq!(r, Ok(DnsContent::A { content: String::from("0.0.0.0") }));
}

#[test]
fn resolve_a_rejects_bad_quads() {
    for bad in [
        "", "1.2.3", "1.2.3.4.5", "256.1.1.1", "1.2.3.a", "01.2.3.4", "1..2.3", ".1.2.3",
        "1.2.3.4.", "999.999.999.999", "1.2.3.4 ", "-1.2.3.4", "1,2,3,4", "hostname",
    ] {
        assert_eq!(
            resolve_content("A", bad, 0),
            Err(ValidationError::InvalidIpv4),
            "expected {bad:?} to be rejected"
        );
    }
}

#[test]
fn resolve_aaaa_accepts_ipv6_forms() {
    for good in [
        "::",
        "::1",
        "1::",
        "2001:db8::1",
        "1:2:3:4:5:6:7:8",
        "1:2:3:4:5:6:7::",
        "::ffff:1.2.3.4",
        "1:2:3:4:5:6:1.2.3.4",
        "1:2:3:4:5:6:255.255.255.255",
        "1::2:3:4:5:6:7",
        "::1:2:3:4:5:1.2.3.4",
        "ABCD:ef01:2345:6789:abcd:EF01:2345:6789",
    ] {
        assert_eq!(
            resolve_content("AAAA", good, 0),
            Ok(DnsContent::AAAA { content: String::from(good) }),
            "expected {good:?} to be accepted"
        );
    }
}

#[test]
fn resolve_aaaa_rejects_bad_ipv6() {
    for bad in [
        "", ":::", "1::2::3", "1:2:3:4:5:6:7:8:9", "12345::", "1:2:3:4:5:6:7",
        "1:2:3:4:5:6:7:8::", "::1.2.3.4.5", "g::1", ":1:2:3:4:5:6:7", "1.2.3.4",
        "1:2:3:4:5:6:7:1.2.3.4", "1:2:3:4:5:6:7:", "::8:8:8:8:8:8:8:8", "1:2:3:4:5:01.2.3.4",
        "1:2::3:1.2.3.999", "::ffff:1.2.3.04",
    ] {
        assert_eq!(
            resolve_content("AAAA", bad, 0),
            Err(ValidationError::InvalidIpv6),
            "expected {bad:?} to be rejected"
        );
    }
}

#[test]
fn resolve_cname_and_txt_verbatim() {
    assert_eq!(
        resolve_content("CNAME", "example.com", 0),
        Ok(DnsContent::CNAME { content: String::from("example.com") })
    );
    assert_eq!(
        resolve_content("TXT", "v=spf1 -all", 0),
        Ok(DnsContent::TXT { content: String::from("v=spf1 -all") })
    );
}

#[test]
fn resolve_mx_carries_priority() {
    assert_eq!(
        resolve_content("MX", "mail.example.com", 10),
        Ok(DnsContent::MX { content: String::from("mail.example.com"), priority: 10 })
    );
}

#[test]
fn resolve_ns_is_aliased_to_cname() {
    let ns = resolve_content("NS", "ns1.example.com", 7);
    let cname = resolve_content("CNAME", "ns1.example.com", 7);
    assert_eq!(ns, cname);
    assert_eq!(ns, Ok(DnsContent::CNAME { content: String::from("ns1.example.com") }));
}

#[test]
fn resolve_unknown_type_is_rejected() {
    assert_eq!(
        resolve_content("SRV", "anything", 0),
        Err(ValidationError::UnsupportedRecordType)
    );
    assert_eq!(resolve_content("a", "1.2.3.4", 0), Err(ValidationError::UnsupportedRecordType));
    assert_eq!(resolve_content("", "1.2.3.4", 0), Err(ValidationError::UnsupportedRecordType));
}

#[test]
fn content_tags_and_text() {
    let a = DnsContent::A { content: String::from("1.2.3.4") };
    assert_eq!(a.tag_str(), "A");
    assert_eq!(a.text(), "1.2.3.4");
    let mx = DnsContent::MX { content: String::from("mail"), priority: 5 };
    assert_eq!(mx.tag_str(), "MX");
    assert_eq!(mx.text(), "mail");
    let ns = DnsContent::NS { content: String::from("ns1") };
    assert_eq!(ns.tag_str(), "NS");
}
