use cflare::content::DnsContent;
use cflare::dns::{
    create, delete_outcomes, delete_report, list_columns, list_query, list_rows, update,
    CreateParams, DnsListQuery, DnsRecord, DnsRecordDetails, ListFilters, ListParams,
    UpdateParams,
};
use cflare::errors::ValidationError;
use cflare::http::{ApiError, ApiErrorInfo, Method};

fn sample_record() -> DnsRecord {
    DnsRecord {
        id: String::from("rec1"),
        name: String::from("www.example.com"),
        ttl: 300,
        proxied: true,
        locked: false,
        content: DnsContent::A { content: String::from("1.2.3.4") },
        created_on: String::from("2020-01-01T00:00:00Z"),
        modified_on: String::from("2020-06-01T00:00:00Z"),
    }
}

#[test]
fn list_query_composes_contains_filter() {
    let params = ListParams {
        zone_id: String::from("z1"),
        page: 1,
        limit: 50,
        wide: false,
        filters: ListFilters { all: Some(String::from("www")) },
    };
    let q = list_query(&params);
    assert_eq!(
        q,
        DnsListQuery {
            name: Some(String::from("contains:www")),
            page: Some(1),
            per_page: Some(50),
        }
    );
}

#[test]
fn list_query_without_filter() {
    let params = ListParams {
        zone_id: String::from("z1"),
        page: 2,
        limit: 10,
        wide: true,
        filters: ListFilters { all: None },
    };
    let q = list_query(&params);
    assert_eq!(q, DnsListQuery { name: None, page: Some(2), per_page: Some(10) });
}

#[test]
fn list_rows_narrow() {
    let records = vec![sample_record()];
    let rows = list_rows(&records, false);
    assert_eq!(rows, vec![vec![
        String::from("rec1"),
        String::from("www.example.com"),
        String::from("A"),
        String::from("1.2.3.4"),
        String::from("300"),
        String::from("Yes"),
    ]]);
    assert_eq!(list_columns(false), vec!["ID", "NAME", "TYPE", "CONTENT", "TTL", "PROXY"]);
}

#[test]
fn list_rows_wide_and_auto_ttl() {
    let mut rec = sample_record();
    rec.ttl = 1;
    rec.proxied = false;
    rec.locked = true;
    let rows = list_rows(&vec![rec], true);
    assert_eq!(rows, vec![vec![
        String::from("rec1"),
        String::from("www.example.com"),
        String::from("A"),
        String::from("1.2.3.4"),
        String::from("Auto"),
        String::from("No"),
        String::from("Yes"),
        String::from("2020-01-01T00:00:00Z"),
        String::from("2020-06-01T00:00:00Z"),
    ]]);
    assert_eq!(
        list_columns(true),
        vec!["ID", "NAME", "TYPE", "CONTENT", "TTL", "PROXY", "LOCKED", "CREATED", "MODIFIED"]
    );
}

#[test]
fn create_builds_request() {
    let params = CreateParams {
        zone_id: String::from("z1"),
        name: String::from("mail.example.com"),
        ttl: 120,
        proxied: false,
        content: String::from("mx.example.com"),
        record_type: String::from("MX"),
        priority: 10,
    };
    let req = create(&params).unwrap();
    assert_eq!(req.ttl, Some(120));
    assert_eq!(req.priority, None);
    assert_eq!(req.proxied, Some(false));
    assert_eq!(req.name, "mail.example.com");
    assert_eq!(
        req.content,
        DnsContent::MX { content: String::from("mx.example.com"), priority: 10 }
    );
}

#[test]
fn create_rejects_bad_content() {
    let params = CreateParams {
        zone_id: String::from("z1"),
        name: String::from("www"),
        ttl: 1,
        proxied: true,
        content: String::from("not-an-ip"),
        record_type: String::from("A"),
        priority: 0,
    };
    assert_eq!(create(&params), Err(ValidationError::InvalidIpv4));
}

#[test]
fn update_merges_unset_fields_from_current_record() {
    let current = sample_record();
    let input = UpdateParams {
        id: String::from("rec1"),
        zone_id: String::from("z1"),
        name: Some(String::from("new")),
        ttl: None,
        proxied: None,
        content: None,
    };
    let req = update(&input, &current).unwrap();
    assert_eq!(req.name, "new");
    assert_eq!(req.ttl, Some(300));
    assert_eq!(req.proxied, Some(true));
    assert_eq!(req.content, DnsContent::A { content: String::from("1.2.3.4") });
}

#[test]
fn update_resolves_new_content_under_existing_type() {
    let current = sample_record();
    let input = UpdateParams {
        id: String::from("rec1"),
        zone_id: String::from("z1"),
        name: None,
        ttl: Some(600),
        proxied: Some(false),
        content: Some(String::from("5.6.7.8")),
    };
    let req = update(&input, &current).unwrap();
    assert_eq!(req.name, "www.example.com");
    assert_eq!(req.ttl, Some(600));
    assert_eq!(req.proxied, Some(false));
    assert_eq!(req.content, DnsContent::A { content: String::from("5.6.7.8") });
}

#[test]
fn update_aborts_on_content_that_does_not_match_type() {
    let current = sample_record();
    let input = UpdateParams {
        id: String::from("rec1"),
        zone_id: String::from("z1"),
        name: None,
        ttl: None,
        proxied: None,
        content: Some(String::from("host.example.com")),
    };
    assert_eq!(update(&input, &current), Err(ValidationError::InvalidIpv4));
}

#[test]
fn update_of_ns_record_writes_cname_content() {
    let mut current = sample_record();
    current.content = DnsContent::NS { content: String::from("ns1.example.com") };
    let input = UpdateParams {
        id: String::from("rec1"),
        zone_id: String::from("z1"),
        name: None,
        ttl: None,
        proxied: None,
        content: Some(String::from("ns2.example.com")),
    };
    let req = update(&input, &current).unwrap();
    assert_eq!(req.content, DnsContent::CNAME { content: String::from("ns2.example.com") });
}

#[test]
fn delete_reports_each_outcome_independently() {
    let failure = ApiError::Error {
        status: 404,
        errors: vec![ApiErrorInfo { code: 1032, message: String::from("Record does not exist.") }],
    };
    let outcomes = vec![
        Ok(String::from("a")),
        Err(failure.clone()),
        Ok(String::from("c")),
    ];
    let reports = delete_outcomes(&outcomes);
    assert_eq!(reports, vec![
        String::from("Record \"a\" deleted"),
        String::from("An error occurred: Code 1032: Record does not exist."),
        String::from("Record \"c\" deleted"),
    ]);
    // The same failed deletion on its own yields the same report: no
    // sibling influences another.
    assert_eq!(
        delete_report(&Err(failure)),
        String::from("An error occurred: Code 1032: Record does not exist.")
    );
}

#[test]
fn record_details_endpoint_shape() {
    let ep = DnsRecordDetails {
        zone_identifier: String::from("z9"),
        identifier: String::from("r7"),
    };
    assert_eq!(ep.method(), Method::Get);
    assert_eq!(ep.path(), "zones/z9/dns_records/r7");
}
