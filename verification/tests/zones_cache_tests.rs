use cflare::cache::{purge, purge_all, purge_report, purge_url, PurgeCacheParams};
use cflare::errors::{ResolutionError, ValidationError};
use cflare::http::{ApiError, ApiErrorInfo, Method};
use cflare::zones::{
    finish_zone_resolve, start_zone_resolve, zone_column_headers, zone_list_query, zone_rows,
    ListZones, Meta, Zone, ZoneListQuery, ZoneResolution, ZoneVec,
};

fn sample_zone(id: &str, name: &str) -> Zone {
    Zone {
        id: String::from(id),
        name: String::from(name),
        status: String::from("Active"),
        paused: false,
        plan: Some(String::from("Free Website")),
        meta: Meta { auto_added: Some(false) },
    }
}

#[test]
fn explicit_zone_id_wins_without_lookup() {
    let id = String::from("deadbeef");
    let name = String::from("example.com");
    let r = start_zone_resolve(Some(&id), &name);
    assert_eq!(r, ZoneResolution::Resolved(String::from("deadbeef")));
}

#[test]
fn zone_name_becomes_single_entry_lookup() {
    let name = String::from("example.com");
    let r = start_zone_resolve(None, &name);
    assert_eq!(
        r,
        ZoneResolution::NeedsLookup(ZoneListQuery {
            name: Some(String::from("example.com")),
            page: None,
            per_page: Some(1),
            ascending: None,
        })
    );
}

#[test]
fn one_listed_zone_resolves_to_its_id() {
    let name = String::from("example.com");
    let listing = Ok(ZoneVec { zones: vec![sample_zone("z42", "example.com")] });
    assert_eq!(finish_zone_resolve(&name, listing), Ok(String::from("z42")));
}

#[test]
fn zero_listed_zones_is_not_found() {
    let name = String::from("example.com");
    let listing = Ok(ZoneVec { zones: vec![] });
    assert_eq!(
        finish_zone_resolve(&name, listing),
        Err(ResolutionError::ZoneNotFound(String::from("example.com")))
    );
    let err = finish_zone_resolve(&name, Ok(ZoneVec { zones: vec![] })).unwrap_err();
    assert_eq!(err.message(), "Zone \"example.com\" not found");
}

#[test]
fn failed_listing_is_a_transport_error() {
    let name = String::from("example.com");
    let failure = ApiError::Invalid { message: String::from("connection refused") };
    assert_eq!(
        finish_zone_resolve(&name, Err(failure.clone())),
        Err(ResolutionError::Transport(failure))
    );
}

#[test]
fn zone_listing_rows_and_columns() {
    let mut bare = sample_zone("z2", "b.example");
    bare.plan = None;
    bare.paused = true;
    let rows = zone_rows(&vec![sample_zone("z1", "a.example"), bare]);
    assert_eq!(rows, vec![
        vec![
            String::from("z1"),
            String::from("a.example"),
            String::from("Active"),
            String::from("Free Website"),
            String::from("No"),
        ],
        vec![
            String::from("z2"),
            String::from("b.example"),
            String::from("Active"),
            String::from("-"),
            String::from("Yes"),
        ],
    ]);
    assert_eq!(zone_column_headers(), vec!["ID", "NAME", "STATUS", "PLAN", "DNS ONLY"]);
}

#[test]
fn zone_listing_endpoint_shape() {
    let ep = ListZones { params: zone_list_query(1, 50) };
    assert_eq!(ep.method(), Method::Get);
    assert_eq!(ep.path(), "zones");
    assert_eq!(
        *ep.query(),
        ZoneListQuery { name: None, page: Some(1), per_page: Some(50), ascending: Some(true) }
    );
}

#[test]
fn purge_all_builds_purge_everything() {
    let req = purge_all("z1");
    assert_eq!(req.zone_identifier, "z1");
    assert_eq!(
        req.params,
        PurgeCacheParams { purge_everything: Some(true), files: None }
    );
    assert_eq!(req.method(), Method::Post);
    assert_eq!(req.path(), "zones/z1/purge_cache");
    assert_eq!(req.body(), PurgeCacheParams { purge_everything: Some(true), files: None });
}

#[test]
fn purge_urls_within_limit() {
    let files: Vec<String> = (0..30).map(|i| format!("https://example.com/{i}")).collect();
    let req = purge_url("z1", files.clone()).unwrap();
    assert_eq!(req.params.purge_everything, None);
    assert_eq!(req.params.files, Some(files));
}

#[test]
fn purge_thirty_one_files_is_rejected() {
    let files: Vec<String> = (0..31).map(|i| format!("https://example.com/{i}")).collect();
    assert_eq!(purge_url("z1", files), Err(ValidationError::TooManyFiles(31)));
    assert_eq!(
        ValidationError::TooManyFiles(31).message(),
        "Too many files to purge; received: 31"
    );
}

#[test]
fn purge_everything_with_files_is_rejected_before_dispatch() {
    let files = vec![String::from("https://example.com/a.css")];
    assert_eq!(purge("z1", true, files), Err(ValidationError::InvalidPurgeMode));
}

#[test]
fn purge_mode_selection() {
    assert!(matches!(purge("z1", true, vec![]), Ok(p) if p.params.purge_everything == Some(true)));
    let one = vec![String::from("https://example.com/a.css")];
    assert!(matches!(purge("z1", false, one), Ok(p) if p.params.purge_everything.is_none()));
    assert_eq!(purge("z1", false, vec![]), Err(ValidationError::InvalidPurgeMode));
}

#[test]
fn purge_outcome_reports() {
    assert_eq!(
        purge_report(&Ok(())),
        "Successfully purged assets. Please allow up to 30 seconds for changes to take effect."
    );
    let failure = ApiError::Error {
        status: 403,
        errors: vec![ApiErrorInfo { code: 10000, message: String::from("Authentication error") }],
    };
    assert_eq!(purge_report(&Err(failure)), "Code 10000: Authentication error");
}
