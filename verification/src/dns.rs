use vstd::prelude::*;
use vstd::string::*;
use crate::content::{
    DnsContent, ContentV, content_tag, content_text, spec_resolve_content, resolve_content,
};
use crate::errors::ValidationError;
use crate::http::{ApiError, Method, format_error, spec_format_error};
use crate::strutil::{dec_rep, u64_dec};

verus! {

/// A DNS record as the service reports it; timestamps are carried as the
/// text the service sent.
#[derive(Clone, Debug, PartialEq, Eq)]
pub struct DnsRecord {
    pub id: String,
    pub name: String,
    pub ttl: u32,
    pub proxied: bool,
    pub locked: bool,
    pub content: DnsContent,
    pub created_on: String,
    pub modified_on: String,
}

/// Filters of a record listing; `all` is a substring matched against
/// record names.
#[derive(Clone, Debug, PartialEq, Eq)]
pub struct ListFilters {
    pub all: Option<String>,
}

/// What a record listing asks for.
#[derive(Clone, Debug, PartialEq, Eq)]
pub struct ListParams {
    pub zone_id: String,
    pub page: u32,
    pub limit: u32,
    pub wide: bool,
    pub filters: ListFilters,
}

/// Inputs of a record creation.
#[derive(Clone, Debug, PartialEq, Eq)]
pub struct CreateParams {
    pub zone_id: String,
    pub name: String,
    pub ttl: u32,
    pub proxied: bool,
    pub content: String,
    pub record_type: String,
    pub priority: u16,
}

/// Inputs of a partial record update; an unset field keeps the record's
/// current value.
#[derive(Clone, Debug, PartialEq, Eq)]
pub struct UpdateParams {
    pub id: String,
    pub zone_id: String,
    pub name: Option<String>,
    pub ttl: Option<u32>,
    pub proxied: Option<bool>,
    pub content: Option<String>,
}

/// The query of a record-listing call.
#[derive(Clone, Debug, PartialEq, Eq)]
pub struct DnsListQuery {
    pub name: Option<String>,
    pub page: Option<u32>,
    pub per_page: Option<u32>,
}

/// The body of a record-creation call.
#[derive(Clone, Debug, PartialEq, Eq)]
pub struct CreateRequest {
    pub ttl: Option<u32>,
    pub priority: Option<u16>,
    pub proxied: Option<bool>,
    pub name: String,
    pub content: DnsContent,
}

/// The body of a record-update call; the service replaces the whole
/// record with it.
#[derive(Clone, Debug, PartialEq, Eq)]
pub struct UpdateRequest {
    pub ttl: Option<u32>,
    pub proxied: Option<bool>,
    pub name: String,
    pub content: DnsContent,
}

/// Ghost image of `UpdateRequest`.
pub struct UpdateV {
    pub ttl: Option<u32>,
    pub proxied: Option<bool>,
    pub name: Seq<char>,
    pub content: ContentV,
}

impl View for UpdateRequest {
    type V = UpdateV;

    open spec fn view(&self) -> UpdateV {
        UpdateV {
            ttl: self.ttl,
            proxied: self.proxied,
            name: self.name@,
            content: self.content@,
        }
    }
}

/// The record-details endpoint: fetches one record of one zone.
#[derive(Clone, Debug, PartialEq, Eq)]
pub struct DnsRecordDetails {
    pub zone_identifier: String,
    pub identifier: String,
}

impl DnsRecordDetails {
    pub fn method(&self) -> (r: Method)
        ensures
            r == Method::Get,
    {
        Method::Get
    }

    pub fn path(&self) -> (r: String)
        ensures
            r@ == "zones/"@ + self.zone_identifier@ + "/dns_records/"@ + self.identifier@,
    {
        let mut s = String::from_str("zones/");
        s.append(self.zone_identifier.as_str());
        s.append("/dns_records/");
        s.append(self.identifier.as_str());
        s
    }
}

// --- Listing ------------------------------------------------------------

/// Composes the listing query: the page and page size are passed through,
/// and a name filter becomes a `contains:` match.
pub fn list_query(params: &ListParams) -> (q: DnsListQuery)
    ensures
        q.page == Some(params.page),
        q.per_page == Some(params.limit),
        params.filters.all matches Some(n) ==> (q.name matches Some(f) && f@ == "contains:"@
            + n@),
        params.filters.all is None ==> q.name is None,
{
    let name = match &params.filters.all {
        Some(n) => {
            let mut f = String::from_str("contains:");
            f.append(n.as_str());
            Some(f)
        },
        None => None,
    };
    DnsListQuery { name, page: Some(params.page), per_page: Some(params.limit) }
}

/// How a time-to-live is shown: 1 means "automatic".
pub open spec fn ttl_text(ttl: u32) -> Seq<char> {
    if ttl == 1 {
        "Auto"@
    } else {
        dec_rep(ttl as nat)
    }
}

pub open spec fn yes_no(b: bool) -> Seq<char> {
    if b {
        "Yes"@
    } else {
        "No"@
    }
}

/// The presentation row of one record: identifier, name, type tag,
/// content text, time-to-live and proxy flag; wide mode adds the lock
/// flag and both timestamps.
pub open spec fn dns_row(rec: DnsRecord, wide: bool) -> Seq<Seq<char>> {
    let base = seq![
        rec.id@,
        rec.name@,
        content_tag(rec.content@),
        content_text(rec.content@),
        ttl_text(rec.ttl),
        yes_no(rec.proxied),
    ];
    if wide {
        base + seq![yes_no(rec.locked), rec.created_on@, rec.modified_on@]
    } else {
        base
    }
}

fn yes_no_str(b: bool) -> (r: &'static str)
    ensures
        r@ == yes_no(b),
{
    if b {
        "Yes"
    } else {
        "No"
    }
}

fn ttl_string(ttl: u32) -> (r: String)
    ensures
        r@ == ttl_text(ttl),
{
    if ttl == 1 {
        String::from_str("Auto")
    } else {
        u64_dec(ttl as u64)
    }
}

fn record_row(rec: &DnsRecord, wide: bool) -> (r: Vec<String>)
    ensures
        r.deep_view() == dns_row(*rec, wide),
{
    let mut row: Vec<String> = Vec::new();
    row.push(rec.id.clone());
    row.push(rec.name.clone());
    row.push(String::from_str(rec.content.tag_str()));
    row.push(rec.content.text());
    row.push(ttl_string(rec.ttl));
    row.push(String::from_str(yes_no_str(rec.proxied)));
    if wide {
        row.push(String::from_str(yes_no_str(rec.locked)));
        row.push(rec.created_on.clone());
        row.push(rec.modified_on.clone());
    }
    proof {
        assert(row.deep_view() =~= dns_row(*rec, wide));
    }
    row
}

/// The presentation rows of a listing, one per record, in order.
pub fn list_rows(records: &Vec<DnsRecord>, wide: bool) -> (r: Vec<Vec<String>>)
    ensures
        r@.len() == records@.len(),
        forall|i: int|
            0 <= i < records@.len() ==> #[trigger] r@[i].deep_view() == dns_row(
                records@[i],
                wide,
            ),
{
    let mut rows: Vec<Vec<String>> = Vec::new();
    let n = records.len();
    let mut i: usize = 0;
    while i < n
        invariant
            n == records@.len(),
            i <= n,
            rows@.len() == i,
            forall|k: int|
                0 <= k < i ==> #[trigger] rows@[k].deep_view() == dns_row(records@[k], wide),
        decreases n - i,
    {
        let row = record_row(&records[i], wide);
        rows.push(row);
        i = i + 1;
    }
    rows
}

/// The listing's column headers.
pub open spec fn dns_columns(wide: bool) -> Seq<Seq<char>> {
    let base = seq!["ID"@, "NAME"@, "TYPE"@, "CONTENT"@, "TTL"@, "PROXY"@];
    if wide {
        base + seq!["LOCKED"@, "CREATED"@, "MODIFIED"@]
    } else {
        base
    }
}

pub fn list_columns(wide: bool) -> (r: Vec<&'static str>)
    ensures
        r.deep_view() == dns_columns(wide),
{
    let mut cols: Vec<&'static str> = Vec::new();
    cols.push("ID");
    cols.push("NAME");
    cols.push("TYPE");
    cols.push("CONTENT");
    cols.push("TTL");
    cols.push("PROXY");
    if wide {
        cols.push("LOCKED");
        cols.push("CREATED");
        cols.push("MODIFIED");
    }
    proof {
        assert(cols.deep_view() =~= dns_columns(wide));
    }
    cols
}

// --- Creation -----------------------------------------------------------

/// Builds the creation request: the content is resolved under the given
/// record type, and the request's own priority field stays unset — for an
/// `MX` record the priority travels inside the content.
pub fn create(record: &CreateParams) -> (r: Result<CreateRequest, ValidationError>)
    ensures
        spec_resolve_content(record.record_type@, record.content@, record.priority) matches Ok(v)
            ==> (r matches Ok(req) && req.ttl == Some(record.ttl) && req.priority is None
            && req.proxied == Some(record.proxied) && req.name@ == record.name@ && req.content@
            == v),
        spec_resolve_content(record.record_type@, record.content@, record.priority) matches Err(e)
            ==> r == Result::<CreateRequest, ValidationError>::Err(e),
{
    let content = match resolve_content(
        record.record_type.as_str(),
        record.content.as_str(),
        record.priority,
    ) {
        Ok(c) => c,
        Err(e) => {
            return Err(e);
        },
    };
    Ok(
        CreateRequest {
            ttl: Some(record.ttl),
            priority: None,
            proxied: Some(record.proxied),
            name: record.name.clone(),
            content,
        },
    )
}

/// The ghost image of a call outcome: the identifier as characters.
pub open spec fn outcome_view(o: Result<String, ApiError>) -> Result<Seq<char>, ApiError> {
    match o {
        Result::Ok(id) => Result::Ok(id@),
        Result::Err(e) => Result::Err(e),
    }
}

/// The report printed for the outcome of a creation call.
pub open spec fn spec_create_report(o: Result<Seq<char>, ApiError>) -> Seq<char> {
    match o {
        Result::Ok(id) => "Record \""@ + id + "\" created"@,
        Result::Err(e) => "An error occurred: "@ + spec_format_error(e),
    }
}

pub fn create_report(outcome: &Result<String, ApiError>) -> (r: String)
    ensures
        r@ == spec_create_report(outcome_view(*outcome)),
{
    match outcome {
        Ok(id) => {
            let mut s = String::from_str("Record \"");
            s.append(id.as_str());
            s.append("\" created");
            s
        },
        Err(e) => {
            let mut s = String::from_str("An error occurred: ");
            let detail = format_error(e);
            s.append(detail.as_str());
            s
        },
    }
}

// --- Update (fetch, merge, write) ---------------------------------------

/// The merged update request: new content, if any, is resolved under the
/// record's existing type — an update cannot change a record's type — and
/// every field the caller left unset keeps the record's current value.
pub open spec fn spec_update_request(input: UpdateParams, current: DnsRecord) -> Result<
    UpdateV,
    ValidationError,
> {
    let content_res = match input.content {
        Option::Some(c) => spec_resolve_content(content_tag(current.content@), c@, 1),
        Option::None => Result::Ok(current.content@),
    };
    match content_res {
        Result::Err(e) => Result::Err(e),
        Result::Ok(v) => Result::Ok(
            UpdateV {
                ttl: if input.ttl is Some {
                    input.ttl
                } else {
                    Some(current.ttl)
                },
                proxied: if input.proxied is Some {
                    input.proxied
                } else {
                    Some(current.proxied)
                },
                name: match input.name {
                    Option::Some(n) => n@,
                    Option::None => current.name@,
                },
                content: v,
            },
        ),
    }
}

/// Merges a partial update against the record's current state into the
/// full-replace request the service expects. New content is resolved
/// under the existing record's type, with priority 1, as the update path
/// has always done; a resolution failure aborts before any write.
pub fn update(input: &UpdateParams, current: &DnsRecord) -> (r: Result<
    UpdateRequest,
    ValidationError,
>)
    ensures
        spec_update_request(*input, *current) matches Ok(v) ==> (r matches Ok(req) && req@ == v),
        spec_update_request(*input, *current) matches Err(e) ==> r == Result::<
            UpdateRequest,
            ValidationError,
        >::Err(e),
{
    let record_type = current.content.tag_str();
    let content = match &input.content {
        Some(c) => {
            match resolve_content(record_type, c.as_str(), 1) {
                Ok(resolved) => resolved,
                Err(e) => {
                    return Err(e);
                },
            }
        },
        None => current.content.duplicate(),
    };
    let name = match &input.name {
        Some(n) => n.clone(),
        None => current.name.clone(),
    };
    let ttl = match input.ttl {
        Some(t) => Some(t),
        None => Some(current.ttl),
    };
    let proxied = match input.proxied {
        Some(p) => Some(p),
        None => Some(current.proxied),
    };
    Ok(UpdateRequest { ttl, proxied, name, content })
}

/// Law: the merge invariant of the update path. Every field the caller
/// sets is carried into the dispatched write, and every field left unset
/// keeps the fetched record's current value; with no new content the
/// record's content travels unchanged.
pub proof fn lemma_update_merges_existing(input: UpdateParams, current: DnsRecord)
    ensures
        input.content is None ==> spec_update_request(input, current) matches Ok(v),
        spec_update_request(input, current) matches Ok(v) ==> {
            &&& input.ttl is None ==> v.ttl == Some(current.ttl)
            &&& input.ttl is Some ==> v.ttl == input.ttl
            &&& input.proxied is None ==> v.proxied == Some(current.proxied)
            &&& input.proxied is Some ==> v.proxied == input.proxied
            &&& input.name matches Some(n) ==> v.name == n@
            &&& input.name is None ==> v.name == current.name@
            &&& input.content is None ==> v.content == current.content@
        },
{
}

/// The report printed for the outcome of an update call.
pub open spec fn spec_update_report(o: Result<Seq<char>, ApiError>) -> Seq<char> {
    match o {
        Result::Ok(id) => "Record "@ + id + " updated"@,
        Result::Err(e) => "An error occurred: "@ + spec_format_error(e),
    }
}

pub fn update_report(outcome: &Result<String, ApiError>) -> (r: String)
    ensures
        r@ == spec_update_report(outcome_view(*outcome)),
{
    match outcome {
        Ok(id) => {
            let mut s = String::from_str("Record ");
            s.append(id.as_str());
            s.append(" updated");
            s
        },
        Err(e) => {
            let mut s = String::from_str("An error occurred: ");
            let detail = format_error(e);
            s.append(detail.as_str());
            s
        },
    }
}

// --- Deletion -----------------------------------------------------------

/// The report printed for the outcome of one deletion; a success names
/// the identifier the service reported deleted.
pub open spec fn spec_delete_report(o: Result<Seq<char>, ApiError>) -> Seq<char> {
    match o {
        Result::Ok(id) => "Record \""@ + id + "\" deleted"@,
        Result::Err(e) => "An error occurred: "@ + spec_format_error(e),
    }
}

pub fn delete_report(outcome: &Result<String, ApiError>) -> (r: String)
    ensures
        r@ == spec_delete_report(outcome_view(*outcome)),
{
    match outcome {
        Ok(id) => {
            let mut s = String::from_str("Record \"");
            s.append(id.as_str());
            s.append("\" deleted");
            s
        },
        Err(e) => {
            let mut s = String::from_str("An error occurred: ");
            let detail = format_error(e);
            s.append(detail.as_str());
            s
        },
    }
}

/// The reports of a batch of deletions, one per outcome, in order. Each
/// item is reported from its own outcome alone: one failed deletion —
/// say, of an identifier that was already deleted — never changes what is
/// reported for its siblings.
pub fn delete_outcomes(outcomes: &Vec<Result<String, ApiError>>) -> (r: Vec<String>)
    ensures
        r@.len() == outcomes@.len(),
        forall|i: int|
            0 <= i < outcomes@.len() ==> #[trigger] r@[i]@ == spec_delete_report(
                outcome_view(outcomes@[i]),
            ),
{
    let mut reports: Vec<String> = Vec::new();
    let n = outcomes.len();
    let mut i: usize = 0;
    while i < n
        invariant
            n == outcomes@.len(),
            i <= n,
            reports@.len() == i,
            forall|k: int|
                0 <= k < i ==> #[trigger] reports@[k]@ == spec_delete_report(
                    outcome_view(outcomes@[k]),
                ),
        decreases n - i,
    {
        let report = delete_report(&outcomes[i]);
        reports.push(report);
        i = i + 1;
    }
    reports
}

} // verus!
