use vstd::prelude::*;
use vstd::string::*;
use crate::errors::ResolutionError;
use crate::http::{ApiError, Method};
use crate::dns::yes_no;

verus! {

/// Service-side bookkeeping about a zone.
#[derive(Clone, Debug, PartialEq, Eq)]
pub struct Meta {
    /// Whether the service added the zone automatically during setup.
    pub auto_added: Option<bool>,
}

/// A zone as the service reports it, reduced to what the listing shows:
/// the status is carried as the text the service sent, the plan as its
/// name, if any.
#[derive(Clone, Debug, PartialEq, Eq)]
pub struct Zone {
    pub id: String,
    pub name: String,
    pub status: String,
    pub paused: bool,
    pub plan: Option<String>,
    pub meta: Meta,
}

/// The result list of a zone-listing call.
#[derive(Clone, Debug, PartialEq, Eq)]
pub struct ZoneVec {
    pub zones: Vec<Zone>,
}

/// The query of a zone-listing call.
#[derive(Clone, Debug, PartialEq, Eq)]
pub struct ZoneListQuery {
    pub name: Option<String>,
    pub page: Option<u32>,
    pub per_page: Option<u32>,
    pub ascending: Option<bool>,
}

/// The zone-listing endpoint.
#[derive(Clone, Debug, PartialEq, Eq)]
pub struct ListZones {
    pub params: ZoneListQuery,
}

impl ListZones {
    pub fn method(&self) -> (r: Method)
        ensures
            r == Method::Get,
    {
        Method::Get
    }

    pub fn path(&self) -> (r: String)
        ensures
            r@ == "zones"@,
    {
        String::from_str("zones")
    }

    pub fn query(&self) -> (r: &ZoneListQuery)
        ensures
            r == &self.params,
    {
        &self.params
    }
}

/// The query of a plain zone listing: the requested page and page size,
/// ascending by name.
pub fn zone_list_query(page: u32, limit: u32) -> (q: ZoneListQuery)
    ensures
        q.name is None,
        q.page == Some(page),
        q.per_page == Some(limit),
        q.ascending == Some(true),
{
    ZoneListQuery { name: None, page: Some(page), per_page: Some(limit), ascending: Some(true) }
}

// --- Resolving a zone name to its identifier ----------------------------

/// The first step of zone resolution: either the identifier is already
/// known, or a lookup by exact name with page size one is owed.
#[derive(Clone, Debug, PartialEq, Eq)]
pub enum ZoneResolution {
    Resolved(String),
    NeedsLookup(ZoneListQuery),
}

/// An explicit zone identifier always wins, unchanged and unchecked, and
/// no listing call is made for it; a zone name becomes a lookup by that
/// exact name asking for a single entry.
pub fn start_zone_resolve(zone_id: Option<&String>, zone_name: &String) -> (r: ZoneResolution)
    ensures
        zone_id matches Some(id) ==> (r matches ZoneResolution::Resolved(z) && z@ == id@),
        zone_id is None ==> (r matches ZoneResolution::NeedsLookup(q) && (q.name matches Some(n)
            && n@ == zone_name@) && q.page is None && q.per_page == Some(1u32) && q.ascending
            is None),
{
    match zone_id {
        Some(id) => ZoneResolution::Resolved(id.clone()),
        None => ZoneResolution::NeedsLookup(
            ZoneListQuery {
                name: Some(zone_name.clone()),
                page: None,
                per_page: Some(1),
                ascending: None,
            },
        ),
    }
}

/// The second step of zone resolution, from the listing's outcome:
/// exactly one zone means its identifier; any other count is reported as
/// the name not found — no distinction is drawn between absent and
/// ambiguous; a failed call is reported as a transport error.
pub fn finish_zone_resolve(zone_name: &String, outcome: Result<ZoneVec, ApiError>) -> (r: Result<
    String,
    ResolutionError,
>)
    ensures
        outcome matches Ok(zv) ==> (zv.zones@.len() == 1 ==> (r matches Ok(id) && id@
            == zv.zones@[0].id@)),
        outcome matches Ok(zv) ==> (zv.zones@.len() != 1 ==> (r matches Err(
            ResolutionError::ZoneNotFound(n),
        ) && n@ == zone_name@)),
        outcome matches Err(e) ==> r == Result::<String, ResolutionError>::Err(
            ResolutionError::Transport(e),
        ),
{
    match outcome {
        Ok(zv) => {
            if zv.zones.len() == 1 {
                Ok(zv.zones[0].id.clone())
            } else {
                Err(ResolutionError::ZoneNotFound(zone_name.clone()))
            }
        },
        Err(e) => Err(ResolutionError::Transport(e)),
    }
}

// --- Listing zones ------------------------------------------------------

/// The plan column of a zone row: the plan's name, or a dash when the
/// zone has none.
pub open spec fn plan_text(plan: Option<String>) -> Seq<char> {
    match plan {
        Option::Some(p) => p@,
        Option::None => "-"@,
    }
}

/// The presentation row of one zone.
pub open spec fn zone_row(z: Zone) -> Seq<Seq<char>> {
    seq![z.id@, z.name@, z.status@, plan_text(z.plan), yes_no(z.paused)]
}

/// The presentation rows of a zone listing, one per zone, in order.
pub fn zone_rows(zones: &Vec<Zone>) -> (r: Vec<Vec<String>>)
    ensures
        r@.len() == zones@.len(),
        forall|i: int|
            0 <= i < zones@.len() ==> #[trigger] r@[i].deep_view() == zone_row(zones@[i]),
{
    let mut rows: Vec<Vec<String>> = Vec::new();
    let n = zones.len();
    let mut i: usize = 0;
    while i < n
        invariant
            n == zones@.len(),
            i <= n,
            rows@.len() == i,
            forall|k: int| 0 <= k < i ==> #[trigger] rows@[k].deep_view() == zone_row(zones@[k]),
        decreases n - i,
    {
        let z = &zones[i];
        let mut row: Vec<String> = Vec::new();
        row.push(z.id.clone());
        row.push(z.name.clone());
        row.push(z.status.clone());
        let plan = match &z.plan {
            Some(p) => p.clone(),
            None => String::from_str("-"),
        };
        row.push(plan);
        row.push(if z.paused {
            String::from_str("Yes")
        } else {
            String::from_str("No")
        });
        proof {
            assert(row.deep_view() =~= zone_row(zones@[i as int]));
        }
        rows.push(row);
        i = i + 1;
    }
    rows
}

/// The zone listing's column headers.
pub open spec fn zone_columns() -> Seq<Seq<char>> {
    seq!["ID"@, "NAME"@, "STATUS"@, "PLAN"@, "DNS ONLY"@]
}

pub fn zone_column_headers() -> (r: Vec<&'static str>)
    ensures
        r.deep_view() == zone_columns(),
{
    let mut cols: Vec<&'static str> = Vec::new();
    cols.push("ID");
    cols.push("NAME");
    cols.push("STATUS");
    cols.push("PLAN");
    cols.push("DNS ONLY");
    proof {
        assert(cols.deep_view() =~= zone_columns());
    }
    cols
}

} // verus!
