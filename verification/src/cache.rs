use vstd::prelude::*;
use vstd::string::*;
use crate::errors::ValidationError;
use crate::http::{ApiError, Method, format_error, spec_format_error};
use crate::strutil::clone_strings;

verus! {

/// The body of a cache-purge call: either everything, or a list of files.
#[derive(Clone, Debug, PartialEq, Eq)]
pub struct PurgeCacheParams {
    pub purge_everything: Option<bool>,
    pub files: Option<Vec<String>>,
}

/// A well-formed purge asks for exactly one of the two modes, and a file
/// purge names between one and thirty files — the service's limit per
/// call.
pub open spec fn purge_params_wf(p: PurgeCacheParams) -> bool {
    ||| (p.purge_everything == Some(true) && p.files is None)
    ||| (p.purge_everything is None && (p.files matches Some(f) && 1 <= f@.len() <= 30))
}

/// The cache-purge endpoint of one zone.
#[derive(Clone, Debug, PartialEq, Eq)]
pub struct PurgeCache {
    pub zone_identifier: String,
    pub params: PurgeCacheParams,
}

/// What a successful purge call returns.
#[derive(Clone, Debug, PartialEq, Eq)]
pub struct Cache {
    pub id: String,
}

impl PurgeCache {
    pub fn method(&self) -> (r: Method)
        ensures
            r == Method::Post,
    {
        Method::Post
    }

    pub fn path(&self) -> (r: String)
        ensures
            r@ == "zones/"@ + self.zone_identifier@ + "/purge_cache"@,
    {
        let mut s = String::from_str("zones/");
        s.append(self.zone_identifier.as_str());
        s.append("/purge_cache");
        s
    }

    /// The call's body: a copy of the parameters.
    pub fn body(&self) -> (r: PurgeCacheParams)
        ensures
            r.purge_everything == self.params.purge_everything,
            r.files is Some <==> self.params.files is Some,
            self.params.files matches Some(f) ==> (r.files matches Some(g) && g@.len() == f@.len()
                && (forall|i: int| 0 <= i < f@.len() ==> #[trigger] g@[i]@ == f@[i]@)),
    {
        let files = match &self.params.files {
            Some(f) => Some(clone_strings(f)),
            None => None,
        };
        PurgeCacheParams { purge_everything: self.params.purge_everything, files }
    }
}

/// Builds the purge-everything request for a zone.
pub fn purge_all(zone_id: &str) -> (r: PurgeCache)
    ensures
        r.zone_identifier@ == zone_id@,
        r.params.purge_everything == Some(true),
        r.params.files is None,
        purge_params_wf(r.params),
{
    PurgeCache {
        zone_identifier: String::from_str(zone_id),
        params: PurgeCacheParams { purge_everything: Some(true), files: None },
    }
}

/// Builds the purge-by-files request for a zone: at least one file and at
/// most thirty, else the request is rejected before any call is made.
pub fn purge_url(zone_id: &str, files: Vec<String>) -> (r: Result<PurgeCache, ValidationError>)
    ensures
        files@.len() == 0 ==> r == Result::<PurgeCache, ValidationError>::Err(
            ValidationError::InvalidPurgeMode,
        ),
        files@.len() > 30 ==> r == Result::<PurgeCache, ValidationError>::Err(
            ValidationError::TooManyFiles(files@.len() as usize),
        ),
        1 <= files@.len() <= 30 ==> (r matches Ok(p) && p.zone_identifier@ == zone_id@
            && p.params.purge_everything is None && (p.params.files matches Some(g) && g == files)
            && purge_params_wf(p.params)),
{
    if files.len() == 0 {
        return Err(ValidationError::InvalidPurgeMode);
    }
    if files.len() > 30 {
        return Err(ValidationError::TooManyFiles(files.len()));
    }
    Ok(
        PurgeCache {
            zone_identifier: String::from_str(zone_id),
            params: PurgeCacheParams { purge_everything: None, files: Some(files) },
        },
    )
}

/// The purge coordinator: the two modes are mutually exclusive, so an
/// "everything" purge that also carries files is rejected, and a file
/// purge is bounded — every request it returns is well formed, before any
/// network call.
pub fn purge(zone_id: &str, all: bool, files: Vec<String>) -> (r: Result<
    PurgeCache,
    ValidationError,
>)
    ensures
        all && files@.len() > 0 ==> r == Result::<PurgeCache, ValidationError>::Err(
            ValidationError::InvalidPurgeMode,
        ),
        all && files@.len() == 0 ==> (r matches Ok(p) && p.zone_identifier@ == zone_id@
            && p.params.purge_everything == Some(true) && p.params.files is None),
        !all && files@.len() == 0 ==> r == Result::<PurgeCache, ValidationError>::Err(
            ValidationError::InvalidPurgeMode,
        ),
        !all && files@.len() > 30 ==> r == Result::<PurgeCache, ValidationError>::Err(
            ValidationError::TooManyFiles(files@.len() as usize),
        ),
        !all && 1 <= files@.len() <= 30 ==> (r matches Ok(p) && p.zone_identifier@ == zone_id@
            && p.params.purge_everything is None && (p.params.files matches Some(g) && g
            == files)),
        r matches Ok(p) ==> purge_params_wf(p.params),
{
    if all {
        if files.len() > 0 {
            return Err(ValidationError::InvalidPurgeMode);
        }
        Ok(purge_all(zone_id))
    } else {
        purge_url(zone_id, files)
    }
}

/// The report printed for the outcome of a purge call; a success carries
/// the warning that edge eviction takes a moment to propagate.
pub open spec fn spec_purge_report(o: Result<(), ApiError>) -> Seq<char> {
    match o {
        Result::Ok(_) => "Successfully purged assets. Please allow up to 30 seconds for changes to take effect."@,
        Result::Err(e) => spec_format_error(e),
    }
}

pub fn purge_report(outcome: &Result<(), ApiError>) -> (r: String)
    ensures
        r@ == spec_purge_report(*outcome),
{
    match outcome {
        Ok(_) => String::from_str(
            "Successfully purged assets. Please allow up to 30 seconds for changes to take effect.",
        ),
        Err(e) => format_error(e),
    }
}

} // verus!
