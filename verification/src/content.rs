use vstd::prelude::*;
use vstd::string::*;
use crate::errors::ValidationError;
use crate::ipv4::{is_valid_ipv4, is_ipv4_literal, lemma_ipv4_needs_digits_and_dots};
use crate::ipv6::{is_valid_ipv6, is_ipv6_literal};
use crate::strutil::{spec_is_digit, str_eq};

verus! {

/// Typed content of a DNS record: the tag and its payload. Address
/// payloads are carried as their validated literals.
#[derive(Clone, Debug, PartialEq, Eq)]
pub enum DnsContent {
    A { content: String },
    AAAA { content: String },
    CNAME { content: String },
    MX { content: String, priority: u16 },
    NS { content: String },
    TXT { content: String },
    SRV { content: String },
}

/// Ghost image of `DnsContent`, over character sequences.
pub enum ContentV {
    A(Seq<char>),
    AAAA(Seq<char>),
    CNAME(Seq<char>),
    MX(Seq<char>, u16),
    NS(Seq<char>),
    TXT(Seq<char>),
    SRV(Seq<char>),
}

impl View for DnsContent {
    type V = ContentV;

    open spec fn view(&self) -> ContentV {
        match self {
            DnsContent::A { content } => ContentV::A(content@),
            DnsContent::AAAA { content } => ContentV::AAAA(content@),
            DnsContent::CNAME { content } => ContentV::CNAME(content@),
            DnsContent::MX { content, priority } => ContentV::MX(content@, *priority),
            DnsContent::NS { content } => ContentV::NS(content@),
            DnsContent::TXT { content } => ContentV::TXT(content@),
            DnsContent::SRV { content } => ContentV::SRV(content@),
        }
    }
}

/// Tag and payload are consistent: an address record holds a parseable
/// address literal.
pub open spec fn content_wf(v: ContentV) -> bool {
    match v {
        ContentV::A(s) => is_valid_ipv4(s),
        ContentV::AAAA(s) => is_valid_ipv6(s),
        _ => true,
    }
}

/// The type tag under which a record's content is shown and updated.
pub open spec fn content_tag(v: ContentV) -> Seq<char> {
    match v {
        ContentV::A(_) => "A"@,
        ContentV::AAAA(_) => "AAAA"@,
        ContentV::CNAME(_) => "CNAME"@,
        ContentV::MX(_, _) => "MX"@,
        ContentV::NS(_) => "NS"@,
        ContentV::TXT(_) => "TXT"@,
        ContentV::SRV(_) => "SRV"@,
    }
}

/// The payload text of a record's content.
pub open spec fn content_text(v: ContentV) -> Seq<char> {
    match v {
        ContentV::A(s) => s,
        ContentV::AAAA(s) => s,
        ContentV::CNAME(s) => s,
        ContentV::MX(s, _) => s,
        ContentV::NS(s) => s,
        ContentV::TXT(s) => s,
        ContentV::SRV(s) => s,
    }
}

impl DnsContent {
    pub fn tag_str(&self) -> (r: &'static str)
        ensures
            r@ == content_tag(self@),
    {
        match self {
            DnsContent::A { .. } => "A",
            DnsContent::AAAA { .. } => "AAAA",
            DnsContent::CNAME { .. } => "CNAME",
            DnsContent::MX { .. } => "MX",
            DnsContent::NS { .. } => "NS",
            DnsContent::TXT { .. } => "TXT",
            DnsContent::SRV { .. } => "SRV",
        }
    }

    /// A copy of this content, with its view known to be the same.
    pub fn duplicate(&self) -> (r: DnsContent)
        ensures
            r@ == self@,
    {
        match self {
            DnsContent::A { content } => DnsContent::A { content: content.clone() },
            DnsContent::AAAA { content } => DnsContent::AAAA { content: content.clone() },
            DnsContent::CNAME { content } => DnsContent::CNAME { content: content.clone() },
            DnsContent::MX { content, priority } => DnsContent::MX {
                content: content.clone(),
                priority: *priority,
            },
            DnsContent::NS { content } => DnsContent::NS { content: content.clone() },
            DnsContent::TXT { content } => DnsContent::TXT { content: content.clone() },
            DnsContent::SRV { content } => DnsContent::SRV { content: content.clone() },
        }
    }

    pub fn text(&self) -> (r: String)
        ensures
            r@ == content_text(self@),
    {
        match self {
            DnsContent::A { content } => content.clone(),
            DnsContent::AAAA { content } => content.clone(),
            DnsContent::CNAME { content } => content.clone(),
            DnsContent::MX { content, .. } => content.clone(),
            DnsContent::NS { content } => content.clone(),
            DnsContent::TXT { content } => content.clone(),
            DnsContent::SRV { content } => content.clone(),
        }
    }
}

/// What resolving raw content under a record type yields: address types
/// are validated, `CNAME`, `MX` and `TXT` are taken verbatim, and `NS` is
/// accepted but tagged as `CNAME` on the wire — a preserved quirk of the
/// create path, not a correction.
pub open spec fn spec_resolve_content(rt: Seq<char>, content: Seq<char>, priority: u16) -> Result<
    ContentV,
    ValidationError,
> {
    if rt == "A"@ {
        if is_valid_ipv4(content) {
            Result::Ok(ContentV::A(content))
        } else {
            Result::Err(ValidationError::InvalidIpv4)
        }
    } else if rt == "AAAA"@ {
        if is_valid_ipv6(content) {
            Result::Ok(ContentV::AAAA(content))
        } else {
            Result::Err(ValidationError::InvalidIpv6)
        }
    } else if rt == "CNAME"@ {
        Result::Ok(ContentV::CNAME(content))
    } else if rt == "MX"@ {
        Result::Ok(ContentV::MX(content, priority))
    } else if rt == "TXT"@ {
        Result::Ok(ContentV::TXT(content))
    } else if rt == "NS"@ {
        Result::Ok(ContentV::CNAME(content))
    } else {
        Result::Err(ValidationError::UnsupportedRecordType)
    }
}

/// Turns a record-type tag and raw content into typed, validated record
/// content; `priority` is carried through for `MX` and ignored otherwise.
pub fn resolve_content(record_type: &str, content: &str, priority: u16) -> (r: Result<
    DnsContent,
    ValidationError,
>)
    ensures
        spec_resolve_content(record_type@, content@, priority) matches Ok(v) ==> (r matches Ok(c)
            && c@ == v),
        spec_resolve_content(record_type@, content@, priority) matches Err(e) ==> r == Result::<
            DnsContent,
            ValidationError,
        >::Err(e),
{
    if str_eq(record_type, "A") {
        if is_ipv4_literal(content) {
            Ok(DnsContent::A { content: String::from_str(content) })
        } else {
            Err(ValidationError::InvalidIpv4)
        }
    } else if str_eq(record_type, "AAAA") {
        if is_ipv6_literal(content) {
            Ok(DnsContent::AAAA { content: String::from_str(content) })
        } else {
            Err(ValidationError::InvalidIpv6)
        }
    } else if str_eq(record_type, "CNAME") {
        Ok(DnsContent::CNAME { content: String::from_str(content) })
    } else if str_eq(record_type, "MX") {
        Ok(DnsContent::MX { content: String::from_str(content), priority })
    } else if str_eq(record_type, "TXT") {
        Ok(DnsContent::TXT { content: String::from_str(content) })
    } else if str_eq(record_type, "NS") {
        Ok(DnsContent::CNAME { content: String::from_str(content) })
    } else {
        Err(ValidationError::UnsupportedRecordType)
    }
}

/// Law: every valid dotted-quad literal resolves as an `A` record, and the
/// literal itself is carried through unchanged.
pub proof fn lemma_valid_ipv4_resolves(s: Seq<char>, priority: u16)
    requires
        is_valid_ipv4(s),
    ensures
        spec_resolve_content("A"@, s, priority) == Result::<ContentV, ValidationError>::Ok(
            ContentV::A(s),
        ),
{
}

/// Law: content holding any character other than digits and dots never
/// resolves as an `A` record; it is rejected as an invalid IPv4 literal.
pub proof fn lemma_foreign_char_rejected_as_ipv4(s: Seq<char>, priority: u16, i: int)
    requires
        0 <= i < s.len(),
        !spec_is_digit(s[i]),
        s[i] != '.',
    ensures
        spec_resolve_content("A"@, s, priority) == Result::<ContentV, ValidationError>::Err(
            ValidationError::InvalidIpv4,
        ),
{
    lemma_ipv4_needs_digits_and_dots(s, i);
}

/// Law: an `NS` record type resolves exactly as `CNAME` does, on any
/// content — the preserved aliasing quirk.
pub proof fn lemma_ns_resolves_as_cname(s: Seq<char>, priority: u16)
    ensures
        spec_resolve_content("NS"@, s, priority) == spec_resolve_content("CNAME"@, s, priority),
{
    reveal_strlit("A");
    reveal_strlit("AAAA");
    reveal_strlit("CNAME");
    reveal_strlit("MX");
    reveal_strlit("TXT");
    reveal_strlit("NS");
    assert("A"@.len() == 1);
    assert("AAAA"@.len() == 4);
    assert("CNAME"@.len() == 5);
    assert("MX"@.len() == 2);
    assert("TXT"@.len() == 3);
    assert("NS"@.len() == 2);
    assert("NS"@ != "MX"@) by {
        if "NS"@ == "MX"@ {
            assert("NS"@[0] == "MX"@[0]);
        }
    }
}

/// Law: whatever resolves is well formed — the tag and payload of resolved
/// content are always consistent.
pub proof fn lemma_resolved_content_wf(rt: Seq<char>, s: Seq<char>, priority: u16)
    ensures
        spec_resolve_content(rt, s, priority) matches Ok(v) ==> content_wf(v),
{
}

} // verus!
