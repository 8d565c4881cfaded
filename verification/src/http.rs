use vstd::prelude::*;
use vstd::string::*;
use crate::strutil::{dec_rep, u64_dec};

verus! {

/// HTTP method of an API endpoint.
#[derive(Clone, Copy, Debug, PartialEq, Eq, Structural)]
pub enum Method {
    Get,
    Post,
    Put,
    Delete,
    Patch,
}

/// One error entry of a rejected API request.
#[derive(Clone, Debug, PartialEq, Eq)]
pub struct ApiErrorInfo {
    pub code: u16,
    pub message: String,
}

/// A failed remote call: either the service rejected the request with a
/// status code and a list of error entries, or the request itself could
/// not be made and only a transport message is known.
#[derive(Clone, Debug, PartialEq, Eq)]
pub enum ApiError {
    Error { status: u16, errors: Vec<ApiErrorInfo> },
    Invalid { message: String },
}

/// ASCII whitespace; trailing characters of this class are trimmed from
/// formatted error text.
pub open spec fn spec_is_space(c: char) -> bool {
    c == ' ' || c == '\t' || c == '\n' || c == '\r'
}

/// `t` without its trailing whitespace.
pub open spec fn trim_end(t: Seq<char>) -> Seq<char>
    decreases t.len(),
{
    if t.len() > 0 && spec_is_space(t.last()) {
        trim_end(t.drop_last())
    } else {
        t
    }
}

/// The line reported for one error entry.
pub open spec fn error_line(e: ApiErrorInfo) -> Seq<char> {
    "Code "@ + dec_rep(e.code as nat) + ": "@ + e.message@ + "\n"@
}

/// The lines reported for a list of error entries, in order.
pub open spec fn error_lines(errs: Seq<ApiErrorInfo>) -> Seq<char>
    decreases errs.len(),
{
    if errs.len() == 0 {
        Seq::empty()
    } else {
        error_lines(errs.drop_last()) + error_line(errs.last())
    }
}

/// What `format_error` renders: one line per error entry without the
/// trailing newline, or the transport message.
pub open spec fn spec_format_error(e: ApiError) -> Seq<char> {
    match e {
        ApiError::Error { status, errors } => trim_end(error_lines(errors@)),
        ApiError::Invalid { message } => "Error: "@ + message@,
    }
}

fn is_space(c: char) -> (r: bool)
    ensures
        r == spec_is_space(c),
{
    c == ' ' || c == '\t' || c == '\n' || c == '\r'
}

/// Formats a failed API call for printing, one line per error entry.
pub fn format_error(e: &ApiError) -> (r: String)
    ensures
        r@ == spec_format_error(*e),
{
    match e {
        ApiError::Error { status: _, errors } => {
            let mut s = String::new();
            let n = errors.len();
            let mut idx: usize = 0;
            proof {
                assert(errors@.subrange(0, 0) =~= Seq::<ApiErrorInfo>::empty());
            }
            while idx < n
                invariant
                    n == errors@.len(),
                    idx <= n,
                    s@ == error_lines(errors@.subrange(0, idx as int)),
                decreases n - idx,
            {
                let entry = &errors[idx];
                s.append("Code ");
                let num = u64_dec(entry.code as u64);
                s.append(num.as_str());
                s.append(": ");
                s.append(entry.message.as_str());
                s.append("\n");
                idx = idx + 1;
                proof {
                    let pre = errors@.subrange(0, idx - 1);
                    let cur = errors@.subrange(0, idx as int);
                    assert(cur.drop_last() =~= pre);
                    assert(cur.last() == errors@[idx - 1]);
                    assert(s@ =~= error_lines(cur));
                }
            }
            proof {
                assert(errors@.subrange(0, errors@.len() as int) =~= errors@);
            }
            let len = s.as_str().unicode_len();
            proof {
                assert(s@.subrange(0, s@.len() as int) =~= s@);
            }
            let mut end = len;
            while end > 0 && is_space(s.as_str().get_char(end - 1))
                invariant
                    len == s@.len(),
                    end <= len,
                    trim_end(s@) == trim_end(s@.subrange(0, end as int)),
                decreases end,
            {
                proof {
                    let cur = s@.subrange(0, end as int);
                    assert(cur.drop_last() =~= s@.subrange(0, end - 1));
                    assert(cur.last() == s@[end - 1]);
                }
                end = end - 1;
            }
            proof {
                let cur = s@.subrange(0, end as int);
                if end > 0 {
                    assert(cur.last() == s@[end - 1]);
                }
                assert(trim_end(cur) == cur);
            }
            let r = String::from_str(s.as_str().substring_char(0, end));
            proof {
                assert(s@.subrange(0, s@.len() as int) =~= s@);
            }
            r
        },
        ApiError::Invalid { message } => {
            let mut s = String::from_str("Error: ");
            s.append(message.as_str());
            s
        },
    }
}

} // verus!
