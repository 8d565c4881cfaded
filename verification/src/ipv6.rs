use vstd::prelude::*;
use vstd::string::*;
use crate::strutil::{
    all_hex_digits, is_hex_digit, rsplit, lemma_rsplit_len, lemma_rsplit_push,
    lemma_all_hex_digits_push, lemma_rsplit_len_monotone,
};
use crate::ipv4::{is_valid_ipv4, ipv4_range_ok};

verus! {

/// One 16-bit group of an IPv6 literal: one to four hexadecimal digits.
pub open spec fn is_hex_group(t: Seq<char>) -> bool {
    1 <= t.len() <= 4 && all_hex_digits(t)
}

/// The number of 16-bit groups that `t` denotes when read as a non-empty,
/// colon-separated list of hexadecimal groups, where the final list entry
/// may instead be a dotted-quad IPv4 literal (worth two groups) if
/// `allow_v4` holds; `None` when `t` is no such list.
pub open spec fn group_list_groups(t: Seq<char>, allow_v4: bool) -> Option<int> {
    let parts = rsplit(t, ':');
    if allow_v4 && is_valid_ipv4(parts.last()) && (forall|k: int|
        0 <= k < parts.len() - 1 ==> is_hex_group(#[trigger] parts[k]))
    {
        Option::Some(parts.len() - 1 + 2)
    } else if forall|k: int| 0 <= k < parts.len() ==> is_hex_group(#[trigger] parts[k]) {
        Option::Some(parts.len() as int)
    } else {
        Option::None
    }
}

/// Index of the first `"::"` in `t` at or after position `k`, or -1.
pub open spec fn find_dc_from(t: Seq<char>, k: int) -> int
    decreases t.len() - k,
{
    if k + 1 >= t.len() {
        -1
    } else if t[k] == ':' && t[k + 1] == ':' {
        k
    } else {
        find_dc_from(t, k + 1)
    }
}

/// An IPv6 literal: eight groups, or fewer groups around one `"::"` that
/// stands for the elided zero groups (at least one, so at most seven
/// groups remain), the trailing groups optionally given as an embedded
/// IPv4 literal. The compression splits the text at the first `"::"`;
/// a well-formed literal has no second one, since no group may be empty.
pub open spec fn is_valid_ipv6(t: Seq<char>) -> bool {
    let dc = find_dc_from(t, 0);
    if dc == -1 {
        group_list_groups(t, true) == Option::<int>::Some(8)
    } else {
        let left = t.subrange(0, dc);
        let right = t.subrange(dc + 2, t.len() as int);
        let lg: int = if left.len() == 0 {
            0
        } else {
            match group_list_groups(left, false) {
                Option::Some(n) => n,
                Option::None => -1,
            }
        };
        let rg: int = if right.len() == 0 {
            0
        } else {
            match group_list_groups(right, true) {
                Option::Some(n) => n,
                Option::None => -1,
            }
        };
        lg >= 0 && rg >= 0 && lg + rg <= 7
    }
}

/// Counts the groups of the colon-separated list in `s` between `from`
/// and `to`, as `group_list_groups` reads it; lists of more than eight
/// groups are reported as `None`, as no caller accepts them.
#[verifier::rlimit(60)]
fn group_list_count(s: &str, from: usize, to: usize, allow_v4: bool) -> (r: Option<usize>)
    requires
        from <= to <= s@.len(),
    ensures
        r is Some <==> (group_list_groups(s@.subrange(from as int, to as int), allow_v4) matches
            Option::Some(n) && n <= 8),
        r matches Some(g) ==> group_list_groups(s@.subrange(from as int, to as int), allow_v4)
            == Option::<int>::Some(g as int),
{
    let ghost t = s@.subrange(from as int, to as int);
    let mut count: usize = 0;
    let mut ok: bool = true;
    let mut seg_start: usize = from;
    let mut seg_all_hex: bool = true;
    let mut i: usize = from;
    proof {
        assert(t.subrange(0, 0) =~= Seq::<char>::empty());
    }
    while i < to
        invariant
            from <= seg_start <= i <= to <= s@.len(),
            t == s@.subrange(from as int, to as int),
            count <= 8,
            rsplit(t.subrange(0, i - from), ':').len() == count + 1,
            ok == (forall|k: int|
                0 <= k < count ==> is_hex_group(#[trigger] rsplit(t.subrange(0, i - from), ':')[k])),
            rsplit(t.subrange(0, i - from), ':').last() == t.subrange(
                seg_start - from,
                i - from,
            ),
            seg_all_hex == all_hex_digits(rsplit(t.subrange(0, i - from), ':').last()),
        decreases to - i,
    {
        let ghost p = t.subrange(0, i - from);
        let ghost parts = rsplit(p, ':');
        let c = s.get_char(i);
        proof {
            assert(t[i - from] == c);
            assert(t.subrange(0, i + 1 - from) =~= p.push(c));
            lemma_rsplit_push(p, ':', c);
            lemma_rsplit_len(p, ':');
        }
        if c == ':' {
            if count == 8 {
                proof {
                    lemma_rsplit_len_monotone(t, ':', i + 1 - from, t.len() as int);
                    assert(t.subrange(0, t.len() as int) =~= t);
                    assert(rsplit(t, ':').len() >= 10);
                }
                return None;
            }
            let seg_len = i - seg_start;
            let ghex = seg_len >= 1 && seg_len <= 4 && seg_all_hex;
            proof {
                assert(parts.last().len() == seg_len);
                assert(ghex == is_hex_group(parts.last()));
                assert(rsplit(p.push(c), ':') == parts.push(Seq::<char>::empty()));
            }
            ok = ok && ghex;
            count = count + 1;
            seg_start = i + 1;
            seg_all_hex = true;
            proof {
                let nparts = rsplit(t.subrange(0, i + 1 - from), ':');
                assert(nparts[count - 1] == parts.last());
                assert forall|k: int| 0 <= k < count - 1 implies nparts[k] == parts[k] by {}
                assert(ok == (forall|k: int|
                    0 <= k < count ==> is_hex_group(#[trigger] nparts[k])));
                assert(nparts.last() =~= t.subrange(seg_start - from, i + 1 - from));
            }
        } else {
            proof {
                let cur = parts.last();
                let ncur = cur.push(c);
                let nparts = rsplit(t.subrange(0, i + 1 - from), ':');
                assert(nparts == parts.update(parts.len() - 1, ncur));
                assert(nparts.last() == ncur);
                assert forall|k: int| 0 <= k < count implies nparts[k] == parts[k] by {}
                lemma_all_hex_digits_push(cur, c);
                assert(ncur =~= t.subrange(seg_start - from, i + 1 - from));
            }
            seg_all_hex = seg_all_hex && is_hex_digit(c);
        }
        i = i + 1;
    }
    proof {
        assert(t.subrange(0, to - from) =~= t);
    }
    let ghost parts = rsplit(t, ':');
    let seg_len = to - seg_start;
    if allow_v4 {
        let last_v4 = ipv4_range_ok(s, seg_start, to);
        proof {
            assert(parts.last() == t.subrange(seg_start - from, to - from));
            assert(s@.subrange(seg_start as int, to as int) =~= t.subrange(
                seg_start - from,
                to - from,
            ));
        }
        if last_v4 && ok {
            proof {
                assert(parts.len() - 1 + 2 == count + 2);
            }
            if count + 2 <= 8 {
                return Some(count + 2);
            } else {
                return None;
            }
        }
    }
    let last_hex = seg_len >= 1 && seg_len <= 4 && seg_all_hex;
    proof {
        assert(parts.last().len() == seg_len);
        assert(last_hex == is_hex_group(parts.last()));
        if ok && last_hex {
            assert forall|k: int| 0 <= k < parts.len() implies is_hex_group(
                #[trigger] parts[k],
            ) by {
                if k == parts.len() - 1 {
                    assert(parts[k] == parts.last());
                }
            }
        }
    }
    if ok && last_hex {
        proof {
            assert(group_list_groups(t, allow_v4) == Option::<int>::Some(count + 1));
        }
        if count + 1 <= 8 {
            Some(count + 1)
        } else {
            None
        }
    } else {
        None
    }
}

/// Finds the first `"::"` in `s`.
fn find_double_colon(s: &str, len: usize) -> (r: Option<usize>)
    requires
        len == s@.len(),
    ensures
        r is None <==> find_dc_from(s@, 0) == -1,
        r matches Some(i) ==> i as int == find_dc_from(s@, 0) && i + 2 <= len && s@[i as int]
            == ':' && s@[i + 1] == ':',
{
    let mut k: usize = 0;
    while len - k > 1
        invariant
            len == s@.len(),
            k <= len,
            find_dc_from(s@, 0) == find_dc_from(s@, k as int),
        decreases len - k,
    {
        if s.get_char(k) == ':' && s.get_char(k + 1) == ':' {
            return Some(k);
        }
        k = k + 1;
    }
    proof {
        assert(find_dc_from(s@, k as int) == -1);
    }
    None
}

/// Decides whether `s` is an IPv6 literal.
pub fn is_ipv6_literal(s: &str) -> (r: bool)
    ensures
        r == is_valid_ipv6(s@),
{
    let len = s.unicode_len();
    match find_double_colon(s, len) {
        None => {
            let g = group_list_count(s, 0, len, true);
            proof {
                assert(s@.subrange(0, len as int) =~= s@);
            }
            match g {
                Some(n) => n == 8,
                None => false,
            }
        },
        Some(i) => {
            proof {
                assert(s@.subrange(0, len as int) =~= s@);
            }
            let lg: usize = if i == 0 {
                0
            } else {
                match group_list_count(s, 0, i, false) {
                    Some(n) => n,
                    None => {
                        return false;
                    },
                }
            };
            let rg: usize = if i + 2 == len {
                0
            } else {
                match group_list_count(s, i + 2, len, true) {
                    Some(n) => n,
                    None => {
                        return false;
                    },
                }
            };
            lg + rg <= 7
        },
    }
}

} // verus!
