use vstd::prelude::*;
use vstd::string::*;
use crate::strutil::{
    spec_is_digit, is_digit, all_digits, dec_val, rsplit, lemma_rsplit_len, lemma_rsplit_push,
    lemma_dec_val_push, lemma_all_digits_push, lemma_dec_val_two_digits,
};

verus! {

/// One octet of a dotted quad: one to three digits, no leading zero
/// (except for "0" itself), value at most 255.
pub open spec fn is_valid_octet(t: Seq<char>) -> bool {
    1 <= t.len() <= 3 && all_digits(t) && (t.len() == 1 || t[0] != '0') && dec_val(t) <= 255
}

/// A dotted-quad IPv4 literal: four valid octets separated by single dots.
pub open spec fn is_valid_ipv4(t: Seq<char>) -> bool {
    let parts = rsplit(t, '.');
    parts.len() == 4 && (forall|k: int| 0 <= k < 4 ==> is_valid_octet(#[trigger] parts[k]))
}

/// Every character of `t` other than the separator appears inside one of
/// the segments of `rsplit(t, c)`.
proof fn lemma_rsplit_char_in_part(t: Seq<char>, c: char, i: int)
    requires
        0 <= i < t.len(),
        t[i] != c,
    ensures
        exists|k: int, m: int|
            0 <= k < rsplit(t, c).len() && 0 <= m < rsplit(t, c)[k].len() && rsplit(t, c)[k][m]
                == t[i],
    decreases t.len(),
{
    let r0 = rsplit(t.drop_last(), c);
    let r = rsplit(t, c);
    lemma_rsplit_len(t.drop_last(), c);
    if i == t.len() - 1 {
        let k = r.len() - 1;
        assert(r[k] == r0.last().push(t.last()));
        assert(r[k][r[k].len() - 1] == t[i]);
    } else {
        lemma_rsplit_char_in_part(t.drop_last(), c, i);
        let (k, m) = choose|k: int, m: int|
            0 <= k < r0.len() && 0 <= m < r0[k].len() && r0[k][m] == t.drop_last()[i];
        if t.last() == c {
            assert(r[k] == r0[k]);
            assert(r[k][m] == t[i]);
        } else {
            if k < r0.len() - 1 {
                assert(r[k] == r0[k]);
                assert(r[k][m] == t[i]);
            } else {
                assert(r[k] == r0[k].push(t.last()));
                assert(r[k][m] == t[i]);
            }
        }
    }
}

/// A string holding a character that is neither a digit nor a dot is no
/// IPv4 literal.
pub proof fn lemma_ipv4_needs_digits_and_dots(t: Seq<char>, i: int)
    requires
        0 <= i < t.len(),
        !spec_is_digit(t[i]),
        t[i] != '.',
    ensures
        !is_valid_ipv4(t),
{
    if is_valid_ipv4(t) {
        lemma_rsplit_char_in_part(t, '.', i);
        let parts = rsplit(t, '.');
        let (k, m) = choose|k: int, m: int|
            0 <= k < parts.len() && 0 <= m < parts[k].len() && parts[k][m] == t[i];
        assert(is_valid_octet(parts[k]));
        assert(spec_is_digit(parts[k][m]));
    }
}

/// Decides whether the characters of `s` from `from` (inclusive) to `to`
/// (exclusive) form a dotted-quad IPv4 literal.
#[verifier::rlimit(60)]
pub fn ipv4_range_ok(s: &str, from: usize, to: usize) -> (r: bool)
    requires
        from <= to <= s@.len(),
    ensures
        r == is_valid_ipv4(s@.subrange(from as int, to as int)),
{
    let ghost t = s@.subrange(from as int, to as int);
    let mut count: usize = 0;
    let mut ok: bool = true;
    let mut seg_len: usize = 0;
    let mut seg_all_digits: bool = true;
    let mut seg_first: char = '0';
    let mut seg_val: u32 = 0;
    let mut i: usize = from;
    proof {
        assert(t.subrange(0, 0) =~= Seq::<char>::empty());
    }
    while i < to
        invariant
            from <= i <= to <= s@.len(),
            t == s@.subrange(from as int, to as int),
            count <= i - from,
            seg_len <= i - from,
            rsplit(t.subrange(0, i - from), '.').len() == count + 1,
            ok == (forall|k: int|
                0 <= k < count ==> is_valid_octet(#[trigger] rsplit(t.subrange(0, i - from), '.')[k])),
            seg_len == rsplit(t.subrange(0, i - from), '.').last().len(),
            seg_all_digits == all_digits(rsplit(t.subrange(0, i - from), '.').last()),
            seg_len > 0 ==> seg_first == rsplit(t.subrange(0, i - from), '.').last()[0],
            seg_all_digits && seg_len <= 3 ==> seg_val == dec_val(
                rsplit(t.subrange(0, i - from), '.').last(),
            ),
        decreases to - i,
    {
        let ghost p = t.subrange(0, i - from);
        let ghost parts = rsplit(p, '.');
        let c = s.get_char(i);
        proof {
            assert(t[i - from] == c);
            assert(t.subrange(0, i + 1 - from) =~= p.push(c));
            lemma_rsplit_push(p, '.', c);
            lemma_rsplit_len(p, '.');
        }
        if c == '.' {
            let seg_ok = seg_len >= 1 && seg_len <= 3 && seg_all_digits && (seg_len == 1
                || seg_first != '0') && seg_val <= 255;
            proof {
                assert(seg_ok == is_valid_octet(parts.last()));
                assert(rsplit(p.push(c), '.') == parts.push(Seq::<char>::empty()));
                assert(parts.push(Seq::<char>::empty()).last() =~= Seq::<char>::empty());
            }
            ok = ok && seg_ok;
            count = count + 1;
            seg_len = 0;
            seg_all_digits = true;
            seg_val = 0;
            proof {
                let nparts = rsplit(t.subrange(0, i + 1 - from), '.');
                assert(nparts == parts.push(Seq::<char>::empty()));
                assert(nparts.len() == count + 1);
                assert(nparts[count - 1] == parts.last());
                assert forall|k: int| 0 <= k < count - 1 implies nparts[k] == parts[k] by {}
                assert(ok == (forall|k: int|
                    0 <= k < count ==> is_valid_octet(#[trigger] nparts[k])));
            }
        } else {
            if seg_len == 0 {
                seg_first = c;
            }
            let digit = is_digit(c);
            if digit && seg_all_digits && seg_len < 3 {
                proof {
                    lemma_dec_val_two_digits(parts.last());
                    assert(c as u32 >= '0' as u32 && c as u32 <= '9' as u32);
                }
                seg_val = seg_val * 10 + (c as u32 - '0' as u32);
            }
            proof {
                let cur = parts.last();
                let ncur = cur.push(c);
                let nparts = rsplit(t.subrange(0, i + 1 - from), '.');
                assert(nparts == parts.update(parts.len() - 1, ncur));
                assert(nparts.last() == ncur);
                assert(nparts.len() == parts.len());
                assert forall|k: int| 0 <= k < count implies nparts[k] == parts[k] by {}
                lemma_all_digits_push(cur, c);
                lemma_dec_val_push(cur, c);
                if seg_len > 0 {
                    assert(ncur[0] == cur[0]);
                }
            }
            seg_all_digits = seg_all_digits && digit;
            seg_len = seg_len + 1;
        }
        i = i + 1;
    }
    proof {
        assert(t.subrange(0, to - from) =~= t);
    }
    let seg_ok = seg_len >= 1 && seg_len <= 3 && seg_all_digits && (seg_len == 1 || seg_first
        != '0') && seg_val <= 255;
    proof {
        let parts = rsplit(t, '.');
        assert(seg_ok == is_valid_octet(parts.last()));
        if count == 3 && ok && seg_ok {
            assert forall|k: int| 0 <= k < 4 implies is_valid_octet(#[trigger] parts[k]) by {
                if k == 3 {
                    assert(parts[3] == parts.last());
                }
            }
        }
        if is_valid_ipv4(t) {
            assert(count == 3);
            assert(parts[3] == parts.last());
            assert(is_valid_octet(parts.last()));
        }
    }
    ok && count == 3 && seg_ok
}

/// Decides whether `s` is a dotted-quad IPv4 literal.
pub fn is_ipv4_literal(s: &str) -> (r: bool)
    ensures
        r == is_valid_ipv4(s@),
{
    let len = s.unicode_len();
    let r = ipv4_range_ok(s, 0, len);
    proof {
        assert(s@.subrange(0, s@.len() as int) =~= s@);
    }
    r
}

} // verus!
