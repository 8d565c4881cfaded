use vstd::prelude::*;
use vstd::string::*;

verus! {

// --- Character classes -------------------------------------------------

/// A decimal digit, `'0'` through `'9'`.
pub open spec fn spec_is_digit(c: char) -> bool {
    '0' <= c && c <= '9'
}

pub fn is_digit(c: char) -> (r: bool)
    ensures
        r == spec_is_digit(c),
{
    ('0' as u32) <= (c as u32) && (c as u32) <= ('9' as u32)
}

/// A hexadecimal digit, in either case.
pub open spec fn spec_is_hex_digit(c: char) -> bool {
    spec_is_digit(c) || ('a' <= c && c <= 'f') || ('A' <= c && c <= 'F')
}

pub fn is_hex_digit(c: char) -> (r: bool)
    ensures
        r == spec_is_hex_digit(c),
{
    is_digit(c) || (('a' as u32) <= (c as u32) && (c as u32) <= ('f' as u32)) || (('A' as u32)
        <= (c as u32) && (c as u32) <= ('F' as u32))
}

pub open spec fn all_digits(t: Seq<char>) -> bool {
    forall|i: int| 0 <= i < t.len() ==> spec_is_digit(#[trigger] t[i])
}

pub open spec fn all_hex_digits(t: Seq<char>) -> bool {
    forall|i: int| 0 <= i < t.len() ==> spec_is_hex_digit(#[trigger] t[i])
}

// --- Decimal values ----------------------------------------------------

/// Numeric value of one digit character.
pub open spec fn digit_val(c: char) -> nat {
    (c as int - '0' as int) as nat
}

/// Value of a digit string read in base ten, most significant digit first.
pub open spec fn dec_val(t: Seq<char>) -> nat
    decreases t.len(),
{
    if t.len() == 0 {
        0
    } else {
        dec_val(t.drop_last()) * 10 + digit_val(t.last())
    }
}

/// Extending a digit string on the right multiplies its value by ten.
pub proof fn lemma_dec_val_push(t: Seq<char>, c: char)
    ensures
        dec_val(t.push(c)) == dec_val(t) * 10 + digit_val(c),
{
    assert(t.push(c).drop_last() =~= t);
    assert(t.push(c).last() == c);
}

/// The value of a digit string never shrinks as the string grows.
pub proof fn lemma_dec_val_prefix_le(t: Seq<char>, i: int, j: int)
    requires
        0 <= i <= j <= t.len(),
    ensures
        dec_val(t.subrange(0, i)) <= dec_val(t.subrange(0, j)),
    decreases j - i,
{
    if i < j {
        lemma_dec_val_prefix_le(t, i, j - 1);
        let p = t.subrange(0, j - 1);
        let q = t.subrange(0, j);
        assert(q.drop_last() =~= p);
        assert(dec_val(q) == dec_val(p) * 10 + digit_val(t[j - 1]));
        assert(dec_val(p) * 10 >= dec_val(p));
    }
}

pub proof fn lemma_all_digits_push(t: Seq<char>, c: char)
    ensures
        all_digits(t.push(c)) == (all_digits(t) && spec_is_digit(c)),
{
    let n = t.push(c);
    if all_digits(t) && spec_is_digit(c) {
        assert forall|k: int| 0 <= k < n.len() implies spec_is_digit(#[trigger] n[k]) by {
            if k < t.len() {
                assert(n[k] == t[k]);
            }
        }
    } else if !all_digits(t) {
        let k = choose|k: int| 0 <= k < t.len() && !spec_is_digit(#[trigger] t[k]);
        assert(n[k] == t[k]);
    } else {
        assert(n[n.len() - 1] == c);
    }
}

pub proof fn lemma_all_hex_digits_push(t: Seq<char>, c: char)
    ensures
        all_hex_digits(t.push(c)) == (all_hex_digits(t) && spec_is_hex_digit(c)),
{
    let n = t.push(c);
    if all_hex_digits(t) && spec_is_hex_digit(c) {
        assert forall|k: int| 0 <= k < n.len() implies spec_is_hex_digit(#[trigger] n[k]) by {
            if k < t.len() {
                assert(n[k] == t[k]);
            }
        }
    } else if !all_hex_digits(t) {
        let k = choose|k: int| 0 <= k < t.len() && !spec_is_hex_digit(#[trigger] t[k]);
        assert(n[k] == t[k]);
    } else {
        assert(n[n.len() - 1] == c);
    }
}

/// Dropping the last character of a digit string leaves a digit string.
pub proof fn lemma_all_digits_drop_last(t: Seq<char>)
    requires
        all_digits(t),
        t.len() > 0,
    ensures
        all_digits(t.drop_last()),
{
    let p = t.drop_last();
    assert forall|k: int| 0 <= k < p.len() implies spec_is_digit(#[trigger] p[k]) by {
        assert(p[k] == t[k]);
    }
}

/// A digit string of at most two digits has value at most 99.
pub proof fn lemma_dec_val_two_digits(t: Seq<char>)
    requires
        all_digits(t),
        t.len() <= 2,
    ensures
        t.len() <= 1 ==> dec_val(t) <= 9,
        dec_val(t) <= 99,
    decreases t.len(),
{
    if t.len() > 0 {
        lemma_all_digits_drop_last(t);
        lemma_dec_val_two_digits(t.drop_last());
        assert(digit_val(t.last()) <= 9);
    }
}

// --- Splitting on a separator ------------------------------------------

/// The segments of `t` between occurrences of the separator `c`, in order.
/// A string with no separator is one segment; each separator opens a new
/// (possibly empty) segment.
pub open spec fn rsplit(t: Seq<char>, c: char) -> Seq<Seq<char>>
    decreases t.len(),
{
    if t.len() == 0 {
        seq![Seq::empty()]
    } else if t.last() == c {
        rsplit(t.drop_last(), c).push(Seq::empty())
    } else {
        let r = rsplit(t.drop_last(), c);
        r.update(r.len() - 1, r.last().push(t.last()))
    }
}

pub proof fn lemma_rsplit_len(t: Seq<char>, c: char)
    ensures
        rsplit(t, c).len() >= 1,
    decreases t.len(),
{
    if t.len() > 0 {
        lemma_rsplit_len(t.drop_last(), c);
    }
}

/// How one more character changes the split: a separator opens a new empty
/// segment, any other character extends the last segment.
pub proof fn lemma_rsplit_push(t: Seq<char>, c: char, x: char)
    ensures
        x == c ==> rsplit(t.push(x), c) == rsplit(t, c).push(Seq::<char>::empty()),
        x != c ==> rsplit(t.push(x), c) == rsplit(t, c).update(
            rsplit(t, c).len() - 1,
            rsplit(t, c).last().push(x),
        ),
{
    lemma_rsplit_len(t, c);
    assert(t.push(x).drop_last() =~= t);
    assert(t.push(x).last() == x);
    assert(t.push(x).len() == t.len() + 1);
}

// --- Rendering integers in decimal -------------------------------------

/// The character for one digit value.
pub open spec fn digit_char(d: nat) -> char {
    if d == 0 {
        '0'
    } else if d == 1 {
        '1'
    } else if d == 2 {
        '2'
    } else if d == 3 {
        '3'
    } else if d == 4 {
        '4'
    } else if d == 5 {
        '5'
    } else if d == 6 {
        '6'
    } else if d == 7 {
        '7'
    } else if d == 8 {
        '8'
    } else {
        '9'
    }
}

/// The decimal rendering of `n`, without sign or leading zeros.
pub open spec fn dec_rep(n: nat) -> Seq<char>
    decreases n,
{
    if n < 10 {
        seq![digit_char(n)]
    } else {
        dec_rep(n / 10).push(digit_char(n % 10))
    }
}

fn digit_str(d: u64) -> (r: &'static str)
    requires
        d < 10,
    ensures
        r@ == seq![digit_char(d as nat)],
{
    proof {
        reveal_strlit("0");
        reveal_strlit("1");
        reveal_strlit("2");
        reveal_strlit("3");
        reveal_strlit("4");
        reveal_strlit("5");
        reveal_strlit("6");
        reveal_strlit("7");
        reveal_strlit("8");
        reveal_strlit("9");
    }
    let r = if d == 0 {
        "0"
    } else if d == 1 {
        "1"
    } else if d == 2 {
        "2"
    } else if d == 3 {
        "3"
    } else if d == 4 {
        "4"
    } else if d == 5 {
        "5"
    } else if d == 6 {
        "6"
    } else if d == 7 {
        "7"
    } else if d == 8 {
        "8"
    } else {
        "9"
    };
    proof {
        assert(r@ =~= seq![digit_char(d as nat)]);
    }
    r
}

/// Renders `n` in decimal.
pub fn u64_dec(n: u64) -> (r: String)
    ensures
        r@ == dec_rep(n as nat),
    decreases n,
{
    if n < 10 {
        let s = String::from_str(digit_str(n));
        proof {
            assert(s@ =~= dec_rep(n as nat));
        }
        s
    } else {
        proof {
            assert(n / 10 < n) by (nonlinear_arith)
                requires
                    n >= 10,
            ;
        }
        let mut s = u64_dec(n / 10);
        s.append(digit_str(n % 10));
        proof {
            assert(s@ =~= dec_rep(n as nat));
        }
        s
    }
}

// --- Parsing unsigned decimal integers ----------------------------------

/// The digits of a decimal literal: an optional leading `'+'` is not part
/// of the number itself.
pub open spec fn num_body(t: Seq<char>) -> Seq<char> {
    if t.len() > 0 && t[0] == '+' {
        t.subrange(1, t.len() as int)
    } else {
        t
    }
}

/// The value of `t` read as an unsigned decimal integer no greater than
/// `max`, if it is one.
pub open spec fn spec_parse_uint(t: Seq<char>, max: nat) -> Option<nat> {
    let b = num_body(t);
    if b.len() >= 1 && all_digits(b) && dec_val(b) <= max {
        Option::Some(dec_val(b))
    } else {
        Option::None
    }
}

/// Reads `s` as an unsigned decimal integer, rejecting values above `max`.
pub fn parse_uint_max(s: &str, max: u32) -> (r: Option<u32>)
    ensures
        r is Some <==> spec_parse_uint(s@, max as nat) is Some,
        r is Some ==> r->0 as nat == spec_parse_uint(s@, max as nat)->0,
{
    let len = s.unicode_len();
    let ghost b = num_body(s@);
    let start: usize = if len > 0 && s.get_char(0) == '+' {
        1
    } else {
        0
    };
    proof {
        assert(b =~= s@.subrange(start as int, len as int));
    }
    if start == len {
        return None;
    }
    let mut acc: u64 = 0;
    let mut i: usize = start;
    while i < len
        invariant
            len == s@.len(),
            start <= i <= len,
            start < len,
            b == num_body(s@),
            b =~= s@.subrange(start as int, len as int),
            all_digits(b.subrange(0, i - start)),
            acc as nat == dec_val(b.subrange(0, i - start)),
            acc <= u32::MAX,
        decreases len - i,
    {
        let c = s.get_char(i);
        if !is_digit(c) {
            proof {
                assert(!spec_is_digit(b[i - start]));
            }
            return None;
        }
        let d = (c as u32) - ('0' as u32);
        acc = acc * 10 + (d as u64);
        i = i + 1;
        proof {
            assert(b.subrange(0, i - start) =~= b.subrange(0, i - start - 1).push(b[i - start
                - 1]));
            lemma_dec_val_push(b.subrange(0, i - start - 1), b[i - start - 1]);
        }
        if acc > (u32::MAX as u64) {
            proof {
                lemma_dec_val_prefix_le(b, i - start, b.len() as int);
                assert(b.subrange(0, b.len() as int) =~= b);
            }
            return None;
        }
    }
    proof {
        assert(b.subrange(0, b.len() as int) =~= b);
    }
    if acc > (max as u64) {
        return None;
    }
    Some(acc as u32)
}

/// Reading more of a string never loses segments.
pub proof fn lemma_rsplit_len_monotone(t: Seq<char>, c: char, i: int, j: int)
    requires
        0 <= i <= j <= t.len(),
    ensures
        rsplit(t.subrange(0, i), c).len() <= rsplit(t.subrange(0, j), c).len(),
    decreases j - i,
{
    if i < j {
        lemma_rsplit_len_monotone(t, c, i, j - 1);
        let p = t.subrange(0, j - 1);
        assert(t.subrange(0, j) =~= p.push(t[j - 1]));
        lemma_rsplit_push(p, c, t[j - 1]);
        lemma_rsplit_len(p, c);
    }
}

/// A copy of a list of strings, with its contents known to be the same.
pub fn clone_strings(v: &Vec<String>) -> (r: Vec<String>)
    ensures
        r@.len() == v@.len(),
        forall|i: int| 0 <= i < v@.len() ==> #[trigger] r@[i]@ == v@[i]@,
{
    let mut r: Vec<String> = Vec::new();
    let n = v.len();
    let mut i: usize = 0;
    while i < n
        invariant
            n == v@.len(),
            i <= n,
            r@.len() == i,
            forall|k: int| 0 <= k < i ==> #[trigger] r@[k]@ == v@[k]@,
        decreases n - i,
    {
        r.push(v[i].clone());
        i = i + 1;
    }
    r
}

// --- String equality ---------------------------------------------------

pub fn str_eq(a: &str, b: &str) -> (r: bool)
    ensures
        r == (a@ == b@),
{
    let alen = a.unicode_len();
    let blen = b.unicode_len();
    if alen != blen {
        return false;
    }
    let mut i: usize = 0;
    while i < alen
        invariant
            alen == a@.len(),
            alen == b@.len(),
            i <= alen,
            forall|k: int| 0 <= k < i ==> a@[k] == b@[k],
        decreases alen - i,
    {
        if a.get_char(i) != b.get_char(i) {
            return false;
        }
        i = i + 1;
    }
    proof {
        assert(a@ =~= b@);
    }
    true
}

} // verus!
