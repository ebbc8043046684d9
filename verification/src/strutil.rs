//! Character-level string utilities shared by the code generator and the
//! query builder: decimal rendering and parsing, zero-padding, splitting,
//! trimming, and ASCII case mapping, each specified over `Seq<char>`.

use vstd::prelude::*;

verus! {

// ---------------------------------------------------------------------------
// Character classes
// ---------------------------------------------------------------------------

/// ASCII whitespace, the separators recognized when tokenizing a name.
pub open spec fn is_ascii_space(c: char) -> bool {
    c == ' ' || c == '\t' || c == '\n' || c == '\r'
}

pub open spec fn is_digit_char(c: char) -> bool {
    '0' <= c && c <= '9'
}

pub open spec fn digit_val(c: char) -> nat {
    ((c as int) - ('0' as int)) as nat
}

pub open spec fn digit_char(d: nat) -> char {
    ((d + ('0' as int)) as u8) as char
}

pub open spec fn all_digits(s: Seq<char>) -> bool {
    forall|i: int| 0 <= i < s.len() ==> is_digit_char(#[trigger] s[i])
}

/// ASCII lower-case letters map to upper case; everything else is unchanged.
pub open spec fn upper_char(c: char) -> char {
    if 'a' <= c && c <= 'z' {
        (((c as int) - 32) as u8) as char
    } else {
        c
    }
}

pub open spec fn upper_seq(s: Seq<char>) -> Seq<char> {
    s.map_values(|c: char| upper_char(c))
}

/// ASCII upper-case letters map to lower case; everything else is unchanged.
pub open spec fn lower_char(c: char) -> char {
    if 'A' <= c && c <= 'Z' {
        (((c as int) + 32) as u8) as char
    } else {
        c
    }
}

pub open spec fn lower_seq(s: Seq<char>) -> Seq<char> {
    s.map_values(|c: char| lower_char(c))
}

// ---------------------------------------------------------------------------
// Decimal numbers
// ---------------------------------------------------------------------------

/// Value of a digit string, most significant digit first.
pub open spec fn digits_val(s: Seq<char>) -> nat
    decreases s.len(),
{
    if s.len() == 0 {
        0
    } else {
        digits_val(s.drop_last()) * 10 + digit_val(s.last())
    }
}

/// Decimal rendering of `n`, without padding.
pub open spec fn dec_str(n: nat) -> Seq<char>
    decreases n,
{
    if n < 10 {
        seq![digit_char(n)]
    } else {
        dec_str(n / 10).push(digit_char(n % 10))
    }
}

pub open spec fn zeroes(n: nat) -> Seq<char>
    decreases n,
{
    if n == 0 {
        Seq::empty()
    } else {
        zeroes((n - 1) as nat).push('0')
    }
}

/// Decimal rendering of `n` left-padded with zeroes to `width`, or the plain
/// rendering when that is already at least `width` long.
pub open spec fn pad_str(n: nat, width: nat) -> Seq<char> {
    if dec_str(n).len() >= width {
        dec_str(n)
    } else {
        zeroes((width - dec_str(n).len()) as nat) + dec_str(n)
    }
}

pub open spec fn pow10(n: nat) -> nat
    decreases n,
{
    if n == 0 {
        1
    } else {
        10 * pow10((n - 1) as nat)
    }
}

pub proof fn lemma_digit_char_val(d: nat)
    requires
        d < 10,
    ensures
        is_digit_char(digit_char(d)),
        digit_val(digit_char(d)) == d,
{
}

pub proof fn lemma_dec_str_digits(n: nat)
    ensures
        dec_str(n).len() >= 1,
        all_digits(dec_str(n)),
        digits_val(dec_str(n)) == n,
    decreases n,
{
    if n < 10 {
        lemma_digit_char_val(n);
        assert(dec_str(n) =~= seq![digit_char(n)]);
        assert(dec_str(n).drop_last() =~= Seq::<char>::empty());
        assert(dec_str(n).last() == digit_char(n));
        assert(digits_val(dec_str(n)) == digits_val(Seq::<char>::empty()) * 10 + digit_val(
            digit_char(n),
        ));
    } else {
        lemma_dec_str_digits(n / 10);
        lemma_digit_char_val(n % 10);
        assert(dec_str(n).drop_last() =~= dec_str(n / 10));
        assert(dec_str(n).last() == digit_char(n % 10));
        assert(digits_val(dec_str(n)) == (n / 10) * 10 + (n % 10));
        assert(n == (n / 10) * 10 + (n % 10)) by (nonlinear_arith);
    }
}

pub proof fn lemma_zeroes(n: nat)
    ensures
        zeroes(n).len() == n,
        forall|i: int| 0 <= i < n ==> zeroes(n)[i] == '0',
    decreases n,
{
    if n > 0 {
        lemma_zeroes((n - 1) as nat);
    }
}

/// Leading zeroes do not change the value of a digit string.
pub proof fn lemma_digits_val_zero_prefix(k: nat, s: Seq<char>)
    ensures
        digits_val(zeroes(k) + s) == digits_val(s),
    decreases s.len(),
{
    lemma_zeroes(k);
    if s.len() == 0 {
        assert(zeroes(k) + s =~= zeroes(k));
        lemma_digits_val_all_zero(k);
    } else {
        assert((zeroes(k) + s).drop_last() =~= zeroes(k) + s.drop_last());
        lemma_digits_val_zero_prefix(k, s.drop_last());
        assert((zeroes(k) + s).last() == s.last());
    }
}

pub proof fn lemma_digits_val_all_zero(k: nat)
    ensures
        digits_val(zeroes(k)) == 0,
    decreases k,
{
    lemma_zeroes(k);
    if k > 0 {
        assert(zeroes(k).drop_last() =~= zeroes((k - 1) as nat));
        lemma_digits_val_all_zero((k - 1) as nat);
        lemma_zeroes((k - 1) as nat);
        assert(zeroes(k).last() == '0');
    }
}

/// The padded rendering is exactly `width` digits whenever the value fits,
/// and it still reads back as `n`.
pub proof fn lemma_pad_str(n: nat, width: nat)
    ensures
        all_digits(pad_str(n, width)),
        digits_val(pad_str(n, width)) == n,
        pad_str(n, width).len() >= width,
        pad_str(n, width).len() >= 1,
{
    lemma_dec_str_digits(n);
    if dec_str(n).len() < width {
        let k = (width - dec_str(n).len()) as nat;
        lemma_zeroes(k);
        lemma_digits_val_zero_prefix(k, dec_str(n));
    }
}

/// A value below the `w`-th power of ten renders in at most `w` digits.
pub proof fn lemma_dec_str_len_le(n: nat, w: nat)
    requires
        1 <= w,
        n < pow10(w),
    ensures
        dec_str(n).len() <= w,
    decreases n,
{
    if n < 10 {
    } else {
        lemma_pow10_pos((w - 1) as nat);
        assert(pow10(w) == 10 * pow10((w - 1) as nat));
        assert(n / 10 < pow10((w - 1) as nat)) by (nonlinear_arith)
            requires
                n < 10 * pow10((w - 1) as nat),
                10 <= n,
        {}
        if w == 1 {
            lemma_pow10_pos(0);
            assert(false);
        }
        lemma_dec_str_len_le(n / 10, (w - 1) as nat);
    }
}

/// A digit string's value is bounded by the power of ten of its length.
pub proof fn lemma_digits_val_bound(s: Seq<char>)
    requires
        all_digits(s),
    ensures
        digits_val(s) < pow10(s.len()),
    decreases s.len(),
{
    if s.len() > 0 {
        lemma_digits_val_bound(s.drop_last());
    }
}

/// A digit string never reads back as more than the value of the whole:
/// extending a digit string on the right can only grow its value.
pub proof fn lemma_digits_val_prefix_mono(s: Seq<char>, i: int)
    requires
        0 <= i <= s.len(),
    ensures
        digits_val(s.take(i)) <= digits_val(s),
    decreases s.len() - i,
{
    if i < s.len() {
        assert(s.take(i + 1).drop_last() =~= s.take(i));
        assert(digits_val(s.take(i + 1)) == digits_val(s.take(i)) * 10 + digit_val(
            s.take(i + 1).last(),
        ));
        lemma_digits_val_prefix_mono(s, i + 1);
    } else {
        assert(s.take(i) =~= s);
    }
}

/// Relies on `String::push`: appends one character at the end of the string.
#[verifier::external_body]
pub(crate) fn push_char(s: &mut String, c: char)
    ensures
        final(s)@ == old(s)@.push(c),
{
    s.push(c);
}

fn digit_to_char(d: u64) -> (c: char)
    requires
        d < 10,
    ensures
        c == digit_char(d as nat),
{
    ((48 + d) as u8) as char
}

/// Decimal rendering of `n`, most significant digit first.
pub fn dec_of_u64(n: u64) -> (s: String)
    ensures
        s@ == dec_str(n as nat),
    decreases n,
{
    if n < 10 {
        let mut s = String::new();
        push_char(&mut s, digit_to_char(n));
        assert(s@ =~= dec_str(n as nat));
        s
    } else {
        let mut s = dec_of_u64(n / 10);
        push_char(&mut s, digit_to_char(n % 10));
        s
    }
}

/// Decimal rendering of `n`, zero-padded on the left to `width`.
pub fn pad_of_u64(n: u64, width: usize) -> (s: String)
    ensures
        s@ == pad_str(n as nat, width as nat),
{
    let dec = dec_of_u64(n);
    let dec_len = dec.as_str().unicode_len();
    if dec_len >= width {
        dec
    } else {
        let mut s = String::new();
        let mut i: usize = 0;
        while i < width - dec_len
            invariant
                i <= width - dec_len,
                dec_len == dec_str(n as nat).len(),
                dec_len < width,
                s@ =~= zeroes(i as nat),
            decreases width - dec_len - i,
        {
            proof {
                lemma_zeroes((i + 1) as nat);
                lemma_zeroes(i as nat);
                assert(zeroes((i + 1) as nat) =~= zeroes(i as nat).push('0'));
            }
            push_char(&mut s, '0');
            i = i + 1;
        }
        let r = s.concat(dec.as_str());
        assert(r@ =~= pad_str(n as nat, width as nat));
        r
    }
}

/// Parses a nonempty all-digit string; `None` when the string is empty, holds
/// a non-digit, or encodes a value above `u64::MAX`.
pub fn parse_digits_u64(s: &str) -> (r: Option<u64>)
    ensures
        match r {
            Some(v) => s@.len() >= 1 && all_digits(s@) && v == digits_val(s@),
            None => s@.len() == 0 || !all_digits(s@) || digits_val(s@) > u64::MAX,
        },
{
    let len = s.unicode_len();
    if len == 0 {
        return None;
    }
    let mut acc: u64 = 0;
    let mut i: usize = 0;
    while i < len
        invariant
            0 <= i <= len,
            len == s@.len(),
            all_digits(s@.take(i as int)),
            acc == digits_val(s@.take(i as int)),
        decreases len - i,
    {
        let c = s.get_char(i);
        if !('0' <= c && c <= '9') {
            assert(!all_digits(s@));
            return None;
        }
        let d = (c as u8) - 48;
        if acc > (u64::MAX - (d as u64)) / 10 {
            proof {
                assert(acc * 10 + d > u64::MAX) by (nonlinear_arith)
                    requires
                        acc > (u64::MAX - (d as u64)) / 10,
                        d < 10,
                        0 <= acc,
                {}
                assert(s@.take(i + 1).drop_last() =~= s@.take(i as int));
                assert(digits_val(s@.take(i + 1)) == acc * 10 + digit_val(s@[i as int]));
                lemma_digits_val_prefix_mono(s@, i + 1);
            }
            return None;
        }
        proof {
            assert(s@.take(i + 1).drop_last() =~= s@.take(i as int));
        }
        acc = acc * 10 + (d as u64);
        i = i + 1;
    }
    proof {
        assert(s@.take(len as int) =~= s@);
    }
    Some(acc)
}

pub proof fn lemma_pow10_pos(n: nat)
    ensures
        pow10(n) >= 1,
    decreases n,
{
    if n > 0 {
        lemma_pow10_pos((n - 1) as nat);
    }
}

pub proof fn lemma_pow10_mono(a: nat, b: nat)
    requires
        a <= b,
    ensures
        pow10(a) <= pow10(b),
    decreases b,
{
    if a < b {
        lemma_pow10_mono(a, (b - 1) as nat);
        lemma_pow10_pos((b - 1) as nat);
    }
}

/// `pow10` as an executable function; the exponent is capped so the result
/// fits comfortably (at most one billion).
pub fn pow10_u64(n: usize) -> (r: u64)
    requires
        n <= 9,
    ensures
        r == pow10(n as nat),
    decreases n,
{
    if n == 0 {
        1
    } else {
        proof {
            lemma_pow10_mono((n - 1) as nat, 8);
            reveal_with_fuel(pow10, 10);
            assert(pow10(8) == 100000000);
        }
        10 * pow10_u64(n - 1)
    }
}

// ---------------------------------------------------------------------------
// Splitting, trimming, comparison
// ---------------------------------------------------------------------------

/// The views of a sequence of owned strings.
pub open spec fn views_of(v: Seq<String>) -> Seq<Seq<char>> {
    v.map_values(|w: String| w@)
}

/// Segments of `s` delimited by characters satisfying `p`; adjacent or
/// outer delimiters yield empty segments, so the result is never empty.
pub open spec fn split_any(s: Seq<char>, p: spec_fn(char) -> bool) -> Seq<Seq<char>>
    decreases s.len(),
{
    if s.len() == 0 {
        seq![Seq::empty()]
    } else if p(s.last()) {
        split_any(s.drop_last(), p).push(Seq::empty())
    } else {
        let r = split_any(s.drop_last(), p);
        r.update(r.len() - 1, r.last().push(s.last()))
    }
}

pub proof fn lemma_split_any_len(s: Seq<char>, p: spec_fn(char) -> bool)
    ensures
        split_any(s, p).len() >= 1,
    decreases s.len(),
{
    if s.len() > 0 {
        lemma_split_any_len(s.drop_last(), p);
    }
}

pub open spec fn comma_segments(s: Seq<char>) -> Seq<Seq<char>> {
    split_any(s, |c: char| c == ',')
}

pub open spec fn space_segments(s: Seq<char>) -> Seq<Seq<char>> {
    split_any(s, |c: char| is_ascii_space(c))
}

/// The predicate holding exactly on one character.
pub open spec fn eq_pred(sep: char) -> spec_fn(char) -> bool {
    |c: char| c == sep
}

/// Predicate for non-empty segments.
pub open spec fn nonempty() -> spec_fn(Seq<char>) -> bool {
    |w: Seq<char>| w.len() > 0
}

/// The whitespace-separated tokens of `s`, in order, without empties.
pub open spec fn words_of(s: Seq<char>) -> Seq<Seq<char>> {
    space_segments(s).filter(nonempty())
}

pub proof fn lemma_views_push(v: Seq<String>, x: String)
    ensures
        views_of(v.push(x)) =~= views_of(v).push(x@),
{
}

pub proof fn lemma_filter_push<A>(s: Seq<A>, x: A, p: spec_fn(A) -> bool)
    ensures
        s.push(x).filter(p) == (if p(x) {
            s.filter(p).push(x)
        } else {
            s.filter(p)
        }),
{
    reveal(Seq::filter);
    assert(s.push(x).drop_last() =~= s);
    assert(s.push(x).last() == x);
}

pub fn split_by<F: Fn(char) -> bool>(s: &str, sep: F, Ghost(p): Ghost<spec_fn(char) -> bool>) -> (
    r: Vec<String>)
    requires
        forall|c: char| #[trigger] sep.requires((c,)),
        forall|c: char, b: bool| sep.ensures((c,), b) ==> b == p(c),
    ensures
        views_of(r@) =~= split_any(s@, p),
{
    let len = s.unicode_len();
    let mut out: Vec<String> = Vec::new();
    let mut cur: String = String::new();
    let mut i: usize = 0;
    while i < len
        invariant
            i <= len,
            len == s@.len(),
            forall|c: char| #[trigger] sep.requires((c,)),
            forall|c: char, b: bool| sep.ensures((c,), b) ==> b == p(c),
            views_of(out@).push(cur@) =~= split_any(s@.take(i as int), p),
        decreases len - i,
    {
        let c = s.get_char(i);
        proof {
            assert(s@.take(i + 1).drop_last() =~= s@.take(i as int));
            assert(s@.take(i + 1).last() == s@[i as int]);
        }
        if sep(c) {
            let ghost prev = views_of(out@).push(cur@);
            let ghost out0 = out@;
            out.push(cur);
            cur = String::new();
            proof {
                lemma_views_push(out0, out@.last());
                assert(out@ =~= out0.push(out@.last()));
                assert(views_of(out@).push(cur@) =~= prev.push(Seq::empty()));
            }
        } else {
            push_char(&mut cur, c);
            proof {
                let r = split_any(s@.take(i as int), p);
                assert(views_of(out@).push(cur@) =~= r.update(r.len() - 1, r.last().push(
                    s@[i as int],
                )));
            }
        }
        i = i + 1;
    }
    let ghost out0 = out@;
    out.push(cur);
    proof {
        assert(s@.take(len as int) =~= s@);
        lemma_views_push(out0, out@.last());
        assert(out@ =~= out0.push(out@.last()));
    }
    out
}

/// Splits on every comma; empty segments are kept.
pub fn split_commas(s: &str) -> (r: Vec<String>)
    ensures
        views_of(r@) =~= comma_segments(s@),
{
    split_by(
        s,
        (|c: char| -> (b: bool)
            ensures
                b == (c == ','),
            { c == ',' }),
        Ghost(|c: char| c == ','),
    )
}

/// Splits on ASCII whitespace; empty segments are kept.
pub fn split_spaces(s: &str) -> (r: Vec<String>)
    ensures
        views_of(r@) =~= space_segments(s@),
{
    split_by(
        s,
        (|c: char| -> (b: bool)
            ensures
                b == is_ascii_space(c),
            { c == ' ' || c == '\t' || c == '\n' || c == '\r' }),
        Ghost(|c: char| is_ascii_space(c)),
    )
}

/// Drops the empty strings, keeping order.
pub fn retain_nonempty(v: &Vec<String>) -> (r: Vec<String>)
    ensures
        views_of(r@) =~= views_of(v@).filter(nonempty()),
{
    let mut out: Vec<String> = Vec::new();
    let mut i: usize = 0;
    while i < v.len()
        invariant
            i <= v.len(),
            views_of(out@) =~= views_of(v@.take(i as int)).filter(nonempty()),
        decreases v.len() - i,
    {
        proof {
            assert(views_of(v@.take(i + 1)) =~= views_of(v@.take(i as int)).push(v@[i as int]@));
            lemma_filter_push(views_of(v@.take(i as int)), v@[i as int]@, nonempty());
        }
        let w = v[i].clone();
        let ghost out0 = out@;
        let ghost x = v@[i as int]@;
        if !w.as_str().is_empty() {
            out.push(w);
            proof {
                lemma_views_push(out0, v@[i as int]);
                assert(out@ =~= out0.push(v@[i as int]));
                assert(nonempty()(x));
                assert(views_of(v@.take(i as int)).push(x).filter(nonempty()) == views_of(
                    v@.take(i as int),
                ).filter(nonempty()).push(x));
                assert(views_of(out@) =~= views_of(v@.take(i + 1)).filter(nonempty()));
            }
        } else {
            proof {
                assert(!nonempty()(x));
                assert(views_of(v@.take(i as int)).push(x).filter(nonempty()) == views_of(
                    v@.take(i as int),
                ).filter(nonempty()));
                assert(views_of(out@) =~= views_of(v@.take(i + 1)).filter(nonempty()));
            }
        }
        i = i + 1;
    }
    proof {
        assert(v@.take(v@.len() as int) =~= v@);
    }
    out
}

/// The whitespace-separated tokens of `s`, in order.
pub fn split_words(s: &str) -> (r: Vec<String>)
    ensures
        views_of(r@) =~= words_of(s@),
{
    let segs = split_spaces(s);
    retain_nonempty(&segs)
}

pub open spec fn trim_start_spec(s: Seq<char>) -> Seq<char>
    decreases s.len(),
{
    if s.len() > 0 && is_ascii_space(s.first()) {
        trim_start_spec(s.drop_first())
    } else {
        s
    }
}

pub open spec fn trim_end_spec(s: Seq<char>) -> Seq<char>
    decreases s.len(),
{
    if s.len() > 0 && is_ascii_space(s.last()) {
        trim_end_spec(s.drop_last())
    } else {
        s
    }
}

/// `s` without leading and trailing ASCII whitespace.
pub open spec fn trim_spec(s: Seq<char>) -> Seq<char> {
    trim_end_spec(trim_start_spec(s))
}

fn scan_start(s: &str, i: usize) -> (r: usize)
    requires
        i <= s@.len(),
    ensures
        i <= r <= s@.len(),
        trim_start_spec(s@.skip(i as int)) == s@.skip(r as int),
    decreases s@.len() - i,
{
    let len = s.unicode_len();
    if i < len {
        let c = s.get_char(i);
        if c == ' ' || c == '\t' || c == '\n' || c == '\r' {
            proof {
                assert(s@.skip(i as int).first() == s@[i as int]);
                assert(s@.skip(i as int).drop_first() =~= s@.skip(i + 1));
            }
            return scan_start(s, i + 1);
        }
    }
    proof {
        if i == len {
            assert(s@.skip(i as int) =~= Seq::<char>::empty());
        }
    }
    i
}

fn scan_end(s: &str, lo: usize, j: usize) -> (r: usize)
    requires
        lo <= j <= s@.len(),
    ensures
        lo <= r <= j,
        trim_end_spec(s@.subrange(lo as int, j as int)) == s@.subrange(lo as int, r as int),
    decreases j,
{
    if j > lo {
        let c = s.get_char(j - 1);
        if c == ' ' || c == '\t' || c == '\n' || c == '\r' {
            proof {
                assert(s@.subrange(lo as int, j as int).last() == s@[j - 1]);
                assert(s@.subrange(lo as int, j as int).drop_last() =~= s@.subrange(
                    lo as int,
                    j - 1,
                ));
            }
            return scan_end(s, lo, j - 1);
        }
    }
    proof {
        if j == lo {
            assert(s@.subrange(lo as int, j as int) =~= Seq::<char>::empty());
        }
    }
    j
}

/// Removes leading and trailing ASCII whitespace.
pub fn trim_str(s: &str) -> (r: String)
    ensures
        r@ == trim_spec(s@),
{
    let len = s.unicode_len();
    let lo = scan_start(s, 0);
    let hi = scan_end(s, lo, len);
    proof {
        assert(s@.skip(0) =~= s@);
        assert(s@.skip(lo as int) =~= s@.subrange(lo as int, len as int));
    }
    let r = s.substring_char(lo, hi);
    r.to_owned()
}

/// Whether `sub` occurs contiguously anywhere in `s`.
pub open spec fn contains_sub(s: Seq<char>, sub: Seq<char>) -> bool {
    exists|i: int| 0 <= i <= s.len() - sub.len() && #[trigger] s.subrange(i, i + sub.len()) == sub
}

/// Substring search by scanning every starting position.
pub fn contains_substring(s: &str, sub: &str) -> (r: bool)
    ensures
        r == contains_sub(s@, sub@),
{
    let slen = s.unicode_len();
    let sublen = sub.unicode_len();
    if sublen > slen {
        return false;
    }
    if sublen == 0 {
        proof {
            assert(s@.subrange(0, 0 + sub@.len() as int) =~= sub@);
        }
        return true;
    }
    let mut i: usize = 0;
    while i <= slen - sublen
        invariant
            0 <= i <= slen - sublen + 1,
            1 <= sublen <= slen,
            slen == s@.len(),
            sublen == sub@.len(),
            forall|k: int| 0 <= k < i ==> #[trigger] s@.subrange(k, k + sub@.len()) != sub@,
        decreases slen - sublen - i + 1,
    {
        let window = s.substring_char(i, i + sublen);
        if chars_eq(window, sub) {
            proof {
                assert(s@.subrange(i as int, i + sub@.len()) == sub@);
            }
            return true;
        }
        i = i + 1;
    }
    false
}

/// Character-for-character equality of two string slices.
pub fn chars_eq(a: &str, b: &str) -> (r: bool)
    ensures
        r == (a@ == b@),
{
    let alen = a.unicode_len();
    let blen = b.unicode_len();
    if alen != blen {
        return false;
    }
    let mut i: usize = 0;
    while i < alen
        invariant
            i <= alen,
            alen == a@.len(),
            alen == b@.len(),
            forall|k: int| 0 <= k < i ==> a@[k] == b@[k],
        decreases alen - i,
    {
        if a.get_char(i) != b.get_char(i) {
            return false;
        }
        i = i + 1;
    }
    proof {
        assert(a@ =~= b@);
    }
    true
}

/// Whether `s` begins with `p`, compared character for character.
pub fn starts_with_str(s: &str, p: &str) -> (r: bool)
    ensures
        r == (s@.len() >= p@.len() && s@.take(p@.len() as int) == p@),
{
    let slen = s.unicode_len();
    let plen = p.unicode_len();
    if slen < plen {
        return false;
    }
    let mut i: usize = 0;
    while i < plen
        invariant
            i <= plen,
            plen == p@.len(),
            slen == s@.len(),
            slen >= plen,
            forall|k: int| 0 <= k < i ==> s@[k] == p@[k],
        decreases plen - i,
    {
        if s.get_char(i) != p.get_char(i) {
            proof {
                assert(s@.take(p@.len() as int)[i as int] == s@[i as int]);
            }
            return false;
        }
        i = i + 1;
    }
    proof {
        assert(s@.take(p@.len() as int) =~= p@);
    }
    true
}

pub fn upper_char_exec(c: char) -> (r: char)
    ensures
        r == upper_char(c),
{
    if 'a' <= c && c <= 'z' {
        (((c as u32) - 32) as u8) as char
    } else {
        c
    }
}

fn lower_char_exec(c: char) -> (r: char)
    ensures
        r == lower_char(c),
{
    if 'A' <= c && c <= 'Z' {
        (((c as u32) + 32) as u8) as char
    } else {
        c
    }
}

/// ASCII lower-casing of a whole string; non-ASCII characters are unchanged.
pub fn lower_str(s: &str) -> (r: String)
    ensures
        r@ == lower_seq(s@),
{
    let len = s.unicode_len();
    let mut out = String::new();
    let mut i: usize = 0;
    while i < len
        invariant
            i <= len,
            len == s@.len(),
            out@ =~= lower_seq(s@.take(i as int)),
        decreases len - i,
    {
        let c = s.get_char(i);
        push_char(&mut out, lower_char_exec(c));
        proof {
            assert(lower_seq(s@.take(i + 1)) =~= lower_seq(s@.take(i as int)).push(lower_char(
                s@[i as int],
            )));
        }
        i = i + 1;
    }
    proof {
        assert(s@.take(len as int) =~= s@);
    }
    out
}

/// ASCII upper-casing of a whole string; non-ASCII characters are unchanged.
pub fn upper_str(s: &str) -> (r: String)
    ensures
        r@ == upper_seq(s@),
{
    let len = s.unicode_len();
    let mut out = String::new();
    let mut i: usize = 0;
    while i < len
        invariant
            i <= len,
            len == s@.len(),
            out@ =~= upper_seq(s@.take(i as int)),
        decreases len - i,
    {
        let c = s.get_char(i);
        push_char(&mut out, upper_char_exec(c));
        proof {
            assert(upper_seq(s@.take(i + 1)) =~= upper_seq(s@.take(i as int)).push(upper_char(
                s@[i as int],
            )));
        }
        i = i + 1;
    }
    proof {
        assert(s@.take(len as int) =~= s@);
    }
    out
}

/// The first `k` characters of `s`, or all of `s` when it is shorter.
pub open spec fn take_at_most(s: Seq<char>, k: nat) -> Seq<char> {
    if s.len() <= k {
        s
    } else {
        s.take(k as int)
    }
}

pub fn prefix_chars(s: &str, k: usize) -> (r: String)
    ensures
        r@ == take_at_most(s@, k as nat),
{
    let len = s.unicode_len();
    let end = if len <= k {
        len
    } else {
        k
    };
    let r = s.substring_char(0, end);
    proof {
        assert(s@.subrange(0, end as int) =~= take_at_most(s@, k as nat));
    }
    r.to_owned()
}

} // verus!
