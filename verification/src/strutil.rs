//! Character-level text helpers: trimming, splitting, and decimal numbers.
//!
//! The controller agent answers with line-oriented `label: value` text, and
//! every artifact this crate produces is a comma-delimited row, so the whole
//! experiment rests on a small set of exactly specified string operations.

use vstd::prelude::*;
use vstd::string::StrSliceExecFns;
use vstd::string::StringExecFns;

verus! {

// ---------------------------------------------------------------------------
// characters
// ---------------------------------------------------------------------------

/// The whitespace characters the agent's output can carry around its fields.
pub open spec fn is_space_char(c: char) -> bool {
    c == ' ' || c == '\t' || c == '\n' || c == '\r'
}

pub open spec fn is_dec_digit(c: char) -> bool {
    48 <= c as u32 && c as u32 <= 57
}

pub open spec fn digit_of(c: char) -> nat {
    (c as u32 - 48) as nat
}

pub fn is_space(c: char) -> (r: bool)
    ensures
        r == is_space_char(c),
{
    c == ' ' || c == '\t' || c == '\n' || c == '\r'
}

/// Collects the characters of a string slice into a vector.
pub fn chars_of(s: &str) -> (r: Vec<char>)
    ensures
        r@ == s@,
{
    let n = s.unicode_len();
    let mut v: Vec<char> = Vec::new();
    let mut i: usize = 0;
    while i < n
        invariant
            n == s@.len(),
            i <= n,
            v@ == s@.take(i as int),
        decreases n - i,
    {
        v.push(s.get_char(i));
        assert(v@ =~= s@.take(i as int + 1));
        i = i + 1;
    }
    assert(v@ =~= s@);
    v
}

/// True exactly when the vector holds the string's characters.
pub fn str_eq_chars(v: &Vec<char>, s: &str) -> (r: bool)
    ensures
        r == (v@ == s@),
{
    let n = s.unicode_len();
    if v.len() != n {
        return false;
    }
    let mut i: usize = 0;
    while i < n
        invariant
            n == s@.len(),
            v@.len() == n,
            i <= n,
            forall|j: int| 0 <= j < i ==> v@[j] == s@[j],
        decreases n - i,
    {
        if v[i] != s.get_char(i) {
            return false;
        }
        i = i + 1;
    }
    assert(v@ =~= s@);
    true
}

/// Copies the characters of `v` between `a` and `b`.
pub fn sub_chars(v: &Vec<char>, a: usize, b: usize) -> (r: Vec<char>)
    requires
        a <= b && b <= v@.len(),
    ensures
        r@ == v@.subrange(a as int, b as int),
{
    let mut r: Vec<char> = Vec::new();
    let mut i: usize = a;
    while i < b
        invariant
            a <= i <= b <= v@.len(),
            r@ == v@.subrange(a as int, i as int),
        decreases b - i,
    {
        r.push(v[i]);
        assert(r@ =~= v@.subrange(a as int, i as int + 1));
        i = i + 1;
    }
    r
}

// ---------------------------------------------------------------------------
// trimming
// ---------------------------------------------------------------------------

/// The first index at or after `i` that does not hold whitespace, or the length.
pub open spec fn skip_spaces(s: Seq<char>, i: int) -> int
    decreases s.len() - i
    when 0 <= i <= s.len()
{
    if i >= s.len() {
        i
    } else if is_space_char(s[i]) {
        skip_spaces(s, i + 1)
    } else {
        i
    }
}

/// The end of the last non-whitespace character strictly before `i`, or zero.
pub open spec fn rskip_spaces(s: Seq<char>, i: int) -> int
    decreases i
    when 0 <= i <= s.len()
{
    if i <= 0 {
        0
    } else if is_space_char(s[i - 1]) {
        rskip_spaces(s, i - 1)
    } else {
        i
    }
}

/// `s` with leading and trailing whitespace removed.
pub open spec fn trim_of(s: Seq<char>) -> Seq<char> {
    let a = skip_spaces(s, 0);
    let b = rskip_spaces(s, s.len() as int);
    if a <= b {
        s.subrange(a, b)
    } else {
        Seq::<char>::empty()
    }
}


pub proof fn lemma_skip_spaces_unique(s: Seq<char>, i: int, k: int)
    requires
        0 <= i <= k <= s.len(),
        forall|j: int| i <= j < k ==> is_space_char(s[j]),
        k == s.len() || !is_space_char(s[k]),
    ensures
        skip_spaces(s, i) == k,
    decreases k - i,
{
    if i < k {
        lemma_skip_spaces_unique(s, i + 1, k);
    }
}


pub proof fn lemma_rskip_spaces_unique(s: Seq<char>, i: int, k: int)
    requires
        0 <= k <= i <= s.len(),
        forall|j: int| k <= j < i ==> is_space_char(s[j]),
        k == 0 || !is_space_char(s[k - 1]),
    ensures
        rskip_spaces(s, i) == k,
    decreases i - k,
{
    if k < i {
        lemma_rskip_spaces_unique(s, i - 1, k);
    }
}

/// `v` with leading and trailing whitespace removed.
pub fn trim_chars(v: &Vec<char>) -> (r: Vec<char>)
    ensures
        r@ == trim_of(v@),
{
    let n = v.len();
    let mut a: usize = 0;
    while a < n && is_space(v[a])
        invariant
            a <= n,
            n == v@.len(),
            forall|j: int| 0 <= j < a ==> is_space_char(v@[j]),
        decreases n - a,
    {
        a = a + 1;
    }
    proof {
        lemma_skip_spaces_unique(v@, 0, a as int);
    }
    let mut b: usize = n;
    while b > a && is_space(v[b - 1])
        invariant
            a <= b <= n,
            n == v@.len(),
            forall|j: int| b <= j < n ==> is_space_char(v@[j]),
        decreases b,
    {
        b = b - 1;
    }
    if a == b {
        // the scans met, so every character is whitespace and the trim is empty
        proof {
            if a < n {
                assert(is_space_char(v@[a as int]));
                assert(false);
            }
            lemma_rskip_spaces_unique(v@, n as int, 0);
            assert(trim_of(v@) =~= Seq::<char>::empty());
        }
        return Vec::new();
    }
    // here a < b, and neither v[a] nor v[b - 1] is whitespace
    proof {
        lemma_rskip_spaces_unique(v@, n as int, b as int);
        assert(trim_of(v@) == v@.subrange(a as int, b as int));
    }
    sub_chars(v, a, b)
}


// ---------------------------------------------------------------------------
// splitting
// ---------------------------------------------------------------------------

/// The separator occurs in `s` starting at index `j`.
pub open spec fn match_at(s: Seq<char>, sep: Seq<char>, j: int) -> bool {
    0 <= j && j + sep.len() <= s.len() && s.subrange(j, j + sep.len() as int) == sep
}

/// The first index at or after `i` where the separator occurs, or -1.
pub open spec fn find_sep(s: Seq<char>, sep: Seq<char>, i: int) -> int
    decreases s.len() - i
    when 0 <= i && sep.len() >= 1
{
    if i + sep.len() > s.len() {
        -1
    } else if match_at(s, sep, i) {
        i
    } else {
        find_sep(s, sep, i + 1)
    }
}

pub proof fn lemma_find_sep(s: Seq<char>, sep: Seq<char>, i: int)
    requires
        0 <= i,
        sep.len() >= 1,
    ensures
        find_sep(s, sep, i) == -1 || (i <= find_sep(s, sep, i) && match_at(s, sep, find_sep(s, sep, i))),
        find_sep(s, sep, i) == -1 ==> forall|j: int| i <= j ==> !match_at(s, sep, j),
        forall|j: int| i <= j < find_sep(s, sep, i) ==> !match_at(s, sep, j),
    decreases s.len() - i,
{
    if i + sep.len() > s.len() {
        assert forall|j: int| i <= j implies !match_at(s, sep, j) by {
            assert(j + sep.len() > s.len());
        }
    } else if match_at(s, sep, i) {
    } else {
        lemma_find_sep(s, sep, i + 1);
    }
}

pub proof fn lemma_find_sep_at(s: Seq<char>, sep: Seq<char>, i: int, k: int)
    requires
        0 <= i <= k,
        sep.len() >= 1,
        match_at(s, sep, k),
        forall|j: int| i <= j < k ==> !match_at(s, sep, j),
    ensures
        find_sep(s, sep, i) == k,
    decreases k - i,
{
    if i < k {
        lemma_find_sep_at(s, sep, i + 1, k);
    }
}

pub proof fn lemma_find_sep_none(s: Seq<char>, sep: Seq<char>, i: int)
    requires
        0 <= i,
        sep.len() >= 1,
        forall|j: int| i <= j ==> !match_at(s, sep, j),
    ensures
        find_sep(s, sep, i) == -1,
    decreases s.len() - i,
{
    if i + sep.len() <= s.len() {
        lemma_find_sep_none(s, sep, i + 1);
    }
}

/// `s` split on every non-overlapping occurrence of `sep`, left to right,
/// keeping empty pieces, as the standard `split` does.
pub open spec fn split_of(s: Seq<char>, sep: Seq<char>) -> Seq<Seq<char>>
    decreases s.len()
    when sep.len() >= 1
    via split_of_decreases
{
    let j = find_sep(s, sep, 0);
    if j < 0 {
        seq![s]
    } else {
        seq![s.subrange(0, j)] + split_of(s.subrange(j + sep.len(), s.len() as int), sep)
    }
}

#[via_fn]
proof fn split_of_decreases(s: Seq<char>, sep: Seq<char>) {
    lemma_find_sep(s, sep, 0);
}

/// Tests whether `sep` occurs in `v` starting at `j`.
fn is_match_at(v: &Vec<char>, sep: &Vec<char>, j: usize) -> (r: bool)
    ensures
        r == match_at(v@, sep@, j as int),
{
    if sep.len() > v.len() || j > v.len() - sep.len() {
        assert(!match_at(v@, sep@, j as int));
        return false;
    }
    let vn = v.len();
    let mut i: usize = 0;
    while i < sep.len()
        invariant
            vn == v@.len(),
            j + sep@.len() <= vn,
            i <= sep@.len(),
            forall|k: int| 0 <= k < i ==> v@[j + k] == sep@[k],
        decreases sep@.len() - i,
    {
        assert(j + i < v@.len());
        if v[j + i] != sep[i] {
            assert(v@.subrange(j as int, j + sep@.len() as int)[i as int] != sep@[i as int]);
            return false;
        }
        i = i + 1;
    }
    assert(v@.subrange(j as int, j + sep@.len() as int) =~= sep@);
    true
}

/// `v` split on every occurrence of `sep`, as `split_of` describes.
pub fn split_chars(v: &Vec<char>, sep: &Vec<char>) -> (r: Vec<Vec<char>>)
    requires
        sep@.len() >= 1,
    ensures
        r@.len() == split_of(v@, sep@).len(),
        forall|i: int| 0 <= i < r@.len() ==> r@[i]@ == split_of(v@, sep@)[i],
{
    let n = v.len();
    let w = sep.len();
    let mut out: Vec<Vec<char>> = Vec::new();
    let ghost target = split_of(v@, sep@);
    let ghost gout = Seq::<Seq<char>>::empty();
    let mut cur: Vec<char> = Vec::new();
    let mut i: usize = 0;
    let mut cs: usize = 0;
    proof {
        assert(v@.subrange(0, n as int) =~= v@);
        assert(gout + split_of(v@, sep@) =~= split_of(v@, sep@));
        assert(cur@ =~= v@.subrange(0, 0));
    }
    while i < n
        invariant
            sep@.len() == w,
            v@.len() == n,
            w >= 1,
            cs <= i <= n,
            cur@ == v@.subrange(cs as int, i as int),
            forall|j: int| cs <= j < i ==> !match_at(v@, sep@, j),
            out@.len() == gout.len(),
            forall|k: int| 0 <= k < gout.len() ==> out@[k]@ == gout[k],
            split_of(v@, sep@) == gout + split_of(v@.subrange(cs as int, n as int), sep@),
        decreases n - i,
    {
        if is_match_at(v, sep, i) {
            proof {
                let t = v@.subrange(cs as int, n as int);
                let k = i - cs;
                assert(t.subrange(k, k + sep@.len() as int) =~= v@.subrange(i as int, i + sep@.len() as int));
                assert(match_at(t, sep@, k));
                assert forall|j: int| 0 <= j < k implies !match_at(t, sep@, j) by {
                    assert(!match_at(v@, sep@, cs + j));
                    if match_at(t, sep@, j) {
                        assert(t.subrange(j, j + sep@.len() as int) =~= v@.subrange(
                            cs + j,
                            cs + j + sep@.len() as int,
                        ));
                    }
                }
                lemma_find_sep_at(t, sep@, 0, k);
                assert(t.subrange(0, k) =~= v@.subrange(cs as int, i as int));
                assert(t.subrange(k + sep@.len(), t.len() as int) =~= v@.subrange(
                    i + sep@.len(),
                    n as int,
                ));
                assert(split_of(t, sep@) == seq![cur@] + split_of(
                    v@.subrange(i + sep@.len(), n as int),
                    sep@,
                ));
                assert(gout + split_of(t, sep@) =~= (gout + seq![cur@]) + split_of(
                    v@.subrange(i + sep@.len(), n as int),
                    sep@,
                ));
            }
            out.push(cur);
            proof {
                gout = gout + seq![cur@];
            }
            cur = Vec::new();
            i = i + w;
            cs = i;
            assert(cur@ =~= v@.subrange(cs as int, i as int));
        } else {
            cur.push(v[i]);
            assert(cur@ =~= v@.subrange(cs as int, i as int + 1));
            i = i + 1;
        }
    }
    proof {
        let t = v@.subrange(cs as int, n as int);
        assert forall|j: int| 0 <= j implies !match_at(t, sep@, j) by {
            if j + sep@.len() <= t.len() {
                assert(!match_at(v@, sep@, cs + j));
                if match_at(t, sep@, j) {
                    assert(t.subrange(j, j + sep@.len() as int) =~= v@.subrange(
                        cs + j,
                        cs + j + sep@.len() as int,
                    ));
                }
            }
        }
        lemma_find_sep_none(t, sep@, 0);
        assert(split_of(t, sep@) == seq![t]);
        assert(cur@ == t);
    }
    out.push(cur);
    proof {
        gout = gout + seq![cur@];
        assert(split_of(v@, sep@) =~= gout);
    }
    out
}


// ---------------------------------------------------------------------------
// decimal numbers
// ---------------------------------------------------------------------------

pub open spec fn all_dec_digits(s: Seq<char>) -> bool {
    forall|i: int| 0 <= i < s.len() ==> is_dec_digit(s[i])
}

/// The value of a digit string, most significant digit first.
pub open spec fn digits_val(s: Seq<char>) -> nat
    decreases s.len(),
{
    if s.len() == 0 {
        0
    } else {
        digits_val(s.drop_last()) * 10 + digit_of(s.last())
    }
}

/// What parsing a whole string as an unsigned 64-bit number yields: digits
/// only, at least one of them, and a value that fits.
pub open spec fn parse_u64_of(s: Seq<char>) -> Option<u64> {
    if s.len() >= 1 && all_dec_digits(s) && digits_val(s) <= u64::MAX {
        Some(digits_val(s) as u64)
    } else {
        None
    }
}

proof fn lemma_digits_val_prefix(s: Seq<char>, k: int)
    requires
        0 <= k <= s.len(),
    ensures
        digits_val(s) >= digits_val(s.take(k)),
    decreases s.len() - k,
{
    if k < s.len() {
        lemma_digits_val_prefix(s, k + 1);
        assert(s.take(k + 1).drop_last() =~= s.take(k));
        assert(digits_val(s.take(k + 1)) == digits_val(s.take(k)) * 10 + digit_of(s.take(k + 1).last()));
    } else {
        assert(s.take(k) =~= s);
    }
}

/// Parses `v` as an unsigned 64-bit decimal number.
pub fn parse_u64_chars(v: &Vec<char>) -> (r: Option<u64>)
    ensures
        r == parse_u64_of(v@),
{
    let n = v.len();
    if n == 0 {
        return None;
    }
    let mut acc: u64 = 0;
    let mut i: usize = 0;
    while i < n
        invariant
            n == v@.len(),
            i <= n,
            all_dec_digits(v@.take(i as int)),
            acc as nat == digits_val(v@.take(i as int)),
        decreases n - i,
    {
        let c = v[i];
        let u = c as u32;
        if u < 48 || u > 57 {
            assert(!is_dec_digit(v@[i as int]));
            return None;
        }
        let d: u64 = (u - 48) as u64;
        proof {
            assert(v@.take(i as int + 1).drop_last() =~= v@.take(i as int));
            assert(v@.take(i as int + 1).last() == v@[i as int]);
            assert(digit_of(v@[i as int]) == d as nat);
        }
        if acc > (u64::MAX - d) / 10 {
            // the digits read so far no longer fit in 64 bits
            proof {
                assert(acc * 10 + d > u64::MAX) by (nonlinear_arith)
                    requires
                        acc > (u64::MAX - d) / 10,
                        d <= 9,
                ;
                assert(digits_val(v@.take(i as int + 1)) > u64::MAX);
                lemma_digits_val_prefix(v@, i as int + 1);
            }
            return None;
        }
        proof {
            assert(acc * 10 + d <= u64::MAX) by (nonlinear_arith)
                requires
                    acc <= (u64::MAX - d) / 10,
                    d <= 9,
            ;
        }
        acc = acc * 10 + d;
        i = i + 1;
    }
    proof {
        assert(v@.take(n as int) =~= v@);
    }
    Some(acc)
}

/// The decimal digit characters.
pub open spec fn dec_digit_char(d: nat) -> char {
    if d == 0 {
        '0'
    } else if d == 1 {
        '1'
    } else if d == 2 {
        '2'
    } else if d == 3 {
        '3'
    } else if d == 4 {
        '4'
    } else if d == 5 {
        '5'
    } else if d == 6 {
        '6'
    } else if d == 7 {
        '7'
    } else if d == 8 {
        '8'
    } else {
        '9'
    }
}

/// The decimal representation of `n`, without sign or padding.
pub open spec fn dec_rep(n: nat) -> Seq<char>
    decreases n,
{
    if n < 10 {
        seq![dec_digit_char(n)]
    } else {
        dec_rep(n / 10) + seq![dec_digit_char(n % 10)]
    }
}

/// The decimal representation of a signed number.
pub open spec fn dec_i64(n: int) -> Seq<char> {
    if n >= 0 {
        dec_rep(n as nat)
    } else {
        seq!['-'] + dec_rep((-n) as nat)
    }
}

pub open spec fn bool_rep(b: bool) -> Seq<char> {
    if b {
        "true"@
    } else {
        "false"@
    }
}

fn digit_str(d: u64) -> (r: &'static str)
    requires
        d < 10,
    ensures
        r@ == seq![dec_digit_char(d as nat)],
{
    proof {
        reveal_strlit("0");
        reveal_strlit("1");
        reveal_strlit("2");
        reveal_strlit("3");
        reveal_strlit("4");
        reveal_strlit("5");
        reveal_strlit("6");
        reveal_strlit("7");
        reveal_strlit("8");
        reveal_strlit("9");
    }
    let r: &'static str = if d == 0 {
        "0"
    } else if d == 1 {
        "1"
    } else if d == 2 {
        "2"
    } else if d == 3 {
        "3"
    } else if d == 4 {
        "4"
    } else if d == 5 {
        "5"
    } else if d == 6 {
        "6"
    } else if d == 7 {
        "7"
    } else if d == 8 {
        "8"
    } else {
        "9"
    };
    assert(r@ =~= seq![dec_digit_char(d as nat)]);
    r
}

/// Renders `n` in decimal.
pub fn u64_string(n: u64) -> (r: String)
    ensures
        r@ == dec_rep(n as nat),
    decreases n,
{
    if n < 10 {
        digit_str(n).to_owned()
    } else {
        let mut s = u64_string(n / 10);
        s.append(digit_str(n % 10));
        s
    }
}

/// Renders `n` in decimal, with a leading minus sign when negative.
pub fn i64_string(n: i64) -> (r: String)
    ensures
        r@ == dec_i64(n as int),
{
    if n >= 0 {
        u64_string(n as u64)
    } else {
        let m: u64 = (-(n as i128)) as u64;
        let mut s = String::from_str("-");
        proof {
            reveal_strlit("-");
            assert("-"@ =~= seq!['-']);
        }
        s.append(u64_string(m).as_str());
        s
    }
}

/// Renders a truth value as `true` or `false`.
pub fn bool_string(b: bool) -> (r: &'static str)
    ensures
        r@ == bool_rep(b),
{
    if b {
        "true"
    } else {
        "false"
    }
}


/// The views of a list of text lines.
pub open spec fn lines_of(v: Seq<String>) -> Seq<Seq<char>> {
    Seq::new(v.len(), |i: int| v[i]@)
}

} // verus!
