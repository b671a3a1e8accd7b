//! Character-level text handling: views of strings as character sequences,
//! splitting, trimming, searching, and decimal integers.
use vstd::prelude::*;
use vstd::std_specs::iter::IteratorSpec;

verus! {

broadcast use vstd::string::group_string_axioms;

// ----------------------------------------------------------------------------
// Characters
// ----------------------------------------------------------------------------

/// `c` is one of the ASCII digits `0`..=`9`.
pub open spec fn is_digit(c: char) -> bool {
    '0' <= c && c <= '9'
}

/// The value of an ASCII digit.
pub open spec fn digit_value(c: char) -> int {
    (c as int) - ('0' as int)
}

/// The ASCII digit of a value in `0..10`.
pub open spec fn digit_char(d: int) -> char {
    (d + ('0' as int)) as char
}

/// `c` has the Unicode `White_Space` property (what `char::is_whitespace` tests).
pub open spec fn is_whitespace(c: char) -> bool {
    let u = c as u32;
    ||| 0x9 <= u <= 0xD
    ||| u == 0x20
    ||| u == 0x85
    ||| u == 0xA0
    ||| u == 0x1680
    ||| 0x2000 <= u <= 0x200A
    ||| u == 0x2028
    ||| u == 0x2029
    ||| u == 0x202F
    ||| u == 0x205F
    ||| u == 0x3000
}

pub fn char_is_whitespace(c: char) -> (r: bool)
    ensures
        r == is_whitespace(c),
{
    let u = c as u32;
    (0x9 <= u && u <= 0xD) || u == 0x20 || u == 0x85 || u == 0xA0 || u == 0x1680 || (0x2000
        <= u && u <= 0x200A) || u == 0x2028 || u == 0x2029 || u == 0x202F || u == 0x205F || u
        == 0x3000
}

/// Lower-casing `c` (as `str::to_lowercase` does) yields exactly the lower-case
/// ASCII letter or digit `k`: either `c` is `k` itself, or its ASCII capital, or
/// (for `k == 'k'`) the Kelvin sign, the one non-ASCII character whose lower
/// case is an ASCII letter.
pub open spec fn lowers_to(c: char, k: char) -> bool {
    ||| c == k
    ||| ('a' <= k && k <= 'z' && (c as int) == (k as int) - 32)
    ||| (k == 'k' && (c as u32) == 0x212A)
}

/// `s.to_lowercase()` equals `keyword`, for a keyword made of lower-case ASCII
/// letters and digits.
pub open spec fn lower_equals(s: Seq<char>, keyword: Seq<char>) -> bool {
    &&& s.len() == keyword.len()
    &&& forall|i: int| 0 <= i < s.len() ==> lowers_to(#[trigger] s[i], keyword[i])
}

pub fn char_lowers_to(c: char, k: char) -> (r: bool)
    ensures
        r == lowers_to(c, k),
{
    c == k || ('a' <= k && k <= 'z' && (c as u32) + 32 == (k as u32)) || (k == 'k' && (c as u32)
        == 0x212A)
}

// ----------------------------------------------------------------------------
// Strings as character vectors
// ----------------------------------------------------------------------------

/// The characters of `s`, in order.
pub fn chars_of(s: &str) -> (v: Vec<char>)
    ensures
        v@ == s@,
{
    let mut v: Vec<char> = Vec::new();
    let mut it = s.chars();
    loop
        invariant
            it.obeys_prophetic_iter_laws(),
            v@ + it.remaining() == s@,
        ensures
            v@ == s@,
        decreases s@.len() - v@.len(),
    {
        match it.next() {
            Some(c) => {
                v.push(c);
                assert(v@ + it.remaining() =~= s@);
            },
            None => {
                assert(v@ =~= s@);
                break ;
            },
        }
    }
    v
}

/// `String::push`: appends one character.
#[verifier::external_body]
fn push_char(s: &mut String, c: char)
    ensures
        final(s)@ == old(s)@.push(c),
{
    s.push(c);
}

/// Appends `t` to `s`.
pub fn push_str(s: &mut String, t: &str)
    ensures
        final(s)@ == old(s)@ + t@,
{
    s.append(t);
}

/// A new string holding `v[lo..hi]`.
pub fn string_from(v: &Vec<char>, lo: usize, hi: usize) -> (r: String)
    requires
        lo <= hi <= v@.len(),
    ensures
        r@ == v@.subrange(lo as int, hi as int),
{
    let mut r = String::new();
    let mut i = lo;
    while i < hi
        invariant
            lo <= i <= hi <= v@.len(),
            r@ == v@.subrange(lo as int, i as int),
        decreases hi - i,
    {
        push_char(&mut r, v[i]);
        assert(r@ =~= v@.subrange(lo as int, i + 1));
        i = i + 1;
    }
    r
}

/// A new string with the characters of `s`.
pub fn owned(s: &str) -> (r: String)
    ensures
        r@ == s@,
{
    s.to_owned()
}

/// `a` and `b` hold the same characters.
pub fn same_text(a: &str, b: &str) -> (r: bool)
    ensures
        r == (a@ == b@),
{
    let x = a.to_owned();
    let y = b.to_owned();
    x == y
}

/// `s` is `prefix` followed by something.
pub open spec fn starts_with(s: Seq<char>, prefix: Seq<char>) -> bool {
    prefix.len() <= s.len() && s.subrange(0, prefix.len() as int) == prefix
}

/// `s` is something followed by `suffix`.
pub open spec fn ends_with(s: Seq<char>, suffix: Seq<char>) -> bool {
    suffix.len() <= s.len() && s.subrange(s.len() - suffix.len(), s.len() as int) == suffix
}

pub fn text_ends_with(s: &str, suffix: &str) -> (r: bool)
    ensures
        r == ends_with(s@, suffix@),
{
    let v = chars_of(s);
    let w = chars_of(suffix);
    if w.len() > v.len() {
        return false;
    }
    let off = v.len() - w.len();
    let n = v.len();
    let mut i: usize = 0;
    while i < w.len()
        invariant
            n == v@.len(),
            v@ == s@,
            w@ == suffix@,
            off + w@.len() == v@.len(),
            i <= w@.len(),
            forall|j: int| 0 <= j < i ==> v@[off + j] == w@[j],
        decreases w@.len() - i,
    {
        if v[off + i] != w[i] {
            assert(s@.subrange(off as int, s@.len() as int)[i as int] != suffix@[i as int]);
            return false;
        }
        i = i + 1;
    }
    assert(s@.subrange(off as int, s@.len() as int) =~= suffix@);
    true
}

// ----------------------------------------------------------------------------
// Trimming
// ----------------------------------------------------------------------------

/// `s` without its leading whitespace (`str::trim_start`).
pub open spec fn trim_start(s: Seq<char>) -> Seq<char>
    decreases s.len(),
{
    if s.len() > 0 && is_whitespace(s[0]) {
        trim_start(s.drop_first())
    } else {
        s
    }
}

/// `s` without its trailing whitespace (`str::trim_end`).
pub open spec fn trim_end(s: Seq<char>) -> Seq<char>
    decreases s.len(),
{
    if s.len() > 0 && is_whitespace(s.last()) {
        trim_end(s.drop_last())
    } else {
        s
    }
}

/// `s` without leading and trailing whitespace (`str::trim`).
pub open spec fn trim(s: Seq<char>) -> Seq<char> {
    trim_end(trim_start(s))
}

/// The first index at or after `lo` in `v[lo..hi]` that is not whitespace, or `hi`.
pub fn skip_whitespace(v: &Vec<char>, lo: usize, hi: usize) -> (r: usize)
    requires
        lo <= hi <= v@.len(),
    ensures
        lo <= r <= hi,
        v@.subrange(r as int, hi as int) == trim_start(v@.subrange(lo as int, hi as int)),
{
    let mut i = lo;
    while i < hi && char_is_whitespace(v[i])
        invariant
            lo <= i <= hi <= v@.len(),
            trim_start(v@.subrange(i as int, hi as int)) == trim_start(
                v@.subrange(lo as int, hi as int),
            ),
        decreases hi - i,
    {
        assert(v@.subrange(i as int, hi as int).drop_first() =~= v@.subrange(i + 1, hi as int));
        i = i + 1;
    }
    proof {
        r_is_trimmed(v@.subrange(i as int, hi as int));
    }
    i
}

proof fn r_is_trimmed(s: Seq<char>)
    requires
        s.len() == 0 || !is_whitespace(s[0]),
    ensures
        trim_start(s) == s,
{
}

/// The end of `v[lo..hi]` once its trailing whitespace is dropped.
pub fn drop_trailing_whitespace(v: &Vec<char>, lo: usize, hi: usize) -> (r: usize)
    requires
        lo <= hi <= v@.len(),
    ensures
        lo <= r <= hi,
        v@.subrange(lo as int, r as int) == trim_end(v@.subrange(lo as int, hi as int)),
{
    let mut j = hi;
    while j > lo && char_is_whitespace(v[j - 1])
        invariant
            lo <= j <= hi <= v@.len(),
            trim_end(v@.subrange(lo as int, j as int)) == trim_end(
                v@.subrange(lo as int, hi as int),
            ),
        decreases j - lo,
    {
        assert(v@.subrange(lo as int, j as int).drop_last() =~= v@.subrange(lo as int, j - 1));
        j = j - 1;
    }
    j
}

/// The bounds of `trim(v[lo..hi])`.
pub fn trim_bounds(v: &Vec<char>, lo: usize, hi: usize) -> (r: (usize, usize))
    requires
        lo <= hi <= v@.len(),
    ensures
        lo <= r.0 <= r.1 <= hi,
        v@.subrange(r.0 as int, r.1 as int) == trim(v@.subrange(lo as int, hi as int)),
{
    let a = skip_whitespace(v, lo, hi);
    let b = drop_trailing_whitespace(v, a, hi);
    (a, b)
}

// ----------------------------------------------------------------------------
// Searching
// ----------------------------------------------------------------------------

/// `pat` occurs in `s` at index `i`.
pub open spec fn occurs_at(s: Seq<char>, pat: Seq<char>, i: int) -> bool {
    0 <= i && i + pat.len() <= s.len() && s.subrange(i, i + pat.len()) == pat
}

/// The first index at or after `i` where `pat` occurs in `s` (`str::find` from `i`).
pub open spec fn find_from(s: Seq<char>, pat: Seq<char>, i: int) -> Option<int>
    decreases s.len() + 1 - i,
{
    if i < 0 || i + pat.len() > s.len() {
        None
    } else if occurs_at(s, pat, i) {
        Some(i)
    } else {
        find_from(s, pat, i + 1)
    }
}

/// The first index where `pat` occurs in `s` (`str::find`).
pub open spec fn find(s: Seq<char>, pat: Seq<char>) -> Option<int> {
    find_from(s, pat, 0)
}

fn occurs_at_exec(v: &Vec<char>, lo: usize, pat: &Vec<char>, i: usize) -> (r: bool)
    requires
        lo <= i,
        i + pat@.len() <= v@.len(),
    ensures
        r == occurs_at(v@.subrange(lo as int, v@.len() as int), pat@, i - lo),
{
    let ghost s = v@.subrange(lo as int, v@.len() as int);
    let n = v.len();
    let mut k: usize = 0;
    while k < pat.len()
        invariant
            n == v@.len(),
            lo <= i,
            i + pat@.len() <= v@.len(),
            s == v@.subrange(lo as int, v@.len() as int),
            k <= pat@.len(),
            forall|j: int| 0 <= j < k ==> v@[i + j] == pat@[j],
        decreases pat@.len() - k,
    {
        if v[i + k] != pat[k] {
            assert(s.subrange(i - lo, i - lo + pat@.len())[k as int] != pat@[k as int]);
            return false;
        }
        k = k + 1;
    }
    assert(s.subrange(i - lo, i - lo + pat@.len()) =~= pat@);
    true
}

/// The first index of `pat` in `v[lo..]`, counted from `lo`.
pub fn find_in(v: &Vec<char>, lo: usize, pat: &Vec<char>) -> (r: Option<usize>)
    requires
        lo <= v@.len(),
    ensures
        match r {
            Some(p) => find(v@.subrange(lo as int, v@.len() as int), pat@) == Some(p as int) && lo
                + p + pat@.len() <= v@.len(),
            None => find(v@.subrange(lo as int, v@.len() as int), pat@) is None,
        },
{
    let ghost s = v@.subrange(lo as int, v@.len() as int);
    if pat.len() > v.len() - lo {
        return None;
    }
    if pat.len() == 0 {
        assert(s.subrange(0, 0) =~= pat@);
        return Some(0);
    }
    let n = v.len();
    let last = v.len() - pat.len();
    let mut i = lo;
    while i <= last
        invariant
            n == v@.len(),
            pat@.len() > 0,
            lo <= i <= last + 1,
            last + pat@.len() == v@.len(),
            lo <= v@.len(),
            s == v@.subrange(lo as int, v@.len() as int),
            find(s, pat@) == find_from(s, pat@, i - lo),
        decreases last + 1 - i,
    {
        if occurs_at_exec(v, lo, pat, i) {
            return Some(i - lo);
        }
        i = i + 1;
    }
    None
}

/// The first index of `c` in `s` at or after `i`.
pub open spec fn index_of_from(s: Seq<char>, c: char, i: int) -> Option<int>
    decreases s.len() - i,
{
    if i < 0 || i >= s.len() {
        None
    } else if s[i] == c {
        Some(i)
    } else {
        index_of_from(s, c, i + 1)
    }
}

/// The first index of `c` in `s`.
pub open spec fn index_of(s: Seq<char>, c: char) -> Option<int> {
    index_of_from(s, c, 0)
}

pub fn index_of_char(v: &Vec<char>, c: char) -> (r: Option<usize>)
    ensures
        match r {
            Some(p) => index_of(v@, c) == Some(p as int) && p < v@.len() && v@[p as int] == c,
            None => index_of(v@, c) is None,
        },
{
    let mut i: usize = 0;
    while i < v.len()
        invariant
            i <= v@.len(),
            index_of(v@, c) == index_of_from(v@, c, i as int),
        decreases v@.len() - i,
    {
        if v[i] == c {
            return Some(i);
        }
        i = i + 1;
    }
    None
}

// ----------------------------------------------------------------------------
// Splitting
// ----------------------------------------------------------------------------

/// The pieces of `s` between occurrences of `sep` (`str::split` with a `char`):
/// one piece more than there are separators, empty pieces included.
pub open spec fn split(s: Seq<char>, sep: char) -> Seq<Seq<char>>
    decreases s.len(),
{
    if s.len() == 0 {
        seq![Seq::<char>::empty()]
    } else {
        let init = split(s.drop_last(), sep);
        if s.last() == sep {
            init.push(Seq::<char>::empty())
        } else {
            init.update(init.len() - 1, init.last().push(s.last()))
        }
    }
}

pub proof fn lemma_split_nonempty(s: Seq<char>, sep: char)
    ensures
        split(s, sep).len() >= 1,
    decreases s.len(),
{
    if s.len() > 0 {
        lemma_split_nonempty(s.drop_last(), sep);
    }
}

/// The views of a vector of strings.
pub open spec fn views(v: Seq<String>) -> Seq<Seq<char>> {
    v.map_values(|x: String| x@)
}

/// The pieces of `s` split at every `sep`.
pub fn split_text(s: &str, sep: char) -> (r: Vec<String>)
    ensures
        views(r@) == split(s@, sep),
{
    let v = chars_of(s);
    let mut parts: Vec<String> = Vec::new();
    let mut start: usize = 0;
    let mut i: usize = 0;
    assert(v@.subrange(0, 0) =~= Seq::<char>::empty());
    assert(views(parts@) =~= Seq::<Seq<char>>::empty());
    assert(views(parts@) + seq![v@.subrange(0, 0)] =~= split(v@.subrange(0, 0), sep));
    while i < v.len()
        invariant
            v@ == s@,
            start <= i <= v@.len(),
            views(parts@) + seq![v@.subrange(start as int, i as int)] == split(
                v@.subrange(0, i as int),
                sep,
            ),
        decreases v@.len() - i,
    {
        let ghost prefix = v@.subrange(0, i + 1);
        assert(prefix.drop_last() =~= v@.subrange(0, i as int));
        assert(prefix.last() == v@[i as int]);
        let ghost before = views(parts@);
        let ghost old_parts = parts@;
        if v[i] == sep {
            let piece = string_from(&v, start, i);
            parts.push(piece);
            assert(parts@.drop_last() =~= old_parts);
            assert(views(parts@) =~= before.push(piece@));
            assert(split(prefix, sep) == split(prefix.drop_last(), sep).push(Seq::<char>::empty()));
            assert(v@.subrange(i + 1, i + 1) =~= Seq::<char>::empty());
            assert(split(prefix.drop_last(), sep) == before + seq![piece@]);
            assert(views(parts@) + seq![v@.subrange(i + 1, i + 1)] =~= (before + seq![piece@]).push(
                Seq::<char>::empty(),
            ));
            start = i + 1;
        } else {
            assert(v@.subrange(start as int, i + 1) =~= v@.subrange(start as int, i as int).push(
                v@[i as int],
            ));
            let ghost init = split(prefix.drop_last(), sep);
            assert(split(prefix, sep) == init.update(init.len() - 1, init.last().push(prefix.last())));
            assert(views(parts@) + seq![v@.subrange(start as int, i + 1)] =~= split(prefix, sep));
        }
        i = i + 1;
    }
    let last = string_from(&v, start, v.len());
    parts.push(last);
    assert(v@.subrange(0, v@.len() as int) =~= s@);
    assert(views(parts@) =~= views(parts@.drop_last()).push(last@));
    parts
}

// ----------------------------------------------------------------------------
// Decimal integers
// ----------------------------------------------------------------------------

/// Every character of `s` is an ASCII digit.
pub open spec fn all_digits(s: Seq<char>) -> bool {
    forall|i: int| 0 <= i < s.len() ==> is_digit(#[trigger] s[i])
}

/// The value of a string of digits, most significant first.
pub open spec fn decimal_value(s: Seq<char>) -> nat
    decreases s.len(),
{
    if s.len() == 0 {
        0
    } else {
        (10 * decimal_value(s.drop_last()) + digit_value(s.last())) as nat
    }
}

/// The decimal digits of `n`, without leading zeros.
pub open spec fn decimal_digits(n: nat) -> Seq<char>
    decreases n,
{
    if n < 10 {
        seq![digit_char(n as int)]
    } else {
        decimal_digits(n / 10).push(digit_char((n % 10) as int))
    }
}

/// The text of an integer: a `-` before the digits of a negative one.
pub open spec fn int_text(n: int) -> Seq<char> {
    if n < 0 {
        seq!['-'].add(decimal_digits((-n) as nat))
    } else {
        decimal_digits(n as nat)
    }
}

/// Why text is not an integer of a given type (`std::num::IntErrorKind`).
#[derive(Debug, Clone, Copy, PartialEq, Eq)]
pub enum IntErrorKind {
    Empty,
    InvalidDigit,
    PosOverflow,
    NegOverflow,
}

impl IntErrorKind {
    /// The text that `ParseIntError` displays for this kind.
    pub open spec fn text(self) -> Seq<char> {
        match self {
            IntErrorKind::Empty => "cannot parse integer from empty string"@,
            IntErrorKind::InvalidDigit => "invalid digit found in string"@,
            IntErrorKind::PosOverflow => "number too large to fit in target type"@,
            IntErrorKind::NegOverflow => "number too small to fit in target type"@,
        }
    }

    pub fn message(&self) -> (r: String)
        ensures
            r@ == self.text(),
    {
        match self {
            IntErrorKind::Empty => owned("cannot parse integer from empty string"),
            IntErrorKind::InvalidDigit => owned("invalid digit found in string"),
            IntErrorKind::PosOverflow => owned("number too large to fit in target type"),
            IntErrorKind::NegOverflow => owned("number too small to fit in target type"),
        }
    }
}

/// The length of the run of digits at the start of `s`.
pub open spec fn digit_run(s: Seq<char>) -> nat
    decreases s.len(),
{
    if s.len() > 0 && is_digit(s[0]) {
        1 + digit_run(s.drop_first())
    } else {
        0
    }
}

/// What `str::parse` gives for an integer type with values `min..=max`
/// (`signed` when the type has negative values): an optional `+` (or `-` for a
/// signed type) and then decimal digits only. Read from the left, the first
/// character that is not a digit fails with `InvalidDigit`, unless the digits
/// before it already leave the range, which fails with an overflow.
pub open spec fn parse_integer(s: Seq<char>, signed: bool, min: int, max: int) -> Result<
    int,
    IntErrorKind,
> {
    if s.len() == 0 {
        Err(IntErrorKind::Empty)
    } else if (s[0] == '+' || s[0] == '-') && s.len() == 1 {
        Err(IntErrorKind::InvalidDigit)
    } else {
        let neg = signed && s[0] == '-';
        let digits = if s[0] == '+' || neg {
            s.drop_first()
        } else {
            s
        };
        let k = digit_run(digits);
        let mag = decimal_value(digits.take(k as int));
        if !neg && mag > max {
            Err(IntErrorKind::PosOverflow)
        } else if neg && mag > -min {
            Err(IntErrorKind::NegOverflow)
        } else if k < digits.len() {
            Err(IntErrorKind::InvalidDigit)
        } else if neg {
            Ok(-mag)
        } else {
            Ok(mag as int)
        }
    }
}

proof fn lemma_digit_run_bounds(s: Seq<char>)
    ensures
        digit_run(s) <= s.len(),
        forall|i: int| 0 <= i < digit_run(s) ==> is_digit(#[trigger] s[i]),
        digit_run(s) < s.len() ==> !is_digit(s[digit_run(s) as int]),
    decreases s.len(),
{
    if s.len() > 0 && is_digit(s[0]) {
        lemma_digit_run_bounds(s.drop_first());
        assert forall|i: int| 0 <= i < digit_run(s) implies is_digit(#[trigger] s[i]) by {
            if i > 0 {
                assert(s[i] == s.drop_first()[i - 1]);
            }
        }
    }
}

proof fn lemma_digit_run_is(s: Seq<char>, k: int)
    requires
        0 <= k <= s.len(),
        forall|i: int| 0 <= i < k ==> is_digit(#[trigger] s[i]),
        k == s.len() || !is_digit(s[k]),
    ensures
        digit_run(s) == k,
    decreases s.len(),
{
    if k > 0 {
        assert(forall|i: int| 0 <= i < k - 1 ==> s.drop_first()[i] == s[i + 1]);
        lemma_digit_run_is(s.drop_first(), k - 1);
    }
}

proof fn lemma_decimal_monotone(s: Seq<char>, i: int, j: int)
    requires
        0 <= i <= j <= s.len(),
        all_digits(s.take(j)),
    ensures
        decimal_value(s.take(i)) <= decimal_value(s.take(j)),
    decreases j - i,
{
    if i < j {
        lemma_decimal_monotone(s, i, j - 1);
        assert(s.take(j).drop_last() =~= s.take(j - 1));
        assert(is_digit(s.take(j)[j - 1]));
    }
}

/// Reads the digits of `v[lo..]` into a magnitude no larger than `limit`.
/// `Ok(m)`: all of `v[lo..]` are digits and their value `m` is at most `limit`.
/// `Err(true)`: the digits before the first non-digit exceed `limit`.
/// `Err(false)`: the digits before the first non-digit are within `limit`, and
/// there is a non-digit.
fn read_magnitude(v: &Vec<char>, lo: usize, limit: u64) -> (r: Result<u64, bool>)
    requires
        lo <= v@.len(),
    ensures
        ({
            let d = v@.subrange(lo as int, v@.len() as int);
            let k = digit_run(d);
            let mag = decimal_value(d.take(k as int));
            match r {
                Ok(m) => k == d.len() && mag <= limit && m == mag,
                Err(over) => over == (mag > limit) && (!over ==> k < d.len()),
            }
        }),
{
    let ghost d = v@.subrange(lo as int, v@.len() as int);
    let mut acc: u64 = 0;
    let mut i = lo;
    while i < v.len()
        invariant
            lo <= i <= v@.len(),
            d == v@.subrange(lo as int, v@.len() as int),
            all_digits(d.take(i - lo)),
            acc == decimal_value(d.take(i - lo)),
            acc <= limit,
        decreases v@.len() - i,
    {
        let c = v[i];
        let ghost t = i - lo;
        if !('0' <= c && c <= '9') {
            proof {
                assert forall|j: int| 0 <= j < t implies is_digit(#[trigger] d[j]) by {
                    assert(d.take(t)[j] == d[j]);
                }
                lemma_digit_run_is(d, t);
            }
            return Err(false);
        }
        let dv = (c as u32 - '0' as u32) as u64;
        assert(d.take(t + 1).drop_last() =~= d.take(t));
        assert(d.take(t + 1).last() == c);
        if dv > limit {
            proof {
                assert(10 * acc + dv > limit);
                let k = digit_run(d);
                lemma_digit_run_bounds(d);
                if k < t + 1 {
                    assert(d[k as int] == d.take(t + 1)[k as int]);
                }
                assert(all_digits(d.take(k as int))) by {
                    assert forall|j: int| 0 <= j < k implies is_digit(#[trigger] d.take(k as int)[j]) by {
                        assert(d.take(k as int)[j] == d[j]);
                    }
                }
                lemma_decimal_monotone(d.take(k as int), t + 1, k as int);
                assert(d.take(k as int).take(t + 1) =~= d.take(t + 1));
                assert(d.take(k as int).take(k as int) =~= d.take(k as int));
            }
            return Err(true);
        }
        if acc > (limit - dv) / 10 {
            // the value with this digit exceeds `limit`
            proof {
                assert(10 * acc + dv > limit) by (nonlinear_arith)
                    requires
                        acc > (limit - dv) / 10,
                        dv <= limit || dv > limit,
                        dv < 10,
                ;
                let k = digit_run(d);
                lemma_digit_run_bounds(d);
                assert(all_digits(d.take(t + 1)));
                if k < t + 1 {
                    assert(d[k as int] == d.take(t + 1)[k as int]);
                }
                assert(k >= t + 1);
                assert(all_digits(d.take(k as int))) by {
                    assert forall|j: int| 0 <= j < k implies is_digit(#[trigger] d.take(k as int)[j]) by {
                        assert(d.take(k as int)[j] == d[j]);
                    }
                }
                lemma_decimal_monotone(d.take(k as int), t + 1, k as int);
                assert(d.take(k as int).take(t + 1) =~= d.take(t + 1));
                assert(d.take(k as int).take(k as int) =~= d.take(k as int));
            }
            return Err(true);
        }
        proof {
            assert(10 * acc + dv <= limit) by (nonlinear_arith)
                requires
                    acc <= (limit - dv) / 10,
                    dv <= limit,
            ;
        }
        acc = acc * 10 + dv;
        assert(all_digits(d.take(t + 1))) by {
            assert forall|j: int| 0 <= j < t + 1 implies is_digit(#[trigger] d.take(t + 1)[j]) by {
                if j < t {
                    assert(d.take(t + 1)[j] == d.take(t)[j]);
                }
            }
        }
        i = i + 1;
    }
    proof {
        let n = d.len() as int;
        assert(d.take(n) =~= d);
        lemma_digit_run_is(d, n);
    }
    Ok(acc)
}

/// `str::parse::<i64>`.
pub fn parse_i64(s: &str) -> (r: Result<i64, IntErrorKind>)
    ensures
        match parse_integer(s@, true, i64::MIN as int, i64::MAX as int) {
            Ok(n) => r == Ok::<i64, IntErrorKind>(n as i64),
            Err(e) => r == Err::<i64, IntErrorKind>(e),
        },
{
    let v = chars_of(s);
    if v.len() == 0 {
        return Err(IntErrorKind::Empty);
    }
    if (v[0] == '+' || v[0] == '-') && v.len() == 1 {
        return Err(IntErrorKind::InvalidDigit);
    }
    let neg = v[0] == '-';
    let lo: usize = if v[0] == '+' || neg {
        1
    } else {
        0
    };
    let ghost digits = if s@[0] == '+' || neg {
        s@.drop_first()
    } else {
        s@
    };
    assert(digits =~= v@.subrange(lo as int, v@.len() as int));
    let limit: u64 = if neg {
        0x8000_0000_0000_0000
    } else {
        0x7fff_ffff_ffff_ffff
    };
    match read_magnitude(&v, lo, limit) {
        Ok(m) => {
            if neg {
                if m == 0x8000_0000_0000_0000 {
                    Ok(i64::MIN)
                } else {
                    Ok(-(m as i64))
                }
            } else {
                Ok(m as i64)
            }
        },
        Err(over) => {
            if over {
                if neg {
                    Err(IntErrorKind::NegOverflow)
                } else {
                    Err(IntErrorKind::PosOverflow)
                }
            } else {
                Err(IntErrorKind::InvalidDigit)
            }
        },
    }
}

/// `str::parse::<u16>`.
pub fn parse_u16(s: &str) -> (r: Result<u16, IntErrorKind>)
    ensures
        match parse_integer(s@, false, 0, u16::MAX as int) {
            Ok(n) => r == Ok::<u16, IntErrorKind>(n as u16),
            Err(e) => r == Err::<u16, IntErrorKind>(e),
        },
{
    let v = chars_of(s);
    if v.len() == 0 {
        return Err(IntErrorKind::Empty);
    }
    if (v[0] == '+' || v[0] == '-') && v.len() == 1 {
        return Err(IntErrorKind::InvalidDigit);
    }
    let lo: usize = if v[0] == '+' {
        1
    } else {
        0
    };
    let ghost digits = if s@[0] == '+' {
        s@.drop_first()
    } else {
        s@
    };
    assert(digits =~= v@.subrange(lo as int, v@.len() as int));
    match read_magnitude(&v, lo, 0xffff) {
        Ok(m) => Ok(m as u16),
        Err(over) => {
            if over {
                Err(IntErrorKind::PosOverflow)
            } else {
                Err(IntErrorKind::InvalidDigit)
            }
        },
    }
}

/// Appends the decimal digits of `n`.
pub fn push_decimal(out: &mut String, n: u64)
    ensures
        final(out)@ == old(out)@ + decimal_digits(n as nat),
    decreases n,
{
    if n >= 10 {
        push_decimal(out, n / 10);
    }
    let d = (n % 10) as u8;
    let c = (48u8 + d) as char;
    push_char(out, c);
    proof {
        if n >= 10 {
            assert(decimal_digits(n as nat) == decimal_digits((n / 10) as nat).push(
                digit_char((n % 10) as int),
            ));
        }
    }
    assert(out@ =~= old(out)@ + decimal_digits(n as nat));
}

/// The text of `n` in decimal (what `i64`'s `Display` writes).
pub fn i64_text(n: i64) -> (r: String)
    ensures
        r@ == int_text(n as int),
{
    let mut out = String::new();
    if n < 0 {
        push_char(&mut out, '-');
        let m: u64 = if n == i64::MIN {
            0x8000_0000_0000_0000
        } else {
            (-n) as u64
        };
        push_decimal(&mut out, m);
        assert(out@ =~= seq!['-'].add(decimal_digits((-n) as nat)));
    } else {
        push_decimal(&mut out, n as u64);
        assert(out@ =~= decimal_digits(n as nat));
    }
    out
}

// ----------------------------------------------------------------------------
// Pieces of a character vector
// ----------------------------------------------------------------------------

/// Where the last piece of `split(s, sep)` starts: just after the last `sep`,
/// or at 0.
pub open spec fn last_piece_start(s: Seq<char>, sep: char) -> int
    decreases s.len(),
{
    if s.len() == 0 {
        0
    } else if s.last() == sep {
        s.len() as int
    } else {
        last_piece_start(s.drop_last(), sep)
    }
}

/// The last piece of `split(s, sep)` (what `str::rsplit(sep).next()` gives) is
/// what follows the last `sep`.
pub proof fn lemma_split_last(s: Seq<char>, sep: char)
    ensures
        0 <= last_piece_start(s, sep) <= s.len(),
        split(s, sep).len() >= 1,
        split(s, sep).last() == s.skip(last_piece_start(s, sep)),
    decreases s.len(),
{
    if s.len() > 0 {
        lemma_split_last(s.drop_last(), sep);
        let k = last_piece_start(s.drop_last(), sep);
        if s.last() == sep {
            assert(s.skip(s.len() as int) =~= Seq::<char>::empty());
        } else {
            assert(s.skip(k) =~= s.drop_last().skip(k).push(s.last()));
        }
    } else {
        assert(s.skip(0) =~= Seq::<char>::empty());
    }
}

/// Where the last piece of `v` split at `sep` starts.
pub fn last_piece_index(v: &Vec<char>, sep: char) -> (r: usize)
    ensures
        r == last_piece_start(v@, sep),
        r <= v@.len(),
{
    let mut j = v.len();
    assert(v@.take(j as int) =~= v@);
    while j > 0 && v[j - 1] != sep
        invariant
            j <= v@.len(),
            last_piece_start(v@, sep) == last_piece_start(v@.take(j as int), sep),
        decreases j,
    {
        assert(v@.take(j as int).drop_last() =~= v@.take(j - 1));
        j = j - 1;
    }
    proof {
        lemma_split_last(v@.take(j as int), sep);
    }
    j
}

/// `v[lo..hi]` lower-cases to the keyword `kw`.
pub fn lowers_to_keyword(v: &Vec<char>, lo: usize, hi: usize, kw: &Vec<char>) -> (r: bool)
    requires
        lo <= hi <= v@.len(),
    ensures
        r == lower_equals(v@.subrange(lo as int, hi as int), kw@),
{
    if hi - lo != kw.len() {
        return false;
    }
    let mut i: usize = 0;
    while i < kw.len()
        invariant
            lo <= hi <= v@.len(),
            hi - lo == kw@.len(),
            i <= kw@.len(),
            forall|j: int| 0 <= j < i ==> lowers_to(#[trigger] v@[lo + j], kw@[j]),
        decreases kw@.len() - i,
    {
        if !char_lowers_to(v[lo + i], kw[i]) {
            assert(v@.subrange(lo as int, hi as int)[i as int] == v@[lo + i]);
            return false;
        }
        i = i + 1;
    }
    assert forall|j: int| 0 <= j < v@.subrange(lo as int, hi as int).len() implies lowers_to(
        #[trigger] v@.subrange(lo as int, hi as int)[j],
        kw@[j],
    ) by {
        assert(v@.subrange(lo as int, hi as int)[j] == v@[lo + j]);
    }
    true
}

/// The pieces of `v[lo..hi]` split at every `sep`.
pub fn split_range(v: &Vec<char>, lo: usize, hi: usize, sep: char) -> (r: Vec<String>)
    requires
        lo <= hi <= v@.len(),
    ensures
        views(r@) == split(v@.subrange(lo as int, hi as int), sep),
{
    let s = string_from(v, lo, hi);
    split_text(s.as_str(), sep)
}


/// The views of a vector of string slices.
pub open spec fn ref_views(v: Seq<&str>) -> Seq<Seq<char>> {
    v.map_values(|x: &str| x@)
}

/// Slices of the strings, in order.
pub fn str_refs(values: &Vec<String>) -> (r: Vec<&str>)
    ensures
        ref_views(r@) == views(values@),
{
    let mut out: Vec<&str> = Vec::new();
    let mut i: usize = 0;
    while i < values.len()
        invariant
            i <= values@.len(),
            ref_views(out@) == views(values@.take(i as int)),
        decreases values@.len() - i,
    {
        let ghost before = ref_views(out@);
        let r = values[i].as_str();
        out.push(r);
        assert(ref_views(out@) =~= before.push(r@));
        assert(views(values@.take(i + 1)) =~= views(values@.take(i as int)).push(values@[i as int]@));
        assert(ref_views(out@) =~= views(values@.take(i + 1)));
        i = i + 1;
    }
    assert(values@.take(i as int) =~= values@);
    out
}

// ----------------------------------------------------------------------------
// Laws of decimal text
// ----------------------------------------------------------------------------

pub proof fn lemma_decimal_digits(n: nat)
    ensures
        decimal_digits(n).len() >= 1,
        all_digits(decimal_digits(n)),
        decimal_value(decimal_digits(n)) == n,
    decreases n,
{
    if n < 10 {
        let c = digit_char(n as int);
        assert(c as int == n + 48);
        assert(decimal_digits(n) == seq![c]);
        assert(seq![c].drop_last() =~= Seq::<char>::empty());
        assert(decimal_value(Seq::<char>::empty()) == 0);
        assert(decimal_value(seq![c]) == 10 * decimal_value(seq![c].drop_last()) + digit_value(c));
    } else {
        lemma_decimal_digits(n / 10);
        let c = digit_char((n % 10) as int);
        assert(c as int == n % 10 + 48);
        let d = decimal_digits(n);
        assert(d.drop_last() =~= decimal_digits(n / 10));
        assert(d.last() == c);
        assert(digit_value(c) == n % 10);
        assert(10 * (n / 10) + n % 10 == n);
        assert(decimal_value(d) == 10 * decimal_value(d.drop_last()) + digit_value(d.last()));
        assert(all_digits(d)) by {
            assert forall|i: int| 0 <= i < d.len() implies is_digit(#[trigger] d[i]) by {
                if i < d.len() - 1 {
                    assert(d[i] == decimal_digits(n / 10)[i]);
                }
            }
        }
    }
}

proof fn lemma_digit_run_all(s: Seq<char>)
    requires
        all_digits(s),
    ensures
        digit_run(s) == s.len(),
{
    lemma_digit_run_is(s, s.len() as int);
}

/// Reading back the decimal text of an integer gives the integer: for any `n`
/// in `min..=max` (negative only for a signed type), `str::parse` of the text
/// that `Display` writes for `n` is `n`.
pub proof fn law_integer_text_round_trip(n: int, signed: bool, min: int, max: int)
    requires
        min <= n <= max,
        n < 0 ==> signed,
    ensures
        parse_integer(int_text(n), signed, min, max) == Ok::<int, IntErrorKind>(n),
{
    if n >= 0 {
        let s = decimal_digits(n as nat);
        lemma_decimal_digits(n as nat);
        lemma_digit_run_all(s);
        assert(is_digit(s[0]));
        assert(s.take(s.len() as int) =~= s);
    } else {
        let d = decimal_digits((-n) as nat);
        let s = seq!['-'].add(d);
        lemma_decimal_digits((-n) as nat);
        lemma_digit_run_all(d);
        assert(s.drop_first() =~= d);
        assert(d.take(d.len() as int) =~= d);
    }
}

// ----------------------------------------------------------------------------
// Lemmas for the laws of the commands
// ----------------------------------------------------------------------------

/// The first occurrence of `pat` from `i` is at `j` when it occurs at `j` and
/// nowhere in between.
pub proof fn lemma_find_from_first(s: Seq<char>, pat: Seq<char>, i: int, j: int)
    requires
        0 <= i <= j,
        occurs_at(s, pat, j),
        forall|k: int| i <= k < j ==> !occurs_at(s, pat, k),
    ensures
        find_from(s, pat, i) == Some(j),
    decreases j - i,
{
    if i < j {
        lemma_find_from_first(s, pat, i + 1, j);
    }
}

/// The first index of `c` from `i` is `j` when `s[j]` is `c` and no earlier one is.
pub proof fn lemma_index_of_from_first(s: Seq<char>, c: char, i: int, j: int)
    requires
        0 <= i <= j < s.len(),
        s[j] == c,
        forall|k: int| i <= k < j ==> s[k] != c,
    ensures
        index_of_from(s, c, i) == Some(j),
    decreases j - i,
{
    if i < j {
        lemma_index_of_from_first(s, c, i + 1, j);
    }
}

/// After a separator, the last piece is everything that follows when no further
/// separator comes.
pub proof fn lemma_last_piece_after(x: Seq<char>, d: Seq<char>, sep: char)
    requires
        x.len() > 0,
        x.last() == sep,
        forall|k: int| 0 <= k < d.len() ==> d[k] != sep,
    ensures
        last_piece_start(x + d, sep) == x.len(),
    decreases d.len(),
{
    if d.len() == 0 {
        assert(x + d =~= x);
    } else {
        assert((x + d).drop_last() =~= x + d.drop_last());
        lemma_last_piece_after(x, d.drop_last(), sep);
    }
}

/// Text that neither starts nor ends with whitespace is its own trim.
pub proof fn lemma_trim_fixed(s: Seq<char>)
    requires
        s.len() > 0,
        !is_whitespace(s[0]),
        !is_whitespace(s.last()),
    ensures
        trim_start(s) == s,
        trim(s) == s,
{
}

} // verus!
