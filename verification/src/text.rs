//! Character-level text handling: trimming, substitution, searching, and the
//! decimal form of integers, each with its meaning as a function on sequences.
use vstd::prelude::*;

verus! {

/// Text as a contract sees it: the sequence of its characters.
pub type Text = Seq<char>;

/// The characters of the Unicode property `White_Space`.
pub open spec fn is_space(c: char) -> bool {
    ||| '\u{9}' <= c <= '\u{d}'
    ||| c == ' '
    ||| c == '\u{85}'
    ||| c == '\u{a0}'
    ||| c == '\u{1680}'
    ||| '\u{2000}' <= c <= '\u{200a}'
    ||| c == '\u{2028}'
    ||| c == '\u{2029}'
    ||| c == '\u{202f}'
    ||| c == '\u{205f}'
    ||| c == '\u{3000}'
}

/// Every character of `s` is white space.
pub open spec fn all_space(s: Text) -> bool {
    forall|i: int| 0 <= i < s.len() ==> is_space(#[trigger] s[i])
}

/// `s` is `core` with white space before and after it.
pub open spec fn padded(s: Text, before: Text, core: Text, after: Text) -> bool {
    all_space(before) && all_space(after) && s == before + core + after
}

/// `s` without its leading white space.
pub open spec fn trim_start(s: Text) -> Text
    decreases s.len(),
{
    if s.len() > 0 && is_space(s[0]) {
        trim_start(s.skip(1))
    } else {
        s
    }
}

/// `s` without its trailing white space.
pub open spec fn trim_end(s: Text) -> Text
    decreases s.len(),
{
    if s.len() > 0 && is_space(s.last()) {
        trim_end(s.drop_last())
    } else {
        s
    }
}

/// `s` without white space at either end.
pub open spec fn trimmed(s: Text) -> Text {
    trim_end(trim_start(s))
}

/// `s` with every occurrence of `pat`, found from left to right without
/// overlaps, replaced by `to`.
pub open spec fn replaced(s: Text, pat: Text, to: Text) -> Text
    recommends
        pat.len() > 0,
    decreases s.len(),
{
    if pat.len() == 0 || s.len() < pat.len() {
        s
    } else if s.take(pat.len() as int) == pat {
        to + replaced(s.skip(pat.len() as int), pat, to)
    } else {
        s.take(1) + replaced(s.skip(1), pat, to)
    }
}

/// Whether `pat` stands in `s` at some place.
pub open spec fn occurs(s: Text, pat: Text) -> bool {
    exists|i: int| 0 <= i && i + pat.len() <= s.len() && #[trigger] s.subrange(i, i + pat.len()) == pat
}

/// The place of the first `c` in `s`; the length of `s` if there is none.
pub open spec fn first_index(s: Text, c: char) -> int
    decreases s.len(),
{
    if s.len() == 0 || s[0] == c {
        0
    } else {
        1 + first_index(s.skip(1), c)
    }
}

/// `pat` stands in `s` at place `i`.
pub open spec fn stands_at(s: Text, i: int, pat: Text) -> bool {
    0 <= i && i + pat.len() <= s.len() && s.subrange(i, i + pat.len()) == pat
}

/// The decimal digit of value `d`.
pub open spec fn digit(d: int) -> char
    recommends
        0 <= d < 10,
{
    "0123456789"@[d]
}

/// The decimal form of a natural number.
pub open spec fn decimal(n: nat) -> Text
    decreases n,
{
    if n < 10 {
        seq![digit(n as int)]
    } else {
        decimal(n / 10).push(digit((n % 10) as int))
    }
}

/// The decimal form of an integer.
pub open spec fn shown(n: int) -> Text {
    if n < 0 {
        "-"@ + decimal((-n) as nat)
    } else {
        decimal(n as nat)
    }
}

/// `true` and `false` in words.
pub open spec fn shown_bool(b: bool) -> Text {
    if b {
        "true"@
    } else {
        "false"@
    }
}

pub open spec fn is_digit(c: char) -> bool {
    '0' <= c <= '9'
}

/// Every character of `s` is a decimal digit.
pub open spec fn all_digits(s: Text) -> bool {
    forall|i: int| 0 <= i < s.len() ==> is_digit(#[trigger] s[i])
}

/// The number that a sequence of digits denotes.
pub open spec fn digits_value(s: Text) -> nat
    decreases s.len(),
{
    if s.len() == 0 {
        0
    } else {
        (10 * digits_value(s.drop_last()) + (s.last() as int - '0' as int)) as nat
    }
}

/// The digits of a number in text form: what follows an optional sign.
pub open spec fn unsigned_part(s: Text) -> Text {
    if s.len() > 0 && (s[0] == '-' || s[0] == '+') {
        s.skip(1)
    } else {
        s
    }
}

/// The integer that `s` denotes: an optional sign, then at least one digit,
/// and nothing else.
pub open spec fn parsed(s: Text) -> Option<int> {
    let body = unsigned_part(s);
    if body.len() == 0 || !all_digits(body) {
        None
    } else if s[0] == '-' {
        Some(-(digits_value(body) as int))
    } else {
        Some(digits_value(body) as int)
    }
}

/// The integer that `s` denotes, if it lies between `lo` and `hi`.
pub open spec fn parsed_within(s: Text, lo: int, hi: int) -> Option<int> {
    match parsed(s) {
        Some(v) => if lo <= v <= hi {
            Some(v)
        } else {
            None
        },
        None => None,
    }
}

/// Equality of two texts.
pub fn same(a: &str, b: &str) -> (r: bool)
    ensures
        r == (a@ == b@),
{
    a.to_owned() == b.to_owned()
}

/// The characters of `s`, in order.
pub fn chars_of(s: &str) -> (v: Vec<char>)
    ensures
        v@ == s@,
{
    let mut v: Vec<char> = Vec::new();
    for c in it: s.chars()
        invariant
            it.seq() == s@,
            v@ == s@.take(it.index() as int),
    {
        v.push(c);
    }
    v
}

/// Whether `c` is white space.
pub fn white_space(c: char) -> (r: bool)
    ensures
        r == is_space(c),
{
    ('\u{9}' <= c && c <= '\u{d}') || c == ' ' || c == '\u{85}' || c == '\u{a0}' || c == '\u{1680}'
        || ('\u{2000}' <= c && c <= '\u{200a}') || c == '\u{2028}' || c == '\u{2029}' || c
        == '\u{202f}' || c == '\u{205f}' || c == '\u{3000}'
}

/// `s` without white space at either end.
pub fn trim(s: &str) -> (r: String)
    ensures
        r@ == trimmed(s@),
{
    let v = chars_of(s);
    let n: usize = v.len();
    let mut i: usize = 0;
    assert(s@.skip(0) == s@);
    while i < n && white_space(v[i])
        invariant
            n == v.len(),
            v@ == s@,
            i <= n,
            trim_start(s@) == trim_start(s@.skip(i as int)),
        decreases n - i,
    {
        assert(s@.skip(i as int).skip(1) == s@.skip(i + 1));
        i = i + 1;
    }
    let ghost rest = s@.skip(i as int);
    let mut j: usize = n;
    assert(s@.subrange(i as int, n as int) == rest);
    while j > i && white_space(v[j - 1])
        invariant
            n == v.len(),
            v@ == s@,
            i <= j <= n,
            trim_end(rest) == trim_end(s@.subrange(i as int, j as int)),
        decreases j,
    {
        assert(s@.subrange(i as int, j as int).drop_last() == s@.subrange(i as int, j - 1));
        j = j - 1;
    }
    s.substring_char(i, j).to_owned()
}

/// `s` with every occurrence of `pat` replaced by `to`.
pub fn replace(s: &str, pat: &str, to: &str) -> (r: String)
    requires
        pat@.len() > 0,
    ensures
        r@ == replaced(s@, pat@, to@),
{
    let v = chars_of(s);
    let p = chars_of(pat);
    let n: usize = v.len();
    let m: usize = p.len();
    let mut out = String::new();
    let mut kept: usize = 0;
    let mut i: usize = 0;
    assert(s@.skip(0) == s@);
    assert(out@ + s@.subrange(0, 0) + replaced(s@, pat@, to@) == replaced(s@, pat@, to@));
    while n - i >= m
        invariant
            n == v.len(),
            m == p.len(),
            m > 0,
            v@ == s@,
            p@ == pat@,
            kept <= i <= n,
            replaced(s@, pat@, to@) == out@ + s@.subrange(kept as int, i as int) + replaced(
                s@.skip(i as int),
                pat@,
                to@,
            ),
        decreases n - i,
    {
        let ghost here = s@.skip(i as int);
        let mut k: usize = 0;
        while k < m && v[i + k] == p[k]
            invariant
                n == v.len(),
                m == p.len(),
                v@ == s@,
                p@ == pat@,
                i + m <= n,
                k <= m,
                forall|j: int| 0 <= j < k ==> #[trigger] s@[i + j] == pat@[j],
            decreases m - k,
        {
            k = k + 1;
        }
        if k == m {
            assert(here.take(m as int) =~= pat@) by {
                assert forall|j: int| 0 <= j < m implies here.take(m as int)[j] == pat@[j] by {
                    assert(s@[i + j] == pat@[j]);
                }
            }
            assert(here.skip(m as int) == s@.skip(i + m));
            out.append(s.substring_char(kept, i));
            out.append(to);
            i = i + m;
            kept = i;
            assert(s@.subrange(kept as int, i as int) == Seq::<char>::empty());
            assert(replaced(s@, pat@, to@) =~= out@ + s@.subrange(kept as int, i as int)
                + replaced(s@.skip(i as int), pat@, to@));
        } else {
            assert(here.take(m as int)[k as int] != pat@[k as int]);
            assert(here.skip(1) == s@.skip(i + 1));
            assert(s@.subrange(kept as int, i as int) + here.take(1) == s@.subrange(
                kept as int,
                i + 1,
            ));
            i = i + 1;
            assert(replaced(s@, pat@, to@) =~= out@ + s@.subrange(kept as int, i as int)
                + replaced(s@.skip(i as int), pat@, to@));
        }
    }
    assert(s@.subrange(kept as int, i as int) + s@.skip(i as int) == s@.subrange(
        kept as int,
        n as int,
    ));
    out.append(s.substring_char(kept, n));
    assert(replaced(s@, pat@, to@) =~= out@);
    out
}

/// The place of the first `c` in `s`; the length of `s` if there is none.
pub fn find_char(s: &str, c: char) -> (r: usize)
    ensures
        r == first_index(s@, c),
        r <= s@.len(),
{
    let v = chars_of(s);
    let n: usize = v.len();
    let mut i: usize = 0;
    assert(s@.skip(0) == s@);
    while i < n && v[i] != c
        invariant
            n == v.len(),
            v@ == s@,
            i <= n,
            first_index(s@, c) == i + first_index(s@.skip(i as int), c),
        decreases n - i,
    {
        assert(s@.skip(i as int).skip(1) == s@.skip(i + 1));
        i = i + 1;
    }
    i
}

/// The decimal form of `n`.
pub fn show_u64(n: u64) -> (r: String)
    ensures
        r@ == decimal(n as nat),
    decreases n,
{
    proof {
        reveal_strlit("0123456789");
    }
    let d: usize = (n % 10) as usize;
    let last = "0123456789".substring_char(d, d + 1);
    assert(last@ == seq![digit(d as int)]);
    if n < 10 {
        last.to_owned()
    } else {
        let mut s = show_u64(n / 10);
        assert(s@ + seq![digit(d as int)] == s@.push(digit(d as int)));
        s.append(last);
        s
    }
}

/// The decimal form of `n`.
pub fn show_i64(n: i64) -> (r: String)
    ensures
        r@ == shown(n as int),
{
    if n < 0 {
        let magnitude: u64 = (-(n + 1)) as u64 + 1;
        let mut s = "-".to_owned();
        s.append(show_u64(magnitude).as_str());
        s
    } else {
        show_u64(n as u64)
    }
}

/// `true` or `false` in words.
pub fn show_bool(b: bool) -> (r: &'static str)
    ensures
        r@ == shown_bool(b),
{
    if b {
        "true"
    } else {
        "false"
    }
}

/// Three texts in a row.
pub fn join3(a: &str, b: &str, c: &str) -> (r: String)
    ensures
        r@ == a@ + b@ + c@,
{
    let mut s = a.to_owned();
    s.append(b);
    s.append(c);
    s
}

/// Five texts in a row.
pub fn join5(a: &str, b: &str, c: &str, d: &str, e: &str) -> (r: String)
    ensures
        r@ == a@ + b@ + c@ + d@ + e@,
{
    let mut s = join3(a, b, c);
    s.append(d);
    s.append(e);
    s
}

/// The lower-case form of a text.
pub uninterp spec fn lowered(s: Text) -> Text;

/// The lower-case form of an ASCII character.
pub open spec fn ascii_lower(c: char) -> char {
    if 'A' <= c <= 'Z' {
        ((c as int) + 32) as char
    } else {
        c
    }
}

/// The lower-case form of ASCII text.
pub open spec fn ascii_lowered(s: Text) -> Text {
    Seq::new(s.len(), |i: int| ascii_lower(s[i]))
}

/// The lower-case form of `s`, from `str::to_lowercase`. It is a function of
/// `s` alone, given by Unicode's tables, which are not repeated here; on ASCII
/// it changes the letters A to Z and nothing else.
#[verifier::external_body]
pub(crate) fn to_lowercase(s: &str) -> (r: String)
    ensures
        r@ == lowered(s@),
        vstd::utf8::is_ascii_chars(s@) ==> r@ == ascii_lowered(s@),
{
    s.to_lowercase()
}

/// More digits never make a smaller number.
proof fn lemma_digits_value_grows(s: Text, i: int)
    requires
        0 <= i <= s.len(),
        all_digits(s),
    ensures
        digits_value(s.take(i)) <= digits_value(s),
    decreases s.len() - i,
{
    if i < s.len() {
        lemma_digits_value_grows(s, i + 1);
        assert(s.take(i + 1).drop_last() == s.take(i));
        assert(is_digit(s[i]));
    } else {
        assert(s.take(i) == s);
    }
}

/// The integer that `s` denotes, if an `i64` can hold it.
pub fn parse_i64(s: &str) -> (r: Option<i64>)
    ensures
        match r {
            Some(v) => parsed_within(s@, i64::MIN as int, i64::MAX as int) == Some(v as int),
            None => parsed_within(s@, i64::MIN as int, i64::MAX as int) is None,
        },
{
    let v = chars_of(s);
    let n: usize = v.len();
    let negative = n > 0 && v[0] == '-';
    let start: usize = if n > 0 && (v[0] == '-' || v[0] == '+') {
        1
    } else {
        0
    };
    let ghost body = unsigned_part(s@);
    assert(body == s@.skip(start as int)) by {
        assert(s@.skip(0) == s@);
    }
    if start == n {
        return None;
    }
    let mut value: u128 = 0;
    let mut i: usize = start;
    assert(body.take(0) == Seq::<char>::empty());
    while i < n
        invariant
            n == v.len(),
            v@ == s@,
            start <= i <= n,
            start <= 1,
            body == s@.skip(start as int),
            body == unsigned_part(s@),
            all_digits(body.take(i - start)),
            value == digits_value(body.take(i - start)),
            value <= 0x1_0000_0000_0000_0000,
        decreases n - i,
    {
        let c = v[i];
        let ghost k = i - start;
        assert(body[k] == c);
        if !('0' <= c && c <= '9') {
            assert(!is_digit(body[k]));
            return None;
        }
        value = value * 10 + (c as u128 - '0' as u128);
        i = i + 1;
        assert(body.take(k + 1).drop_last() == body.take(k));
        assert forall|j: int| 0 <= j < k + 1 implies is_digit(#[trigger] body.take(k + 1)[j]) by {
            if j < k {
                assert(body.take(k)[j] == body.take(k + 1)[j]);
            }
        }
        if value > 0x1_0000_0000_0000_0000 {
            proof {
                if all_digits(body) {
                    lemma_digits_value_grows(body, k + 1);
                }
            }
            return None;
        }
    }
    assert(body.take(n - start) == body);
    if negative {
        if value <= 0x8000_0000_0000_0000 {
            Some((-(value as i128)) as i64)
        } else {
            None
        }
    } else if value <= 0x7fff_ffff_ffff_ffff {
        Some(value as i64)
    } else {
        None
    }
}

/// The integer that `s` denotes, if an `i32` can hold it.
pub fn parse_i32(s: &str) -> (r: Option<i32>)
    ensures
        match r {
            Some(v) => parsed_within(s@, i32::MIN as int, i32::MAX as int) == Some(v as int),
            None => parsed_within(s@, i32::MIN as int, i32::MAX as int) is None,
        },
{
    match parse_i64(s) {
        Some(v) => if i32::MIN as i64 <= v && v <= i32::MAX as i64 {
            Some(v as i32)
        } else {
            None
        },
        None => None,
    }
}

proof fn lemma_trim_start_result(s: Text)
    ensures
        trim_start(s).len() > 0 ==> !is_space(trim_start(s)[0]),
    decreases s.len(),
{
    if s.len() > 0 && is_space(s[0]) {
        lemma_trim_start_result(s.skip(1));
    }
}

proof fn lemma_trim_end_result(s: Text)
    ensures
        trim_end(s).len() <= s.len(),
        trim_end(s) == s.take(trim_end(s).len() as int),
        trim_end(s).len() > 0 ==> !is_space(trim_end(s).last()),
    decreases s.len(),
{
    if s.len() > 0 && is_space(s.last()) {
        lemma_trim_end_result(s.drop_last());
        let n = trim_end(s).len() as int;
        assert(s.drop_last().take(n) =~= s.take(n));
    } else {
        assert(s.take(s.len() as int) =~= s);
    }
}

/// What is left after trimming neither starts nor ends with white space, so
/// trimming it again changes nothing.
pub proof fn law_trim_is_final(s: Text)
    ensures
        trimmed(s).len() > 0 ==> !is_space(trimmed(s)[0]) && !is_space(trimmed(s).last()),
        trimmed(trimmed(s)) == trimmed(s),
{
    lemma_trim_start_result(s);
    lemma_trim_end_result(trim_start(s));
}

proof fn lemma_trim_start_takes_space(s: Text)
    ensures
        trim_start(s).len() <= s.len(),
        all_space(s.take(s.len() - trim_start(s).len())),
        s == s.take(s.len() - trim_start(s).len()) + trim_start(s),
    decreases s.len(),
{
    if s.len() > 0 && is_space(s[0]) {
        let rest = s.skip(1);
        lemma_trim_start_takes_space(rest);
        let n = s.len() - trim_start(s).len();
        assert forall|i: int| 0 <= i < n implies is_space(#[trigger] s.take(n)[i]) by {
            if i > 0 {
                assert(rest.take(n - 1)[i - 1] == s[i]);
            }
        }
        assert(s =~= s.take(1) + rest);
        assert(s.take(n) =~= s.take(1) + rest.take(n - 1));
        assert(s =~= s.take(n) + trim_start(s));
    } else {
        assert(s =~= s.take(0) + s);
    }
}

proof fn lemma_trim_end_takes_space(s: Text)
    ensures
        trim_end(s).len() <= s.len(),
        all_space(s.skip(trim_end(s).len() as int)),
        s == trim_end(s) + s.skip(trim_end(s).len() as int),
    decreases s.len(),
{
    if s.len() > 0 && is_space(s.last()) {
        let rest = s.drop_last();
        lemma_trim_end_takes_space(rest);
        let n = trim_end(s).len() as int;
        assert forall|i: int| 0 <= i < s.len() - n implies is_space(#[trigger] s.skip(n)[i]) by {
            if i < s.len() - n - 1 {
                assert(rest.skip(n)[i] == s[n + i]);
            }
        }
        assert(s =~= rest.push(s.last()));
        assert(s.skip(n) =~= rest.skip(n).push(s.last()));
        assert(s =~= trim_end(s) + s.skip(n));
    } else {
        assert(s =~= s + s.skip(s.len() as int));
    }
}

/// Trimming takes white space away and nothing else: a text is white space, what
/// trimming leaves, and white space.
pub proof fn law_trim_takes_space_alone(s: Text)
    ensures
        exists|before: Text, after: Text| #[trigger] padded(s, before, trimmed(s), after),
{
    lemma_trim_start_takes_space(s);
    lemma_trim_end_takes_space(trim_start(s));
    let before = s.take(s.len() - trim_start(s).len());
    let after = trim_start(s).skip(trimmed(s).len() as int);
    assert(s =~= before + trimmed(s) + after);
    assert(padded(s, before, trimmed(s), after));
}

proof fn lemma_decimal(n: nat)
    ensures
        decimal(n).len() > 0,
        all_digits(decimal(n)),
        digits_value(decimal(n)) == n,
    decreases n,
{
    reveal_strlit("0123456789");
    let last = (n % 10) as int;
    assert(digit(last) as int == '0' as int + last);
    if n < 10 {
        assert(decimal(n).drop_last() =~= Seq::<char>::empty());
        assert(digits_value(Seq::<char>::empty()) == 0);
    } else {
        lemma_decimal(n / 10);
        assert(decimal(n).drop_last() =~= decimal(n / 10));
        assert(digits_value(decimal(n)) == 10 * (n / 10) + last);
        assert forall|i: int| 0 <= i < decimal(n).len() implies is_digit(#[trigger] decimal(n)[i]) by {
            if i < decimal(n / 10).len() {
                assert(decimal(n)[i] == decimal(n / 10)[i]);
            }
        }
    }
}

/// Reading an integer gives back what was shown.
pub proof fn law_shown_integer_is_read_back(n: int)
    ensures
        parsed(shown(n)) == Some(n),
{
    reveal_strlit("-");
    if n < 0 {
        lemma_decimal((-n) as nat);
        assert(unsigned_part(shown(n)) =~= decimal((-n) as nat));
    } else {
        lemma_decimal(n as nat);
        assert(is_digit(decimal(n as nat)[0]));
    }
}

/// A placeholder that does not occur changes nothing.
pub proof fn law_replace_without_occurrence(s: Text, pat: Text, to: Text)
    requires
        pat.len() > 0,
        !occurs(s, pat),
    ensures
        replaced(s, pat, to) == s,
    decreases s.len(),
{
    if s.len() >= pat.len() {
        let rest = s.skip(1);
        assert(s.take(pat.len() as int) =~= s.subrange(0, 0int + pat.len()));
        if occurs(rest, pat) {
            let i = choose|i: int|
                0 <= i && i + pat.len() <= rest.len() && #[trigger] rest.subrange(i, i + pat.len())
                    == pat;
            assert(s.subrange(i + 1, (i + 1) + pat.len()) =~= rest.subrange(i, i + pat.len()));
        }
        law_replace_without_occurrence(rest, pat, to);
        assert(s.take(1) + rest =~= s);
    }
}

/// White space is the characters of these code points, and no others.
pub proof fn law_white_space(c: char)
    ensures
        is_space(c) <==> ({
            let n = c as int;
            ||| 9 <= n <= 13
            ||| n == 32
            ||| n == 0x85
            ||| n == 0xa0
            ||| n == 0x1680
            ||| 0x2000 <= n <= 0x200a
            ||| n == 0x2028
            ||| n == 0x2029
            ||| n == 0x202f
            ||| n == 0x205f
            ||| n == 0x3000
        }),
{
}

/// The first place of a character holds it, and no place before does; a text
/// without the character has it nowhere.
pub proof fn law_first_index(s: Text, c: char)
    ensures
        0 <= first_index(s, c) <= s.len(),
        first_index(s, c) < s.len() ==> s[first_index(s, c)] == c,
        forall|i: int| 0 <= i < first_index(s, c) ==> #[trigger] s[i] != c,
        s.contains(c) <==> first_index(s, c) < s.len(),
    decreases s.len(),
{
    if s.len() > 0 && s[0] != c {
        let rest = s.skip(1);
        law_first_index(rest, c);
        let n = first_index(rest, c);
        assert forall|i: int| 0 <= i < n + 1 implies #[trigger] s[i] != c by {
            if i > 0 {
                assert(rest[i - 1] == s[i]);
            }
        }
        if n < rest.len() {
            assert(s[n + 1] == rest[n]);
        } else {
            assert forall|i: int| 0 <= i < s.len() implies s[i] != c by {}
        }
    }
}

/// Text in which a placeholder stands nowhere is kept, whatever follows it.
pub proof fn lemma_replace_keeps(a: Text, s: Text, pat: Text, to: Text)
    requires
        pat.len() > 0,
        forall|i: int| 0 <= i < a.len() ==> !#[trigger] stands_at(a + s, i, pat),
    ensures
        replaced(a + s, pat, to) == a + replaced(s, pat, to),
    decreases a.len(),
{
    let t = a + s;
    if a.len() == 0 {
        assert(t =~= s);
        assert(a + replaced(s, pat, to) =~= replaced(s, pat, to));
    } else if t.len() < pat.len() {
        assert(replaced(s, pat, to) == s);
    } else {
        let rest = a.skip(1);
        assert(t.skip(1) =~= rest + s);
        assert forall|i: int| 0 <= i < rest.len() implies !#[trigger] stands_at(rest + s, i, pat) by {
            if stands_at(rest + s, i, pat) {
                assert(t.subrange(i + 1, i + 1 + pat.len()) =~= (rest + s).subrange(
                    i,
                    i + pat.len(),
                ));
                assert(stands_at(t, i + 1, pat));
            }
        }
        lemma_replace_keeps(rest, s, pat, to);
        assert(!stands_at(t, 0, pat));
        assert(t.take(pat.len() as int) =~= t.subrange(0, pat.len() as int));
        assert(t.take(1) + rest =~= a);
        assert(t.take(1) + (rest + replaced(s, pat, to)) =~= a + replaced(s, pat, to));
    }
}

/// Substitution goes from left to right: what stands before the first
/// placeholder is kept, the placeholder gives way to its substitute, and the
/// rest is dealt with in the same way.
pub proof fn law_replace_goes_from_left_to_right(a: Text, pat: Text, b: Text, to: Text)
    requires
        pat.len() > 0,
        forall|i: int| 0 <= i < a.len() ==> !#[trigger] stands_at(a + pat + b, i, pat),
    ensures
        replaced(a + pat + b, pat, to) == a + to + replaced(b, pat, to),
{
    let s = pat + b;
    assert(a + pat + b =~= a + s);
    lemma_replace_keeps(a, s, pat, to);
    assert(s.take(pat.len() as int) =~= pat);
    assert(s.skip(pat.len() as int) =~= b);
    assert(a + (to + replaced(b, pat, to)) =~= a + to + replaced(b, pat, to));
}

/// The decimal form of an integer: one digit below ten, one more digit for the
/// units of a larger number, and a minus sign before that of a negative one.
pub proof fn law_decimal_form(n: nat)
    ensures
        n < 10 ==> shown(n as int) == seq![(48 + n) as char],
        n >= 10 ==> shown(n as int) == shown((n / 10) as int).push((48 + n % 10) as char),
        n > 0 ==> shown(-n) == seq!['-'] + shown(n as int),
{
    reveal_strlit("0123456789");
    reveal_strlit("-");
    assert("-"@ =~= seq!['-']);
    let d = (n % 10) as int;
    assert(digit(d) as int == 48 + d);
    assert(digit(d) == (48 + d) as char);
}

/// A number is read digit by digit. A plus sign before the digits changes
/// nothing, a minus sign negates.
pub proof fn law_digits_are_read(s: Text, c: char)
    requires
        forall|i: int| 0 <= i < s.len() ==> 48 <= #[trigger] s[i] as int <= 57,
        48 <= c as int <= 57,
    ensures
        s.len() == 0 ==> parsed(s.push(c)) == Some(c as int - 48),
        s.len() > 0 ==> (parsed(s) matches Some(v) && parsed(s.push(c)) == Some(
            10 * v + (c as int - 48),
        )),
        parsed(seq!['+'] + s.push(c)) == parsed(s.push(c)),
        parsed(seq!['-'] + s.push(c)) == Some(-(parsed(s.push(c))->0)),
{
    let t = s.push(c);
    assert forall|i: int| 0 <= i < t.len() implies is_digit(#[trigger] t[i]) by {
        if i < s.len() {
            assert(t[i] == s[i]);
        }
    }
    assert(t.drop_last() =~= s);
    assert(is_digit(t[0]));
    assert(unsigned_part(t) == t);
    assert((seq!['+'] + t).skip(1) =~= t);
    assert((seq!['-'] + t).skip(1) =~= t);
    assert(digits_value(t) >= 0);
    if s.len() > 0 {
        assert(is_digit(t[0]) && s[0] == t[0]);
        assert forall|i: int| 0 <= i < s.len() implies is_digit(#[trigger] s[i]) by {}
        assert(unsigned_part(s) == s);
    } else {
        assert(digits_value(s) == 0);
    }
}

/// A text that holds anything but digits after its first character is no number,
/// nor is one that starts with anything but a digit or a sign, nor one without
/// any digit.
pub proof fn law_other_texts_are_no_numbers(s: Text, i: int)
    requires
        s.len() == 0 || {
            &&& 0 <= i < s.len()
            &&& !(48 <= s[i] as int <= 57)
            &&& i == 0 && s.len() > 1 ==> s[0] != '+' && s[0] != '-'
        },
    ensures
        parsed(s) is None,
{
    if s.len() > 0 {
        let body = unsigned_part(s);
        if s[0] == '-' || s[0] == '+' {
            if i > 0 {
                assert(body[i - 1] == s[i]);
            }
        } else {
            assert(!is_digit(body[i]));
        }
    }
}

/// A number is taken just if it lies within the bounds.
pub proof fn law_numbers_within_bounds(s: Text, lo: int, hi: int)
    ensures
        parsed_within(s, lo, hi) matches Some(v) ==> parsed(s) == Some(v) && lo <= v <= hi,
        parsed_within(s, lo, hi) is None ==> (parsed(s) matches Some(v) ==> v < lo || hi < v),
{
}

/// In ASCII text, lower case adds 32 to the code points of A to Z, and keeps all
/// other characters and the length.
pub proof fn law_ascii_lower_case(s: Text, i: int)
    requires
        0 <= i < s.len(),
    ensures
        ascii_lowered(s).len() == s.len(),
        65 <= s[i] as int <= 90 ==> ascii_lowered(s)[i] as int == s[i] as int + 32,
        !(65 <= s[i] as int <= 90) ==> ascii_lowered(s)[i] == s[i],
{
}

/// The truth of a statement is told by these words.
pub proof fn law_truth_in_words(b: bool)
    ensures
        b ==> shown_bool(b) == "true"@,
        !b ==> shown_bool(b) == "false"@,
{
}

/// No mark starts anywhere in `s`.
pub open spec fn no_brace(s: Text) -> bool {
    forall|i: int| 0 <= i < s.len() ==> #[trigger] s[i] != '{'
}

/// Text without marks is kept.
pub proof fn lemma_fill_text(a: Text, s: Text, mark: Text, to: Text)
    requires
        mark.len() > 0,
        mark[0] == '{',
        no_brace(a),
    ensures
        replaced(a + s, mark, to) == a + replaced(s, mark, to),
        replaced(a, mark, to) == a,
{
    assert forall|i: int| 0 <= i < a.len() implies !#[trigger] stands_at(a + s, i, mark) by {
        if stands_at(a + s, i, mark) {
            assert((a + s).subrange(i, i + mark.len())[0] == a[i]);
        }
    }
    lemma_replace_keeps(a, s, mark, to);
    let none = Seq::<char>::empty();
    assert forall|i: int| 0 <= i < a.len() implies !#[trigger] stands_at(a + none, i, mark) by {
        if stands_at(a + none, i, mark) {
            assert((a + none).subrange(i, i + mark.len())[0] == a[i]);
        }
    }
    lemma_replace_keeps(a, none, mark, to);
    assert(a + none =~= a);
}

/// A mark gives way to its substitute.
pub proof fn lemma_fill_mark(s: Text, mark: Text, to: Text)
    requires
        mark.len() > 0,
    ensures
        replaced(mark + s, mark, to) == to + replaced(s, mark, to),
        replaced(mark, mark, to) == to,
{
    let none = Seq::<char>::empty();
    law_replace_goes_from_left_to_right(none, mark, s, to);
    assert(none + mark + s =~= mark + s);
    assert(none + to + replaced(s, mark, to) =~= to + replaced(s, mark, to));
    law_replace_goes_from_left_to_right(none, mark, none, to);
    assert(none + mark + none =~= mark);
    assert(none + to + none =~= to);
}

/// Another mark is kept: one that differs from `mark` at `k`.
pub proof fn lemma_fill_other(other: Text, s: Text, mark: Text, to: Text, k: int)
    requires
        mark.len() > 0,
        mark[0] == '{',
        other.len() > 0,
        no_brace(other.skip(1)),
        0 <= k < mark.len(),
        k < other.len(),
        other[k] != mark[k],
    ensures
        replaced(other + s, mark, to) == other + replaced(s, mark, to),
{
    assert forall|i: int| 0 <= i < other.len() implies !#[trigger] stands_at(other + s, i, mark) by {
        if stands_at(other + s, i, mark) {
            let here = (other + s).subrange(i, i + mark.len());
            if i == 0 {
                assert(here[k] == other[k]);
            } else {
                assert(here[0] == other.skip(1)[i - 1]);
            }
        }
    }
    lemma_replace_keeps(other, s, mark, to);
}

/// A text with one mark in it, filled in.
pub proof fn lemma_fill_one(t: Text, a: Text, mark: Text, b: Text, to: Text)
    requires
        t == a + mark + b,
        mark.len() > 0,
        mark[0] == '{',
        no_brace(a),
        no_brace(b),
    ensures
        replaced(t, mark, to) == a + to + b,
{
    assert(t =~= a + (mark + b));
    lemma_fill_text(a, mark + b, mark, to);
    lemma_fill_mark(b, mark, to);
    lemma_fill_text(b, Seq::empty(), mark, to);
    assert(a + (to + b) =~= a + to + b);
}

/// A text with the same mark in it twice, filled in.
pub proof fn lemma_fill_two(t: Text, a: Text, mark: Text, b: Text, c: Text, to: Text)
    requires
        t == a + mark + b + mark + c,
        mark.len() > 0,
        mark[0] == '{',
        no_brace(a),
        no_brace(b),
        no_brace(c),
    ensures
        replaced(t, mark, to) == a + to + b + to + c,
{
    let rest = b + mark + c;
    assert(t =~= a + (mark + rest));
    lemma_fill_text(a, mark + rest, mark, to);
    lemma_fill_mark(rest, mark, to);
    lemma_fill_one(rest, b, mark, c, to);
    assert(a + (to + (b + to + c)) =~= a + to + b + to + c);
}

/// How the decimal form of an integer starts: with a digit, or with a minus sign
/// and a digit; a larger number does not look like the number one.
pub proof fn lemma_shown_head(n: int)
    ensures
        shown(n).len() > 0,
        n >= 0 ==> all_digits(shown(n)),
        n < 0 ==> shown(n)[0] == '-' && shown(n).len() > 1 && all_digits(shown(n).skip(1)),
        no_brace(shown(n)),
        n != 1 && shown(n)[0] == '1' ==> shown(n).len() > 1 && is_digit(shown(n)[1]),
{
    reveal_strlit("-");
    if n < 0 {
        lemma_decimal((-n) as nat);
        let d = decimal((-n) as nat);
        assert(shown(n).skip(1) =~= d);
        assert forall|i: int| 0 <= i < shown(n).len() implies #[trigger] shown(n)[i] != '{' by {
            if i > 0 {
                assert(shown(n)[i] == d[i - 1]);
                assert(is_digit(d[i - 1]));
            }
        }
    } else {
        lemma_decimal(n as nat);
        let d = decimal(n as nat);
        assert forall|i: int| 0 <= i < d.len() implies #[trigger] d[i] != '{' by {
            assert(is_digit(d[i]));
        }
        if d.len() == 1 && d[0] == '1' {
            assert(d.drop_last() =~= Seq::<char>::empty());
            assert(digits_value(Seq::<char>::empty()) == 0);
            assert(digits_value(d) == 1);
        }
        if d.len() > 1 {
            assert(is_digit(d[1]));
        }
    }
}

/// Trimming undoes padding: white space around a text that neither starts nor ends
/// with any is taken away.
pub proof fn law_trim_undoes_padding(s: Text, before: Text, core: Text, after: Text)
    requires
        padded(s, before, core, after),
        core.len() > 0 ==> !is_space(core[0]) && !is_space(core.last()),
    ensures
        trimmed(s) == core,
    decreases before.len() + after.len(),
{
    if before.len() > 0 {
        assert(s[0] == before[0]);
        let rest = before.skip(1);
        assert(s.skip(1) =~= rest + core + after);
        assert(padded(s.skip(1), rest, core, after));
        law_trim_undoes_padding(s.skip(1), rest, core, after);
    } else if core.len() == 0 {
        assert(s =~= after);
        if after.len() > 0 {
            assert(s.skip(1) =~= before + core + after.skip(1));
            assert(padded(s.skip(1), before, core, after.skip(1)));
            law_trim_undoes_padding(s.skip(1), before, core, after.skip(1));
        }
    } else {
        assert(s =~= core + after);
        assert(s[0] == core[0]);
        lemma_trim_end_undoes(core, after);
    }
}

proof fn lemma_trim_end_undoes(core: Text, after: Text)
    requires
        all_space(after),
        core.len() > 0,
        !is_space(core.last()),
    ensures
        trim_end(core + after) == core,
    decreases after.len(),
{
    let s = core + after;
    if after.len() > 0 {
        assert(s.last() == after.last());
        assert(s.drop_last() =~= core + after.drop_last());
        lemma_trim_end_undoes(core, after.drop_last());
    } else {
        assert(s =~= core);
    }
}

} // verus!
