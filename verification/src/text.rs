//! Text primitives over the character sequences that `str` and `String` view to.
use vstd::prelude::*;
use vstd::string::*;
use vstd::utf8::encode_utf8;

verus! {

// ---------------------------------------------------------------------------
// Names for what std's Unicode tables decide
// ---------------------------------------------------------------------------

/// What `str::to_lowercase` gives back for a string with these characters.
pub uninterp spec fn lowercase(s: Seq<char>) -> Seq<char>;

/// Whether `char::is_alphanumeric` holds of a character.
pub uninterp spec fn alphanumeric(c: char) -> bool;

/// Whether `char::is_whitespace` holds of a character.
pub uninterp spec fn whitespace(c: char) -> bool;

/// An ASCII upper-case letter as lower case; any other character as it is.
pub open spec fn ascii_lower(c: char) -> char {
    if 0x41 <= (c as u32) <= 0x5A {
        ((c as u32) + 0x20) as char
    } else {
        c
    }
}

/// Calls `str::to_lowercase`. Its result is named `lowercase`; the Unicode
/// case tables are not written out here. Of them only what the
/// documentation says of ASCII is stated: a text of ASCII characters is
/// lower-cased letter by letter, `A`-`Z` to `a`-`z`, and nothing else
/// changes.
#[verifier::external_body]
pub(crate) fn to_lowercase(s: &str) -> (r: String)
    ensures
        r@ == lowercase(s@),
        (forall|i: int| 0 <= i < s@.len() ==> (#[trigger] s@[i] as u32) < 128) ==> r@ == s@.map_values(
            |c: char| ascii_lower(c),
        ),
{
    s.to_lowercase()
}

/// Calls `char::is_alphanumeric`. Of the Unicode property tables only what
/// the documentation says of ASCII is stated: an ASCII character is
/// alphanumeric exactly when it is a Latin letter or a decimal digit.
#[verifier::external_body]
pub(crate) fn is_alphanumeric(c: char) -> (r: bool)
    ensures
        r == alphanumeric(c),
        (c as u32) < 128 ==> (r <==> ascii_alphanumeric(c)),
{
    c.is_alphanumeric()
}

/// Calls `char::is_whitespace`. Of the Unicode `White_Space` table only the
/// ASCII part is stated: space, tab, line feed, vertical tab, form feed and
/// carriage return are white space, and no other ASCII character is.
#[verifier::external_body]
pub(crate) fn is_whitespace(c: char) -> (r: bool)
    ensures
        r == whitespace(c),
        (c as u32) < 128 ==> (r <==> ascii_whitespace(c)),
{
    c.is_whitespace()
}

/// Calls `String::push`: the character is appended.
#[verifier::external_body]
pub(crate) fn push_char(s: &mut String, c: char)
    ensures
        final(s)@ == old(s)@.push(c),
{
    s.push(c)
}

pub open spec fn ascii_alphanumeric(c: char) -> bool {
    ('a' <= c && c <= 'z') || ('A' <= c && c <= 'Z') || ('0' <= c && c <= '9')
}

pub open spec fn ascii_whitespace(c: char) -> bool {
    c == ' ' || c == '\t' || c == '\n' || c == '\x0B' || c == '\x0C' || c == '\r'
}

// ---------------------------------------------------------------------------
// Specifications
// ---------------------------------------------------------------------------

/// The number of bytes of the UTF-8 encoding: what `str::len` returns.
pub open spec fn utf8_len(s: Seq<char>) -> nat {
    encode_utf8(s).len()
}

/// `needle` occurs in `hay` as a contiguous run (the empty needle always does).
pub open spec fn contains(hay: Seq<char>, needle: Seq<char>) -> bool {
    exists|i: int| 0 <= i && i + needle.len() <= hay.len() && #[trigger] hay.subrange(i, i + needle.len()) == needle
}

/// `prefix` begins `s`.
pub open spec fn starts_with(s: Seq<char>, prefix: Seq<char>) -> bool {
    prefix.len() <= s.len() && s.subrange(0, prefix.len() as int) == prefix
}

/// The views of a sequence of strings.
pub open spec fn views(v: Seq<String>) -> Seq<Seq<char>> {
    v.map_values(|s: String| s@)
}

/// The parts, with `sep` between each two of them.
pub open spec fn join(parts: Seq<Seq<char>>, sep: Seq<char>) -> Seq<char>
    decreases parts.len(),
{
    if parts.len() == 0 {
        Seq::empty()
    } else if parts.len() == 1 {
        parts[0]
    } else {
        join(parts.drop_last(), sep) + sep + parts.last()
    }
}

/// The decimal digit for `d < 10`.
pub open spec fn digit(d: nat) -> char {
    if d == 0 { '0' }
    else if d == 1 { '1' }
    else if d == 2 { '2' }
    else if d == 3 { '3' }
    else if d == 4 { '4' }
    else if d == 5 { '5' }
    else if d == 6 { '6' }
    else if d == 7 { '7' }
    else if d == 8 { '8' }
    else { '9' }
}

/// The decimal notation of `n`, without leading zeros: what `{}` prints.
pub open spec fn decimal(n: nat) -> Seq<char>
    decreases n,
{
    if n < 10 {
        seq![digit(n)]
    } else {
        decimal(n / 10).push(digit(n % 10))
    }
}

/// Every occurrence of the non-empty `pat` in `s`, found left to right without
/// overlap, replaced by `rep`: what `str::replace` returns.
pub open spec fn replace_all(s: Seq<char>, pat: Seq<char>, rep: Seq<char>) -> Seq<char>
    recommends
        pat.len() > 0,
    decreases s.len(),
{
    if s.len() == 0 || pat.len() == 0 {
        s
    } else if starts_with(s, pat) {
        rep + replace_all(s.skip(pat.len() as int), pat, rep)
    } else {
        seq![s[0]] + replace_all(s.skip(1), pat, rep)
    }
}

/// Which characters split a string into pieces.
#[derive(Clone, Copy, PartialEq, Eq, Debug)]
pub enum Separator {
    /// Every character that is not alphanumeric.
    NonAlphanumeric,
    /// Every white-space character.
    Whitespace,
}

pub open spec fn separates(sep: Separator, c: char) -> bool {
    match sep {
        Separator::NonAlphanumeric => !alphanumeric(c),
        Separator::Whitespace => whitespace(c),
    }
}

/// The pieces of `s` between separator characters, empty pieces included:
/// what `str::split` with a character predicate yields. There is always at
/// least one piece.
pub open spec fn pieces(s: Seq<char>, sep: Separator) -> Seq<Seq<char>>
    decreases s.len(),
{
    if s.len() == 0 {
        seq![Seq::empty()]
    } else {
        let p = pieces(s.drop_last(), sep);
        if separates(sep, s.last()) {
            p.push(Seq::empty())
        } else {
            p.update(p.len() - 1, p.last().push(s.last()))
        }
    }
}

/// The non-empty pieces of `s` between white space: what `str::split_whitespace`
/// yields.
pub open spec fn words(s: Seq<char>) -> Seq<Seq<char>> {
    pieces(s, Separator::Whitespace).filter(non_empty())
}

/// Holds of the non-empty pieces.
pub open spec fn non_empty() -> spec_fn(Seq<char>) -> bool {
    |t: Seq<char>| t.len() > 0
}

/// The first `n` elements of `s`, or all of them where there are fewer: what
/// `Iterator::take` yields.
pub open spec fn take_at_most<A>(s: Seq<A>, n: nat) -> Seq<A> {
    if n <= s.len() { s.take(n as int) } else { s }
}

/// A string has at least as many UTF-8 bytes as characters, and at most four
/// times as many.
pub proof fn lemma_utf8_len_bounds(s: Seq<char>)
    ensures
        s.len() <= utf8_len(s) <= 4 * s.len(),
    decreases s.len(),
{
    if s.len() > 0 {
        lemma_utf8_len_bounds(s.drop_first());
        let e = vstd::utf8::encode_scalar(s[0] as u32);
        assert(1 <= e.len() <= 4);
    }
}

// ---------------------------------------------------------------------------
// Executable functions
// ---------------------------------------------------------------------------

/// The characters of `s`, in order.
pub fn chars_of(s: &str) -> (out: Vec<char>)
    ensures
        out@ == s@,
{
    let mut out: Vec<char> = Vec::new();
    for c in it: s.chars()
        invariant
            out@ == it.seq().take(it.index() as int),
            it.seq() == s@,
    {
        out.push(c);
    }
    out
}

/// A string of the given characters.
pub fn string_of(chars: &Vec<char>) -> (out: String)
    ensures
        out@ == chars@,
{
    let mut out = String::new();
    let mut i: usize = 0;
    while i < chars.len()
        invariant
            i <= chars.len(),
            out@ == chars@.take(i as int),
        decreases chars.len() - i,
    {
        push_char(&mut out, chars[i]);
        i = i + 1;
        assert(out@ =~= chars@.take(i as int));
    }
    assert(chars@.take(chars.len() as int) =~= chars@);
    out
}

/// Whether `hay[at..]` begins with `needle`.
pub fn matches_at(hay: &Vec<char>, at: usize, needle: &Vec<char>) -> (r: bool)
    requires
        at <= hay.len(),
    ensures
        r == starts_with(hay@.skip(at as int), needle@),
        r == (at + needle.len() <= hay.len() && hay@.subrange(at as int, at + needle.len()) == needle@),
{
    if needle.len() > hay.len() - at {
        return false;
    }
    let mut k: usize = 0;
    while k < needle.len()
        invariant
            k <= needle.len(),
            at + needle.len() <= hay.len(),
            forall|j: int| 0 <= j < k ==> hay@[at + j] == needle@[j],
        decreases needle.len() - k,
    {
        if hay[at + k] != needle[k] {
            assert(hay@.subrange(at as int, at + needle.len())[k as int] != needle@[k as int]);
            assert(hay@.skip(at as int).subrange(0, needle.len() as int)[k as int] != needle@[k as int]);
            return false;
        }
        k = k + 1;
    }
    assert(hay@.subrange(at as int, at + needle.len()) =~= needle@);
    assert(hay@.skip(at as int).subrange(0, needle.len() as int) =~= needle@);
    true
}

/// Whether `needle` occurs in `hay`.
pub fn contains_chars(hay: &Vec<char>, needle: &Vec<char>) -> (r: bool)
    ensures
        r == contains(hay@, needle@),
{
    if needle.len() > hay.len() {
        return false;
    }
    let last = hay.len() - needle.len();
    let mut i: usize = 0;
    loop
        invariant
            last + needle.len() == hay.len(),
            i <= last,
            forall|j: int| 0 <= j < i ==> #[trigger] hay@.subrange(j, j + needle.len()) != needle@,
        decreases last - i,
    {
        if matches_at(hay, i, needle) {
            return true;
        }
        if i == last {
            return false;
        }
        i = i + 1;
    }
}

/// Whether `needle` occurs in `hay`: what `str::contains` returns for a
/// string pattern.
pub fn str_contains(hay: &str, needle: &str) -> (r: bool)
    ensures
        r == contains(hay@, needle@),
{
    let h = chars_of(hay);
    let n = chars_of(needle);
    contains_chars(&h, &n)
}

/// Whether two strings have the same characters.
pub fn str_eq(a: &str, b: &str) -> (r: bool)
    ensures
        r == (a@ == b@),
{
    let x = chars_of(a);
    let y = chars_of(b);
    if x.len() != y.len() {
        return false;
    }
    let r = matches_at(&x, 0, &y);
    assert(x@.skip(0) =~= x@);
    assert(r ==> x@.subrange(0, y@.len() as int) =~= x@);
    r
}

/// Appends `s` to `out`.
pub fn append(out: &mut String, s: &str)
    ensures
        final(out)@ == old(out)@ + s@,
{
    out.append(s);
}

/// The number of bytes of the UTF-8 encoding of `s`: what `str::len` returns.
pub fn byte_len(s: &str) -> (n: usize)
    ensures
        n == utf8_len(s@),
{
    s.as_bytes().len()
}

/// The concatenation of three strings.
pub fn concat3(a: &str, b: &str, c: &str) -> (out: String)
    ensures
        out@ == a@ + b@ + c@,
{
    let mut out = a.to_owned();
    append(&mut out, b);
    append(&mut out, c);
    out
}

/// The decimal digit for `d < 10`.
pub fn digit_char(d: u64) -> (c: char)
    requires
        d < 10,
    ensures
        c == digit(d as nat),
{
    if d == 0 { '0' }
    else if d == 1 { '1' }
    else if d == 2 { '2' }
    else if d == 3 { '3' }
    else if d == 4 { '4' }
    else if d == 5 { '5' }
    else if d == 6 { '6' }
    else if d == 7 { '7' }
    else if d == 8 { '8' }
    else { '9' }
}

/// Appends the decimal notation of `n` to `out`.
pub fn push_decimal(out: &mut String, n: u64)
    ensures
        final(out)@ == old(out)@ + decimal(n as nat),
    decreases n,
{
    if n >= 10 {
        push_decimal(out, n / 10);
    }
    push_char(out, digit_char(n % 10));
    assert(decimal(n as nat) =~= if n < 10 {
        seq![digit(n as nat)]
    } else {
        decimal((n / 10) as nat).push(digit((n % 10) as nat))
    });
}

/// The decimal notation of `n`: what `n.to_string()` returns.
pub fn decimal_string(n: u64) -> (out: String)
    ensures
        out@ == decimal(n as nat),
{
    let mut out = String::new();
    push_decimal(&mut out, n);
    assert(out@ =~= decimal(n as nat));
    out
}

/// The parts joined with `sep` between each two of them: what `[String]::join`
/// returns.
pub fn join_strings(parts: &Vec<String>, sep: &str) -> (out: String)
    ensures
        out@ == join(views(parts@), sep@),
{
    let mut out = String::new();
    let ghost vs = views(parts@);
    let mut i: usize = 0;
    while i < parts.len()
        invariant
            i <= parts.len(),
            vs == views(parts@),
            out@ == join(vs.take(i as int), sep@),
        decreases parts.len() - i,
    {
        assert(vs.take(i + 1).drop_last() =~= vs.take(i as int));
        assert(vs.take(i + 1).last() == parts@[i as int]@);
        if i > 0 {
            append(&mut out, sep);
        }
        append(&mut out, parts[i].as_str());
        proof {
            if i == 0 {
                assert(out@ =~= vs.take(1)[0]);
            }
        }
        i = i + 1;
    }
    assert(vs.take(parts.len() as int) =~= vs);
    out
}

proof fn lemma_skip_skip(s: Seq<char>, a: int, b: int)
    requires
        0 <= a,
        0 <= b,
        a + b <= s.len(),
    ensures
        s.skip(a).skip(b) == s.skip(a + b),
{
    assert(s.skip(a).skip(b) =~= s.skip(a + b));
}

/// `s` with every occurrence of the non-empty `pat` replaced by `rep`.
pub fn replace_all_str(s: &str, pat: &str, rep: &str) -> (out: String)
    requires
        pat@.len() > 0,
    ensures
        out@ == replace_all(s@, pat@, rep@),
{
    let chars = chars_of(s);
    let p = chars_of(pat);
    let mut out = String::new();
    let mut i: usize = 0;
    assert(s@.skip(0) =~= s@);
    assert(out@ + replace_all(s@, pat@, rep@) =~= replace_all(s@, pat@, rep@));
    while i < chars.len()
        invariant
            i <= chars.len(),
            chars@ == s@,
            p@ == pat@,
            p@.len() > 0,
            replace_all(s@, pat@, rep@) == out@ + replace_all(s@.skip(i as int), pat@, rep@),
        decreases chars.len() - i,
    {
        let ghost rest = s@.skip(i as int);
        if matches_at(&chars, i, &p) {
            append(&mut out, rep);
            proof {
                lemma_skip_skip(s@, i as int, p@.len() as int);
                assert(replace_all(rest, pat@, rep@) == rep@ + replace_all(rest.skip(p@.len() as int), pat@, rep@));
            }
            i = i + p.len();
        } else {
            push_char(&mut out, chars[i]);
            proof {
                lemma_skip_skip(s@, i as int, 1);
                assert(rest[0] == chars@[i as int]);
                assert(replace_all(rest, pat@, rep@) == seq![rest[0]] + replace_all(rest.skip(1), pat@, rep@));
            }
            i = i + 1;
        }
    }
    assert(s@.skip(chars.len() as int).len() == 0);
    assert(out@ =~= out@ + replace_all(s@.skip(i as int), pat@, rep@));
    out
}

/// Whether `c` separates pieces under `sep`.
pub fn is_separator(sep: Separator, c: char) -> (r: bool)
    ensures
        r == separates(sep, c),
{
    match sep {
        Separator::NonAlphanumeric => !is_alphanumeric(c),
        Separator::Whitespace => is_whitespace(c),
    }
}

/// The pieces of `s` between separator characters, empty ones included.
pub fn split_pieces(s: &str, sep: Separator) -> (out: Vec<String>)
    ensures
        views(out@) == pieces(s@, sep),
{
    let chars = chars_of(s);
    let mut out: Vec<String> = Vec::new();
    let mut cur = String::new();
    let mut i: usize = 0;
    assert(chars@.take(0) =~= Seq::<char>::empty());
    assert(views(out@).push(cur@) =~= pieces(chars@.take(0), sep));
    while i < chars.len()
        invariant
            i <= chars.len(),
            chars@ == s@,
            views(out@).push(cur@) == pieces(chars@.take(i as int), sep),
        decreases chars.len() - i,
    {
        let c = chars[i];
        let ghost before = views(out@).push(cur@);
        assert(chars@.take(i + 1).drop_last() =~= chars@.take(i as int));
        assert(chars@.take(i + 1).last() == c);
        if is_separator(sep, c) {
            let done = cur;
            out.push(done);
            cur = String::new();
            assert(views(out@).push(cur@) =~= before.push(Seq::empty()));
        } else {
            push_char(&mut cur, c);
            assert(views(out@).push(cur@) =~= before.update(before.len() - 1, before.last().push(c)));
        }
        i = i + 1;
    }
    assert(chars@.take(chars.len() as int) =~= chars@);
    out.push(cur);
    assert(views(out@) =~= pieces(s@, sep));
    out
}

/// The non-empty pieces of `s` between white space.
pub fn split_words(s: &str) -> (out: Vec<String>)
    ensures
        views(out@) == words(s@),
{
    let all = split_pieces(s, Separator::Whitespace);
    let mut out: Vec<String> = Vec::new();
    let mut i: usize = 0;
    while i < all.len()
        invariant
            i <= all.len(),
            views(all@) == pieces(s@, Separator::Whitespace),
            views(out@) == views(all@).take(i as int).filter(non_empty()),
        decreases all.len() - i,
    {
        let ghost w = all@[i as int]@;
        proof {
            assert(views(all@).take(i + 1) =~= views(all@).take(i as int).push(w));
            views(all@).take(i as int).lemma_filter_push(w, non_empty());
        }
        let piece: &str = all[i].as_str();
        let empty = piece.is_empty();
        assert(piece@ == w);
        assert(empty == (w.len() == 0));
        if !empty {
            assert(non_empty()(w));
            out.push(all[i].clone());
            assert(views(out@) =~= views(all@).take(i as int).filter(non_empty()).push(w));
        } else {
            assert(!non_empty()(w));
        }
        i = i + 1;
    }
    assert(views(all@).take(all.len() as int) =~= views(all@));
    out
}

} // verus!
