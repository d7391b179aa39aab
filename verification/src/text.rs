//! Character and string primitives used by the naming and generation code.

use vstd::prelude::*;

verus! {

// ---------------------------------------------------------------------------
// Sequence-level specifications
// ---------------------------------------------------------------------------

/// `p` is a prefix of `s`.
pub open spec fn spec_starts_with(s: Seq<char>, p: Seq<char>) -> bool {
    p.len() <= s.len() && s.subrange(0, p.len() as int) == p
}

/// `p` is a suffix of `s`.
pub open spec fn spec_ends_with(s: Seq<char>, p: Seq<char>) -> bool {
    p.len() <= s.len() && s.subrange(s.len() - p.len(), s.len() as int) == p
}

/// `s` holds the character `c` somewhere.
pub open spec fn spec_contains_char(s: Seq<char>, c: char) -> bool {
    exists|i: int| 0 <= i < s.len() && s[i] == c
}

/// `p` occurs in `s` starting at position `i`.
pub open spec fn spec_occurs_at(s: Seq<char>, p: Seq<char>, i: int) -> bool {
    0 <= i && i + p.len() <= s.len() && s.subrange(i, i + p.len()) == p
}

/// `p` occurs somewhere in `s`.
pub open spec fn spec_contains(s: Seq<char>, p: Seq<char>) -> bool {
    exists|i: int| spec_occurs_at(s, p, i)
}

/// Concatenation of a sequence of strings.
pub open spec fn spec_concat(parts: Seq<Seq<char>>) -> Seq<char>
    decreases parts.len(),
{
    if parts.len() == 0 {
        Seq::empty()
    } else {
        spec_concat(parts.drop_last()) + parts.last()
    }
}

/// Split `s` at every occurrence of the character `sep` (as `str::split`
/// with a character pattern): always at least one part, empty parts kept.
pub open spec fn spec_split_char(s: Seq<char>, sep: char) -> Seq<Seq<char>>
    decreases s.len(),
{
    if s.len() == 0 {
        seq![Seq::<char>::empty()]
    } else {
        let parts = spec_split_char(s.drop_last(), sep);
        if s.last() == sep {
            parts.push(Seq::<char>::empty())
        } else {
            parts.update(parts.len() - 1, parts.last().push(s.last()))
        }
    }
}

/// ASCII lower-casing of one character; other characters are unchanged.
pub open spec fn spec_ascii_lower(c: char) -> char {
    if 65 <= c as u32 <= 90 {
        ((c as u32) + 32) as char
    } else {
        c
    }
}

/// The character is an ASCII capital letter.
pub open spec fn is_ascii_upper(c: char) -> bool {
    65 <= c as u32 <= 90
}

/// The character is an ASCII small letter.
pub open spec fn is_ascii_lower(c: char) -> bool {
    97 <= c as u32 <= 122
}

/// ASCII upper-casing of one character; other characters are unchanged.
pub open spec fn spec_ascii_upper(c: char) -> char {
    if is_ascii_lower(c) {
        ((c as u32) - 32) as char
    } else {
        c
    }
}

/// Whether a character is upper-case: in the ASCII range exactly 'A'..='Z',
/// elsewhere the Unicode `Uppercase` property.
pub open spec fn spec_is_upper(c: char) -> bool {
    if (c as u32) < 128 {
        is_ascii_upper(c)
    } else {
        spec_char_is_uppercase(c)
    }
}

/// Every character of `s` is ASCII.
pub open spec fn is_ascii_text(s: Seq<char>) -> bool {
    forall|i: int| 0 <= i < s.len() ==> (#[trigger] s[i] as u32) < 128
}

/// The lower-case form of a text: for ASCII text the ASCII lower-casing
/// character by character, otherwise the Unicode lower-case mapping.
pub open spec fn spec_lowercase(s: Seq<char>) -> Seq<char> {
    if is_ascii_text(s) {
        s.map_values(|c: char| spec_ascii_lower(c))
    } else {
        spec_str_to_lowercase(s)
    }
}

/// The upper-case mapping of a character: in the ASCII range the ASCII
/// one, elsewhere the Unicode mapping (which may yield several characters).
pub open spec fn spec_upper_of(c: char) -> Seq<char> {
    if (c as u32) < 128 {
        seq![spec_ascii_upper(c)]
    } else {
        spec_char_to_uppercase(c)
    }
}

/// The character is an ASCII decimal digit.
pub open spec fn is_ascii_digit(c: char) -> bool {
    48 <= c as u32 <= 57
}

/// A lower-case word: an ASCII small letter followed by small letters and
/// digits.
pub open spec fn is_lower_word(w: Seq<char>) -> bool {
    &&& w.len() >= 1
    &&& is_ascii_lower(w[0])
    &&& forall|i: int| 1 <= i < w.len() ==> is_ascii_lower(#[trigger] w[i]) || is_ascii_digit(w[i])
}

/// The parts joined with the separator between consecutive parts.
pub open spec fn spec_join(parts: Seq<Seq<char>>, sep: char) -> Seq<char>
    decreases parts.len(),
{
    if parts.len() == 0 {
        Seq::empty()
    } else if parts.len() == 1 {
        parts[0]
    } else {
        spec_join(parts.drop_last(), sep) + seq![sep] + parts.last()
    }
}

/// Appending characters other than the separator extends the last part.
proof fn lemma_split_char_append(y: Seq<char>, w: Seq<char>, sep: char)
    requires
        !spec_contains_char(w, sep),
    ensures
        spec_split_char(y + w, sep) == spec_split_char(y, sep).update(
            spec_split_char(y, sep).len() - 1,
            spec_split_char(y, sep).last() + w,
        ),
    decreases w.len(),
{
    lemma_split_char_nonempty(y, sep);
    if w.len() == 0 {
        assert(y + w == y);
        assert(spec_split_char(y, sep).last() + w == spec_split_char(y, sep).last());
        assert(spec_split_char(y, sep).update(
            spec_split_char(y, sep).len() - 1,
            spec_split_char(y, sep).last(),
        ) == spec_split_char(y, sep));
    } else {
        assert(!spec_contains_char(w.drop_last(), sep)) by {
            if spec_contains_char(w.drop_last(), sep) {
                let i = choose|i: int| 0 <= i < w.drop_last().len() && w.drop_last()[i] == sep;
                assert(w[i] == sep);
            }
        }
        lemma_split_char_append(y, w.drop_last(), sep);
        assert(w.last() != sep) by {
            assert(w[w.len() - 1] == w.last());
        }
        assert((y + w).drop_last() == y + w.drop_last());
        assert((y + w).last() == w.last());
        assert((spec_split_char(y, sep).last() + w.drop_last()).push(w.last())
            == spec_split_char(y, sep).last() + w);
    }
}

/// Splitting the join of parts that hold no separator gives the parts back.
pub proof fn lemma_split_join(parts: Seq<Seq<char>>, sep: char)
    requires
        parts.len() >= 1,
        forall|i: int| 0 <= i < parts.len() ==> !spec_contains_char(#[trigger] parts[i], sep),
    ensures
        spec_split_char(spec_join(parts, sep), sep) == parts,
    decreases parts.len(),
{
    if parts.len() == 1 {
        assert(!spec_contains_char(parts[0], sep));
        lemma_split_char_no_sep(parts[0], sep);
        assert(seq![parts[0]] == parts);
    } else {
        let init = parts.drop_last();
        assert forall|i: int| 0 <= i < init.len() implies !spec_contains_char(#[trigger] init[i], sep) by {
            assert(init[i] == parts[i]);
        }
        lemma_split_join(init, sep);
        let y = spec_join(init, sep) + seq![sep];
        assert(y.drop_last() == spec_join(init, sep));
        assert(y.last() == sep);
        lemma_split_char_nonempty(y, sep);
        assert(spec_split_char(y, sep) == init.push(Seq::<char>::empty()));
        assert(!spec_contains_char(parts.last(), sep)) by {
            assert(parts[parts.len() - 1] == parts.last());
        }
        lemma_split_char_append(y, parts.last(), sep);
        assert(Seq::<char>::empty() + parts.last() == parts.last());
        assert(init.push(Seq::<char>::empty()).update(init.len() as int, parts.last()) == parts);
    }
}

pub proof fn lemma_split_char_nonempty(s: Seq<char>, sep: char)
    ensures
        spec_split_char(s, sep).len() >= 1,
    decreases s.len(),
{
    if s.len() > 0 {
        lemma_split_char_nonempty(s.drop_last(), sep);
    }
}

/// A string without the separator splits into itself alone.
pub proof fn lemma_split_char_no_sep(s: Seq<char>, sep: char)
    requires
        !spec_contains_char(s, sep),
    ensures
        spec_split_char(s, sep) == seq![s],
    decreases s.len(),
{
    if s.len() == 0 {
        assert(s == Seq::<char>::empty());
    } else {
        assert(!spec_contains_char(s.drop_last(), sep)) by {
            if spec_contains_char(s.drop_last(), sep) {
                let i = choose|i: int| 0 <= i < s.drop_last().len() && s.drop_last()[i] == sep;
                assert(s[i] == sep);
            }
        }
        lemma_split_char_no_sep(s.drop_last(), sep);
        assert(s.last() != sep) by {
            assert(s[s.len() - 1] == s.last());
        }
        assert(s.drop_last().push(s.last()) == s);
        assert(seq![s.drop_last()].update(0, s.drop_last().push(s.last())) == seq![s]);
    }
}

// ---------------------------------------------------------------------------
// Names for what std's Unicode case functions return
// ---------------------------------------------------------------------------

/// What `char::is_uppercase` returns: the Unicode `Uppercase` property.
pub uninterp spec fn spec_char_is_uppercase(c: char) -> bool;

/// What `char::to_uppercase` yields, collected: the Unicode upper-case mapping.
pub uninterp spec fn spec_char_to_uppercase(c: char) -> Seq<char>;

/// What `str::to_lowercase` returns: the Unicode lower-case mapping of a string.
pub uninterp spec fn spec_str_to_lowercase(s: Seq<char>) -> Seq<char>;

// ---------------------------------------------------------------------------
// Trusted wrappers around std
// ---------------------------------------------------------------------------

/// Appends one character to a string (std `String::push`).
#[verifier::external_body]
pub(crate) fn push_char(s: &mut String, c: char)
    ensures
        final(s)@ == old(s)@.push(c),
{
    s.push(c)
}

/// std `char::is_uppercase`: the Unicode `Uppercase` property. Its
/// documentation classifies the ASCII range as usual: exactly 'A'..='Z'
/// are upper-case there.
#[verifier::external_body]
pub(crate) fn char_is_uppercase(c: char) -> (r: bool)
    ensures
        r == spec_char_is_uppercase(c),
        is_ascii_upper(c) ==> r,
        (c as u32) < 128 && !is_ascii_upper(c) ==> !r,
{
    c.is_uppercase()
}

/// ASCII lower-casing of one character: 'A'..='Z' map to 'a'..='z',
/// every other character is returned unchanged.
pub(crate) fn char_to_ascii_lowercase(c: char) -> (r: char)
    ensures
        r == spec_ascii_lower(c),
{
    if 'A' <= c && c <= 'Z' {
        let code: u32 = c as u32;
        let b: u8 = c as u8;
        assert(b == code as u8);
        assert(b as u32 == code) by (bit_vector)
            requires
                65 <= code <= 90,
                b == code as u8;
        let lower: u8 = b + 32u8;
        lower as char
    } else {
        c
    }
}

/// std `char::to_uppercase`, collected into a string. In the ASCII range
/// the mapping is the ASCII one: 'a'..='z' become 'A'..='Z', every other
/// ASCII character maps to itself.
#[verifier::external_body]
pub(crate) fn char_to_uppercase(c: char) -> (r: String)
    ensures
        r@ == spec_char_to_uppercase(c),
        (c as u32) < 128 ==> r@ == seq![spec_ascii_upper(c)],
{
    c.to_uppercase().collect()
}

/// std `str::to_lowercase`. An ASCII character has the ASCII lower-case
/// mapping ('A'..='Z' to 'a'..='z', every other ASCII character to
/// itself), so an ASCII string is lower-cased character by character.
#[verifier::external_body]
pub(crate) fn str_to_lowercase(s: &str) -> (r: String)
    ensures
        r@ == spec_str_to_lowercase(s@),
        is_ascii_text(s@) ==> r@ == s@.map_values(|c: char| spec_ascii_lower(c)),
{
    s.to_lowercase()
}

// ---------------------------------------------------------------------------
// Verified helpers
// ---------------------------------------------------------------------------

/// A fresh owned copy of a string slice.
pub fn owned(s: &str) -> (r: String)
    ensures
        r@ == s@,
{
    String::from_str(s)
}

/// Whether two string slices hold the same characters.
pub fn str_eq(a: &str, b: &str) -> (r: bool)
    ensures
        r == (a@ == b@),
{
    let n = a.unicode_len();
    if n != b.unicode_len() {
        return false;
    }
    let mut i: usize = 0;
    while i < n
        invariant
            n == a@.len(),
            n == b@.len(),
            i <= n,
            a@.subrange(0, i as int) == b@.subrange(0, i as int),
        decreases n - i,
    {
        if a.get_char(i) != b.get_char(i) {
            assert(a@[i as int] != b@[i as int]);
            assert(a@ != b@);
            return false;
        }
        assert(a@.subrange(0, i + 1) == a@.subrange(0, i as int).push(a@[i as int]));
        assert(b@.subrange(0, i + 1) == b@.subrange(0, i as int).push(b@[i as int]));
        i = i + 1;
    }
    assert(a@ == a@.subrange(0, n as int));
    assert(b@ == b@.subrange(0, n as int));
    true
}

/// Whether `p` occurs in `s` at position `at`.
pub fn occurs_at(s: &str, p: &str, at: usize) -> (r: bool)
    ensures
        r == spec_occurs_at(s@, p@, at as int),
{
    let n = s.unicode_len();
    let m = p.unicode_len();
    if at > n || m > n - at {
        return false;
    }
    let mut i: usize = 0;
    while i < m
        invariant
            n == s@.len(),
            m == p@.len(),
            at + m <= n,
            i <= m,
            s@.subrange(at as int, at + i) == p@.subrange(0, i as int),
        decreases m - i,
    {
        if s.get_char(at + i) != p.get_char(i) {
            assert(s@.subrange(at as int, at + m)[i as int] != p@[i as int]);
            return false;
        }
        assert(s@.subrange(at as int, at + i + 1) == s@.subrange(at as int, at + i).push(
            s@[at + i],
        ));
        assert(p@.subrange(0, i + 1) == p@.subrange(0, i as int).push(p@[i as int]));
        i = i + 1;
    }
    assert(p@ == p@.subrange(0, m as int));
    true
}

/// `str::starts_with` with a string pattern.
pub fn starts_with(s: &str, p: &str) -> (r: bool)
    ensures
        r == spec_starts_with(s@, p@),
{
    occurs_at(s, p, 0)
}

/// `str::ends_with` with a string pattern.
pub fn ends_with(s: &str, p: &str) -> (r: bool)
    ensures
        r == spec_ends_with(s@, p@),
{
    let n = s.unicode_len();
    let m = p.unicode_len();
    if m > n {
        return false;
    }
    occurs_at(s, p, n - m)
}

/// `str::contains` with a string pattern.
pub fn contains(s: &str, p: &str) -> (r: bool)
    ensures
        r == spec_contains(s@, p@),
{
    let n = s.unicode_len();
    let mut i: usize = 0;
    while i < n
        invariant
            n == s@.len(),
            i <= n,
            forall|j: int| 0 <= j < i ==> !spec_occurs_at(s@, p@, j),
        decreases n - i,
    {
        if occurs_at(s, p, i) {
            return true;
        }
        i = i + 1;
    }
    if occurs_at(s, p, n) {
        return true;
    }
    assert forall|j: int| !spec_occurs_at(s@, p@, j) by {
        if 0 <= j && j < n {
        } else if j > n {
        }
    }
    false
}

/// `str::strip_prefix` with a string pattern, as an owned string.
pub fn strip_prefix(s: &str, p: &str) -> (r: Option<String>)
    ensures
        r is Some <==> spec_starts_with(s@, p@),
        r matches Some(t) ==> t@ == s@.subrange(p@.len() as int, s@.len() as int),
{
    if starts_with(s, p) {
        let n = s.unicode_len();
        let m = p.unicode_len();
        Some(owned(s.substring_char(m, n)))
    } else {
        None
    }
}

/// Split a slice at every occurrence of `sep` (`str::split` with a
/// character pattern), as owned parts.
pub fn split_char(s: &str, sep: char) -> (r: Vec<String>)
    ensures
        r.len() == spec_split_char(s@, sep).len(),
        forall|k: int| 0 <= k < r.len() ==> #[trigger] r[k]@ == spec_split_char(s@, sep)[k],
{
    let n = s.unicode_len();
    let mut parts: Vec<String> = Vec::new();
    let mut cur = String::new();
    let mut i: usize = 0;
    assert(s@.subrange(0, 0) == Seq::<char>::empty());
    while i < n
        invariant
            n == s@.len(),
            i <= n,
            parts.len() + 1 == spec_split_char(s@.subrange(0, i as int), sep).len(),
            forall|k: int|
                0 <= k < parts.len() ==> #[trigger] parts[k]@ == spec_split_char(
                    s@.subrange(0, i as int),
                    sep,
                )[k],
            cur@ == spec_split_char(s@.subrange(0, i as int), sep).last(),
        decreases n - i,
    {
        let c = s.get_char(i);
        let ghost pre = s@.subrange(0, i as int);
        assert(s@.subrange(0, i + 1).drop_last() == pre);
        assert(s@.subrange(0, i + 1).last() == c);
        proof {
            lemma_split_char_nonempty(pre, sep);
        }
        if c == sep {
            parts.push(cur);
            cur = String::new();
        } else {
            push_char(&mut cur, c);
        }
        i = i + 1;
    }
    assert(s@.subrange(0, n as int) == s@);
    proof {
        lemma_split_char_nonempty(s@, sep);
    }
    parts.push(cur);
    parts
}


// ---------------------------------------------------------------------------
// Decimal rendering of unsigned integers
// ---------------------------------------------------------------------------

/// The ASCII digit for `d` (`d < 10`).
pub open spec fn spec_digit(d: nat) -> char {
    ((48 + d) as u32) as char
}

/// The decimal text of `n`, without leading zeros (as `Display` renders
/// an unsigned integer).
pub open spec fn spec_decimal(n: nat) -> Seq<char>
    decreases n,
{
    if n < 10 {
        seq![spec_digit(n)]
    } else {
        spec_decimal(n / 10).push(spec_digit(n % 10))
    }
}

fn digit_char(d: u128) -> (r: char)
    requires
        d < 10,
    ensures
        r == spec_digit(d as nat),
{
    let b: u8 = (d as u8) + 48u8;
    b as char
}

/// Renders `n` in decimal.
pub fn decimal(n: u128) -> (r: String)
    ensures
        r@ == spec_decimal(n as nat),
    decreases n,
{
    if n < 10 {
        let mut s = String::new();
        push_char(&mut s, digit_char(n));
        assert(s@ == seq![spec_digit(n as nat)]);
        s
    } else {
        let mut s = decimal(n / 10);
        push_char(&mut s, digit_char(n % 10));
        s
    }
}

} // verus!
