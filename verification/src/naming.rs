//! Naming rules shared by the GraphQL executor: plural forms and the
//! conversions between PascalCase / camelCase and snake_case.

use vstd::prelude::*;
use crate::text::{
    char_is_uppercase, char_to_ascii_lowercase, is_ascii_text, is_ascii_upper, owned, push_char, spec_ascii_lower,
    spec_is_upper, spec_starts_with, strip_prefix,
};

verus! {

/// The simple English plural used for query field names.
pub open spec fn spec_pluralize(w: Seq<char>) -> Seq<char> {
    if w.len() >= 1 && w.last() == 'y' {
        w.drop_last() + "ies"@
    } else if (w.len() >= 1 && w.last() == 's') || (w.len() >= 2 && w[w.len() - 2] == 's'
        && w.last() == 'h') || (w.len() >= 2 && w[w.len() - 2] == 'c' && w.last() == 'h') {
        w + "es"@
    } else {
        w + "s"@
    }
}

/// Simple pluralization: "baby" -> "babies", "bus" -> "buses",
/// "church" -> "churches", "dish" -> "dishes", "order" -> "orders".
pub fn pluralize(word: &str) -> (r: String)
    ensures
        r@ == spec_pluralize(word@),
{
    let n = word.unicode_len();
    if n >= 1 && word.get_char(n - 1) == 'y' {
        let mut r = owned(word.substring_char(0, n - 1));
        r.append("ies");
        assert(word@.subrange(0, n - 1) == word@.drop_last());
        return r;
    }
    let last_s = n >= 1 && word.get_char(n - 1) == 's';
    let sh = n >= 2 && word.get_char(n - 2) == 's' && word.get_char(n - 1) == 'h';
    let ch = n >= 2 && word.get_char(n - 2) == 'c' && word.get_char(n - 1) == 'h';
    let mut r = owned(word);
    if last_s || sh || ch {
        r.append("es");
    } else {
        r.append("s");
    }
    r
}

/// What one character of the input becomes in snake_case: an upper-case
/// character is lower-cased (ASCII) and, unless it is the first character,
/// preceded by an underscore.
pub open spec fn spec_snake_piece(c: char, first: bool) -> Seq<char> {
    if spec_is_upper(c) {
        if first {
            seq![spec_ascii_lower(c)]
        } else {
            seq!['_', spec_ascii_lower(c)]
        }
    } else {
        seq![c]
    }
}

/// snake_case form of a PascalCase or camelCase name.
pub open spec fn spec_to_snake(s: Seq<char>) -> Seq<char>
    decreases s.len(),
{
    if s.len() == 0 {
        Seq::empty()
    } else {
        spec_to_snake(s.drop_last()) + spec_snake_piece(s.last(), s.len() == 1)
    }
}

fn to_snake(s: &str) -> (r: String)
    ensures
        r@ == spec_to_snake(s@),
{
    let n = s.unicode_len();
    let mut result = String::new();
    let mut i: usize = 0;
    assert(s@.subrange(0, 0) == Seq::<char>::empty());
    while i < n
        invariant
            n == s@.len(),
            i <= n,
            result@ == spec_to_snake(s@.subrange(0, i as int)),
        decreases n - i,
    {
        let ch = s.get_char(i);
        assert(s@.subrange(0, i + 1).drop_last() == s@.subrange(0, i as int));
        assert(s@.subrange(0, i + 1).last() == ch);
        if char_is_uppercase(ch) {
            if i > 0 {
                push_char(&mut result, '_');
            }
            push_char(&mut result, char_to_ascii_lowercase(ch));
        } else {
            push_char(&mut result, ch);
        }
        i = i + 1;
    }
    assert(s@.subrange(0, n as int) == s@);
    result
}

/// Convert PascalCase to snake_case ("OrderItem" -> "order_item").
pub fn pascal_to_snake(s: &str) -> (r: String)
    ensures
        r@ == spec_to_snake(s@),
{
    to_snake(s)
}

/// Convert camelCase to snake_case ("createdAt" -> "created_at").
pub fn camel_to_snake(s: &str) -> (r: String)
    ensures
        r@ == spec_to_snake(s@),
{
    to_snake(s)
}

/// The name with `prefix` removed when it starts with it, else unchanged.
pub open spec fn spec_without_prefix(name: Seq<char>, prefix: Seq<char>) -> Seq<char> {
    if spec_starts_with(name, prefix) {
        name.subrange(prefix.len() as int, name.len() as int)
    } else {
        name
    }
}

/// Entity type named by a mutation ("createOrder", "create" -> "order").
/// When the name does not start with the prefix the whole name is used.
pub fn mutation_name_to_entity_type(mutation_name: &str, prefix: &str) -> (r: String)
    ensures
        r@ == spec_to_snake(spec_without_prefix(mutation_name@, prefix@)),
{
    match strip_prefix(mutation_name, prefix) {
        Some(rest) => to_snake(rest.as_str()),
        None => to_snake(mutation_name),
    }
}

/// A name with no upper-case character is already in snake_case: the
/// conversion leaves it unchanged.
pub proof fn law_snake_case_fixed_point(s: Seq<char>)
    requires
        forall|i: int| 0 <= i < s.len() ==> !spec_is_upper(#[trigger] s[i]),
    ensures
        spec_to_snake(s) == s,
    decreases s.len(),
{
    if s.len() == 0 {
        assert(s == Seq::<char>::empty());
    } else {
        assert(!spec_is_upper(s[s.len() - 1]));
        law_snake_case_fixed_point(s.drop_last());
        assert(s.drop_last().push(s.last()) == s);
        assert(s.drop_last() + seq![s.last()] == s);
    }
}

/// snake_case form of characters that follow the first one: every
/// upper-case character is lower-cased and preceded by an underscore.
pub open spec fn spec_snake_tail(s: Seq<char>) -> Seq<char>
    decreases s.len(),
{
    if s.len() == 0 {
        Seq::empty()
    } else {
        spec_snake_tail(s.drop_last()) + spec_snake_piece(s.last(), false)
    }
}

/// Converting a name that has a non-empty head converts the rest as a tail.
pub proof fn lemma_snake_append(x: Seq<char>, y: Seq<char>)
    requires
        x.len() >= 1,
    ensures
        spec_to_snake(x + y) == spec_to_snake(x) + spec_snake_tail(y),
    decreases y.len(),
{
    if y.len() == 0 {
        assert(x + y == x);
    } else {
        lemma_snake_append(x, y.drop_last());
        assert((x + y).drop_last() == x + y.drop_last());
        assert((x + y).last() == y.last());
    }
}

/// The tail conversion works character by character.
pub proof fn lemma_snake_tail_append(x: Seq<char>, y: Seq<char>)
    ensures
        spec_snake_tail(x + y) == spec_snake_tail(x) + spec_snake_tail(y),
    decreases y.len(),
{
    if y.len() == 0 {
        assert(x + y == x);
    } else {
        lemma_snake_tail_append(x, y.drop_last());
        assert((x + y).drop_last() == x + y.drop_last());
        assert((x + y).last() == y.last());
    }
}

/// Characters that are not upper-case pass through the tail conversion.
pub proof fn lemma_snake_tail_plain(s: Seq<char>)
    requires
        forall|i: int| 0 <= i < s.len() ==> !spec_is_upper(#[trigger] s[i]),
    ensures
        spec_snake_tail(s) == s,
    decreases s.len(),
{
    if s.len() > 0 {
        assert(!spec_is_upper(s[s.len() - 1]));
        lemma_snake_tail_plain(s.drop_last());
        assert(s.drop_last() + seq![s.last()] == s);
    }
}

/// `s` with its underscores removed.
pub open spec fn spec_without_underscores(s: Seq<char>) -> Seq<char>
    decreases s.len(),
{
    if s.len() == 0 {
        Seq::empty()
    } else {
        spec_without_underscores(s.drop_last()) + (if s.last() == '_' {
            Seq::<char>::empty()
        } else {
            seq![s.last()]
        })
    }
}

proof fn lemma_without_underscores_append(x: Seq<char>, y: Seq<char>)
    ensures
        spec_without_underscores(x + y) == spec_without_underscores(x) + spec_without_underscores(y),
    decreases y.len(),
{
    if y.len() == 0 {
        assert(x + y =~= x);
        assert(spec_without_underscores(x) + Seq::<char>::empty() =~= spec_without_underscores(x));
    } else {
        lemma_without_underscores_append(x, y.drop_last());
        assert((x + y).drop_last() =~= x + y.drop_last());
        assert((x + y).last() == y.last());
    }
}

proof fn lemma_without_underscores_single(x: char)
    ensures
        spec_without_underscores(seq![x]) == (if x == '_' {
            Seq::<char>::empty()
        } else {
            seq![x]
        }),
{
    assert(seq![x].drop_last() =~= Seq::<char>::empty());
    assert(seq![x].last() == x);
    assert(spec_without_underscores(Seq::<char>::empty()) == Seq::<char>::empty());
    assert(Seq::<char>::empty() + seq![x] =~= seq![x]);
    assert(Seq::<char>::empty() + Seq::<char>::empty() =~= Seq::<char>::empty());
}

/// The snake_case form of an ASCII name: ASCII, without capitals, and
/// with its underscores removed the lower-cased name without underscores.
proof fn lemma_snake_of_ascii(s: Seq<char>)
    requires
        is_ascii_text(s),
    ensures
        is_ascii_text(spec_to_snake(s)),
        forall|i: int| 0 <= i < spec_to_snake(s).len() ==> !is_ascii_upper(#[trigger] spec_to_snake(s)[i]),
        spec_without_underscores(spec_to_snake(s)) == spec_without_underscores(
            s.map_values(|c: char| spec_ascii_lower(c)),
        ),
    decreases s.len(),
{
    if s.len() == 0 {
        assert(s.map_values(|c: char| spec_ascii_lower(c)) =~= Seq::<char>::empty());
    } else {
        let init = s.drop_last();
        let c = s.last();
        assert(is_ascii_text(init)) by {
            assert forall|i: int| 0 <= i < init.len() implies (#[trigger] init[i] as u32) < 128 by {
                assert(init[i] == s[i]);
            }
        }
        assert((c as u32) < 128) by {
            assert(s[s.len() - 1] == c);
        }
        lemma_snake_of_ascii(init);
        let t = spec_to_snake(init);
        let p = spec_snake_piece(c, s.len() == 1);
        let lc = spec_ascii_lower(c);
        if is_ascii_upper(c) {
            assert((lc as u32) == (c as u32) + 32);
            assert(!is_ascii_upper(lc) && (lc as u32) < 128 && lc != '_');
        } else {
            assert(lc == c);
        }
        assert(forall|i: int| 0 <= i < p.len() ==> (#[trigger] p[i] as u32) < 128 && !is_ascii_upper(p[i]));
        assert forall|i: int| 0 <= i < (t + p).len() implies (#[trigger] (t + p)[i] as u32) < 128
            && !is_ascii_upper((t + p)[i]) by {
            if i < t.len() {
                assert((t + p)[i] == t[i]);
            } else {
                assert((t + p)[i] == p[i - t.len()]);
            }
        }
        lemma_without_underscores_append(t, p);
        let m = s.map_values(|c: char| spec_ascii_lower(c));
        assert(m =~= init.map_values(|c: char| spec_ascii_lower(c)).push(lc));
        assert(m.drop_last() =~= init.map_values(|c: char| spec_ascii_lower(c)));
        assert(m.last() == lc);
        lemma_without_underscores_single(lc);
        lemma_without_underscores_single(c);
        lemma_without_underscores_single('_');
        if p.len() == 2 {
            assert(p =~= seq!['_'] + seq![lc]);
            lemma_without_underscores_append(seq!['_'], seq![lc]);
        }
        assert(spec_without_underscores(seq![lc]) == spec_without_underscores(p));
        assert(m =~= m.drop_last() + seq![lc]);
        lemma_without_underscores_append(m.drop_last(), seq![lc]);
    }
}

/// The snake_case conversion of an ASCII name (`pascal_to_snake`,
/// `camel_to_snake`) leaves no capital letter, converting its result again
/// changes nothing, and with underscores removed the result is the
/// lower-cased name with underscores removed.
pub proof fn law_snake_case_of_ascii(s: Seq<char>)
    requires
        is_ascii_text(s),
    ensures
        forall|i: int| 0 <= i < spec_to_snake(s).len() ==> !is_ascii_upper(#[trigger] spec_to_snake(s)[i]),
        spec_to_snake(spec_to_snake(s)) == spec_to_snake(s),
        spec_without_underscores(spec_to_snake(s)) == spec_without_underscores(
            s.map_values(|c: char| spec_ascii_lower(c)),
        ),
{
    lemma_snake_of_ascii(s);
    let t = spec_to_snake(s);
    assert forall|i: int| 0 <= i < t.len() implies !spec_is_upper(#[trigger] t[i]) by {
        assert((t[i] as u32) < 128);
        assert(!is_ascii_upper(t[i]));
    }
    law_snake_case_fixed_point(t);
}

} // verus!
