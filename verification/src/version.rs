//! The order of versions: by their numbers where both have numbers, else as texts.

use crate::decimal::{all_digits, decimal_value, parse_u64};
use crate::text::{
    concat, lemma_lex_less_irreflexive, lemma_lex_less_transitive, lex_less, split, split_on, starts_with, text_less,
    texts,
};
use vstd::prelude::*;

verus! {

/// A version with `v` in front of it, as release tags are written.
pub open spec fn with_v(s: Seq<char>) -> Seq<char> {
    if "v"@.is_prefix_of(s) {
        s
    } else {
        "v"@ + s
    }
}

/// A version without the `v` that may stand in front of it.
pub open spec fn without_v(s: Seq<char>) -> Seq<char> {
    if s.len() > 0 && s[0] == 'v' {
        s.drop_first()
    } else {
        s
    }
}

/// A part of a version is a number: digits only, at least one, no more than a `u64` holds.
pub open spec fn is_number(s: Seq<char>) -> bool {
    s.len() > 0 && all_digits(s) && decimal_value(s) <= u64::MAX
}

/// The numbers that the given parts denote, where each part is a number.
pub open spec fn numbers_of(parts: Seq<Seq<char>>) -> Option<Seq<nat>> {
    if forall|i: int| 0 <= i < parts.len() ==> is_number(#[trigger] parts[i]) {
        Some(Seq::new(parts.len(), |i: int| decimal_value(parts[i])))
    } else {
        None
    }
}

/// The numbers of a version: what stands between the dots behind an optional `v`, where
/// all of it is numbers.
pub open spec fn version_numbers(v: Seq<char>) -> Option<Seq<nat>> {
    numbers_of(split_on(without_v(v), '.'))
}

/// The order of sequences of numbers, the first difference deciding.
pub open spec fn numbers_less(a: Seq<nat>, b: Seq<nat>) -> bool
    decreases a.len(),
{
    if b.len() == 0 {
        false
    } else if a.len() == 0 {
        true
    } else if a[0] != b[0] {
        a[0] < b[0]
    } else {
        numbers_less(a.drop_first(), b.drop_first())
    }
}

/// The order of versions. Two versions with numbers are ordered by their numbers, and
/// as texts where the numbers are the same; a version without numbers, such as a tag or
/// a branch, comes before every version with numbers; two versions without numbers are
/// ordered as texts.
pub open spec fn precedes(a: Seq<char>, b: Seq<char>) -> bool {
    match (version_numbers(a), version_numbers(b)) {
        (Some(x), Some(y)) => numbers_less(x, y) || (x == y && lex_less(a, b)),
        (Some(_), None) => false,
        (None, Some(_)) => true,
        (None, None) => lex_less(a, b),
    }
}

/// The order of `numbers_less` is transitive.
pub proof fn lemma_numbers_less_transitive(a: Seq<nat>, b: Seq<nat>, c: Seq<nat>)
    requires
        numbers_less(a, b),
        numbers_less(b, c),
    ensures
        numbers_less(a, c),
    decreases a.len(),
{
    if a.len() > 0 && b.len() > 0 && c.len() > 0 {
        if a[0] == b[0] && b[0] == c[0] {
            lemma_numbers_less_transitive(a.drop_first(), b.drop_first(), c.drop_first());
        }
    }
}

/// The order of versions is transitive.
pub proof fn lemma_precedes_transitive(a: Seq<char>, b: Seq<char>, c: Seq<char>)
    requires
        precedes(a, b),
        precedes(b, c),
    ensures
        precedes(a, c),
{
    match (version_numbers(a), version_numbers(b), version_numbers(c)) {
        (Some(x), Some(y), Some(z)) => {
            if numbers_less(x, y) && numbers_less(y, z) {
                lemma_numbers_less_transitive(x, y, z);
            } else if x == y && y == z {
                lemma_lex_less_transitive(a, b, c);
            }
        },
        (None, None, None) => {
            lemma_lex_less_transitive(a, b, c);
        },
        _ => {},
    }
}

/// No version comes before itself.
pub proof fn lemma_precedes_irreflexive(a: Seq<char>)
    ensures
        !precedes(a, a),
{
    lemma_lex_less_irreflexive(a);
    if version_numbers(a) is Some {
        lemma_numbers_less_irreflexive(version_numbers(a)->0);
    }
}

/// No sequence of numbers comes before itself.
pub proof fn lemma_numbers_less_irreflexive(a: Seq<nat>)
    ensures
        !numbers_less(a, a),
    decreases a.len(),
{
    if a.len() > 0 {
        lemma_numbers_less_irreflexive(a.drop_first());
    }
}

/// The values of a vector of numbers.
pub open spec fn values(v: Seq<u64>) -> Seq<nat> {
    Seq::new(v.len(), |i: int| v[i] as nat)
}

/// Reads a part of a version as a number.
fn parse_number(s: &str) -> (r: Option<u64>)
    ensures
        match r {
            Some(n) => is_number(s@) && n == decimal_value(s@),
            None => !is_number(s@),
        },
{
    if s.unicode_len() == 0 {
        return None;
    }
    if s.get_char(0) == '+' {
        assert(!crate::decimal::is_digit(s@[0]));
        return None;
    }
    parse_u64(s)
}

/// Reads the numbers of a version.
pub fn parse_version_numbers(version: &str) -> (r: Option<Vec<u64>>)
    ensures
        match r {
            Some(v) => version_numbers(version@) == Some(values(v@)),
            None => version_numbers(version@) is None,
        },
{
    let len = version.unicode_len();
    let body = if len > 0 && version.get_char(0) == 'v' {
        version.substring_char(1, len)
    } else {
        version
    };
    assert(body@ == without_v(version@));
    let parts = split(body, '.');
    let ghost texts_of_parts = texts(parts@);
    let mut numbers: Vec<u64> = Vec::new();
    let mut i: usize = 0;
    while i < parts.len()
        invariant
            i <= parts.len(),
            numbers@.len() == i,
            texts_of_parts == texts(parts@),
            texts_of_parts == split_on(without_v(version@), '.'),
            forall|j: int| 0 <= j < i ==> is_number(#[trigger] texts_of_parts[j]),
            forall|j: int| 0 <= j < i ==> numbers@[j] == decimal_value(#[trigger] texts_of_parts[j]),
        decreases parts.len() - i,
    {
        assert(texts_of_parts[i as int] == parts@[i as int]@);
        match parse_number(parts[i].as_str()) {
            Some(n) => {
                numbers.push(n);
            },
            None => {
                assert(!is_number(texts_of_parts[i as int]));
                return None;
            },
        }
        i = i + 1;
    }
    assert(values(numbers@) =~= Seq::new(texts_of_parts.len(), |i: int| decimal_value(texts_of_parts[i])));
    Some(numbers)
}

/// Whether `a` comes before `b` in the order of `numbers_less`.
fn numbers_precede(a: &Vec<u64>, b: &Vec<u64>) -> (r: bool)
    ensures
        r == numbers_less(values(a@), values(b@)),
{
    let mut i: usize = 0;
    let ghost x = values(a@);
    let ghost y = values(b@);
    assert(x.subrange(0, x.len() as int) == x);
    assert(y.subrange(0, y.len() as int) == y);
    while i < a.len() && i < b.len()
        invariant
            i <= a.len(),
            i <= b.len(),
            x == values(a@),
            y == values(b@),
            numbers_less(x, y) == numbers_less(
                x.subrange(i as int, x.len() as int),
                y.subrange(i as int, y.len() as int),
            ),
        decreases a.len() - i,
    {
        if a[i] != b[i] {
            return a[i] < b[i];
        }
        assert(x.subrange(i as int, x.len() as int).drop_first() == x.subrange(
            i as int + 1,
            x.len() as int,
        ));
        assert(y.subrange(i as int, y.len() as int).drop_first() == y.subrange(
            i as int + 1,
            y.len() as int,
        ));
        i = i + 1;
    }
    i < b.len()
}

/// Whether two vectors hold the same numbers.
fn numbers_equal(a: &Vec<u64>, b: &Vec<u64>) -> (r: bool)
    ensures
        r == (values(a@) == values(b@)),
{
    if a.len() != b.len() {
        assert(values(a@).len() != values(b@).len());
        return false;
    }
    let mut i: usize = 0;
    while i < a.len()
        invariant
            i <= a.len(),
            a.len() == b.len(),
            forall|j: int| 0 <= j < i ==> a@[j] == b@[j],
        decreases a.len() - i,
    {
        if a[i] != b[i] {
            assert(values(a@)[i as int] != values(b@)[i as int]);
            return false;
        }
        i = i + 1;
    }
    assert(values(a@) =~= values(b@));
    true
}

/// Whether the version `a` comes before the version `b`.
pub fn version_precedes(a: &str, b: &str) -> (r: bool)
    ensures
        r == precedes(a@, b@),
{
    match (parse_version_numbers(a), parse_version_numbers(b)) {
        (Some(x), Some(y)) => numbers_precede(&x, &y) || (numbers_equal(&x, &y) && text_less(a, b)),
        (Some(_), None) => false,
        (None, Some(_)) => true,
        (None, None) => text_less(a, b),
    }
}

/// Puts `v` in front of a version that does not begin with it, as release tags are written.
pub fn ensure_version_prefix(version: &str) -> (r: String)
    ensures
        r@ == with_v(version@),
{
    if starts_with(version, "v") {
        String::from_str(version)
    } else {
        concat("v", version)
    }
}

} // verus!
