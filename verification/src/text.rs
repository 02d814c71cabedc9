//! Character-level text utilities shared by the pattern parser and the
//! identifier case converter: splitting on a separator and conversion
//! between strings and character vectors.

use vstd::prelude::*;

verus! {

/// Fields of `cur + s` split on `sep`: `cur` is the part of the current
/// field read so far.
pub open spec fn split_rec(s: Seq<char>, sep: char, cur: Seq<char>) -> Seq<Seq<char>>
    decreases s.len(),
{
    if s.len() == 0 {
        seq![cur]
    } else if s[0] == sep {
        seq![cur] + split_rec(s.skip(1), sep, Seq::empty())
    } else {
        split_rec(s.skip(1), sep, cur.push(s[0]))
    }
}

/// Fields of `s` split on `sep`, in order. Always at least one field;
/// adjacent separators and separators at the edges yield empty fields.
pub open spec fn split_on(s: Seq<char>, sep: char) -> Seq<Seq<char>> {
    split_rec(s, sep, Seq::empty())
}

/// A string without the separator is a single field: the accumulator
/// followed by the whole string.
pub proof fn lemma_split_rec_no_sep(s: Seq<char>, sep: char, cur: Seq<char>)
    requires
        forall|i: int| 0 <= i < s.len() ==> s[i] != sep,
    ensures
        split_rec(s, sep, cur) == seq![cur + s],
    decreases s.len(),
{
    if s.len() == 0 {
        assert(cur + s =~= cur);
    } else {
        lemma_split_rec_no_sep(s.skip(1), sep, cur.push(s[0]));
        assert(cur.push(s[0]) + s.skip(1) =~= cur + s);
    }
}

/// Splitting distributes over a separator: the fields of
/// `a + [sep] + b` are the fields of `a` followed by the fields of `b`.
pub proof fn lemma_split_rec_sep_append(a: Seq<char>, b: Seq<char>, sep: char, cur: Seq<char>)
    ensures
        split_rec(a + seq![sep] + b, sep, cur) == split_rec(a, sep, cur) + split_on(b, sep),
    decreases a.len(),
{
    let s = a + seq![sep] + b;
    if a.len() == 0 {
        assert(s[0] == sep);
        assert(s.skip(1) =~= b);
        assert(split_rec(a, sep, cur) =~= seq![cur]);
    } else if a[0] == sep {
        assert(s.skip(1) =~= a.skip(1) + seq![sep] + b);
        lemma_split_rec_sep_append(a.skip(1), b, sep, Seq::empty());
    } else {
        assert(s.skip(1) =~= a.skip(1) + seq![sep] + b);
        lemma_split_rec_sep_append(a.skip(1), b, sep, cur.push(a[0]));
    }
}

/// Split a string into its fields around `sep`.
pub fn split_str(s: &str, sep: char) -> (r: Vec<String>)
    ensures
        r@.map_values(|f: String| f@) == split_on(s@, sep),
        r@.len() >= 1,
{
    let n = s.unicode_len();
    let mut fields: Vec<String> = Vec::new();
    let mut start: usize = 0;
    let mut i: usize = 0;
    proof {
        assert(s@.skip(0) =~= s@);
        assert(s@.subrange(0, 0) =~= Seq::<char>::empty());
        assert(fields@.map_values(|f: String| f@) + split_rec(s@, sep, Seq::empty()) =~= split_rec(
            s@,
            sep,
            Seq::empty(),
        ));
    }
    while i < n
        invariant
            0 <= start <= i <= n,
            n == s@.len(),
            split_on(s@, sep) == fields@.map_values(|f: String| f@) + split_rec(
                s@.skip(i as int),
                sep,
                s@.subrange(start as int, i as int),
            ),
        decreases n - i,
    {
        let ghost done = fields@.map_values(|f: String| f@);
        let ghost cur = s@.subrange(start as int, i as int);
        let c = s.get_char(i);
        proof {
            assert(s@.skip(i as int)[0] == c);
            assert(s@.skip(i as int).skip(1) =~= s@.skip(i + 1));
        }
        if c == sep {
            let field = String::from_str(s.substring_char(start, i));
            fields.push(field);
            proof {
                assert(fields@.map_values(|f: String| f@) =~= done.push(cur));
                assert(done.push(cur) + split_rec(s@.skip(i + 1), sep, Seq::empty()) =~= done + (
                seq![cur] + split_rec(s@.skip(i + 1), sep, Seq::empty())));
                assert(s@.subrange(i + 1, i + 1) =~= Seq::<char>::empty());
            }
            start = i + 1;
        } else {
            proof {
                assert(cur.push(c) =~= s@.subrange(start as int, i + 1));
            }
        }
        i += 1;
    }
    let field = String::from_str(s.substring_char(start, n));
    fields.push(field);
    proof {
        assert(s@.skip(n as int) =~= Seq::<char>::empty());
        let done = fields@.map_values(|f: String| f@);
        assert(done =~= fields@.map_values(|f: String| f@));
        assert(fields@.map_values(|f: String| f@) =~= split_on(s@, sep));
    }
    fields
}

/// The parts of `s` before and after the last occurrence of `sep`;
/// `None` when `sep` does not occur.
pub open spec fn last_split(s: Seq<char>, sep: char) -> Option<(Seq<char>, Seq<char>)>
    decreases s.len(),
{
    if s.len() == 0 {
        None
    } else if s.last() == sep {
        Some((s.drop_last(), Seq::empty()))
    } else {
        match last_split(s.drop_last(), sep) {
            None => None,
            Some((a, b)) => Some((a, b.push(s.last()))),
        }
    }
}

/// If the separator at `i` is the last one, `last_split` cuts there.
proof fn lemma_last_split_at(s: Seq<char>, sep: char, i: int)
    requires
        0 <= i < s.len(),
        s[i] == sep,
        forall|j: int| i < j < s.len() ==> s[j] != sep,
    ensures
        last_split(s, sep) == Some((s.take(i), s.skip(i + 1))),
    decreases s.len(),
{
    if i == s.len() - 1 {
        assert(s.take(i) =~= s.drop_last());
        assert(s.skip(i + 1) =~= Seq::<char>::empty());
    } else {
        lemma_last_split_at(s.drop_last(), sep, i);
        assert(s.drop_last().take(i) =~= s.take(i));
        assert(s.drop_last().skip(i + 1).push(s.last()) =~= s.skip(i + 1));
    }
}

/// No separator anywhere: `last_split` finds nothing.
proof fn lemma_last_split_none(s: Seq<char>, sep: char)
    requires
        forall|j: int| 0 <= j < s.len() ==> s[j] != sep,
    ensures
        last_split(s, sep) is None,
    decreases s.len(),
{
    if s.len() > 0 {
        lemma_last_split_none(s.drop_last(), sep);
    }
}

/// Split a string around the last occurrence of `sep`: the part before
/// it and the part after it. `None` when `sep` does not occur.
pub fn rsplit_once_str(s: &str, sep: char) -> (r: Option<(String, String)>)
    ensures
        r is Some <==> last_split(s@, sep) is Some,
        r matches Some((a, b)) ==> last_split(s@, sep) matches Some((x, y)) && a@ == x && b@ == y,
{
    let n = s.unicode_len();
    let mut i: usize = n;
    while i > 0
        invariant
            0 <= i <= n,
            n == s@.len(),
            forall|j: int| i <= j < n ==> s@[j] != sep,
        decreases i,
    {
        i -= 1;
        if s.get_char(i) == sep {
            let a = String::from_str(s.substring_char(0, i));
            let b = String::from_str(s.substring_char(i + 1, n));
            proof {
                assert(a@ =~= s@.take(i as int));
                assert(b@ =~= s@.skip(i + 1));
                lemma_last_split_at(s@, sep, i as int);
            }
            return Some((a, b));
        }
    }
    proof {
        lemma_last_split_none(s@, sep);
    }
    None
}

/// The characters of a string, in order.
pub fn chars_of(s: &str) -> (r: Vec<char>)
    ensures
        r@ == s@,
{
    let n = s.unicode_len();
    let mut chars: Vec<char> = Vec::new();
    let mut i: usize = 0;
    while i < n
        invariant
            0 <= i <= n,
            n == s@.len(),
            chars@ == s@.take(i as int),
        decreases n - i,
    {
        chars.push(s.get_char(i));
        proof {
            assert(chars@ =~= s@.take(i + 1));
        }
        i += 1;
    }
    proof {
        assert(s@.take(n as int) =~= s@);
    }
    chars
}

/// Relies on `Iterator::collect` for `String`, which concatenates the
/// characters of the iterator in order.
#[verifier::external_body]
pub fn string_from_chars(chars: &Vec<char>) -> (r: String)
    ensures
        r@ == chars@,
{
    chars.iter().collect()
}

/// Whether the string is the single character `c`.
pub fn is_single_char(s: &str, c: char) -> (r: bool)
    ensures
        r == (s@ == seq![c]),
{
    let n = s.unicode_len();
    if n == 1 && s.get_char(0) == c {
        proof {
            assert(s@ =~= seq![c]);
        }
        true
    } else {
        proof {
            if s@ == seq![c] {
                assert(s@.len() == 1);
                assert(s@[0] == c);
            }
        }
        false
    }
}

} // verus!
