//! Acronym-aware identifier case conversion.
//!
//! A shared word tokenizer splits an identifier at underscores and at
//! camel-hump boundaries, with a lookahead rule that lets a new
//! capitalized word begin after a run of acronym letters. `to_snake`
//! joins the words with underscores and lowercases the result;
//! `to_camel` capitalizes each word and concatenates them.

use vstd::prelude::*;

use crate::text::chars_of;
use crate::text::string_from_chars;

verus! {

/// Whether a character has the Unicode uppercase property.
pub uninterp spec fn uppercase_char(c: char) -> bool;

/// Whether a character has the Unicode lowercase property.
pub uninterp spec fn lowercase_char(c: char) -> bool;

/// The Unicode lowercase mapping of a whole character sequence.
pub uninterp spec fn lower_seq(s: Seq<char>) -> Seq<char>;

/// Relies on `char::is_uppercase`: the result depends on the
/// character alone.
#[verifier::external_body]
fn char_is_uppercase(c: char) -> (r: bool)
    ensures
        r == uppercase_char(c),
{
    c.is_uppercase()
}

/// Relies on `char::is_lowercase`: the result depends on the
/// character alone.
#[verifier::external_body]
fn char_is_lowercase(c: char) -> (r: bool)
    ensures
        r == lowercase_char(c),
{
    c.is_lowercase()
}

/// Relies on `str::to_lowercase`: the result depends on the
/// characters alone.
#[verifier::external_body]
fn str_to_lowercase(s: &str) -> (r: String)
    ensures
        r@ == lower_seq(s@),
{
    s.to_lowercase()
}

/// The ASCII uppercase mapping of one character: `a` to `z` move to
/// `A` to `Z`, everything else is unchanged.
pub open spec fn spec_to_ascii_uppercase(c: char) -> char {
    if 97 <= c as u32 <= 122 {
        ((c as u32) - 32) as char
    } else {
        c
    }
}

/// The ASCII lowercase mapping of one character: `A` to `Z` move to
/// `a` to `z`, everything else is unchanged.
pub open spec fn spec_to_ascii_lowercase(c: char) -> char {
    if 65 <= c as u32 <= 90 {
        ((c as u32) + 32) as char
    } else {
        c
    }
}

/// Relies on `char::to_ascii_uppercase`, whose documented result is
/// the ASCII uppercase mapping.
#[verifier::external_body]
fn char_to_ascii_uppercase(c: char) -> (r: char)
    ensures
        r == spec_to_ascii_uppercase(c),
{
    c.to_ascii_uppercase()
}

/// Relies on `char::to_ascii_lowercase`, whose documented result is
/// the ASCII lowercase mapping.
#[verifier::external_body]
fn char_to_ascii_lowercase(c: char) -> (r: char)
    ensures
        r == spec_to_ascii_lowercase(c),
{
    c.to_ascii_lowercase()
}

/// Whether a new word starts at position `i`: at an underscore, or at
/// an uppercase character that either follows a lowercase one (an
/// ordinary camel hump) or follows an uppercase one and is itself
/// followed by at least two lowercase characters (the start of a
/// capitalized word after an acronym run).
pub open spec fn word_boundary(s: Seq<char>, i: int) -> bool {
    ||| s[i] == '_'
    ||| (i > 0 && uppercase_char(s[i]) && (lowercase_char(s[i - 1]) || (uppercase_char(s[i - 1])
        && i + 2 < s.len() && lowercase_char(s[i + 1]) && lowercase_char(s[i + 2]))))
}

/// The word segmentation, walking the characters from position `i`
/// with the current word `cur` and the words finished so far `acc`.
/// Underscores separate words and never appear in one.
pub open spec fn words_rec(
    s: Seq<char>,
    i: int,
    cur: Seq<char>,
    acc: Seq<Seq<char>>,
) -> Seq<Seq<char>>
    decreases s.len() - i,
{
    if i < 0 || i >= s.len() {
        acc.push(cur)
    } else if word_boundary(s, i) {
        words_rec(
            s,
            i + 1,
            if s[i] == '_' {
                Seq::empty()
            } else {
                seq![s[i]]
            },
            acc.push(cur),
        )
    } else {
        words_rec(
            s,
            i + 1,
            if s[i] == '_' {
                cur
            } else {
                cur.push(s[i])
            },
            acc,
        )
    }
}

/// The words of an identifier, in order. There is always at least
/// one (possibly empty) word.
pub open spec fn words_of(s: Seq<char>) -> Seq<Seq<char>> {
    words_rec(s, 0, Seq::empty(), Seq::empty())
}

/// Words joined with single underscores.
pub open spec fn join_underscore(ws: Seq<Seq<char>>) -> Seq<char>
    decreases ws.len(),
{
    if ws.len() == 0 {
        Seq::empty()
    } else if ws.len() == 1 {
        ws[0]
    } else {
        join_underscore(ws.drop_last()) + seq!['_'] + ws.last()
    }
}

/// One word in camel shape: the first character in ASCII uppercase,
/// the rest in ASCII lowercase.
pub open spec fn camel_word(w: Seq<char>) -> Seq<char> {
    if w.len() == 0 {
        Seq::empty()
    } else {
        seq![spec_to_ascii_uppercase(w[0])] + w.skip(1).map_values(
            |c: char| spec_to_ascii_lowercase(c),
        )
    }
}

/// Words concatenated in camel shape; empty words contribute nothing.
pub open spec fn camel_join(ws: Seq<Seq<char>>) -> Seq<char>
    decreases ws.len(),
{
    if ws.len() == 0 {
        Seq::empty()
    } else {
        camel_join(ws.drop_last()) + camel_word(ws.last())
    }
}

/// Split an identifier into its words.
#[verifier::loop_isolation(false)]
pub fn tokenize_to_words(s: &str) -> (r: Vec<String>)
    ensures
        r@.map_values(|w: String| w@) == words_of(s@),
        r@.len() >= 1,
{
    let chars = chars_of(s);
    let n = chars.len();
    let mut cur: Vec<char> = Vec::new();
    let mut out: Vec<String> = Vec::new();
    let mut i: usize = 0;
    proof {
        assert(out@.map_values(|w: String| w@) =~= Seq::<Seq<char>>::empty());
    }
    while i < n
        invariant
            0 <= i <= n,
            n == s@.len(),
            chars@ == s@,
            words_of(s@) == words_rec(
                s@,
                i as int,
                cur@,
                out@.map_values(|w: String| w@),
            ),
        decreases n - i,
    {
        let ghost acc0 = out@.map_values(|w: String| w@);
        let c = chars[i];
        let is_boundary = c == '_' || (i > 0 && char_is_uppercase(c) && (char_is_lowercase(
            chars[i - 1],
        ) || (char_is_uppercase(chars[i - 1]) && n - i > 2 && char_is_lowercase(chars[i + 1])
            && char_is_lowercase(chars[i + 2]))));
        proof {
            assert(is_boundary == word_boundary(s@, i as int));
        }
        if is_boundary {
            let word = string_from_chars(&cur);
            out.push(word);
            cur = Vec::new();
            if c != '_' {
                cur.push(c);
            }
            proof {
                assert(out@.map_values(|w: String| w@) =~= acc0.push(word@));
                if c != '_' {
                    assert(cur@ =~= seq![s@[i as int]]);
                } else {
                    assert(cur@ =~= Seq::<char>::empty());
                }
            }
        } else {
            if c != '_' {
                cur.push(c);
            }
        }
        i += 1;
    }
    let ghost accf = out@.map_values(|w: String| w@);
    let word = string_from_chars(&cur);
    out.push(word);
    proof {
        assert(out@.map_values(|w: String| w@) =~= accf.push(cur@));
    }
    out
}

/// Join segmented words with underscores and lowercase the whole
/// result.
#[verifier::loop_isolation(false)]
pub fn to_snake(s: &str) -> (r: String)
    ensures
        r@ == lower_seq(join_underscore(words_of(s@))),
{
    let words = tokenize_to_words(s);
    let ghost wviews = words@.map_values(|w: String| w@);
    let mut joined = String::new();
    let mut i: usize = 0;
    proof {
        reveal_strlit("_");
    }
    while i < words.len()
        invariant
            0 <= i <= words@.len(),
            wviews == words@.map_values(|w: String| w@),
            joined@ == join_underscore(wviews.take(i as int)),
        decreases words@.len() - i,
    {
        proof {
            assert(wviews.take(i + 1).drop_last() =~= wviews.take(i as int));
            assert(wviews.take(i + 1).last() == wviews[i as int]);
        }
        if i > 0 {
            joined.append("_");
        } else {
            proof {
                assert(wviews.take(1) =~= seq![wviews[0]]);
            }
        }
        joined.append(words[i].as_str());
        i += 1;
    }
    proof {
        assert(wviews.take(wviews.len() as int) =~= wviews);
    }
    str_to_lowercase(joined.as_str())
}

/// Capitalize each word and concatenate them with no separator.
#[verifier::loop_isolation(false)]
pub fn to_camel(s: &str) -> (r: String)
    ensures
        r@ == camel_join(words_of(s@)),
{
    let words = tokenize_to_words(s);
    let ghost wviews = words@.map_values(|w: String| w@);
    let mut acc: Vec<char> = Vec::new();
    let mut i: usize = 0;
    proof {
        assert(acc@ =~= camel_join(wviews.take(0)));
    }
    while i < words.len()
        invariant
            0 <= i <= words@.len(),
            wviews == words@.map_values(|w: String| w@),
            acc@ == camel_join(wviews.take(i as int)),
        decreases words@.len() - i,
    {
        proof {
            assert(wviews.take(i + 1).drop_last() =~= wviews.take(i as int));
            assert(wviews.take(i + 1).last() == wviews[i as int]);
        }
        let ghost w = wviews[i as int];
        let ghost before = acc@;
        let word_chars = chars_of(words[i].as_str());
        let mut j: usize = 0;
        while j < word_chars.len()
            invariant
                0 <= j <= word_chars@.len(),
                word_chars@ == w,
                j == 0 ==> acc@ == before,
                j > 0 ==> acc@ == before + camel_word(w.take(j as int)),
            decreases word_chars@.len() - j,
        {
            if j == 0 {
                acc.push(char_to_ascii_uppercase(word_chars[0]));
                proof {
                    assert(camel_word(w.take(1)) =~= seq![spec_to_ascii_uppercase(w[0])]);
                    assert(acc@ =~= before + camel_word(w.take(1)));
                }
            } else {
                acc.push(char_to_ascii_lowercase(word_chars[j]));
                proof {
                    assert(w.take(j + 1).skip(1) =~= w.take(j as int).skip(1).push(w[j as int]));
                    assert(w.take(j + 1).skip(1).map_values(|c: char| spec_to_ascii_lowercase(c))
                        =~= w.take(j as int).skip(1).map_values(
                        |c: char| spec_to_ascii_lowercase(c),
                    ).push(spec_to_ascii_lowercase(w[j as int])));
                    assert(acc@ =~= before + camel_word(w.take(j + 1)));
                }
            }
            j += 1;
        }
        proof {
            if w.len() == 0 {
                assert(camel_word(w) =~= Seq::<char>::empty());
                assert(acc@ =~= before + camel_word(w));
            } else {
                assert(w.take(w.len() as int) =~= w);
            }
            assert(acc@ =~= camel_join(wviews.take(i + 1)));
        }
        i += 1;
    }
    proof {
        assert(wviews.take(wviews.len() as int) =~= wviews);
    }
    string_from_chars(&acc)
}

} // verus!
