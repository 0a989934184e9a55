//! Full-text query building for the episodic, project and global tiers.

use vstd::prelude::*;

use crate::text::{
    from_chars, is_alphanumeric, is_whitespace, join_strings, seq_join, spec_is_alphanumeric,
    spec_is_whitespace, split_whitespace, string_views, to_chars, ws_words,
};

verus! {

/// Characters kept in a search term: letters, digits and `_`.
pub open spec fn is_term_char(c: char) -> bool {
    spec_is_alphanumeric(c) || c == '_'
}

/// The term characters of a word, in order.
pub open spec fn term_chars(s: Seq<char>) -> Seq<char>
    decreases s.len(),
{
    if s.len() == 0 {
        Seq::empty()
    } else if is_term_char(s.last()) {
        term_chars(s.drop_last()).push(s.last())
    } else {
        term_chars(s.drop_last())
    }
}

/// The term characters of a word are exactly its letters, digits and
/// underscores (in the sense of `char::is_alphanumeric`), in order: every
/// kept character is one, each one is kept, and a word made only of them is
/// its own term.
pub proof fn lemma_term_chars_exact(s: Seq<char>)
    ensures
        forall|i: int| 0 <= i < term_chars(s).len() ==> is_term_char(#[trigger] term_chars(s)[i]),
        term_chars(s).len() <= s.len(),
        (forall|i: int| 0 <= i < s.len() ==> is_term_char(#[trigger] s[i])) ==> term_chars(s) == s,
        (forall|i: int| 0 <= i < s.len() ==> !is_term_char(#[trigger] s[i])) ==> term_chars(s).len() == 0,
        forall|i: int| 0 <= i < s.len() && is_term_char(#[trigger] s[i]) ==> term_chars(s).contains(s[i]),
    decreases s.len(),
{
    if s.len() > 0 {
        let p = s.drop_last();
        lemma_term_chars_exact(p);
        assert forall|i: int| 0 <= i < p.len() implies #[trigger] p[i] == s[i] by {}
        if forall|i: int| 0 <= i < s.len() ==> is_term_char(#[trigger] s[i]) {
            assert(is_term_char(s[s.len() - 1]));
            assert forall|i: int| 0 <= i < p.len() implies is_term_char(#[trigger] p[i]) by {
                assert(is_term_char(s[i]));
            }
            assert(s =~= p.push(s.last()));
        }
        if forall|i: int| 0 <= i < s.len() ==> !is_term_char(#[trigger] s[i]) {
            assert(!is_term_char(s[s.len() - 1]));
            assert forall|i: int| 0 <= i < p.len() implies !is_term_char(#[trigger] p[i]) by {
                assert(!is_term_char(s[i]));
            }
        }
        assert forall|i: int| 0 <= i < s.len() && is_term_char(#[trigger] s[i]) implies term_chars(s).contains(s[i]) by {
            if i < p.len() {
                assert(is_term_char(p[i]));
                assert(term_chars(p).contains(p[i]));
                let j = choose|j: int| 0 <= j < term_chars(p).len() && term_chars(p)[j] == p[i];
                if is_term_char(s.last()) {
                    assert(term_chars(s)[j] == p[i]);
                }
            } else {
                assert(term_chars(s) == term_chars(p).push(s.last()));
                assert(term_chars(s)[term_chars(p).len() as int] == s[i]);
            }
        }
        if is_term_char(s.last()) {
            let t = term_chars(s);
            assert forall|i: int| 0 <= i < t.len() implies is_term_char(#[trigger] t[i]) by {
                if i < term_chars(p).len() {
                    assert(t[i] == term_chars(p)[i]);
                }
            }
        }
    }
}

/// Every word made only of letters, digits and underscores is a term of
/// its own, quoted: the terms of such words are the words in quotes, in
/// order.
pub proof fn lemma_plain_words_are_terms(words: Seq<Seq<char>>)
    requires
        forall|k: int| 0 <= k < words.len() ==> (#[trigger] words[k]).len() > 0,
        forall|k: int, i: int| 0 <= k < words.len() && 0 <= i < words[k].len() ==> is_term_char(#[trigger] words[k][i]),
    ensures
        fts_terms(words) == words.map_values(|w: Seq<char>| phrase(w)),
    decreases words.len(),
{
    if words.len() > 0 {
        let p = words.drop_last();
        assert forall|k: int| 0 <= k < p.len() implies (#[trigger] p[k]).len() > 0 by {
            assert(p[k] == words[k]);
        }
        assert forall|k: int, i: int| 0 <= k < p.len() && 0 <= i < p[k].len() implies is_term_char(#[trigger] p[k][i]) by {
            assert(p[k] == words[k]);
            assert(is_term_char(words[k][i]));
        }
        lemma_plain_words_are_terms(p);
        let w = words.last();
        assert forall|i: int| 0 <= i < w.len() implies is_term_char(#[trigger] w[i]) by {
            assert(is_term_char(words[words.len() - 1][i]));
        }
        lemma_term_chars_exact(w);
        assert(term_chars(w) == w);
        assert(words.map_values(|w: Seq<char>| phrase(w)) =~= p.map_values(|w: Seq<char>| phrase(w)).push(phrase(w)));
    }
}

/// A query whose words are all made of letters, digits and underscores is
/// searched as those words, each quoted, joined with ` OR `.
pub proof fn lemma_plain_query(query: Seq<char>)
    requires
        ws_words(query).len() > 0,
        forall|k: int| 0 <= k < ws_words(query).len() ==> (#[trigger] ws_words(query)[k]).len() > 0,
        forall|k: int, i: int| 0 <= k < ws_words(query).len() && 0 <= i < ws_words(query)[k].len()
            ==> is_term_char(#[trigger] ws_words(query)[k][i]),
    ensures
        fts5_query(query) == seq_join(ws_words(query).map_values(|w: Seq<char>| phrase(w)), " OR "@),
{
    lemma_plain_words_are_terms(ws_words(query));
}

/// Characters kept in the fallback phrase: term characters and white space.
pub open spec fn fallback_chars(s: Seq<char>) -> Seq<char>
    decreases s.len(),
{
    if s.len() == 0 {
        Seq::empty()
    } else if is_term_char(s.last()) || spec_is_whitespace(s.last()) {
        fallback_chars(s.drop_last()).push(s.last())
    } else {
        fallback_chars(s.drop_last())
    }
}

/// The fallback phrase keeps exactly the letters, digits, underscores and
/// white space of the input, in order: each kept character is one of them,
/// and an input made only of them is kept whole.
pub proof fn lemma_fallback_chars_exact(s: Seq<char>)
    ensures
        forall|i: int| 0 <= i < fallback_chars(s).len() ==> is_term_char(#[trigger] fallback_chars(s)[i])
            || spec_is_whitespace(fallback_chars(s)[i]),
        fallback_chars(s).len() <= s.len(),
        (forall|i: int| 0 <= i < s.len() ==> is_term_char(#[trigger] s[i]) || spec_is_whitespace(s[i]))
            ==> fallback_chars(s) == s,
    decreases s.len(),
{
    if s.len() > 0 {
        let p = s.drop_last();
        lemma_fallback_chars_exact(p);
        if forall|i: int| 0 <= i < s.len() ==> is_term_char(#[trigger] s[i]) || spec_is_whitespace(s[i]) {
            assert(is_term_char(s[s.len() - 1]) || spec_is_whitespace(s[s.len() - 1]));
            assert forall|i: int| 0 <= i < p.len() implies is_term_char(#[trigger] p[i]) || spec_is_whitespace(p[i]) by {
                assert(p[i] == s[i]);
                assert(is_term_char(s[i]) || spec_is_whitespace(s[i]));
            }
            assert(s =~= p.push(s.last()));
        }
        let f = fallback_chars(s);
        assert forall|i: int| 0 <= i < f.len() implies is_term_char(#[trigger] f[i]) || spec_is_whitespace(f[i]) by {
            if i < fallback_chars(p).len() {
                assert(f[i] == fallback_chars(p)[i]);
            }
        }
    }
}

/// A phrase in double quotes.
pub open spec fn phrase(s: Seq<char>) -> Seq<char> {
    seq!['"'] + s + seq!['"']
}

/// The quoted terms of a list of words: each word's term characters in
/// quotes, words left with none passed over.
pub open spec fn fts_terms(words: Seq<Seq<char>>) -> Seq<Seq<char>>
    decreases words.len(),
{
    if words.len() == 0 {
        Seq::empty()
    } else if term_chars(words.last()).len() > 0 {
        fts_terms(words.drop_last()).push(phrase(term_chars(words.last())))
    } else {
        fts_terms(words.drop_last())
    }
}

/// The FTS5 query for user input: the quoted terms of its words joined
/// with ` OR `; where no word has a term character, the input's term
/// characters and white space as one quoted phrase.
pub open spec fn fts5_query(query: Seq<char>) -> Seq<char> {
    let terms = fts_terms(ws_words(query));
    if terms.len() == 0 {
        phrase(fallback_chars(query))
    } else {
        seq_join(terms, " OR "@)
    }
}

/// The term characters of a word.
fn keep_term_chars(s: &str) -> (r: String)
    ensures
        r@ == term_chars(s@),
{
    let cs = to_chars(s);
    let mut kept: Vec<char> = Vec::new();
    let mut i: usize = 0;
    while i < cs.len()
        invariant
            i <= cs.len(),
            cs@ == s@,
            kept@ == term_chars(cs@.take(i as int)),
        decreases cs.len() - i,
    {
        let c = cs[i];
        assert(cs@.take(i + 1).drop_last() =~= cs@.take(i as int));
        assert(cs@.take(i + 1).last() == c);
        if is_alphanumeric(c) || c == '_' {
            kept.push(c);
        }
        i = i + 1;
    }
    assert(cs@.take(cs.len() as int) =~= cs@);
    from_chars(kept.as_slice())
}

/// The fallback characters of the input.
fn keep_fallback_chars(s: &str) -> (r: String)
    ensures
        r@ == fallback_chars(s@),
{
    let cs = to_chars(s);
    let mut kept: Vec<char> = Vec::new();
    let mut i: usize = 0;
    while i < cs.len()
        invariant
            i <= cs.len(),
            cs@ == s@,
            kept@ == fallback_chars(cs@.take(i as int)),
        decreases cs.len() - i,
    {
        let c = cs[i];
        assert(cs@.take(i + 1).drop_last() =~= cs@.take(i as int));
        assert(cs@.take(i + 1).last() == c);
        if is_alphanumeric(c) || is_whitespace(c) || c == '_' {
            kept.push(c);
        }
        i = i + 1;
    }
    assert(cs@.take(cs.len() as int) =~= cs@);
    from_chars(kept.as_slice())
}

/// `s` in double quotes.
fn quote(s: &str) -> (r: String)
    ensures
        r@ == phrase(s@),
{
    let r = String::from_str("\"").concat(s).concat("\"");
    proof {
        reveal_strlit("\"");
        assert(r@ =~= phrase(s@));
    }
    r
}

/// Builds an FTS5 query from user input: special characters are removed
/// from each word and every remaining word is quoted, the words joined with
/// ` OR `; input without any such word becomes one quoted phrase of its
/// letters, digits, underscores and white space, so the query is never empty.
pub fn build_fts5_query(query: &str) -> (r: String)
    ensures
        r@ == fts5_query(query@),
        r@.len() >= 2,
{
    let words = split_whitespace(query);
    let ghost ws = string_views(words@);
    let mut terms: Vec<String> = Vec::new();
    let mut i: usize = 0;
    while i < words.len()
        invariant
            i <= words.len(),
            ws == string_views(words@),
            string_views(terms@) == fts_terms(ws.take(i as int)),
        decreases words.len() - i,
    {
        assert(ws.take(i + 1).drop_last() =~= ws.take(i as int));
        assert(ws.take(i + 1).last() == words@[i as int]@);
        let t = keep_term_chars(words[i].as_str());
        if !t.as_str().is_empty() {
            let ghost before = terms@;
            terms.push(quote(t.as_str()));
            assert(string_views(terms@) =~= string_views(before).push(phrase(t@)));
        }
        i = i + 1;
    }
    assert(ws.take(words.len() as int) =~= ws);
    if terms.len() == 0 {
        let fallback = keep_fallback_chars(query);
        quote(fallback.as_str())
    } else {
        let r = join_strings(terms.as_slice(), " OR ");
        proof {
            lemma_terms_quoted(ws);
            lemma_join_long(string_views(terms@));
        }
        r
    }
}

/// Every term is a quoted phrase, so at least two characters long.
proof fn lemma_terms_quoted(words: Seq<Seq<char>>)
    ensures
        forall|i: int| 0 <= i < fts_terms(words).len() ==> (#[trigger] fts_terms(words)[i]).len() >= 2,
    decreases words.len(),
{
    if words.len() > 0 {
        lemma_terms_quoted(words.drop_last());
        let prev = fts_terms(words.drop_last());
        if term_chars(words.last()).len() > 0 {
            let p = phrase(term_chars(words.last()));
            assert(p.len() >= 2);
            assert forall|i: int| 0 <= i < prev.push(p).len() implies (#[trigger] prev.push(p)[i]).len() >= 2 by {
                if i < prev.len() {
                    assert(prev.push(p)[i] == prev[i]);
                }
            }
        }
    }
}

/// Joining quoted terms gives at least the first term's two quotes.
proof fn lemma_join_long(terms: Seq<Seq<char>>)
    requires
        terms.len() > 0,
        forall|i: int| 0 <= i < terms.len() ==> (#[trigger] terms[i]).len() >= 2,
    ensures
        seq_join(terms, " OR "@).len() >= 2,
    decreases terms.len(),
{
    if terms.len() > 1 {
        lemma_join_long(terms.drop_last());
    }
}

} // verus!
