//! Text to Morse and back, through the `morse` crate's symbol table.
//!
//! Both directions accumulate rather than abort: every character or token
//! without a mapping is reported, beside the best-effort result, which holds
//! the translation of the rest alone. Encoded text writes dashes as `-`.

use vstd::prelude::*;
use crate::message::{is_morse_text, push_char, unit_of};

verus! {

/// What `morse::encode::encode` gives for a text: the encoded string, with
/// dashes written `_`, and the characters that have no code, in order.
pub uninterp spec fn morse_encoding(text: Seq<char>) -> (Seq<char>, Seq<Seq<char>>);

/// What `morse::decode::decode` gives for Morse notation: the decoded
/// lower-case text, and the tokens that stand for no character, in order.
pub uninterp spec fn morse_decoding(code: Seq<char>) -> (Seq<char>, Seq<Seq<char>>);

/// The characters that the symbol table gives a code: letters of either case,
/// digits, the space, and a fixed set of punctuation.
pub open spec fn is_supported_char(c: char) -> bool {
    ||| ('a' <= c && c <= 'z')
    ||| ('A' <= c && c <= 'Z')
    ||| ('0' <= c && c <= '9')
    ||| c == ' ' || c == '.' || c == ',' || c == '?' || c == '\'' || c == '!'
    ||| c == '/' || c == '(' || c == ')' || c == '&' || c == ':' || c == ';'
    ||| c == '=' || c == '+' || c == '-' || c == '_' || c == '"' || c == '$'
    ||| c == '@'
}

/// Every character of `s` has a code.
pub open spec fn is_supported_text(s: Seq<char>) -> bool {
    forall|i: int| 0 <= i < s.len() ==> #[trigger] is_supported_char(s[i])
}

/// The dash as this library writes it.
pub open spec fn dash_as_hyphen(c: char) -> char {
    if c == '_' {
        '-'
    } else {
        c
    }
}

/// A Morse string with each `_` written as `-`.
pub open spec fn hyphenated(s: Seq<char>) -> Seq<char> {
    s.map_values(|c: char| dash_as_hyphen(c))
}

/// A character that a successful encoding is made of: a dot, a dash as the
/// symbol table writes it, a letter gap or a word separator.
pub open spec fn is_table_symbol(c: char) -> bool {
    c == '.' || c == '_' || c == ' ' || c == '/'
}

/// The tokens of a Morse string: the runs of characters between single
/// spaces, empty ones included.
pub open spec fn tokens_of(s: Seq<char>) -> Seq<Seq<char>>
    decreases s.len(),
{
    if s.len() == 0 {
        seq![Seq::empty()]
    } else {
        let t = tokens_of(s.drop_last());
        if s.last() == ' ' {
            t.push(Seq::empty())
        } else {
            t.update(t.len() - 1, t.last().push(s.last()))
        }
    }
}

/// The token `#` that the symbol table puts where an item had no mapping.
pub open spec fn placeholder() -> Seq<char> {
    seq!['#']
}

/// The tokens that are not placeholders, in order.
pub open spec fn kept_tokens(ts: Seq<Seq<char>>) -> Seq<Seq<char>>
    decreases ts.len(),
{
    if ts.len() == 0 {
        Seq::empty()
    } else if ts.last() == placeholder() {
        kept_tokens(ts.drop_last())
    } else {
        kept_tokens(ts.drop_last()).push(ts.last())
    }
}

/// Tokens joined by single spaces.
pub open spec fn joined(ts: Seq<Seq<char>>) -> Seq<char>
    decreases ts.len(),
{
    if ts.len() == 0 {
        Seq::empty()
    } else if ts.len() == 1 {
        ts[0]
    } else {
        joined(ts.drop_last()) + seq![' '] + ts.last()
    }
}

/// A Morse string without its placeholder tokens and their separators.
pub open spec fn without_placeholder_tokens(s: Seq<char>) -> Seq<char> {
    joined(kept_tokens(tokens_of(s)))
}

/// A decoded text without the `#` characters that stand for unmapped tokens.
pub open spec fn without_marks(s: Seq<char>) -> Seq<char>
    decreases s.len(),
{
    if s.len() == 0 {
        Seq::empty()
    } else if s.last() == '#' {
        without_marks(s.drop_last())
    } else {
        without_marks(s.drop_last()).push(s.last())
    }
}

proof fn lemma_tokens_not_empty(s: Seq<char>)
    ensures
        tokens_of(s).len() >= 1,
    decreases s.len(),
{
    if s.len() > 0 {
        lemma_tokens_not_empty(s.drop_last());
    }
}

/// Text that was not translated in full: the untranslatable items, in
/// order, and the best-effort translation of the other items alone.
#[derive(Clone, Debug, PartialEq, Eq)]
pub struct UnsupportedInput {
    pub items: Vec<String>,
    pub partial: String,
}

/// Relies on morse::encode::encode, which lowercases and trims the text and
/// looks up each character; it fails exactly when some character has no code,
/// and its error carries those characters and the best-effort result. A
/// success holds only the table's dots and `_` dashes, the space between
/// letters and the `/` of a word gap.
#[verifier::external_body]
fn morse_encode(text: &str) -> (r: (String, Vec<String>))
    ensures
        (r.0@, r.1.deep_view()) == morse_encoding(text@),
        text@.len() == 0 ==> r.0@.len() == 0 && r.1@.len() == 0,
        is_supported_text(text@) ==> r.1@.len() == 0,
        r.1@.len() == 0 ==> forall|i: int|
            0 <= i < r.0@.len() ==> #[trigger] is_table_symbol(r.0@[i]),
{
    match morse::encode::encode(text) {
        Ok(s) => (s, Vec::new()),
        Err(e) => (e.result, e.unsupported_characters),
    }
}

/// Relies on morse::decode::decode, which splits the notation into tokens and
/// looks up each; it fails exactly when some token stands for no character,
/// and its error carries those tokens and the best-effort result.
#[verifier::external_body]
fn morse_decode(code: &str) -> (r: (String, Vec<String>))
    ensures
        (r.0@, r.1.deep_view()) == morse_decoding(code@),
{
    match morse::decode::decode(code) {
        Ok(s) => (s, Vec::new()),
        Err(e) => (e.result, e.unsupported_characters),
    }
}

/// The items of a list, each with its dashes written `-`.
pub open spec fn hyphenated_items(items: Seq<Seq<char>>) -> Seq<Seq<char>> {
    items.map_values(|s: Seq<char>| hyphenated(s))
}

/// Writes each `_` of a Morse string as `-`.
fn hyphenate(s: &str) -> (r: String)
    ensures
        r@ == hyphenated(s@),
{
    let n = s.unicode_len();
    let mut out = String::new();
    let mut i: usize = 0;
    while i < n
        invariant
            n == s@.len(),
            i <= n,
            out@ == hyphenated(s@.take(i as int)),
        decreases n - i,
    {
        let c = s.get_char(i);
        let d = if c == '_' {
            '-'
        } else {
            c
        };
        push_char(&mut out, d);
        assert(hyphenated(s@.take(i + 1)) =~= hyphenated(s@.take(i as int)).push(d));
        i = i + 1;
    }
    assert(s@.take(n as int) =~= s@);
    out
}

/// Adds a finished token to a joined list of kept tokens, unless it is a
/// placeholder.
fn keep_token(out: &mut String, any_kept: &mut bool, token: &String, Ghost(kept): Ghost<
    Seq<Seq<char>>,
>)
    requires
        old(out)@ == joined(kept),
        *old(any_kept) == (kept.len() > 0),
    ensures
        token@ == placeholder() ==> final(out)@ == joined(kept) && *final(any_kept) == (kept.len()
            > 0),
        token@ != placeholder() ==> final(out)@ == joined(kept.push(token@)) && *final(any_kept),
{
    let is_placeholder = token.unicode_len() == 1 && token.as_str().get_char(0) == '#';
    assert(is_placeholder <==> token@ =~= placeholder());
    if !is_placeholder {
        assert(kept.push(token@).drop_last() =~= kept);
        if *any_kept {
            push_char(out, ' ');
        }
        out.append(token.as_str());
        *any_kept = true;
    }
}

/// Removes each placeholder token, with its separator, from a Morse string.
fn drop_placeholder_tokens(s: &str) -> (r: String)
    ensures
        r@ == without_placeholder_tokens(s@),
{
    let n = s.unicode_len();
    let mut out = String::new();
    let mut any_kept = false;
    let mut token = String::new();
    let mut i: usize = 0;
    proof {
        lemma_tokens_not_empty(s@.take(0));
        assert(s@.take(0) =~= Seq::<char>::empty());
    }
    while i < n
        invariant
            n == s@.len(),
            i <= n,
            tokens_of(s@.take(i as int)).len() >= 1,
            token@ == tokens_of(s@.take(i as int)).last(),
            out@ == joined(kept_tokens(tokens_of(s@.take(i as int)).drop_last())),
            any_kept == (kept_tokens(tokens_of(s@.take(i as int)).drop_last()).len() > 0),
        decreases n - i,
    {
        let c = s.get_char(i);
        let ghost ts = tokens_of(s@.take(i as int));
        assert(s@.take(i + 1).drop_last() =~= s@.take(i as int));
        assert(s@.take(i + 1).last() == c);
        if c == ' ' {
            keep_token(&mut out, &mut any_kept, &token, Ghost(kept_tokens(ts.drop_last())));
            token = String::new();
            assert(ts.push(Seq::empty()).drop_last() =~= ts);
            assert(ts.drop_last().push(ts.last()) =~= ts);
        } else {
            push_char(&mut token, c);
            assert(ts.update(ts.len() - 1, ts.last().push(c)).drop_last() =~= ts.drop_last());
        }
        i = i + 1;
    }
    assert(s@.take(n as int) =~= s@);
    let ghost ts = tokens_of(s@);
    keep_token(&mut out, &mut any_kept, &token, Ghost(kept_tokens(ts.drop_last())));
    assert(ts.drop_last().push(ts.last()) =~= ts);
    out
}

/// Removes each `#` from a decoded text.
fn drop_marks(s: &str) -> (r: String)
    ensures
        r@ == without_marks(s@),
{
    let n = s.unicode_len();
    let mut out = String::new();
    let mut i: usize = 0;
    while i < n
        invariant
            n == s@.len(),
            i <= n,
            out@ == without_marks(s@.take(i as int)),
        decreases n - i,
    {
        let c = s.get_char(i);
        assert(s@.take(i + 1).drop_last() =~= s@.take(i as int));
        if c != '#' {
            push_char(&mut out, c);
        }
        i = i + 1;
    }
    assert(s@.take(n as int) =~= s@);
    out
}

/// Turns the symbol table's output into the encoding result: dashes are
/// written `-`, and any unsupported character makes it an error, whose
/// partial encoding leaves out the placeholder tokens.
pub fn finish_encoding(raw: &str, unsupported: Vec<String>) -> (r: Result<String, UnsupportedInput>)
    ensures
        r is Ok <==> unsupported@.len() == 0,
        r matches Ok(s) ==> s@ == hyphenated(raw@),
        r matches Err(e) ==> e.partial@ == without_placeholder_tokens(hyphenated(raw@))
            && e.items.deep_view() == unsupported.deep_view(),
{
    let out = hyphenate(raw);
    if unsupported.len() == 0 {
        Ok(out)
    } else {
        Err(UnsupportedInput { items: unsupported, partial: drop_placeholder_tokens(out.as_str()) })
    }
}

/// Turns the symbol table's output into the decoding result: any token
/// without a character makes it an error, which reports the tokens with
/// their dashes written `-`, and whose partial text holds the decoded
/// characters alone.
pub fn finish_decoding(raw: String, unsupported: Vec<String>) -> (r: Result<String, UnsupportedInput>)
    ensures
        r is Ok <==> unsupported@.len() == 0,
        r matches Ok(s) ==> s@ == raw@,
        r matches Err(e) ==> e.partial@ == without_marks(raw@) && e.items.deep_view()
            == hyphenated_items(unsupported.deep_view()),
{
    if unsupported.len() == 0 {
        return Ok(raw);
    }
    let mut items: Vec<String> = Vec::new();
    let mut i: usize = 0;
    while i < unsupported.len()
        invariant
            i <= unsupported@.len(),
            items@.len() == i,
            forall|j: int| 0 <= j < i ==> (#[trigger] items@[j])@ == hyphenated(unsupported@[j]@),
        decreases unsupported@.len() - i,
    {
        let item = hyphenate(unsupported[i].as_str());
        items.push(item);
        i = i + 1;
    }
    assert(items.deep_view() =~= hyphenated_items(unsupported.deep_view()));
    Err(UnsupportedInput { items, partial: drop_marks(raw.as_str()) })
}

/// Encodes text as Morse notation, letters separated by spaces and words by
/// `/`. Upper and lower case encode alike. Fails when some character has no
/// code; the error lists each such character and holds the rest encoded.
pub fn encode(text: &str) -> (r: Result<String, UnsupportedInput>)
    ensures
        r is Ok <==> morse_encoding(text@).1.len() == 0,
        r matches Ok(s) ==> s@ == hyphenated(morse_encoding(text@).0),
        r matches Ok(s) ==> is_morse_text(s@),
        r matches Err(e) ==> e.partial@ == without_placeholder_tokens(
            hyphenated(morse_encoding(text@).0),
        ) && e.items.deep_view() == morse_encoding(text@).1,
        is_supported_text(text@) ==> r is Ok,
        text@.len() == 0 ==> (r matches Ok(s) && s@.len() == 0),
{
    let (raw, unsupported) = morse_encode(text);
    let r = finish_encoding(raw.as_str(), unsupported);
    if let Ok(s) = &r {
        assert forall|i: int| 0 <= i < s@.len() implies (#[trigger] unit_of(s@[i])) is Some by {
            assert(is_table_symbol(raw@[i]));
        }
    }
    r
}

/// Decodes Morse notation (`.` and `-` or `_`, letters separated by spaces,
/// words by `/`) into lower-case text. Fails when some token stands for no
/// character; the error lists each such token and holds the rest decoded.
pub fn decode(code: &str) -> (r: Result<String, UnsupportedInput>)
    ensures
        r is Ok <==> morse_decoding(code@).1.len() == 0,
        r matches Ok(s) ==> s@ == morse_decoding(code@).0,
        r matches Err(e) ==> e.partial@ == without_marks(morse_decoding(code@).0) && e.items.deep_view()
            == hyphenated_items(morse_decoding(code@).1),
{
    let (raw, unsupported) = morse_decode(code);
    finish_decoding(raw, unsupported)
}

} // verus!
