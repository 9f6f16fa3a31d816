//! Morse notation as a sequence of timing units.

use vstd::prelude::*;

verus! {

/// One timing unit of a Morse message.
#[derive(PartialEq, Eq, Structural, Clone, Copy, Debug)]
pub enum Unit {
    Dot,
    Dash,
    Space,
    Slash,
}

/// A parsed Morse message: its units in left-to-right order.
#[derive(Clone, Debug, PartialEq, Eq)]
pub struct Message(pub Vec<Unit>);

impl View for Message {
    type V = Seq<Unit>;

    open spec fn view(&self) -> Seq<Unit> {
        self.0@
    }
}

/// Why a text is not Morse notation: the first character that is not a
/// symbol, and its position counted in characters.
#[derive(Clone, Copy, PartialEq, Eq, Structural, Debug)]
pub struct ParseError {
    pub position: usize,
    pub found: char,
}

/// The whitespace characters, those of Unicode's White_Space property, each
/// of which stands for a gap between letters.
pub open spec fn is_gap(c: char) -> bool {
    ||| ('\u{9}' <= c && c <= '\u{D}')
    ||| c == ' ' || c == '\u{85}' || c == '\u{A0}' || c == '\u{1680}'
    ||| ('\u{2000}' <= c && c <= '\u{200A}')
    ||| c == '\u{2028}' || c == '\u{2029}' || c == '\u{202F}' || c == '\u{205F}'
    ||| c == '\u{3000}'
}

fn gap_char(c: char) -> (r: bool)
    ensures
        r == is_gap(c),
{
    ('\u{9}' <= c && c <= '\u{D}') || c == ' ' || c == '\u{85}' || c == '\u{A0}'
        || c == '\u{1680}' || ('\u{2000}' <= c && c <= '\u{200A}') || c == '\u{2028}'
        || c == '\u{2029}' || c == '\u{202F}' || c == '\u{205F}' || c == '\u{3000}'
}

/// The unit that one character of Morse notation stands for.
pub open spec fn unit_of(c: char) -> Option<Unit> {
    if c == '.' {
        Some(Unit::Dot)
    } else if c == '-' {
        Some(Unit::Dash)
    } else if c == '/' {
        Some(Unit::Slash)
    } else if is_gap(c) {
        Some(Unit::Space)
    } else {
        None
    }
}

/// Every character of `s` is a Morse symbol, a gap or a word separator.
pub open spec fn is_morse_text(s: Seq<char>) -> bool {
    forall|i: int| 0 <= i < s.len() ==> (#[trigger] unit_of(s[i])) is Some
}

/// The units of a Morse text, one for each character.
pub open spec fn units_of(s: Seq<char>) -> Seq<Unit> {
    s.map_values(|c: char| unit_of(c)->0)
}

/// The character that writes a unit in Morse notation.
pub open spec fn symbol_of(u: Unit) -> char {
    match u {
        Unit::Dot => '.',
        Unit::Dash => '-',
        Unit::Space => ' ',
        Unit::Slash => '/',
    }
}

/// The Morse notation of a sequence of units.
pub open spec fn text_of(units: Seq<Unit>) -> Seq<char> {
    units.map_values(|u: Unit| symbol_of(u))
}

/// Relies on String::push: the character is appended at the end.
#[verifier::external_body]
pub(crate) fn push_char(s: &mut String, c: char)
    ensures
        final(s)@ == old(s)@.push(c),
{
    s.push(c)
}

fn unit_for(c: char) -> (r: Option<Unit>)
    ensures
        r == unit_of(c),
{
    if c == '.' {
        Some(Unit::Dot)
    } else if c == '-' {
        Some(Unit::Dash)
    } else if c == '/' {
        Some(Unit::Slash)
    } else if gap_char(c) {
        Some(Unit::Space)
    } else {
        None
    }
}

impl Message {
    /// Reads Morse notation character by character: `.` is a dot, `-` a
    /// dash, `/` a word separator and each whitespace character (Unicode's
    /// White_Space property) a gap.
    /// Any other character rejects the whole text.
    pub fn parse(s: &str) -> (r: Result<Message, ParseError>)
        ensures
            r is Ok <==> is_morse_text(s@),
            r matches Ok(m) ==> m@ == units_of(s@),
            r matches Err(e) ==> {
                &&& e.position < s@.len()
                &&& e.found == s@[e.position as int]
                &&& unit_of(e.found) is None
                &&& is_morse_text(s@.take(e.position as int))
            },
    {
        let n = s.unicode_len();
        let mut units: Vec<Unit> = Vec::new();
        let mut i: usize = 0;
        while i < n
            invariant
                n == s@.len(),
                i <= n,
                units@.len() == i,
                is_morse_text(s@.take(i as int)),
                forall|j: int| 0 <= j < i ==> units@[j] == (#[trigger] unit_of(s@[j]))->0,
            decreases n - i,
        {
            let c = s.get_char(i);
            match unit_for(c) {
                Some(u) => {
                    units.push(u);
                    assert(s@.take(i + 1) =~= s@.take(i as int).push(c));
                },
                None => {
                    return Err(ParseError { position: i, found: c });
                },
            }
            i = i + 1;
        }
        assert(s@.take(n as int) =~= s@);
        assert(units@ =~= units_of(s@));
        Ok(Message(units))
    }

    /// Writes the message back in Morse notation, one character per unit.
    pub fn render(&self) -> (r: String)
        ensures
            r@ == text_of(self@),
    {
        let mut out = String::new();
        let mut i: usize = 0;
        while i < self.0.len()
            invariant
                i <= self@.len(),
                out@ == text_of(self@.take(i as int)),
            decreases self@.len() - i,
        {
            let c = match self.0[i] {
                Unit::Dot => '.',
                Unit::Dash => '-',
                Unit::Space => ' ',
                Unit::Slash => '/',
            };
            push_char(&mut out, c);
            assert(self@.take(i + 1) =~= self@.take(i as int).push(self@[i as int]));
            assert(text_of(self@.take(i + 1)) =~= text_of(self@.take(i as int)).push(c));
            i = i + 1;
        }
        assert(self@.take(i as int) =~= self@);
        out
    }
}

/// A text made only of dots, dashes, single spaces and slashes always parses,
/// into exactly one unit per character.
pub proof fn lemma_plain_notation_parses(s: Seq<char>)
    requires
        forall|i: int|
            0 <= i < s.len() ==> s[i] == '.' || s[i] == '-' || s[i] == ' ' || s[i] == '/',
    ensures
        is_morse_text(s),
        units_of(s).len() == s.len(),
{
}

/// Parsing is deterministic: equal texts give equal outcomes.
pub proof fn lemma_parse_repeatable(s: Seq<char>, t: Seq<char>)
    requires
        s == t,
    ensures
        is_morse_text(s) == is_morse_text(t),
        units_of(s) == units_of(t),
{
}

/// Writing a parsed message back out and parsing that text again gives the
/// same units.
pub proof fn lemma_reparse_rendered(s: Seq<char>)
    requires
        is_morse_text(s),
    ensures
        is_morse_text(text_of(units_of(s))),
        units_of(text_of(units_of(s))) == units_of(s),
{
    let t = text_of(units_of(s));
    assert forall|i: int| 0 <= i < t.len() implies (#[trigger] unit_of(t[i])) is Some by {
        assert(unit_of(s[i]) is Some);
    }
    assert forall|i: int| 0 <= i < s.len() implies units_of(t)[i] == units_of(s)[i] by {
        assert(unit_of(s[i]) is Some);
    }
    assert(units_of(t) =~= units_of(s));
}

} // verus!
