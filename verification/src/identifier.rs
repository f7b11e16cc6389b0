//! The identifier model: global (`@`) and local (`%`) names with grammar
//! validation.
//!
//! A name is a sigil followed by a body that matches exactly one of three
//! grammars: numeric (decimal digits only), plain (a leading letter, `$`,
//! `.` or `_`, then letters, digits, `$`, `.` or `_`), or quoted (a
//! `"`-delimited body in which a backslash escapes exactly two hexadecimal
//! digits and an unescaped quote may only close the body). Parsing validates
//! once; rendering reproduces the sigil and body unchanged.

use vstd::prelude::*;

use crate::IRElement;

verus! {

broadcast use vstd::seq::group_seq_axioms;

/// A decimal digit.
pub open spec fn is_digit_char(c: char) -> bool {
    '0' as u32 <= c as u32 && c as u32 <= '9' as u32
}

/// An ASCII letter.
pub open spec fn is_letter_char(c: char) -> bool {
    ('a' as u32 <= c as u32 && c as u32 <= 'z' as u32) || ('A' as u32 <= c as u32 && c as u32
        <= 'Z' as u32)
}

/// A character that may lead a plain body: a letter, `$`, `.` or `_`.
pub open spec fn is_ident_lead_char(c: char) -> bool {
    is_letter_char(c) || c == '$' || c == '.' || c == '_'
}

/// A character that may continue a plain body: a lead character or a digit.
pub open spec fn is_ident_char(c: char) -> bool {
    is_ident_lead_char(c) || is_digit_char(c)
}

/// A hexadecimal digit.
pub open spec fn is_hex_digit_char(c: char) -> bool {
    is_digit_char(c) || ('a' as u32 <= c as u32 && c as u32 <= 'f' as u32) || ('A' as u32 <= c
        as u32 && c as u32 <= 'F' as u32)
}

/// The numeric grammar: one or more decimal digits.
pub open spec fn valid_numeric_body(s: Seq<char>) -> bool {
    s.len() >= 1 && forall|i: int| 0 <= i < s.len() ==> is_digit_char(#[trigger] s[i])
}

/// The plain grammar: a lead character, then any identifier characters. A
/// body of digits alone belongs to the numeric grammar instead, so the two
/// grammars are mutually exclusive.
pub open spec fn valid_plain_body(s: Seq<char>) -> bool {
    s.len() >= 1 && is_ident_lead_char(s[0]) && forall|i: int|
        0 <= i < s.len() ==> is_ident_char(#[trigger] s[i])
}

/// Scans the interior of a quoted body from position `i` up to the closing
/// quote: a backslash must escape exactly two hexadecimal digits, and no
/// unescaped quote may appear before the closing delimiter.
pub open spec fn quoted_interior_ok(s: Seq<char>, i: int) -> bool
    decreases s.len() - i,
{
    if i >= s.len() - 1 {
        true
    } else if s[i] == '"' {
        false
    } else if s[i] == '\\' {
        i + 2 <= s.len() - 2 && is_hex_digit_char(s[i + 1]) && is_hex_digit_char(s[i + 2])
            && quoted_interior_ok(s, i + 3)
    } else {
        quoted_interior_ok(s, i + 1)
    }
}

/// The quoted grammar: a `"`-delimited body whose interior scans cleanly.
pub open spec fn valid_quoted_body(s: Seq<char>) -> bool {
    s.len() >= 2 && s[0] == '"' && s[s.len() - 1] == '"' && quoted_interior_ok(s, 1)
}

/// A valid body matches one of the three grammars.
pub open spec fn valid_body(s: Seq<char>) -> bool {
    valid_numeric_body(s) || valid_plain_body(s) || valid_quoted_body(s)
}

/// The errors of identifier parsing; all are recoverable by the caller.
#[derive(Debug, Clone, Copy, PartialEq, Eq, Structural)]
pub enum ParseError {
    /// The text is shorter than a sigil plus a one-character body.
    TooShort,
    /// The first character is not the required sigil.
    WrongSigil,
    /// The body matches none of the three grammars.
    InvalidBody,
}

/// What parsing text against a fixed sigil returns, for every input: the
/// validated body on success, and the one error owed to the input otherwise.
pub open spec fn spec_parse(s: Seq<char>, sigil: char) -> Result<Seq<char>, ParseError> {
    if s.len() < 2 {
        Err(ParseError::TooShort)
    } else if s[0] != sigil {
        Err(ParseError::WrongSigil)
    } else if !valid_body(s.skip(1)) {
        Err(ParseError::InvalidBody)
    } else {
        Ok(s.skip(1))
    }
}

/// The mathematical image of an identifier: which sigil it carries, and its
/// body.
pub enum IdentifierView {
    Global(Seq<char>),
    Local(Seq<char>),
}

/// The rendered form of an identifier: its sigil, then the validated body
/// unchanged (a lossless round trip).
pub open spec fn render_identifier_view(v: IdentifierView) -> Seq<char> {
    match v {
        IdentifierView::Global(body) => "@"@ + body,
        IdentifierView::Local(body) => "%"@ + body,
    }
}

/// What parsing a generic identifier returns: the global grammar is tried
/// first; only a wrong-sigil failure falls through to the local grammar.
pub open spec fn spec_parse_identifier(s: Seq<char>) -> Result<IdentifierView, ParseError> {
    match spec_parse(s, '@') {
        Ok(body) => Ok(IdentifierView::Global(body)),
        Err(ParseError::WrongSigil) => match spec_parse(s, '%') {
            Ok(body) => Ok(IdentifierView::Local(body)),
            Err(e) => Err(e),
        },
        Err(e) => Err(e),
    }
}

/// A validated global (`@`) name.
#[derive(Debug)]
pub struct GlobalIdentifier(String);

/// A validated local (`%`) name.
#[derive(Debug)]
pub struct LocalIdentifier(String);

/// A validated name of either kind.
#[derive(Debug)]
pub enum Identifier {
    Global(GlobalIdentifier),
    Local(LocalIdentifier),
}

impl View for GlobalIdentifier {
    type V = Seq<char>;

    closed spec fn view(&self) -> Seq<char> {
        self.0@
    }
}

impl View for LocalIdentifier {
    type V = Seq<char>;

    closed spec fn view(&self) -> Seq<char> {
        self.0@
    }
}

impl View for Identifier {
    type V = IdentifierView;

    open spec fn view(&self) -> IdentifierView {
        match *self {
            Identifier::Global(ref g) => IdentifierView::Global(g@),
            Identifier::Local(ref l) => IdentifierView::Local(l@),
        }
    }
}

/// Anything that carries a citable name.
pub trait Identifiable {
    /// The name, as a mathematical value.
    spec fn spec_id(&self) -> IdentifierView;

    /// The name of this entity.
    fn id(&self) -> (i: Identifier)
        ensures
            i@ == self.spec_id(),
    ;
}

impl Identifier {
    /// Whether `c` may continue a plain body.
    pub fn is_char_valid(c: char) -> (r: bool)
        ensures
            r == is_ident_char(c),
    {
        let u = c as u32;
        ('a' as u32 <= u && u <= 'z' as u32) || ('A' as u32 <= u && u <= 'Z' as u32) || ('0'
            as u32 <= u && u <= '9' as u32) || c == '$' || c == '.' || c == '_'
    }

    /// Whether `c` may lead a plain body.
    fn is_lead_char_valid(c: char) -> (r: bool)
        ensures
            r == is_ident_lead_char(c),
    {
        let u = c as u32;
        ('a' as u32 <= u && u <= 'z' as u32) || ('A' as u32 <= u && u <= 'Z' as u32) || c == '$'
            || c == '.' || c == '_'
    }

    /// Whether `c` is a hexadecimal digit.
    fn is_hex_digit(c: char) -> (r: bool)
        ensures
            r == is_hex_digit_char(c),
    {
        let u = c as u32;
        ('0' as u32 <= u && u <= '9' as u32) || ('a' as u32 <= u && u <= 'f' as u32) || ('A'
            as u32 <= u && u <= 'F' as u32)
    }

    /// Checks the body against the numeric grammar.
    #[verifier::loop_isolation(false)]
    fn verify_num_ident(s: &str) -> (r: bool)
        ensures
            r == valid_numeric_body(s@),
    {
        let n = s.unicode_len();
        if n == 0 {
            return false;
        }
        let mut i: usize = 0;
        while i < n
            invariant
                i <= n,
                forall|j: int| 0 <= j < i ==> is_digit_char(#[trigger] s@[j]),
            decreases n - i,
        {
            let c = s.get_char(i);
            let u = c as u32;
            if !('0' as u32 <= u && u <= '9' as u32) {
                return false;
            }
            i += 1;
        }
        true
    }

    /// Checks the body against the plain grammar.
    #[verifier::loop_isolation(false)]
    fn verify_normal_ident(s: &str) -> (r: bool)
        ensures
            r == valid_plain_body(s@),
    {
        let n = s.unicode_len();
        if n == 0 {
            return false;
        }
        if !Self::is_lead_char_valid(s.get_char(0)) {
            return false;
        }
        let mut i: usize = 0;
        while i < n
            invariant
                i <= n,
                forall|j: int| 0 <= j < i ==> is_ident_char(#[trigger] s@[j]),
            decreases n - i,
        {
            if !Self::is_char_valid(s.get_char(i)) {
                return false;
            }
            i += 1;
        }
        true
    }

    /// Checks the body against the quoted grammar.
    #[verifier::loop_isolation(false)]
    fn verify_special_ident(s: &str) -> (r: bool)
        ensures
            r == valid_quoted_body(s@),
    {
        let n = s.unicode_len();
        if n < 2 {
            return false;
        }
        if s.get_char(0) != '"' {
            return false;
        }
        if s.get_char(n - 1) != '"' {
            return false;
        }
        let mut i: usize = 1;
        while i < n - 1
            invariant
                1 <= i <= n - 1,
                quoted_interior_ok(s@, 1) == quoted_interior_ok(s@, i as int),
            decreases n - i,
        {
            let c = s.get_char(i);
            if c == '"' {
                return false;
            }
            if c == '\\' {
                if n - i < 4 {
                    return false;
                }
                if !Self::is_hex_digit(s.get_char(i + 1)) {
                    return false;
                }
                if !Self::is_hex_digit(s.get_char(i + 2)) {
                    return false;
                }
                i += 3;
            } else {
                i += 1;
            }
        }
        true
    }

    /// Checks the body against all three grammars.
    fn verify_ident(s: &str) -> (r: bool)
        ensures
            r == valid_body(s@),
    {
        if Self::verify_num_ident(s) {
            true
        } else if Self::verify_normal_ident(s) {
            true
        } else {
            Self::verify_special_ident(s)
        }
    }

    /// Parses a generic identifier: the global grammar first; a wrong-sigil
    /// failure there falls through to the local grammar, any other failure is
    /// terminal.
    pub fn parse(s: &str) -> (r: Result<Identifier, ParseError>)
        ensures
            match r {
                Ok(i) => spec_parse_identifier(s@) == Ok::<IdentifierView, ParseError>(i@),
                Err(e) => spec_parse_identifier(s@) == Err::<IdentifierView, ParseError>(e),
            },
    {
        match parse_global(s) {
            Ok(g) => Ok(Identifier::Global(g)),
            Err(ParseError::WrongSigil) => match parse_local(s) {
                Ok(l) => Ok(Identifier::Local(l)),
                Err(e) => Err(e),
            },
            Err(e) => Err(e),
        }
    }
}

/// Parses a global (`@`) identifier: a minimum length, the fixed sigil, and a
/// body in one of the three grammars; each failure is reported as the one
/// error owed to the input.
pub fn parse_global(s: &str) -> (r: Result<GlobalIdentifier, ParseError>)
    ensures
        match r {
            Ok(g) => spec_parse(s@, '@') == Ok::<Seq<char>, ParseError>(g@),
            Err(e) => spec_parse(s@, '@') == Err::<Seq<char>, ParseError>(e),
        },
{
    let n = s.unicode_len();
    if n < 2 {
        return Err(ParseError::TooShort);
    }
    if s.get_char(0) != '@' {
        return Err(ParseError::WrongSigil);
    }
    let body = s.substring_char(1, n);
    proof {
        assert(body@ =~= s@.skip(1));
    }
    if Identifier::verify_ident(body) {
        Ok(GlobalIdentifier(body.to_owned()))
    } else {
        Err(ParseError::InvalidBody)
    }
}

/// Parses a local (`%`) identifier, under the same rules as `parse_global`.
pub fn parse_local(s: &str) -> (r: Result<LocalIdentifier, ParseError>)
    ensures
        match r {
            Ok(l) => spec_parse(s@, '%') == Ok::<Seq<char>, ParseError>(l@),
            Err(e) => spec_parse(s@, '%') == Err::<Seq<char>, ParseError>(e),
        },
{
    let n = s.unicode_len();
    if n < 2 {
        return Err(ParseError::TooShort);
    }
    if s.get_char(0) != '%' {
        return Err(ParseError::WrongSigil);
    }
    let body = s.substring_char(1, n);
    proof {
        assert(body@ =~= s@.skip(1));
    }
    if Identifier::verify_ident(body) {
        Ok(LocalIdentifier(body.to_owned()))
    } else {
        Err(ParseError::InvalidBody)
    }
}

impl GlobalIdentifier {
    /// The validated body, without the sigil.
    pub fn body(&self) -> (b: &str)
        ensures
            b@ == self@,
    {
        self.0.as_str()
    }
}

impl LocalIdentifier {
    /// The validated body, without the sigil.
    pub fn body(&self) -> (b: &str)
        ensures
            b@ == self@,
    {
        self.0.as_str()
    }
}

impl Clone for GlobalIdentifier {
    fn clone(&self) -> (r: Self)
        ensures
            r@ == self@,
    {
        GlobalIdentifier(self.0.clone())
    }
}

impl Clone for LocalIdentifier {
    fn clone(&self) -> (r: Self)
        ensures
            r@ == self@,
    {
        LocalIdentifier(self.0.clone())
    }
}

impl Clone for Identifier {
    fn clone(&self) -> (r: Self)
        ensures
            r@ == self@,
    {
        match self {
            Identifier::Global(g) => Identifier::Global(g.clone()),
            Identifier::Local(l) => Identifier::Local(l.clone()),
        }
    }
}

impl IRElement for GlobalIdentifier {
    open spec fn spec_render(&self) -> Seq<char> {
        "@"@ + self@
    }

    fn render(&self) -> (s: String) {
        let mut s = String::from_str("@");
        s.append(self.0.as_str());
        s
    }
}

impl IRElement for LocalIdentifier {
    open spec fn spec_render(&self) -> Seq<char> {
        "%"@ + self@
    }

    fn render(&self) -> (s: String) {
        let mut s = String::from_str("%");
        s.append(self.0.as_str());
        s
    }
}

impl IRElement for Identifier {
    open spec fn spec_render(&self) -> Seq<char> {
        render_identifier_view(self@)
    }

    fn render(&self) -> (s: String) {
        match self {
            Identifier::Global(g) => g.render(),
            Identifier::Local(l) => l.render(),
        }
    }
}

impl From<GlobalIdentifier> for Identifier {
    fn from(g: GlobalIdentifier) -> (r: Identifier) {
        Identifier::Global(g)
    }
}

impl vstd::std_specs::convert::FromSpecImpl<GlobalIdentifier> for Identifier {
    open spec fn obeys_from_spec() -> bool {
        true
    }

    open spec fn from_spec(g: GlobalIdentifier) -> Identifier {
        Identifier::Global(g)
    }
}

impl From<LocalIdentifier> for Identifier {
    fn from(l: LocalIdentifier) -> (r: Identifier) {
        Identifier::Local(l)
    }
}

impl vstd::std_specs::convert::FromSpecImpl<LocalIdentifier> for Identifier {
    open spec fn obeys_from_spec() -> bool {
        true
    }

    open spec fn from_spec(l: LocalIdentifier) -> Identifier {
        Identifier::Local(l)
    }
}

/// Identifiers round-trip: every body accepted by the plain or numeric
/// grammar parses under its sigil to exactly that body, and the rendered form
/// is the sigil followed by the body unchanged.
pub proof fn lemma_global_identifier_round_trip(body: Seq<char>)
    requires
        valid_plain_body(body) || valid_numeric_body(body),
    ensures
        spec_parse(seq!['@'] + body, '@') == Ok::<Seq<char>, ParseError>(body),
        render_identifier_view(IdentifierView::Global(body)) == seq!['@'] + body,
{
    reveal_strlit("@");
    let s = seq!['@'] + body;
    assert(s.skip(1) =~= body);
    assert("@"@ =~= seq!['@']);
}

/// The same round trip for local identifiers.
pub proof fn lemma_local_identifier_round_trip(body: Seq<char>)
    requires
        valid_plain_body(body) || valid_numeric_body(body),
    ensures
        spec_parse(seq!['%'] + body, '%') == Ok::<Seq<char>, ParseError>(body),
        render_identifier_view(IdentifierView::Local(body)) == seq!['%'] + body,
{
    reveal_strlit("%");
    let s = seq!['%'] + body;
    assert(s.skip(1) =~= body);
    assert("%"@ =~= seq!['%']);
}

} // verus!
