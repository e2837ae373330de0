//! Reading the input of the date and time literal macros: a string literal, a number, one of
//! a set of identifiers, or a punctuation character, token by token.
use vstd::prelude::*;
use vstd::string::{StrSliceExecFns, StringExecFns};

verus! {

/// Where a token stands in the macro's input; it is carried into errors and results and never
/// read.
#[derive(Clone, Copy, Debug, PartialEq, Eq, Structural)]
pub struct Span {
    pub id: u64,
}

/// A token of the macro's input, with what is read of it.
#[derive(Clone, Debug)]
pub enum TokenTree {
    /// A delimited group of tokens.
    Group(Span),
    /// An identifier, by its text.
    Ident(String, Span),
    /// A punctuation character.
    Punct(char, Span),
    /// A literal, by its source text; a string literal keeps its quotes.
    Literal(String, Span),
}

impl TokenTree {
    /// The same token.
    pub fn duplicate(&self) -> (r: TokenTree)
        ensures
            r == *self,
    {
        match self {
            TokenTree::Group(s) => TokenTree::Group(*s),
            TokenTree::Ident(t, s) => TokenTree::Ident(t.clone(), *s),
            TokenTree::Punct(c, s) => TokenTree::Punct(*c, *s),
            TokenTree::Literal(t, s) => TokenTree::Literal(t.clone(), *s),
        }
    }
}

/// Why the input of a macro is refused.
#[derive(Clone, Debug)]
pub enum Error {
    /// A component's value is not a number of its type.
    InvalidComponent {
        name: &'static str,
        value: String,
        span_start: Option<Span>,
        span_end: Option<Span>,
    },
    /// The input is not a single string literal.
    ExpectedString,
    /// This token was not expected here.
    UnexpectedToken { tree: TokenTree },
    /// The input ended where a token was expected.
    UnexpectedEndOfInput,
}

/// The tokens of a macro's input that are not read yet, with a look at the next one.
pub struct TokenIter {
    tokens: Vec<TokenTree>,
    pos: usize,
}

impl TokenIter {
    #[verifier::type_invariant]
    spec fn inv(self) -> bool {
        self.pos <= self.tokens@.len()
    }
}

impl View for TokenIter {
    type V = Seq<TokenTree>;

    /// The tokens not read yet, in order.
    closed spec fn view(&self) -> Seq<TokenTree> {
        self.tokens@.subrange(self.pos as int, self.tokens@.len() as int)
    }
}

impl TokenIter {
    /// The tokens of `tokens`, none read yet.
    pub fn new(tokens: Vec<TokenTree>) -> (r: TokenIter)
        ensures
            r@ == tokens@,
    {
        let r = TokenIter { tokens, pos: 0 };
        assert(r@ =~= r.tokens@);
        r
    }

    /// The next token, left unread; `None` at the end of the input.
    pub fn peek(&self) -> (r: Option<&TokenTree>)
        ensures
            self@.len() == 0 ==> r is None,
            self@.len() > 0 ==> r == Some(&self@[0]),
    {
        proof {
            use_type_invariant(self);
        }
        if self.pos < self.tokens.len() {
            Some(&self.tokens[self.pos])
        } else {
            None
        }
    }

    /// Reads the next token; `None` at the end of the input, which is then left as it is.
    pub fn next(&mut self) -> (r: Option<TokenTree>)
        ensures
            old(self)@.len() == 0 ==> r is None && final(self)@ == old(self)@,
            old(self)@.len() > 0 ==> r == Some(old(self)@[0]) && final(self)@ == old(self)@.drop_first(),
    {
        proof {
            use_type_invariant(&*self);
        }
        if self.pos < self.tokens.len() {
            let t = self.tokens[self.pos].duplicate();
            self.pos = self.pos + 1;
            assert(self@ =~= old(self)@.drop_first());
            Some(t)
        } else {
            None
        }
    }
}

/// `s` begins and ends with a double quote.
pub open spec fn quoted(s: Seq<char>) -> bool {
    s.len() > 0 && s[0] == '"' && s.last() == '"'
}

/// Reads a macro input that is a single string literal: gives its span and its text without
/// the quotes.  A first token that is not a string literal gives `ExpectedString`; a token
/// after the literal gives `UnexpectedToken` with that token.
pub fn get_string_literal(tokens: Vec<TokenTree>) -> (r: Result<(Span, String), Error>)
    requires
        tokens@.len() > 0 ==> (tokens@[0] matches TokenTree::Literal(s, _) ==> s@ != seq!['"']),
    ensures
        tokens@.len() == 0 ==> r == Err::<(Span, String), Error>(Error::ExpectedString),
        tokens@.len() > 0 ==> match tokens@[0] {
            TokenTree::Literal(s, span) => if !quoted(s@) {
                r == Err::<(Span, String), Error>(Error::ExpectedString)
            } else if tokens@.len() > 1 {
                r == Err::<(Span, String), Error>(Error::UnexpectedToken { tree: tokens@[1] })
            } else {
                r matches Ok((sp, text)) && sp == span && text@ == s@.subrange(1, s@.len() - 1)
            },
            _ => r == Err::<(Span, String), Error>(Error::ExpectedString),
        },
{
    let ghost all = tokens@;
    let mut tokens = TokenIter::new(tokens);
    match tokens.next() {
        Some(TokenTree::Literal(s, span)) => {
            let text = s.as_str();
            let n = text.unicode_len();
            if n > 0 && text.get_char(0) == '"' && text.get_char(n - 1) == '"' {
                proof {
                    assert(all.drop_first().len() > 0 ==> all.drop_first()[0] == all[1]);
                    if n == 1 {
                        assert(text@ =~= seq!['"']);
                    }
                }
                match tokens.next() {
                    Some(tree) => Err(Error::UnexpectedToken { tree }),
                    None => Ok((span, text.substring_char(1, n - 1).to_owned())),
                }
            } else {
                Err(Error::ExpectedString)
            }
        },
        _ => Err(Error::ExpectedString),
    }
}

/// Whether `c` is a decimal digit.
pub open spec fn is_decimal_digit(c: char) -> bool {
    48 <= c as int <= 57
}

/// The value of a sequence of decimal digits.
pub open spec fn digits_value(d: Seq<char>) -> int
    decreases d.len(),
{
    if d.len() == 0 {
        0
    } else {
        digits_value(d.drop_last()) * 10 + (d.last() as int - 48)
    }
}

/// The integer `s` writes in decimal: an optional sign (`-` only where `signed`) followed by at
/// least one decimal digit and nothing else; `None` for any other text.
pub open spec fn decimal_integer(s: Seq<char>, signed: bool) -> Option<int> {
    let negative = signed && s.len() > 0 && s[0] == '-';
    let d = if s.len() > 0 && (s[0] == '+' || negative) {
        s.drop_first()
    } else {
        s
    };
    if d.len() > 0 && forall|i: int| 0 <= i < d.len() ==> is_decimal_digit(#[trigger] d[i]) {
        Some(
            if negative {
                -digits_value(d)
            } else {
                digits_value(d)
            },
        )
    } else {
        None
    }
}

/// The integer `s` writes in decimal, if it lies in `min..=max`.
pub open spec fn decimal_in_range(s: Seq<char>, signed: bool, min: int, max: int) -> Option<int> {
    match decimal_integer(s, signed) {
        Some(v) => if min <= v <= max {
            Some(v)
        } else {
            None
        },
        None => None,
    }
}

/// `str::parse::<u8>`: std documents that it reads an optional `+` followed by decimal digits
/// and nothing else, and fails on any other text and on a value above `u8::MAX`.
#[verifier::external_body]
fn parse_u8(digits: &str) -> (r: Option<u8>)
    ensures
        r matches Some(v) ==> decimal_in_range(digits@, false, 0, u8::MAX as int) == Some(v as int),
        r is None <==> decimal_in_range(digits@, false, 0, u8::MAX as int) is None,
{
    digits.parse::<u8>().ok()
}

/// `str::parse::<u16>`: std documents that it reads an optional `+` followed by decimal digits
/// and nothing else, and fails on any other text and on a value above `u16::MAX`.
#[verifier::external_body]
fn parse_u16(digits: &str) -> (r: Option<u16>)
    ensures
        r matches Some(v) ==> decimal_in_range(digits@, false, 0, u16::MAX as int) == Some(v as int),
        r is None <==> decimal_in_range(digits@, false, 0, u16::MAX as int) is None,
{
    digits.parse::<u16>().ok()
}

/// `str::parse::<i32>`: std documents that it reads an optional `+` or `-` followed by decimal
/// digits and nothing else, and fails on any other text and on a value outside the range of
/// `i32`.
#[verifier::external_body]
fn parse_i32(digits: &str) -> (r: Option<i32>)
    ensures
        r matches Some(v) ==> decimal_in_range(digits@, true, i32::MIN as int, i32::MAX as int) == Some(v as int),
        r is None <==> decimal_in_range(digits@, true, i32::MIN as int, i32::MAX as int) is None,
{
    digits.parse::<i32>().ok()
}

/// A number type that a component of a date or time literal is read as.
pub trait ComponentNumber: Sized {
    /// The number that `digits` write, if it is one of this type.
    spec fn from_digits(digits: Seq<char>) -> Option<Self>;

    /// Reads the number that `digits` write.
    fn parse_digits(digits: &str) -> (r: Option<Self>)
        ensures
            r == Self::from_digits(digits@),
    ;
}

impl ComponentNumber for u8 {
    open spec fn from_digits(digits: Seq<char>) -> Option<u8> {
        match decimal_in_range(digits, false, 0, u8::MAX as int) {
            Some(v) => Some(v as u8),
            None => None,
        }
    }

    fn parse_digits(digits: &str) -> (r: Option<u8>) {
        parse_u8(digits)
    }
}

impl ComponentNumber for u16 {
    open spec fn from_digits(digits: Seq<char>) -> Option<u16> {
        match decimal_in_range(digits, false, 0, u16::MAX as int) {
            Some(v) => Some(v as u16),
            None => None,
        }
    }

    fn parse_digits(digits: &str) -> (r: Option<u16>) {
        parse_u16(digits)
    }
}

impl ComponentNumber for i32 {
    open spec fn from_digits(digits: Seq<char>) -> Option<i32> {
        match decimal_in_range(digits, true, i32::MIN as int, i32::MAX as int) {
            Some(v) => Some(v as i32),
            None => None,
        }
    }

    fn parse_digits(digits: &str) -> (r: Option<i32>) {
        parse_i32(digits)
    }
}

/// `s` without its underscores.
pub open spec fn without_underscores(s: Seq<char>) -> Seq<char> {
    s.filter(|c: char| c != '_')
}

/// The text of `s` without its underscores, as digits may be grouped in a literal.
fn strip_underscores(s: &str) -> (r: String)
    ensures
        r@ == without_underscores(s@),
{
    let n = s.unicode_len();
    let mut r = String::new();
    let mut i: usize = 0;
    while i < n
        invariant
            n == s@.len(),
            i <= n,
            r@ == without_underscores(s@.subrange(0, i as int)),
        decreases n - i,
    {
        let c = s.get_char(i);
        proof {
            let p = s@.subrange(0, i + 1);
            assert(p.drop_last() =~= s@.subrange(0, i as int));
            assert(p.last() == c);
            reveal_with_fuel(Seq::filter, 1);
        }
        if c != '_' {
            let one = s.substring_char(i, i + 1);
            assert(one@ =~= seq![c]);
            r.append(one);
        }
        i += 1;
    }
    assert(s@.subrange(0, n as int) =~= s@);
    r
}

/// What `consume_number` gives for the token `t`.
pub open spec fn number_result<T: ComponentNumber>(component_name: &'static str, t: TokenTree) -> Result<(Span, T), Error> {
    match t {
        TokenTree::Literal(text, span) => match T::from_digits(without_underscores(text@)) {
            Some(v) => Ok((span, v)),
            None => Err(
                Error::InvalidComponent {
                    name: component_name,
                    value: text,
                    span_start: Some(span),
                    span_end: Some(span),
                },
            ),
        },
        tree => Err(Error::UnexpectedToken { tree }),
    }
}

/// Reads the number of component `component_name` from the next token, which must be a
/// literal whose text, underscores left out, is a number of type `T`.  The token is read
/// whatever it is.
pub fn consume_number<T: ComponentNumber>(component_name: &'static str, chars: &mut TokenIter) -> (r: Result<(Span, T), Error>)
    ensures
        old(chars)@.len() == 0 ==> r == Err::<(Span, T), Error>(Error::UnexpectedEndOfInput) && final(chars)@ == old(chars)@,
        old(chars)@.len() > 0 ==> r == number_result::<T>(component_name, old(chars)@[0])
            && final(chars)@ == old(chars)@.drop_first(),
{
    let (span, digits) = match chars.next() {
        Some(TokenTree::Literal(text, span)) => (span, text),
        Some(tree) => return Err(Error::UnexpectedToken { tree }),
        None => return Err(Error::UnexpectedEndOfInput),
    };
    let plain = strip_underscores(digits.as_str());
    match T::parse_digits(plain.as_str()) {
        Some(value) => Ok((span, value)),
        None => Err(
            Error::InvalidComponent {
                name: component_name,
                value: digits,
                span_start: Some(span),
                span_end: Some(span),
            },
        ),
    }
}

/// `t` is an identifier whose text is one of `idents`.
pub open spec fn is_listed_ident(idents: Seq<&str>, t: TokenTree) -> bool {
    t matches TokenTree::Ident(text, _) && exists|i: int| 0 <= i < idents.len() && idents[i]@ == text@
}

/// Whether `text` is one of `idents`.
fn listed(idents: &[&str], text: &String) -> (r: bool)
    ensures
        r == exists|i: int| 0 <= i < idents@.len() && idents@[i]@ == text@,
{
    let mut i: usize = 0;
    while i < idents.len()
        invariant
            i <= idents@.len(),
            forall|j: int| 0 <= j < i ==> idents@[j]@ != text@,
        decreases idents@.len() - i,
    {
        let candidate = idents[i].to_owned();
        if candidate == *text {
            return true;
        }
        i += 1;
    }
    false
}

/// Reads the next token when it is an identifier among `idents`, giving its span; any other
/// token gives `UnexpectedToken` and is left unread.
pub fn consume_any_ident(idents: &[&str], chars: &mut TokenIter) -> (r: Result<Span, Error>)
    ensures
        old(chars)@.len() == 0 ==> r == Err::<Span, Error>(Error::UnexpectedEndOfInput) && final(chars)@ == old(chars)@,
        old(chars)@.len() > 0 && is_listed_ident(idents@, old(chars)@[0]) ==> r == Ok::<Span, Error>(old(chars)@[0]->Ident_1)
            && final(chars)@ == old(chars)@.drop_first(),
        old(chars)@.len() > 0 && !is_listed_ident(idents@, old(chars)@[0]) ==> r == Err::<Span, Error>(Error::UnexpectedToken { tree: old(chars)@[0] })
            && final(chars)@ == old(chars)@,
{
    let found = match chars.peek() {
        Some(TokenTree::Ident(text, span)) => if listed(idents, text) {
            Some(*span)
        } else {
            None
        },
        Some(_) => None,
        None => return Err(Error::UnexpectedEndOfInput),
    };
    match found {
        Some(span) => {
            let _ = chars.next();
            Ok(span)
        },
        None => {
            let tree = match chars.peek() {
                Some(t) => t.duplicate(),
                None => return Err(Error::UnexpectedEndOfInput),
            };
            Err(Error::UnexpectedToken { tree })
        },
    }
}

/// `t` is the punctuation character `c`.
pub open spec fn is_punct(t: TokenTree, c: char) -> bool {
    t matches TokenTree::Punct(p, _) && p == c
}

/// Reads the next token when it is the punctuation character `c`, giving its span; any other
/// token gives `UnexpectedToken` and is left unread.
pub fn consume_punct(c: char, chars: &mut TokenIter) -> (r: Result<Span, Error>)
    ensures
        old(chars)@.len() == 0 ==> r == Err::<Span, Error>(Error::UnexpectedEndOfInput) && final(chars)@ == old(chars)@,
        old(chars)@.len() > 0 && is_punct(old(chars)@[0], c) ==> r == Ok::<Span, Error>(old(chars)@[0]->Punct_1)
            && final(chars)@ == old(chars)@.drop_first(),
        old(chars)@.len() > 0 && !is_punct(old(chars)@[0], c) ==> r == Err::<Span, Error>(Error::UnexpectedToken { tree: old(chars)@[0] })
            && final(chars)@ == old(chars)@,
{
    let found = match chars.peek() {
        Some(TokenTree::Punct(p, span)) => if *p == c {
            Some(*span)
        } else {
            None
        },
        Some(_) => None,
        None => return Err(Error::UnexpectedEndOfInput),
    };
    match found {
        Some(span) => {
            let _ = chars.next();
            Ok(span)
        },
        None => {
            let tree = match chars.peek() {
                Some(t) => t.duplicate(),
                None => return Err(Error::UnexpectedEndOfInput),
            };
            Err(Error::UnexpectedToken { tree })
        },
    }
}

} // verus!
