//! Rust tokens as plain values, and the text they are read from and written
//! back to.

use vstd::prelude::*;
use vstd::string::StringExecFns;
use crate::error::ParseError;
use proc_macro2::Delimiter;
use proc_macro2::LexError;
use proc_macro2::Spacing;
use proc_macro2::TokenStream;
use proc_macro2::TokenTree;
use std::str::FromStr;

verus! {

/// What kind of token tree a token is.
#[derive(Clone, Copy, Debug, PartialEq, Eq, Structural)]
pub enum TokenKind {
    /// A group in curly braces.
    Braced,
    /// A group in parentheses.
    Parenthesized,
    /// A group in square brackets.
    Bracketed,
    /// A group without visible delimiters.
    Undelimited,
    /// A word: an identifier or a keyword.
    Ident,
    /// A punctuation character with another one right behind it.
    Joint,
    /// A punctuation character that stands alone, or ends an operator.
    Alone,
    /// A literal: a number, a character, a string.
    Literal,
}

/// One token tree of a token stream. For a group, `text` is what stands
/// between its delimiters; for any other token it is the token as written.
#[derive(Clone, Debug)]
pub struct Token {
    pub kind: TokenKind,
    pub text: String,
}

/// A token as a mathematical value.
pub struct Lexeme {
    pub kind: TokenKind,
    pub text: Seq<char>,
}

impl View for Token {
    type V = Lexeme;

    open spec fn view(&self) -> Lexeme {
        Lexeme { kind: self.kind, text: self.text@ }
    }
}

/// The tokens of a list as mathematical values.
pub open spec fn lexemes(tokens: Seq<Token>) -> Seq<Lexeme> {
    tokens.map_values(|token: Token| token@)
}

#[verifier::external_type_specification]
#[verifier::external_body]
pub struct ExLexError(LexError);

/// The token trees that `proc_macro2` reads from a text, or `None` where it
/// reads none: how Rust divides a text into tokens.
pub uninterp spec fn lexed(source: Seq<char>) -> Option<Seq<Lexeme>>;

/// `proc_macro2::TokenStream::from_str`, with each token tree of the result
/// written as a `Token`: its kind, and the text that `to_string` gives for it,
/// or for the stream inside a group. `proc_macro2` is asked for without its
/// `proc-macro` feature, so that it reads the text itself wherever it runs
/// and the same text gives the same tokens. The contract gives the result the
/// name `lexed` and claims nothing else of it.
#[verifier::external_body]
fn lex(source: &str) -> (result: Result<Vec<Token>, LexError>)
    ensures
        match result {
            Ok(tokens) => lexed(source@) == Some(lexemes(tokens@)),
            Err(_) => lexed(source@) is None,
        },
{
    Ok(TokenStream::from_str(source)?.into_iter().map(|tree| match tree {
        TokenTree::Group(g) => Token { text: g.stream().to_string(), kind: match g.delimiter() {
            Delimiter::Brace => TokenKind::Braced,
            Delimiter::Parenthesis => TokenKind::Parenthesized,
            Delimiter::Bracket => TokenKind::Bracketed,
            Delimiter::None => TokenKind::Undelimited,
        } },
        TokenTree::Ident(i) => Token { kind: TokenKind::Ident, text: i.to_string() },
        TokenTree::Punct(p) => Token { text: p.to_string(), kind: match p.spacing() {
            Spacing::Joint => TokenKind::Joint,
            Spacing::Alone => TokenKind::Alone,
        } },
        TokenTree::Literal(l) => Token { kind: TokenKind::Literal, text: l.to_string() },
    }).collect())
}

/// Divides a text into Rust tokens.
pub fn tokenize(source: &str) -> (result: Result<Vec<Token>, ParseError>)
    ensures
        match result {
            Ok(tokens) => lexed(source@) == Some(lexemes(tokens@)),
            Err(error) => error == ParseError::InvalidTokens && lexed(source@) is None,
        },
{
    match lex(source) {
        Ok(tokens) => Ok(tokens),
        Err(_) => Err(ParseError::InvalidTokens),
    }
}

impl TokenKind {
    /// Whether the token is a punctuation character.
    pub open spec fn spec_is_punct(self) -> bool {
        self == TokenKind::Joint || self == TokenKind::Alone
    }

    /// Whether the token is a punctuation character.
    #[verifier::when_used_as_spec(spec_is_punct)]
    pub fn is_punct(self) -> (punct: bool)
        ensures
            punct == self.spec_is_punct(),
    {
        match self {
            TokenKind::Joint | TokenKind::Alone => true,
            _ => false,
        }
    }
}

impl Lexeme {
    /// The token as written, a group with its delimiters.
    pub open spec fn spelled(self) -> Seq<char> {
        match self.kind {
            TokenKind::Braced => "{ "@ + self.text + " }"@,
            TokenKind::Parenthesized => "("@ + self.text + ")"@,
            TokenKind::Bracketed => "["@ + self.text + "]"@,
            _ => self.text,
        }
    }

    /// Whether the token is the given word or punctuation character.
    pub open spec fn is(self, kind: TokenKind, text: Seq<char>) -> bool {
        self.kind == kind && self.text == text
    }
}

/// The tokens written one after the other, a blank between two of them but
/// where the first is a punctuation character joined to what follows.
pub open spec fn rendering(tokens: Seq<Lexeme>) -> Seq<char>
    decreases tokens.len(),
{
    if tokens.len() == 0 {
        Seq::empty()
    } else if tokens.len() == 1 {
        tokens[0].spelled()
    } else {
        let front = tokens.drop_last();
        if front.last().kind == TokenKind::Joint {
            rendering(front) + tokens.last().spelled()
        } else {
            rendering(front) + " "@ + tokens.last().spelled()
        }
    }
}

impl Token {
    /// The token as written, a group with its delimiters.
    pub fn spelled(&self) -> (text: String)
        ensures
            text@ == self@.spelled(),
    {
        match self.kind {
            TokenKind::Braced => {
                let mut text = "{ ".to_owned();
                text.append(self.text.as_str());
                text.append(" }");
                text
            },
            TokenKind::Parenthesized => {
                let mut text = "(".to_owned();
                text.append(self.text.as_str());
                text.append(")");
                text
            },
            TokenKind::Bracketed => {
                let mut text = "[".to_owned();
                text.append(self.text.as_str());
                text.append("]");
                text
            },
            _ => self.text.clone(),
        }
    }

    /// Whether the token is the given word or punctuation character.
    pub fn is(&self, kind: TokenKind, text: &str) -> (same: bool)
        ensures
            same == self@.is(kind, text@),
    {
        self.kind == kind && self.text == text.to_owned()
    }
}

/// Writes the tokens from `from` on back into a text that reads as the same
/// tokens.
pub fn render(tokens: &[Token], from: usize) -> (text: String)
    requires
        from <= tokens@.len(),
    ensures
        text@ == rendering(lexemes(tokens@).skip(from as int)),
{
    let mut text = String::new();
    let mut index = from;
    let ghost all = lexemes(tokens@);
    while index < tokens.len()
        invariant
            from <= index <= tokens@.len(),
            all == lexemes(tokens@),
            text@ == rendering(all.subrange(from as int, index as int)),
        decreases tokens@.len() - index,
    {
        let ghost before = all.subrange(from as int, index as int);
        let ghost after = all.subrange(from as int, index as int + 1);
        assert(after.drop_last() =~= before);
        if index > from {
            if tokens[index - 1].kind != TokenKind::Joint {
                text.append(" ");
            }
        }
        let piece = tokens[index].spelled();
        text.append(piece.as_str());
        index = index + 1;
    }
    text
}

} // verus!
