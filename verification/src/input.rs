//! The tokens of a fluent comparison and how far they have been read.

use vstd::prelude::*;
use crate::error::ParseError;
use crate::token::lexed;
use crate::token::lexemes;
use crate::token::render;
use crate::token::rendering;
use crate::token::tokenize;
use crate::token::Lexeme;
use crate::token::Token;

verus! {

/// A list of tokens with a position in it: what has been read lies before the
/// position, what is still to be read begins at it.
#[derive(Clone, Debug)]
pub struct ParseInput {
    pub tokens: Vec<Token>,
    pub position: usize,
}

impl ParseInput {
    /// The position lies in the list or at its end.
    pub open spec fn wf(&self) -> bool {
        self.position <= self.tokens@.len()
    }

    /// The tokens that are still to be read.
    pub open spec fn rest(&self) -> Seq<Lexeme> {
        lexemes(self.tokens@).skip(self.position as int)
    }

    /// The same tokens, read `count` tokens further.
    pub open spec fn advanced(&self, count: nat) -> ParseInput {
        ParseInput { tokens: self.tokens, position: (self.position + count) as usize }
    }

    /// Reading `count` tokens further leaves the rest without its first
    /// `count` tokens.
    pub proof fn advanced_rest(&self, count: nat)
        requires
            self.wf(),
            count <= self.rest().len(),
        ensures
            self.advanced(count).wf(),
            self.advanced(count).rest() == self.rest().skip(count as int),
            self.rest().len() == self.tokens@.len() - self.position,
            self.tokens@.len() <= usize::MAX,
    {
        assert(self.tokens@.len() == self.tokens.len());
        assert(lexemes(self.tokens@).skip(self.position as int).skip(count as int) =~= lexemes(
            self.tokens@,
        ).skip(self.position + count));
    }

    /// Begins to read a list of tokens.
    pub fn new(tokens: Vec<Token>) -> (input: ParseInput)
        ensures
            input.wf(),
            input.tokens == tokens,
            input.position == 0,
            input.rest() == lexemes(tokens@),
    {
        ParseInput { tokens, position: 0 }
    }

    /// Divides a text into tokens and begins to read them.
    pub fn from_source(source: &str) -> (result: Result<ParseInput, ParseError>)
        ensures
            match result {
                Ok(input) => input.wf() && input.position == 0 && lexed(source@) == Some(
                    input.rest(),
                ),
                Err(error) => error == ParseError::InvalidTokens && lexed(source@) is None,
            },
    {
        match tokenize(source) {
            Ok(tokens) => Ok(ParseInput::new(tokens)),
            Err(error) => Err(error),
        }
    }

    /// How many tokens are still to be read.
    pub fn remaining(&self) -> (count: usize)
        requires
            self.wf(),
        ensures
            count == self.rest().len(),
    {
        self.tokens.len() - self.position
    }

    /// Whether every token has been read.
    pub fn is_empty(&self) -> (empty: bool)
        requires
            self.wf(),
        ensures
            empty == (self.rest().len() == 0),
    {
        self.position == self.tokens.len()
    }

    /// The token that stands `offset` tokens after the position.
    pub fn peek(&self, offset: usize) -> (token: &Token)
        requires
            self.wf(),
            offset < self.rest().len(),
        ensures
            token@ == self.rest()[offset as int],
    {
        proof {
            self.advanced_rest(0);
        }
        &self.tokens[self.position + offset]
    }

    /// Reads `count` tokens.
    pub fn advance(&mut self, count: usize)
        requires
            old(self).wf(),
            count <= old(self).rest().len(),
        ensures
            final(self).wf(),
            *final(self) == old(self).advanced(count as nat),
            final(self).rest() == old(self).rest().skip(count as int),
    {
        proof {
            self.advanced_rest(count as nat);
        }
        self.position = self.position + count;
    }

    /// The text of the tokens that are still to be read.
    pub fn rest_text(&self) -> (text: String)
        requires
            self.wf(),
        ensures
            text@ == rendering(self.rest()),
    {
        render(self.tokens.as_slice(), self.position)
    }
}

} // verus!
