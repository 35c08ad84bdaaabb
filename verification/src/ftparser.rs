//! The full-text parser capability surface.
//!
//! A full-text parser plugin tokenizes documents and queries for the
//! host's full-text index. The host drives it through per-query init,
//! parse and deinit calls; the records here carry what those calls read,
//! as plain values.

use vstd::prelude::*;

verus! {

/// Host flag bit: token data is overwritten after the call and must be
/// copied to be kept.
pub const MYSQL_FTFLAGS_NEED_COPY: u32 = 2;

/// Generic error of a full-text parser operation.
#[derive(Clone, Copy, Debug, PartialEq, Eq, Structural, Default)]
pub struct FtError {

}

/// The operations a full-text parser author implements.
pub trait FullTextParser {
    /// Prepare the parser for one query.
    fn init(params: &Parameters) -> Result<(), FtError>;

    /// Parse one document or query.
    fn parse(params: &Parameters) -> Result<(), FtError>;

    /// Release the parser after the query.
    fn deinit(params: &Parameters) -> Result<(), FtError>;
}

/// The mode the host asks a parser to run in.
#[derive(Clone, Copy, Debug, PartialEq, Eq, Structural)]
pub enum ParserMode {
    /// Plain tokenization.
    Simple,
    /// Tokenization with stopword filtering.
    WithStopwords,
    /// Boolean-query tokenization with per-token info.
    FullBoolean,
}

/// Token kinds of a boolean full-text query.
#[derive(Clone, Copy, Debug, PartialEq, Eq, Structural)]
pub enum TokenType {
    Eof,
    Word,
    LeftParen,
    RightParen,
    Stopword,
}

/// Whether a boolean token must, must not, or may appear.
#[derive(Clone, Copy, Debug, PartialEq, Eq, Structural)]
pub enum Presence {
    /// The result of the `+` operator.
    Required,
    /// The result of the `-` operator.
    Disallowed,
    /// The default case.
    Optional,
}

/// Per-token info of a boolean full-text query, as plain values.
#[derive(Clone, Copy, Debug, PartialEq, Eq, Structural)]
pub struct BooleanInfo {
    /// Positive: the token is required; negative: disallowed; zero:
    /// optional.
    pub yesno: i32,
    /// Positive: increase the word's weight; negative: decrease it.
    pub weight_adjust_value: i32,
}

impl BooleanInfo {
    /// Whether this token must, must not, or may appear.
    pub fn requires_presence(&self) -> (r: Presence)
        ensures
            self.yesno > 0 ==> r == Presence::Required,
            self.yesno < 0 ==> r == Presence::Disallowed,
            self.yesno == 0 ==> r == Presence::Optional,
    {
        if self.yesno > 0 {
            Presence::Required
        } else if self.yesno < 0 {
            Presence::Disallowed
        } else {
            Presence::Optional
        }
    }

    /// If positive, increase the word's weight; if negative, decrease
    /// it.
    pub fn weight_adjust(&self) -> (r: i32)
        ensures
            r == self.weight_adjust_value,
    {
        self.weight_adjust_value
    }

    /// Truncation marker; nothing is read yet.
    pub fn trunc(&self) {
    }
}

/// What the host hands a parser call, as plain values.
#[derive(Clone, Copy, Debug, PartialEq, Eq, Structural)]
pub struct Parameters {
    /// Host flag bits of the call.
    pub flags: u32,
}

impl Parameters {
    /// Whether token data must be copied to be persisted.
    pub fn needs_copy(&self) -> (r: bool)
        ensures
            r == (self.flags & MYSQL_FTFLAGS_NEED_COPY != 0),
    {
        self.flags & MYSQL_FTFLAGS_NEED_COPY != 0
    }
}

} // verus!
