//! Formatting of GROQ queries with adaptive line wrapping.
//!
//! A query's expression tree is first turned into a layout document by the
//! style rules in [`format`], and the document is then rendered to text of a
//! bounded width by [`render::pretty`].

use vstd::prelude::*;
use crate::ast::Expr;
use crate::format::expr_doc;
use crate::render::try_pretty;

pub mod ast;
pub mod doc;
pub mod format;
pub mod layout;
pub mod literal;
pub mod query;
pub mod render;
pub mod strings;

pub use crate::doc::Doc;
pub use crate::format::format_expr;

verus! {

/// Default line width for formatting.
pub const DEFAULT_WIDTH: usize = 80;

/// Errors that can occur during formatting.
#[derive(Debug, Clone)]
pub enum FormatError {
    /// The query string was empty.
    EmptyQuery,
    /// Failed to parse the query.
    Parse(String),
}

impl FormatError {
    /// The message of the error, as it is shown to a user.
    pub open spec fn message_text(self) -> Seq<char> {
        match self {
            FormatError::EmptyQuery => "no query provided"@,
            FormatError::Parse(msg) => "parse error: "@ + msg@,
        }
    }

    /// The message of the error, as it is shown to a user.
    pub fn message(&self) -> (res: String)
        ensures
            res@ == self.message_text(),
    {
        match self {
            FormatError::EmptyQuery => "no query provided".to_owned(),
            FormatError::Parse(msg) => {
                let mut text = "parse error: ".to_owned();
                text.append(msg.as_str());
                text
            },
        }
    }
}

/// Format a parsed query with the given maximum line width.
///
/// The result is the rendering of the document that the style rules give
/// for the tree. It is `None` only where the widths in that document add up
/// to more than `usize::MAX`.
pub fn format_tree(tree: &Expr, width: usize) -> (res: Option<String>)
    ensures
        match res {
            Some(text) => expr_doc(*tree).span() <= usize::MAX && text@ == expr_doc(
                *tree,
            ).rendering(width as nat),
            None => expr_doc(*tree).span() > usize::MAX,
        },
{
    try_pretty(width, format_expr(tree))
}

} // verus!
