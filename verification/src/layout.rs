//! The meaning of a document: which text it renders to at a given width.
//!
//! Rendering is defined here by structural recursion over [`SpecDoc`]. The
//! executable renderer walks the same tree with an explicit work list and is
//! proved to produce exactly this text.

use vstd::prelude::*;
use crate::doc::SpecDoc;

verus! {

/// The rendering state of a group and of everything directly inside it.
#[derive(Clone, Copy, Debug, PartialEq, Eq, Structural)]
pub enum Mode {
    /// Every potential break collapses to its flat substitute.
    Flat,
    /// Every potential break becomes a line break followed by indentation.
    Break,
}

/// The number of columns that `s` takes on a line: its length in characters.
pub open spec fn text_width(s: Seq<char>) -> nat {
    s.len()
}

/// `n` space characters.
pub open spec fn blanks(n: nat) -> Seq<char> {
    Seq::new(n, |i: int| ' ')
}

/// The columns left on a line of `width` columns once `column` are taken.
pub open spec fn remaining(width: nat, column: nat) -> nat {
    if width >= column {
        (width - column) as nat
    } else {
        0
    }
}

/// A piece of rendered text together with the column at which it ends.
pub struct Laid {
    /// The text.
    pub text: Seq<char>,
    /// The number of columns taken on the last line once the text is written.
    pub column: nat,
}

impl SpecDoc {
    /// The columns that the document takes when it is measured in `mode`. A
    /// group is always measured flat; a potential break measured in break
    /// mode takes none.
    pub open spec fn measure(self, mode: Mode) -> nat
        decreases self,
    {
        match self {
            SpecDoc::Nil => 0,
            SpecDoc::Text(s) => text_width(s),
            SpecDoc::Line(space) => match mode {
                Mode::Flat => text_width(space),
                Mode::Break => 0,
            },
            SpecDoc::Nest(_, doc) => doc.measure(mode),
            SpecDoc::Group(doc) => doc.measure(Mode::Flat),
            SpecDoc::Concat(left, right) => left.measure(mode) + right.measure(mode),
        }
    }

    /// The width of the document when it is laid out on a single line.
    pub open spec fn flat_width(self) -> nat {
        self.measure(Mode::Flat)
    }

    /// Whether the document, measured in `mode`, needs no more than `budget`
    /// columns.
    pub open spec fn fits(self, budget: nat, mode: Mode) -> bool {
        self.measure(mode) <= budget
    }

    /// The text of the document when every potential break in it collapses.
    pub open spec fn flat_text(self) -> Seq<char>
        decreases self,
    {
        match self {
            SpecDoc::Nil => Seq::empty(),
            SpecDoc::Text(s) => s,
            SpecDoc::Line(space) => space,
            SpecDoc::Nest(_, doc) => doc.flat_text(),
            SpecDoc::Group(doc) => doc.flat_text(),
            SpecDoc::Concat(left, right) => left.flat_text() + right.flat_text(),
        }
    }

    /// The mode in which a group around `self` is rendered when it starts at
    /// `column` on a line of `width` columns: flat if its content fits in the
    /// columns that are left, broken otherwise.
    pub open spec fn group_mode(self, width: nat, column: nat) -> Mode {
        if self.fits(remaining(width, column), Mode::Flat) {
            Mode::Flat
        } else {
            Mode::Break
        }
    }

    /// The rendering of the document in `mode`, starting at `column`, with
    /// line breaks indented by `indent`, on lines of `width` columns.
    pub open spec fn layout(self, width: nat, indent: nat, mode: Mode, column: nat) -> Laid
        decreases self,
    {
        match self {
            SpecDoc::Nil => Laid { text: Seq::empty(), column },
            SpecDoc::Text(s) => Laid { text: s, column: column + text_width(s) },
            SpecDoc::Line(space) => match mode {
                Mode::Flat => Laid { text: space, column: column + text_width(space) },
                Mode::Break => Laid { text: seq!['\n'] + blanks(indent), column: indent },
            },
            SpecDoc::Nest(amount, doc) => doc.layout(width, indent + amount, mode, column),
            SpecDoc::Group(doc) => doc.layout(width, indent, doc.group_mode(width, column), column),
            SpecDoc::Concat(left, right) => {
                let first = left.layout(width, indent, mode, column);
                let second = right.layout(width, indent, mode, first.column);
                Laid { text: first.text + second.text, column: second.column }
            },
        }
    }

    /// The text that the document renders to on lines of `width` columns.
    pub open spec fn rendering(self, width: nat) -> Seq<char> {
        self.layout(width, 0, Mode::Flat, 0).text
    }

    /// The sum of all text widths, flat substitutes and indentation amounts
    /// in the document: an upper bound on every column and every indentation
    /// level that rendering it can reach.
    pub open spec fn span(self) -> nat
        decreases self,
    {
        match self {
            SpecDoc::Nil => 0,
            SpecDoc::Text(s) => text_width(s),
            SpecDoc::Line(space) => text_width(space),
            SpecDoc::Nest(amount, doc) => amount + doc.span(),
            SpecDoc::Group(doc) => doc.span(),
            SpecDoc::Concat(left, right) => left.span() + right.span(),
        }
    }

    /// Whether no text and no flat substitute in the document holds a line
    /// break.
    pub open spec fn single_line(self) -> bool
        decreases self,
    {
        match self {
            SpecDoc::Nil => true,
            SpecDoc::Text(s) => !s.contains('\n'),
            SpecDoc::Line(space) => !space.contains('\n'),
            SpecDoc::Nest(_, doc) => doc.single_line(),
            SpecDoc::Group(doc) => doc.single_line(),
            SpecDoc::Concat(left, right) => left.single_line() && right.single_line(),
        }
    }

    /// The number of potential breaks that stand directly in the document:
    /// not inside a group within it.
    pub open spec fn direct_breaks(self) -> nat
        decreases self,
    {
        match self {
            SpecDoc::Nil => 0,
            SpecDoc::Text(_) => 0,
            SpecDoc::Line(_) => 1,
            SpecDoc::Nest(_, doc) => doc.direct_breaks(),
            SpecDoc::Group(_) => 0,
            SpecDoc::Concat(left, right) => left.direct_breaks() + right.direct_breaks(),
        }
    }

    /// The number of nodes in the document.
    pub open spec fn nodes(self) -> nat
        decreases self,
    {
        match self {
            SpecDoc::Nil => 1,
            SpecDoc::Text(_) => 1,
            SpecDoc::Line(_) => 1,
            SpecDoc::Nest(_, doc) => 1 + doc.nodes(),
            SpecDoc::Group(doc) => 1 + doc.nodes(),
            SpecDoc::Concat(left, right) => 1 + left.nodes() + right.nodes(),
        }
    }
}

/// The number of line breaks in a text.
pub open spec fn newlines(text: Seq<char>) -> nat
    decreases text.len(),
{
    if text.len() == 0 {
        0
    } else {
        newlines(text.drop_last()) + if text.last() == '\n' {
            1nat
        } else {
            0nat
        }
    }
}

/// The line breaks of a text made of two parts are those of the parts.
pub proof fn lemma_newlines_add(a: Seq<char>, b: Seq<char>)
    ensures
        newlines(a + b) == newlines(a) + newlines(b),
    decreases b.len(),
{
    if b.len() == 0 {
        assert(a + b =~= a);
    } else {
        assert((a + b).drop_last() =~= a + b.drop_last());
        lemma_newlines_add(a, b.drop_last());
    }
}

/// A document that fits in the columns left on the line is laid out flat in
/// flat mode, groups inside it included: its text is its flat text, and it
/// ends as many columns further as it is wide.
pub proof fn lemma_flat_layout(doc: SpecDoc, width: nat, indent: nat, column: nat)
    requires
        doc.flat_width() <= remaining(width, column),
    ensures
        doc.layout(width, indent, Mode::Flat, column) == (Laid {
            text: doc.flat_text(),
            column: column + doc.flat_width(),
        }),
    decreases doc,
{
    match doc {
        SpecDoc::Nil => {},
        SpecDoc::Text(_) => {},
        SpecDoc::Line(_) => {},
        SpecDoc::Nest(amount, inner) => {
            lemma_flat_layout(*inner, width, indent + amount, column);
        },
        SpecDoc::Group(inner) => {
            lemma_flat_layout(*inner, width, indent, column);
        },
        SpecDoc::Concat(left, right) => {
            lemma_flat_layout(*left, width, indent, column);
            lemma_flat_layout(*right, width, indent, column + left.flat_width());
        },
    }
}

/// The flat text of a document whose texts hold no line break holds none.
pub proof fn lemma_flat_text_single_line(doc: SpecDoc)
    requires
        doc.single_line(),
    ensures
        !doc.flat_text().contains('\n'),
    decreases doc,
{
    match doc {
        SpecDoc::Nil => {},
        SpecDoc::Text(_) => {},
        SpecDoc::Line(_) => {},
        SpecDoc::Nest(_, inner) => {
            lemma_flat_text_single_line(*inner);
        },
        SpecDoc::Group(inner) => {
            lemma_flat_text_single_line(*inner);
        },
        SpecDoc::Concat(left, right) => {
            lemma_flat_text_single_line(*left);
            lemma_flat_text_single_line(*right);
            let a = left.flat_text();
            let b = right.flat_text();
            if (a + b).contains('\n') {
                let i = choose|i: int| 0 <= i < (a + b).len() && (a + b)[i] == '\n';
                if i < a.len() {
                    assert(a[i] == '\n');
                } else {
                    assert(b[i - a.len()] == '\n');
                }
            }
        },
    }
}

/// Width is respected where that is possible: a group whose flat width is no
/// more than the columns left on the line is rendered flat, whatever the mode
/// around it. Its text is its flat text, which holds no line break unless one
/// of its texts does.
pub proof fn lemma_group_that_fits_is_flat(
    doc: SpecDoc,
    width: nat,
    indent: nat,
    mode: Mode,
    column: nat,
)
    requires
        doc.flat_width() <= remaining(width, column),
    ensures
        SpecDoc::Group(Box::new(doc)).layout(width, indent, mode, column) == (Laid {
            text: doc.flat_text(),
            column: column + doc.flat_width(),
        }),
        doc.single_line() ==> !SpecDoc::Group(Box::new(doc)).layout(
            width,
            indent,
            mode,
            column,
        ).text.contains('\n'),
{
    lemma_flat_layout(doc, width, indent, column);
    if doc.single_line() {
        lemma_flat_text_single_line(doc);
    }
}

/// A document laid out in break mode has at least one line break for each
/// potential break that stands directly in it.
pub proof fn lemma_broken_layout_breaks(doc: SpecDoc, width: nat, indent: nat, column: nat)
    ensures
        newlines(doc.layout(width, indent, Mode::Break, column).text) >= doc.direct_breaks(),
    decreases doc,
{
    match doc {
        SpecDoc::Nil => {},
        SpecDoc::Text(_) => {},
        SpecDoc::Line(_) => {
            let first = seq!['\n'];
            assert(first.drop_last() =~= Seq::<char>::empty());
            assert(newlines(first) == 1) by {
                assert(newlines(first.drop_last()) == 0);
            }
            lemma_newlines_add(first, blanks(indent));
        },
        SpecDoc::Nest(amount, inner) => {
            lemma_broken_layout_breaks(*inner, width, indent + amount, column);
        },
        SpecDoc::Group(_) => {},
        SpecDoc::Concat(left, right) => {
            let first = left.layout(width, indent, Mode::Break, column);
            let second = right.layout(width, indent, Mode::Break, first.column);
            lemma_broken_layout_breaks(*left, width, indent, column);
            lemma_broken_layout_breaks(*right, width, indent, first.column);
            lemma_newlines_add(first.text, second.text);
        },
    }
}

/// A group whose flat width is more than the columns left on the line is
/// rendered broken, whatever the mode around it: it is laid out as its
/// content is in break mode, so that every potential break that stands
/// directly in it becomes a line break.
pub proof fn lemma_group_that_overflows_is_broken(
    doc: SpecDoc,
    width: nat,
    indent: nat,
    mode: Mode,
    column: nat,
)
    requires
        doc.flat_width() > remaining(width, column),
    ensures
        SpecDoc::Group(Box::new(doc)).layout(width, indent, mode, column) == doc.layout(
            width,
            indent,
            Mode::Break,
            column,
        ),
        newlines(SpecDoc::Group(Box::new(doc)).layout(width, indent, mode, column).text)
            >= doc.direct_breaks(),
{
    lemma_broken_layout_breaks(doc, width, indent, column);
}

/// Flattening is local: inside a broken group, a group that fits in the
/// columns left at its own start is still rendered flat, and its text is then
/// the same as inside a flat group.
pub proof fn lemma_group_in_broken_context_is_flat(
    inner: SpecDoc,
    width: nat,
    indent: nat,
    column: nat,
)
    requires
        inner.flat_width() <= remaining(width, column),
    ensures
        SpecDoc::Group(Box::new(inner)).layout(width, indent, Mode::Break, column).text
            == inner.flat_text(),
        SpecDoc::Group(Box::new(inner)).layout(width, indent, Mode::Break, column)
            == SpecDoc::Group(Box::new(inner)).layout(width, indent, Mode::Flat, column),
{
    lemma_group_that_fits_is_flat(inner, width, indent, Mode::Break, column);
    lemma_group_that_fits_is_flat(inner, width, indent, Mode::Flat, column);
}

} // verus!
