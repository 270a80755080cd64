//! The document algebra: layout primitives and the functions that build them.
//!
//! A [`Doc`] describes the possible layouts of a piece of text without fixing
//! one of them. Its mathematical model is [`SpecDoc`], over which every
//! contract of this crate is stated.

use vstd::prelude::*;

verus! {

/// The mathematical model of a document.
pub enum SpecDoc {
    /// Renders to nothing.
    Nil,
    /// Literal text.
    Text(Seq<char>),
    /// A potential line break, with the text that replaces it when it collapses.
    Line(Seq<char>),
    /// A document whose line breaks are indented by a further amount.
    Nest(nat, Box<SpecDoc>),
    /// A unit of layout decision: rendered either all flat or all broken.
    Group(Box<SpecDoc>),
    /// Two documents, one after the other.
    Concat(Box<SpecDoc>, Box<SpecDoc>),
}

/// A document in Wadler's algebra.
#[derive(Debug)]
pub enum Doc {
    /// Empty document.
    Nil,
    /// Literal text.
    Text(String),
    /// A potential line break. In flat mode it becomes `space`; in break mode
    /// it becomes a newline followed by the current indentation.
    Line { space: String },
    /// Increases indentation for nested content.
    Nest { indent: usize, doc: Box<Doc> },
    /// Tries to fit content on one line; if it does not fit, expands lines.
    Group(Box<Doc>),
    /// Concatenation of two documents.
    Concat { left: Box<Doc>, right: Box<Doc> },
}

impl Doc {
    /// The mathematical model of this document.
    pub open spec fn model(self) -> SpecDoc
        decreases self,
    {
        match self {
            Doc::Nil => SpecDoc::Nil,
            Doc::Text(s) => SpecDoc::Text(s@),
            Doc::Line { space } => SpecDoc::Line(space@),
            Doc::Nest { indent, doc } => SpecDoc::Nest(indent as nat, Box::new((*doc).model())),
            Doc::Group(doc) => SpecDoc::Group(Box::new((*doc).model())),
            Doc::Concat { left, right } => SpecDoc::Concat(
                Box::new((*left).model()),
                Box::new((*right).model()),
            ),
        }
    }
}

impl View for Doc {
    type V = SpecDoc;

    open spec fn view(&self) -> SpecDoc {
        self.model()
    }
}

/// The views of a sequence of documents, in order.
pub open spec fn doc_views(docs: Seq<Doc>) -> Seq<SpecDoc> {
    docs.map_values(|d: Doc| d@)
}

impl SpecDoc {
    /// Literal text; the empty text is `Nil`.
    pub open spec fn text(s: Seq<char>) -> SpecDoc {
        if s.len() == 0 {
            SpecDoc::Nil
        } else {
            SpecDoc::Text(s)
        }
    }

    /// A potential break that collapses to a single space.
    pub open spec fn line() -> SpecDoc {
        SpecDoc::Line(seq![' '])
    }

    /// A potential break that collapses to nothing.
    pub open spec fn line_or_empty() -> SpecDoc {
        SpecDoc::Line(Seq::empty())
    }

    /// `doc`, with `amount` more columns of indentation after its line breaks.
    pub open spec fn nest(amount: nat, doc: SpecDoc) -> SpecDoc {
        SpecDoc::Nest(amount, Box::new(doc))
    }

    /// `doc` as one unit of layout decision.
    pub open spec fn group(doc: SpecDoc) -> SpecDoc {
        SpecDoc::Group(Box::new(doc))
    }

    /// Concatenation with `Nil` as the identity: a `Nil` operand is dropped
    /// and no pair is built for it.
    pub open spec fn append(self, next: SpecDoc) -> SpecDoc {
        if self is Nil {
            next
        } else if next is Nil {
            self
        } else {
            SpecDoc::Concat(Box::new(self), Box::new(next))
        }
    }

    /// The left fold of `docs` with [`SpecDoc::append`], starting from `Nil`.
    pub open spec fn concat(docs: Seq<SpecDoc>) -> SpecDoc
        decreases docs.len(),
    {
        if docs.len() == 0 {
            SpecDoc::Nil
        } else {
            Self::concat(docs.drop_last()).append(docs.last())
        }
    }

    /// The documents of `docs` with `sep` between each two neighbours.
    pub open spec fn join(sep: SpecDoc, docs: Seq<SpecDoc>) -> SpecDoc
        decreases docs.len(),
    {
        if docs.len() == 0 {
            SpecDoc::Nil
        } else if docs.len() == 1 {
            docs[0]
        } else {
            Self::join(sep, docs.drop_last()).append(sep).append(docs.last())
        }
    }
}

impl Clone for Doc {
    /// A deep copy: the clone has the same view.
    fn clone(&self) -> (res: Doc)
        ensures
            res@ == self@,
        decreases self,
    {
        match self {
            Doc::Nil => Doc::Nil,
            Doc::Text(s) => Doc::Text(s.clone()),
            Doc::Line { space } => Doc::Line { space: space.clone() },
            Doc::Nest { indent, doc } => Doc::Nest {
                indent: *indent,
                doc: Box::new((&**doc).clone()),
            },
            Doc::Group(doc) => Doc::Group(Box::new((&**doc).clone())),
            Doc::Concat { left, right } => Doc::Concat {
                left: Box::new((&**left).clone()),
                right: Box::new((&**right).clone()),
            },
        }
    }
}

impl Doc {
    /// Create a text document; the empty string gives `Nil`.
    pub fn text(s: &str) -> (res: Doc)
        ensures
            res@ == SpecDoc::text(s@),
    {
        if s.is_empty() {
            Doc::Nil
        } else {
            Doc::Text(s.to_owned())
        }
    }

    /// Create a line break that becomes a space in flat mode.
    pub fn line() -> (res: Doc)
        ensures
            res@ == SpecDoc::line(),
    {
        proof {
            reveal_strlit(" ");
        }
        let space = " ".to_owned();
        assert(space@ =~= seq![' ']);
        Doc::Line { space }
    }

    /// Create a line break that becomes empty in flat mode.
    pub fn line_or_empty() -> (res: Doc)
        ensures
            res@ == SpecDoc::line_or_empty(),
    {
        Doc::Line { space: String::new() }
    }

    /// Nest a document with the given indentation.
    pub fn nest(indent: usize, doc: Doc) -> (res: Doc)
        ensures
            res@ == SpecDoc::nest(indent as nat, doc@),
    {
        Doc::Nest { indent, doc: Box::new(doc) }
    }

    /// Group a document to try fitting on one line.
    pub fn group(doc: Doc) -> (res: Doc)
        ensures
            res@ == SpecDoc::group(doc@),
    {
        Doc::Group(Box::new(doc))
    }

    /// Concatenate multiple documents, from left to right. `Nil` members
    /// leave no trace in the result.
    pub fn concat(docs: Vec<Doc>) -> (res: Doc)
        ensures
            res@ == SpecDoc::concat(doc_views(docs@)),
    {
        let ghost all = docs@;
        let mut result = Doc::Nil;
        for doc in it: docs
            invariant
                it.seq() == all,
                result@ == SpecDoc::concat(doc_views(all.take(it.index() as int))),
        {
            proof {
                let i = it.index() as int;
                assert(all.take(i + 1).drop_last() =~= all.take(i));
                assert(doc_views(all.take(i + 1)).drop_last() =~= doc_views(all.take(i)));
            }
            result = result.append(doc);
        }
        proof {
            assert(all.take(all.len() as int) =~= all);
        }
        result
    }

    /// Join documents with a separator.
    pub fn join(sep: Doc, docs: Vec<Doc>) -> (res: Doc)
        ensures
            res@ == SpecDoc::join(sep@, doc_views(docs@)),
    {
        let ghost all = docs@;
        let mut result = Doc::Nil;
        let mut first = true;
        for doc in it: docs
            invariant
                it.seq() == all,
                first == (it.index() == 0),
                result@ == SpecDoc::join(sep@, doc_views(all.take(it.index() as int))),
        {
            proof {
                let i = it.index() as int;
                assert(all.take(i + 1).drop_last() =~= all.take(i));
                assert(doc_views(all.take(i + 1)).drop_last() =~= doc_views(all.take(i)));
            }
            if first {
                result = doc;
                first = false;
            } else {
                result = result.append(sep.clone()).append(doc);
            }
        }
        proof {
            assert(all.take(all.len() as int) =~= all);
        }
        result
    }

    /// Put `next` after `self`, dropping whichever of the two is `Nil`.
    pub fn append(self, next: Doc) -> (res: Doc)
        ensures
            res@ == self@.append(next@),
    {
        match self {
            Doc::Nil => next,
            _ => match next {
                Doc::Nil => self,
                _ => Doc::Concat { left: Box::new(self), right: Box::new(next) },
            },
        }
    }
}

} // verus!
