//! The renderer: turns a document into text of a bounded width.
//!
//! Both the renderer and the fits check walk the document with an explicit
//! work list, so that deeply nested documents do not grow the call stack.

use vstd::prelude::*;
use crate::doc::Doc;
use crate::layout::{blanks, text_width, Laid, Mode};
use crate::strings::width_of;

verus! {

/// The total measure of the entries of a fits-check work list.
spec fn probes_measure(probes: Seq<(&Doc, Mode)>) -> nat
    decreases probes.len(),
{
    if probes.len() == 0 {
        0
    } else {
        probes_measure(probes.drop_last()) + probes.last().0@.measure(probes.last().1)
    }
}

/// The total number of nodes of the entries of a fits-check work list.
spec fn probes_nodes(probes: Seq<(&Doc, Mode)>) -> nat
    decreases probes.len(),
{
    if probes.len() == 0 {
        0
    } else {
        probes_nodes(probes.drop_last()) + probes.last().0@.nodes()
    }
}

proof fn lemma_probes_push(probes: Seq<(&Doc, Mode)>, top: (&Doc, Mode))
    ensures
        probes_measure(probes.push(top)) == probes_measure(probes) + top.0@.measure(top.1),
        probes_nodes(probes.push(top)) == probes_nodes(probes) + top.0@.nodes(),
{
    assert(probes.push(top).drop_last() =~= probes);
}

/// Check whether a document fits in the given width.
///
/// The document is measured in `mode`, every group inside it flat; the answer
/// is whether that measure is at most `width`. The scan stops at the first
/// piece of text that no longer fits.
pub fn fits_doc(width: usize, doc: &Doc, mode: Mode) -> (res: bool)
    ensures
        res == doc@.fits(width as nat, mode),
{
    let mut stack: Vec<(&Doc, Mode)> = Vec::new();
    stack.push((doc, mode));
    let mut remaining_width = width;
    proof {
        lemma_probes_push(Seq::empty(), (doc, mode));
    }
    while stack.len() > 0
        invariant
            doc@.fits(width as nat, mode) <==> probes_measure(stack@) <= remaining_width,
        decreases probes_nodes(stack@),
    {
        let ghost before = stack@;
        let (current_doc, current_mode) = stack.pop().unwrap();
        assert(stack@ == before.drop_last());
        assert(probes_measure(before) == probes_measure(stack@) + current_doc@.measure(
            current_mode,
        ));
        assert(probes_nodes(before) == probes_nodes(stack@) + current_doc@.nodes());
        match current_doc {
            Doc::Nil => {},
            Doc::Text(s) => {
                if width_of(s.as_str()) > remaining_width {
                    return false;
                }
                remaining_width -= width_of(s.as_str());
            },
            Doc::Line { space } => {
                if current_mode == Mode::Flat {
                    if width_of(space.as_str()) > remaining_width {
                        return false;
                    }
                    remaining_width -= width_of(space.as_str());
                }
            },
            Doc::Nest { doc: inner, .. } => {
                proof {
                    lemma_probes_push(stack@, (&**inner, current_mode));
                }
                stack.push((&**inner, current_mode));
            },
            Doc::Concat { left, right } => {
                proof {
                    lemma_probes_push(stack@, (&**right, current_mode));
                    lemma_probes_push(stack@.push((&**right, current_mode)), (&**left, current_mode));
                }
                stack.push((&**right, current_mode));
                stack.push((&**left, current_mode));
            },
            Doc::Group(inner) => {
                proof {
                    lemma_probes_push(stack@, (&**inner, Mode::Flat));
                }
                stack.push((&**inner, Mode::Flat));
            },
        }
    }
    true
}

/// A string of `n` spaces.
pub fn spaces(n: usize) -> (res: String)
    ensures
        res@ == blanks(n as nat),
{
    let mut res = String::new();
    let mut i: usize = 0;
    proof {
        reveal_strlit(" ");
    }
    while i < n
        invariant
            i <= n,
            res@ == blanks(i as nat),
            " "@ == seq![' '],
        decreases n - i,
    {
        res.append(" ");
        i += 1;
        assert(res@ =~= blanks(i as nat));
    }
    res
}

/// One unit of pending work of the renderer.
struct Item {
    indent: usize,
    mode: Mode,
    doc: Doc,
}

/// What the work list still renders to, from `column` on: its entries are
/// laid out one after the other, the last one first.
spec fn pending(items: Seq<Item>, width: nat, column: nat) -> Laid
    decreases items.len(),
{
    if items.len() == 0 {
        Laid { text: Seq::empty(), column }
    } else {
        let top = items.last();
        let first = top.doc@.layout(width, top.indent as nat, top.mode, column);
        let rest = pending(items.drop_last(), width, first.column);
        Laid { text: first.text + rest.text, column: rest.column }
    }
}

/// The total span of the documents on the work list.
spec fn items_span(items: Seq<Item>) -> nat
    decreases items.len(),
{
    if items.len() == 0 {
        0
    } else {
        items_span(items.drop_last()) + items.last().doc@.span()
    }
}

/// The total number of nodes of the documents on the work list.
spec fn items_nodes(items: Seq<Item>) -> nat
    decreases items.len(),
{
    if items.len() == 0 {
        0
    } else {
        items_nodes(items.drop_last()) + items.last().doc@.nodes()
    }
}

proof fn lemma_items_push(items: Seq<Item>, top: Item, width: nat, column: nat)
    ensures
        items_span(items.push(top)) == items_span(items) + top.doc@.span(),
        items_nodes(items.push(top)) == items_nodes(items) + top.doc@.nodes(),
        pending(items.push(top), width, column) == ({
            let first = top.doc@.layout(width, top.indent as nat, top.mode, column);
            let rest = pending(items, width, first.column);
            Laid { text: first.text + rest.text, column: rest.column }
        }),
{
    assert(items.push(top).drop_last() =~= items);
}

/// Render a document to a string with a given width limit.
///
/// The widths and indentation amounts of the document must add up to no more
/// than `usize::MAX`, so that every column and indentation level reached
/// while rendering is a machine integer.
pub fn pretty(width: usize, doc: Doc) -> (res: String)
    requires
        doc@.span() <= usize::MAX,
    ensures
        res@ == doc@.rendering(width as nat),
{
    let ghost whole = doc@;
    let mut output = String::new();
    let mut col: usize = 0;
    let mut items: Vec<Item> = Vec::new();
    let ghost mut peak: nat = 0;
    proof {
        lemma_items_push(Seq::empty(), Item { indent: 0, mode: Mode::Flat, doc }, width as nat, 0);
    }
    items.push(Item { indent: 0, mode: Mode::Flat, doc });
    proof {
        reveal_strlit("\n");
    }
    while items.len() > 0
        invariant
            output@ + pending(items@, width as nat, col as nat).text == whole.rendering(
                width as nat,
            ),
            col <= peak,
            forall|i: int| 0 <= i < items.len() ==> (#[trigger] items[i]).indent <= peak,
            peak + items_span(items@) <= usize::MAX,
            "\n"@ == seq!['\n'],
        decreases items_nodes(items@),
    {
        let ghost before = items@;
        let ghost before_out = output@;
        let item = items.pop().unwrap();
        assert(items@ == before.drop_last());
        assert(item == before.last());
        let ghost laid = item.doc@.layout(width as nat, item.indent as nat, item.mode, col as nat);
        let ghost rest = pending(items@, width as nat, laid.column);
        assert(pending(before, width as nat, col as nat).text == laid.text + rest.text);
        assert(before_out + (laid.text + rest.text) =~= (before_out + laid.text) + rest.text);
        let indent = item.indent;
        let mode = item.mode;
        match item.doc {
            Doc::Nil => {},
            Doc::Text(s) => {
                col += width_of(s.as_str());
                output.append(s.as_str());
                proof {
                    peak = peak + text_width(s@);
                }
            },
            Doc::Line { space } => {
                if mode == Mode::Flat {
                    col += width_of(space.as_str());
                    output.append(space.as_str());
                    proof {
                        peak = peak + text_width(space@);
                    }
                } else {
                    output.append("\n");
                    let pad = spaces(indent);
                    output.append(pad.as_str());
                    col = indent;
                    assert(output@ =~= before_out + (seq!['\n'] + blanks(indent as nat)));
                }
            },
            Doc::Nest { indent: amount, doc: inner } => {
                let next = Item { indent: indent + amount, mode, doc: *inner };
                proof {
                    lemma_items_push(items@, next, width as nat, col as nat);
                    peak = peak + amount as nat;
                }
                items.push(next);
            },
            Doc::Concat { left, right } => {
                let second = Item { indent, mode, doc: *right };
                let first = Item { indent, mode, doc: *left };
                proof {
                    let mid = first.doc@.layout(width as nat, indent as nat, mode, col as nat);
                    lemma_items_push(items@, second, width as nat, mid.column);
                    lemma_items_push(items@.push(second), first, width as nat, col as nat);
                    let tail = second.doc@.layout(width as nat, indent as nat, mode, mid.column);
                    assert(mid.text + (tail.text + rest.text) =~= (mid.text + tail.text)
                        + rest.text);
                }
                items.push(second);
                items.push(first);
            },
            Doc::Group(inner) => {
                let fits = fits_doc(
                    if width >= col {
                        width - col
                    } else {
                        0
                    },
                    &*inner,
                    Mode::Flat,
                );
                let chosen = if fits {
                    Mode::Flat
                } else {
                    Mode::Break
                };
                let next = Item { indent, mode: chosen, doc: *inner };
                proof {
                    lemma_items_push(items@, next, width as nat, col as nat);
                }
                items.push(next);
            },
        }
    }
    assert(output@ + Seq::<char>::empty() =~= output@);
    output
}

/// The total span of the documents on a work list of references.
spec fn refs_span(docs: Seq<&Doc>) -> nat
    decreases docs.len(),
{
    if docs.len() == 0 {
        0
    } else {
        refs_span(docs.drop_last()) + docs.last()@.span()
    }
}

/// The total number of nodes of the documents on a work list of references.
spec fn refs_nodes(docs: Seq<&Doc>) -> nat
    decreases docs.len(),
{
    if docs.len() == 0 {
        0
    } else {
        refs_nodes(docs.drop_last()) + docs.last()@.nodes()
    }
}

proof fn lemma_refs_push(docs: Seq<&Doc>, top: &Doc)
    ensures
        refs_span(docs.push(top)) == refs_span(docs) + top@.span(),
        refs_nodes(docs.push(top)) == refs_nodes(docs) + top@.nodes(),
{
    assert(docs.push(top).drop_last() =~= docs);
}

impl Doc {
    /// The span of the document, or `None` where it is more than
    /// `usize::MAX`.
    pub fn checked_span(&self) -> (res: Option<usize>)
        ensures
            match res {
                Some(n) => n == self@.span(),
                None => self@.span() > usize::MAX,
            },
    {
        let mut stack: Vec<&Doc> = Vec::new();
        stack.push(self);
        let mut total: usize = 0;
        proof {
            lemma_refs_push(Seq::empty(), self);
        }
        while stack.len() > 0
            invariant
                total + refs_span(stack@) == self@.span(),
            decreases refs_nodes(stack@),
        {
            let ghost before = stack@;
            let current = stack.pop().unwrap();
            assert(stack@ == before.drop_last());
            assert(refs_span(before) == refs_span(stack@) + current@.span());
            assert(refs_nodes(before) == refs_nodes(stack@) + current@.nodes());
            let own = match current {
                Doc::Nil => 0,
                Doc::Text(s) => width_of(s.as_str()),
                Doc::Line { space } => width_of(space.as_str()),
                Doc::Nest { indent, doc } => {
                    proof {
                        lemma_refs_push(stack@, &**doc);
                    }
                    stack.push(&**doc);
                    *indent
                },
                Doc::Group(doc) => {
                    proof {
                        lemma_refs_push(stack@, &**doc);
                    }
                    stack.push(&**doc);
                    0
                },
                Doc::Concat { left, right } => {
                    proof {
                        lemma_refs_push(stack@, &**right);
                        lemma_refs_push(stack@.push(&**right), &**left);
                    }
                    stack.push(&**right);
                    stack.push(&**left);
                    0
                },
            };
            match total.checked_add(own) {
                Some(sum) => {
                    total = sum;
                },
                None => {
                    return None;
                },
            }
        }
        Some(total)
    }
}

/// Render a document to a string with a given width limit, where its span
/// is in the machine's range; `None` where it is not.
pub fn try_pretty(width: usize, doc: Doc) -> (res: Option<String>)
    ensures
        match res {
            Some(text) => doc@.span() <= usize::MAX && text@ == doc@.rendering(width as nat),
            None => doc@.span() > usize::MAX,
        },
{
    match doc.checked_span() {
        Some(_) => Some(pretty(width, doc)),
        None => None,
    }
}

} // verus!
