use groq_format::doc::Doc;
use groq_format::render::pretty;

fn shape(doc: &Doc) -> String {
    format!("{:?}", doc)
}

#[test]
fn text_of_empty_string_is_nil() {
    assert!(matches!(Doc::text(""), Doc::Nil));
}

#[test]
fn text_keeps_its_string() {
    match Doc::text("abc") {
        Doc::Text(s) => assert_eq!(s, "abc"),
        other => panic!("unexpected document: {:?}", other),
    }
}

#[test]
fn line_collapses_to_a_space() {
    match Doc::line() {
        Doc::Line { space } => assert_eq!(space, " "),
        other => panic!("unexpected document: {:?}", other),
    }
}

#[test]
fn line_or_empty_collapses_to_nothing() {
    match Doc::line_or_empty() {
        Doc::Line { space } => assert_eq!(space, ""),
        other => panic!("unexpected document: {:?}", other),
    }
}

#[test]
fn nest_wraps_its_child() {
    match Doc::nest(4, Doc::text("x")) {
        Doc::Nest { indent, doc } => {
            assert_eq!(indent, 4);
            assert!(matches!(*doc, Doc::Text(ref s) if s == "x"));
        }
        other => panic!("unexpected document: {:?}", other),
    }
}

#[test]
fn group_wraps_its_child() {
    match Doc::group(Doc::text("x")) {
        Doc::Group(doc) => assert!(matches!(*doc, Doc::Text(ref s) if s == "x")),
        other => panic!("unexpected document: {:?}", other),
    }
}

#[test]
fn concat_of_nothing_is_nil() {
    assert!(matches!(Doc::concat(vec![]), Doc::Nil));
}

#[test]
fn concat_of_one_is_that_one() {
    assert_eq!(shape(&Doc::concat(vec![Doc::text("a")])), shape(&Doc::text("a")));
}

#[test]
fn concat_folds_to_the_left() {
    let doc = Doc::concat(vec![Doc::text("a"), Doc::text("b"), Doc::text("c")]);
    match doc {
        Doc::Concat { left, right } => {
            assert!(matches!(*right, Doc::Text(ref s) if s == "c"));
            match *left {
                Doc::Concat { left, right } => {
                    assert!(matches!(*left, Doc::Text(ref s) if s == "a"));
                    assert!(matches!(*right, Doc::Text(ref s) if s == "b"));
                }
                other => panic!("unexpected document: {:?}", other),
            }
        }
        other => panic!("unexpected document: {:?}", other),
    }
}

#[test]
fn concat_drops_nil_members() {
    let with_nils = Doc::concat(vec![
        Doc::Nil,
        Doc::text("a"),
        Doc::text(""),
        Doc::Nil,
        Doc::text("b"),
        Doc::Nil,
    ]);
    let without = Doc::concat(vec![Doc::text("a"), Doc::text("b")]);
    assert_eq!(shape(&with_nils), shape(&without));
}

#[test]
fn concat_of_nils_is_nil() {
    assert!(matches!(Doc::concat(vec![Doc::Nil, Doc::text(""), Doc::Nil]), Doc::Nil));
}

#[test]
fn append_drops_nil_on_either_side() {
    assert_eq!(shape(&Doc::Nil.append(Doc::text("a"))), shape(&Doc::text("a")));
    assert_eq!(shape(&Doc::text("a").append(Doc::Nil)), shape(&Doc::text("a")));
    assert!(matches!(Doc::Nil.append(Doc::Nil), Doc::Nil));
    assert!(matches!(Doc::text("a").append(Doc::text("b")), Doc::Concat { .. }));
}

#[test]
fn join_of_nothing_is_nil() {
    assert!(matches!(Doc::join(Doc::text(","), vec![]), Doc::Nil));
}

#[test]
fn join_of_one_is_that_one() {
    let doc = Doc::join(Doc::text(","), vec![Doc::text("only")]);
    assert_eq!(shape(&doc), shape(&Doc::text("only")));
}

#[test]
fn join_puts_the_separator_between_neighbours() {
    let doc = Doc::join(
        Doc::text(", "),
        vec![Doc::text("a"), Doc::text("b"), Doc::text("c")],
    );
    let expected = Doc::concat(vec![
        Doc::text("a"),
        Doc::text(", "),
        Doc::text("b"),
        Doc::text(", "),
        Doc::text("c"),
    ]);
    assert_eq!(shape(&doc), shape(&expected));
    assert_eq!(pretty(80, doc), "a, b, c");
}

#[test]
fn join_with_nil_separator_only_concatenates() {
    let doc = Doc::join(Doc::Nil, vec![Doc::text("a"), Doc::text("b")]);
    assert_eq!(pretty(80, doc), "ab");
}

#[test]
fn clone_is_a_deep_copy() {
    let doc = Doc::group(Doc::concat(vec![
        Doc::text("a"),
        Doc::nest(2, Doc::concat(vec![Doc::line(), Doc::text("b")])),
        Doc::line_or_empty(),
    ]));
    let copy = doc.clone();
    assert_eq!(shape(&copy), shape(&doc));
    assert_eq!(pretty(1, copy), pretty(1, doc));
}
