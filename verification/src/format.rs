//! The style rules: how each kind of expression is laid out.
//!
//! Every rule exists twice. The spec function (`expr_doc` and the functions
//! it calls) says which document an expression stands for; the executable
//! function of the matching name builds that document.

use vstd::prelude::*;
use crate::ast::{
    Array, BinaryOperator, DotOperator, Expr, FunctionCall, FunctionDefinition, Literal, Object,
    ParseResult, PostfixOperator, PrefixOperator, Range, TokenKind,
};
use crate::doc::{doc_views, Doc, SpecDoc};
use crate::layout::Mode;
use crate::literal::{escape, escape_string, float_text, format_float, format_integer, integer_text};

verus! {

/// The separator between the members of a list: a comma, then a potential
/// break that collapses to a space.
pub open spec fn comma_line() -> SpecDoc {
    SpecDoc::concat(seq![SpecDoc::text(","@), SpecDoc::line()])
}

/// The document of a literal value.
pub open spec fn literal_doc(lit: Literal) -> SpecDoc {
    match lit {
        Literal::String(s) => SpecDoc::text("\""@ + escape(s@) + "\""@),
        Literal::Integer(i) => SpecDoc::text(integer_text(i as int)),
        Literal::Float(natural) => SpecDoc::text(float_text(natural@)),
        Literal::Boolean(b) => SpecDoc::text(
            if b {
                "true"@
            } else {
                "false"@
            },
        ),
        Literal::Null => SpecDoc::text("null"@),
    }
}

/// A left operand, then on the same line or on an indented line of its own a
/// lead-in text and the right operand.
pub open spec fn continued(left: SpecDoc, lead: Seq<char>, right: SpecDoc) -> SpecDoc {
    SpecDoc::group(
        SpecDoc::concat(
            seq![
                left,
                SpecDoc::nest(
                    2,
                    SpecDoc::concat(seq![SpecDoc::line(), SpecDoc::text(lead), right]),
                ),
            ],
        ),
    )
}

/// The document of an expression.
pub open spec fn expr_doc(e: Expr) -> SpecDoc
    decreases e, 0nat,
{
    match e {
        Expr::Everything => SpecDoc::text("*"@),
        Expr::This => SpecDoc::text("@"@),
        Expr::Parent => SpecDoc::text("^"@),
        Expr::Ellipsis => SpecDoc::text("..."@),
        Expr::Literal(lit) => literal_doc(lit),
        Expr::Attribute(name) => SpecDoc::text(name@),
        Expr::Param(name) => SpecDoc::text("$"@ + name@),
        Expr::Filter { lhs, constraint } => SpecDoc::concat(
            seq![
                expr_doc(*lhs),
                SpecDoc::group(SpecDoc::concat(seq![SpecDoc::text("["@), expr_doc(*constraint)])),
                SpecDoc::text("]"@),
            ],
        ),
        Expr::Slice { lhs, range } => SpecDoc::concat(
            seq![expr_doc(*lhs), SpecDoc::text("["@), expr_doc(*range), SpecDoc::text("]"@)],
        ),
        Expr::Element { lhs, index } => SpecDoc::concat(
            seq![expr_doc(*lhs), SpecDoc::text("["@), expr_doc(*index), SpecDoc::text("]"@)],
        ),
        Expr::ArrayTraversal(inner) => SpecDoc::concat(
            seq![expr_doc(*inner), SpecDoc::text("[]"@)],
        ),
        Expr::Dot(dot) => dot_doc(dot),
        Expr::Projection { lhs, object } => SpecDoc::concat(
            seq![expr_doc(*lhs), SpecDoc::text(" "@), object_doc(object)],
        ),
        Expr::Pipe { lhs, rhs } => continued(expr_doc(*lhs), "| "@, expr_doc(*rhs)),
        Expr::FunctionPipe { lhs, func } => continued(expr_doc(*lhs), "| "@, call_doc(func)),
        Expr::Binary(bin) => binary_doc(bin),
        Expr::Prefix(prefix) => prefix_doc(prefix),
        Expr::Postfix(postfix) => postfix_doc(postfix),
        Expr::FunctionCall(func) => call_doc(func),
        Expr::Array(arr) => array_doc(arr),
        Expr::Object(obj) => object_doc(obj),
        Expr::Group(inner) => SpecDoc::concat(
            seq![SpecDoc::text("("@), expr_doc(*inner), SpecDoc::text(")"@)],
        ),
        Expr::Range(range) => range_doc(range),
        Expr::Constraint(inner) => expr_doc(*inner),
        Expr::Subscript(inner) => expr_doc(*inner),
        Expr::Tuple(members) => SpecDoc::concat(
            seq![
                SpecDoc::text("("@),
                SpecDoc::group(SpecDoc::join(comma_line(), exprs_docs(members@))),
                SpecDoc::text(")"@),
            ],
        ),
    }
}

/// The documents of a list of expressions, in order.
pub open spec fn exprs_docs(es: Seq<Expr>) -> Seq<SpecDoc>
    decreases es, 0nat,
{
    Seq::new(
        es.len(),
        |i: int|
            if 0 <= i < es.len() {
                expr_doc(es[i])
            } else {
                SpecDoc::Nil
            },
    )
}

/// The documents of the fields of an object, in order.
pub open spec fn fields_docs(es: Seq<Expr>) -> Seq<SpecDoc>
    decreases es, 0nat,
{
    Seq::new(
        es.len(),
        |i: int|
            if 0 <= i < es.len() {
                field_doc(es[i])
            } else {
                SpecDoc::Nil
            },
    )
}

/// Whether the expression is a dereference `lhs->`.
pub open spec fn is_dereference(e: Expr) -> bool {
    e matches Expr::Postfix(post) && post.operator.kind == TokenKind::Arrow
}

/// Attribute access: the operands with a `.` between them, which is left out
/// behind a dereference.
pub open spec fn dot_doc(dot: DotOperator) -> SpecDoc
    decreases dot, 0nat,
{
    if is_dereference(*dot.lhs) {
        SpecDoc::concat(seq![expr_doc(*dot.lhs), expr_doc(*dot.rhs)])
    } else {
        SpecDoc::concat(seq![expr_doc(*dot.lhs), SpecDoc::text("."@), expr_doc(*dot.rhs)])
    }
}

/// An infix operator. Conjunctions and disjunctions may break before the
/// operator; a key and its value are joined by `": "`; every other operator
/// stands between two spaces.
pub open spec fn binary_doc(bin: BinaryOperator) -> SpecDoc
    decreases bin, 0nat,
{
    let op = bin.operator.literal@;
    let left = expr_doc(*bin.lhs);
    let right = expr_doc(*bin.rhs);
    match bin.operator.kind {
        TokenKind::And | TokenKind::Or => continued(left, op + " "@, right),
        TokenKind::Colon => SpecDoc::concat(seq![left, SpecDoc::text(": "@), right]),
        _ => SpecDoc::concat(seq![left, SpecDoc::text(" "@ + op + " "@), right]),
    }
}

/// A prefix operator, directly in front of its operand.
pub open spec fn prefix_doc(prefix: PrefixOperator) -> SpecDoc
    decreases prefix, 0nat,
{
    SpecDoc::concat(seq![SpecDoc::text(prefix.operator.literal@), expr_doc(*prefix.rhs)])
}

/// A postfix operator behind its operand; a sort order is set off by a space.
pub open spec fn postfix_doc(postfix: PostfixOperator) -> SpecDoc
    decreases postfix, 0nat,
{
    let op = postfix.operator.literal@;
    let op_text = match postfix.operator.kind {
        TokenKind::AscOperator | TokenKind::DescOperator => " "@ + op,
        _ => op,
    };
    SpecDoc::concat(seq![expr_doc(*postfix.lhs), SpecDoc::text(op_text)])
}

/// The name by which a function is called: `name` or `namespace::name`.
pub open spec fn qualified_name(namespace: Seq<char>, name: Seq<char>) -> Seq<char> {
    if namespace.len() == 0 {
        name
    } else {
        namespace + "::"@ + name
    }
}

/// A function call. With arguments it is a group that either stays on one
/// line or puts each argument on an indented line of its own and the closing
/// parenthesis on the last line.
pub open spec fn call_doc(func: FunctionCall) -> SpecDoc
    decreases func, 0nat,
{
    let name = qualified_name(func.namespace@, func.name@);
    if func.arguments@.len() == 0 {
        SpecDoc::text(name + "()"@)
    } else {
        SpecDoc::group(
            SpecDoc::concat(
                seq![
                    SpecDoc::text(name + "("@),
                    SpecDoc::nest(
                        2,
                        SpecDoc::concat(
                            seq![
                                SpecDoc::line_or_empty(),
                                SpecDoc::join(comma_line(), exprs_docs(func.arguments@)),
                            ],
                        ),
                    ),
                    SpecDoc::line_or_empty(),
                    SpecDoc::text(")"@),
                ],
            ),
        )
    }
}

/// An array: `[]` when it is empty, else its elements in a group between the
/// brackets.
pub open spec fn array_doc(arr: Array) -> SpecDoc
    decreases arr, 0nat,
{
    if arr.expressions@.len() == 0 {
        SpecDoc::text("[]"@)
    } else {
        SpecDoc::concat(
            seq![
                SpecDoc::text("["@),
                SpecDoc::group(
                    SpecDoc::nest(
                        2,
                        SpecDoc::concat(
                            seq![
                                SpecDoc::line_or_empty(),
                                SpecDoc::join(comma_line(), exprs_docs(arr.expressions@)),
                            ],
                        ),
                    ),
                ),
                SpecDoc::text("]"@),
            ],
        )
    }
}

/// An object: `{}` when it is empty, else a group that holds the braces and,
/// between them, the fields.
pub open spec fn object_doc(obj: Object) -> SpecDoc
    decreases obj, 0nat,
{
    if obj.expressions@.len() == 0 {
        SpecDoc::text("{}"@)
    } else {
        SpecDoc::group(
            SpecDoc::concat(
                seq![
                    SpecDoc::text("{"@),
                    SpecDoc::nest(
                        2,
                        SpecDoc::concat(
                            seq![
                                SpecDoc::line(),
                                SpecDoc::join(comma_line(), fields_docs(obj.expressions@)),
                            ],
                        ),
                    ),
                    SpecDoc::line(),
                    SpecDoc::text("}"@),
                ],
            ),
        )
    }
}

/// One field of an object.
pub open spec fn field_doc(e: Expr) -> SpecDoc
    decreases e, 1nat,
{
    match e {
        Expr::Binary(bin) => if bin.operator.kind == TokenKind::Colon {
            SpecDoc::concat(
                seq![expr_doc(*bin.lhs), SpecDoc::text(": "@), expr_doc(*bin.rhs)],
            )
        } else {
            expr_doc(e)
        },
        Expr::Attribute(name) => SpecDoc::text(name@),
        Expr::Ellipsis => SpecDoc::text("..."@),
        _ => expr_doc(e),
    }
}

/// A range: its ends with `..` between them where it includes its end, with
/// `...` where it does not.
pub open spec fn range_doc(range: Range) -> SpecDoc
    decreases range, 0nat,
{
    let op = if range.inclusive {
        ".."@
    } else {
        "..."@
    };
    SpecDoc::concat(seq![expr_doc(*range.start), SpecDoc::text(op), expr_doc(*range.end)])
}

/// The parameter list of a function definition: each name behind a `$`,
/// with `", "` between two parameters.
pub open spec fn params_text(params: Seq<String>) -> Seq<char>
    decreases params.len(),
{
    if params.len() == 0 {
        Seq::empty()
    } else if params.len() == 1 {
        "$"@ + params[0]@
    } else {
        params_text(params.drop_last()) + ", "@ + "$"@ + params.last()@
    }
}

/// The document of a function definition: its head as one text, its body,
/// and a closing `;`.
pub open spec fn function_definition_doc(func: FunctionDefinition) -> SpecDoc {
    SpecDoc::concat(
        seq![
            SpecDoc::text(
                "fn "@ + func.namespace@ + "::"@ + func.name@ + "("@ + params_text(
                    func.parameters@,
                ) + ") = "@,
            ),
            expr_doc(func.body),
            SpecDoc::text(";"@),
        ],
    )
}

/// The documents of a list of function definitions, in order.
pub open spec fn definitions_docs(funcs: Seq<FunctionDefinition>) -> Seq<SpecDoc> {
    funcs.map_values(|f: FunctionDefinition| function_definition_doc(f))
}

/// The document of a whole query: the function definitions, one to a line,
/// an empty line, and the expression. Without function definitions it is the
/// document of the expression.
pub open spec fn parse_result_doc(result: ParseResult) -> SpecDoc {
    if result.functions@.len() == 0 {
        expr_doc(result.expr)
    } else {
        SpecDoc::concat(
            seq![
                SpecDoc::join(SpecDoc::text("\n"@), definitions_docs(result.functions@)),
                SpecDoc::text("\n\n"@),
                expr_doc(result.expr),
            ],
        )
    }
}

/// An array without elements renders as `[]`, whatever the width, the
/// column it starts at and the mode around it.
pub proof fn lemma_empty_array_is_brackets(
    arr: Array,
    width: nat,
    indent: nat,
    mode: Mode,
    column: nat,
)
    requires
        arr.expressions@.len() == 0,
    ensures
        expr_doc(Expr::Array(arr)).layout(width, indent, mode, column).text == seq!['[', ']'],
        field_doc(Expr::Array(arr)).layout(width, indent, mode, column).text == seq!['[', ']'],
        expr_doc(Expr::Array(arr)).rendering(width) == seq!['[', ']'],
{
    reveal_strlit("[]");
    assert("[]"@ =~= seq!['[', ']']);
}

/// An object without fields renders as `{}`, whatever the width, the column
/// it starts at and the mode around it.
pub proof fn lemma_empty_object_is_braces(
    obj: Object,
    width: nat,
    indent: nat,
    mode: Mode,
    column: nat,
)
    requires
        obj.expressions@.len() == 0,
    ensures
        expr_doc(Expr::Object(obj)).layout(width, indent, mode, column).text == seq!['{', '}'],
        field_doc(Expr::Object(obj)).layout(width, indent, mode, column).text == seq!['{', '}'],
        expr_doc(Expr::Object(obj)).rendering(width) == seq!['{', '}'],
{
    reveal_strlit("{}");
    assert("{}"@ =~= seq!['{', '}']);
}

/// A field of an object is laid out as the same expression is anywhere else.
pub proof fn lemma_field_is_expression(e: Expr)
    ensures
        field_doc(e) == expr_doc(e),
{
}

fn concat2(a: Doc, b: Doc) -> (res: Doc)
    ensures
        res@ == SpecDoc::concat(seq![a@, b@]),
{
    let docs = vec![a, b];
    assert(doc_views(docs@) =~= seq![a@, b@]);
    Doc::concat(docs)
}

fn concat3(a: Doc, b: Doc, c: Doc) -> (res: Doc)
    ensures
        res@ == SpecDoc::concat(seq![a@, b@, c@]),
{
    let docs = vec![a, b, c];
    assert(doc_views(docs@) =~= seq![a@, b@, c@]);
    Doc::concat(docs)
}

fn concat4(a: Doc, b: Doc, c: Doc, d: Doc) -> (res: Doc)
    ensures
        res@ == SpecDoc::concat(seq![a@, b@, c@, d@]),
{
    let docs = vec![a, b, c, d];
    assert(doc_views(docs@) =~= seq![a@, b@, c@, d@]);
    Doc::concat(docs)
}

fn comma_then_line() -> (res: Doc)
    ensures
        res@ == comma_line(),
{
    concat2(Doc::text(","), Doc::line())
}

fn continue_with(left: Doc, lead: &str, right: Doc) -> (res: Doc)
    ensures
        res@ == continued(left@, lead@, right@),
{
    Doc::group(concat2(left, Doc::nest(2, concat3(Doc::line(), Doc::text(lead), right))))
}

/// Format a full parse result (function definitions and expression) as a
/// document.
pub fn format_parse_result(result: &ParseResult) -> (res: Doc)
    ensures
        res@ == parse_result_doc(*result),
{
    if result.functions.len() == 0 {
        return format_expr(&result.expr);
    }
    let mut func_docs: Vec<Doc> = Vec::new();
    let mut i: usize = 0;
    while i < result.functions.len()
        invariant
            i <= result.functions.len(),
            func_docs.len() == i,
            forall|j: int|
                0 <= j < i ==> (#[trigger] func_docs[j])@ == function_definition_doc(
                    result.functions[j],
                ),
        decreases result.functions.len() - i,
    {
        let doc = format_function_definition(&result.functions[i]);
        func_docs.push(doc);
        i += 1;
    }
    assert(doc_views(func_docs@) =~= definitions_docs(result.functions@));
    let funcs = Doc::join(Doc::text("\n"), func_docs);
    concat3(funcs, Doc::text("\n\n"), format_expr(&result.expr))
}

fn format_function_definition(func: &FunctionDefinition) -> (res: Doc)
    ensures
        res@ == function_definition_doc(*func),
{
    let mut params = String::new();
    let mut i: usize = 0;
    while i < func.parameters.len()
        invariant
            i <= func.parameters.len(),
            params@ == params_text(func.parameters@.take(i as int)),
        decreases func.parameters.len() - i,
    {
        proof {
            assert(func.parameters@.take(i + 1).drop_last() =~= func.parameters@.take(i as int));
            assert(Seq::<char>::empty() + "$"@ =~= "$"@);
        }
        if i > 0 {
            params.append(", ");
        }
        params.append("$");
        params.append(func.parameters[i].as_str());
        i += 1;
    }
    proof {
        assert(func.parameters@.take(func.parameters@.len() as int) =~= func.parameters@);
    }
    let mut head = "fn ".to_owned();
    head.append(func.namespace.as_str());
    head.append("::");
    head.append(func.name.as_str());
    head.append("(");
    head.append(params.as_str());
    head.append(") = ");
    concat3(Doc::text(head.as_str()), format_expr(&func.body), Doc::text(";"))
}

/// Format a GROQ expression as a document.
pub fn format_expr(expr: &Expr) -> (res: Doc)
    ensures
        res@ == expr_doc(*expr),
    decreases expr, 0nat,
{
    match expr {
        Expr::Everything => Doc::text("*"),
        Expr::This => Doc::text("@"),
        Expr::Parent => Doc::text("^"),
        Expr::Ellipsis => Doc::text("..."),
        Expr::Literal(lit) => format_literal(lit),
        Expr::Attribute(name) => Doc::text(name.as_str()),
        Expr::Param(name) => {
            let mut text = "$".to_owned();
            text.append(name.as_str());
            Doc::text(text.as_str())
        },
        Expr::Filter { lhs, constraint } => {
            let lhs = format_expr(lhs);
            let constraint = format_expr(constraint);
            concat3(lhs, Doc::group(concat2(Doc::text("["), constraint)), Doc::text("]"))
        },
        Expr::Slice { lhs, range } => {
            let lhs = format_expr(lhs);
            let range = format_expr(range);
            concat4(lhs, Doc::text("["), range, Doc::text("]"))
        },
        Expr::Element { lhs, index } => {
            let lhs = format_expr(lhs);
            let idx = format_expr(index);
            concat4(lhs, Doc::text("["), idx, Doc::text("]"))
        },
        Expr::ArrayTraversal(inner) => concat2(format_expr(inner), Doc::text("[]")),
        Expr::Dot(dot) => format_dot(dot),
        Expr::Projection { lhs, object } => {
            let lhs = format_expr(lhs);
            let obj = format_object(object);
            concat3(lhs, Doc::text(" "), obj)
        },
        Expr::Pipe { lhs, rhs } => {
            let lhs = format_expr(lhs);
            let rhs = format_expr(rhs);
            continue_with(lhs, "| ", rhs)
        },
        Expr::FunctionPipe { lhs, func } => {
            let lhs = format_expr(lhs);
            let func = format_function_call(func);
            continue_with(lhs, "| ", func)
        },
        Expr::Binary(bin) => format_binary(bin),
        Expr::Prefix(prefix) => format_prefix(prefix),
        Expr::Postfix(postfix) => format_postfix(postfix),
        Expr::FunctionCall(func) => format_function_call(func),
        Expr::Array(arr) => format_array(arr),
        Expr::Object(obj) => format_object(obj),
        Expr::Group(inner) => concat3(Doc::text("("), format_expr(inner), Doc::text(")")),
        Expr::Range(range) => format_range(range),
        Expr::Constraint(inner) => format_expr(inner),
        Expr::Subscript(inner) => format_expr(inner),
        Expr::Tuple(members) => {
            let members = format_exprs(members);
            let content = Doc::join(comma_then_line(), members);
            concat3(Doc::text("("), Doc::group(content), Doc::text(")"))
        },
    }
}

/// Format each expression of a list.
fn format_exprs(exprs: &Vec<Expr>) -> (docs: Vec<Doc>)
    ensures
        doc_views(docs@) == exprs_docs(exprs@),
    decreases exprs, 0nat,
{
    let mut docs: Vec<Doc> = Vec::new();
    let mut i: usize = 0;
    while i < exprs.len()
        invariant
            i <= exprs.len(),
            docs.len() == i,
            forall|j: int| 0 <= j < i ==> (#[trigger] docs[j])@ == expr_doc(exprs[j]),
        decreases exprs.len() - i,
    {
        let doc = format_expr(&exprs[i]);
        docs.push(doc);
        i += 1;
    }
    assert(doc_views(docs@) =~= exprs_docs(exprs@));
    docs
}

/// Format each field of an object.
fn format_fields(exprs: &Vec<Expr>) -> (docs: Vec<Doc>)
    ensures
        doc_views(docs@) == fields_docs(exprs@),
    decreases exprs, 0nat,
{
    let mut docs: Vec<Doc> = Vec::new();
    let mut i: usize = 0;
    while i < exprs.len()
        invariant
            i <= exprs.len(),
            docs.len() == i,
            forall|j: int| 0 <= j < i ==> (#[trigger] docs[j])@ == field_doc(exprs[j]),
        decreases exprs.len() - i,
    {
        let doc = format_object_field(&exprs[i]);
        docs.push(doc);
        i += 1;
    }
    assert(doc_views(docs@) =~= fields_docs(exprs@));
    docs
}

fn format_literal(lit: &Literal) -> (res: Doc)
    ensures
        res@ == literal_doc(*lit),
{
    match lit {
        Literal::String(s) => {
            let mut text = "\"".to_owned();
            text.append(escape_string(s.as_str()).as_str());
            text.append("\"");
            Doc::text(text.as_str())
        },
        Literal::Integer(i) => Doc::text(format_integer(*i).as_str()),
        Literal::Float(natural) => Doc::text(format_float(natural.as_str()).as_str()),
        Literal::Boolean(b) => Doc::text(
            if *b {
                "true"
            } else {
                "false"
            },
        ),
        Literal::Null => Doc::text("null"),
    }
}

fn format_dot(dot: &DotOperator) -> (res: Doc)
    ensures
        res@ == dot_doc(*dot),
    decreases dot, 0nat,
{
    let lhs = format_expr(&dot.lhs);
    let rhs = format_expr(&dot.rhs);
    // After a dereference, the arrow already joins the two sides.
    match &*dot.lhs {
        Expr::Postfix(post) => {
            if post.operator.kind == TokenKind::Arrow {
                return concat2(lhs, rhs);
            }
        },
        _ => {},
    }
    concat3(lhs, Doc::text("."), rhs)
}

fn format_binary(bin: &BinaryOperator) -> (res: Doc)
    ensures
        res@ == binary_doc(*bin),
    decreases bin, 0nat,
{
    let op = bin.operator.literal.as_str();
    let left = format_expr(&bin.lhs);
    let right = format_expr(&bin.rhs);
    match bin.operator.kind {
        // Logical operators may break before the operator.
        TokenKind::And | TokenKind::Or => {
            let mut lead = op.to_owned();
            lead.append(" ");
            continue_with(left, lead.as_str(), right)
        },
        // A key and its value.
        TokenKind::Colon => concat3(left, Doc::text(": "), right),
        _ => {
            let mut text = " ".to_owned();
            text.append(op);
            text.append(" ");
            concat3(left, Doc::text(text.as_str()), right)
        },
    }
}

fn format_prefix(prefix: &PrefixOperator) -> (res: Doc)
    ensures
        res@ == prefix_doc(*prefix),
    decreases prefix, 0nat,
{
    let operand = format_expr(&prefix.rhs);
    concat2(Doc::text(prefix.operator.literal.as_str()), operand)
}

fn format_postfix(postfix: &PostfixOperator) -> (res: Doc)
    ensures
        res@ == postfix_doc(*postfix),
    decreases postfix, 0nat,
{
    let operand = format_expr(&postfix.lhs);
    let op = postfix.operator.literal.as_str();
    let op_text = match postfix.operator.kind {
        // A sort order is set off by a space.
        TokenKind::AscOperator | TokenKind::DescOperator => {
            let mut text = " ".to_owned();
            text.append(op);
            text
        },
        _ => op.to_owned(),
    };
    concat2(operand, Doc::text(op_text.as_str()))
}

fn format_function_call(func: &FunctionCall) -> (res: Doc)
    ensures
        res@ == call_doc(*func),
    decreases func, 0nat,
{
    let mut name = if func.namespace.as_str().is_empty() {
        func.name.clone()
    } else {
        let mut qualified = func.namespace.clone();
        qualified.append("::");
        qualified.append(func.name.as_str());
        qualified
    };
    if func.arguments.len() == 0 {
        name.append("()");
        return Doc::text(name.as_str());
    }
    let args = format_exprs(&func.arguments);
    let arg_list = Doc::join(comma_then_line(), args);
    name.append("(");
    Doc::group(
        concat4(
            Doc::text(name.as_str()),
            Doc::nest(2, concat2(Doc::line_or_empty(), arg_list)),
            Doc::line_or_empty(),
            Doc::text(")"),
        ),
    )
}

fn format_array(arr: &Array) -> (res: Doc)
    ensures
        res@ == array_doc(*arr),
    decreases arr, 0nat,
{
    if arr.expressions.len() == 0 {
        return Doc::text("[]");
    }
    let elems = format_exprs(&arr.expressions);
    let content = Doc::join(comma_then_line(), elems);
    concat3(
        Doc::text("["),
        Doc::group(Doc::nest(2, concat2(Doc::line_or_empty(), content))),
        Doc::text("]"),
    )
}

fn format_object(obj: &Object) -> (res: Doc)
    ensures
        res@ == object_doc(*obj),
    decreases obj, 0nat,
{
    if obj.expressions.len() == 0 {
        return Doc::text("{}");
    }
    let fields = format_fields(&obj.expressions);
    let content = Doc::join(comma_then_line(), fields);
    Doc::group(
        concat4(
            Doc::text("{"),
            Doc::nest(2, concat2(Doc::line(), content)),
            Doc::line(),
            Doc::text("}"),
        ),
    )
}

fn format_object_field(expr: &Expr) -> (res: Doc)
    ensures
        res@ == field_doc(*expr),
    decreases expr, 1nat,
{
    match expr {
        Expr::Binary(bin) => {
            if bin.operator.kind == TokenKind::Colon {
                let key = format_expr(&bin.lhs);
                let value = format_expr(&bin.rhs);
                concat3(key, Doc::text(": "), value)
            } else {
                format_expr(expr)
            }
        },
        Expr::Attribute(name) => Doc::text(name.as_str()),
        Expr::Ellipsis => Doc::text("..."),
        _ => format_expr(expr),
    }
}

fn format_range(range: &Range) -> (res: Doc)
    ensures
        res@ == range_doc(*range),
    decreases range, 0nat,
{
    let start = format_expr(&range.start);
    let end = format_expr(&range.end);
    let op = if range.inclusive {
        ".."
    } else {
        "..."
    };
    concat3(start, Doc::text(op), end)
}

} // verus!
