//! Type-erasure soundness: JavaScript output never depends on type
//! information.  Two trees that agree on everything except their type
//! subtrees, type parameters, type-alias contents, and the types of
//! parameters and variables render to byte-identical JavaScript, so type
//! erasure is purely subtractive.
use vstd::prelude::*;

use crate::data::CodeType;
use crate::data::Code;
use crate::data::Expr;
use crate::data::ExportDefinition;
use crate::data::Member;
use crate::data::Parameter;
use crate::data::ParameterWithDocument;
use crate::data::Pattern;
use crate::data::Statement;
use crate::data::ArrayItem;
use crate::to_string::{
    args_text, array_items_text, block_text, body_text, code_modules, code_text,
    definition_list_text, definition_text, expr_core_text, expr_prec, expr_text, jsdoc_present,
    jsdoc_text, members_text, mods_args, mods_array_items, mods_def, mods_defs, mods_expr,
    mods_members, mods_patterns, mods_stmt, mods_stmts, param_lines_text, params_js_text,
    patterns_text, property_text, pwd_params_js_text, statement_list_text, statement_text,
};

verus! {

/// Whether two expressions agree on everything the JavaScript printer can
/// see: the same shape and the same value-level content, with all type
/// positions free.
pub open spec fn erased_eq_expr(a: Expr, b: Expr) -> bool
    decreases a, 1int,
{
    match (a, b) {
        (Expr::NumberLiteral(x), Expr::NumberLiteral(y)) => x == y,
        (Expr::StringLiteral(x), Expr::StringLiteral(y)) => x@ == y@,
        (Expr::BooleanLiteral(x), Expr::BooleanLiteral(y)) => x == y,
        (Expr::NullLiteral, Expr::NullLiteral) => true,
        (Expr::UndefinedLiteral, Expr::UndefinedLiteral) => true,
        (Expr::UnaryOperator(u), Expr::UnaryOperator(v)) => u.operator == v.operator
            && erased_eq_expr(u.expr, v.expr),
        (Expr::BinaryOperator(x), Expr::BinaryOperator(y)) => x.operator == y.operator
            && erased_eq_expr(x.left, y.left) && erased_eq_expr(x.right, y.right),
        (Expr::ConditionalOperator(x), Expr::ConditionalOperator(y)) => erased_eq_expr(
            x.condition,
            y.condition,
        ) && erased_eq_expr(x.then_expr, y.then_expr) && erased_eq_expr(x.else_expr, y.else_expr),
        (Expr::ArrayLiteral(x), Expr::ArrayLiteral(y)) => erased_eq_items(x@, y@, 0),
        (Expr::ObjectLiteral(x), Expr::ObjectLiteral(y)) => erased_eq_members(x@, y@, 0),
        (Expr::Lambda(x), Expr::Lambda(y)) => erased_eq_params(x.parameter_list@, y.parameter_list@, 0)
            && erased_eq_stmts(x.statement_list@, y.statement_list@, 0),
        (Expr::Variable(x), Expr::Variable(y)) => x@ == y@,
        (Expr::GlobalObjects(x), Expr::GlobalObjects(y)) => x@ == y@,
        (Expr::ImportedVariable(x), Expr::ImportedVariable(y)) => x.module_name@ == y.module_name@
            && x.name@ == y.name@,
        (Expr::Get(x), Expr::Get(y)) => erased_eq_expr(x.expr, y.expr) && erased_eq_expr(
            x.property_expr,
            y.property_expr,
        ),
        (Expr::Call(x), Expr::Call(y)) => erased_eq_expr(x.expr, y.expr) && erased_eq_exprs(
            x.parameter_list@,
            y.parameter_list@,
            0,
        ),
        (Expr::New(x), Expr::New(y)) => erased_eq_expr(x.expr, y.expr) && erased_eq_exprs(
            x.parameter_list@,
            y.parameter_list@,
            0,
        ),
        (Expr::TypeAssertion(x), Expr::TypeAssertion(y)) => erased_eq_expr(x.expr, y.expr),
        _ => false,
    }
}

pub open spec fn erased_eq_exprs(a: Seq<Expr>, b: Seq<Expr>, i: int) -> bool
    decreases a, a.len() - i,
{
    if a.len() != b.len() {
        false
    } else if i < 0 || i >= a.len() {
        true
    } else {
        erased_eq_expr(a[i], b[i]) && erased_eq_exprs(a, b, i + 1)
    }
}

pub open spec fn erased_eq_items(a: Seq<ArrayItem>, b: Seq<ArrayItem>, i: int) -> bool
    decreases a, a.len() - i,
{
    if a.len() != b.len() {
        false
    } else if i < 0 || i >= a.len() {
        true
    } else {
        a[i].spread == b[i].spread && erased_eq_expr(a[i].expr, b[i].expr) && erased_eq_items(
            a,
            b,
            i + 1,
        )
    }
}

pub open spec fn erased_eq_members(a: Seq<Member>, b: Seq<Member>, i: int) -> bool
    decreases a, a.len() - i,
{
    if a.len() != b.len() {
        false
    } else if i < 0 || i >= a.len() {
        true
    } else {
        (match (a[i], b[i]) {
            (Member::Spread(x), Member::Spread(y)) => erased_eq_expr(x, y),
            (Member::KeyValue(x), Member::KeyValue(y)) => x.key@ == y.key@ && erased_eq_expr(
                x.value,
                y.value,
            ),
            _ => false,
        }) && erased_eq_members(a, b, i + 1)
    }
}

/// Lambda parameters agree when their names agree; their types are free.
pub open spec fn erased_eq_params(a: Seq<Parameter>, b: Seq<Parameter>, i: int) -> bool
    decreases a.len() - i,
{
    if a.len() != b.len() {
        false
    } else if i < 0 || i >= a.len() {
        true
    } else {
        a[i].name@ == b[i].name@ && erased_eq_params(a, b, i + 1)
    }
}

/// Documented parameters agree when their names and documentation agree;
/// their types are free.
pub open spec fn erased_eq_pwd_params(
    a: Seq<ParameterWithDocument>,
    b: Seq<ParameterWithDocument>,
    i: int,
) -> bool
    decreases a.len() - i,
{
    if a.len() != b.len() {
        false
    } else if i < 0 || i >= a.len() {
        true
    } else {
        a[i].name@ == b[i].name@ && a[i].document@ == b[i].document@ && erased_eq_pwd_params(
            a,
            b,
            i + 1,
        )
    }
}

pub open spec fn erased_eq_stmt(a: Statement, b: Statement) -> bool
    decreases a, 2int,
{
    match (a, b) {
        (Statement::EvaluateExpr(x), Statement::EvaluateExpr(y)) => erased_eq_expr(x, y),
        (Statement::SetStatement(x), Statement::SetStatement(y)) => x.operator_maybe
            == y.operator_maybe && erased_eq_expr(x.target, y.target) && erased_eq_expr(
            x.expr,
            y.expr,
        ),
        (Statement::If(x), Statement::If(y)) => erased_eq_expr(x.condition, y.condition)
            && erased_eq_stmts(x.then_statement_list@, y.then_statement_list@, 0),
        (Statement::ThrowError(x), Statement::ThrowError(y)) => erased_eq_expr(x, y),
        (Statement::Return(x), Statement::Return(y)) => erased_eq_expr(x, y),
        (Statement::ReturnVoid, Statement::ReturnVoid) => true,
        (Statement::Continue, Statement::Continue) => true,
        (Statement::VariableDefinition(x), Statement::VariableDefinition(y)) => x.name@ == y.name@
            && x.is_const == y.is_const && erased_eq_expr(x.expr, y.expr),
        (Statement::FunctionDefinition(x), Statement::FunctionDefinition(y)) => x.name@ == y.name@
            && erased_eq_pwd_params(x.parameter_list@, y.parameter_list@, 0) && erased_eq_stmts(
            x.statement_list@,
            y.statement_list@,
            0,
        ),
        (Statement::For(x), Statement::For(y)) => x.counter_variable_name@
            == y.counter_variable_name@ && erased_eq_expr(x.until_expr, y.until_expr)
            && erased_eq_stmts(x.statement_list@, y.statement_list@, 0),
        (Statement::ForOf(x), Statement::ForOf(y)) => x.element_variable_name@
            == y.element_variable_name@ && erased_eq_expr(x.iterable_expr, y.iterable_expr)
            && erased_eq_stmts(x.statement_list@, y.statement_list@, 0),
        (Statement::WhileTrue(x), Statement::WhileTrue(y)) => erased_eq_stmts(x@, y@, 0),
        (Statement::Break, Statement::Break) => true,
        (Statement::Switch(x), Statement::Switch(y)) => erased_eq_expr(x.expr, y.expr)
            && erased_eq_patterns(x.pattern_list@, y.pattern_list@, 0),
        _ => false,
    }
}

pub open spec fn erased_eq_stmts(a: Seq<Statement>, b: Seq<Statement>, i: int) -> bool
    decreases a, a.len() - i,
{
    if a.len() != b.len() {
        false
    } else if i < 0 || i >= a.len() {
        true
    } else {
        erased_eq_stmt(a[i], b[i]) && erased_eq_stmts(a, b, i + 1)
    }
}

pub open spec fn erased_eq_patterns(a: Seq<Pattern>, b: Seq<Pattern>, i: int) -> bool
    decreases a, a.len() - i,
{
    if a.len() != b.len() {
        false
    } else if i < 0 || i >= a.len() {
        true
    } else {
        a[i].case_string@ == b[i].case_string@ && erased_eq_stmts(
            a[i].statement_list@,
            b[i].statement_list@,
            0,
        ) && erased_eq_patterns(a, b, i + 1)
    }
}

/// Export definitions agree when their value-level content agrees.  Two
/// type aliases always agree: JavaScript emits nothing for either.
pub open spec fn erased_eq_def(a: ExportDefinition, b: ExportDefinition) -> bool
    decreases a, 3int,
{
    match (a, b) {
        (ExportDefinition::TypeAlias(_), ExportDefinition::TypeAlias(_)) => true,
        (ExportDefinition::Function(x), ExportDefinition::Function(y)) => x.name@ == y.name@
            && x.document@ == y.document@ && erased_eq_pwd_params(
            x.parameter_list@,
            y.parameter_list@,
            0,
        ) && erased_eq_stmts(x.statement_list@, y.statement_list@, 0),
        (ExportDefinition::Variable(x), ExportDefinition::Variable(y)) => x.name@ == y.name@
            && x.document@ == y.document@ && erased_eq_expr(x.expr, y.expr),
        _ => false,
    }
}

pub open spec fn erased_eq_defs(a: Seq<ExportDefinition>, b: Seq<ExportDefinition>, i: int) -> bool
    decreases a, a.len() - i,
{
    if a.len() != b.len() {
        false
    } else if i < 0 || i >= a.len() {
        true
    } else {
        erased_eq_def(a[i], b[i]) && erased_eq_defs(a, b, i + 1)
    }
}

/// Two trees agree on everything except type information.
pub open spec fn erased_eq_code(a: Code, b: Code) -> bool {
    erased_eq_defs(a.export_definition_list@, b.export_definition_list@, 0) && erased_eq_stmts(
        a.statement_list@,
        b.statement_list@,
        0,
    )
}

proof fn lemma_erased_prec(a: Expr, b: Expr)
    requires
        erased_eq_expr(a, b),
    ensures
        expr_prec(a, CodeType::JavaScript) == expr_prec(b, CodeType::JavaScript),
    decreases a,
{
    match (a, b) {
        (Expr::TypeAssertion(x), Expr::TypeAssertion(y)) => {
            lemma_erased_prec(x.expr, y.expr);
        },
        _ => {},
    }
}

proof fn lemma_erased_expr(a: Expr, b: Expr, ind: Seq<char>, min: u32)
    requires
        erased_eq_expr(a, b),
    ensures
        expr_text(a, CodeType::JavaScript, ind, min) == expr_text(
            b,
            CodeType::JavaScript,
            ind,
            min,
        ),
    decreases a, 3int,
{
    lemma_erased_prec(a, b);
    lemma_erased_core(a, b, ind);
}

#[verifier::rlimit(100)]
proof fn lemma_erased_core(a: Expr, b: Expr, ind: Seq<char>)
    requires
        erased_eq_expr(a, b),
    ensures
        expr_core_text(a, CodeType::JavaScript, ind) == expr_core_text(
            b,
            CodeType::JavaScript,
            ind,
        ),
    decreases a, 2int,
{
    let m = CodeType::JavaScript;
    match (a, b) {
        (Expr::UnaryOperator(u), Expr::UnaryOperator(v)) => {
            lemma_erased_expr(u.expr, v.expr, ind, 16);
            assert(expr_core_text(a, m, ind) == expr_core_text(b, m, ind));
        },
        (Expr::BinaryOperator(x), Expr::BinaryOperator(y)) => {
            lemma_erased_expr(x.left, y.left, ind, crate::to_string::bin_left_min(x.operator));
            lemma_erased_expr(x.right, y.right, ind, crate::to_string::bin_right_min(x.operator));
            assert(expr_core_text(a, m, ind) == expr_core_text(b, m, ind));
        },
        (Expr::ConditionalOperator(x), Expr::ConditionalOperator(y)) => {
            lemma_erased_expr(x.condition, y.condition, ind, 4);
            lemma_erased_expr(x.then_expr, y.then_expr, ind, 3);
            lemma_erased_expr(x.else_expr, y.else_expr, ind, 3);
            assert(expr_core_text(a, m, ind) == expr_core_text(b, m, ind));
        },
        (Expr::ArrayLiteral(x), Expr::ArrayLiteral(y)) => {
            lemma_erased_items(x@, y@, 0, ind);
            assert(expr_core_text(a, m, ind) == expr_core_text(b, m, ind));
        },
        (Expr::ObjectLiteral(x), Expr::ObjectLiteral(y)) => {
            lemma_erased_members(x@, y@, 0, ind);
            assert(expr_core_text(a, m, ind) == expr_core_text(b, m, ind));
        },
        (Expr::Lambda(x), Expr::Lambda(y)) => {
            lemma_erased_params_js(x.parameter_list@, y.parameter_list@, 0);
            lemma_erased_body(x.statement_list@, y.statement_list@, ind);
            assert(expr_core_text(a, m, ind) == expr_core_text(b, m, ind));
        },
        (Expr::Get(x), Expr::Get(y)) => {
            lemma_erased_expr(x.expr, y.expr, ind, 16);
            lemma_erased_property(x.property_expr, y.property_expr, ind);
            assert(expr_core_text(a, m, ind) == expr_core_text(b, m, ind));
        },
        (Expr::Call(x), Expr::Call(y)) => {
            lemma_erased_expr(x.expr, y.expr, ind, 16);
            lemma_erased_args(x.parameter_list@, y.parameter_list@, 0, ind);
            assert(expr_core_text(a, m, ind) == expr_core_text(b, m, ind));
        },
        (Expr::New(x), Expr::New(y)) => {
            lemma_erased_expr(x.expr, y.expr, ind, 16);
            lemma_erased_args(x.parameter_list@, y.parameter_list@, 0, ind);
            assert(expr_core_text(a, m, ind) == expr_core_text(b, m, ind));
        },
        (Expr::TypeAssertion(x), Expr::TypeAssertion(y)) => {
            lemma_erased_core(x.expr, y.expr, ind);
            assert(expr_core_text(a, m, ind) == expr_core_text(b, m, ind));
        },
        (Expr::NumberLiteral(_), Expr::NumberLiteral(_)) => {
            assert(expr_core_text(a, m, ind) == expr_core_text(b, m, ind));
        },
        (Expr::StringLiteral(_), Expr::StringLiteral(_)) => {
            assert(expr_core_text(a, m, ind) == expr_core_text(b, m, ind));
        },
        (Expr::BooleanLiteral(_), Expr::BooleanLiteral(_)) => {
            assert(expr_core_text(a, m, ind) == expr_core_text(b, m, ind));
        },
        (Expr::NullLiteral, Expr::NullLiteral) => {
            assert(expr_core_text(a, m, ind) == expr_core_text(b, m, ind));
        },
        (Expr::UndefinedLiteral, Expr::UndefinedLiteral) => {
            assert(expr_core_text(a, m, ind) == expr_core_text(b, m, ind));
        },
        (Expr::Variable(_), Expr::Variable(_)) => {
            assert(expr_core_text(a, m, ind) == expr_core_text(b, m, ind));
        },
        (Expr::GlobalObjects(_), Expr::GlobalObjects(_)) => {
            assert(expr_core_text(a, m, ind) == expr_core_text(b, m, ind));
        },
        (Expr::ImportedVariable(_), Expr::ImportedVariable(_)) => {
            assert(expr_core_text(a, m, ind) == expr_core_text(b, m, ind));
        },
        _ => {
            assert(!erased_eq_expr(a, b));
        },
    }
}

proof fn lemma_erased_property(a: Expr, b: Expr, ind: Seq<char>)
    requires
        erased_eq_expr(a, b),
    ensures
        property_text(a, CodeType::JavaScript, ind) == property_text(
            b,
            CodeType::JavaScript,
            ind,
        ),
    decreases a, 4int,
{
    match (a, b) {
        (Expr::StringLiteral(_), Expr::StringLiteral(_)) => {},
        _ => {
            lemma_erased_expr(a, b, ind, 0);
        },
    }
}

proof fn lemma_erased_args(a: Seq<Expr>, b: Seq<Expr>, i: int, ind: Seq<char>)
    requires
        erased_eq_exprs(a, b, i),
    ensures
        args_text(a, i, CodeType::JavaScript, ind) == args_text(b, i, CodeType::JavaScript, ind),
    decreases a, a.len() - i,
{
    if 0 <= i < a.len() {
        lemma_erased_expr(a[i], b[i], ind, 0);
        lemma_erased_args(a, b, i + 1, ind);
    }
}

proof fn lemma_erased_items(a: Seq<ArrayItem>, b: Seq<ArrayItem>, i: int, ind: Seq<char>)
    requires
        erased_eq_items(a, b, i),
    ensures
        array_items_text(a, i, CodeType::JavaScript, ind) == array_items_text(
            b,
            i,
            CodeType::JavaScript,
            ind,
        ),
    decreases a, a.len() - i,
{
    if 0 <= i < a.len() {
        lemma_erased_expr(a[i].expr, b[i].expr, ind, 0);
        lemma_erased_items(a, b, i + 1, ind);
    }
}

proof fn lemma_erased_members(a: Seq<Member>, b: Seq<Member>, i: int, ind: Seq<char>)
    requires
        erased_eq_members(a, b, i),
    ensures
        members_text(a, i, CodeType::JavaScript, ind) == members_text(
            b,
            i,
            CodeType::JavaScript,
            ind,
        ),
    decreases a, a.len() - i,
{
    if 0 <= i < a.len() {
        match (a[i], b[i]) {
            (Member::Spread(x), Member::Spread(y)) => {
                lemma_erased_expr(x, y, ind, 0);
            },
            (Member::KeyValue(x), Member::KeyValue(y)) => {
                lemma_erased_expr(x.value, y.value, ind, 0);
            },
            _ => {},
        }
        lemma_erased_members(a, b, i + 1, ind);
    }
}

proof fn lemma_erased_params_js(a: Seq<Parameter>, b: Seq<Parameter>, i: int)
    requires
        erased_eq_params(a, b, i),
    ensures
        params_js_text(a, i) == params_js_text(b, i),
    decreases a.len() - i,
{
    if 0 <= i < a.len() {
        lemma_erased_params_js(a, b, i + 1);
    }
}

proof fn lemma_erased_pwd_params_js(
    a: Seq<ParameterWithDocument>,
    b: Seq<ParameterWithDocument>,
    i: int,
)
    requires
        erased_eq_pwd_params(a, b, i),
    ensures
        pwd_params_js_text(a, i) == pwd_params_js_text(b, i),
        param_lines_text(a, i) == param_lines_text(b, i),
    decreases a.len() - i,
{
    if 0 <= i < a.len() {
        lemma_erased_pwd_params_js(a, b, i + 1);
    }
}

proof fn lemma_erased_pwd_pointwise(
    a: Seq<ParameterWithDocument>,
    b: Seq<ParameterWithDocument>,
    i: int,
)
    requires
        erased_eq_pwd_params(a, b, i),
        0 <= i <= a.len(),
    ensures
        a.len() == b.len(),
        forall|j: int|
            i <= j < a.len() ==> ((#[trigger] a[j]).name@ == b[j].name@ && a[j].document@
                == b[j].document@),
        forall|j: int|
            i <= j < b.len() ==> ((#[trigger] b[j]).name@ == a[j].name@ && b[j].document@
                == a[j].document@),
    decreases a.len() - i,
{
    if i < a.len() {
        lemma_erased_pwd_pointwise(a, b, i + 1);
    }
}

proof fn lemma_erased_jsdoc(
    doc: Seq<char>,
    a: Seq<ParameterWithDocument>,
    b: Seq<ParameterWithDocument>,
)
    requires
        erased_eq_pwd_params(a, b, 0),
    ensures
        jsdoc_text(doc, a) == jsdoc_text(doc, b),
{
    lemma_erased_pwd_pointwise(a, b, 0);
    assert(jsdoc_present(doc, a) == jsdoc_present(doc, b)) by {
        if exists|j: int| 0 <= j < a.len() && a[j].document@.len() > 0 {
            let j = choose|j: int| 0 <= j < a.len() && a[j].document@.len() > 0;
            assert(b[j].document@.len() > 0);
        }
        if exists|j: int| 0 <= j < b.len() && b[j].document@.len() > 0 {
            let j = choose|j: int| 0 <= j < b.len() && b[j].document@.len() > 0;
            assert(a[j].document@.len() > 0);
        }
    }
    lemma_erased_pwd_params_js(a, b, 0);
}

proof fn lemma_erased_body(a: Seq<Statement>, b: Seq<Statement>, ind: Seq<char>)
    requires
        erased_eq_stmts(a, b, 0),
    ensures
        body_text(a, CodeType::JavaScript, ind) == body_text(b, CodeType::JavaScript, ind),
    decreases a, a.len() + 4int,
{
    if a.len() == 1 && a[0] is Return {
        assert(erased_eq_stmt(a[0], b[0]));
        lemma_erased_expr(a[0]->Return_0, b[0]->Return_0, ind, 0);
    } else {
        if a.len() == 1 {
            assert(erased_eq_stmt(a[0], b[0]));
        }
        lemma_erased_block(a, b, ind);
    }
}

proof fn lemma_erased_block(a: Seq<Statement>, b: Seq<Statement>, ind: Seq<char>)
    requires
        erased_eq_stmts(a, b, 0),
    ensures
        block_text(a, CodeType::JavaScript, ind) == block_text(b, CodeType::JavaScript, ind),
    decreases a, a.len() + 3int,
{
    lemma_erased_stmts(a, b, 0, ind + "  "@);
}

proof fn lemma_erased_stmts(a: Seq<Statement>, b: Seq<Statement>, i: int, ind: Seq<char>)
    requires
        erased_eq_stmts(a, b, i),
    ensures
        statement_list_text(a, i, CodeType::JavaScript, ind) == statement_list_text(
            b,
            i,
            CodeType::JavaScript,
            ind,
        ),
    decreases a, a.len() - i,
{
    if 0 <= i < a.len() {
        lemma_erased_stmt(a[i], b[i], ind);
        lemma_erased_stmts(a, b, i + 1, ind);
    }
}

#[verifier::rlimit(100)]
proof fn lemma_erased_stmt(a: Statement, b: Statement, ind: Seq<char>)
    requires
        erased_eq_stmt(a, b),
    ensures
        statement_text(a, CodeType::JavaScript, ind) == statement_text(
            b,
            CodeType::JavaScript,
            ind,
        ),
    decreases a, 6int,
{
    match (a, b) {
        (Statement::EvaluateExpr(x), Statement::EvaluateExpr(y)) => {
            lemma_erased_expr(x, y, ind, 0);
        },
        (Statement::SetStatement(x), Statement::SetStatement(y)) => {
            lemma_erased_expr(x.target, y.target, ind, 0);
            lemma_erased_expr(x.expr, y.expr, ind, 0);
        },
        (Statement::If(x), Statement::If(y)) => {
            lemma_erased_expr(x.condition, y.condition, ind, 0);
            lemma_erased_block(x.then_statement_list@, y.then_statement_list@, ind);
        },
        (Statement::ThrowError(x), Statement::ThrowError(y)) => {
            lemma_erased_expr(x, y, ind, 0);
        },
        (Statement::Return(x), Statement::Return(y)) => {
            lemma_erased_expr(x, y, ind, 0);
        },
        (Statement::VariableDefinition(x), Statement::VariableDefinition(y)) => {
            lemma_erased_expr(x.expr, y.expr, ind, 0);
        },
        (Statement::FunctionDefinition(x), Statement::FunctionDefinition(y)) => {
            lemma_erased_pwd_params_js(x.parameter_list@, y.parameter_list@, 0);
            lemma_erased_body(x.statement_list@, y.statement_list@, ind);
        },
        (Statement::For(x), Statement::For(y)) => {
            lemma_erased_expr(x.until_expr, y.until_expr, ind, 11);
            lemma_erased_block(x.statement_list@, y.statement_list@, ind);
        },
        (Statement::ForOf(x), Statement::ForOf(y)) => {
            lemma_erased_expr(x.iterable_expr, y.iterable_expr, ind, 0);
            lemma_erased_block(x.statement_list@, y.statement_list@, ind);
        },
        (Statement::WhileTrue(x), Statement::WhileTrue(y)) => {
            lemma_erased_block(x@, y@, ind);
        },
        (Statement::Switch(x), Statement::Switch(y)) => {
            lemma_erased_expr(x.expr, y.expr, ind, 0);
            lemma_erased_patterns(x.pattern_list@, y.pattern_list@, 0, ind + "  "@);
        },
        _ => {},
    }
}

proof fn lemma_erased_patterns(a: Seq<Pattern>, b: Seq<Pattern>, i: int, ind: Seq<char>)
    requires
        erased_eq_patterns(a, b, i),
    ensures
        patterns_text(a, i, CodeType::JavaScript, ind) == patterns_text(
            b,
            i,
            CodeType::JavaScript,
            ind,
        ),
    decreases a, a.len() - i,
{
    if 0 <= i < a.len() {
        lemma_erased_block(a[i].statement_list@, b[i].statement_list@, ind);
        lemma_erased_patterns(a, b, i + 1, ind);
    }
}

proof fn lemma_erased_def(a: ExportDefinition, b: ExportDefinition)
    requires
        erased_eq_def(a, b),
    ensures
        definition_text(a, CodeType::JavaScript) == definition_text(b, CodeType::JavaScript),
    decreases a, 7int,
{
    match (a, b) {
        (ExportDefinition::Function(x), ExportDefinition::Function(y)) => {
            lemma_erased_jsdoc(x.document@, x.parameter_list@, y.parameter_list@);
            lemma_erased_pwd_params_js(x.parameter_list@, y.parameter_list@, 0);
            lemma_erased_body(x.statement_list@, y.statement_list@, Seq::<char>::empty());
        },
        (ExportDefinition::Variable(x), ExportDefinition::Variable(y)) => {
            lemma_erased_expr(x.expr, y.expr, Seq::<char>::empty(), 0);
        },
        _ => {},
    }
}

proof fn lemma_erased_defs(a: Seq<ExportDefinition>, b: Seq<ExportDefinition>, i: int)
    requires
        erased_eq_defs(a, b, i),
    ensures
        definition_list_text(a, i, CodeType::JavaScript) == definition_list_text(
            b,
            i,
            CodeType::JavaScript,
        ),
    decreases a, a.len() - i,
{
    if 0 <= i < a.len() {
        lemma_erased_def(a[i], b[i]);
        lemma_erased_defs(a, b, i + 1);
    }
}

proof fn lemma_erased_mods_expr(a: Expr, b: Expr, acc: Seq<Seq<char>>)
    requires
        erased_eq_expr(a, b),
    ensures
        mods_expr(a, CodeType::JavaScript, acc) == mods_expr(b, CodeType::JavaScript, acc),
    decreases a, 2int,
{
    let m = CodeType::JavaScript;
    match (a, b) {
        (Expr::UnaryOperator(u), Expr::UnaryOperator(v)) => {
            lemma_erased_mods_expr(u.expr, v.expr, acc);
        },
        (Expr::BinaryOperator(x), Expr::BinaryOperator(y)) => {
            lemma_erased_mods_expr(x.left, y.left, acc);
            lemma_erased_mods_expr(x.right, y.right, mods_expr(x.left, m, acc));
        },
        (Expr::ConditionalOperator(x), Expr::ConditionalOperator(y)) => {
            lemma_erased_mods_expr(x.condition, y.condition, acc);
            lemma_erased_mods_expr(x.then_expr, y.then_expr, mods_expr(x.condition, m, acc));
            lemma_erased_mods_expr(
                x.else_expr,
                y.else_expr,
                mods_expr(x.then_expr, m, mods_expr(x.condition, m, acc)),
            );
        },
        (Expr::ArrayLiteral(x), Expr::ArrayLiteral(y)) => {
            lemma_erased_mods_items(x@, y@, 0, acc);
        },
        (Expr::ObjectLiteral(x), Expr::ObjectLiteral(y)) => {
            lemma_erased_mods_members(x@, y@, 0, acc);
        },
        (Expr::Lambda(x), Expr::Lambda(y)) => {
            lemma_erased_mods_stmts(x.statement_list@, y.statement_list@, 0, acc);
        },
        (Expr::Get(x), Expr::Get(y)) => {
            lemma_erased_mods_expr(x.expr, y.expr, acc);
            lemma_erased_mods_expr(x.property_expr, y.property_expr, mods_expr(x.expr, m, acc));
        },
        (Expr::Call(x), Expr::Call(y)) => {
            lemma_erased_mods_expr(x.expr, y.expr, acc);
            lemma_erased_mods_args(x.parameter_list@, y.parameter_list@, 0, mods_expr(
                x.expr,
                m,
                acc,
            ));
        },
        (Expr::New(x), Expr::New(y)) => {
            lemma_erased_mods_expr(x.expr, y.expr, acc);
            lemma_erased_mods_args(x.parameter_list@, y.parameter_list@, 0, mods_expr(
                x.expr,
                m,
                acc,
            ));
        },
        (Expr::TypeAssertion(x), Expr::TypeAssertion(y)) => {
            lemma_erased_mods_expr(x.expr, y.expr, acc);
        },
        _ => {},
    }
}

proof fn lemma_erased_mods_args(a: Seq<Expr>, b: Seq<Expr>, i: int, acc: Seq<Seq<char>>)
    requires
        erased_eq_exprs(a, b, i),
    ensures
        mods_args(a, i, CodeType::JavaScript, acc) == mods_args(b, i, CodeType::JavaScript, acc),
    decreases a, a.len() - i,
{
    if 0 <= i < a.len() {
        lemma_erased_mods_expr(a[i], b[i], acc);
        lemma_erased_mods_args(a, b, i + 1, mods_expr(a[i], CodeType::JavaScript, acc));
    }
}

proof fn lemma_erased_mods_items(a: Seq<ArrayItem>, b: Seq<ArrayItem>, i: int, acc: Seq<Seq<char>>)
    requires
        erased_eq_items(a, b, i),
    ensures
        mods_array_items(a, i, CodeType::JavaScript, acc) == mods_array_items(
            b,
            i,
            CodeType::JavaScript,
            acc,
        ),
    decreases a, a.len() - i,
{
    if 0 <= i < a.len() {
        lemma_erased_mods_expr(a[i].expr, b[i].expr, acc);
        lemma_erased_mods_items(a, b, i + 1, mods_expr(a[i].expr, CodeType::JavaScript, acc));
    }
}

proof fn lemma_erased_mods_members(a: Seq<Member>, b: Seq<Member>, i: int, acc: Seq<Seq<char>>)
    requires
        erased_eq_members(a, b, i),
    ensures
        mods_members(a, i, CodeType::JavaScript, acc) == mods_members(
            b,
            i,
            CodeType::JavaScript,
            acc,
        ),
    decreases a, a.len() - i,
{
    if 0 <= i < a.len() {
        match (a[i], b[i]) {
            (Member::Spread(x), Member::Spread(y)) => {
                lemma_erased_mods_expr(x, y, acc);
                lemma_erased_mods_members(a, b, i + 1, mods_expr(x, CodeType::JavaScript, acc));
            },
            (Member::KeyValue(x), Member::KeyValue(y)) => {
                lemma_erased_mods_expr(x.value, y.value, acc);
                lemma_erased_mods_members(a, b, i + 1, mods_expr(
                    x.value,
                    CodeType::JavaScript,
                    acc,
                ));
            },
            _ => {},
        }
    }
}

proof fn lemma_erased_mods_stmt(a: Statement, b: Statement, acc: Seq<Seq<char>>)
    requires
        erased_eq_stmt(a, b),
    ensures
        mods_stmt(a, CodeType::JavaScript, acc) == mods_stmt(b, CodeType::JavaScript, acc),
    decreases a, 3int,
{
    let m = CodeType::JavaScript;
    match (a, b) {
        (Statement::EvaluateExpr(x), Statement::EvaluateExpr(y)) => {
            lemma_erased_mods_expr(x, y, acc);
        },
        (Statement::SetStatement(x), Statement::SetStatement(y)) => {
            lemma_erased_mods_expr(x.target, y.target, acc);
            lemma_erased_mods_expr(x.expr, y.expr, mods_expr(x.target, m, acc));
        },
        (Statement::If(x), Statement::If(y)) => {
            lemma_erased_mods_expr(x.condition, y.condition, acc);
            lemma_erased_mods_stmts(
                x.then_statement_list@,
                y.then_statement_list@,
                0,
                mods_expr(x.condition, m, acc),
            );
        },
        (Statement::ThrowError(x), Statement::ThrowError(y)) => {
            lemma_erased_mods_expr(x, y, acc);
        },
        (Statement::Return(x), Statement::Return(y)) => {
            lemma_erased_mods_expr(x, y, acc);
        },
        (Statement::VariableDefinition(x), Statement::VariableDefinition(y)) => {
            lemma_erased_mods_expr(x.expr, y.expr, acc);
        },
        (Statement::FunctionDefinition(x), Statement::FunctionDefinition(y)) => {
            lemma_erased_mods_stmts(x.statement_list@, y.statement_list@, 0, acc);
        },
        (Statement::For(x), Statement::For(y)) => {
            lemma_erased_mods_expr(x.until_expr, y.until_expr, acc);
            lemma_erased_mods_stmts(x.statement_list@, y.statement_list@, 0, mods_expr(
                x.until_expr,
                m,
                acc,
            ));
        },
        (Statement::ForOf(x), Statement::ForOf(y)) => {
            lemma_erased_mods_expr(x.iterable_expr, y.iterable_expr, acc);
            lemma_erased_mods_stmts(x.statement_list@, y.statement_list@, 0, mods_expr(
                x.iterable_expr,
                m,
                acc,
            ));
        },
        (Statement::WhileTrue(x), Statement::WhileTrue(y)) => {
            lemma_erased_mods_stmts(x@, y@, 0, acc);
        },
        (Statement::Switch(x), Statement::Switch(y)) => {
            lemma_erased_mods_expr(x.expr, y.expr, acc);
            lemma_erased_mods_patterns(x.pattern_list@, y.pattern_list@, 0, mods_expr(
                x.expr,
                m,
                acc,
            ));
        },
        _ => {},
    }
}

proof fn lemma_erased_mods_stmts(a: Seq<Statement>, b: Seq<Statement>, i: int, acc: Seq<Seq<char>>)
    requires
        erased_eq_stmts(a, b, i),
    ensures
        mods_stmts(a, i, CodeType::JavaScript, acc) == mods_stmts(
            b,
            i,
            CodeType::JavaScript,
            acc,
        ),
    decreases a, a.len() - i,
{
    if 0 <= i < a.len() {
        lemma_erased_mods_stmt(a[i], b[i], acc);
        lemma_erased_mods_stmts(a, b, i + 1, mods_stmt(a[i], CodeType::JavaScript, acc));
    }
}

proof fn lemma_erased_mods_patterns(a: Seq<Pattern>, b: Seq<Pattern>, i: int, acc: Seq<Seq<char>>)
    requires
        erased_eq_patterns(a, b, i),
    ensures
        mods_patterns(a, i, CodeType::JavaScript, acc) == mods_patterns(
            b,
            i,
            CodeType::JavaScript,
            acc,
        ),
    decreases a, a.len() - i,
{
    if 0 <= i < a.len() {
        lemma_erased_mods_stmts(a[i].statement_list@, b[i].statement_list@, 0, acc);
        lemma_erased_mods_patterns(
            a,
            b,
            i + 1,
            mods_stmts(a[i].statement_list@, 0, CodeType::JavaScript, acc),
        );
    }
}

proof fn lemma_erased_mods_def(a: ExportDefinition, b: ExportDefinition, acc: Seq<Seq<char>>)
    requires
        erased_eq_def(a, b),
    ensures
        mods_def(a, CodeType::JavaScript, acc) == mods_def(b, CodeType::JavaScript, acc),
    decreases a, 8int,
{
    match (a, b) {
        (ExportDefinition::Function(x), ExportDefinition::Function(y)) => {
            lemma_erased_mods_stmts(x.statement_list@, y.statement_list@, 0, acc);
        },
        (ExportDefinition::Variable(x), ExportDefinition::Variable(y)) => {
            lemma_erased_mods_expr(x.expr, y.expr, acc);
        },
        _ => {},
    }
}

proof fn lemma_erased_mods_defs(
    a: Seq<ExportDefinition>,
    b: Seq<ExportDefinition>,
    i: int,
    acc: Seq<Seq<char>>,
)
    requires
        erased_eq_defs(a, b, i),
    ensures
        mods_defs(a, i, CodeType::JavaScript, acc) == mods_defs(b, i, CodeType::JavaScript, acc),
    decreases a, a.len() - i,
{
    if 0 <= i < a.len() {
        lemma_erased_mods_def(a[i], b[i], acc);
        lemma_erased_mods_defs(a, b, i + 1, mods_def(a[i], CodeType::JavaScript, acc));
    }
}

/// Erasure soundness: the JavaScript output is a function of the
/// type-erased tree alone.  Two trees that agree on all value-level
/// content — whatever their type annotations, type parameters, type-alias
/// contents and asserted types — render to byte-identical JavaScript, so
/// removing type information never changes which value-level statements
/// and expressions are printed, nor their order.
pub proof fn lemma_erasure_sound(a: Code, b: Code)
    requires
        erased_eq_code(a, b),
    ensures
        code_text(a, CodeType::JavaScript) == code_text(b, CodeType::JavaScript),
{
    let m = CodeType::JavaScript;
    lemma_erased_mods_defs(
        a.export_definition_list@,
        b.export_definition_list@,
        0,
        Seq::<Seq<char>>::empty(),
    );
    lemma_erased_mods_stmts(
        a.statement_list@,
        b.statement_list@,
        0,
        mods_defs(a.export_definition_list@, 0, m, Seq::<Seq<char>>::empty()),
    );
    assert(code_modules(a, m) == code_modules(b, m));
    lemma_erased_defs(a.export_definition_list@, b.export_definition_list@, 0);
    if a.statement_list@.len() > 0 {
        lemma_erased_block(a.statement_list@, b.statement_list@, Seq::<char>::empty());
    }
}

} // verus!
