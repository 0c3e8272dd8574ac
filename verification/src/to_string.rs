//! The renderer: one read-only pass over a [`crate::data::Code`] value that
//! produces the output text, parameterized by the output language.  The
//! whole output is pinned down by spec functions; `to_string` returns
//! exactly [`code_text`] of its input.
use vstd::prelude::*;

use crate::data::identifer;
use crate::data::identifer::{from_string_text, spec_is_safe_property_name};
use crate::data::BinaryOperator;
use crate::data::Code;
use crate::data::CodeType;
use crate::data::Expr;
use crate::data::ExportDefinition;
use crate::data::Member;
use crate::data::Parameter;
use crate::data::ParameterWithDocument;
use crate::data::Pattern;
use crate::data::Statement;
use crate::data::Type;
use crate::data::UnaryOperator;
use crate::data::ArrayItem;
use crate::data::MemberType;
use crate::text::{dec_text, push_i32, push_quoted, quoted_text, udec_text, push_udec, push_char};

verus! {

/// The alias that stands for an imported module: a fixed `$$$` prefix, so
/// it cannot collide with a sanitized caller name of another module, then
/// the sanitized module name.
pub open spec fn alias_text(m: Seq<char>) -> Seq<char> {
    "$$$"@ + from_string_text(m)
}

/// The token of a unary operator.
pub open spec fn unary_op_text(op: UnaryOperator) -> Seq<char> {
    match op {
        UnaryOperator::Minus => "-"@,
        UnaryOperator::BitwiseNot => "~"@,
        UnaryOperator::LogicalNot => "!"@,
    }
}

/// The token of a binary operator.
pub open spec fn bin_op_text(op: BinaryOperator) -> Seq<char> {
    match op {
        BinaryOperator::Exponentiation => "**"@,
        BinaryOperator::Multiplication => "*"@,
        BinaryOperator::Division => "/"@,
        BinaryOperator::Remainder => "%"@,
        BinaryOperator::Addition => "+"@,
        BinaryOperator::Subtraction => "-"@,
        BinaryOperator::LeftShift => "<<"@,
        BinaryOperator::SignedRightShift => ">>"@,
        BinaryOperator::UnsignedRightShift => ">>>"@,
        BinaryOperator::LessThan => "<"@,
        BinaryOperator::LessThanOrEqual => "<="@,
        BinaryOperator::Equal => "==="@,
        BinaryOperator::NotEqual => "!=="@,
        BinaryOperator::BitwiseAnd => "&"@,
        BinaryOperator::BitwiseXOr => "^"@,
        BinaryOperator::BitwiseOr => "|"@,
        BinaryOperator::LogicalAnd => "&&"@,
        BinaryOperator::LogicalOr => "||"@,
    }
}

/// The precedence class of a binary operator, following standard JavaScript
/// operator ordering; larger binds tighter.
pub open spec fn bin_op_prec(op: BinaryOperator) -> u32 {
    match op {
        BinaryOperator::Exponentiation => 14,
        BinaryOperator::Multiplication => 13,
        BinaryOperator::Division => 13,
        BinaryOperator::Remainder => 13,
        BinaryOperator::Addition => 12,
        BinaryOperator::Subtraction => 12,
        BinaryOperator::LeftShift => 11,
        BinaryOperator::SignedRightShift => 11,
        BinaryOperator::UnsignedRightShift => 11,
        BinaryOperator::LessThan => 10,
        BinaryOperator::LessThanOrEqual => 10,
        BinaryOperator::Equal => 9,
        BinaryOperator::NotEqual => 9,
        BinaryOperator::BitwiseAnd => 8,
        BinaryOperator::BitwiseXOr => 7,
        BinaryOperator::BitwiseOr => 6,
        BinaryOperator::LogicalAnd => 5,
        BinaryOperator::LogicalOr => 4,
    }
}

/// The minimum precedence demanded of the left operand.  Exponentiation is
/// right-associative and disallows an unparenthesized operand of equal or
/// unary precedence on its left, so it demands a primary operand there;
/// the left-associative operators chain at their own precedence.
pub open spec fn bin_left_min(op: BinaryOperator) -> u32 {
    if op is Exponentiation {
        16
    } else {
        bin_op_prec(op)
    }
}

/// The minimum precedence demanded of the right operand: the operator's own
/// class for right-associative exponentiation, one above it otherwise.
pub open spec fn bin_right_min(op: BinaryOperator) -> u32 {
    match op {
        BinaryOperator::Exponentiation => 14,
        BinaryOperator::Multiplication => 14,
        BinaryOperator::Division => 14,
        BinaryOperator::Remainder => 14,
        BinaryOperator::Addition => 13,
        BinaryOperator::Subtraction => 13,
        BinaryOperator::LeftShift => 12,
        BinaryOperator::SignedRightShift => 12,
        BinaryOperator::UnsignedRightShift => 12,
        BinaryOperator::LessThan => 11,
        BinaryOperator::LessThanOrEqual => 11,
        BinaryOperator::Equal => 10,
        BinaryOperator::NotEqual => 10,
        BinaryOperator::BitwiseAnd => 9,
        BinaryOperator::BitwiseXOr => 8,
        BinaryOperator::BitwiseOr => 7,
        BinaryOperator::LogicalAnd => 6,
        BinaryOperator::LogicalOr => 5,
    }
}

/// The type-parameter list `<T, U>`, comma-joined; empty when there are no
/// parameters.
pub open spec fn ids_comma_text(ids: Seq<identifer::Identifer>, i: int) -> Seq<char>
    decreases ids.len() - i,
{
    if i < 0 || i >= ids.len() {
        Seq::<char>::empty()
    } else {
        ids[i]@ + if i + 1 < ids.len() {
            ", "@ + ids_comma_text(ids, i + 1)
        } else {
            Seq::<char>::empty()
        }
    }
}

/// The `<T, U>` part before a parameter list; nothing when empty.
pub open spec fn tp_part_text(ids: Seq<identifer::Identifer>) -> Seq<char> {
    if ids.len() == 0 {
        Seq::<char>::empty()
    } else {
        "<"@ + ids_comma_text(ids, 0) + ">"@
    }
}

/// A type, in TypeScript syntax.
pub open spec fn type_text(t: Type) -> Seq<char>
    decreases t, 1int,
{
    match t {
        Type::Number => "number"@,
        Type::String => "string"@,
        Type::Boolean => "boolean"@,
        Type::Undefined => "undefined"@,
        Type::Null => "null"@,
        Type::Never => "never"@,
        Type::Void => "void"@,
        Type::Object(members) => {
            if members@.len() == 0 {
                "{}"@
            } else {
                "{ "@ + member_types_text(members@, 0) + " }"@
            }
        },
        Type::Function(ft) => tp_part_text(ft.type_parameter_list@) + "("@ + fn_type_params_text(
            ft.parameter_list@,
            0,
        ) + ") => "@ + type_text(ft.return_type),
        Type::WithTypeParameter(w) => type_text(w.type_) + if w.type_parameter_list@.len() == 0 {
            Seq::<char>::empty()
        } else {
            "<"@ + types_comma_text(w.type_parameter_list@, 0) + ">"@
        },
        Type::Union(l) => types_pipe_text(l@, 0),
        Type::Intersection(it) => type_text(it.left) + " & "@ + type_text(it.right),
        Type::ImportedType(it) => alias_text(it.module_name@) + "."@ + it.name@,
        Type::ScopeInFile(id) => id@,
        Type::ScopeInGlobal(id) => id@,
        Type::StringLiteral(s) => quoted_text(s@),
    }
}

/// Object-type members, `; `-joined: `name: T`, or `name?: T` when not
/// required, the name quoted when it is not a safe property name.
pub open spec fn member_types_text(l: Seq<MemberType>, i: int) -> Seq<char>
    decreases l, l.len() - i,
{
    if i < 0 || i >= l.len() {
        Seq::<char>::empty()
    } else {
        (if spec_is_safe_property_name(l[i].name@) {
            l[i].name@
        } else {
            quoted_text(l[i].name@)
        }) + (if l[i].required {
            Seq::<char>::empty()
        } else {
            "?"@
        }) + ": "@ + type_text(l[i].type_) + if i + 1 < l.len() {
            "; "@ + member_types_text(l, i + 1)
        } else {
            Seq::<char>::empty()
        }
    }
}

/// Function-type parameters with synthesized positional names:
/// `p0: T0, p1: T1`.
pub open spec fn fn_type_params_text(l: Seq<Type>, i: int) -> Seq<char>
    decreases l, l.len() - i,
{
    if i < 0 || i >= l.len() {
        Seq::<char>::empty()
    } else {
        "p"@ + udec_text(i as nat) + ": "@ + type_text(l[i]) + if i + 1 < l.len() {
            ", "@ + fn_type_params_text(l, i + 1)
        } else {
            Seq::<char>::empty()
        }
    }
}

/// Types comma-joined, for generic type-argument lists.
pub open spec fn types_comma_text(l: Seq<Type>, i: int) -> Seq<char>
    decreases l, l.len() - i,
{
    if i < 0 || i >= l.len() {
        Seq::<char>::empty()
    } else {
        type_text(l[i]) + if i + 1 < l.len() {
            ", "@ + types_comma_text(l, i + 1)
        } else {
            Seq::<char>::empty()
        }
    }
}

/// Types joined with ` | `, for union types.
pub open spec fn types_pipe_text(l: Seq<Type>, i: int) -> Seq<char>
    decreases l, l.len() - i,
{
    if i < 0 || i >= l.len() {
        Seq::<char>::empty()
    } else {
        type_text(l[i]) + if i + 1 < l.len() {
            " | "@ + types_pipe_text(l, i + 1)
        } else {
            Seq::<char>::empty()
        }
    }
}

/// Lambda parameters in TypeScript syntax: `name: T`, comma-joined.
pub open spec fn params_ts_text(l: Seq<Parameter>, i: int) -> Seq<char>
    decreases l, l.len() - i,
{
    if i < 0 || i >= l.len() {
        Seq::<char>::empty()
    } else {
        l[i].name@ + ": "@ + type_text(l[i].type_) + if i + 1 < l.len() {
            ", "@ + params_ts_text(l, i + 1)
        } else {
            Seq::<char>::empty()
        }
    }
}

/// Lambda parameters in JavaScript syntax: names only, comma-joined.
pub open spec fn params_js_text(l: Seq<Parameter>, i: int) -> Seq<char>
    decreases l.len() - i,
{
    if i < 0 || i >= l.len() {
        Seq::<char>::empty()
    } else {
        l[i].name@ + if i + 1 < l.len() {
            ", "@ + params_js_text(l, i + 1)
        } else {
            Seq::<char>::empty()
        }
    }
}

/// Documented parameters in TypeScript syntax: `name: T`, comma-joined.
pub open spec fn pwd_params_ts_text(l: Seq<ParameterWithDocument>, i: int) -> Seq<char>
    decreases l, l.len() - i,
{
    if i < 0 || i >= l.len() {
        Seq::<char>::empty()
    } else {
        l[i].name@ + ": "@ + type_text(l[i].type_) + if i + 1 < l.len() {
            ", "@ + pwd_params_ts_text(l, i + 1)
        } else {
            Seq::<char>::empty()
        }
    }
}

/// Documented parameters in JavaScript syntax: names only, comma-joined.
pub open spec fn pwd_params_js_text(l: Seq<ParameterWithDocument>, i: int) -> Seq<char>
    decreases l.len() - i,
{
    if i < 0 || i >= l.len() {
        Seq::<char>::empty()
    } else {
        l[i].name@ + if i + 1 < l.len() {
            ", "@ + pwd_params_js_text(l, i + 1)
        } else {
            Seq::<char>::empty()
        }
    }
}

/// The text between an assignment target and the assigned expression:
/// ` = `, or ` op= ` for a compound assignment.
pub open spec fn set_op_text(op: Option<BinaryOperator>) -> Seq<char> {
    match op {
        Option::None => " = "@,
        Option::Some(o) => " "@ + bin_op_text(o) + "= "@,
    }
}

/// The intrinsic precedence class of an expression; call, `new`, member
/// access and the literals count as primary.  A type assertion is invisible
/// in JavaScript, where its operand's class governs.
pub open spec fn expr_prec(e: Expr, mode: CodeType) -> u32
    decreases e,
{
    match e {
        Expr::Lambda(_) => 2,
        Expr::ConditionalOperator(_) => 3,
        Expr::BinaryOperator(b) => bin_op_prec(b.operator),
        Expr::UnaryOperator(_) => 15,
        Expr::TypeAssertion(t) => if mode is TypeScript {
            10
        } else {
            expr_prec(t.expr, mode)
        },
        _ => 16,
    }
}

/// An expression printed into a slot demanding minimum precedence `min`:
/// parenthesized exactly when its own class is below the demand.
pub open spec fn expr_text(e: Expr, mode: CodeType, ind: Seq<char>, min: u32) -> Seq<char>
    decreases e, 3int,
{
    if expr_prec(e, mode) < min {
        "("@ + expr_core_text(e, mode, ind) + ")"@
    } else {
        expr_core_text(e, mode, ind)
    }
}

/// An expression without the outer parenthesization decision.
pub open spec fn expr_core_text(e: Expr, mode: CodeType, ind: Seq<char>) -> Seq<char>
    decreases e, 2int,
{
    match e {
        Expr::NumberLiteral(v) => dec_text(v as int),
        Expr::StringLiteral(s) => quoted_text(s@),
        Expr::BooleanLiteral(b) => if b {
            "true"@
        } else {
            "false"@
        },
        Expr::NullLiteral => "null"@,
        Expr::UndefinedLiteral => "undefined"@,
        Expr::UnaryOperator(u) => unary_op_text(u.operator) + expr_text(u.expr, mode, ind, 16),
        Expr::BinaryOperator(b) => expr_text(b.left, mode, ind, bin_left_min(b.operator)) + " "@
            + bin_op_text(b.operator) + " "@ + expr_text(
            b.right,
            mode,
            ind,
            bin_right_min(b.operator),
        ),
        Expr::ConditionalOperator(c) => expr_text(c.condition, mode, ind, 4) + " ? "@ + expr_text(
            c.then_expr,
            mode,
            ind,
            3,
        ) + " : "@ + expr_text(c.else_expr, mode, ind, 3),
        Expr::ArrayLiteral(items) => "["@ + array_items_text(items@, 0, mode, ind) + "]"@,
        Expr::ObjectLiteral(members) => {
            if members@.len() == 0 {
                "{}"@
            } else {
                "{ "@ + members_text(members@, 0, mode, ind) + " }"@
            }
        },
        Expr::Lambda(l) => {
            match mode {
                CodeType::TypeScript => tp_part_text(l.type_parameter_list@) + "("@
                    + params_ts_text(l.parameter_list@, 0) + "): "@ + type_text(l.return_type)
                    + " => "@ + body_text(l.statement_list@, mode, ind),
                CodeType::JavaScript => "("@ + params_js_text(l.parameter_list@, 0) + ") => "@
                    + body_text(l.statement_list@, mode, ind),
            }
        },
        Expr::Variable(id) => id@,
        Expr::GlobalObjects(id) => id@,
        Expr::ImportedVariable(iv) => alias_text(iv.module_name@) + "."@ + iv.name@,
        Expr::Get(g) => expr_text(g.expr, mode, ind, 16) + property_text(
            g.property_expr,
            mode,
            ind,
        ),
        Expr::Call(c) => expr_text(c.expr, mode, ind, 16) + "("@ + args_text(
            c.parameter_list@,
            0,
            mode,
            ind,
        ) + ")"@,
        Expr::New(c) => "new "@ + expr_text(c.expr, mode, ind, 16) + "("@ + args_text(
            c.parameter_list@,
            0,
            mode,
            ind,
        ) + ")"@,
        Expr::TypeAssertion(t) => {
            match mode {
                CodeType::TypeScript => expr_text(t.expr, mode, ind, 10) + " as "@ + type_text(
                    t.type_,
                ),
                CodeType::JavaScript => expr_core_text(t.expr, mode, ind),
            }
        },
    }
}

/// The suffix of a property access: dot notation when the property is a
/// string literal that is a safe property name, bracket notation otherwise.
pub open spec fn property_text(p: Expr, mode: CodeType, ind: Seq<char>) -> Seq<char>
    decreases p, 4int,
{
    match p {
        Expr::StringLiteral(s) => {
            if spec_is_safe_property_name(s@) {
                "."@ + s@
            } else {
                "["@ + quoted_text(s@) + "]"@
            }
        },
        _ => "["@ + expr_text(p, mode, ind, 0) + "]"@,
    }
}

/// Call arguments, comma-joined.
pub open spec fn args_text(l: Seq<Expr>, i: int, mode: CodeType, ind: Seq<char>) -> Seq<char>
    decreases l, l.len() - i,
{
    if i < 0 || i >= l.len() {
        Seq::<char>::empty()
    } else {
        expr_text(l[i], mode, ind, 0) + if i + 1 < l.len() {
            ", "@ + args_text(l, i + 1, mode, ind)
        } else {
            Seq::<char>::empty()
        }
    }
}

/// Array-literal items, comma-joined; a spread item gets `...`.
pub open spec fn array_items_text(l: Seq<ArrayItem>, i: int, mode: CodeType, ind: Seq<char>) -> Seq<
    char,
>
    decreases l, l.len() - i,
{
    if i < 0 || i >= l.len() {
        Seq::<char>::empty()
    } else {
        (if l[i].spread {
            "..."@
        } else {
            Seq::<char>::empty()
        }) + expr_text(l[i].expr, mode, ind, 0) + if i + 1 < l.len() {
            ", "@ + array_items_text(l, i + 1, mode, ind)
        } else {
            Seq::<char>::empty()
        }
    }
}

/// Object-literal members, comma-joined: `...expr` for a spread,
/// `key: value` otherwise, the key quoted when it is not a safe property
/// name.
pub open spec fn members_text(l: Seq<Member>, i: int, mode: CodeType, ind: Seq<char>) -> Seq<char>
    decreases l, l.len() - i,
{
    if i < 0 || i >= l.len() {
        Seq::<char>::empty()
    } else {
        (match l[i] {
            Member::Spread(e) => "..."@ + expr_text(e, mode, ind, 0),
            Member::KeyValue(kv) => (if spec_is_safe_property_name(kv.key@) {
                kv.key@
            } else {
                quoted_text(kv.key@)
            }) + ": "@ + expr_text(kv.value, mode, ind, 0),
        }) + if i + 1 < l.len() {
            ", "@ + members_text(l, i + 1, mode, ind)
        } else {
            Seq::<char>::empty()
        }
    }
}

/// A function body: the concise form `(expr)` for a body that is exactly
/// one return statement, a braced block otherwise.
pub open spec fn body_text(l: Seq<Statement>, mode: CodeType, ind: Seq<char>) -> Seq<char>
    decreases l, l.len() + 2int,
{
    if l.len() == 1 && l[0] is Return {
        "("@ + expr_text(l[0]->Return_0, mode, ind, 0) + ")"@
    } else {
        block_text(l, mode, ind)
    }
}

/// A braced statement block, its contents indented one level further.
pub open spec fn block_text(l: Seq<Statement>, mode: CodeType, ind: Seq<char>) -> Seq<char>
    decreases l, l.len() + 1int,
{
    "{\n"@ + statement_list_text(l, 0, mode, ind + "  "@) + ind + "}"@
}

/// Statements, each on its own indented line.
pub open spec fn statement_list_text(l: Seq<Statement>, i: int, mode: CodeType, ind: Seq<char>) -> Seq<
    char,
>
    decreases l, l.len() - i,
{
    if i < 0 || i >= l.len() {
        Seq::<char>::empty()
    } else {
        ind + statement_text(l[i], mode, ind) + "\n"@ + statement_list_text(l, i + 1, mode, ind)
    }
}

/// One statement, without its leading indentation and trailing newline.
pub open spec fn statement_text(s: Statement, mode: CodeType, ind: Seq<char>) -> Seq<char>
    decreases s, 5int,
{
    match s {
        Statement::EvaluateExpr(e) => expr_text(e, mode, ind, 0) + ";"@,
        Statement::SetStatement(st) => expr_text(st.target, mode, ind, 0) + set_op_text(
            st.operator_maybe,
        ) + expr_text(st.expr, mode, ind, 0) + ";"@,
        Statement::If(i) => "if ("@ + expr_text(i.condition, mode, ind, 0) + ") "@ + block_text(
            i.then_statement_list@,
            mode,
            ind,
        ),
        Statement::ThrowError(e) => "throw "@ + expr_text(e, mode, ind, 0) + ";"@,
        Statement::Return(e) => "return "@ + expr_text(e, mode, ind, 0) + ";"@,
        Statement::ReturnVoid => "return;"@,
        Statement::Continue => "continue;"@,
        Statement::VariableDefinition(v) => (if v.is_const {
            "const "@
        } else {
            "let "@
        }) + v.name@ + (match mode {
            CodeType::TypeScript => ": "@ + type_text(v.type_),
            CodeType::JavaScript => Seq::<char>::empty(),
        }) + " = "@ + expr_text(v.expr, mode, ind, 0) + ";"@,
        Statement::FunctionDefinition(f) => "const "@ + f.name@ + " = "@ + (match mode {
            CodeType::TypeScript => tp_part_text(f.type_parameter_list@) + "("@ + pwd_params_ts_text(
                f.parameter_list@,
                0,
            ) + "): "@ + type_text(f.return_type) + " => "@ + body_text(
                f.statement_list@,
                mode,
                ind,
            ),
            CodeType::JavaScript => "("@ + pwd_params_js_text(f.parameter_list@, 0) + ") => "@
                + body_text(f.statement_list@, mode, ind),
        }) + ";"@,
        Statement::For(f) => "for (let "@ + f.counter_variable_name@ + " = 0; "@
            + f.counter_variable_name@ + " < "@ + expr_text(f.until_expr, mode, ind, 11) + "; "@
            + f.counter_variable_name@ + " += 1) "@ + block_text(f.statement_list@, mode, ind),
        Statement::ForOf(f) => "for (const "@ + f.element_variable_name@ + " of "@ + expr_text(
            f.iterable_expr,
            mode,
            ind,
            0,
        ) + ") "@ + block_text(f.statement_list@, mode, ind),
        Statement::WhileTrue(l) => "while (true) "@ + block_text(l@, mode, ind),
        Statement::Break => "break;"@,
        Statement::Switch(sw) => "switch ("@ + expr_text(sw.expr, mode, ind, 0) + ") {\n"@
            + patterns_text(sw.pattern_list@, 0, mode, ind + "  "@) + ind + "}"@,
    }
}

/// The cases of a switch statement; every case body is wrapped in its own
/// braces, so execution cannot fall through.
pub open spec fn patterns_text(l: Seq<Pattern>, i: int, mode: CodeType, ind: Seq<char>) -> Seq<char>
    decreases l, l.len() - i,
{
    if i < 0 || i >= l.len() {
        Seq::<char>::empty()
    } else {
        ind + "case "@ + quoted_text(l[i].case_string@) + ": "@ + block_text(
            l[i].statement_list@,
            mode,
            ind,
        ) + "\n"@ + patterns_text(l, i + 1, mode, ind)
    }
}

/// One documentation character inside a JSDoc block: a line break starts
/// the next line with ` * `.
pub open spec fn doc_char_text(c: char) -> Seq<char> {
    if c == '\n' {
        seq!['\n', ' ', '*', ' ']
    } else {
        seq![c]
    }
}

/// Documentation text as it appears inside a JSDoc block.
pub open spec fn doc_body_text(s: Seq<char>) -> Seq<char>
    decreases s.len(),
{
    if s.len() == 0 {
        Seq::<char>::empty()
    } else {
        doc_char_text(s[0]) + doc_body_text(s.drop_first())
    }
}

/// Whether a JSDoc block is emitted at all: only when the documentation
/// text or some parameter documentation is non-empty.
pub open spec fn jsdoc_present(doc: Seq<char>, params: Seq<ParameterWithDocument>) -> bool {
    doc.len() > 0 || exists|j: int| 0 <= j < params.len() && params[j].document@.len() > 0
}

/// The `@param` lines of a JSDoc block, one for every documented parameter.
pub open spec fn param_lines_text(params: Seq<ParameterWithDocument>, i: int) -> Seq<char>
    decreases params.len() - i,
{
    if i < 0 || i >= params.len() {
        Seq::<char>::empty()
    } else {
        (if params[i].document@.len() > 0 {
            " * @param "@ + params[i].name@ + " "@ + params[i].document@ + "\n"@
        } else {
            Seq::<char>::empty()
        }) + param_lines_text(params, i + 1)
    }
}

/// A JSDoc block: the documentation text, then one `@param` line per
/// documented parameter; nothing when there is nothing to document.
pub open spec fn jsdoc_text(doc: Seq<char>, params: Seq<ParameterWithDocument>) -> Seq<char> {
    if !jsdoc_present(doc, params) {
        Seq::<char>::empty()
    } else {
        "/**\n"@ + (if doc.len() > 0 {
            " * "@ + doc_body_text(doc) + "\n"@
        } else {
            Seq::<char>::empty()
        }) + param_lines_text(params, 0) + " */\n"@
    }
}

/// One export definition, preceded by a blank line and its JSDoc block.
/// A type alias is emitted only in TypeScript; type syntax inside the
/// other definitions is emitted only in TypeScript.
pub open spec fn definition_text(d: ExportDefinition, mode: CodeType) -> Seq<char>
    decreases d, 6int,
{
    match d {
        ExportDefinition::TypeAlias(a) => {
            match mode {
                CodeType::TypeScript => "\n"@ + jsdoc_text(a.document@, Seq::empty())
                    + "export type "@ + a.name@ + tp_part_text(a.type_parameter_list@) + " = "@
                    + type_text(a.type_) + ";\n"@,
                CodeType::JavaScript => Seq::<char>::empty(),
            }
        },
        ExportDefinition::Function(f) => "\n"@ + jsdoc_text(f.document@, f.parameter_list@)
            + "export const "@ + f.name@ + " = "@ + (match mode {
            CodeType::TypeScript => tp_part_text(f.type_parameter_list@) + "("@ + pwd_params_ts_text(
                f.parameter_list@,
                0,
            ) + "): "@ + type_text(f.return_type) + " => "@ + body_text(
                f.statement_list@,
                mode,
                Seq::<char>::empty(),
            ),
            CodeType::JavaScript => "("@ + pwd_params_js_text(f.parameter_list@, 0) + ") => "@
                + body_text(f.statement_list@, mode, Seq::<char>::empty()),
        }) + ";\n"@,
        ExportDefinition::Variable(v) => "\n"@ + jsdoc_text(v.document@, Seq::empty())
            + "export const "@ + v.name@ + (match mode {
            CodeType::TypeScript => ": "@ + type_text(v.type_),
            CodeType::JavaScript => Seq::<char>::empty(),
        }) + " = "@ + expr_text(v.expr, mode, Seq::<char>::empty(), 0) + ";\n"@,
    }
}

/// The export definitions, separated by two extra blank lines.
pub open spec fn definition_list_text(l: Seq<ExportDefinition>, i: int, mode: CodeType) -> Seq<char>
    decreases l, l.len() - i,
{
    if i < 0 || i >= l.len() {
        Seq::<char>::empty()
    } else {
        definition_text(l[i], mode) + if i + 1 < l.len() {
            "\n\n"@ + definition_list_text(l, i + 1, mode)
        } else {
            Seq::<char>::empty()
        }
    }
}

/// The module names collected so far, extended by `m` unless it is already
/// present: imports are deduplicated in first-encountered order.
pub open spec fn acc_add(acc: Seq<Seq<char>>, m: Seq<char>) -> Seq<Seq<char>> {
    if acc.contains(m) {
        acc
    } else {
        acc.push(m)
    }
}

/// Module names referenced under a type, added to `acc` in pre-order.
pub open spec fn mods_type(t: Type, acc: Seq<Seq<char>>) -> Seq<Seq<char>>
    decreases t, 1int,
{
    match t {
        Type::Object(members) => mods_member_types(members@, 0, acc),
        Type::Function(ft) => mods_type(ft.return_type, mods_types(ft.parameter_list@, 0, acc)),
        Type::WithTypeParameter(w) => mods_types(w.type_parameter_list@, 0, mods_type(
            w.type_,
            acc,
        )),
        Type::Union(l) => mods_types(l@, 0, acc),
        Type::Intersection(it) => mods_type(it.right, mods_type(it.left, acc)),
        Type::ImportedType(it) => acc_add(acc, it.module_name@),
        _ => acc,
    }
}

pub open spec fn mods_types(l: Seq<Type>, i: int, acc: Seq<Seq<char>>) -> Seq<Seq<char>>
    decreases l, l.len() - i,
{
    if i < 0 || i >= l.len() {
        acc
    } else {
        mods_types(l, i + 1, mods_type(l[i], acc))
    }
}

pub open spec fn mods_member_types(l: Seq<MemberType>, i: int, acc: Seq<Seq<char>>) -> Seq<
    Seq<char>,
>
    decreases l, l.len() - i,
{
    if i < 0 || i >= l.len() {
        acc
    } else {
        mods_member_types(l, i + 1, mods_type(l[i].type_, acc))
    }
}

pub open spec fn mods_params(l: Seq<Parameter>, i: int, acc: Seq<Seq<char>>) -> Seq<Seq<char>>
    decreases l, l.len() - i,
{
    if i < 0 || i >= l.len() {
        acc
    } else {
        mods_params(l, i + 1, mods_type(l[i].type_, acc))
    }
}

pub open spec fn mods_pwd_params(l: Seq<ParameterWithDocument>, i: int, acc: Seq<Seq<char>>) -> Seq<
    Seq<char>,
>
    decreases l, l.len() - i,
{
    if i < 0 || i >= l.len() {
        acc
    } else {
        mods_pwd_params(l, i + 1, mods_type(l[i].type_, acc))
    }
}

/// Module names referenced under an expression, added to `acc` in
/// pre-order.  Type positions are scanned only in TypeScript: in
/// JavaScript type subtrees are never visited, so a module referenced only
/// by types gets no import there.
pub open spec fn mods_expr(e: Expr, mode: CodeType, acc: Seq<Seq<char>>) -> Seq<Seq<char>>
    decreases e, 2int,
{
    match e {
        Expr::UnaryOperator(u) => mods_expr(u.expr, mode, acc),
        Expr::BinaryOperator(b) => mods_expr(b.right, mode, mods_expr(b.left, mode, acc)),
        Expr::ConditionalOperator(c) => mods_expr(c.else_expr, mode, mods_expr(
            c.then_expr,
            mode,
            mods_expr(c.condition, mode, acc),
        )),
        Expr::ArrayLiteral(items) => mods_array_items(items@, 0, mode, acc),
        Expr::ObjectLiteral(members) => mods_members(members@, 0, mode, acc),
        Expr::Lambda(l) => {
            match mode {
                CodeType::TypeScript => mods_stmts(l.statement_list@, 0, mode, mods_type(
                    l.return_type,
                    mods_params(l.parameter_list@, 0, acc),
                )),
                CodeType::JavaScript => mods_stmts(l.statement_list@, 0, mode, acc),
            }
        },
        Expr::ImportedVariable(iv) => acc_add(acc, iv.module_name@),
        Expr::Get(g) => mods_expr(g.property_expr, mode, mods_expr(g.expr, mode, acc)),
        Expr::Call(c) => mods_args(c.parameter_list@, 0, mode, mods_expr(c.expr, mode, acc)),
        Expr::New(c) => mods_args(c.parameter_list@, 0, mode, mods_expr(c.expr, mode, acc)),
        Expr::TypeAssertion(t) => {
            match mode {
                CodeType::TypeScript => mods_type(t.type_, mods_expr(t.expr, mode, acc)),
                CodeType::JavaScript => mods_expr(t.expr, mode, acc),
            }
        },
        _ => acc,
    }
}

pub open spec fn mods_args(l: Seq<Expr>, i: int, mode: CodeType, acc: Seq<Seq<char>>) -> Seq<
    Seq<char>,
>
    decreases l, l.len() - i,
{
    if i < 0 || i >= l.len() {
        acc
    } else {
        mods_args(l, i + 1, mode, mods_expr(l[i], mode, acc))
    }
}

pub open spec fn mods_array_items(l: Seq<ArrayItem>, i: int, mode: CodeType, acc: Seq<Seq<char>>) -> Seq<
    Seq<char>,
>
    decreases l, l.len() - i,
{
    if i < 0 || i >= l.len() {
        acc
    } else {
        mods_array_items(l, i + 1, mode, mods_expr(l[i].expr, mode, acc))
    }
}

pub open spec fn mods_members(l: Seq<Member>, i: int, mode: CodeType, acc: Seq<Seq<char>>) -> Seq<
    Seq<char>,
>
    decreases l, l.len() - i,
{
    if i < 0 || i >= l.len() {
        acc
    } else {
        mods_members(
            l,
            i + 1,
            mode,
            match l[i] {
                Member::Spread(e) => mods_expr(e, mode, acc),
                Member::KeyValue(kv) => mods_expr(kv.value, mode, acc),
            },
        )
    }
}

/// Module names referenced under a statement, added to `acc` in pre-order.
pub open spec fn mods_stmt(st: Statement, mode: CodeType, acc: Seq<Seq<char>>) -> Seq<Seq<char>>
    decreases st, 3int,
{
    match st {
        Statement::EvaluateExpr(e) => mods_expr(e, mode, acc),
        Statement::SetStatement(s) => mods_expr(s.expr, mode, mods_expr(s.target, mode, acc)),
        Statement::If(i) => mods_stmts(i.then_statement_list@, 0, mode, mods_expr(
            i.condition,
            mode,
            acc,
        )),
        Statement::ThrowError(e) => mods_expr(e, mode, acc),
        Statement::Return(e) => mods_expr(e, mode, acc),
        Statement::VariableDefinition(v) => {
            match mode {
                CodeType::TypeScript => mods_expr(v.expr, mode, mods_type(v.type_, acc)),
                CodeType::JavaScript => mods_expr(v.expr, mode, acc),
            }
        },
        Statement::FunctionDefinition(f) => {
            match mode {
                CodeType::TypeScript => mods_stmts(f.statement_list@, 0, mode, mods_type(
                    f.return_type,
                    mods_pwd_params(f.parameter_list@, 0, acc),
                )),
                CodeType::JavaScript => mods_stmts(f.statement_list@, 0, mode, acc),
            }
        },
        Statement::For(f) => mods_stmts(f.statement_list@, 0, mode, mods_expr(
            f.until_expr,
            mode,
            acc,
        )),
        Statement::ForOf(f) => mods_stmts(f.statement_list@, 0, mode, mods_expr(
            f.iterable_expr,
            mode,
            acc,
        )),
        Statement::WhileTrue(l) => mods_stmts(l@, 0, mode, acc),
        Statement::Switch(sw) => mods_patterns(sw.pattern_list@, 0, mode, mods_expr(
            sw.expr,
            mode,
            acc,
        )),
        _ => acc,
    }
}

pub open spec fn mods_stmts(l: Seq<Statement>, i: int, mode: CodeType, acc: Seq<Seq<char>>) -> Seq<
    Seq<char>,
>
    decreases l, l.len() - i,
{
    if i < 0 || i >= l.len() {
        acc
    } else {
        mods_stmts(l, i + 1, mode, mods_stmt(l[i], mode, acc))
    }
}

pub open spec fn mods_patterns(l: Seq<Pattern>, i: int, mode: CodeType, acc: Seq<Seq<char>>) -> Seq<
    Seq<char>,
>
    decreases l, l.len() - i,
{
    if i < 0 || i >= l.len() {
        acc
    } else {
        mods_patterns(l, i + 1, mode, mods_stmts(l[i].statement_list@, 0, mode, acc))
    }
}

/// Module names referenced under an export definition.
pub open spec fn mods_def(d: ExportDefinition, mode: CodeType, acc: Seq<Seq<char>>) -> Seq<
    Seq<char>,
>
    decreases d, 7int,
{
    match d {
        ExportDefinition::TypeAlias(a) => {
            match mode {
                CodeType::TypeScript => mods_type(a.type_, acc),
                CodeType::JavaScript => acc,
            }
        },
        ExportDefinition::Function(f) => {
            match mode {
                CodeType::TypeScript => mods_stmts(f.statement_list@, 0, mode, mods_type(
                    f.return_type,
                    mods_pwd_params(f.parameter_list@, 0, acc),
                )),
                CodeType::JavaScript => mods_stmts(f.statement_list@, 0, mode, acc),
            }
        },
        ExportDefinition::Variable(v) => {
            match mode {
                CodeType::TypeScript => mods_expr(v.expr, mode, mods_type(v.type_, acc)),
                CodeType::JavaScript => mods_expr(v.expr, mode, acc),
            }
        },
    }
}

pub open spec fn mods_defs(l: Seq<ExportDefinition>, i: int, mode: CodeType, acc: Seq<Seq<char>>) -> Seq<
    Seq<char>,
>
    decreases l, l.len() - i,
{
    if i < 0 || i >= l.len() {
        acc
    } else {
        mods_defs(l, i + 1, mode, mods_def(l[i], mode, acc))
    }
}

/// The distinct modules the code references, in first-encountered order:
/// export definitions first, then the top-level statements.
pub open spec fn code_modules(c: Code, mode: CodeType) -> Seq<Seq<char>> {
    mods_stmts(
        c.statement_list@,
        0,
        mode,
        mods_defs(c.export_definition_list@, 0, mode, Seq::<Seq<char>>::empty()),
    )
}

/// One namespace import line per collected module.
pub open spec fn import_lines_text(mods: Seq<Seq<char>>, i: int) -> Seq<char>
    decreases mods.len() - i,
{
    if i < 0 || i >= mods.len() {
        Seq::<char>::empty()
    } else {
        "import * as "@ + alias_text(mods[i]) + " from "@ + quoted_text(mods[i]) + ";\n"@
            + import_lines_text(mods, i + 1)
    }
}

/// The fixed two-line banner that opens every output.
pub open spec fn banner_text() -> Seq<char> {
    "/* eslint-disable */\n/* generated by js-ts-code-generator. Do not edit! */\n"@
}

/// The whole output: the banner, a blank line, the import block with a
/// blank line after it when any module is referenced, the export
/// definitions, and the top-level statements in one isolated block.
pub open spec fn code_text(c: Code, mode: CodeType) -> Seq<char> {
    banner_text() + "\n"@ + (if code_modules(c, mode).len() > 0 {
        import_lines_text(code_modules(c, mode), 0) + "\n"@
    } else {
        Seq::<char>::empty()
    }) + definition_list_text(c.export_definition_list@, 0, mode) + (if c.statement_list@.len()
        == 0 {
        Seq::<char>::empty()
    } else {
        "\n"@ + block_text(c.statement_list@, mode, Seq::<char>::empty())
    })
}

fn push_identifer(out: &mut String, id: &identifer::Identifer)
    ensures
        final(out)@ == old(out)@ + id@,
{
    let g = id.get();
    out.append(g.as_str());
}

fn push_alias(out: &mut String, m: &String)
    ensures
        final(out)@ == old(out)@ + alias_text(m@),
{
    out.append("$$$");
    let id = identifer::from_string(m.as_str());
    push_identifer(out, &id);
    assert(out@ =~= old(out)@ + alias_text(m@));
}

fn push_ids_comma(out: &mut String, ids: &Vec<identifer::Identifer>, i: usize)
    ensures
        final(out)@ == old(out)@ + ids_comma_text(ids@, i as int),
    decreases ids@.len() - i,
{
    if i >= ids.len() {
        assert(out@ =~= old(out)@ + ids_comma_text(ids@, i as int));
        return ;
    }
    push_identifer(out, &ids[i]);
    if i + 1 < ids.len() {
        out.append(", ");
        push_ids_comma(out, ids, i + 1);
    }
    assert(out@ =~= old(out)@ + ids_comma_text(ids@, i as int));
}

fn push_tp_part(out: &mut String, ids: &Vec<identifer::Identifer>)
    ensures
        final(out)@ == old(out)@ + tp_part_text(ids@),
{
    if ids.len() > 0 {
        out.append("<");
        push_ids_comma(out, ids, 0);
        out.append(">");
    }
    assert(out@ =~= old(out)@ + tp_part_text(ids@));
}

fn push_unary_op(out: &mut String, op: &UnaryOperator)
    ensures
        final(out)@ == old(out)@ + unary_op_text(*op),
{
    match op {
        UnaryOperator::Minus => out.append("-"),
        UnaryOperator::BitwiseNot => out.append("~"),
        UnaryOperator::LogicalNot => out.append("!"),
    }
}

fn push_bin_op(out: &mut String, op: &BinaryOperator)
    ensures
        final(out)@ == old(out)@ + bin_op_text(*op),
{
    match op {
        BinaryOperator::Exponentiation => out.append("**"),
        BinaryOperator::Multiplication => out.append("*"),
        BinaryOperator::Division => out.append("/"),
        BinaryOperator::Remainder => out.append("%"),
        BinaryOperator::Addition => out.append("+"),
        BinaryOperator::Subtraction => out.append("-"),
        BinaryOperator::LeftShift => out.append("<<"),
        BinaryOperator::SignedRightShift => out.append(">>"),
        BinaryOperator::UnsignedRightShift => out.append(">>>"),
        BinaryOperator::LessThan => out.append("<"),
        BinaryOperator::LessThanOrEqual => out.append("<="),
        BinaryOperator::Equal => out.append("==="),
        BinaryOperator::NotEqual => out.append("!=="),
        BinaryOperator::BitwiseAnd => out.append("&"),
        BinaryOperator::BitwiseXOr => out.append("^"),
        BinaryOperator::BitwiseOr => out.append("|"),
        BinaryOperator::LogicalAnd => out.append("&&"),
        BinaryOperator::LogicalOr => out.append("||"),
    }
}

fn bin_op_prec_exec(op: &BinaryOperator) -> (r: u32)
    ensures
        r == bin_op_prec(*op),
{
    match op {
        BinaryOperator::Exponentiation => 14,
        BinaryOperator::Multiplication => 13,
        BinaryOperator::Division => 13,
        BinaryOperator::Remainder => 13,
        BinaryOperator::Addition => 12,
        BinaryOperator::Subtraction => 12,
        BinaryOperator::LeftShift => 11,
        BinaryOperator::SignedRightShift => 11,
        BinaryOperator::UnsignedRightShift => 11,
        BinaryOperator::LessThan => 10,
        BinaryOperator::LessThanOrEqual => 10,
        BinaryOperator::Equal => 9,
        BinaryOperator::NotEqual => 9,
        BinaryOperator::BitwiseAnd => 8,
        BinaryOperator::BitwiseXOr => 7,
        BinaryOperator::BitwiseOr => 6,
        BinaryOperator::LogicalAnd => 5,
        BinaryOperator::LogicalOr => 4,
    }
}

fn bin_left_min_exec(op: &BinaryOperator) -> (r: u32)
    ensures
        r == bin_left_min(*op),
{
    match op {
        BinaryOperator::Exponentiation => 16,
        _ => bin_op_prec_exec(op),
    }
}

fn bin_right_min_exec(op: &BinaryOperator) -> (r: u32)
    ensures
        r == bin_right_min(*op),
{
    match op {
        BinaryOperator::Exponentiation => 14,
        _ => {
            let p = bin_op_prec_exec(op);
            p + 1
        },
    }
}

fn expr_prec_exec(e: &Expr, mode: &CodeType) -> (r: u32)
    ensures
        r == expr_prec(*e, *mode),
    decreases *e,
{
    match e {
        Expr::Lambda(_) => 2,
        Expr::ConditionalOperator(_) => 3,
        Expr::BinaryOperator(b) => bin_op_prec_exec(&b.operator),
        Expr::UnaryOperator(_) => 15,
        Expr::TypeAssertion(t) => {
            match mode {
                CodeType::TypeScript => 10,
                CodeType::JavaScript => expr_prec_exec(&t.expr, mode),
            }
        },
        _ => 16,
    }
}

fn push_expr(out: &mut String, e: &Expr, mode: &CodeType, ind: &String, min: u32)
    ensures
        final(out)@ == old(out)@ + expr_text(*e, *mode, ind@, min),
    decreases *e, 3int,
{
    let p = expr_prec_exec(e, mode);
    if p < min {
        out.append("(");
        push_expr_core(out, e, mode, ind);
        out.append(")");
        assert(out@ =~= old(out)@ + expr_text(*e, *mode, ind@, min));
    } else {
        push_expr_core(out, e, mode, ind);
    }
}

#[verifier::rlimit(100)]
fn push_expr_core(out: &mut String, e: &Expr, mode: &CodeType, ind: &String)
    ensures
        final(out)@ == old(out)@ + expr_core_text(*e, *mode, ind@),
    decreases *e, 2int,
{
    match e {
        Expr::NumberLiteral(v) => {
            push_i32(out, *v);
        },
        Expr::StringLiteral(s) => {
            push_quoted(out, s.as_str());
        },
        Expr::BooleanLiteral(b) => {
            if *b {
                out.append("true");
            } else {
                out.append("false");
            }
        },
        Expr::NullLiteral => {
            out.append("null");
        },
        Expr::UndefinedLiteral => {
            out.append("undefined");
        },
        Expr::UnaryOperator(u) => {
            push_unary_op(out, &u.operator);
            push_expr(out, &u.expr, mode, ind, 16);
        },
        Expr::BinaryOperator(b) => {
            let lm = bin_left_min_exec(&b.operator);
            push_expr(out, &b.left, mode, ind, lm);
            out.append(" ");
            push_bin_op(out, &b.operator);
            out.append(" ");
            let rm = bin_right_min_exec(&b.operator);
            push_expr(out, &b.right, mode, ind, rm);
        },
        Expr::ConditionalOperator(c) => {
            push_expr(out, &c.condition, mode, ind, 4);
            out.append(" ? ");
            push_expr(out, &c.then_expr, mode, ind, 3);
            out.append(" : ");
            push_expr(out, &c.else_expr, mode, ind, 3);
        },
        Expr::ArrayLiteral(items) => {
            out.append("[");
            push_array_items(out, items, 0, mode, ind);
            out.append("]");
        },
        Expr::ObjectLiteral(members) => {
            if members.len() == 0 {
                out.append("{}");
            } else {
                out.append("{ ");
                push_members(out, members, 0, mode, ind);
                out.append(" }");
            }
        },
        Expr::Lambda(l) => {
            match mode {
                CodeType::TypeScript => {
                    push_tp_part(out, &l.type_parameter_list);
                    out.append("(");
                    push_params_ts(out, &l.parameter_list, 0);
                    out.append("): ");
                    push_type(out, &l.return_type);
                    out.append(" => ");
                    push_body(out, &l.statement_list, mode, ind);
                },
                CodeType::JavaScript => {
                    out.append("(");
                    push_params_js(out, &l.parameter_list, 0);
                    out.append(") => ");
                    push_body(out, &l.statement_list, mode, ind);
                },
            }
        },
        Expr::Variable(id) => {
            push_identifer(out, id);
        },
        Expr::GlobalObjects(id) => {
            push_identifer(out, id);
        },
        Expr::ImportedVariable(iv) => {
            push_alias(out, &iv.module_name);
            out.append(".");
            push_identifer(out, &iv.name);
        },
        Expr::Get(g) => {
            push_expr(out, &g.expr, mode, ind, 16);
            push_property(out, &g.property_expr, mode, ind);
        },
        Expr::Call(c) => {
            push_expr(out, &c.expr, mode, ind, 16);
            out.append("(");
            push_args(out, &c.parameter_list, 0, mode, ind);
            out.append(")");
        },
        Expr::New(c) => {
            out.append("new ");
            push_expr(out, &c.expr, mode, ind, 16);
            out.append("(");
            push_args(out, &c.parameter_list, 0, mode, ind);
            out.append(")");
        },
        Expr::TypeAssertion(t) => {
            match mode {
                CodeType::TypeScript => {
                    push_expr(out, &t.expr, mode, ind, 10);
                    out.append(" as ");
                    push_type(out, &t.type_);
                },
                CodeType::JavaScript => {
                    push_expr_core(out, &t.expr, mode, ind);
                },
            }
        },
    }
    assert(out@ =~= old(out)@ + expr_core_text(*e, *mode, ind@));
}

fn push_property(out: &mut String, p: &Expr, mode: &CodeType, ind: &String)
    ensures
        final(out)@ == old(out)@ + property_text(*p, *mode, ind@),
    decreases *p, 4int,
{
    match p {
        Expr::StringLiteral(s) => {
            if identifer::is_safe_property_name(s.as_str()) {
                out.append(".");
                out.append(s.as_str());
            } else {
                out.append("[");
                push_quoted(out, s.as_str());
                out.append("]");
            }
        },
        _ => {
            out.append("[");
            push_expr(out, p, mode, ind, 0);
            out.append("]");
        },
    }
    assert(out@ =~= old(out)@ + property_text(*p, *mode, ind@));
}

fn push_args(out: &mut String, l: &Vec<Expr>, i: usize, mode: &CodeType, ind: &String)
    ensures
        final(out)@ == old(out)@ + args_text(l@, i as int, *mode, ind@),
    decreases l@, l@.len() - i,
{
    if i >= l.len() {
        assert(out@ =~= old(out)@ + args_text(l@, i as int, *mode, ind@));
        return ;
    }
    push_expr(out, &l[i], mode, ind, 0);
    if i + 1 < l.len() {
        out.append(", ");
        push_args(out, l, i + 1, mode, ind);
    }
    assert(out@ =~= old(out)@ + args_text(l@, i as int, *mode, ind@));
}

fn push_array_items(out: &mut String, l: &Vec<ArrayItem>, i: usize, mode: &CodeType, ind: &String)
    ensures
        final(out)@ == old(out)@ + array_items_text(l@, i as int, *mode, ind@),
    decreases l@, l@.len() - i,
{
    if i >= l.len() {
        assert(out@ =~= old(out)@ + array_items_text(l@, i as int, *mode, ind@));
        return ;
    }
    if l[i].spread {
        out.append("...");
    }
    push_expr(out, &l[i].expr, mode, ind, 0);
    if i + 1 < l.len() {
        out.append(", ");
        push_array_items(out, l, i + 1, mode, ind);
    }
    assert(out@ =~= old(out)@ + array_items_text(l@, i as int, *mode, ind@));
}

#[verifier::rlimit(100)]
fn push_members(out: &mut String, l: &Vec<Member>, i: usize, mode: &CodeType, ind: &String)
    ensures
        final(out)@ == old(out)@ + members_text(l@, i as int, *mode, ind@),
    decreases l@, l@.len() - i,
{
    if i >= l.len() {
        assert(out@ =~= old(out)@ + members_text(l@, i as int, *mode, ind@));
        return ;
    }
    match &l[i] {
        Member::Spread(e) => {
            out.append("...");
            push_expr(out, e, mode, ind, 0);
        },
        Member::KeyValue(kv) => {
            if identifer::is_safe_property_name(kv.key.as_str()) {
                out.append(kv.key.as_str());
            } else {
                push_quoted(out, kv.key.as_str());
            }
            out.append(": ");
            push_expr(out, &kv.value, mode, ind, 0);
        },
    }
    if i + 1 < l.len() {
        out.append(", ");
        push_members(out, l, i + 1, mode, ind);
    }
    assert(out@ =~= old(out)@ + members_text(l@, i as int, *mode, ind@));
}

fn push_params_ts(out: &mut String, l: &Vec<Parameter>, i: usize)
    ensures
        final(out)@ == old(out)@ + params_ts_text(l@, i as int),
    decreases l@, l@.len() - i,
{
    if i >= l.len() {
        assert(out@ =~= old(out)@ + params_ts_text(l@, i as int));
        return ;
    }
    push_identifer(out, &l[i].name);
    out.append(": ");
    push_type(out, &l[i].type_);
    if i + 1 < l.len() {
        out.append(", ");
        push_params_ts(out, l, i + 1);
    }
    assert(out@ =~= old(out)@ + params_ts_text(l@, i as int));
}

fn push_params_js(out: &mut String, l: &Vec<Parameter>, i: usize)
    ensures
        final(out)@ == old(out)@ + params_js_text(l@, i as int),
    decreases l@.len() - i,
{
    if i >= l.len() {
        assert(out@ =~= old(out)@ + params_js_text(l@, i as int));
        return ;
    }
    push_identifer(out, &l[i].name);
    if i + 1 < l.len() {
        out.append(", ");
        push_params_js(out, l, i + 1);
    }
    assert(out@ =~= old(out)@ + params_js_text(l@, i as int));
}

fn push_pwd_params_ts(out: &mut String, l: &Vec<ParameterWithDocument>, i: usize)
    ensures
        final(out)@ == old(out)@ + pwd_params_ts_text(l@, i as int),
    decreases l@, l@.len() - i,
{
    if i >= l.len() {
        assert(out@ =~= old(out)@ + pwd_params_ts_text(l@, i as int));
        return ;
    }
    push_identifer(out, &l[i].name);
    out.append(": ");
    push_type(out, &l[i].type_);
    if i + 1 < l.len() {
        out.append(", ");
        push_pwd_params_ts(out, l, i + 1);
    }
    assert(out@ =~= old(out)@ + pwd_params_ts_text(l@, i as int));
}

fn push_pwd_params_js(out: &mut String, l: &Vec<ParameterWithDocument>, i: usize)
    ensures
        final(out)@ == old(out)@ + pwd_params_js_text(l@, i as int),
    decreases l@.len() - i,
{
    if i >= l.len() {
        assert(out@ =~= old(out)@ + pwd_params_js_text(l@, i as int));
        return ;
    }
    push_identifer(out, &l[i].name);
    if i + 1 < l.len() {
        out.append(", ");
        push_pwd_params_js(out, l, i + 1);
    }
    assert(out@ =~= old(out)@ + pwd_params_js_text(l@, i as int));
}

fn push_body(out: &mut String, l: &Vec<Statement>, mode: &CodeType, ind: &String)
    ensures
        final(out)@ == old(out)@ + body_text(l@, *mode, ind@),
    decreases l@, l@.len() + 2int,
{
    if l.len() == 1 {
        match &l[0] {
            Statement::Return(e) => {
                out.append("(");
                push_expr(out, e, mode, ind, 0);
                out.append(")");
                assert(out@ =~= old(out)@ + body_text(l@, *mode, ind@));
                return ;
            },
            _ => {},
        }
    }
    push_block(out, l, mode, ind);
    assert(out@ =~= old(out)@ + body_text(l@, *mode, ind@));
}

fn push_block(out: &mut String, l: &Vec<Statement>, mode: &CodeType, ind: &String)
    ensures
        final(out)@ == old(out)@ + block_text(l@, *mode, ind@),
    decreases l@, l@.len() + 1int,
{
    out.append("{\n");
    let mut child = ind.clone();
    child.append("  ");
    push_statement_list(out, l, 0, mode, &child);
    out.append(ind.as_str());
    out.append("}");
    assert(out@ =~= old(out)@ + block_text(l@, *mode, ind@));
}

fn push_statement_list(out: &mut String, l: &Vec<Statement>, i: usize, mode: &CodeType, ind: &String)
    ensures
        final(out)@ == old(out)@ + statement_list_text(l@, i as int, *mode, ind@),
    decreases l@, l@.len() - i,
{
    if i >= l.len() {
        assert(out@ =~= old(out)@ + statement_list_text(l@, i as int, *mode, ind@));
        return ;
    }
    out.append(ind.as_str());
    push_statement(out, &l[i], mode, ind);
    out.append("\n");
    push_statement_list(out, l, i + 1, mode, ind);
    assert(out@ =~= old(out)@ + statement_list_text(l@, i as int, *mode, ind@));
}

#[verifier::rlimit(100)]
fn push_statement(out: &mut String, s: &Statement, mode: &CodeType, ind: &String)
    ensures
        final(out)@ == old(out)@ + statement_text(*s, *mode, ind@),
    decreases *s, 5int,
{
    match s {
        Statement::EvaluateExpr(e) => {
            push_expr(out, e, mode, ind, 0);
            out.append(";");
        },
        Statement::SetStatement(st) => {
            push_expr(out, &st.target, mode, ind, 0);
            match &st.operator_maybe {
                Option::None => {
                    out.append(" = ");
                },
                Option::Some(o) => {
                    out.append(" ");
                    push_bin_op(out, o);
                    out.append("= ");
                },
            }
            push_expr(out, &st.expr, mode, ind, 0);
            out.append(";");
        },
        Statement::If(i) => {
            out.append("if (");
            push_expr(out, &i.condition, mode, ind, 0);
            out.append(") ");
            push_block(out, &i.then_statement_list, mode, ind);
        },
        Statement::ThrowError(e) => {
            out.append("throw ");
            push_expr(out, e, mode, ind, 0);
            out.append(";");
        },
        Statement::Return(e) => {
            out.append("return ");
            push_expr(out, e, mode, ind, 0);
            out.append(";");
        },
        Statement::ReturnVoid => {
            out.append("return;");
        },
        Statement::Continue => {
            out.append("continue;");
        },
        Statement::VariableDefinition(v) => {
            if v.is_const {
                out.append("const ");
            } else {
                out.append("let ");
            }
            push_identifer(out, &v.name);
            match mode {
                CodeType::TypeScript => {
                    out.append(": ");
                    push_type(out, &v.type_);
                },
                CodeType::JavaScript => {},
            }
            out.append(" = ");
            push_expr(out, &v.expr, mode, ind, 0);
            out.append(";");
        },
        Statement::FunctionDefinition(f) => {
            out.append("const ");
            push_identifer(out, &f.name);
            out.append(" = ");
            match mode {
                CodeType::TypeScript => {
                    push_tp_part(out, &f.type_parameter_list);
                    out.append("(");
                    push_pwd_params_ts(out, &f.parameter_list, 0);
                    out.append("): ");
                    push_type(out, &f.return_type);
                    out.append(" => ");
                    push_body(out, &f.statement_list, mode, ind);
                },
                CodeType::JavaScript => {
                    out.append("(");
                    push_pwd_params_js(out, &f.parameter_list, 0);
                    out.append(") => ");
                    push_body(out, &f.statement_list, mode, ind);
                },
            }
            out.append(";");
        },
        Statement::For(f) => {
            out.append("for (let ");
            push_identifer(out, &f.counter_variable_name);
            out.append(" = 0; ");
            push_identifer(out, &f.counter_variable_name);
            out.append(" < ");
            push_expr(out, &f.until_expr, mode, ind, 11);
            out.append("; ");
            push_identifer(out, &f.counter_variable_name);
            out.append(" += 1) ");
            push_block(out, &f.statement_list, mode, ind);
        },
        Statement::ForOf(f) => {
            out.append("for (const ");
            push_identifer(out, &f.element_variable_name);
            out.append(" of ");
            push_expr(out, &f.iterable_expr, mode, ind, 0);
            out.append(") ");
            push_block(out, &f.statement_list, mode, ind);
        },
        Statement::WhileTrue(l) => {
            out.append("while (true) ");
            push_block(out, l, mode, ind);
        },
        Statement::Break => {
            out.append("break;");
        },
        Statement::Switch(sw) => {
            out.append("switch (");
            push_expr(out, &sw.expr, mode, ind, 0);
            out.append(") {\n");
            let mut child = ind.clone();
            child.append("  ");
            push_patterns(out, &sw.pattern_list, 0, mode, &child);
            out.append(ind.as_str());
            out.append("}");
        },
    }
    assert(out@ =~= old(out)@ + statement_text(*s, *mode, ind@));
}

fn push_patterns(out: &mut String, l: &Vec<Pattern>, i: usize, mode: &CodeType, ind: &String)
    ensures
        final(out)@ == old(out)@ + patterns_text(l@, i as int, *mode, ind@),
    decreases l@, l@.len() - i,
{
    if i >= l.len() {
        assert(out@ =~= old(out)@ + patterns_text(l@, i as int, *mode, ind@));
        return ;
    }
    out.append(ind.as_str());
    out.append("case ");
    push_quoted(out, l[i].case_string.as_str());
    out.append(": ");
    push_block(out, &l[i].statement_list, mode, ind);
    out.append("\n");
    push_patterns(out, l, i + 1, mode, ind);
    assert(out@ =~= old(out)@ + patterns_text(l@, i as int, *mode, ind@));
}

proof fn lemma_doc_body_push(s: Seq<char>, c: char)
    ensures
        doc_body_text(s.push(c)) == doc_body_text(s) + doc_char_text(c),
    decreases s.len(),
{
    if s.len() == 0 {
        assert(s.push(c).drop_first() =~= Seq::<char>::empty());
        assert(s.push(c)[0] == c);
        assert(doc_body_text(s.push(c)) == doc_char_text(c) + doc_body_text(Seq::<char>::empty()));
        assert(doc_body_text(s.push(c)) =~= doc_body_text(s) + doc_char_text(c));
    } else {
        assert(s.push(c).drop_first() =~= s.drop_first().push(c));
        lemma_doc_body_push(s.drop_first(), c);
        assert(doc_body_text(s.push(c)) =~= doc_body_text(s) + doc_char_text(c));
    }
}

fn push_doc_body(out: &mut String, s: &str)
    ensures
        final(out)@ == old(out)@ + doc_body_text(s@),
{
    let n = s.unicode_len();
    let mut i: usize = 0;
    #[verifier::loop_isolation(false)]
    while i < n
        invariant
            i <= n,
            out@ == old(out)@ + doc_body_text(s@.subrange(0, i as int)),
        decreases n - i,
    {
        let c = s.get_char(i);
        if c == '\n' {
            proof {
                reveal_strlit("\n * ");
            }
            out.append("\n * ");
        } else {
            push_char(out, c);
        }
        proof {
            assert(s@.subrange(0, i + 1 as int) =~= s@.subrange(0, i as int).push(s@[i as int]));
            lemma_doc_body_push(s@.subrange(0, i as int), s@[i as int]);
            assert(out@ =~= old(out)@ + doc_body_text(s@.subrange(0, i + 1 as int)));
        }
        i += 1;
    }
    proof {
        assert(s@.subrange(0, n as int) =~= s@);
    }
}

fn any_param_doc(params: &Vec<ParameterWithDocument>) -> (r: bool)
    ensures
        r == exists|j: int| 0 <= j < params@.len() && params@[j].document@.len() > 0,
{
    let mut i: usize = 0;
    #[verifier::loop_isolation(false)]
    while i < params.len()
        invariant
            i <= params@.len(),
            forall|j: int| 0 <= j < i ==> params@[j].document@.len() == 0,
        decreases params@.len() - i,
    {
        if params[i].document.as_str().unicode_len() > 0 {
            return true;
        }
        i += 1;
    }
    false
}

fn push_param_lines(out: &mut String, params: &Vec<ParameterWithDocument>, i: usize)
    ensures
        final(out)@ == old(out)@ + param_lines_text(params@, i as int),
    decreases params@.len() - i,
{
    if i >= params.len() {
        assert(out@ =~= old(out)@ + param_lines_text(params@, i as int));
        return ;
    }
    if params[i].document.as_str().unicode_len() > 0 {
        out.append(" * @param ");
        push_identifer(out, &params[i].name);
        out.append(" ");
        out.append(params[i].document.as_str());
        out.append("\n");
    }
    push_param_lines(out, params, i + 1);
    assert(out@ =~= old(out)@ + param_lines_text(params@, i as int));
}

fn push_jsdoc(out: &mut String, doc: &String, params: &Vec<ParameterWithDocument>)
    ensures
        final(out)@ == old(out)@ + jsdoc_text(doc@, params@),
{
    let has_doc = doc.as_str().unicode_len() > 0;
    if !has_doc && !any_param_doc(params) {
        assert(out@ =~= old(out)@ + jsdoc_text(doc@, params@));
        return ;
    }
    out.append("/**\n");
    if has_doc {
        out.append(" * ");
        push_doc_body(out, doc.as_str());
        out.append("\n");
    }
    push_param_lines(out, params, 0);
    out.append(" */\n");
    assert(out@ =~= old(out)@ + jsdoc_text(doc@, params@));
}

fn push_jsdoc_plain(out: &mut String, doc: &String)
    ensures
        final(out)@ == old(out)@ + jsdoc_text(doc@, Seq::empty()),
{
    if doc.as_str().unicode_len() == 0 {
        assert(out@ =~= old(out)@ + jsdoc_text(doc@, Seq::empty()));
        return ;
    }
    out.append("/**\n");
    out.append(" * ");
    push_doc_body(out, doc.as_str());
    out.append("\n");
    out.append(" */\n");
    assert(param_lines_text(Seq::<ParameterWithDocument>::empty(), 0) =~= Seq::<char>::empty());
    assert(out@ =~= old(out)@ + jsdoc_text(doc@, Seq::empty()));
}

#[verifier::rlimit(100)]
fn push_definition(out: &mut String, d: &ExportDefinition, mode: &CodeType)
    ensures
        final(out)@ == old(out)@ + definition_text(*d, *mode),
    decreases *d, 6int,
{
    let ind = String::new();
    match d {
        ExportDefinition::TypeAlias(a) => {
            match mode {
                CodeType::TypeScript => {
                    out.append("\n");
                    push_jsdoc_plain(out, &a.document);
                    out.append("export type ");
                    push_identifer(out, &a.name);
                    push_tp_part(out, &a.type_parameter_list);
                    out.append(" = ");
                    push_type(out, &a.type_);
                    out.append(";\n");
                },
                CodeType::JavaScript => {},
            }
        },
        ExportDefinition::Function(f) => {
            out.append("\n");
            push_jsdoc(out, &f.document, &f.parameter_list);
            out.append("export const ");
            push_identifer(out, &f.name);
            out.append(" = ");
            match mode {
                CodeType::TypeScript => {
                    push_tp_part(out, &f.type_parameter_list);
                    out.append("(");
                    push_pwd_params_ts(out, &f.parameter_list, 0);
                    out.append("): ");
                    push_type(out, &f.return_type);
                    out.append(" => ");
                    push_body(out, &f.statement_list, mode, &ind);
                },
                CodeType::JavaScript => {
                    out.append("(");
                    push_pwd_params_js(out, &f.parameter_list, 0);
                    out.append(") => ");
                    push_body(out, &f.statement_list, mode, &ind);
                },
            }
            out.append(";\n");
        },
        ExportDefinition::Variable(v) => {
            out.append("\n");
            push_jsdoc_plain(out, &v.document);
            out.append("export const ");
            push_identifer(out, &v.name);
            match mode {
                CodeType::TypeScript => {
                    out.append(": ");
                    push_type(out, &v.type_);
                },
                CodeType::JavaScript => {},
            }
            out.append(" = ");
            push_expr(out, &v.expr, mode, &ind, 0);
            out.append(";\n");
        },
    }
    assert(out@ =~= old(out)@ + definition_text(*d, *mode));
}

fn push_definition_list(out: &mut String, l: &Vec<ExportDefinition>, i: usize, mode: &CodeType)
    ensures
        final(out)@ == old(out)@ + definition_list_text(l@, i as int, *mode),
    decreases l@, l@.len() - i,
{
    if i >= l.len() {
        assert(out@ =~= old(out)@ + definition_list_text(l@, i as int, *mode));
        return ;
    }
    push_definition(out, &l[i], mode);
    if i + 1 < l.len() {
        out.append("\n\n");
        push_definition_list(out, l, i + 1, mode);
    }
    assert(out@ =~= old(out)@ + definition_list_text(l@, i as int, *mode));
}

fn mods_contains(acc: &Vec<String>, m: &String) -> (r: bool)
    ensures
        r == acc.deep_view().contains(m@),
{
    let mut i: usize = 0;
    #[verifier::loop_isolation(false)]
    while i < acc.len()
        invariant
            i <= acc@.len(),
            forall|j: int| 0 <= j < i ==> acc@[j]@ != m@,
        decreases acc@.len() - i,
    {
        if crate::text::str_equal(acc[i].as_str(), m.as_str()) {
            assert(acc.deep_view()[i as int] == m@);
            return true;
        }
        i += 1;
    }
    assert forall|j: int| 0 <= j < acc.deep_view().len() implies acc.deep_view()[j] != m@ by {
        assert(acc.deep_view()[j] == acc@[j]@);
    }
    false
}

fn add_module(acc: &mut Vec<String>, m: &String)
    ensures
        final(acc).deep_view() == acc_add(old(acc).deep_view(), m@),
{
    if !mods_contains(acc, m) {
        acc.push(m.clone());
        assert(acc.deep_view() =~= acc_add(old(acc).deep_view(), m@));
    }
}

fn add_mods_type(acc: &mut Vec<String>, t: &Type)
    ensures
        final(acc).deep_view() == mods_type(*t, old(acc).deep_view()),
    decreases *t, 1int,
{
    match t {
        Type::Object(members) => {
            add_mods_member_types(acc, members, 0);
        },
        Type::Function(ft) => {
            add_mods_types(acc, &ft.parameter_list, 0);
            add_mods_type(acc, &ft.return_type);
        },
        Type::WithTypeParameter(w) => {
            add_mods_type(acc, &w.type_);
            add_mods_types(acc, &w.type_parameter_list, 0);
        },
        Type::Union(l) => {
            add_mods_types(acc, l, 0);
        },
        Type::Intersection(it) => {
            add_mods_type(acc, &it.left);
            add_mods_type(acc, &it.right);
        },
        Type::ImportedType(it) => {
            add_module(acc, &it.module_name);
        },
        _ => {},
    }
}

fn add_mods_types(acc: &mut Vec<String>, l: &Vec<Type>, i: usize)
    ensures
        final(acc).deep_view() == mods_types(l@, i as int, old(acc).deep_view()),
    decreases l@, l@.len() - i,
{
    if i >= l.len() {
        return ;
    }
    add_mods_type(acc, &l[i]);
    add_mods_types(acc, l, i + 1);
}

fn add_mods_member_types(acc: &mut Vec<String>, l: &Vec<MemberType>, i: usize)
    ensures
        final(acc).deep_view() == mods_member_types(l@, i as int, old(acc).deep_view()),
    decreases l@, l@.len() - i,
{
    if i >= l.len() {
        return ;
    }
    add_mods_type(acc, &l[i].type_);
    add_mods_member_types(acc, l, i + 1);
}

fn add_mods_params(acc: &mut Vec<String>, l: &Vec<Parameter>, i: usize)
    ensures
        final(acc).deep_view() == mods_params(l@, i as int, old(acc).deep_view()),
    decreases l@, l@.len() - i,
{
    if i >= l.len() {
        return ;
    }
    add_mods_type(acc, &l[i].type_);
    add_mods_params(acc, l, i + 1);
}

fn add_mods_pwd_params(acc: &mut Vec<String>, l: &Vec<ParameterWithDocument>, i: usize)
    ensures
        final(acc).deep_view() == mods_pwd_params(l@, i as int, old(acc).deep_view()),
    decreases l@, l@.len() - i,
{
    if i >= l.len() {
        return ;
    }
    add_mods_type(acc, &l[i].type_);
    add_mods_pwd_params(acc, l, i + 1);
}

fn add_mods_expr(acc: &mut Vec<String>, e: &Expr, mode: &CodeType)
    ensures
        final(acc).deep_view() == mods_expr(*e, *mode, old(acc).deep_view()),
    decreases *e, 2int,
{
    match e {
        Expr::UnaryOperator(u) => {
            add_mods_expr(acc, &u.expr, mode);
        },
        Expr::BinaryOperator(b) => {
            add_mods_expr(acc, &b.left, mode);
            add_mods_expr(acc, &b.right, mode);
        },
        Expr::ConditionalOperator(c) => {
            add_mods_expr(acc, &c.condition, mode);
            add_mods_expr(acc, &c.then_expr, mode);
            add_mods_expr(acc, &c.else_expr, mode);
        },
        Expr::ArrayLiteral(items) => {
            add_mods_array_items(acc, items, 0, mode);
        },
        Expr::ObjectLiteral(members) => {
            add_mods_members(acc, members, 0, mode);
        },
        Expr::Lambda(l) => {
            match mode {
                CodeType::TypeScript => {
                    add_mods_params(acc, &l.parameter_list, 0);
                    add_mods_type(acc, &l.return_type);
                    add_mods_stmts(acc, &l.statement_list, 0, mode);
                },
                CodeType::JavaScript => {
                    add_mods_stmts(acc, &l.statement_list, 0, mode);
                },
            }
        },
        Expr::ImportedVariable(iv) => {
            add_module(acc, &iv.module_name);
        },
        Expr::Get(g) => {
            add_mods_expr(acc, &g.expr, mode);
            add_mods_expr(acc, &g.property_expr, mode);
        },
        Expr::Call(c) => {
            add_mods_expr(acc, &c.expr, mode);
            add_mods_args(acc, &c.parameter_list, 0, mode);
        },
        Expr::New(c) => {
            add_mods_expr(acc, &c.expr, mode);
            add_mods_args(acc, &c.parameter_list, 0, mode);
        },
        Expr::TypeAssertion(t) => {
            match mode {
                CodeType::TypeScript => {
                    add_mods_expr(acc, &t.expr, mode);
                    add_mods_type(acc, &t.type_);
                },
                CodeType::JavaScript => {
                    add_mods_expr(acc, &t.expr, mode);
                },
            }
        },
        _ => {},
    }
}

fn add_mods_args(acc: &mut Vec<String>, l: &Vec<Expr>, i: usize, mode: &CodeType)
    ensures
        final(acc).deep_view() == mods_args(l@, i as int, *mode, old(acc).deep_view()),
    decreases l@, l@.len() - i,
{
    if i >= l.len() {
        return ;
    }
    add_mods_expr(acc, &l[i], mode);
    add_mods_args(acc, l, i + 1, mode);
}

fn add_mods_array_items(acc: &mut Vec<String>, l: &Vec<ArrayItem>, i: usize, mode: &CodeType)
    ensures
        final(acc).deep_view() == mods_array_items(l@, i as int, *mode, old(acc).deep_view()),
    decreases l@, l@.len() - i,
{
    if i >= l.len() {
        return ;
    }
    add_mods_expr(acc, &l[i].expr, mode);
    add_mods_array_items(acc, l, i + 1, mode);
}

fn add_mods_members(acc: &mut Vec<String>, l: &Vec<Member>, i: usize, mode: &CodeType)
    ensures
        final(acc).deep_view() == mods_members(l@, i as int, *mode, old(acc).deep_view()),
    decreases l@, l@.len() - i,
{
    if i >= l.len() {
        return ;
    }
    match &l[i] {
        Member::Spread(e) => {
            add_mods_expr(acc, e, mode);
        },
        Member::KeyValue(kv) => {
            add_mods_expr(acc, &kv.value, mode);
        },
    }
    add_mods_members(acc, l, i + 1, mode);
}

fn add_mods_stmt(acc: &mut Vec<String>, st: &Statement, mode: &CodeType)
    ensures
        final(acc).deep_view() == mods_stmt(*st, *mode, old(acc).deep_view()),
    decreases *st, 3int,
{
    match st {
        Statement::EvaluateExpr(e) => {
            add_mods_expr(acc, e, mode);
        },
        Statement::SetStatement(s) => {
            add_mods_expr(acc, &s.target, mode);
            add_mods_expr(acc, &s.expr, mode);
        },
        Statement::If(i) => {
            add_mods_expr(acc, &i.condition, mode);
            add_mods_stmts(acc, &i.then_statement_list, 0, mode);
        },
        Statement::ThrowError(e) => {
            add_mods_expr(acc, e, mode);
        },
        Statement::Return(e) => {
            add_mods_expr(acc, e, mode);
        },
        Statement::VariableDefinition(v) => {
            match mode {
                CodeType::TypeScript => {
                    add_mods_type(acc, &v.type_);
                    add_mods_expr(acc, &v.expr, mode);
                },
                CodeType::JavaScript => {
                    add_mods_expr(acc, &v.expr, mode);
                },
            }
        },
        Statement::FunctionDefinition(f) => {
            match mode {
                CodeType::TypeScript => {
                    add_mods_pwd_params(acc, &f.parameter_list, 0);
                    add_mods_type(acc, &f.return_type);
                    add_mods_stmts(acc, &f.statement_list, 0, mode);
                },
                CodeType::JavaScript => {
                    add_mods_stmts(acc, &f.statement_list, 0, mode);
                },
            }
        },
        Statement::For(f) => {
            add_mods_expr(acc, &f.until_expr, mode);
            add_mods_stmts(acc, &f.statement_list, 0, mode);
        },
        Statement::ForOf(f) => {
            add_mods_expr(acc, &f.iterable_expr, mode);
            add_mods_stmts(acc, &f.statement_list, 0, mode);
        },
        Statement::WhileTrue(l) => {
            add_mods_stmts(acc, l, 0, mode);
        },
        Statement::Switch(sw) => {
            add_mods_expr(acc, &sw.expr, mode);
            add_mods_patterns(acc, &sw.pattern_list, 0, mode);
        },
        _ => {},
    }
}

fn add_mods_stmts(acc: &mut Vec<String>, l: &Vec<Statement>, i: usize, mode: &CodeType)
    ensures
        final(acc).deep_view() == mods_stmts(l@, i as int, *mode, old(acc).deep_view()),
    decreases l@, l@.len() - i,
{
    if i >= l.len() {
        return ;
    }
    add_mods_stmt(acc, &l[i], mode);
    add_mods_stmts(acc, l, i + 1, mode);
}

fn add_mods_patterns(acc: &mut Vec<String>, l: &Vec<Pattern>, i: usize, mode: &CodeType)
    ensures
        final(acc).deep_view() == mods_patterns(l@, i as int, *mode, old(acc).deep_view()),
    decreases l@, l@.len() - i,
{
    if i >= l.len() {
        return ;
    }
    add_mods_stmts(acc, &l[i].statement_list, 0, mode);
    add_mods_patterns(acc, l, i + 1, mode);
}

fn add_mods_def(acc: &mut Vec<String>, d: &ExportDefinition, mode: &CodeType)
    ensures
        final(acc).deep_view() == mods_def(*d, *mode, old(acc).deep_view()),
    decreases *d, 7int,
{
    match d {
        ExportDefinition::TypeAlias(a) => {
            match mode {
                CodeType::TypeScript => {
                    add_mods_type(acc, &a.type_);
                },
                CodeType::JavaScript => {},
            }
        },
        ExportDefinition::Function(f) => {
            match mode {
                CodeType::TypeScript => {
                    add_mods_pwd_params(acc, &f.parameter_list, 0);
                    add_mods_type(acc, &f.return_type);
                    add_mods_stmts(acc, &f.statement_list, 0, mode);
                },
                CodeType::JavaScript => {
                    add_mods_stmts(acc, &f.statement_list, 0, mode);
                },
            }
        },
        ExportDefinition::Variable(v) => {
            match mode {
                CodeType::TypeScript => {
                    add_mods_type(acc, &v.type_);
                    add_mods_expr(acc, &v.expr, mode);
                },
                CodeType::JavaScript => {
                    add_mods_expr(acc, &v.expr, mode);
                },
            }
        },
    }
}

fn add_mods_defs(acc: &mut Vec<String>, l: &Vec<ExportDefinition>, i: usize, mode: &CodeType)
    ensures
        final(acc).deep_view() == mods_defs(l@, i as int, *mode, old(acc).deep_view()),
    decreases l@, l@.len() - i,
{
    if i >= l.len() {
        return ;
    }
    add_mods_def(acc, &l[i], mode);
    add_mods_defs(acc, l, i + 1, mode);
}

fn push_import_lines(out: &mut String, mods: &Vec<String>, i: usize)
    ensures
        final(out)@ == old(out)@ + import_lines_text(mods.deep_view(), i as int),
    decreases mods@.len() - i,
{
    if i >= mods.len() {
        assert(out@ =~= old(out)@ + import_lines_text(mods.deep_view(), i as int));
        return ;
    }
    out.append("import * as ");
    push_alias(out, &mods[i]);
    out.append(" from ");
    push_quoted(out, mods[i].as_str());
    out.append(";\n");
    push_import_lines(out, mods, i + 1);
    assert(mods.deep_view()[i as int] == mods@[i as int]@);
    assert(out@ =~= old(out)@ + import_lines_text(mods.deep_view(), i as int));
}

/// Render the code as JavaScript or TypeScript source text.  The result is
/// exactly [`code_text`] of the input, so rendering is a pure function of
/// the tree and the output mode: equal trees give byte-identical text.
pub fn to_string(code: &Code, code_type: &CodeType) -> (r: String)
    ensures
        r@ == code_text(*code, *code_type),
{
    let mut out = String::new();
    out.append("/* eslint-disable */\n/* generated by js-ts-code-generator. Do not edit! */\n");
    out.append("\n");
    let mut mods: Vec<String> = Vec::new();
    assert(mods.deep_view() =~= Seq::<Seq<char>>::empty());
    add_mods_defs(&mut mods, &code.export_definition_list, 0, code_type);
    add_mods_stmts(&mut mods, &code.statement_list, 0, code_type);
    assert(mods.deep_view() == code_modules(*code, *code_type));
    assert(mods@.len() == mods.deep_view().len());
    if mods.len() > 0 {
        push_import_lines(&mut out, &mods, 0);
        out.append("\n");
    }
    push_definition_list(&mut out, &code.export_definition_list, 0, code_type);
    if code.statement_list.len() > 0 {
        out.append("\n");
        let ind = String::new();
        push_block(&mut out, &code.statement_list, code_type, &ind);
    }
    assert(out@ =~= code_text(*code, *code_type));
    out
}

fn push_type(out: &mut String, t: &Type)
    ensures
        final(out)@ == old(out)@ + type_text(*t),
    decreases *t, 1int,
{
    match t {
        Type::Number => {
            out.append("number");
        },
        Type::String => {
            out.append("string");
        },
        Type::Boolean => {
            out.append("boolean");
        },
        Type::Undefined => {
            out.append("undefined");
        },
        Type::Null => {
            out.append("null");
        },
        Type::Never => {
            out.append("never");
        },
        Type::Void => {
            out.append("void");
        },
        Type::Object(members) => {
            if members.len() == 0 {
                out.append("{}");
            } else {
                out.append("{ ");
                push_member_types(out, members, 0);
                out.append(" }");
            }
        },
        Type::Function(ft) => {
            push_tp_part(out, &ft.type_parameter_list);
            out.append("(");
            push_fn_type_params(out, &ft.parameter_list, 0);
            out.append(") => ");
            push_type(out, &ft.return_type);
        },
        Type::WithTypeParameter(w) => {
            push_type(out, &w.type_);
            if w.type_parameter_list.len() > 0 {
                out.append("<");
                push_types_comma(out, &w.type_parameter_list, 0);
                out.append(">");
            }
        },
        Type::Union(l) => {
            push_types_pipe(out, l, 0);
        },
        Type::Intersection(it) => {
            push_type(out, &it.left);
            out.append(" & ");
            push_type(out, &it.right);
        },
        Type::ImportedType(it) => {
            push_alias(out, &it.module_name);
            out.append(".");
            push_identifer(out, &it.name);
        },
        Type::ScopeInFile(id) => {
            push_identifer(out, id);
        },
        Type::ScopeInGlobal(id) => {
            push_identifer(out, id);
        },
        Type::StringLiteral(s) => {
            push_quoted(out, s.as_str());
        },
    }
    assert(out@ =~= old(out)@ + type_text(*t));
}

fn push_member_types(out: &mut String, l: &Vec<MemberType>, i: usize)
    ensures
        final(out)@ == old(out)@ + member_types_text(l@, i as int),
    decreases l@, l@.len() - i,
{
    if i >= l.len() {
        assert(out@ =~= old(out)@ + member_types_text(l@, i as int));
        return ;
    }
    let m = &l[i];
    if identifer::is_safe_property_name(m.name.as_str()) {
        out.append(m.name.as_str());
    } else {
        push_quoted(out, m.name.as_str());
    }
    if !m.required {
        out.append("?");
    }
    out.append(": ");
    push_type(out, &m.type_);
    if i + 1 < l.len() {
        out.append("; ");
        push_member_types(out, l, i + 1);
    }
    assert(out@ =~= old(out)@ + member_types_text(l@, i as int));
}

fn push_fn_type_params(out: &mut String, l: &Vec<Type>, i: usize)
    ensures
        final(out)@ == old(out)@ + fn_type_params_text(l@, i as int),
    decreases l@, l@.len() - i,
{
    if i >= l.len() {
        assert(out@ =~= old(out)@ + fn_type_params_text(l@, i as int));
        return ;
    }
    out.append("p");
    push_udec(out, i as u64);
    out.append(": ");
    push_type(out, &l[i]);
    if i + 1 < l.len() {
        out.append(", ");
        push_fn_type_params(out, l, i + 1);
    }
    assert(out@ =~= old(out)@ + fn_type_params_text(l@, i as int));
}

fn push_types_comma(out: &mut String, l: &Vec<Type>, i: usize)
    ensures
        final(out)@ == old(out)@ + types_comma_text(l@, i as int),
    decreases l@, l@.len() - i,
{
    if i >= l.len() {
        assert(out@ =~= old(out)@ + types_comma_text(l@, i as int));
        return ;
    }
    push_type(out, &l[i]);
    if i + 1 < l.len() {
        out.append(", ");
        push_types_comma(out, l, i + 1);
    }
    assert(out@ =~= old(out)@ + types_comma_text(l@, i as int));
}

fn push_types_pipe(out: &mut String, l: &Vec<Type>, i: usize)
    ensures
        final(out)@ == old(out)@ + types_pipe_text(l@, i as int),
    decreases l@, l@.len() - i,
{
    if i >= l.len() {
        assert(out@ =~= old(out)@ + types_pipe_text(l@, i as int));
        return ;
    }
    push_type(out, &l[i]);
    if i + 1 < l.len() {
        out.append(" | ");
        push_types_pipe(out, l, i + 1);
    }
    assert(out@ =~= old(out)@ + types_pipe_text(l@, i as int));
}

/// Rendering is deterministic: the output is a pure function of the tree
/// and the output mode, so equal trees rendered in the same mode give
/// byte-identical text.
pub proof fn lemma_render_deterministic(a: Code, b: Code, mode: CodeType)
    requires
        a == b,
    ensures
        code_text(a, mode) == code_text(b, mode),
{
}

/// Property-name classification governs property printing: a string-literal
/// property that is a safe property name is printed in dot notation, any
/// other string literal in quoted bracket notation, and any other property
/// expression in bracket notation.
pub proof fn lemma_property_access_choice(p: Expr, mode: CodeType, ind: Seq<char>)
    ensures
        p is StringLiteral && spec_is_safe_property_name(p->StringLiteral_0@) ==> property_text(
            p,
            mode,
            ind,
        ) == "."@ + p->StringLiteral_0@,
        p is StringLiteral && !spec_is_safe_property_name(p->StringLiteral_0@) ==> property_text(
            p,
            mode,
            ind,
        ) == "["@ + quoted_text(p->StringLiteral_0@) + "]"@,
        !(p is StringLiteral) ==> property_text(p, mode, ind) == "["@ + expr_text(p, mode, ind, 0)
            + "]"@,
{
}

/// Whether a collected module list holds no module twice.
pub open spec fn no_dup_mods(l: Seq<Seq<char>>) -> bool {
    forall|i: int, j: int| 0 <= i < j < l.len() ==> l[i] != l[j]
}

/// Whether a type references the module named `m`.
pub open spec fn refs_type(t: Type, m: Seq<char>) -> bool
    decreases t, 1int,
{
    match t {
        Type::Object(members) => refs_member_types(members@, 0, m),
        Type::Function(ft) => refs_types(ft.parameter_list@, 0, m) || refs_type(
            ft.return_type,
            m,
        ),
        Type::WithTypeParameter(w) => refs_type(w.type_, m) || refs_types(
            w.type_parameter_list@,
            0,
            m,
        ),
        Type::Union(l) => refs_types(l@, 0, m),
        Type::Intersection(it) => refs_type(it.left, m) || refs_type(it.right, m),
        Type::ImportedType(it) => it.module_name@ == m,
        _ => false,
    }
}

pub open spec fn refs_types(l: Seq<Type>, i: int, m: Seq<char>) -> bool
    decreases l, l.len() - i,
{
    if i < 0 || i >= l.len() {
        false
    } else {
        refs_type(l[i], m) || refs_types(l, i + 1, m)
    }
}

pub open spec fn refs_member_types(l: Seq<MemberType>, i: int, m: Seq<char>) -> bool
    decreases l, l.len() - i,
{
    if i < 0 || i >= l.len() {
        false
    } else {
        refs_type(l[i].type_, m) || refs_member_types(l, i + 1, m)
    }
}

pub open spec fn refs_params(l: Seq<Parameter>, i: int, m: Seq<char>) -> bool
    decreases l, l.len() - i,
{
    if i < 0 || i >= l.len() {
        false
    } else {
        refs_type(l[i].type_, m) || refs_params(l, i + 1, m)
    }
}

pub open spec fn refs_pwd_params(l: Seq<ParameterWithDocument>, i: int, m: Seq<char>) -> bool
    decreases l, l.len() - i,
{
    if i < 0 || i >= l.len() {
        false
    } else {
        refs_type(l[i].type_, m) || refs_pwd_params(l, i + 1, m)
    }
}

/// Whether an expression references the module named `m` in a position the
/// given mode scans: type positions count only in TypeScript.
pub open spec fn refs_expr(e: Expr, mode: CodeType, m: Seq<char>) -> bool
    decreases e, 2int,
{
    match e {
        Expr::UnaryOperator(u) => refs_expr(u.expr, mode, m),
        Expr::BinaryOperator(b) => refs_expr(b.left, mode, m) || refs_expr(b.right, mode, m),
        Expr::ConditionalOperator(c) => refs_expr(c.condition, mode, m) || refs_expr(
            c.then_expr,
            mode,
            m,
        ) || refs_expr(c.else_expr, mode, m),
        Expr::ArrayLiteral(items) => refs_array_items(items@, 0, mode, m),
        Expr::ObjectLiteral(members) => refs_members(members@, 0, mode, m),
        Expr::Lambda(l) => {
            match mode {
                CodeType::TypeScript => refs_params(l.parameter_list@, 0, m) || refs_type(
                    l.return_type,
                    m,
                ) || refs_stmts(l.statement_list@, 0, mode, m),
                CodeType::JavaScript => refs_stmts(l.statement_list@, 0, mode, m),
            }
        },
        Expr::ImportedVariable(iv) => iv.module_name@ == m,
        Expr::Get(g) => refs_expr(g.expr, mode, m) || refs_expr(g.property_expr, mode, m),
        Expr::Call(c) => refs_expr(c.expr, mode, m) || refs_args(c.parameter_list@, 0, mode, m),
        Expr::New(c) => refs_expr(c.expr, mode, m) || refs_args(c.parameter_list@, 0, mode, m),
        Expr::TypeAssertion(t) => {
            match mode {
                CodeType::TypeScript => refs_expr(t.expr, mode, m) || refs_type(t.type_, m),
                CodeType::JavaScript => refs_expr(t.expr, mode, m),
            }
        },
        _ => false,
    }
}

pub open spec fn refs_args(l: Seq<Expr>, i: int, mode: CodeType, m: Seq<char>) -> bool
    decreases l, l.len() - i,
{
    if i < 0 || i >= l.len() {
        false
    } else {
        refs_expr(l[i], mode, m) || refs_args(l, i + 1, mode, m)
    }
}

pub open spec fn refs_array_items(l: Seq<ArrayItem>, i: int, mode: CodeType, m: Seq<char>) -> bool
    decreases l, l.len() - i,
{
    if i < 0 || i >= l.len() {
        false
    } else {
        refs_expr(l[i].expr, mode, m) || refs_array_items(l, i + 1, mode, m)
    }
}

pub open spec fn refs_members(l: Seq<Member>, i: int, mode: CodeType, m: Seq<char>) -> bool
    decreases l, l.len() - i,
{
    if i < 0 || i >= l.len() {
        false
    } else {
        (match l[i] {
            Member::Spread(e) => refs_expr(e, mode, m),
            Member::KeyValue(kv) => refs_expr(kv.value, mode, m),
        }) || refs_members(l, i + 1, mode, m)
    }
}

/// Whether a statement references the module named `m`.
pub open spec fn refs_stmt(st: Statement, mode: CodeType, m: Seq<char>) -> bool
    decreases st, 3int,
{
    match st {
        Statement::EvaluateExpr(e) => refs_expr(e, mode, m),
        Statement::SetStatement(s) => refs_expr(s.target, mode, m) || refs_expr(s.expr, mode, m),
        Statement::If(i) => refs_expr(i.condition, mode, m) || refs_stmts(
            i.then_statement_list@,
            0,
            mode,
            m,
        ),
        Statement::ThrowError(e) => refs_expr(e, mode, m),
        Statement::Return(e) => refs_expr(e, mode, m),
        Statement::VariableDefinition(v) => {
            match mode {
                CodeType::TypeScript => refs_type(v.type_, m) || refs_expr(v.expr, mode, m),
                CodeType::JavaScript => refs_expr(v.expr, mode, m),
            }
        },
        Statement::FunctionDefinition(f) => {
            match mode {
                CodeType::TypeScript => refs_pwd_params(f.parameter_list@, 0, m) || refs_type(
                    f.return_type,
                    m,
                ) || refs_stmts(f.statement_list@, 0, mode, m),
                CodeType::JavaScript => refs_stmts(f.statement_list@, 0, mode, m),
            }
        },
        Statement::For(f) => refs_expr(f.until_expr, mode, m) || refs_stmts(
            f.statement_list@,
            0,
            mode,
            m,
        ),
        Statement::ForOf(f) => refs_expr(f.iterable_expr, mode, m) || refs_stmts(
            f.statement_list@,
            0,
            mode,
            m,
        ),
        Statement::WhileTrue(l) => refs_stmts(l@, 0, mode, m),
        Statement::Switch(sw) => refs_expr(sw.expr, mode, m) || refs_patterns(
            sw.pattern_list@,
            0,
            mode,
            m,
        ),
        _ => false,
    }
}

pub open spec fn refs_stmts(l: Seq<Statement>, i: int, mode: CodeType, m: Seq<char>) -> bool
    decreases l, l.len() - i,
{
    if i < 0 || i >= l.len() {
        false
    } else {
        refs_stmt(l[i], mode, m) || refs_stmts(l, i + 1, mode, m)
    }
}

pub open spec fn refs_patterns(l: Seq<Pattern>, i: int, mode: CodeType, m: Seq<char>) -> bool
    decreases l, l.len() - i,
{
    if i < 0 || i >= l.len() {
        false
    } else {
        refs_stmts(l[i].statement_list@, 0, mode, m) || refs_patterns(l, i + 1, mode, m)
    }
}

/// Whether an export definition references the module named `m`.
pub open spec fn refs_def(d: ExportDefinition, mode: CodeType, m: Seq<char>) -> bool
    decreases d, 7int,
{
    match d {
        ExportDefinition::TypeAlias(a) => {
            match mode {
                CodeType::TypeScript => refs_type(a.type_, m),
                CodeType::JavaScript => false,
            }
        },
        ExportDefinition::Function(f) => {
            match mode {
                CodeType::TypeScript => refs_pwd_params(f.parameter_list@, 0, m) || refs_type(
                    f.return_type,
                    m,
                ) || refs_stmts(f.statement_list@, 0, mode, m),
                CodeType::JavaScript => refs_stmts(f.statement_list@, 0, mode, m),
            }
        },
        ExportDefinition::Variable(v) => {
            match mode {
                CodeType::TypeScript => refs_type(v.type_, m) || refs_expr(v.expr, mode, m),
                CodeType::JavaScript => refs_expr(v.expr, mode, m),
            }
        },
    }
}

pub open spec fn refs_defs(l: Seq<ExportDefinition>, i: int, mode: CodeType, m: Seq<char>) -> bool
    decreases l, l.len() - i,
{
    if i < 0 || i >= l.len() {
        false
    } else {
        refs_def(l[i], mode, m) || refs_defs(l, i + 1, mode, m)
    }
}

/// Whether the code references the module named `m` in a position the mode
/// scans.
pub open spec fn refs_code(c: Code, mode: CodeType, m: Seq<char>) -> bool {
    refs_defs(c.export_definition_list@, 0, mode, m) || refs_stmts(c.statement_list@, 0, mode, m)
}

proof fn lemma_acc_add_contains(acc: Seq<Seq<char>>, added: Seq<char>, m: Seq<char>)
    ensures
        acc_add(acc, added).contains(m) == (acc.contains(m) || added == m),
{
    if acc.contains(added) {
        if added == m {
        }
    } else {
        let r = acc.push(added);
        if acc.contains(m) {
            let j = choose|j: int| 0 <= j < acc.len() && acc[j] == m;
            assert(r[j] == m);
            assert(r.contains(m));
        }
        if added == m {
            assert(r[acc.len() as int] == m);
            assert(r.contains(m));
        }
        if r.contains(m) {
            let j = choose|j: int| 0 <= j < r.len() && r[j] == m;
            if j < acc.len() {
                assert(acc[j] == m);
            }
        }
    }
}

proof fn lemma_mods_type_refs(t: Type, acc: Seq<Seq<char>>, m: Seq<char>)
    ensures
        mods_type(t, acc).contains(m) == (acc.contains(m) || refs_type(t, m)),
    decreases t, 1int,
{
    match t {
        Type::Object(members) => {
            lemma_mods_member_types_refs(members@, 0, acc, m);
        },
        Type::Function(ft) => {
            lemma_mods_types_refs(ft.parameter_list@, 0, acc, m);
            lemma_mods_type_refs(ft.return_type, mods_types(ft.parameter_list@, 0, acc), m);
        },
        Type::WithTypeParameter(w) => {
            lemma_mods_type_refs(w.type_, acc, m);
            lemma_mods_types_refs(w.type_parameter_list@, 0, mods_type(w.type_, acc), m);
        },
        Type::Union(l) => {
            lemma_mods_types_refs(l@, 0, acc, m);
        },
        Type::Intersection(it) => {
            lemma_mods_type_refs(it.left, acc, m);
            lemma_mods_type_refs(it.right, mods_type(it.left, acc), m);
        },
        Type::ImportedType(it) => {
            lemma_acc_add_contains(acc, it.module_name@, m);
        },
        _ => {},
    }
}

proof fn lemma_mods_types_refs(l: Seq<Type>, i: int, acc: Seq<Seq<char>>, m: Seq<char>)
    ensures
        mods_types(l, i, acc).contains(m) == (acc.contains(m) || refs_types(l, i, m)),
    decreases l, l.len() - i,
{
    if 0 <= i < l.len() {
        lemma_mods_type_refs(l[i], acc, m);
        lemma_mods_types_refs(l, i + 1, mods_type(l[i], acc), m);
    }
}

proof fn lemma_mods_member_types_refs(l: Seq<MemberType>, i: int, acc: Seq<Seq<char>>, m: Seq<char>)
    ensures
        mods_member_types(l, i, acc).contains(m) == (acc.contains(m) || refs_member_types(l, i, m)),
    decreases l, l.len() - i,
{
    if 0 <= i < l.len() {
        lemma_mods_type_refs(l[i].type_, acc, m);
        lemma_mods_member_types_refs(l, i + 1, mods_type(l[i].type_, acc), m);
    }
}

proof fn lemma_mods_params_refs(l: Seq<Parameter>, i: int, acc: Seq<Seq<char>>, m: Seq<char>)
    ensures
        mods_params(l, i, acc).contains(m) == (acc.contains(m) || refs_params(l, i, m)),
    decreases l, l.len() - i,
{
    if 0 <= i < l.len() {
        lemma_mods_type_refs(l[i].type_, acc, m);
        lemma_mods_params_refs(l, i + 1, mods_type(l[i].type_, acc), m);
    }
}

proof fn lemma_mods_pwd_params_refs(
    l: Seq<ParameterWithDocument>,
    i: int,
    acc: Seq<Seq<char>>,
    m: Seq<char>,
)
    ensures
        mods_pwd_params(l, i, acc).contains(m) == (acc.contains(m) || refs_pwd_params(l, i, m)),
    decreases l, l.len() - i,
{
    if 0 <= i < l.len() {
        lemma_mods_type_refs(l[i].type_, acc, m);
        lemma_mods_pwd_params_refs(l, i + 1, mods_type(l[i].type_, acc), m);
    }
}

proof fn lemma_mods_expr_refs(e: Expr, mode: CodeType, acc: Seq<Seq<char>>, m: Seq<char>)
    ensures
        mods_expr(e, mode, acc).contains(m) == (acc.contains(m) || refs_expr(e, mode, m)),
    decreases e, 2int,
{
    match e {
        Expr::UnaryOperator(u) => {
            lemma_mods_expr_refs(u.expr, mode, acc, m);
        },
        Expr::BinaryOperator(b) => {
            lemma_mods_expr_refs(b.left, mode, acc, m);
            lemma_mods_expr_refs(b.right, mode, mods_expr(b.left, mode, acc), m);
        },
        Expr::ConditionalOperator(c) => {
            lemma_mods_expr_refs(c.condition, mode, acc, m);
            lemma_mods_expr_refs(c.then_expr, mode, mods_expr(c.condition, mode, acc), m);
            lemma_mods_expr_refs(
                c.else_expr,
                mode,
                mods_expr(c.then_expr, mode, mods_expr(c.condition, mode, acc)),
                m,
            );
        },
        Expr::ArrayLiteral(items) => {
            lemma_mods_array_items_refs(items@, 0, mode, acc, m);
        },
        Expr::ObjectLiteral(members) => {
            lemma_mods_members_refs(members@, 0, mode, acc, m);
        },
        Expr::Lambda(l) => {
            match mode {
                CodeType::TypeScript => {
                    lemma_mods_params_refs(l.parameter_list@, 0, acc, m);
                    lemma_mods_type_refs(l.return_type, mods_params(l.parameter_list@, 0, acc), m);
                    lemma_mods_stmts_refs(
                        l.statement_list@,
                        0,
                        mode,
                        mods_type(l.return_type, mods_params(l.parameter_list@, 0, acc)),
                        m,
                    );
                },
                CodeType::JavaScript => {
                    lemma_mods_stmts_refs(l.statement_list@, 0, mode, acc, m);
                },
            }
        },
        Expr::ImportedVariable(iv) => {
            lemma_acc_add_contains(acc, iv.module_name@, m);
        },
        Expr::Get(g) => {
            lemma_mods_expr_refs(g.expr, mode, acc, m);
            lemma_mods_expr_refs(g.property_expr, mode, mods_expr(g.expr, mode, acc), m);
        },
        Expr::Call(c) => {
            lemma_mods_expr_refs(c.expr, mode, acc, m);
            lemma_mods_args_refs(c.parameter_list@, 0, mode, mods_expr(c.expr, mode, acc), m);
        },
        Expr::New(c) => {
            lemma_mods_expr_refs(c.expr, mode, acc, m);
            lemma_mods_args_refs(c.parameter_list@, 0, mode, mods_expr(c.expr, mode, acc), m);
        },
        Expr::TypeAssertion(t) => {
            lemma_mods_expr_refs(t.expr, mode, acc, m);
            match mode {
                CodeType::TypeScript => {
                    lemma_mods_type_refs(t.type_, mods_expr(t.expr, mode, acc), m);
                },
                CodeType::JavaScript => {},
            }
        },
        _ => {},
    }
}

proof fn lemma_mods_args_refs(l: Seq<Expr>, i: int, mode: CodeType, acc: Seq<Seq<char>>, m: Seq<char>)
    ensures
        mods_args(l, i, mode, acc).contains(m) == (acc.contains(m) || refs_args(l, i, mode, m)),
    decreases l, l.len() - i,
{
    if 0 <= i < l.len() {
        lemma_mods_expr_refs(l[i], mode, acc, m);
        lemma_mods_args_refs(l, i + 1, mode, mods_expr(l[i], mode, acc), m);
    }
}

proof fn lemma_mods_array_items_refs(
    l: Seq<ArrayItem>,
    i: int,
    mode: CodeType,
    acc: Seq<Seq<char>>,
    m: Seq<char>,
)
    ensures
        mods_array_items(l, i, mode, acc).contains(m) == (acc.contains(m) || refs_array_items(
            l,
            i,
            mode,
            m,
        )),
    decreases l, l.len() - i,
{
    if 0 <= i < l.len() {
        lemma_mods_expr_refs(l[i].expr, mode, acc, m);
        lemma_mods_array_items_refs(l, i + 1, mode, mods_expr(l[i].expr, mode, acc), m);
    }
}

proof fn lemma_mods_members_refs(
    l: Seq<Member>,
    i: int,
    mode: CodeType,
    acc: Seq<Seq<char>>,
    m: Seq<char>,
)
    ensures
        mods_members(l, i, mode, acc).contains(m) == (acc.contains(m) || refs_members(
            l,
            i,
            mode,
            m,
        )),
    decreases l, l.len() - i,
{
    if 0 <= i < l.len() {
        match l[i] {
            Member::Spread(e) => {
                lemma_mods_expr_refs(e, mode, acc, m);
                lemma_mods_members_refs(l, i + 1, mode, mods_expr(e, mode, acc), m);
            },
            Member::KeyValue(kv) => {
                lemma_mods_expr_refs(kv.value, mode, acc, m);
                lemma_mods_members_refs(l, i + 1, mode, mods_expr(kv.value, mode, acc), m);
            },
        }
    }
}

proof fn lemma_mods_stmt_refs(st: Statement, mode: CodeType, acc: Seq<Seq<char>>, m: Seq<char>)
    ensures
        mods_stmt(st, mode, acc).contains(m) == (acc.contains(m) || refs_stmt(st, mode, m)),
    decreases st, 3int,
{
    match st {
        Statement::EvaluateExpr(e) => {
            lemma_mods_expr_refs(e, mode, acc, m);
        },
        Statement::SetStatement(s) => {
            lemma_mods_expr_refs(s.target, mode, acc, m);
            lemma_mods_expr_refs(s.expr, mode, mods_expr(s.target, mode, acc), m);
        },
        Statement::If(i) => {
            lemma_mods_expr_refs(i.condition, mode, acc, m);
            lemma_mods_stmts_refs(
                i.then_statement_list@,
                0,
                mode,
                mods_expr(i.condition, mode, acc),
                m,
            );
        },
        Statement::ThrowError(e) => {
            lemma_mods_expr_refs(e, mode, acc, m);
        },
        Statement::Return(e) => {
            lemma_mods_expr_refs(e, mode, acc, m);
        },
        Statement::VariableDefinition(v) => {
            match mode {
                CodeType::TypeScript => {
                    lemma_mods_type_refs(v.type_, acc, m);
                    lemma_mods_expr_refs(v.expr, mode, mods_type(v.type_, acc), m);
                },
                CodeType::JavaScript => {
                    lemma_mods_expr_refs(v.expr, mode, acc, m);
                },
            }
        },
        Statement::FunctionDefinition(f) => {
            match mode {
                CodeType::TypeScript => {
                    lemma_mods_pwd_params_refs(f.parameter_list@, 0, acc, m);
                    lemma_mods_type_refs(
                        f.return_type,
                        mods_pwd_params(f.parameter_list@, 0, acc),
                        m,
                    );
                    lemma_mods_stmts_refs(
                        f.statement_list@,
                        0,
                        mode,
                        mods_type(f.return_type, mods_pwd_params(f.parameter_list@, 0, acc)),
                        m,
                    );
                },
                CodeType::JavaScript => {
                    lemma_mods_stmts_refs(f.statement_list@, 0, mode, acc, m);
                },
            }
        },
        Statement::For(f) => {
            lemma_mods_expr_refs(f.until_expr, mode, acc, m);
            lemma_mods_stmts_refs(
                f.statement_list@,
                0,
                mode,
                mods_expr(f.until_expr, mode, acc),
                m,
            );
        },
        Statement::ForOf(f) => {
            lemma_mods_expr_refs(f.iterable_expr, mode, acc, m);
            lemma_mods_stmts_refs(
                f.statement_list@,
                0,
                mode,
                mods_expr(f.iterable_expr, mode, acc),
                m,
            );
        },
        Statement::WhileTrue(l) => {
            lemma_mods_stmts_refs(l@, 0, mode, acc, m);
        },
        Statement::Switch(sw) => {
            lemma_mods_expr_refs(sw.expr, mode, acc, m);
            lemma_mods_patterns_refs(sw.pattern_list@, 0, mode, mods_expr(sw.expr, mode, acc), m);
        },
        _ => {},
    }
}

proof fn lemma_mods_stmts_refs(
    l: Seq<Statement>,
    i: int,
    mode: CodeType,
    acc: Seq<Seq<char>>,
    m: Seq<char>,
)
    ensures
        mods_stmts(l, i, mode, acc).contains(m) == (acc.contains(m) || refs_stmts(l, i, mode, m)),
    decreases l, l.len() - i,
{
    if 0 <= i < l.len() {
        lemma_mods_stmt_refs(l[i], mode, acc, m);
        lemma_mods_stmts_refs(l, i + 1, mode, mods_stmt(l[i], mode, acc), m);
    }
}

proof fn lemma_mods_patterns_refs(
    l: Seq<Pattern>,
    i: int,
    mode: CodeType,
    acc: Seq<Seq<char>>,
    m: Seq<char>,
)
    ensures
        mods_patterns(l, i, mode, acc).contains(m) == (acc.contains(m) || refs_patterns(
            l,
            i,
            mode,
            m,
        )),
    decreases l, l.len() - i,
{
    if 0 <= i < l.len() {
        lemma_mods_stmts_refs(l[i].statement_list@, 0, mode, acc, m);
        lemma_mods_patterns_refs(
            l,
            i + 1,
            mode,
            mods_stmts(l[i].statement_list@, 0, mode, acc),
            m,
        );
    }
}

proof fn lemma_mods_def_refs(d: ExportDefinition, mode: CodeType, acc: Seq<Seq<char>>, m: Seq<char>)
    ensures
        mods_def(d, mode, acc).contains(m) == (acc.contains(m) || refs_def(d, mode, m)),
    decreases d, 8int,
{
    match d {
        ExportDefinition::TypeAlias(a) => {
            match mode {
                CodeType::TypeScript => {
                    lemma_mods_type_refs(a.type_, acc, m);
                },
                CodeType::JavaScript => {},
            }
        },
        ExportDefinition::Function(f) => {
            match mode {
                CodeType::TypeScript => {
                    lemma_mods_pwd_params_refs(f.parameter_list@, 0, acc, m);
                    lemma_mods_type_refs(
                        f.return_type,
                        mods_pwd_params(f.parameter_list@, 0, acc),
                        m,
                    );
                    lemma_mods_stmts_refs(
                        f.statement_list@,
                        0,
                        mode,
                        mods_type(f.return_type, mods_pwd_params(f.parameter_list@, 0, acc)),
                        m,
                    );
                },
                CodeType::JavaScript => {
                    lemma_mods_stmts_refs(f.statement_list@, 0, mode, acc, m);
                },
            }
        },
        ExportDefinition::Variable(v) => {
            match mode {
                CodeType::TypeScript => {
                    lemma_mods_type_refs(v.type_, acc, m);
                    lemma_mods_expr_refs(v.expr, mode, mods_type(v.type_, acc), m);
                },
                CodeType::JavaScript => {
                    lemma_mods_expr_refs(v.expr, mode, acc, m);
                },
            }
        },
    }
}

proof fn lemma_mods_defs_refs(
    l: Seq<ExportDefinition>,
    i: int,
    mode: CodeType,
    acc: Seq<Seq<char>>,
    m: Seq<char>,
)
    ensures
        mods_defs(l, i, mode, acc).contains(m) == (acc.contains(m) || refs_defs(l, i, mode, m)),
    decreases l, l.len() - i,
{
    if 0 <= i < l.len() {
        lemma_mods_def_refs(l[i], mode, acc, m);
        lemma_mods_defs_refs(l, i + 1, mode, mods_def(l[i], mode, acc), m);
    }
}

proof fn lemma_acc_add_no_dups(acc: Seq<Seq<char>>, m: Seq<char>)
    requires
        no_dup_mods(acc),
    ensures
        no_dup_mods(acc_add(acc, m)),
{
    if !acc.contains(m) {
        let r = acc.push(m);
        assert forall|i: int, j: int| 0 <= i < j < r.len() implies r[i] != r[j] by {
            if j < acc.len() {
            } else {
                assert(r[j] == m);
                assert(r[i] == acc[i]);
                assert(!acc.contains(m));
            }
        }
    }
}

proof fn lemma_mods_type_nd(t: Type, acc: Seq<Seq<char>>)
    requires
        no_dup_mods(acc),
    ensures
        no_dup_mods(mods_type(t, acc)),
    decreases t, 1int,
{
    match t {
        Type::Object(members) => {
            lemma_mods_member_types_nd(members@, 0, acc);
        },
        Type::Function(ft) => {
            lemma_mods_types_nd(ft.parameter_list@, 0, acc);
            lemma_mods_type_nd(ft.return_type, mods_types(ft.parameter_list@, 0, acc));
        },
        Type::WithTypeParameter(w) => {
            lemma_mods_type_nd(w.type_, acc);
            lemma_mods_types_nd(w.type_parameter_list@, 0, mods_type(w.type_, acc));
        },
        Type::Union(l) => {
            lemma_mods_types_nd(l@, 0, acc);
        },
        Type::Intersection(it) => {
            lemma_mods_type_nd(it.left, acc);
            lemma_mods_type_nd(it.right, mods_type(it.left, acc));
        },
        Type::ImportedType(it) => {
            lemma_acc_add_no_dups(acc, it.module_name@);
        },
        _ => {},
    }
}

proof fn lemma_mods_types_nd(l: Seq<Type>, i: int, acc: Seq<Seq<char>>)
    requires
        no_dup_mods(acc),
    ensures
        no_dup_mods(mods_types(l, i, acc)),
    decreases l, l.len() - i,
{
    if 0 <= i < l.len() {
        lemma_mods_type_nd(l[i], acc);
        lemma_mods_types_nd(l, i + 1, mods_type(l[i], acc));
    }
}

proof fn lemma_mods_member_types_nd(l: Seq<MemberType>, i: int, acc: Seq<Seq<char>>)
    requires
        no_dup_mods(acc),
    ensures
        no_dup_mods(mods_member_types(l, i, acc)),
    decreases l, l.len() - i,
{
    if 0 <= i < l.len() {
        lemma_mods_type_nd(l[i].type_, acc);
        lemma_mods_member_types_nd(l, i + 1, mods_type(l[i].type_, acc));
    }
}

proof fn lemma_mods_params_nd(l: Seq<Parameter>, i: int, acc: Seq<Seq<char>>)
    requires
        no_dup_mods(acc),
    ensures
        no_dup_mods(mods_params(l, i, acc)),
    decreases l, l.len() - i,
{
    if 0 <= i < l.len() {
        lemma_mods_type_nd(l[i].type_, acc);
        lemma_mods_params_nd(l, i + 1, mods_type(l[i].type_, acc));
    }
}

proof fn lemma_mods_pwd_params_nd(l: Seq<ParameterWithDocument>, i: int, acc: Seq<Seq<char>>)
    requires
        no_dup_mods(acc),
    ensures
        no_dup_mods(mods_pwd_params(l, i, acc)),
    decreases l, l.len() - i,
{
    if 0 <= i < l.len() {
        lemma_mods_type_nd(l[i].type_, acc);
        lemma_mods_pwd_params_nd(l, i + 1, mods_type(l[i].type_, acc));
    }
}

proof fn lemma_mods_expr_nd(e: Expr, mode: CodeType, acc: Seq<Seq<char>>)
    requires
        no_dup_mods(acc),
    ensures
        no_dup_mods(mods_expr(e, mode, acc)),
    decreases e, 2int,
{
    match e {
        Expr::UnaryOperator(u) => {
            lemma_mods_expr_nd(u.expr, mode, acc);
        },
        Expr::BinaryOperator(b) => {
            lemma_mods_expr_nd(b.left, mode, acc);
            lemma_mods_expr_nd(b.right, mode, mods_expr(b.left, mode, acc));
        },
        Expr::ConditionalOperator(c) => {
            lemma_mods_expr_nd(c.condition, mode, acc);
            lemma_mods_expr_nd(c.then_expr, mode, mods_expr(c.condition, mode, acc));
            lemma_mods_expr_nd(
                c.else_expr,
                mode,
                mods_expr(c.then_expr, mode, mods_expr(c.condition, mode, acc)),
            );
        },
        Expr::ArrayLiteral(items) => {
            lemma_mods_array_items_nd(items@, 0, mode, acc);
        },
        Expr::ObjectLiteral(members) => {
            lemma_mods_members_nd(members@, 0, mode, acc);
        },
        Expr::Lambda(l) => {
            match mode {
                CodeType::TypeScript => {
                    lemma_mods_params_nd(l.parameter_list@, 0, acc);
                    lemma_mods_type_nd(l.return_type, mods_params(l.parameter_list@, 0, acc));
                    lemma_mods_stmts_nd(
                        l.statement_list@,
                        0,
                        mode,
                        mods_type(l.return_type, mods_params(l.parameter_list@, 0, acc)),
                    );
                },
                CodeType::JavaScript => {
                    lemma_mods_stmts_nd(l.statement_list@, 0, mode, acc);
                },
            }
        },
        Expr::ImportedVariable(iv) => {
            lemma_acc_add_no_dups(acc, iv.module_name@);
        },
        Expr::Get(g) => {
            lemma_mods_expr_nd(g.expr, mode, acc);
            lemma_mods_expr_nd(g.property_expr, mode, mods_expr(g.expr, mode, acc));
        },
        Expr::Call(c) => {
            lemma_mods_expr_nd(c.expr, mode, acc);
            lemma_mods_args_nd(c.parameter_list@, 0, mode, mods_expr(c.expr, mode, acc));
        },
        Expr::New(c) => {
            lemma_mods_expr_nd(c.expr, mode, acc);
            lemma_mods_args_nd(c.parameter_list@, 0, mode, mods_expr(c.expr, mode, acc));
        },
        Expr::TypeAssertion(t) => {
            lemma_mods_expr_nd(t.expr, mode, acc);
            match mode {
                CodeType::TypeScript => {
                    lemma_mods_type_nd(t.type_, mods_expr(t.expr, mode, acc));
                },
                CodeType::JavaScript => {},
            }
        },
        _ => {},
    }
}

proof fn lemma_mods_args_nd(l: Seq<Expr>, i: int, mode: CodeType, acc: Seq<Seq<char>>)
    requires
        no_dup_mods(acc),
    ensures
        no_dup_mods(mods_args(l, i, mode, acc)),
    decreases l, l.len() - i,
{
    if 0 <= i < l.len() {
        lemma_mods_expr_nd(l[i], mode, acc);
        lemma_mods_args_nd(l, i + 1, mode, mods_expr(l[i], mode, acc));
    }
}

proof fn lemma_mods_array_items_nd(l: Seq<ArrayItem>, i: int, mode: CodeType, acc: Seq<Seq<char>>)
    requires
        no_dup_mods(acc),
    ensures
        no_dup_mods(mods_array_items(l, i, mode, acc)),
    decreases l, l.len() - i,
{
    if 0 <= i < l.len() {
        lemma_mods_expr_nd(l[i].expr, mode, acc);
        lemma_mods_array_items_nd(l, i + 1, mode, mods_expr(l[i].expr, mode, acc));
    }
}

proof fn lemma_mods_members_nd(l: Seq<Member>, i: int, mode: CodeType, acc: Seq<Seq<char>>)
    requires
        no_dup_mods(acc),
    ensures
        no_dup_mods(mods_members(l, i, mode, acc)),
    decreases l, l.len() - i,
{
    if 0 <= i < l.len() {
        match l[i] {
            Member::Spread(e) => {
                lemma_mods_expr_nd(e, mode, acc);
                lemma_mods_members_nd(l, i + 1, mode, mods_expr(e, mode, acc));
            },
            Member::KeyValue(kv) => {
                lemma_mods_expr_nd(kv.value, mode, acc);
                lemma_mods_members_nd(l, i + 1, mode, mods_expr(kv.value, mode, acc));
            },
        }
    }
}

proof fn lemma_mods_stmt_nd(st: Statement, mode: CodeType, acc: Seq<Seq<char>>)
    requires
        no_dup_mods(acc),
    ensures
        no_dup_mods(mods_stmt(st, mode, acc)),
    decreases st, 3int,
{
    match st {
        Statement::EvaluateExpr(e) => {
            lemma_mods_expr_nd(e, mode, acc);
        },
        Statement::SetStatement(s) => {
            lemma_mods_expr_nd(s.target, mode, acc);
            lemma_mods_expr_nd(s.expr, mode, mods_expr(s.target, mode, acc));
        },
        Statement::If(i) => {
            lemma_mods_expr_nd(i.condition, mode, acc);
            lemma_mods_stmts_nd(i.then_statement_list@, 0, mode, mods_expr(
                i.condition,
                mode,
                acc,
            ));
        },
        Statement::ThrowError(e) => {
            lemma_mods_expr_nd(e, mode, acc);
        },
        Statement::Return(e) => {
            lemma_mods_expr_nd(e, mode, acc);
        },
        Statement::VariableDefinition(v) => {
            match mode {
                CodeType::TypeScript => {
                    lemma_mods_type_nd(v.type_, acc);
                    lemma_mods_expr_nd(v.expr, mode, mods_type(v.type_, acc));
                },
                CodeType::JavaScript => {
                    lemma_mods_expr_nd(v.expr, mode, acc);
                },
            }
        },
        Statement::FunctionDefinition(f) => {
            match mode {
                CodeType::TypeScript => {
                    lemma_mods_pwd_params_nd(f.parameter_list@, 0, acc);
                    lemma_mods_type_nd(f.return_type, mods_pwd_params(f.parameter_list@, 0, acc));
                    lemma_mods_stmts_nd(
                        f.statement_list@,
                        0,
                        mode,
                        mods_type(f.return_type, mods_pwd_params(f.parameter_list@, 0, acc)),
                    );
                },
                CodeType::JavaScript => {
                    lemma_mods_stmts_nd(f.statement_list@, 0, mode, acc);
                },
            }
        },
        Statement::For(f) => {
            lemma_mods_expr_nd(f.until_expr, mode, acc);
            lemma_mods_stmts_nd(f.statement_list@, 0, mode, mods_expr(f.until_expr, mode, acc));
        },
        Statement::ForOf(f) => {
            lemma_mods_expr_nd(f.iterable_expr, mode, acc);
            lemma_mods_stmts_nd(f.statement_list@, 0, mode, mods_expr(
                f.iterable_expr,
                mode,
                acc,
            ));
        },
        Statement::WhileTrue(l) => {
            lemma_mods_stmts_nd(l@, 0, mode, acc);
        },
        Statement::Switch(sw) => {
            lemma_mods_expr_nd(sw.expr, mode, acc);
            lemma_mods_patterns_nd(sw.pattern_list@, 0, mode, mods_expr(sw.expr, mode, acc));
        },
        _ => {},
    }
}

proof fn lemma_mods_stmts_nd(l: Seq<Statement>, i: int, mode: CodeType, acc: Seq<Seq<char>>)
    requires
        no_dup_mods(acc),
    ensures
        no_dup_mods(mods_stmts(l, i, mode, acc)),
    decreases l, l.len() - i,
{
    if 0 <= i < l.len() {
        lemma_mods_stmt_nd(l[i], mode, acc);
        lemma_mods_stmts_nd(l, i + 1, mode, mods_stmt(l[i], mode, acc));
    }
}

proof fn lemma_mods_patterns_nd(l: Seq<Pattern>, i: int, mode: CodeType, acc: Seq<Seq<char>>)
    requires
        no_dup_mods(acc),
    ensures
        no_dup_mods(mods_patterns(l, i, mode, acc)),
    decreases l, l.len() - i,
{
    if 0 <= i < l.len() {
        lemma_mods_stmts_nd(l[i].statement_list@, 0, mode, acc);
        lemma_mods_patterns_nd(l, i + 1, mode, mods_stmts(l[i].statement_list@, 0, mode, acc));
    }
}

proof fn lemma_mods_def_nd(d: ExportDefinition, mode: CodeType, acc: Seq<Seq<char>>)
    requires
        no_dup_mods(acc),
    ensures
        no_dup_mods(mods_def(d, mode, acc)),
    decreases d, 7int,
{
    match d {
        ExportDefinition::TypeAlias(a) => {
            match mode {
                CodeType::TypeScript => {
                    lemma_mods_type_nd(a.type_, acc);
                },
                CodeType::JavaScript => {},
            }
        },
        ExportDefinition::Function(f) => {
            match mode {
                CodeType::TypeScript => {
                    lemma_mods_pwd_params_nd(f.parameter_list@, 0, acc);
                    lemma_mods_type_nd(f.return_type, mods_pwd_params(f.parameter_list@, 0, acc));
                    lemma_mods_stmts_nd(
                        f.statement_list@,
                        0,
                        mode,
                        mods_type(f.return_type, mods_pwd_params(f.parameter_list@, 0, acc)),
                    );
                },
                CodeType::JavaScript => {
                    lemma_mods_stmts_nd(f.statement_list@, 0, mode, acc);
                },
            }
        },
        ExportDefinition::Variable(v) => {
            match mode {
                CodeType::TypeScript => {
                    lemma_mods_type_nd(v.type_, acc);
                    lemma_mods_expr_nd(v.expr, mode, mods_type(v.type_, acc));
                },
                CodeType::JavaScript => {
                    lemma_mods_expr_nd(v.expr, mode, acc);
                },
            }
        },
    }
}

proof fn lemma_mods_defs_nd(l: Seq<ExportDefinition>, i: int, mode: CodeType, acc: Seq<Seq<char>>)
    requires
        no_dup_mods(acc),
    ensures
        no_dup_mods(mods_defs(l, i, mode, acc)),
    decreases l, l.len() - i,
{
    if 0 <= i < l.len() {
        lemma_mods_def_nd(l[i], mode, acc);
        lemma_mods_defs_nd(l, i + 1, mode, mods_def(l[i], mode, acc));
    }
}

/// Import deduplication: the collected module list holds exactly the
/// modules the tree references in positions the mode scans, each exactly
/// once — however many reference sites there are, a referenced module gets
/// exactly one import line and an unreferenced one gets none.  Every
/// reference site prints the alias [`alias_text`], which depends on the
/// module name alone, so all sites for one module print the same alias.
pub proof fn lemma_imports_deduplicated(c: Code, mode: CodeType)
    ensures
        no_dup_mods(code_modules(c, mode)),
        forall|m: Seq<char>|
            #[trigger] code_modules(c, mode).contains(m) <==> refs_code(c, mode, m),
{
    lemma_mods_defs_nd(c.export_definition_list@, 0, mode, Seq::<Seq<char>>::empty());
    lemma_mods_stmts_nd(
        c.statement_list@,
        0,
        mode,
        mods_defs(c.export_definition_list@, 0, mode, Seq::<Seq<char>>::empty()),
    );
    assert forall|m: Seq<char>|
        #[trigger] code_modules(c, mode).contains(m) <==> refs_code(c, mode, m) by {
        lemma_mods_defs_refs(
            c.export_definition_list@,
            0,
            mode,
            Seq::<Seq<char>>::empty(),
            m,
        );
        lemma_mods_stmts_refs(
            c.statement_list@,
            0,
            mode,
            mods_defs(c.export_definition_list@, 0, mode, Seq::<Seq<char>>::empty()),
            m,
        );
    }
}

} // verus!
