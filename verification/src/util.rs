//! Convenience builders: thin syntactic sugar over the AST constructors for
//! common expressions, global objects and generic types.
use vstd::prelude::*;

use crate::data::identifer;
use crate::data::identifer::from_string_text;
use crate::data::BinaryOperator;
use crate::data::BinaryOperatorExpr;
use crate::data::CallExpr;
use crate::data::Expr;
use crate::data::GetExpr;
use crate::data::Statement;
use crate::data::Type;
use crate::data::TypeWithTypeParameter;
use crate::data::UnaryOperator;
use crate::data::UnaryOperatorExpr;

verus! {

/// Property access through a string-literal property name.
pub fn get(expr: Expr, property_name: &str) -> (r: Expr)
    ensures
        r matches Expr::Get(g) && g.expr == expr && (g.property_expr matches Expr::StringLiteral(s)
            && s@ == property_name@),
{
    Expr::Get(
        Box::new(
            GetExpr {
                expr,
                property_expr: Expr::StringLiteral(String::from_str(property_name)),
            },
        ),
    )
}

/// A method call: property access followed by a call.
pub fn call_method(expr: Expr, method_name: &str, parameter_list: Vec<Expr>) -> (r: Expr)
    ensures
        r matches Expr::Call(c) && (c.expr matches Expr::Get(g) && g.expr == expr && (
        g.property_expr matches Expr::StringLiteral(s) && s@ == method_name@))
            && c.parameter_list == parameter_list,
{
    let callee = get(expr, method_name);
    Expr::Call(Box::new(CallExpr { expr: callee, parameter_list }))
}

fn unary(operator: UnaryOperator, expr: Expr) -> (r: Expr)
    ensures
        r matches Expr::UnaryOperator(u) && u.operator == operator && u.expr == expr,
{
    Expr::UnaryOperator(Box::new(UnaryOperatorExpr { operator, expr }))
}

fn binary(operator: BinaryOperator, left: Expr, right: Expr) -> (r: Expr)
    ensures
        r matches Expr::BinaryOperator(b) && b.operator == operator && b.left == left && b.right
            == right,
{
    Expr::BinaryOperator(Box::new(BinaryOperatorExpr { operator, left, right }))
}

/// Unary minus, `-a`.
pub fn minus(expr: Expr) -> (r: Expr)
    ensures
        r matches Expr::UnaryOperator(u) && u.operator == UnaryOperator::Minus && u.expr == expr,
{
    unary(UnaryOperator::Minus, expr)
}

/// Bitwise not, `~a`.
pub fn bitwise_not(expr: Expr) -> (r: Expr)
    ensures
        r matches Expr::UnaryOperator(u) && u.operator == UnaryOperator::BitwiseNot && u.expr
            == expr,
{
    unary(UnaryOperator::BitwiseNot, expr)
}

/// Logical not, `!a`.
pub fn logical_not(expr: Expr) -> (r: Expr)
    ensures
        r matches Expr::UnaryOperator(u) && u.operator == UnaryOperator::LogicalNot && u.expr
            == expr,
{
    unary(UnaryOperator::LogicalNot, expr)
}

/// Exponentiation, `a ** b`.
pub fn exponentiation(left: Expr, right: Expr) -> (r: Expr)
    ensures
        r matches Expr::BinaryOperator(b) && b.operator == BinaryOperator::Exponentiation && b.left
            == left && b.right == right,
{
    binary(BinaryOperator::Exponentiation, left, right)
}

/// Multiplication, `a * b`.
pub fn multiplication(left: Expr, right: Expr) -> (r: Expr)
    ensures
        r matches Expr::BinaryOperator(b) && b.operator == BinaryOperator::Multiplication && b.left
            == left && b.right == right,
{
    binary(BinaryOperator::Multiplication, left, right)
}

/// Division, `a / b`.
pub fn division(left: Expr, right: Expr) -> (r: Expr)
    ensures
        r matches Expr::BinaryOperator(b) && b.operator == BinaryOperator::Division && b.left
            == left && b.right == right,
{
    binary(BinaryOperator::Division, left, right)
}

/// Remainder, `a % b`.
pub fn modulo(left: Expr, right: Expr) -> (r: Expr)
    ensures
        r matches Expr::BinaryOperator(b) && b.operator == BinaryOperator::Remainder && b.left
            == left && b.right == right,
{
    binary(BinaryOperator::Remainder, left, right)
}

/// Addition or string concatenation, `a + b`.
pub fn addition(left: Expr, right: Expr) -> (r: Expr)
    ensures
        r matches Expr::BinaryOperator(b) && b.operator == BinaryOperator::Addition && b.left
            == left && b.right == right,
{
    binary(BinaryOperator::Addition, left, right)
}

/// Subtraction, `a - b`.
pub fn subtraction(left: Expr, right: Expr) -> (r: Expr)
    ensures
        r matches Expr::BinaryOperator(b) && b.operator == BinaryOperator::Subtraction && b.left
            == left && b.right == right,
{
    binary(BinaryOperator::Subtraction, left, right)
}

/// Left shift, `a << b`.
pub fn left_shift(left: Expr, right: Expr) -> (r: Expr)
    ensures
        r matches Expr::BinaryOperator(b) && b.operator == BinaryOperator::LeftShift && b.left
            == left && b.right == right,
{
    binary(BinaryOperator::LeftShift, left, right)
}

/// Sign-preserving right shift, `a >> b`.
pub fn signed_right_shift(left: Expr, right: Expr) -> (r: Expr)
    ensures
        r matches Expr::BinaryOperator(b) && b.operator == BinaryOperator::SignedRightShift
            && b.left == left && b.right == right,
{
    binary(BinaryOperator::SignedRightShift, left, right)
}

/// Zero-filling right shift, `a >>> b`.
pub fn unsigned_right_shift(left: Expr, right: Expr) -> (r: Expr)
    ensures
        r matches Expr::BinaryOperator(b) && b.operator == BinaryOperator::UnsignedRightShift
            && b.left == left && b.right == right,
{
    binary(BinaryOperator::UnsignedRightShift, left, right)
}

/// Less than, `a < b`.
pub fn less_than(left: Expr, right: Expr) -> (r: Expr)
    ensures
        r matches Expr::BinaryOperator(b) && b.operator == BinaryOperator::LessThan && b.left
            == left && b.right == right,
{
    binary(BinaryOperator::LessThan, left, right)
}

/// Less than or equal, `a <= b`.
pub fn less_than_or_equal(left: Expr, right: Expr) -> (r: Expr)
    ensures
        r matches Expr::BinaryOperator(b) && b.operator == BinaryOperator::LessThanOrEqual
            && b.left == left && b.right == right,
{
    binary(BinaryOperator::LessThanOrEqual, left, right)
}

/// Strict equality, `a === b`.
pub fn equal(left: Expr, right: Expr) -> (r: Expr)
    ensures
        r matches Expr::BinaryOperator(b) && b.operator == BinaryOperator::Equal && b.left == left
            && b.right == right,
{
    binary(BinaryOperator::Equal, left, right)
}

/// Strict inequality, `a !== b`.
pub fn not_equal(left: Expr, right: Expr) -> (r: Expr)
    ensures
        r matches Expr::BinaryOperator(b) && b.operator == BinaryOperator::NotEqual && b.left
            == left && b.right == right,
{
    binary(BinaryOperator::NotEqual, left, right)
}

/// Bitwise and, `a & b`.
pub fn bitwise_and(left: Expr, right: Expr) -> (r: Expr)
    ensures
        r matches Expr::BinaryOperator(b) && b.operator == BinaryOperator::BitwiseAnd && b.left
            == left && b.right == right,
{
    binary(BinaryOperator::BitwiseAnd, left, right)
}

/// Bitwise exclusive or, `a ^ b`.
pub fn bitwise_xor(left: Expr, right: Expr) -> (r: Expr)
    ensures
        r matches Expr::BinaryOperator(b) && b.operator == BinaryOperator::BitwiseXOr && b.left
            == left && b.right == right,
{
    binary(BinaryOperator::BitwiseXOr, left, right)
}

/// Bitwise or, `a | b`.
pub fn bitwise_or(left: Expr, right: Expr) -> (r: Expr)
    ensures
        r matches Expr::BinaryOperator(b) && b.operator == BinaryOperator::BitwiseOr && b.left
            == left && b.right == right,
{
    binary(BinaryOperator::BitwiseOr, left, right)
}

/// Logical and, `a && b`.
pub fn logical_and(left: Expr, right: Expr) -> (r: Expr)
    ensures
        r matches Expr::BinaryOperator(b) && b.operator == BinaryOperator::LogicalAnd && b.left
            == left && b.right == right,
{
    binary(BinaryOperator::LogicalAnd, left, right)
}

/// Logical or, `a || b`.
pub fn logical_or(left: Expr, right: Expr) -> (r: Expr)
    ensures
        r matches Expr::BinaryOperator(b) && b.operator == BinaryOperator::LogicalOr && b.left
            == left && b.right == right,
{
    binary(BinaryOperator::LogicalOr, left, right)
}

/// A call of a static `Number` method, such as `Number.parseInt(...)`.
pub fn call_number_method(method_name: &str, parameter_list: Vec<Expr>) -> (r: Expr)
    ensures
        r matches Expr::Call(c) && (c.expr matches Expr::Get(g) && (g.expr
            matches Expr::GlobalObjects(id) && id@ == from_string_text("Number"@)) && (
        g.property_expr matches Expr::StringLiteral(s) && s@ == method_name@))
            && c.parameter_list == parameter_list,
{
    call_method(
        Expr::GlobalObjects(identifer::from_string("Number")),
        method_name,
        parameter_list,
    )
}

/// A call of a static `Math` method, such as `Math.floor(...)`.
pub fn call_math_method(method_name: &str, parameter_list: Vec<Expr>) -> (r: Expr)
    ensures
        r matches Expr::Call(c) && (c.expr matches Expr::Get(g) && (g.expr
            matches Expr::GlobalObjects(id) && id@ == from_string_text("Math"@)) && (
        g.property_expr matches Expr::StringLiteral(s) && s@ == method_name@))
            && c.parameter_list == parameter_list,
{
    call_method(Expr::GlobalObjects(identifer::from_string("Math")), method_name, parameter_list)
}

/// `new Date()`
pub fn new_date() -> (r: Expr)
    ensures
        r matches Expr::New(c) && (c.expr matches Expr::GlobalObjects(id) && id@
            == from_string_text("Date"@)) && c.parameter_list@.len() == 0,
{
    Expr::New(
        Box::new(
            CallExpr {
                expr: Expr::GlobalObjects(identifer::from_string("Date")),
                parameter_list: Vec::new(),
            },
        ),
    )
}

/// `new Uint8Array(lengthOrIterable)`
pub fn new_uint8array(length_or_iterable: Expr) -> (r: Expr)
    ensures
        r matches Expr::New(c) && (c.expr matches Expr::GlobalObjects(id) && id@
            == from_string_text("Uint8Array"@)) && c.parameter_list@.len() == 1
            && c.parameter_list@[0] == length_or_iterable,
{
    let mut parameter_list: Vec<Expr> = Vec::new();
    parameter_list.push(length_or_iterable);
    Expr::New(
        Box::new(
            CallExpr {
                expr: Expr::GlobalObjects(identifer::from_string("Uint8Array")),
                parameter_list,
            },
        ),
    )
}

/// `new Map(initKeyValueList)`
pub fn new_map(init_key_value_list: Expr) -> (r: Expr)
    ensures
        r matches Expr::New(c) && (c.expr matches Expr::GlobalObjects(id) && id@
            == from_string_text("Map"@)) && c.parameter_list@.len() == 1 && c.parameter_list@[0]
            == init_key_value_list,
{
    let mut parameter_list: Vec<Expr> = Vec::new();
    parameter_list.push(init_key_value_list);
    Expr::New(
        Box::new(
            CallExpr {
                expr: Expr::GlobalObjects(identifer::from_string("Map")),
                parameter_list,
            },
        ),
    )
}

/// `new Set(initValueList)`
pub fn new_set(init_value_list: Expr) -> (r: Expr)
    ensures
        r matches Expr::New(c) && (c.expr matches Expr::GlobalObjects(id) && id@
            == from_string_text("Set"@)) && c.parameter_list@.len() == 1 && c.parameter_list@[0]
            == init_value_list,
{
    let mut parameter_list: Vec<Expr> = Vec::new();
    parameter_list.push(init_value_list);
    Expr::New(
        Box::new(
            CallExpr {
                expr: Expr::GlobalObjects(identifer::from_string("Set")),
                parameter_list,
            },
        ),
    )
}

/// `console.log(expr)` as a statement.
pub fn console_log(expr: Expr) -> (r: Statement)
    ensures
        r matches Statement::EvaluateExpr(e) && (e matches Expr::Call(c) && (c.expr
            matches Expr::Get(g) && (g.expr matches Expr::GlobalObjects(id) && id@
            == from_string_text("console"@)) && (g.property_expr matches Expr::StringLiteral(s)
            && s@ == "log"@)) && c.parameter_list@.len() == 1 && c.parameter_list@[0] == expr),
{
    let mut parameter_list: Vec<Expr> = Vec::new();
    parameter_list.push(expr);
    Statement::EvaluateExpr(
        call_method(Expr::GlobalObjects(identifer::from_string("console")), "log", parameter_list),
    )
}

fn global_type_with_one_parameter(name: &str, element_type: Type) -> (r: Type)
    ensures
        r matches Type::WithTypeParameter(w) && (w.type_ matches Type::ScopeInGlobal(id) && id@
            == from_string_text(name@)) && w.type_parameter_list@.len() == 1
            && w.type_parameter_list@[0] == element_type,
{
    let mut type_parameter_list: Vec<Type> = Vec::new();
    type_parameter_list.push(element_type);
    Type::WithTypeParameter(
        Box::new(
            TypeWithTypeParameter {
                type_: Type::ScopeInGlobal(identifer::from_string(name)),
                type_parameter_list,
            },
        ),
    )
}

fn global_type_with_two_parameters(name: &str, key_type: Type, value_type: Type) -> (r: Type)
    ensures
        r matches Type::WithTypeParameter(w) && (w.type_ matches Type::ScopeInGlobal(id) && id@
            == from_string_text(name@)) && w.type_parameter_list@.len() == 2
            && w.type_parameter_list@[0] == key_type && w.type_parameter_list@[1] == value_type,
{
    let mut type_parameter_list: Vec<Type> = Vec::new();
    type_parameter_list.push(key_type);
    type_parameter_list.push(value_type);
    Type::WithTypeParameter(
        Box::new(
            TypeWithTypeParameter {
                type_: Type::ScopeInGlobal(identifer::from_string(name)),
                type_parameter_list,
            },
        ),
    )
}

/// `Array<elementType>`
pub fn array_type(element_type: Type) -> (r: Type)
    ensures
        r matches Type::WithTypeParameter(w) && (w.type_ matches Type::ScopeInGlobal(id) && id@
            == from_string_text("Array"@)) && w.type_parameter_list@.len() == 1
            && w.type_parameter_list@[0] == element_type,
{
    global_type_with_one_parameter("Array", element_type)
}

/// `ReadonlyArray<elementType>`
pub fn readonly_array_type(element_type: Type) -> (r: Type)
    ensures
        r matches Type::WithTypeParameter(w) && (w.type_ matches Type::ScopeInGlobal(id) && id@
            == from_string_text("ReadonlyArray"@)) && w.type_parameter_list@.len() == 1
            && w.type_parameter_list@[0] == element_type,
{
    global_type_with_one_parameter("ReadonlyArray", element_type)
}

/// `Uint8Array`
pub fn uint8array_type() -> (r: Type)
    ensures
        r matches Type::ScopeInGlobal(id) && id@ == from_string_text("Uint8Array"@),
{
    Type::ScopeInGlobal(identifer::from_string("Uint8Array"))
}

/// `Promise<returnType>`
pub fn promise_type(return_type: Type) -> (r: Type)
    ensures
        r matches Type::WithTypeParameter(w) && (w.type_ matches Type::ScopeInGlobal(id) && id@
            == from_string_text("Promise"@)) && w.type_parameter_list@.len() == 1
            && w.type_parameter_list@[0] == return_type,
{
    global_type_with_one_parameter("Promise", return_type)
}

/// `Date`
pub fn date_type() -> (r: Type)
    ensures
        r matches Type::ScopeInGlobal(id) && id@ == from_string_text("Date"@),
{
    Type::ScopeInGlobal(identifer::from_string("Date"))
}

/// `Map<keyType, valueType>`
pub fn map_type(key_type: Type, value_type: Type) -> (r: Type)
    ensures
        r matches Type::WithTypeParameter(w) && (w.type_ matches Type::ScopeInGlobal(id) && id@
            == from_string_text("Map"@)) && w.type_parameter_list@.len() == 2
            && w.type_parameter_list@[0] == key_type && w.type_parameter_list@[1] == value_type,
{
    global_type_with_two_parameters("Map", key_type, value_type)
}

/// `ReadonlyMap<keyType, valueType>`
pub fn readonly_map_type(key_type: Type, value_type: Type) -> (r: Type)
    ensures
        r matches Type::WithTypeParameter(w) && (w.type_ matches Type::ScopeInGlobal(id) && id@
            == from_string_text("ReadonlyMap"@)) && w.type_parameter_list@.len() == 2
            && w.type_parameter_list@[0] == key_type && w.type_parameter_list@[1] == value_type,
{
    global_type_with_two_parameters("ReadonlyMap", key_type, value_type)
}

/// `Set<elementType>`
pub fn set_type(element_type: Type) -> (r: Type)
    ensures
        r matches Type::WithTypeParameter(w) && (w.type_ matches Type::ScopeInGlobal(id) && id@
            == from_string_text("Set"@)) && w.type_parameter_list@.len() == 1
            && w.type_parameter_list@[0] == element_type,
{
    global_type_with_one_parameter("Set", element_type)
}

/// `ReadonlySet<elementType>`
pub fn readonly_set_type(element_type: Type) -> (r: Type)
    ensures
        r matches Type::WithTypeParameter(w) && (w.type_ matches Type::ScopeInGlobal(id) && id@
            == from_string_text("ReadonlySet"@)) && w.type_parameter_list@.len() == 1
            && w.type_parameter_list@[0] == element_type,
{
    global_type_with_one_parameter("ReadonlySet", element_type)
}

} // verus!
