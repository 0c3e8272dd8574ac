//! The value tree describing a JavaScript / TypeScript program: export
//! definitions, statements, expressions and types.  The tree is built by the
//! caller and consumed once by the renderer.
use vstd::prelude::*;

pub mod identifer;

verus! {

/// The output language of the renderer.
#[derive(PartialEq, Eq, Debug)]
pub enum CodeType {
    /// JavaScript: values only, no type syntax.
    JavaScript,
    /// TypeScript: values plus type annotations and type-only declarations.
    TypeScript,
}

/// The root value: exported definitions, then statements that run after all
/// exports are defined.
pub struct Code {
    /// The definitions exported from the generated module.
    pub export_definition_list: Vec<ExportDefinition>,
    /// Statements run after the definitions, in one isolated block.
    pub statement_list: Vec<Statement>,
}

/// One exported definition.
pub enum ExportDefinition {
    /// A type alias; emitted only when the output is TypeScript.
    TypeAlias(TypeAlias),
    /// An exported function.
    Function(Function),
    /// An exported variable.
    Variable(Variable),
}

/// `export type Name<T> = ...;`
pub struct TypeAlias {
    pub name: identifer::Identifer,
    pub type_parameter_list: Vec<identifer::Identifer>,
    pub document: String,
    pub type_: Type,
}

/// An exported function, emitted as a const arrow-function binding.
pub struct Function {
    /// The exported name.
    pub name: identifer::Identifer,
    /// Documentation text for the JSDoc block.
    pub document: String,
    /// Type parameters, printed only in TypeScript.
    pub type_parameter_list: Vec<identifer::Identifer>,
    /// The parameters, each with its own documentation.
    pub parameter_list: Vec<ParameterWithDocument>,
    /// The return type, printed only in TypeScript.
    pub return_type: Type,
    /// The body.
    pub statement_list: Vec<Statement>,
}

/// A function parameter together with its documentation.
pub struct ParameterWithDocument {
    /// The parameter name.
    pub name: identifer::Identifer,
    /// Documentation text for the `@param` line.
    pub document: String,
    /// The parameter type.
    pub type_: Type,
}

/// A plain lambda parameter: name and type.
pub struct Parameter {
    /// The parameter name.
    pub name: identifer::Identifer,
    /// The parameter type.
    pub type_: Type,
}

/// An exported variable.
pub struct Variable {
    /// The exported name.
    pub name: identifer::Identifer,
    /// Documentation text for the JSDoc block.
    pub document: String,
    /// The variable type, printed only in TypeScript.
    pub type_: Type,
    /// The value expression.
    pub expr: Expr,
}

/// A unary operator.
pub enum UnaryOperator {
    Minus,
    BitwiseNot,
    LogicalNot,
}

/// A binary operator.
pub enum BinaryOperator {
    Exponentiation,
    Multiplication,
    Division,
    Remainder,
    Addition,
    Subtraction,
    LeftShift,
    SignedRightShift,
    UnsignedRightShift,
    LessThan,
    LessThanOrEqual,
    Equal,
    NotEqual,
    BitwiseAnd,
    BitwiseXOr,
    BitwiseOr,
    LogicalAnd,
    LogicalOr,
}

/// An expression.
pub enum Expr {
    NumberLiteral(i32),
    StringLiteral(String),
    BooleanLiteral(bool),
    NullLiteral,
    UndefinedLiteral,
    UnaryOperator(Box<UnaryOperatorExpr>),
    BinaryOperator(Box<BinaryOperatorExpr>),
    ConditionalOperator(Box<ConditionalOperatorExpr>),
    ArrayLiteral(Box<Vec<ArrayItem>>),
    ObjectLiteral(Box<Vec<Member>>),
    Lambda(Box<LambdaExpr>),
    Variable(identifer::Identifer),
    GlobalObjects(identifer::Identifer),
    ImportedVariable(ImportedVariable),
    Get(Box<GetExpr>),
    Call(Box<CallExpr>),
    New(Box<CallExpr>),
    TypeAssertion(Box<TypeAssertion>),
}

/// A statement.
pub enum Statement {
    EvaluateExpr(Expr),
    SetStatement(SetStatement),
    If(IfStatement),
    ThrowError(Expr),
    Return(Expr),
    ReturnVoid,
    Continue,
    VariableDefinition(VariableDefinitionStatement),
    FunctionDefinition(FunctionDefinitionStatement),
    For(ForStatement),
    ForOf(ForOfStatement),
    WhileTrue(Vec<Statement>),
    Break,
    Switch(SwitchStatement),
}

/// A type, printed only when the output is TypeScript.
pub enum Type {
    Number,
    String,
    Boolean,
    Undefined,
    Null,
    Never,
    Void,
    Object(Box<Vec<MemberType>>),
    Function(Box<FunctionType>),
    WithTypeParameter(Box<TypeWithTypeParameter>),
    Union(Box<Vec<Type>>),
    Intersection(Box<IntersectionType>),
    ImportedType(ImportedType),
    ScopeInFile(identifer::Identifer),
    ScopeInGlobal(identifer::Identifer),
    StringLiteral(String),
}

/// A unary operator applied to an expression.
pub struct UnaryOperatorExpr {
    /// The operator.
    pub operator: UnaryOperator,
    /// The operand.
    pub expr: Expr,
}

/// A binary operator applied to two expressions.
pub struct BinaryOperatorExpr {
    /// The operator.
    pub operator: BinaryOperator,
    /// The left operand.
    pub left: Expr,
    /// The right operand.
    pub right: Expr,
}

/// The conditional (ternary) operator.
pub struct ConditionalOperatorExpr {
    /// The condition.
    pub condition: Expr,
    /// Evaluated when the condition is true.
    pub then_expr: Expr,
    /// Evaluated when the condition is false.
    pub else_expr: Expr,
}

/// One element of an array literal.
pub struct ArrayItem {
    /// The element expression.
    pub expr: Expr,
    /// Whether the element is spread, as in `...a`.
    pub spread: bool,
}

/// One member of an object literal.
pub enum Member {
    Spread(Expr),
    KeyValue(KeyValue),
}

/// A string key together with its value expression.
pub struct KeyValue {
    /// The key.
    pub key: String,
    /// The value.
    pub value: Expr,
}

/// A lambda expression.
pub struct LambdaExpr {
    /// The parameters.
    pub parameter_list: Vec<Parameter>,
    /// Type parameters, printed only in TypeScript.
    pub type_parameter_list: Vec<identifer::Identifer>,
    /// The return type, printed only in TypeScript.
    pub return_type: Type,
    /// The body.
    pub statement_list: Vec<Statement>,
}

/// A variable imported from another module; every reference is printed
/// through the module's generated alias.
pub struct ImportedVariable {
    /// The module name.
    pub module_name: String,
    /// The variable name inside that module.
    pub name: identifer::Identifer,
}

/// A property access; the property is itself an expression, so dot- and
/// bracket-style access collapse to one representation.
pub struct GetExpr {
    /// The expression whose property is read.
    pub expr: Expr,
    /// The property expression.
    pub property_expr: Expr,
}

/// A call: the called expression and its arguments.
pub struct CallExpr {
    /// The called expression.
    pub expr: Expr,
    /// The arguments.
    pub parameter_list: Vec<Expr>,
}

/// A type assertion, `expr as T`; erased entirely in JavaScript.
pub struct TypeAssertion {
    /// The asserted expression.
    pub expr: Expr,
    /// The asserted type.
    pub type_: Type,
}

/// An assignment statement.
pub struct SetStatement {
    /// The assignment target.
    pub target: Expr,
    /// An optional compound operator placed before `=`.
    pub operator_maybe: Option<BinaryOperator>,
    /// The assigned expression.
    pub expr: Expr,
}

/// A conditional statement; the model has no else branch.
pub struct IfStatement {
    /// The condition.
    pub condition: Expr,
    /// Statements run when the condition is true.
    pub then_statement_list: Vec<Statement>,
}

/// A local variable definition.
pub struct VariableDefinitionStatement {
    /// The variable name.
    pub name: identifer::Identifer,
    /// The variable type, printed only in TypeScript.
    pub type_: Type,
    /// The initializing expression.
    pub expr: Expr,
    /// `const` when true, `let` when false.
    pub is_const: bool,
}

/// A local function definition.
pub struct FunctionDefinitionStatement {
    /// The function name.
    pub name: identifer::Identifer,
    /// Type parameters, printed only in TypeScript.
    pub type_parameter_list: Vec<identifer::Identifer>,
    /// The parameters, each with its own documentation.
    pub parameter_list: Vec<ParameterWithDocument>,
    /// The return type, printed only in TypeScript.
    pub return_type: Type,
    /// The body.
    pub statement_list: Vec<Statement>,
}

/// A counted for-loop from zero up to a limit.
pub struct ForStatement {
    /// The counter variable name.
    pub counter_variable_name: identifer::Identifer,
    /// The loop limit expression.
    pub until_expr: Expr,
    /// The body.
    pub statement_list: Vec<Statement>,
}

/// A for-of loop.
pub struct ForOfStatement {
    /// The element variable name.
    pub element_variable_name: identifer::Identifer,
    /// The iterated expression.
    pub iterable_expr: Expr,
    /// The body.
    pub statement_list: Vec<Statement>,
}

/// A switch statement over string cases.
pub struct SwitchStatement {
    /// The switched expression.
    pub expr: Expr,
    /// The cases, in order.
    pub pattern_list: Vec<Pattern>,
}

/// One `case "text": { ... }` block of a switch statement.
pub struct Pattern {
    /// The case string.
    pub case_string: String,
    /// The statements of the case block.
    pub statement_list: Vec<Statement>,
}

/// One member of a structural object type.
pub struct MemberType {
    /// The property name.
    pub name: String,
    /// Whether the property is required; `?` is printed when it is not.
    pub required: bool,
    /// The property type.
    pub type_: Type,
    /// Documentation text.
    pub document: String,
}

/// A function type.
pub struct FunctionType {
    /// The type parameters.
    pub type_parameter_list: Vec<identifer::Identifer>,
    /// The positional parameter types; parameter names are synthesized.
    pub parameter_list: Vec<Type>,
    /// The return type.
    pub return_type: Type,
}

/// A generic instantiation; with no arguments it degrades to the bare base
/// type.
pub struct TypeWithTypeParameter {
    /// The base type.
    pub type_: Type,
    /// The type arguments.
    pub type_parameter_list: Vec<Type>,
}

/// An intersection of exactly two types.
pub struct IntersectionType {
    /// The left operand.
    pub left: Type,
    /// The right operand.
    pub right: Type,
}

/// A type imported from another module; every reference is printed through
/// the module's generated alias.
pub struct ImportedType {
    /// The module name.
    pub module_name: String,
    /// The type name inside that module.
    pub name: identifer::Identifer,
}

} // verus!
