use vstd::prelude::*;

pub mod data;
pub mod erasure;
pub mod to_string;
pub mod util;
mod text;

verus! {

use crate::data::identifer::from_string_text;

/// A small demonstration tree: an exported `middleware` function over two
/// imported `express` types, an exported `getZeroIndexElement` function,
/// and two top-level statements.
pub fn sample_code() -> (r: data::Code)
    ensures
        r.export_definition_list@.len() == 2,
        r.export_definition_list@[0] matches data::ExportDefinition::Function(f) && f.name@
            == from_string_text("middleware"@) && f.parameter_list@.len() == 2
            && f.parameter_list@[0].name@ == from_string_text("request"@)
            && f.parameter_list@[1].name@ == from_string_text("response"@) && f.return_type
            is Void && f.statement_list@.len() == 2,
        r.export_definition_list@[1] matches data::ExportDefinition::Function(f) && f.name@
            == from_string_text("getZeroIndexElement"@) && f.parameter_list@.len() == 1
            && f.return_type is Number && f.statement_list@.len() == 1,
        r.statement_list@.len() == 2,
        r.statement_list@[0] matches data::Statement::VariableDefinition(v) && v.name@
            == from_string_text("sorena"@) && !v.is_const && v.type_ is String,
{
    let mut middleware_parameters: Vec<data::ParameterWithDocument> = Vec::new();
    middleware_parameters.push(
        data::ParameterWithDocument {
            name: data::identifer::from_string("request"),
            document: String::from_str("リクエスト"),
            type_: data::Type::ImportedType(
                data::ImportedType {
                    module_name: String::from_str("express"),
                    name: data::identifer::from_string("Request"),
                },
            ),
        },
    );
    middleware_parameters.push(
        data::ParameterWithDocument {
            name: data::identifer::from_string("response"),
            document: String::from_str("レスポンス"),
            type_: data::Type::ImportedType(
                data::ImportedType {
                    module_name: String::from_str("express"),
                    name: data::identifer::from_string("Response"),
                },
            ),
        },
    );
    let mut accept_union: Vec<data::Type> = Vec::new();
    accept_union.push(data::Type::String);
    accept_union.push(data::Type::Undefined);
    let accept_definition = data::Statement::VariableDefinition(
        data::VariableDefinitionStatement {
            name: data::identifer::from_string("accept"),
            type_: data::Type::Union(Box::new(accept_union)),
            is_const: true,
            expr: util::get(
                util::get(
                    data::Expr::Variable(data::identifer::from_string("request")),
                    "headers",
                ),
                "accept",
            ),
        },
    );
    let mut includes_arguments: Vec<data::Expr> = Vec::new();
    includes_arguments.push(data::Expr::StringLiteral(String::from_str("text/html")));
    let mut set_header_arguments: Vec<data::Expr> = Vec::new();
    set_header_arguments.push(data::Expr::StringLiteral(String::from_str("content-type")));
    set_header_arguments.push(data::Expr::StringLiteral(String::from_str("text/html")));
    let mut guarded_statements: Vec<data::Statement> = Vec::new();
    guarded_statements.push(
        data::Statement::EvaluateExpr(
            util::call_method(
                data::Expr::Variable(data::identifer::from_string("response")),
                "setHeader",
                set_header_arguments,
            ),
        ),
    );
    let accept_guard = data::Statement::If(
        data::IfStatement {
            condition: util::logical_and(
                util::not_equal(
                    data::Expr::Variable(data::identifer::from_string("accept")),
                    data::Expr::UndefinedLiteral,
                ),
                util::call_method(
                    data::Expr::Variable(data::identifer::from_string("accept")),
                    "includes",
                    includes_arguments,
                ),
            ),
            then_statement_list: guarded_statements,
        },
    );
    let mut middleware_body: Vec<data::Statement> = Vec::new();
    middleware_body.push(accept_definition);
    middleware_body.push(accept_guard);
    let middleware = data::ExportDefinition::Function(
        data::Function {
            name: data::identifer::from_string("middleware"),
            document: String::from_str("ミドルウェア"),
            type_parameter_list: Vec::new(),
            parameter_list: middleware_parameters,
            return_type: data::Type::Void,
            statement_list: middleware_body,
        },
    );
    let mut element_parameters: Vec<data::ParameterWithDocument> = Vec::new();
    element_parameters.push(
        data::ParameterWithDocument {
            name: data::identifer::from_string("array"),
            document: String::from_str("Uint8Array"),
            type_: util::uint8array_type(),
        },
    );
    let mut element_body: Vec<data::Statement> = Vec::new();
    element_body.push(
        data::Statement::Return(
            data::Expr::Get(
                Box::new(
                    data::GetExpr {
                        expr: data::Expr::Variable(data::identifer::from_string("array")),
                        property_expr: data::Expr::NumberLiteral(0),
                    },
                ),
            ),
        ),
    );
    let get_zero_index_element = data::ExportDefinition::Function(
        data::Function {
            name: data::identifer::from_string("getZeroIndexElement"),
            document: String::from_str("Uint8Arrayの0番目の要素を取得する"),
            type_parameter_list: Vec::new(),
            parameter_list: element_parameters,
            return_type: data::Type::Number,
            statement_list: element_body,
        },
    );
    let mut export_definition_list: Vec<data::ExportDefinition> = Vec::new();
    export_definition_list.push(middleware);
    export_definition_list.push(get_zero_index_element);
    let mut statement_list: Vec<data::Statement> = Vec::new();
    statement_list.push(
        data::Statement::VariableDefinition(
            data::VariableDefinitionStatement {
                name: data::identifer::from_string("sorena"),
                is_const: false,
                type_: data::Type::String,
                expr: data::Expr::StringLiteral(String::from_str("それな")),
            },
        ),
    );
    statement_list.push(
        util::console_log(data::Expr::Variable(data::identifer::from_string("sorena"))),
    );
    data::Code { export_definition_list, statement_list }
}

} // verus!
