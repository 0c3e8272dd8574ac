use js_ts_code_generator::data::identifer::from_string;
use js_ts_code_generator::data::{
    ArrayItem, Code, CodeType, ConditionalOperatorExpr, Expr, ExportDefinition, ForOfStatement,
    ForStatement, Function, FunctionType, GetExpr, IfStatement, KeyValue, LambdaExpr, Member,
    MemberType, Parameter, Pattern, SetStatement, Statement, SwitchStatement, Type, TypeAlias,
    TypeAssertion, Variable, VariableDefinitionStatement,
};
use js_ts_code_generator::data::{BinaryOperator, IntersectionType, TypeWithTypeParameter};
use js_ts_code_generator::data::{
    FunctionDefinitionStatement, ImportedType, ImportedVariable, ParameterWithDocument,
};
use js_ts_code_generator::sample_code;
use js_ts_code_generator::to_string::to_string;
use js_ts_code_generator::util;

fn variable(name: &str, type_: Type, expr: Expr) -> ExportDefinition {
    ExportDefinition::Variable(Variable {
        name: from_string(name),
        document: String::new(),
        type_,
        expr,
    })
}

fn js(code: &Code) -> String {
    to_string(code, &CodeType::JavaScript)
}

fn ts(code: &Code) -> String {
    to_string(code, &CodeType::TypeScript)
}

const HEADER: &str = "/* eslint-disable */\n/* generated by js-ts-code-generator. Do not edit! */\n\n";

#[test]
fn test_empty() {
    let sample_code = Code { export_definition_list: vec![], statement_list: vec![] };
    let code_as_string = to_string(&sample_code, &CodeType::JavaScript);
    assert_eq!(
        code_as_string,
        r###"/* eslint-disable */
/* generated by js-ts-code-generator. Do not edit! */

"###
    );
}

#[test]
fn test_snapshot() {
    let sample_code = sample_code();
    let code_as_typescript = to_string(&sample_code, &CodeType::TypeScript);
    let code_as_javascript = to_string(&sample_code, &CodeType::JavaScript);
    println!("TS\n{}", code_as_typescript);
    println!("JS\n{}", code_as_javascript);
    assert_eq!(
        code_as_typescript,
        r###"/* eslint-disable */
/* generated by js-ts-code-generator. Do not edit! */

import * as $$$express from "express";


/**
 * ミドルウェア
 * @param request リクエスト
 * @param response レスポンス
 */
export const middleware = (request: $$$express.Request, response: $$$express.Response): void => {
  const accept: string | undefined = request.headers.accept;
  if (accept !== undefined && accept.includes("text/html")) {
    response.setHeader("content-type", "text/html");
  }
};



/**
 * Uint8Arrayの0番目の要素を取得する
 * @param array Uint8Array
 */
export const getZeroIndexElement = (array: Uint8Array): number => (array[0]);

{
  let sorena: string = "それな";
  console.log(sorena);
}"###
    );
    assert_eq!(
        code_as_javascript,
        r###"/* eslint-disable */
/* generated by js-ts-code-generator. Do not edit! */


/**
 * ミドルウェア
 * @param request リクエスト
 * @param response レスポンス
 */
export const middleware = (request, response) => {
  const accept = request.headers.accept;
  if (accept !== undefined && accept.includes("text/html")) {
    response.setHeader("content-type", "text/html");
  }
};



/**
 * Uint8Arrayの0番目の要素を取得する
 * @param array Uint8Array
 */
export const getZeroIndexElement = (array) => (array[0]);

{
  let sorena = "それな";
  console.log(sorena);
}"###
    );
    assert!(code_as_typescript.contains("void"));
    assert!(!code_as_javascript.contains("void"));
}

#[test]
fn test_render_deterministic() {
    let first = sample_code();
    let second = sample_code();
    assert_eq!(
        to_string(&first, &CodeType::TypeScript),
        to_string(&second, &CodeType::TypeScript)
    );
    assert_eq!(
        to_string(&first, &CodeType::JavaScript),
        to_string(&second, &CodeType::JavaScript)
    );
    assert_eq!(
        to_string(&first, &CodeType::TypeScript),
        to_string(&first, &CodeType::TypeScript)
    );
}

#[test]
fn test_number_literal() {
    let code = Code {
        export_definition_list: vec![
            variable("n", Type::Number, Expr::NumberLiteral(-42)),
            variable("z", Type::Number, Expr::NumberLiteral(0)),
            variable("p", Type::Number, Expr::NumberLiteral(1234567890)),
        ],
        statement_list: vec![],
    };
    let expected = format!(
        "{}\nexport const n = -42;\n\n\n\nexport const z = 0;\n\n\n\nexport const p = 1234567890;\n",
        HEADER
    );
    assert_eq!(js(&code), expected);
}

#[test]
fn test_operator_precedence() {
    let sum_times = util::multiplication(
        util::addition(Expr::NumberLiteral(1), Expr::NumberLiteral(2)),
        Expr::NumberLiteral(3),
    );
    let times_in_sum = util::addition(
        Expr::NumberLiteral(1),
        util::multiplication(Expr::NumberLiteral(2), Expr::NumberLiteral(3)),
    );
    let chained_pow = util::exponentiation(
        util::exponentiation(Expr::NumberLiteral(2), Expr::NumberLiteral(3)),
        Expr::NumberLiteral(2),
    );
    let negated = util::minus(util::addition(Expr::NumberLiteral(1), Expr::NumberLiteral(2)));
    let code = Code {
        export_definition_list: vec![
            variable("a", Type::Number, sum_times),
            variable("b", Type::Number, times_in_sum),
            variable("c", Type::Number, chained_pow),
            variable("d", Type::Number, negated),
        ],
        statement_list: vec![],
    };
    let expected = format!(
        "{}\nexport const a = (1 + 2) * 3;\n\n\n\nexport const b = 1 + 2 * 3;\n\n\n\nexport const c = (2 ** 3) ** 2;\n\n\n\nexport const d = -(1 + 2);\n",
        HEADER
    );
    assert_eq!(js(&code), expected);
}

#[test]
fn test_property_access_notation() {
    let base = || Expr::Variable(from_string("a"));
    let dot = util::get(base(), "b");
    let quoted = util::get(base(), "content-type");
    let numeric = Expr::Get(Box::new(GetExpr {
        expr: base(),
        property_expr: Expr::NumberLiteral(0),
    }));
    let code = Code {
        export_definition_list: vec![
            variable("x", Type::Number, dot),
            variable("y", Type::Number, quoted),
            variable("z", Type::Number, numeric),
        ],
        statement_list: vec![],
    };
    let expected = format!(
        "{}\nexport const x = a.b;\n\n\n\nexport const y = a[\"content-type\"];\n\n\n\nexport const z = a[0];\n",
        HEADER
    );
    assert_eq!(js(&code), expected);
}

#[test]
fn test_import_deduplication() {
    let code = Code {
        export_definition_list: vec![
            variable(
                "read",
                Type::Number,
                Expr::ImportedVariable(js_ts_code_generator::data::ImportedVariable {
                    module_name: String::from("fs"),
                    name: from_string("readFile"),
                }),
            ),
            variable(
                "write",
                Type::Number,
                Expr::ImportedVariable(js_ts_code_generator::data::ImportedVariable {
                    module_name: String::from("fs"),
                    name: from_string("writeFile"),
                }),
            ),
            variable(
                "joined",
                Type::Number,
                Expr::ImportedVariable(js_ts_code_generator::data::ImportedVariable {
                    module_name: String::from("path"),
                    name: from_string("join"),
                }),
            ),
        ],
        statement_list: vec![],
    };
    let out = js(&code);
    let expected = format!(
        "{}import * as $$$fs from \"fs\";\nimport * as $$$path from \"path\";\n\n\nexport const read = $$$fs.readFile;\n\n\n\nexport const write = $$$fs.writeFile;\n\n\n\nexport const joined = $$$path.join;\n",
        HEADER
    );
    assert_eq!(out, expected);
    assert_eq!(out.matches("import * as $$$fs").count(), 1);
    assert_eq!(out.matches("$$$fs.").count(), 2);
}

#[test]
fn test_statement_variants() {
    let body = vec![
        Statement::VariableDefinition(VariableDefinitionStatement {
            name: from_string("i"),
            type_: Type::Number,
            expr: Expr::NumberLiteral(0),
            is_const: false,
        }),
        Statement::SetStatement(SetStatement {
            target: Expr::Variable(from_string("i")),
            operator_maybe: Some(BinaryOperator::Addition),
            expr: Expr::NumberLiteral(1),
        }),
        Statement::If(IfStatement {
            condition: Expr::BooleanLiteral(true),
            then_statement_list: vec![Statement::ThrowError(Expr::StringLiteral(String::from(
                "bad",
            )))],
        }),
        Statement::For(ForStatement {
            counter_variable_name: from_string("k"),
            until_expr: Expr::NumberLiteral(10),
            statement_list: vec![Statement::Break],
        }),
        Statement::ForOf(ForOfStatement {
            element_variable_name: from_string("x"),
            iterable_expr: Expr::ArrayLiteral(Box::new(vec![
                ArrayItem { expr: Expr::NumberLiteral(1), spread: false },
                ArrayItem { expr: Expr::Variable(from_string("rest")), spread: true },
            ])),
            statement_list: vec![Statement::EvaluateExpr(Expr::Variable(from_string("x")))],
        }),
        Statement::WhileTrue(vec![Statement::Continue]),
        Statement::Switch(SwitchStatement {
            expr: Expr::Variable(from_string("s")),
            pattern_list: vec![
                Pattern {
                    case_string: String::from("a"),
                    statement_list: vec![Statement::ReturnVoid],
                },
                Pattern {
                    case_string: String::from("b"),
                    statement_list: vec![Statement::Return(Expr::NumberLiteral(1))],
                },
            ],
        }),
        Statement::ReturnVoid,
    ];
    let code = Code {
        export_definition_list: vec![ExportDefinition::Function(Function {
            name: from_string("demo"),
            document: String::new(),
            type_parameter_list: vec![],
            parameter_list: vec![],
            return_type: Type::Void,
            statement_list: body,
        })],
        statement_list: vec![],
    };
    let expected = format!(
        "{}\nexport const demo = () => {{\n  let i = 0;\n  i += 1;\n  if (true) {{\n    throw \"bad\";\n  }}\n  for (let k = 0; k < 10; k += 1) {{\n    break;\n  }}\n  for (const x of [1, ...rest]) {{\n    x;\n  }}\n  while (true) {{\n    continue;\n  }}\n  switch (s) {{\n    case \"a\": {{\n      return;\n    }}\n    case \"b\": {{\n      return 1;\n    }}\n  }}\n  return;\n}};\n",
        HEADER
    );
    assert_eq!(js(&code), expected);
}

#[test]
fn test_expression_variants() {
    let ternary = Expr::ConditionalOperator(Box::new(ConditionalOperatorExpr {
        condition: Expr::BooleanLiteral(true),
        then_expr: Expr::NumberLiteral(1),
        else_expr: Expr::NumberLiteral(2),
    }));
    let assertion = Expr::TypeAssertion(Box::new(TypeAssertion {
        expr: Expr::NumberLiteral(1),
        type_: Type::String,
    }));
    let object = Expr::ObjectLiteral(Box::new(vec![
        Member::KeyValue(KeyValue { key: String::from("a"), value: Expr::NumberLiteral(1) }),
        Member::KeyValue(KeyValue {
            key: String::from("content-type"),
            value: Expr::NumberLiteral(2),
        }),
        Member::Spread(Expr::Variable(from_string("rest"))),
    ]));
    let lambda = Expr::Lambda(Box::new(LambdaExpr {
        parameter_list: vec![Parameter { name: from_string("x"), type_: Type::Number }],
        type_parameter_list: vec![],
        return_type: Type::Number,
        statement_list: vec![Statement::Return(Expr::Variable(from_string("x")))],
    }));
    let created = Expr::New(Box::new(js_ts_code_generator::data::CallExpr {
        expr: Expr::GlobalObjects(from_string("Date")),
        parameter_list: vec![],
    }));
    let escaped = Expr::StringLiteral(String::from("a\"b\\c\nd"));
    let code = Code {
        export_definition_list: vec![
            variable("t", Type::Number, ternary),
            variable("u", Type::String, assertion),
            variable("o", Type::Number, object),
            variable("f", Type::Number, lambda),
            variable("d", Type::Number, created),
            variable("s", Type::String, escaped),
        ],
        statement_list: vec![],
    };
    let expected_ts = format!(
        "{}\nexport const t: number = true ? 1 : 2;\n\n\n\nexport const u: string = 1 as string;\n\n\n\nexport const o: number = {{ a: 1, \"content-type\": 2, ...rest }};\n\n\n\nexport const f: number = (x: number): number => (x);\n\n\n\nexport const d: number = new Date();\n\n\n\nexport const s: string = \"a\\\"b\\\\c\\nd\";\n",
        HEADER
    );
    let expected_js = format!(
        "{}\nexport const t = true ? 1 : 2;\n\n\n\nexport const u = 1;\n\n\n\nexport const o = {{ a: 1, \"content-type\": 2, ...rest }};\n\n\n\nexport const f = (x) => (x);\n\n\n\nexport const d = new Date();\n\n\n\nexport const s = \"a\\\"b\\\\c\\nd\";\n",
        HEADER
    );
    assert_eq!(ts(&code), expected_ts);
    assert_eq!(js(&code), expected_js);
}

#[test]
fn test_type_variants() {
    let object_alias = ExportDefinition::TypeAlias(TypeAlias {
        name: from_string("T"),
        type_parameter_list: vec![from_string("A")],
        document: String::from("doc"),
        type_: Type::Object(Box::new(vec![
            MemberType {
                name: String::from("x"),
                required: true,
                type_: Type::Number,
                document: String::new(),
            },
            MemberType {
                name: String::from("y"),
                required: false,
                type_: Type::Union(Box::new(vec![Type::String, Type::Null])),
                document: String::new(),
            },
        ])),
    });
    let function_alias = ExportDefinition::TypeAlias(TypeAlias {
        name: from_string("F"),
        type_parameter_list: vec![],
        document: String::new(),
        type_: Type::Function(Box::new(FunctionType {
            type_parameter_list: vec![],
            parameter_list: vec![Type::Number, Type::String],
            return_type: Type::Void,
        })),
    });
    let mixed_alias = ExportDefinition::TypeAlias(TypeAlias {
        name: from_string("M"),
        type_parameter_list: vec![],
        document: String::new(),
        type_: Type::Intersection(Box::new(IntersectionType {
            left: Type::ScopeInFile(from_string("A")),
            right: Type::WithTypeParameter(Box::new(TypeWithTypeParameter {
                type_: Type::ScopeInGlobal(from_string("Map")),
                type_parameter_list: vec![Type::String, Type::StringLiteral(String::from("lit"))],
            })),
        })),
    });
    let code = Code {
        export_definition_list: vec![object_alias, function_alias, mixed_alias],
        statement_list: vec![],
    };
    let expected_ts = format!(
        "{}\n/**\n * doc\n */\nexport type T<A> = {{ x: number; y?: string | null }};\n\n\n\nexport type F = (p0: number, p1: string) => void;\n\n\n\nexport type M = A & Map<string, \"lit\">;\n",
        HEADER
    );
    assert_eq!(ts(&code), expected_ts);
    let expected_js = format!("{}\n\n\n\n", HEADER);
    assert_eq!(js(&code), expected_js);
}

#[test]
fn test_erasure_scenario() {
    let with_types = Code {
        export_definition_list: vec![variable("v", Type::Number, Expr::NumberLiteral(1))],
        statement_list: vec![],
    };
    let with_other_types = Code {
        export_definition_list: vec![variable(
            "v",
            Type::Union(Box::new(vec![Type::String, Type::Never])),
            Expr::NumberLiteral(1),
        )],
        statement_list: vec![],
    };
    assert_eq!(js(&with_types), js(&with_other_types));
    assert_eq!(js(&with_types), format!("{}\nexport const v = 1;\n", HEADER));
}

#[test]
fn test_jsdoc_multiline() {
    let code = Code {
        export_definition_list: vec![ExportDefinition::Variable(Variable {
            name: from_string("v"),
            document: String::from("line1\nline2"),
            type_: Type::Number,
            expr: Expr::NumberLiteral(1),
        })],
        statement_list: vec![],
    };
    let expected = format!(
        "{}\n/**\n * line1\n * line2\n */\nexport const v = 1;\n",
        HEADER
    );
    assert_eq!(js(&code), expected);
}

#[test]
fn test_type_parameters_and_local_functions() {
    let identity = ExportDefinition::Function(Function {
        name: from_string("identity"),
        document: String::new(),
        type_parameter_list: vec![from_string("T")],
        parameter_list: vec![ParameterWithDocument {
            name: from_string("x"),
            document: String::new(),
            type_: Type::ScopeInFile(from_string("T")),
        }],
        return_type: Type::ScopeInFile(from_string("T")),
        statement_list: vec![Statement::Return(Expr::Variable(from_string("x")))],
    });
    let outer = ExportDefinition::Function(Function {
        name: from_string("outer"),
        document: String::new(),
        type_parameter_list: vec![],
        parameter_list: vec![],
        return_type: Type::Void,
        statement_list: vec![
            Statement::FunctionDefinition(FunctionDefinitionStatement {
                name: from_string("inner"),
                type_parameter_list: vec![],
                parameter_list: vec![ParameterWithDocument {
                    name: from_string("y"),
                    document: String::new(),
                    type_: Type::Number,
                }],
                return_type: Type::Number,
                statement_list: vec![Statement::Return(Expr::Variable(from_string("y")))],
            }),
            Statement::SetStatement(SetStatement {
                target: Expr::Variable(from_string("z")),
                operator_maybe: None,
                expr: Expr::NumberLiteral(3),
            }),
        ],
    });
    let v = variable(
        "v",
        Type::ImportedType(ImportedType {
            module_name: String::from("three"),
            name: from_string("Vec3"),
        }),
        Expr::ImportedVariable(ImportedVariable {
            module_name: String::from("three"),
            name: from_string("origin"),
        }),
    );
    let code = Code { export_definition_list: vec![identity, outer, v], statement_list: vec![] };
    let expected_ts = format!(
        "{}import * as $$$three from \"three\";\n\n\nexport const identity = <T>(x: T): T => (x);\n\n\n\nexport const outer = (): void => {{\n  const inner = (y: number): number => (y);\n  z = 3;\n}};\n\n\n\nexport const v: $$$three.Vec3 = $$$three.origin;\n",
        HEADER
    );
    let expected_js = format!(
        "{}import * as $$$three from \"three\";\n\n\nexport const identity = (x) => (x);\n\n\n\nexport const outer = () => {{\n  const inner = (y) => (y);\n  z = 3;\n}};\n\n\n\nexport const v = $$$three.origin;\n",
        HEADER
    );
    assert_eq!(ts(&code), expected_ts);
    assert_eq!(js(&code), expected_js);
}

#[test]
fn test_builders() {
    let code = Code {
        export_definition_list: vec![
            variable(
                "m",
                Type::Number,
                util::call_math_method("floor", vec![Expr::NumberLiteral(3)]),
            ),
            variable("s", Type::Number, util::new_set(Expr::ArrayLiteral(Box::new(vec![])))),
            variable(
                "sh",
                Type::Number,
                util::unsigned_right_shift(Expr::NumberLiteral(-8), Expr::NumberLiteral(2)),
            ),
        ],
        statement_list: vec![util::console_log(Expr::StringLiteral(String::from("hi")))],
    };
    let expected = format!(
        "{}\nexport const m = Math.floor(3);\n\n\n\nexport const s = new Set([]);\n\n\n\nexport const sh = -8 >>> 2;\n\n{{\n  console.log(\"hi\");\n}}",
        HEADER
    );
    assert_eq!(js(&code), expected);
}
