use saba_js::{JsLexer, JsParser, LexError, Node, Program, SyntaxError};
use std::rc::Rc;

fn parse(input: &str) -> Result<Program, SyntaxError> {
    let lexer = JsLexer::new(input.to_string());
    let mut parser = JsParser::new(lexer);
    parser.parse_ast()
}

#[test]
fn ast_test_empty() {
    let input = "".to_string();
    let lexer = JsLexer::new(input);
    let mut parser = JsParser::new(lexer);
    let expected = Program::new();
    assert_eq!(Ok(expected), parser.parse_ast());
}

#[test]
fn ast_test_num() {
    let input = "42".to_string();
    let lexer = JsLexer::new(input);
    let mut parser = JsParser::new(lexer);
    let mut expected = Program::new();
    let mut body = Vec::new();
    body.push(Rc::new(Node::ExpressionStatement(Some(Rc::new(
        Node::NumericLiteral(42),
    )))));
    expected.set_body(body);
    assert_eq!(Ok(expected), parser.parse_ast());
}

#[test]
fn ast_test_add_nums() {
    let input = "1 + 2".to_string();
    let lexer = JsLexer::new(input);
    let mut parser = JsParser::new(lexer);
    let mut expected = Program::new();
    let mut body = Vec::new();
    body.push(Rc::new(Node::ExpressionStatement(Some(Rc::new(
        Node::AdditiveExpression {
            operator: '+',
            left: Some(Rc::new(Node::NumericLiteral(1))),
            right: Some(Rc::new(Node::NumericLiteral(2))),
        },
    )))));
    expected.set_body(body);
    assert_eq!(Ok(expected), parser.parse_ast());
}

#[test]
fn test_assign_variable() {
    let input = "var foo=\"bar\";".to_string();
    let lexer = JsLexer::new(input);
    let mut parser = JsParser::new(lexer);
    let mut expected = Program::new();
    let mut body = Vec::new();
    body.push(Rc::new(Node::VariableDeclaration {
        declarations: [Some(Rc::new(Node::VariableDeclarator {
            id: Some(Rc::new(Node::Identifier("foo".to_string()))),
            init: Some(Rc::new(Node::StringLiteral("bar".to_string()))),
        }))]
        .to_vec(),
    }));
    expected.set_body(body);
    assert_eq!(Ok(expected), parser.parse_ast());
}

#[test]
fn test_add_variable_and_num() {
    let input = "var foo=42; var result=foo+1;".to_string();
    let lexer = JsLexer::new(input);
    let mut parser = JsParser::new(lexer);
    let mut expected = Program::new();
    let mut body = Vec::new();
    body.push(Rc::new(Node::VariableDeclaration {
        declarations: [Some(Rc::new(Node::VariableDeclarator {
            id: Some(Rc::new(Node::Identifier("foo".to_string()))),
            init: Some(Rc::new(Node::NumericLiteral(42))),
        }))]
        .to_vec(),
    }));
    body.push(Rc::new(Node::VariableDeclaration {
        declarations: [Some(Rc::new(Node::VariableDeclarator {
            id: Some(Rc::new(Node::Identifier("result".to_string()))),
            init: Some(Rc::new(Node::AdditiveExpression {
                operator: '+',
                left: Some(Rc::new(Node::Identifier("foo".to_string()))),
                right: Some(Rc::new(Node::NumericLiteral(1))),
            })),
        }))]
        .to_vec(),
    }));
    expected.set_body(body);
    assert_eq!(Ok(expected), parser.parse_ast());
}

#[test]
fn test_define_function() {
    let input = "function foo() { return 42; }".to_string();
    let lexer = JsLexer::new(input);
    let mut parser = JsParser::new(lexer);
    let mut expected = Program::new();
    let mut body = Vec::new();
    body.push(Rc::new(Node::FunctionDeclaration {
        id: Some(Rc::new(Node::Identifier("foo".to_string()))),
        params: [].to_vec(),
        body: Some(Rc::new(Node::BlockStatement {
            body: [Some(Rc::new(Node::ReturnStatement {
                argument: Some(Rc::new(Node::NumericLiteral(42))),
            }))]
            .to_vec(),
        })),
    }));
    expected.set_body(body);
    assert_eq!(Ok(expected), parser.parse_ast());
}

#[test]
fn test_define_function_with_args() {
    let input = "function foo(a, b) { return a+b; }".to_string();
    let lexer = JsLexer::new(input);
    let mut parser = JsParser::new(lexer);
    let mut expected = Program::new();
    let mut body = Vec::new();
    body.push(Rc::new(Node::FunctionDeclaration {
        id: Some(Rc::new(Node::Identifier("foo".to_string()))),
        params: [
            Some(Rc::new(Node::Identifier("a".to_string()))),
            Some(Rc::new(Node::Identifier("b".to_string()))),
        ]
        .to_vec(),
        body: Some(Rc::new(Node::BlockStatement {
            body: [Some(Rc::new(Node::ReturnStatement {
                argument: Some(Rc::new(Node::AdditiveExpression {
                    operator: '+',
                    left: Some(Rc::new(Node::Identifier("a".to_string()))),
                    right: Some(Rc::new(Node::Identifier("b".to_string()))),
                })),
            }))]
            .to_vec(),
        })),
    }));
    expected.set_body(body);
    assert_eq!(Ok(expected), parser.parse_ast());
}

#[test]
fn test_add_function_add_num() {
    let input = "function foo() { return 42; } var result = foo() + 1;".to_string();
    let lexer = JsLexer::new(input);
    let mut parser = JsParser::new(lexer);
    let mut expected = Program::new();
    let mut body = Vec::new();
    body.push(Rc::new(Node::FunctionDeclaration {
        id: Some(Rc::new(Node::Identifier("foo".to_string()))),
        params: [].to_vec(),
        body: Some(Rc::new(Node::BlockStatement {
            body: [Some(Rc::new(Node::ReturnStatement {
                argument: Some(Rc::new(Node::NumericLiteral(42))),
            }))]
            .to_vec(),
        })),
    }));
    body.push(Rc::new(Node::VariableDeclaration {
        declarations: [Some(Rc::new(Node::VariableDeclarator {
            id: Some(Rc::new(Node::Identifier("result".to_string()))),
            init: Some(Rc::new(Node::AdditiveExpression {
                operator: '+',
                left: Some(Rc::new(Node::CallExpression {
                    callee: Some(Rc::new(Node::Identifier("foo".to_string()))),
                    arguments: [].to_vec(),
                })),
                right: Some(Rc::new(Node::NumericLiteral(1))),
            })),
        }))]
        .to_vec(),
    }));
    expected.set_body(body);
    assert_eq!(Ok(expected), parser.parse_ast());
}

fn single_statement(input: &str) -> Rc<Node> {
    let program = parse(input).unwrap();
    assert_eq!(program.body().len(), 1);
    program.body()[0].clone()
}

fn num(v: u64) -> Option<Rc<Node>> {
    Node::new_numeric_literal(v)
}

fn ident(name: &str) -> Option<Rc<Node>> {
    Node::new_identifier(name.to_string())
}

#[test]
fn subtraction_nests_to_the_right() {
    let expected = Node::new_expression_statement(Node::new_addirive_expression(
        '-',
        num(1),
        Node::new_addirive_expression('-', num(2), num(3)),
    ))
    .unwrap();
    assert_eq!(single_statement("1 - 2 - 3"), expected);
}

#[test]
fn assignment_nests_to_the_right() {
    let expected = Node::new_expression_statement(Node::new_assignment_expression(
        '=',
        ident("a"),
        Node::new_assignment_expression('=', ident("b"), num(5)),
    ))
    .unwrap();
    assert_eq!(single_statement("a = b = 5;"), expected);
}

#[test]
fn member_binds_tighter_than_call() {
    let expected = Node::new_expression_statement(Node::new_call_expression(
        Node::new_member_expression(ident("a"), ident("b")),
        vec![num(1), Node::new_string_literal("s".to_string())],
    ))
    .unwrap();
    assert_eq!(single_statement("a.b(1, 's')"), expected);
}

#[test]
fn missing_primary_leaves_a_hole() {
    let expected =
        Node::new_expression_statement(Node::new_addirive_expression('+', num(1), None)).unwrap();
    assert_eq!(single_statement("1 + ;"), expected);
}

#[test]
fn var_without_initializer() {
    let expected = Node::new_variable_declaration(vec![Node::new_variable_declarator(
        ident("x"),
        None,
    )])
    .unwrap();
    assert_eq!(single_statement("var x;"), expected);
}

#[test]
fn return_statement_at_top_level() {
    let expected = Node::new_return_statement(num(7)).unwrap();
    assert_eq!(single_statement("return 7;"), expected);
}

#[test]
fn nested_function_body() {
    let inner = Node::new_function_declaration(
        ident("g"),
        vec![],
        Node::new_block_statement(vec![]),
    );
    let expected = Node::new_function_declaration(
        ident("f"),
        vec![ident("x")],
        Node::new_block_statement(vec![inner]),
    )
    .unwrap();
    assert_eq!(single_statement("function f(x) { function g() {} }"), expected);
}

#[test]
fn function_without_parameter_list_is_fatal() {
    assert_eq!(parse("function foo { }"), Err(SyntaxError::MissingParameterList));
    assert_eq!(parse("function foo"), Err(SyntaxError::MissingParameterList));
}

#[test]
fn function_without_body_is_fatal() {
    assert_eq!(parse("function foo() return 1;"), Err(SyntaxError::MissingFunctionBody));
    assert_eq!(parse("function foo()"), Err(SyntaxError::MissingFunctionBody));
}

#[test]
fn unterminated_function_body_is_fatal() {
    assert_eq!(
        parse("function foo() { return 1;"),
        Err(SyntaxError::UnterminatedFunctionBody)
    );
}

#[test]
fn lex_error_aborts_the_parse() {
    assert_eq!(
        parse("var x = 1; var y = #;"),
        Err(SyntaxError::Lex(LexError::UnexpectedCharacter('#')))
    );
}

#[test]
fn parsing_twice_gives_equal_programs() {
    let text = "function foo(a, b) { return a+b; } var r = foo(1, 2) - 3;";
    let first = parse(text).unwrap();
    let second = parse(text).unwrap();
    assert_eq!(first, second);
    assert_eq!(first.body().len(), 2);
}

#[test]
fn program_body_round_trip() {
    let mut program = Program::new();
    assert!(program.body().is_empty());
    let node = Node::new_numeric_literal(3).unwrap();
    program.set_body(vec![node.clone()]);
    assert_eq!(program.body(), &vec![node]);
}

#[test]
fn var_without_initializer_consumes_only_its_name() {
    let with_semicolon = parse("var x; y;").unwrap();
    let without_semicolon = parse("var x y;").unwrap();
    let expected_decl =
        Node::new_variable_declaration(vec![Node::new_variable_declarator(ident("x"), None)])
            .unwrap();
    let expected_expr = Node::new_expression_statement(ident("y")).unwrap();
    assert_eq!(with_semicolon.body(), &vec![expected_decl.clone(), expected_expr.clone()]);
    assert_eq!(without_semicolon.body(), &vec![expected_decl, expected_expr]);
}

#[test]
fn trailing_semicolon_does_not_change_the_node() {
    assert_eq!(parse("var foo=42"), parse("var foo=42;"));
}
