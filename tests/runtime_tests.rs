use saba_js::{
    execute_js, JsLexer, JsParser, JsRuntime, Node, RuntimeError, RuntimeValue, ScriptError,
    SyntaxError,
};

fn run(input: &str) -> Result<JsRuntime, ScriptError> {
    execute_js(input.to_string())
}

fn value_of(input: &str, name: &str) -> Option<RuntimeValue> {
    run(input).unwrap().get(&name.to_string())
}

fn eval_each(input: &str) -> Vec<Result<Option<RuntimeValue>, RuntimeError>> {
    let lexer = JsLexer::new(input.to_string());
    let mut parser = JsParser::new(lexer);
    let ast = parser.parse_ast().unwrap();
    let mut runtime = JsRuntime::new();
    let mut out = Vec::new();
    for node in ast.body() {
        out.push(runtime.eval(&Some(node.clone())));
    }
    out
}

#[test]
fn runtime_test_num() {
    let input = "42".to_string();
    let lexer = JsLexer::new(input);
    let mut parser = JsParser::new(lexer);
    let ast = parser.parse_ast().unwrap();
    let mut runtime = JsRuntime::new();
    let expected = [Some(RuntimeValue::Number(42))];

    let mut i = 0;
    for node in ast.body() {
        let result = runtime.eval(&Some(node.clone()));
        assert_eq!(result, Ok(expected[i].clone()));
        i += 1;
    }
}

#[test]
fn runtime_test_add_nums() {
    let input = "1 + 2".to_string();
    let lexer = JsLexer::new(input);
    let mut parser = JsParser::new(lexer);
    let ast = parser.parse_ast().unwrap();
    let mut runtime = JsRuntime::new();
    let expected = [Some(RuntimeValue::Number(3))];

    let mut i = 0;
    for node in ast.body() {
        let result = runtime.eval(&Some(node.clone()));
        assert_eq!(result, Ok(expected[i].clone()));
        i += 1;
    }
}

#[test]
fn test_sub_nums() {
    let input = "2 - 1".to_string();
    let lexer = JsLexer::new(input);
    let mut parser = JsParser::new(lexer);
    let ast = parser.parse_ast().unwrap();
    let mut runtime = JsRuntime::new();
    let expected = [Some(RuntimeValue::Number(1))];

    let mut i = 0;
    for node in ast.body() {
        let result = runtime.eval(&Some(node.clone()));
        assert_eq!(result, Ok(expected[i].clone()));
        i += 1;
    }
}

#[test]
fn subtraction_is_right_associative() {
    assert_eq!(eval_each("1 - 2 - 3"), vec![Ok(Some(RuntimeValue::Number(2)))]);
    assert_eq!(eval_each("10 - 4 - 3 + 1"), vec![Ok(Some(RuntimeValue::Number(10)))]);
}

#[test]
fn addition_chain() {
    assert_eq!(eval_each("1 + 2 + 3"), vec![Ok(Some(RuntimeValue::Number(6)))]);
}

#[test]
fn arithmetic_wraps() {
    assert_eq!(eval_each("0 - 1"), vec![Ok(Some(RuntimeValue::Number(u64::MAX)))]);
    assert_eq!(
        eval_each("18446744073709551615 + 2"),
        vec![Ok(Some(RuntimeValue::Number(1)))]
    );
}

#[test]
fn call_result_binds_variable() {
    let runtime = run("function foo() { return 42; } var result = foo() + 1;").unwrap();
    assert_eq!(runtime.get(&"result".to_string()), Some(RuntimeValue::Number(43)));
}

#[test]
fn execute_keeps_bindings() {
    let lexer = JsLexer::new("var foo=42; var result=foo+1;".to_string());
    let mut parser = JsParser::new(lexer);
    let program = parser.parse_ast().unwrap();
    let mut runtime = JsRuntime::new();
    assert_eq!(runtime.execute(&program), Ok(()));
    assert_eq!(runtime.get(&"foo".to_string()), Some(RuntimeValue::Number(42)));
    assert_eq!(runtime.get(&"result".to_string()), Some(RuntimeValue::Number(43)));
}

#[test]
fn parameters_bind_positionally() {
    assert_eq!(
        value_of("function add(a, b) { return a - b; } var r = add(10, 3);", "r"),
        Some(RuntimeValue::Number(7))
    );
}

#[test]
fn missing_argument_is_undefined_and_extra_is_ignored() {
    assert_eq!(
        value_of("function f(a, b) { return b; } var r = f(1);", "r"),
        Some(RuntimeValue::Undefined)
    );
    assert_eq!(
        value_of("function g(a) { return a; } var r = g(5, 6);", "r"),
        Some(RuntimeValue::Number(5))
    );
}

#[test]
fn call_without_return_is_undefined() {
    assert_eq!(
        value_of("function f() { var x = 1; } var r = f();", "r"),
        Some(RuntimeValue::Undefined)
    );
}

#[test]
fn return_stops_the_body() {
    assert_eq!(
        value_of("var g = 0; function f() { return 1; g = 5; } var r = f();", "g"),
        Some(RuntimeValue::Number(0))
    );
}

#[test]
fn locals_shadow_and_do_not_leak() {
    let runtime =
        run("var a = 1; function f(a) { var b = a + 1; return b; } var r = f(10);").unwrap();
    assert_eq!(runtime.get(&"r".to_string()), Some(RuntimeValue::Number(11)));
    assert_eq!(runtime.get(&"a".to_string()), Some(RuntimeValue::Number(1)));
    assert_eq!(runtime.get(&"b".to_string()), None);
}

#[test]
fn assignment_rebinds_global_from_function() {
    assert_eq!(
        value_of("var c = 1; function inc() { c = c + 1; } inc(); inc();", "c"),
        Some(RuntimeValue::Number(3))
    );
}

#[test]
fn assignment_creates_in_current_scope() {
    let runtime = run("function f() { t = 4; return t; } var r = f(); x = 2;").unwrap();
    assert_eq!(runtime.get(&"r".to_string()), Some(RuntimeValue::Number(4)));
    assert_eq!(runtime.get(&"t".to_string()), None);
    assert_eq!(runtime.get(&"x".to_string()), Some(RuntimeValue::Number(2)));
}

#[test]
fn assignment_value_is_the_assigned_value() {
    assert_eq!(eval_each("var a; a = 9"), vec![Ok(None), Ok(Some(RuntimeValue::Number(9)))]);
}

#[test]
fn strings_concatenate() {
    assert_eq!(
        value_of("var s = 'ab' + \"cd\";", "s"),
        Some(RuntimeValue::String("abcd".to_string()))
    );
}

#[test]
fn var_without_initializer_is_undefined() {
    assert_eq!(value_of("var x;", "x"), Some(RuntimeValue::Undefined));
}

#[test]
fn function_name_denotes_its_declaration() {
    let runtime = run("function f() { return 1; } var r = f();").unwrap();
    assert_eq!(runtime.get(&"r".to_string()), Some(RuntimeValue::Number(1)));
    let decl = Node::new_function_declaration(
        Node::new_identifier("f".to_string()),
        vec![],
        Node::new_block_statement(vec![Node::new_return_statement(Node::new_numeric_literal(
            1,
        ))]),
    )
    .unwrap();
    assert_eq!(runtime.get(&"f".to_string()), Some(RuntimeValue::Function(decl)));
}

#[test]
fn declaration_leaves_variable_of_same_name() {
    let runtime = run("var f = 1; function f() { return 2; } var r = f() + f;").unwrap();
    assert_eq!(runtime.get(&"f".to_string()), Some(RuntimeValue::Number(1)));
    assert_eq!(runtime.get(&"r".to_string()), Some(RuntimeValue::Number(3)));
}

#[test]
fn eval_of_declaration_gives_no_value() {
    let lexer = JsLexer::new("var f = 5; function f() { return 7; } f()".to_string());
    let mut parser = JsParser::new(lexer);
    let ast = parser.parse_ast().unwrap();
    let mut runtime = JsRuntime::new();
    let mut results = Vec::new();
    for node in ast.body() {
        results.push(runtime.eval(&Some(node.clone())));
    }
    assert_eq!(results, vec![Ok(None), Ok(None), Ok(Some(RuntimeValue::Number(7)))]);
    assert_eq!(runtime.get(&"f".to_string()), Some(RuntimeValue::Number(5)));
}

#[test]
fn variable_holding_a_function_is_not_callable_by_name() {
    assert_eq!(
        run("function f() { return 1; } var g = f; g();").err(),
        Some(ScriptError::Runtime(RuntimeError::UndeclaredFunction))
    );
}

#[test]
fn local_function_stays_in_its_call() {
    let runtime = run("function outer() { function inner() { return 4; } return inner(); } var r = outer();").unwrap();
    assert_eq!(runtime.get(&"r".to_string()), Some(RuntimeValue::Number(4)));
    assert_eq!(runtime.get(&"inner".to_string()), None);
}

#[test]
fn call_of_member_is_not_callable() {
    assert_eq!(
        run("var a = 1; a.b();").err(),
        Some(ScriptError::Runtime(RuntimeError::NotCallable))
    );
}

#[test]
fn call_limit_is_set_by_the_host() {
    let lexer = JsLexer::new(
        "function f(n) { return g(n); } function g(n) { return n; } var r = f(3);".to_string(),
    );
    let mut parser = JsParser::new(lexer);
    let program = parser.parse_ast().unwrap();
    let mut shallow = JsRuntime::with_call_limit(1);
    assert_eq!(shallow.execute(&program), Err(RuntimeError::CallDepthExceeded));
    let mut deep = JsRuntime::with_call_limit(2);
    assert_eq!(deep.execute(&program), Ok(()));
    assert_eq!(deep.get(&"r".to_string()), Some(RuntimeValue::Number(3)));
}

#[test]
fn member_access_gives_undefined() {
    assert_eq!(value_of("var a = 1; var b = a.length;", "b"), Some(RuntimeValue::Undefined));
}

#[test]
fn unresolved_identifier_is_an_error() {
    assert_eq!(
        run("var a = b;").err(),
        Some(ScriptError::Runtime(RuntimeError::UnresolvedIdentifier))
    );
}

#[test]
fn no_hoisting_of_functions() {
    assert_eq!(
        run("foo(); function foo() { return 1; }").err(),
        Some(ScriptError::Runtime(RuntimeError::UndeclaredFunction))
    );
}

#[test]
fn calling_a_variable_is_an_error() {
    assert_eq!(
        run("var x = 1; x();").err(),
        Some(ScriptError::Runtime(RuntimeError::UndeclaredFunction))
    );
}

#[test]
fn mixed_operands_are_a_type_error() {
    assert_eq!(
        run("var s = 1 + 'a';").err(),
        Some(ScriptError::Runtime(RuntimeError::TypeMismatch))
    );
    assert_eq!(
        run("var s = 'a' - 'b';").err(),
        Some(ScriptError::Runtime(RuntimeError::TypeMismatch))
    );
}

#[test]
fn assigning_to_a_literal_is_an_error() {
    assert_eq!(
        run("1 = 2;").err(),
        Some(ScriptError::Runtime(RuntimeError::InvalidAssignmentTarget))
    );
}

#[test]
fn unsupported_operator_is_an_error() {
    let mut runtime = JsRuntime::new();
    let node = Node::new_addirive_expression('*', Node::new_numeric_literal(2), Node::new_numeric_literal(3));
    assert_eq!(runtime.eval(&node), Err(RuntimeError::UnsupportedOperator));
}

#[test]
fn runaway_recursion_is_stopped() {
    assert_eq!(
        run("function f() { return f(); } f();").err(),
        Some(ScriptError::Runtime(RuntimeError::CallDepthExceeded))
    );
}

#[test]
fn top_level_return_ends_the_run() {
    let runtime = run("var a = 1; return 2; var a = 3;").unwrap();
    assert_eq!(runtime.get(&"a".to_string()), Some(RuntimeValue::Number(1)));
}

#[test]
fn hole_operand_gives_no_value() {
    assert_eq!(eval_each("1 + ;"), vec![Ok(None)]);
}

#[test]
fn syntax_error_runs_nothing() {
    assert_eq!(
        run("var a = 1; function f {").err(),
        Some(ScriptError::Syntax(SyntaxError::MissingParameterList))
    );
}

#[test]
fn partial_effects_stay_before_an_error() {
    let lexer = JsLexer::new("var a = 1; var b = c; var d = 2;".to_string());
    let mut parser = JsParser::new(lexer);
    let program = parser.parse_ast().unwrap();
    let mut runtime = JsRuntime::new();
    assert_eq!(runtime.execute(&program), Err(RuntimeError::UnresolvedIdentifier));
    assert_eq!(runtime.get(&"a".to_string()), Some(RuntimeValue::Number(1)));
    assert_eq!(runtime.get(&"d".to_string()), None);
}
