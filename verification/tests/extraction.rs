use ts_symbols::ast::AstNode;
use ts_symbols::defs::extract_definitions;
use ts_symbols::parser::TypeScriptParser;
use ts_symbols::symbols::SymbolKind;
use ts_symbols::usages::{extract_usages, resolve_callee_name};

#[test]
fn test_parse_simple_function() {
    let parser = TypeScriptParser::new().unwrap();
    let source = r#"
function hello() {
    console.log("Hello, world!");
}
"#;
    let result = parser.parse(source, "test.ts");
    assert!(result.is_ok());

    let parsed = result.unwrap();
    assert_eq!(parsed.definitions.len(), 1);
    assert_eq!(parsed.definitions[0].name, "hello");
}

#[test]
fn test_parse_arrow_function() {
    let parser = TypeScriptParser::new().unwrap();
    let source = r#"
const greet = () => {
    console.log("Hello!");
};
"#;
    let result = parser.parse(source, "test.ts");
    assert!(result.is_ok());

    let parsed = result.unwrap();
    assert_eq!(parsed.definitions.len(), 1);
    assert_eq!(parsed.definitions[0].name, "greet");
}

#[test]
fn test_parse_class_with_methods() {
    let parser = TypeScriptParser::new().unwrap();
    let source = r#"
class Calculator {
    add(a: number, b: number) {
        return a + b;
    }

    subtract(a: number, b: number) {
        return a - b;
    }
}
"#;
    let result = parser.parse(source, "test.ts");
    assert!(result.is_ok());

    let parsed = result.unwrap();
    // Should have 1 class + 2 methods = 3 definitions
    assert_eq!(parsed.definitions.len(), 3);
}

#[test]
fn test_parse_function_calls() {
    let parser = TypeScriptParser::new().unwrap();
    let source = r#"
function foo() {
    return 42;
}

function bar() {
    foo();
    console.log("test");
}
"#;
    let result = parser.parse(source, "test.ts");
    assert!(result.is_ok());

    let parsed = result.unwrap();
    assert_eq!(parsed.definitions.len(), 2); // foo, bar
    assert!(parsed.usages.len() >= 1); // At least foo() call
}

#[test]
fn test_function_definition_kind_and_location() {
    let parser = TypeScriptParser::new().unwrap();
    let parsed = parser.parse("function hello() {}", "test.ts").unwrap();
    assert_eq!(parsed.path, "test.ts");
    assert_eq!(parsed.definitions.len(), 1);
    let def = &parsed.definitions[0];
    assert_eq!(def.name, "hello");
    assert_eq!(def.kind, SymbolKind::Function);
    assert_eq!(def.location.file, "test.ts");
    assert_eq!(def.location.line, 1);
    assert_eq!(def.location.column, 9);
}

#[test]
fn test_arrow_binding_classified_like_function() {
    let parser = TypeScriptParser::new().unwrap();
    let parsed = parser.parse("const greet = () => { return 1; };", "test.ts").unwrap();
    assert_eq!(parsed.definitions.len(), 1);
    let def = &parsed.definitions[0];
    assert_eq!(def.name, "greet");
    assert_eq!(def.kind, SymbolKind::Function);
    assert_eq!(def.location.column, 6);
}

#[test]
fn test_class_methods_carry_class_name() {
    let parser = TypeScriptParser::new().unwrap();
    let source = "class Calculator {\n    add(a, b) { return a + b; }\n    subtract(a, b) { return a - b; }\n}\n";
    let parsed = parser.parse(source, "test.ts").unwrap();
    assert_eq!(parsed.definitions.len(), 3);
    assert_eq!(parsed.definitions[0].name, "Calculator");
    assert_eq!(parsed.definitions[0].kind, SymbolKind::Class);
    assert_eq!(parsed.definitions[1].name, "add");
    assert_eq!(
        parsed.definitions[1].kind,
        SymbolKind::Method { class_name: "Calculator".to_string() }
    );
    assert_eq!(parsed.definitions[2].name, "subtract");
    assert_eq!(
        parsed.definitions[2].kind,
        SymbolKind::Method { class_name: "Calculator".to_string() }
    );
}

#[test]
fn test_member_call_records_property_name_only() {
    let parser = TypeScriptParser::new().unwrap();
    let parsed = parser.parse("obj.method();", "test.ts").unwrap();
    assert_eq!(parsed.usages.len(), 1);
    assert_eq!(parsed.usages[0].name, "method");
    assert_eq!(parsed.usages[0].kind, SymbolKind::Function);
}

#[test]
fn test_instantiation_records_class_usage() {
    let parser = TypeScriptParser::new().unwrap();
    let parsed = parser.parse("const x = new Foo();", "test.ts").unwrap();
    assert_eq!(parsed.definitions.len(), 0);
    let class_usages: Vec<_> =
        parsed.usages.iter().filter(|u| u.kind == SymbolKind::Class).collect();
    assert_eq!(class_usages.len(), 1);
    assert_eq!(class_usages[0].name, "Foo");
}

#[test]
fn test_nested_call_yields_both_usages() {
    let parser = TypeScriptParser::new().unwrap();
    let parsed = parser.parse("a(b());", "test.ts").unwrap();
    let names: Vec<&str> = parsed.usages.iter().map(|u| u.name.as_str()).collect();
    assert_eq!(names, vec!["a", "b"]);
}

#[test]
fn test_anonymous_arrow_yields_no_definition() {
    let parser = TypeScriptParser::new().unwrap();
    let parsed = parser.parse("[1, 2].map(x => x + 1);", "test.ts").unwrap();
    assert_eq!(parsed.definitions.len(), 0);
}

#[test]
fn test_parse_is_idempotent() {
    let parser = TypeScriptParser::new().unwrap();
    let source = "class A { m() { other.run(); } }\nfunction f() { return new A(); }\n";
    let first = parser.parse(source, "test.ts").unwrap();
    let second = parser.parse(source, "test.ts").unwrap();
    assert_eq!(first, second);
}

#[test]
fn test_all_names_nonempty() {
    let parser = TypeScriptParser::new().unwrap();
    let source = "function f() {}\nconst g = () => {};\nclass C { m() { f(); obj.p(); } }\nnew C();\n(function () {})();\n";
    let parsed = parser.parse(source, "test.ts").unwrap();
    for d in &parsed.definitions {
        assert!(!d.name.is_empty());
    }
    for u in &parsed.usages {
        assert!(!u.name.is_empty());
    }
}

fn leaf(kind: &str, field: Option<&str>, text: &str, row: usize, column: usize) -> AstNode {
    AstNode {
        kind: kind.to_string(),
        row,
        column,
        text: text.to_string(),
        field: field.map(|f| f.to_string()),
        children: Vec::new(),
    }
}

#[test]
fn test_extract_definitions_on_model_tree() {
    // const greet = () => {}; modelled directly as nodes.
    let declarator = AstNode {
        kind: "variable_declarator".to_string(),
        row: 0,
        column: 6,
        text: "greet = () => {}".to_string(),
        field: None,
        children: vec![
            leaf("identifier", Some("name"), "greet", 0, 6),
            leaf("arrow_function", Some("value"), "() => {}", 0, 14),
        ],
    };
    let defs = extract_definitions(&declarator, "model.ts");
    assert_eq!(defs.len(), 1);
    assert_eq!(defs[0].name, "greet");
    assert_eq!(defs[0].kind, SymbolKind::Function);
    assert_eq!(defs[0].location.line, 1);
    assert_eq!(defs[0].location.column, 6);
}

#[test]
fn test_extract_usages_on_model_tree() {
    // new Foo(); modelled directly as nodes.
    let new_expr = AstNode {
        kind: "new_expression".to_string(),
        row: 3,
        column: 0,
        text: "new Foo()".to_string(),
        field: None,
        children: vec![leaf("identifier", Some("constructor"), "Foo", 3, 4)],
    };
    let usages = extract_usages(&new_expr, "model.ts");
    assert_eq!(usages.len(), 1);
    assert_eq!(usages[0].name, "Foo");
    assert_eq!(usages[0].kind, SymbolKind::Class);
    assert_eq!(usages[0].location.line, 4);
    assert_eq!(usages[0].location.column, 4);
}

#[test]
fn test_resolve_callee_name_shapes() {
    let ident = leaf("identifier", None, "foo", 0, 0);
    assert_eq!(resolve_callee_name(&ident), "foo");

    let member = AstNode {
        kind: "member_expression".to_string(),
        row: 0,
        column: 0,
        text: "obj.method".to_string(),
        field: None,
        children: vec![
            leaf("identifier", Some("object"), "obj", 0, 0),
            leaf("property_identifier", Some("property"), "method", 0, 4),
        ],
    };
    assert_eq!(resolve_callee_name(&member), "method");

    let computed = leaf("subscript_expression", None, "obj[k]", 0, 0);
    assert_eq!(resolve_callee_name(&computed), "");
}
