use uuid_url_module::failure::Failure;
use uuid_url_module::module::{Binding, Declarations, Export, Exports, Operation};
use uuid_url_module::url::UrlModule;

const NAMES: [&str; 12] = [
    "v1", "v3", "v4", "v5", "NIL", "parse", "stringify", "validate", "version", "URL",
    "canParse", "URLSearchParams",
];

fn declared() -> Declarations {
    let mut declarations = Declarations::new();
    UrlModule::declare(&mut declarations);
    declarations
}

fn names_of(exports: &[Export]) -> Vec<&str> {
    exports.iter().map(|e| e.name.as_str()).collect()
}

fn operation_of(exports: &[Export], name: &str) -> Operation {
    match &exports.iter().find(|e| e.name == name).unwrap().value {
        Binding::Function { operation, .. } => *operation,
        Binding::Text(_) => panic!("{} is no function", name),
    }
}

fn fields_of(exports: &[Export], name: &str) -> Vec<(String, String)> {
    match &exports.iter().find(|e| e.name == name).unwrap().value {
        Binding::Function { fields, .. } => fields.clone(),
        Binding::Text(_) => panic!("{} is no function", name),
    }
}

#[test]
fn declares_every_export_and_the_default() {
    let declarations = declared();
    let mut want: Vec<String> = NAMES.iter().map(|n| n.to_string()).collect();
    want.push("default".to_string());
    assert_eq!(declarations.names(), &want);
    for name in NAMES {
        assert!(declarations.contains(name));
    }
    assert!(declarations.contains("default"));
    assert!(!declarations.contains("echo"));
}

#[test]
fn declares_after_what_was_declared() {
    let mut declarations = Declarations::new();
    declarations.declare("other");
    UrlModule::declare(&mut declarations);
    assert_eq!(declarations.names().len(), 14);
    assert_eq!(declarations.names()[0], "other");
    assert_eq!(declarations.names()[1], "v1");
}

#[test]
fn exports_in_order() {
    let table = UrlModule::exports();
    assert_eq!(names_of(&table), NAMES.to_vec());
}

#[test]
fn exports_bind_the_operations() {
    let table = UrlModule::exports();
    assert_eq!(operation_of(&table, "v1"), Operation::GenerateV1);
    assert_eq!(operation_of(&table, "v3"), Operation::GenerateV3);
    assert_eq!(operation_of(&table, "v4"), Operation::GenerateV4);
    assert_eq!(operation_of(&table, "v5"), Operation::GenerateV5);
    assert_eq!(operation_of(&table, "parse"), Operation::Stringify);
    assert_eq!(operation_of(&table, "stringify"), Operation::Stringify);
    assert_eq!(operation_of(&table, "validate"), Operation::Validate);
    assert_eq!(operation_of(&table, "version"), Operation::Version);
    assert_eq!(operation_of(&table, "URL"), Operation::Construct);
    assert_eq!(operation_of(&table, "canParse"), Operation::CanParse);
    assert_eq!(operation_of(&table, "URLSearchParams"), Operation::BuildSearchParams);
}

#[test]
fn exports_hang_the_namespaces_on_v3_and_v5() {
    let table = UrlModule::exports();
    let want = vec![
        ("DNS".to_string(), "6ba7b810-9dad-11d1-80b4-00c04fd430c8".to_string()),
        ("URL".to_string(), "6ba7b811-9dad-11d1-80b4-00c04fd430c8".to_string()),
    ];
    assert_eq!(fields_of(&table, "v3"), want);
    assert_eq!(fields_of(&table, "v5"), want);
    assert_eq!(fields_of(&table, "v1"), Vec::new());
    assert_eq!(fields_of(&table, "v4"), Vec::new());
}

#[test]
fn exports_the_nil_uuid_as_text() {
    let table = UrlModule::exports();
    match &table[4].value {
        Binding::Text(text) => assert_eq!(text, "00000000-0000-0000-0000-000000000000"),
        Binding::Function { .. } => panic!("NIL is no text"),
    }
}

#[test]
fn evaluate_after_declare_exports_everything() {
    let mut exports = Exports::new(declared());
    assert_eq!(UrlModule::evaluate(&mut exports), Ok(()));
    assert_eq!(names_of(exports.entries()), NAMES.to_vec());
    let object = exports.default_entries().expect("the default object is exported");
    assert_eq!(names_of(object), NAMES.to_vec());
    assert_eq!(fields_of(object, "v5"), fields_of(exports.entries(), "v5"));
}

#[test]
fn evaluate_needs_the_declarations() {
    let mut exports = Exports::new(Declarations::new());
    assert_eq!(UrlModule::evaluate(&mut exports), Err(Failure::UndeclaredExport));
    assert!(exports.entries().is_empty());
    assert!(exports.default_entries().is_none());
}

#[test]
fn evaluate_needs_every_name() {
    for missing in NAMES.iter().copied().chain(["default"]) {
        let mut declarations = Declarations::new();
        for name in NAMES.iter().copied().chain(["default"]) {
            if name != missing {
                declarations.declare(name);
            }
        }
        let mut exports = Exports::new(declarations);
        assert_eq!(UrlModule::evaluate(&mut exports), Err(Failure::UndeclaredExport), "{}", missing);
        assert!(exports.entries().is_empty());
        assert!(exports.default_entries().is_none());
    }
}

#[test]
fn export_needs_a_declared_name() {
    let mut declarations = Declarations::new();
    declarations.declare("known");
    let mut exports = Exports::new(declarations);
    let known = Export { name: "known".to_string(), value: Binding::Text("x".to_string()) };
    let unknown = Export { name: "unknown".to_string(), value: Binding::Text("y".to_string()) };
    assert_eq!(exports.export(unknown), Err(Failure::UndeclaredExport));
    assert!(exports.entries().is_empty());
    assert_eq!(exports.export(known), Ok(()));
    assert_eq!(names_of(exports.entries()), vec!["known"]);
    assert!(exports.default_entries().is_none());
}

#[test]
fn export_default_mirrors_the_object() {
    let mut declarations = Declarations::new();
    declarations.declare("a");
    declarations.declare("default");
    let mut exports = Exports::new(declarations);
    let object = vec![Export {
        name: "a".to_string(),
        value: Binding::Function {
            operation: Operation::Validate,
            fields: vec![("k".to_string(), "v".to_string())],
        },
    }];
    assert_eq!(exports.export_default(object), Ok(()));
    assert_eq!(names_of(exports.entries()), vec!["a"]);
    assert_eq!(fields_of(exports.entries(), "a"), vec![("k".to_string(), "v".to_string())]);
    assert_eq!(names_of(exports.default_entries().unwrap()), vec!["a"]);
}

#[test]
fn duplicates_are_equal() {
    let export = Export {
        name: "v3".to_string(),
        value: Binding::Function {
            operation: Operation::GenerateV3,
            fields: vec![("DNS".to_string(), "x".to_string())],
        },
    };
    let copy = export.duplicate();
    assert_eq!(copy.name, "v3");
    assert_eq!(fields_of(&[copy], "v3"), vec![("DNS".to_string(), "x".to_string())]);
}
