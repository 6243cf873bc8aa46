use kangaroo_axum::add_fields::{Accessor, AddFieldsError, AddFieldsPlan};
use kangaroo_axum::{
    ident_list_error, is_result_return_type, parse_arguments, parse_ident_list, plan_accessors, plan_add_fields,
    ArgumentValue, ArgumentsError, AttributeArgument, IdentListError, MetaToken, ReturnTypeShape,
    StructShape,
};

fn s(x: &str) -> String {
    x.to_string()
}

fn name_value(name: &str, value: &str) -> AttributeArgument {
    AttributeArgument::NameValue { name: Some(s(name)), value: ArgumentValue::Str(s(value)) }
}

#[test]
fn arguments_give_default_and_status_files() {
    let parsed = parse_arguments(&vec![name_value("file", "user.html"), name_value("not_found", "user.html")]).unwrap();
    assert_eq!(parsed.default_file, Some(s("user.html")));
    assert_eq!(parsed.custom_files, vec![(s("NOT_FOUND"), s("user.html"))]);
}

#[test]
fn status_names_are_upper_cased() {
    let parsed = parse_arguments(&vec![name_value("gone", "custom.html")]).unwrap();
    assert_eq!(parsed.default_file, None);
    assert_eq!(parsed.custom_files, vec![(s("GONE"), s("custom.html"))]);
}

#[test]
fn later_file_argument_wins_and_others_are_ignored() {
    let parsed = parse_arguments(&vec![
        name_value("file", "a.html"),
        AttributeArgument::Other,
        name_value("file", "b.html"),
    ])
    .unwrap();
    assert_eq!(parsed.default_file, Some(s("b.html")));
    assert!(parsed.custom_files.is_empty());
}

#[test]
fn arguments_without_string_literal_are_refused() {
    let r = parse_arguments(&vec![
        name_value("file", "a.html"),
        AttributeArgument::NameValue { name: Some(s("gone")), value: ArgumentValue::Other },
        AttributeArgument::NameValue { name: None, value: ArgumentValue::Str(s("x")) },
    ]);
    assert_eq!(r.err(), Some(ArgumentsError::ExpectedStringLiteral));
    let r = parse_arguments(&vec![AttributeArgument::NameValue { name: None, value: ArgumentValue::Other }]);
    assert_eq!(r.err(), Some(ArgumentsError::PathNotIdentifier));
}

#[test]
fn no_arguments_give_no_files() {
    let parsed = parse_arguments(&vec![]).unwrap();
    assert_eq!(parsed.default_file, None);
    assert!(parsed.custom_files.is_empty());
}

#[test]
fn result_return_types_are_recognised() {
    assert!(is_result_return_type(&ReturnTypeShape::Path(vec![s("Result")])));
    assert!(is_result_return_type(&ReturnTypeShape::Path(vec![s("std"), s("result"), s("Result")])));
    assert!(!is_result_return_type(&ReturnTypeShape::Path(vec![s("Result"), s("Other")])));
    assert!(!is_result_return_type(&ReturnTypeShape::Path(vec![s("ExampleData")])));
    assert!(!is_result_return_type(&ReturnTypeShape::Path(vec![])));
    assert!(!is_result_return_type(&ReturnTypeShape::Default));
    assert!(!is_result_return_type(&ReturnTypeShape::Other));
}

fn ident(x: &str) -> MetaToken {
    MetaToken::Ident(s(x))
}

fn lit(x: &str) -> MetaToken {
    MetaToken::Str(s(x))
}

#[test]
fn ident_list_reads_identifiers_and_strings() {
    let tokens = vec![ident("field"), MetaToken::Eq, ident("id"), MetaToken::Comma, lit("test"), MetaToken::Comma, ident("test3")];
    assert_eq!(ident_list_error(&tokens), None);
    assert_eq!(parse_ident_list(&tokens), vec![s("id"), s("test"), s("test3")]);
    let tokens = vec![ident("field"), MetaToken::Eq, ident("id"), MetaToken::Comma];
    assert_eq!(ident_list_error(&tokens), None);
    assert_eq!(parse_ident_list(&tokens), vec![s("id")]);
    let tokens = vec![ident("field"), MetaToken::Eq];
    assert_eq!(ident_list_error(&tokens), None);
    assert_eq!(parse_ident_list(&tokens), Vec::<String>::new());
}

#[test]
fn ident_list_errors() {
    assert_eq!(ident_list_error(&vec![]), Some(IdentListError::Empty));
    assert_eq!(ident_list_error(&vec![lit("field")]), Some(IdentListError::MissingFieldKeyword));
    assert_eq!(ident_list_error(&vec![ident("fields"), MetaToken::Eq]), Some(IdentListError::WrongFieldKeyword));
    assert_eq!(ident_list_error(&vec![ident("field")]), Some(IdentListError::ExpectedEquals));
    assert_eq!(ident_list_error(&vec![ident("field"), MetaToken::Comma]), Some(IdentListError::ExpectedEquals));
    assert_eq!(
        ident_list_error(&vec![ident("field"), MetaToken::Eq, MetaToken::Comma]),
        Some(IdentListError::InvalidEntry)
    );
    assert_eq!(
        ident_list_error(&vec![ident("field"), MetaToken::Eq, ident("a"), ident("b")]),
        Some(IdentListError::ExpectedComma)
    );
}

fn accessor_triples(accessors: &[Accessor]) -> Vec<(String, String, usize)> {
    accessors.iter().map(|a| (a.method_name.clone(), a.field_name.clone(), a.field_index)).collect()
}

#[test]
fn accessors_find_their_fields() {
    let fields = vec![s("id"), s("name")];
    let (getters, missing) = plan_accessors(&fields, Some(&vec![s("name"), s("nope"), s("id")]), true);
    assert_eq!(accessor_triples(&getters), vec![(s("name"), s("name"), 1), (s("id"), s("id"), 0)]);
    assert_eq!(missing, vec![s("nope")]);
    let (setters, missing) = plan_accessors(&fields, Some(&vec![s("id")]), false);
    assert_eq!(accessor_triples(&setters), vec![(s("set_id"), s("id"), 0)]);
    assert!(missing.is_empty());
    let (none, missing) = plan_accessors(&fields, None, false);
    assert!(none.is_empty() && missing.is_empty());
}

#[test]
fn add_fields_plans_the_example_struct() {
    // #[add_fields(fields(name = test, ty = "u32"), fields(name = add_field2, ty = "i16"),
    //     fields(name = "test3", ty = "String"), getter(field = id,"test",test3),
    //     setter(field=id, name))] struct MyStruct { id: u32, name: String }
    let getter = parse_ident_list(&vec![
        ident("field"), MetaToken::Eq, ident("id"), MetaToken::Comma, lit("test"), MetaToken::Comma, ident("test3"),
    ]);
    let setter = parse_ident_list(&vec![ident("field"), MetaToken::Eq, ident("id"), MetaToken::Comma, ident("name")]);
    let plan: AddFieldsPlan = match plan_add_fields(
        StructShape::Named(vec![s("id"), s("name")]),
        &vec![s("test"), s("add_field2"), s("test3")],
        Some(&getter),
        Some(&setter),
    ) {
        Ok(plan) => plan,
        Err(_) => panic!("expected a plan"),
    };
    assert_eq!(plan.field_names, vec![s("id"), s("name"), s("test"), s("add_field2"), s("test3")]);
    assert_eq!(
        accessor_triples(&plan.getters),
        vec![(s("id"), s("id"), 0), (s("test"), s("test"), 2), (s("test3"), s("test3"), 4)]
    );
    assert_eq!(accessor_triples(&plan.setters), vec![(s("set_id"), s("id"), 0), (s("set_name"), s("name"), 1)]);
}

#[test]
fn add_fields_refuses_tuple_and_unit_structs() {
    assert!(matches!(plan_add_fields(StructShape::Unnamed, &vec![], None, None), Err(AddFieldsError::TupleStruct)));
    assert!(matches!(plan_add_fields(StructShape::Unit, &vec![s("a")], None, None), Err(AddFieldsError::UnitStruct)));
}

#[test]
fn add_fields_reports_unknown_accessors() {
    let r = plan_add_fields(
        StructShape::Named(vec![s("id")]),
        &vec![s("x")],
        Some(&vec![s("a"), s("x")]),
        Some(&vec![s("b"), s("id")]),
    );
    match r {
        Err(AddFieldsError::FieldsNotFound(names)) => assert_eq!(names, vec![s("a"), s("b")]),
        _ => panic!("expected missing fields"),
    }
}
