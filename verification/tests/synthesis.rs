use derive_builder::artifact::{
    BuilderArtifact, ExtractionRule, InitialValue, SetterAction, SlotStorage,
};
use derive_builder::classify::{
    check_field_type, classify_field, FieldStrategy, TypeShape, WrapperKind,
};
use derive_builder::declaration::{
    Declaration, DeclarationBody, Directive, DirectiveBody, FieldDescriptor, Fields,
    GenericArgument, Literal, Param, Path, PathArguments, PathSegment, TypeForm, TypeSyntax,
};
use derive_builder::directive::get_builder_each;
use derive_builder::error::{Diagnostic, GenerationError, Location};
use derive_builder::schema::extract_schema;
use derive_builder::synthesis::{
    build_struct_def, field_extraction, replacing_setter_name, setter_spec, slot_spec, Expansion,
};

fn word(name: &str) -> PathSegment {
    PathSegment { ident: name.to_string(), arguments: PathArguments::Bare }
}

fn path(segments: Vec<PathSegment>) -> Path {
    Path { leading_colon: false, segments }
}

fn key(name: &str) -> Path {
    path(vec![word(name)])
}

fn bare(name: &str) -> TypeSyntax {
    TypeSyntax { text: name.to_string(), form: TypeForm::Path(key(name)) }
}

fn generic(name: &str, arguments: Vec<GenericArgument>, text: &str) -> TypeSyntax {
    TypeSyntax {
        text: text.to_string(),
        form: TypeForm::Path(path(vec![PathSegment {
            ident: name.to_string(),
            arguments: PathArguments::AngleBracketed(arguments),
        }])),
    }
}

fn wrapping(name: &str, inner: &str) -> TypeSyntax {
    generic(
        name,
        vec![GenericArgument::Type(bare(inner))],
        &format!("{}<{}>", name, inner),
    )
}

fn each(parameter: &str, value: Literal) -> Directive {
    Directive {
        key: key("builder"),
        body: DirectiveBody::Params(vec![Param::Named { name: key(parameter), value }]),
    }
}

fn text(value: &str) -> Literal {
    Literal::Str(value.to_string())
}

fn field(name: &str, declared_type: TypeSyntax, directives: Vec<Directive>) -> FieldDescriptor {
    FieldDescriptor { name: name.to_string(), declared_type, directives }
}

fn record(name: &str, fields: Vec<FieldDescriptor>) -> Declaration {
    Declaration { name: name.to_string(), body: DeclarationBody::Struct(Fields::Named(fields)) }
}

fn command() -> Declaration {
    record(
        "Command",
        vec![
            field("executable", bare("String"), vec![]),
            field("args", wrapping("Vec", "String"), vec![each("each", text("arg"))]),
            field("env", wrapping("Vec", "String"), vec![]),
            field("current_dir", wrapping("Option", "String"), vec![]),
        ],
    )
}

fn artifact_of(declaration: &Declaration) -> BuilderArtifact<'_> {
    match build_struct_def(declaration) {
        Ok(artifact) => artifact,
        Err(error) => panic!("no artifact: {:?}", error),
    }
}

#[test]
fn list_of_one_type_is_a_list_wrapper() {
    let ty = wrapping("Vec", "String");
    let inner = bare("String");
    assert_eq!(
        check_field_type(&ty),
        TypeShape::Wrapped { kind: WrapperKind::List, inner: &inner }
    );
}

#[test]
fn option_of_one_type_is_an_optional_wrapper() {
    let ty = wrapping("Option", "u8");
    let inner = bare("u8");
    assert_eq!(
        check_field_type(&ty),
        TypeShape::Wrapped { kind: WrapperKind::Optional, inner: &inner }
    );
}

#[test]
fn type_without_arguments_is_plain() {
    let ty = bare("String");
    assert_eq!(check_field_type(&ty), TypeShape::Plain(&ty));
}

#[test]
fn type_with_two_arguments_is_plain() {
    let ty = generic(
        "HashMap",
        vec![GenericArgument::Type(bare("String")), GenericArgument::Type(bare("u8"))],
        "HashMap<String, u8>",
    );
    assert_eq!(check_field_type(&ty), TypeShape::Plain(&ty));
}

#[test]
fn list_with_two_arguments_is_plain() {
    let ty = generic(
        "Vec",
        vec![GenericArgument::Type(bare("String")), GenericArgument::Type(bare("Global"))],
        "Vec<String, Global>",
    );
    assert_eq!(check_field_type(&ty), TypeShape::Plain(&ty));
}

#[test]
fn type_with_no_argument_between_brackets_is_plain() {
    let ty = generic("Vec", vec![], "Vec<>");
    assert_eq!(check_field_type(&ty), TypeShape::Plain(&ty));
}

#[test]
fn unknown_wrapper_of_one_type_is_unsupported() {
    let ty = wrapping("Box", "String");
    assert_eq!(check_field_type(&ty), TypeShape::Unsupported);
}

#[test]
fn wrapper_names_are_matched_exactly() {
    assert_eq!(check_field_type(&wrapping("vec", "String")), TypeShape::Unsupported);
    assert_eq!(check_field_type(&wrapping("Optional", "String")), TypeShape::Unsupported);
    assert_eq!(check_field_type(&wrapping("List", "String")), TypeShape::Unsupported);
}

#[test]
fn one_argument_that_is_no_type_is_plain() {
    let ty = generic("Cow", vec![GenericArgument::Other], "Cow<'static>");
    assert_eq!(check_field_type(&ty), TypeShape::Plain(&ty));
    let list = generic("Vec", vec![GenericArgument::Other], "Vec<'a>");
    assert_eq!(check_field_type(&list), TypeShape::Plain(&list));
}

#[test]
fn only_the_first_segment_decides() {
    let qualified = TypeSyntax {
        text: "std::vec::Vec<String>".to_string(),
        form: TypeForm::Path(path(vec![
            word("std"),
            word("vec"),
            PathSegment {
                ident: "Vec".to_string(),
                arguments: PathArguments::AngleBracketed(vec![GenericArgument::Type(bare(
                    "String",
                ))]),
            },
        ])),
    };
    assert_eq!(check_field_type(&qualified), TypeShape::Plain(&qualified));
    let leading = TypeSyntax {
        text: "Vec<String>::Item".to_string(),
        form: TypeForm::Path(path(vec![
            PathSegment {
                ident: "Vec".to_string(),
                arguments: PathArguments::AngleBracketed(vec![GenericArgument::Type(bare(
                    "String",
                ))]),
            },
            word("Item"),
        ])),
    };
    let inner = bare("String");
    assert_eq!(
        check_field_type(&leading),
        TypeShape::Wrapped { kind: WrapperKind::List, inner: &inner }
    );
}

#[test]
fn type_that_is_no_path_is_plain() {
    let reference = TypeSyntax { text: "&'static str".to_string(), form: TypeForm::Other };
    assert_eq!(check_field_type(&reference), TypeShape::Plain(&reference));
    let empty = TypeSyntax { text: String::new(), form: TypeForm::Path(path(vec![])) };
    assert_eq!(check_field_type(&empty), TypeShape::Plain(&empty));
    let callable = TypeSyntax {
        text: "Fn(u8) -> u8".to_string(),
        form: TypeForm::Path(path(vec![PathSegment {
            ident: "Fn".to_string(),
            arguments: PathArguments::Parenthesized,
        }])),
    };
    assert_eq!(check_field_type(&callable), TypeShape::Plain(&callable));
}

#[test]
fn inner_type_is_not_classified_further() {
    let nested = generic(
        "Option",
        vec![GenericArgument::Type(wrapping("Box", "u8"))],
        "Option<Box<u8>>",
    );
    let inner = wrapping("Box", "u8");
    assert_eq!(
        check_field_type(&nested),
        TypeShape::Wrapped { kind: WrapperKind::Optional, inner: &inner }
    );
}

#[test]
fn path_of_one_bare_segment_is_an_identifier() {
    assert!(key("builder").is_ident("builder"));
    assert!(!key("builder").is_ident("each"));
    assert!(!key("builder").is_ident("build"));
    assert!(!key("builder").is_ident(""));
    assert!(key("").is_ident(""));
}

#[test]
fn other_paths_are_no_identifier() {
    assert!(!path(vec![]).is_ident("builder"));
    assert!(!path(vec![word("builder"), word("builder")]).is_ident("builder"));
    assert!(!Path { leading_colon: true, segments: vec![word("builder")] }.is_ident("builder"));
    let with_arguments = path(vec![PathSegment {
        ident: "builder".to_string(),
        arguments: PathArguments::AngleBracketed(vec![]),
    }]);
    assert!(!with_arguments.is_ident("builder"));
    let called = path(vec![PathSegment {
        ident: "builder".to_string(),
        arguments: PathArguments::Parenthesized,
    }]);
    assert!(!called.is_ident("builder"));
}

#[test]
fn no_directive_gives_no_setter_name() {
    assert_eq!(get_builder_each(&vec![], 0), Ok(None));
}

#[test]
fn well_formed_directive_gives_the_setter_name() {
    let directives = vec![each("each", text("arg"))];
    assert_eq!(get_builder_each(&directives, 1), Ok(Some("arg")));
}

#[test]
fn setter_name_is_taken_verbatim() {
    let directives = vec![each("each", text("not an identifier"))];
    assert_eq!(get_builder_each(&directives, 0), Ok(Some("not an identifier")));
    let empty = vec![each("each", text(""))];
    assert_eq!(get_builder_each(&empty, 0), Ok(Some("")));
}

#[test]
fn misspelled_parameter_is_malformed() {
    let directives = vec![each("eac", text("arg"))];
    assert_eq!(
        get_builder_each(&directives, 1),
        Err(GenerationError::MalformedDirective { field: 1, directive: 0 })
    );
}

#[test]
fn value_that_is_no_string_is_malformed() {
    let directives = vec![each("each", Literal::Other)];
    assert_eq!(
        get_builder_each(&directives, 3),
        Err(GenerationError::MalformedDirective { field: 3, directive: 0 })
    );
}

#[test]
fn other_keys_are_passed_over() {
    let directives = vec![
        Directive { key: key("doc"), body: DirectiveBody::Value(text("the arguments")) },
        Directive { key: key("serde"), body: DirectiveBody::Params(vec![Param::Other]) },
        Directive { key: key("inline"), body: DirectiveBody::Flag },
        Directive { key: key("odd"), body: DirectiveBody::Opaque },
    ];
    assert_eq!(get_builder_each(&directives, 0), Ok(None));
}

#[test]
fn other_key_with_each_parameter_is_passed_over() {
    let directives = vec![Directive {
        key: key("other"),
        body: DirectiveBody::Params(vec![Param::Named { name: key("each"), value: text("arg") }]),
    }];
    assert_eq!(get_builder_each(&directives, 0), Ok(None));
}

#[test]
fn qualified_key_is_not_the_recognized_key() {
    let directives = vec![
        Directive {
            key: path(vec![word("tools"), word("builder")]),
            body: DirectiveBody::Params(vec![Param::Named { name: key("eac"), value: text("arg") }]),
        },
        Directive {
            key: Path { leading_colon: true, segments: vec![word("builder")] },
            body: DirectiveBody::Flag,
        },
        Directive { key: path(vec![]), body: DirectiveBody::Flag },
        Directive {
            key: path(vec![PathSegment {
                ident: "builder".to_string(),
                arguments: PathArguments::Parenthesized,
            }]),
            body: DirectiveBody::Flag,
        },
    ];
    assert_eq!(get_builder_each(&directives, 0), Ok(None));
}

#[test]
fn directive_is_found_behind_other_keys() {
    let directives = vec![
        Directive { key: key("doc"), body: DirectiveBody::Value(text("the arguments")) },
        Directive { key: key("odd"), body: DirectiveBody::Opaque },
        each("each", text("arg")),
    ];
    assert_eq!(get_builder_each(&directives, 0), Ok(Some("arg")));
}

#[test]
fn malformed_directive_is_reported_by_its_index() {
    let directives = vec![
        Directive { key: key("doc"), body: DirectiveBody::Value(text("the arguments")) },
        each("eac", text("arg")),
    ];
    assert_eq!(
        get_builder_each(&directives, 4),
        Err(GenerationError::MalformedDirective { field: 4, directive: 1 })
    );
}

#[test]
fn first_recognized_directive_decides() {
    let good_first = vec![each("each", text("arg")), each("eac", text("other"))];
    assert_eq!(get_builder_each(&good_first, 0), Ok(Some("arg")));
    let bad_first = vec![each("eac", text("other")), each("each", text("arg"))];
    assert_eq!(
        get_builder_each(&bad_first, 0),
        Err(GenerationError::MalformedDirective { field: 0, directive: 0 })
    );
    let two_good = vec![each("each", text("first")), each("each", text("second"))];
    assert_eq!(get_builder_each(&two_good, 0), Ok(Some("first")));
}

#[test]
fn recognized_key_without_the_exact_shape_is_malformed() {
    let malformed = Err(GenerationError::MalformedDirective { field: 2, directive: 0 });
    let shapes = vec![
        DirectiveBody::Flag,
        DirectiveBody::Value(text("arg")),
        DirectiveBody::Opaque,
        DirectiveBody::Params(vec![]),
        DirectiveBody::Params(vec![Param::Other]),
        DirectiveBody::Params(vec![
            Param::Named { name: key("each"), value: text("arg") },
            Param::Named { name: key("each"), value: text("other") },
        ]),
        DirectiveBody::Params(vec![
            Param::Named { name: key("each"), value: text("arg") },
            Param::Other,
        ]),
        DirectiveBody::Params(vec![Param::Named {
            name: path(vec![word("builder"), word("each")]),
            value: text("arg"),
        }]),
        DirectiveBody::Params(vec![Param::Named {
            name: Path { leading_colon: true, segments: vec![word("each")] },
            value: text("arg"),
        }]),
    ];
    for body in shapes {
        let directives = vec![Directive { key: key("builder"), body }];
        assert_eq!(get_builder_each(&directives, 2), malformed);
    }
}

#[test]
fn each_setter_reads_any_key() {
    let directive = Directive {
        key: key("other"),
        body: DirectiveBody::Params(vec![Param::Named { name: key("each"), value: text("item") }]),
    };
    assert_eq!(directive.each_setter(), Some("item"));
    assert_eq!(each("eac", text("item")).each_setter(), None);
    assert_eq!(each("each", Literal::Other).each_setter(), None);
}

#[test]
fn plain_field_is_required() {
    let described = field("executable", bare("String"), vec![]);
    assert_eq!(
        classify_field(&described, 0),
        Ok(FieldStrategy::RequiredSlot { ty: &described.declared_type })
    );
}

#[test]
fn list_field_without_directive_is_required_as_a_whole() {
    let described = field("env", wrapping("Vec", "String"), vec![]);
    assert_eq!(
        classify_field(&described, 2),
        Ok(FieldStrategy::RequiredSlot { ty: &described.declared_type })
    );
}

#[test]
fn list_field_with_directive_accumulates() {
    let described = field("args", wrapping("Vec", "String"), vec![each("each", text("arg"))]);
    let element = bare("String");
    assert_eq!(
        classify_field(&described, 1),
        Ok(FieldStrategy::AccumulatingSlot { element: &element, each: "arg" })
    );
}

#[test]
fn list_field_with_malformed_directive_is_an_error() {
    let described = field("args", wrapping("Vec", "String"), vec![each("eac", text("arg"))]);
    assert_eq!(
        classify_field(&described, 1),
        Err(GenerationError::MalformedDirective { field: 1, directive: 0 })
    );
}

#[test]
fn optional_field_ignores_its_directives() {
    let inner = bare("String");
    let with_each =
        field("current_dir", wrapping("Option", "String"), vec![each("each", text("dir"))]);
    assert_eq!(
        classify_field(&with_each, 3),
        Ok(FieldStrategy::OptionalSlot { inner: &inner })
    );
    let malformed =
        field("current_dir", wrapping("Option", "String"), vec![each("eac", text("dir"))]);
    assert_eq!(
        classify_field(&malformed, 3),
        Ok(FieldStrategy::OptionalSlot { inner: &inner })
    );
}

#[test]
fn plain_field_ignores_its_directives() {
    let described = field("executable", bare("String"), vec![each("eac", text("x"))]);
    assert_eq!(
        classify_field(&described, 0),
        Ok(FieldStrategy::RequiredSlot { ty: &described.declared_type })
    );
}

#[test]
fn unsupported_field_is_an_error_at_its_index() {
    let described = field("boxed", wrapping("Box", "String"), vec![each("each", text("x"))]);
    assert_eq!(
        classify_field(&described, 7),
        Err(GenerationError::UnsupportedFieldType { field: 7 })
    );
}

#[test]
fn strategy_does_not_depend_on_the_position() {
    let described = field("args", wrapping("Vec", "String"), vec![each("each", text("arg"))]);
    assert_eq!(classify_field(&described, 0), classify_field(&described, 41));
}

#[test]
fn schema_keeps_name_and_field_order() {
    let declaration = command();
    let schema = extract_schema(&declaration).unwrap();
    assert_eq!(schema.name, "Command");
    let names: Vec<&str> = schema.fields.iter().map(|f| f.name.as_str()).collect();
    assert_eq!(names, vec!["executable", "args", "env", "current_dir"]);
    assert_eq!(schema.fields[1].directives, vec![each("each", text("arg"))]);
    assert!(schema.has_unique_names());
}

#[test]
fn schema_of_a_record_without_fields_is_empty() {
    let declaration = record("Empty", vec![]);
    let schema = extract_schema(&declaration).unwrap();
    assert!(schema.fields.is_empty());
    assert!(schema.has_unique_names());
}

#[test]
fn repeated_field_name_is_found() {
    let declaration = record(
        "Twice",
        vec![
            field("a", bare("u8"), vec![]),
            field("b", bare("u8"), vec![]),
            field("a", bare("u16"), vec![]),
        ],
    );
    let schema = extract_schema(&declaration).unwrap();
    assert!(!schema.has_unique_names());
}

#[test]
fn multi_variant_declaration_is_not_a_record() {
    let declaration = Declaration { name: "Choice".to_string(), body: DeclarationBody::Enum };
    assert_eq!(extract_schema(&declaration), Err(GenerationError::NotARecord));
    assert_eq!(build_struct_def(&declaration), Err(GenerationError::NotARecord));
}

#[test]
fn union_is_not_a_record() {
    let declaration = Declaration { name: "Bits".to_string(), body: DeclarationBody::Union };
    assert_eq!(extract_schema(&declaration), Err(GenerationError::NotARecord));
    assert_eq!(build_struct_def(&declaration), Err(GenerationError::NotARecord));
}

#[test]
fn positional_fields_are_not_named() {
    let declaration = Declaration {
        name: "Pair".to_string(),
        body: DeclarationBody::Struct(Fields::Unnamed),
    };
    assert_eq!(extract_schema(&declaration), Err(GenerationError::FieldsNotNamed));
    assert_eq!(build_struct_def(&declaration), Err(GenerationError::FieldsNotNamed));
}

#[test]
fn unit_record_has_no_named_fields() {
    let declaration = Declaration {
        name: "Marker".to_string(),
        body: DeclarationBody::Struct(Fields::Unit),
    };
    assert_eq!(extract_schema(&declaration), Err(GenerationError::FieldsNotNamed));
    assert_eq!(build_struct_def(&declaration), Err(GenerationError::FieldsNotNamed));
}

#[test]
fn pieces_of_an_optional_field() {
    let inner = bare("String");
    let strategy = FieldStrategy::OptionalSlot { inner: &inner };
    let slot = slot_spec("current_dir", &strategy);
    assert_eq!(slot.name, "current_dir");
    assert_eq!(slot.storage, SlotStorage::Optional(&inner));
    assert_eq!(slot.initial, InitialValue::Absent);
    let setter = setter_spec("current_dir", 3, &strategy);
    assert_eq!(setter.name, "set_current_dir");
    assert_eq!(setter.slot, 3);
    assert_eq!(setter.parameter, &inner);
    assert_eq!(setter.action, SetterAction::Replace);
    let extraction = field_extraction("current_dir", &strategy);
    assert_eq!(extraction.field, "current_dir");
    assert_eq!(extraction.rule, ExtractionRule::Optional);
}

#[test]
fn pieces_of_an_accumulating_field() {
    let element = bare("String");
    let strategy = FieldStrategy::AccumulatingSlot { element: &element, each: "arg" };
    let slot = slot_spec("args", &strategy);
    assert_eq!(slot.name, "args");
    assert_eq!(slot.storage, SlotStorage::Sequence(&element));
    assert_eq!(slot.initial, InitialValue::EmptySequence);
    let setter = setter_spec("args", 1, &strategy);
    assert_eq!(setter.name, "arg");
    assert_eq!(setter.slot, 1);
    assert_eq!(setter.parameter, &element);
    assert_eq!(setter.action, SetterAction::Append);
    let extraction = field_extraction("args", &strategy);
    assert_eq!(extraction.field, "args");
    assert_eq!(extraction.rule, ExtractionRule::Accumulated);
}

#[test]
fn pieces_of_a_required_field() {
    let ty = wrapping("Vec", "String");
    let strategy = FieldStrategy::RequiredSlot { ty: &ty };
    let slot = slot_spec("env", &strategy);
    assert_eq!(slot.name, "env");
    assert_eq!(slot.storage, SlotStorage::Optional(&ty));
    assert_eq!(slot.initial, InitialValue::Absent);
    let setter = setter_spec("env", 2, &strategy);
    assert_eq!(setter.name, "set_env");
    assert_eq!(setter.slot, 2);
    assert_eq!(setter.parameter, &ty);
    assert_eq!(setter.action, SetterAction::Replace);
    let extraction = field_extraction("env", &strategy);
    assert_eq!(extraction.field, "env");
    assert_eq!(extraction.rule, ExtractionRule::Required);
}

#[test]
fn replacing_setter_is_named_after_the_field() {
    assert_eq!(replacing_setter_name("env"), "set_env");
    assert_eq!(replacing_setter_name(""), "set_");
}

#[test]
fn artifact_of_command() {
    let declaration = command();
    let artifact = artifact_of(&declaration);
    let string = bare("String");
    let list = wrapping("Vec", "String");

    assert_eq!(artifact.record_name, "Command");
    assert_eq!(artifact.builder_name, "CommandBuilder");

    let slots: Vec<(&str, &SlotStorage, InitialValue)> =
        artifact.builder_layout.iter().map(|s| (s.name, &s.storage, s.initial)).collect();
    assert_eq!(
        slots,
        vec![
            ("executable", &SlotStorage::Optional(&string), InitialValue::Absent),
            ("args", &SlotStorage::Sequence(&string), InitialValue::EmptySequence),
            ("env", &SlotStorage::Optional(&list), InitialValue::Absent),
            ("current_dir", &SlotStorage::Optional(&string), InitialValue::Absent),
        ]
    );

    let setters: Vec<(&str, usize, &TypeSyntax, SetterAction)> = artifact
        .setters
        .iter()
        .map(|s| (s.name.as_str(), s.slot, s.parameter, s.action))
        .collect();
    assert_eq!(
        setters,
        vec![
            ("set_executable", 0, &string, SetterAction::Replace),
            ("arg", 1, &string, SetterAction::Append),
            ("set_env", 2, &list, SetterAction::Replace),
            ("set_current_dir", 3, &string, SetterAction::Replace),
        ]
    );

    let extractions: Vec<(&str, ExtractionRule)> =
        artifact.finalize.fields.iter().map(|e| (e.field, e.rule)).collect();
    assert_eq!(
        extractions,
        vec![
            ("executable", ExtractionRule::Required),
            ("args", ExtractionRule::Accumulated),
            ("env", ExtractionRule::Required),
            ("current_dir", ExtractionRule::Optional),
        ]
    );
}

#[test]
fn artifact_of_a_record_without_fields() {
    let declaration = record("Empty", vec![]);
    let artifact = artifact_of(&declaration);
    assert_eq!(artifact.builder_name, "EmptyBuilder");
    assert!(artifact.builder_layout.is_empty());
    assert!(artifact.setters.is_empty());
    assert!(artifact.finalize.fields.is_empty());
}

#[test]
fn list_without_directive_is_laid_out_like_a_plain_field() {
    let list = record("R", vec![field("env", wrapping("Vec", "String"), vec![])]);
    let plain = record("R", vec![field("env", bare("Environment"), vec![])]);
    let of_list = artifact_of(&list);
    let of_plain = artifact_of(&plain);
    assert_eq!(of_list.builder_layout[0].name, of_plain.builder_layout[0].name);
    assert_eq!(of_list.builder_layout[0].initial, of_plain.builder_layout[0].initial);
    assert_eq!(
        of_list.builder_layout[0].storage,
        SlotStorage::Optional(&wrapping("Vec", "String"))
    );
    assert_eq!(of_list.setters[0].name, of_plain.setters[0].name);
    assert_eq!(of_list.setters[0].action, of_plain.setters[0].action);
    assert_eq!(of_list.finalize, of_plain.finalize);
}

#[test]
fn setter_is_found_by_name() {
    let declaration = command();
    let artifact = artifact_of(&declaration);
    assert_eq!(artifact.setter_named("set_executable"), Some(0));
    assert_eq!(artifact.setter_named("arg"), Some(1));
    assert_eq!(artifact.setter_named("set_env"), Some(2));
    assert_eq!(artifact.setter_named("set_current_dir"), Some(3));
    assert_eq!(artifact.setter_named("set_args"), None);
    assert_eq!(artifact.setter_named("args"), None);
    assert_eq!(artifact.setter_named("executable"), None);
    assert_eq!(artifact.setter_named(""), None);
}

#[test]
fn first_setter_of_a_name_is_found() {
    let declaration = record(
        "Clash",
        vec![
            field("items", wrapping("Vec", "u8"), vec![each("each", text("set_count"))]),
            field("count", bare("u8"), vec![]),
        ],
    );
    let artifact = artifact_of(&declaration);
    assert_eq!(artifact.setters[0].name, "set_count");
    assert_eq!(artifact.setters[1].name, "set_count");
    assert_eq!(artifact.setter_named("set_count"), Some(0));
}

#[test]
fn misspelled_each_gives_no_artifact() {
    let declaration = record(
        "Command",
        vec![
            field("executable", bare("String"), vec![]),
            field("args", wrapping("Vec", "String"), vec![each("eac", text("arg"))]),
            field("env", wrapping("Vec", "String"), vec![]),
        ],
    );
    assert_eq!(
        build_struct_def(&declaration),
        Err(GenerationError::MalformedDirective { field: 1, directive: 0 })
    );
}

#[test]
fn unsupported_field_gives_no_artifact() {
    let declaration = record(
        "Holder",
        vec![
            field("name", bare("String"), vec![]),
            field("boxed", wrapping("Box", "String"), vec![]),
            field("tags", wrapping("Vec", "String"), vec![each("each", text("tag"))]),
        ],
    );
    assert_eq!(
        build_struct_def(&declaration),
        Err(GenerationError::UnsupportedFieldType { field: 1 })
    );
}

#[test]
fn field_with_two_type_arguments_is_accepted_as_plain() {
    let map = generic(
        "HashMap",
        vec![GenericArgument::Type(bare("String")), GenericArgument::Type(bare("u8"))],
        "HashMap<String, u8>",
    );
    let declaration = record("Holder", vec![field("entries", map, vec![])]);
    let artifact = artifact_of(&declaration);
    assert_eq!(artifact.finalize.fields[0].rule, ExtractionRule::Required);
    assert_eq!(artifact.setters[0].name, "set_entries");
}

#[test]
fn first_error_in_declaration_order_is_reported() {
    let malformed_first = record(
        "R",
        vec![
            field("a", wrapping("Vec", "u8"), vec![each("eac", text("x"))]),
            field("b", wrapping("Box", "u8"), vec![]),
        ],
    );
    assert_eq!(
        build_struct_def(&malformed_first),
        Err(GenerationError::MalformedDirective { field: 0, directive: 0 })
    );
    let unsupported_first = record(
        "R",
        vec![
            field("b", wrapping("Box", "u8"), vec![]),
            field("a", wrapping("Vec", "u8"), vec![each("eac", text("x"))]),
        ],
    );
    assert_eq!(
        build_struct_def(&unsupported_first),
        Err(GenerationError::UnsupportedFieldType { field: 0 })
    );
}

#[test]
fn error_in_the_last_field_is_found() {
    let declaration = record(
        "R",
        vec![
            field("a", bare("u8"), vec![]),
            field("b", wrapping("Option", "u8"), vec![]),
            field("c", wrapping("Rc", "u8"), vec![]),
        ],
    );
    assert_eq!(
        build_struct_def(&declaration),
        Err(GenerationError::UnsupportedFieldType { field: 2 })
    );
}

#[test]
fn locations_of_errors() {
    assert_eq!(GenerationError::NotARecord.location(), Location::Declaration);
    assert_eq!(GenerationError::FieldsNotNamed.location(), Location::Declaration);
    assert_eq!(
        GenerationError::UnsupportedFieldType { field: 4 }.location(),
        Location::Field { field: 4 }
    );
    assert_eq!(
        GenerationError::MalformedDirective { field: 4, directive: 2 }.location(),
        Location::Directive { field: 4, directive: 2 }
    );
}

#[test]
fn messages_of_errors() {
    assert_eq!(
        GenerationError::NotARecord.message(),
        "Builder derive macro only supports struct"
    );
    assert_eq!(
        GenerationError::FieldsNotNamed.message(),
        "Builder derive macro only supports named fields"
    );
    assert_eq!(
        GenerationError::UnsupportedFieldType { field: 0 }.message(),
        "unsupported field type"
    );
    assert_eq!(
        GenerationError::MalformedDirective { field: 0, directive: 0 }.message(),
        "expected `builder(each = \"...\")`"
    );
}

#[test]
fn derive_expands_a_record_into_its_builder() {
    let declaration = command();
    match derive_builder::synthesis::derive(&declaration) {
        Expansion::Builder(artifact) => assert_eq!(artifact, artifact_of(&declaration)),
        Expansion::CompileError(diagnostic) => panic!("{:?}", diagnostic),
    }
}

#[test]
fn derive_expands_an_error_into_a_diagnostic() {
    let misspelled = record(
        "Command",
        vec![
            field("executable", bare("String"), vec![]),
            field("args", wrapping("Vec", "String"), vec![each("eac", text("arg"))]),
        ],
    );
    assert_eq!(
        derive_builder::synthesis::derive(&misspelled),
        Expansion::CompileError(Diagnostic {
            message: "expected `builder(each = \"...\")`".to_string(),
            location: Location::Directive { field: 1, directive: 0 },
        })
    );
    let unsupported = record("R", vec![field("b", wrapping("Box", "u8"), vec![])]);
    assert_eq!(
        derive_builder::synthesis::derive(&unsupported),
        Expansion::CompileError(Diagnostic {
            message: "unsupported field type".to_string(),
            location: Location::Field { field: 0 },
        })
    );
    let choice = Declaration { name: "Choice".to_string(), body: DeclarationBody::Enum };
    assert_eq!(
        derive_builder::synthesis::derive(&choice),
        Expansion::CompileError(Diagnostic {
            message: "Builder derive macro only supports struct".to_string(),
            location: Location::Declaration,
        })
    );
    let pair =
        Declaration { name: "Pair".to_string(), body: DeclarationBody::Struct(Fields::Unnamed) };
    assert_eq!(
        derive_builder::synthesis::derive(&pair),
        Expansion::CompileError(Diagnostic {
            message: "Builder derive macro only supports named fields".to_string(),
            location: Location::Declaration,
        })
    );
}
