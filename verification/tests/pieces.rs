//! The settings, the names and the single pieces of generated text, on values
//! written out by hand.

use enum_handler_core::debug_file::{appends, trace, MAX_FILE_SIZE};
use enum_handler_core::enum_handler_args::EnumHandlerArgs;
use enum_handler_core::error::Error;
use enum_handler_core::ident::{is_identifier, is_plain_identifier};
use enum_handler_core::{checked_enum_handler_core, enum_handler_core, first_bad_name, with_mock};
use enum_handler_core::model::{
    DeriveItem, Enum, EnumVariant, EnumVariantType, ItemData, ItemField, ItemFields, ItemVariant,
};
use enum_handler_core::text::{
    comma_string, decimal_string, leading_string, spaced_string, strip_raw_prefix,
};

fn unnamed(ty: &str) -> ItemField {
    ItemField {
        ident: None,
        ty: ty.to_string(),
    }
}

fn named(name: &str, ty: &str) -> ItemField {
    ItemField {
        ident: Some(name.to_string()),
        ty: ty.to_string(),
    }
}

fn an_enum(vis: &str, name: &str, variants: Vec<ItemVariant>) -> DeriveItem {
    DeriveItem {
        vis: vis.to_string(),
        ident: name.to_string(),
        data: ItemData::Enum(variants),
    }
}

fn unit(name: &str) -> ItemVariant {
    ItemVariant {
        ident: name.to_string(),
        fields: ItemFields::Unit,
    }
}

fn tuple(name: &str, types: &[&str]) -> ItemVariant {
    ItemVariant {
        ident: name.to_string(),
        fields: ItemFields::Unnamed(types.iter().map(|ty| unnamed(ty)).collect()),
    }
}

fn variant_of(name: &str, kind: EnumVariantType, fields: Vec<(Option<String>, String)>) -> EnumVariant {
    EnumVariant {
        enum_name: "Event".to_string(),
        name: name.to_string(),
        variant_type: kind,
        return_type: "()".to_string(),
        fields,
    }
}

fn syn_message(result: Result<String, Error>) -> String {
    match result {
        Err(Error::SynError(message)) => message,
        other => panic!("no parser error: {:?}", other),
    }
}

#[test]
fn decimal_of_small_and_large_numbers() {
    assert_eq!(decimal_string(0), "0");
    assert_eq!(decimal_string(7), "7");
    assert_eq!(decimal_string(10), "10");
    assert_eq!(decimal_string(409), "409");
    assert_eq!(decimal_string(usize::MAX), usize::MAX.to_string());
}

#[test]
fn raw_mark_is_stripped_once() {
    assert_eq!(strip_raw_prefix("r#type"), "type");
    assert_eq!(strip_raw_prefix("type"), "type");
    assert_eq!(strip_raw_prefix("r#"), "");
    assert_eq!(strip_raw_prefix("r"), "r");
    assert_eq!(strip_raw_prefix(""), "");
    assert_eq!(strip_raw_prefix("r#r#x"), "r#x");
    assert_eq!(strip_raw_prefix("är#"), "är#");
}

#[test]
fn lists_are_joined() {
    let none: Vec<String> = vec![];
    let one = vec!["a".to_string()];
    let three = vec!["a".to_string(), "b".to_string(), "c".to_string()];
    assert_eq!(spaced_string(&none), "");
    assert_eq!(spaced_string(&one), " a");
    assert_eq!(spaced_string(&three), " a b c");
    assert_eq!(comma_string(&none), "");
    assert_eq!(comma_string(&one), "a");
    assert_eq!(comma_string(&three), "a , b , c");
    assert_eq!(leading_string(""), "");
    assert_eq!(leading_string("pub"), "pub ");
}

#[test]
fn settings_left_empty_have_defaults() {
    let args = EnumHandlerArgs::default();
    assert_eq!(args.get_trait_suffix(), "Handler");
    assert_eq!(args.get_trait_name("Event"), "EventHandler");
    assert_eq!(args.get_handler_name(), "on");
    assert_eq!(args.get_return_type().unwrap(), "()");
    assert_eq!(args.get_return_value().unwrap(), "");
    assert_eq!(args.visibility("pub").unwrap(), "pub");
    assert_eq!(args.visibility("").unwrap(), "");
    assert!(!args.is_generate_mock());
    assert!(!args.is_default_implementation());
    assert!(!args.is_pass_args_by_ref());
    assert!(args.is_move_arguments());
    assert!(!args.use_async_trait_macro());
    assert!(!args.is_async());
}

#[test]
fn settings_given_are_used() {
    let args = EnumHandlerArgs {
        trait_suffix: "Processor".to_string(),
        handler_name: "handle".to_string(),
        mock_name: "MockHandler".to_string(),
        is_async: true,
        pass_args_by_ref: true,
        default_implementation: true,
        ..EnumHandlerArgs::default()
    };
    assert_eq!(args.get_trait_suffix(), "Processor");
    assert_eq!(args.get_trait_name("Event"), "EventProcessor");
    assert_eq!(args.get_handler_name(), "handle");
    assert!(args.is_generate_mock());
    assert!(args.is_default_implementation());
    assert!(args.is_pass_args_by_ref());
    assert!(!args.is_move_arguments());
    assert!(args.use_async_trait_macro());
    assert!(args.is_async());

    let named = EnumHandlerArgs {
        trait_name: "NewTraitName".to_string(),
        trait_suffix: "Processor".to_string(),
        is_async: true,
        no_async_trait_macro: true,
        ..EnumHandlerArgs::default()
    };
    assert_eq!(named.get_trait_name("Event"), "NewTraitName");
    assert!(!named.use_async_trait_macro());
}

#[test]
fn trait_name_drops_the_raw_mark_of_the_enum() {
    let args = EnumHandlerArgs::default();
    assert_eq!(args.get_trait_name("r#Type"), "TypeHandler");
}

#[test]
fn visibility_is_read_and_written_back() {
    let args = EnumHandlerArgs {
        visibility: "pub(crate)".to_string(),
        ..EnumHandlerArgs::default()
    };
    assert_eq!(args.visibility("pub").unwrap(), "pub (crate)");

    let blank = EnumHandlerArgs {
        visibility: " ".to_string(),
        ..EnumHandlerArgs::default()
    };
    assert_eq!(blank.visibility("pub").unwrap(), "");
}

#[test]
fn visibility_that_is_none_is_an_error() {
    let args = EnumHandlerArgs {
        visibility: "public".to_string(),
        ..EnumHandlerArgs::default()
    };
    assert!(!syn_message(args.visibility("pub")).is_empty());
}

#[test]
fn return_type_is_read_and_written_back() {
    let args = EnumHandlerArgs {
        return_type: "Vec<u8>".to_string(),
        ..EnumHandlerArgs::default()
    };
    assert_eq!(args.get_return_type().unwrap(), "Vec < u8 >");
}

#[test]
fn return_type_that_is_none_is_an_error() {
    let args = EnumHandlerArgs {
        return_type: "fn(".to_string(),
        ..EnumHandlerArgs::default()
    };
    assert!(!syn_message(args.get_return_type()).is_empty());
}

#[test]
fn return_value_is_read_and_written_back() {
    let args = EnumHandlerArgs {
        default_return_value: "1+2".to_string(),
        ..EnumHandlerArgs::default()
    };
    assert_eq!(args.get_return_value().unwrap(), "1 + 2");

    let unit = EnumHandlerArgs {
        default_return_value: "()".to_string(),
        ..EnumHandlerArgs::default()
    };
    assert_eq!(unit.get_return_value().unwrap(), "");

    let spaced = EnumHandlerArgs {
        default_return_value: "( )".to_string(),
        ..EnumHandlerArgs::default()
    };
    assert_eq!(spaced.get_return_value().unwrap(), "()");
}

#[test]
fn return_value_that_is_none_is_an_error() {
    let args = EnumHandlerArgs {
        default_return_value: "1 +".to_string(),
        ..EnumHandlerArgs::default()
    };
    assert!(!syn_message(args.get_return_value()).is_empty());
}

#[test]
fn mock_name_is_read_and_written_back() {
    let args = EnumHandlerArgs {
        mock_name: " MockHandler ".to_string(),
        ..EnumHandlerArgs::default()
    };
    assert_eq!(args.get_mock_name().unwrap(), "MockHandler");
}

#[test]
fn mock_name_that_is_none_is_an_error() {
    let two = EnumHandlerArgs {
        mock_name: "Mock Handler".to_string(),
        ..EnumHandlerArgs::default()
    };
    assert!(!syn_message(two.get_mock_name()).is_empty());
    let keyword = EnumHandlerArgs {
        mock_name: "struct".to_string(),
        ..EnumHandlerArgs::default()
    };
    assert!(!syn_message(keyword.get_mock_name()).is_empty());
    assert!(!syn_message(EnumHandlerArgs::default().get_mock_name()).is_empty());
}

#[test]
fn mock_settings_have_no_bodies() {
    let args = EnumHandlerArgs {
        trait_suffix: "S".to_string(),
        trait_name: "T".to_string(),
        handler_name: "h".to_string(),
        return_type: "i32".to_string(),
        default_return_value: "42".to_string(),
        is_async: true,
        default_implementation: true,
        visibility: "pub".to_string(),
        no_async_trait_macro: true,
        mock_name: "M".to_string(),
        pass_args_by_ref: true,
    };
    let mock = args.clone_for_mock();
    assert!(!mock.default_implementation);
    assert_eq!(mock.trait_suffix, "S");
    assert_eq!(mock.trait_name, "T");
    assert_eq!(mock.handler_name, "h");
    assert_eq!(mock.return_type, "i32");
    assert_eq!(mock.default_return_value, "42");
    assert!(mock.is_async);
    assert_eq!(mock.visibility, "pub");
    assert!(mock.no_async_trait_macro);
    assert_eq!(mock.mock_name, "M");
    assert!(mock.pass_args_by_ref);
    assert!(!mock.clone_for_mock().default_implementation);
}

#[test]
fn messages_of_all_errors() {
    assert_eq!(Error::SynError("expected `pub`".to_string()).message(), "expected `pub`");
    assert_eq!(
        Error::DarlingError("Unknown field: `x`".to_string()).message(),
        "Unknown field: `x`"
    );
    assert_eq!(Error::NotEnum.message(), "#[derive(EnumHandler)] only works with enums");
    assert_eq!(Error::NoVariants.message(), "Enum has no variants");
    assert_eq!(Error::InvalidReturnType.message(), "Invalid return type");
    assert_eq!(Error::InvalidReturnValue.message(), "Invalid return value");
    assert_eq!(
        Error::CannotWriteDebugFile("/tmp/out.rs".to_string(), "ENUM_HANDLER_DEBUG".to_string())
            .message(),
        "Cannot write debug file: /tmp/out.rs, please check the environment variable ENUM_HANDLER_DEBUG"
    );
}

#[test]
fn parser_answers_are_handed_on() {
    assert_eq!(Error::from_syntax(Ok("pub".to_string())).unwrap(), "pub");
    assert_eq!(syn_message(Error::from_syntax(Err("no".to_string()))), "no");
}

#[test]
fn variant_is_made_of_its_fields() {
    let args = EnumHandlerArgs {
        return_type: "i32".to_string(),
        ..EnumHandlerArgs::default()
    };
    let unit_variant = EnumVariant::new(&unit("Stop"), "Event".to_string(), &args).unwrap();
    assert_eq!(unit_variant.enum_name, "Event");
    assert_eq!(unit_variant.name, "Stop");
    assert_eq!(unit_variant.variant_type, EnumVariantType::Unit);
    assert_eq!(unit_variant.return_type, "i32");
    assert!(unit_variant.fields.is_empty());

    let tuple_variant =
        EnumVariant::new(&tuple("Start", &["String", "i32"]), "Event".to_string(), &args).unwrap();
    assert_eq!(tuple_variant.variant_type, EnumVariantType::Tuple);
    assert_eq!(
        tuple_variant.fields,
        vec![(None, "String".to_string()), (None, "i32".to_string())]
    );

    let struct_variant = EnumVariant::new(
        &ItemVariant {
            ident: "Resume".to_string(),
            fields: ItemFields::Named(vec![named("var1", "String")]),
        },
        "Event".to_string(),
        &args,
    )
    .unwrap();
    assert_eq!(struct_variant.variant_type, EnumVariantType::Struct);
    assert_eq!(
        struct_variant.fields,
        vec![(Some("var1".to_string()), "String".to_string())]
    );
}

#[test]
fn variant_needs_a_return_type() {
    let args = EnumHandlerArgs {
        return_type: "<".to_string(),
        ..EnumHandlerArgs::default()
    };
    match EnumVariant::new(&unit("Stop"), "Event".to_string(), &args) {
        Err(Error::SynError(message)) => assert!(!message.is_empty()),
        other => panic!("no parser error: {:?}", other),
    }
}

#[test]
fn enum_is_made_of_its_variants() {
    let args = EnumHandlerArgs::default();
    let item = an_enum("pub", "Event", vec![unit("Stop"), tuple("Start", &["String"])]);
    let made = Enum::new(&item, &args).unwrap();
    assert_eq!(made.vis, "pub");
    assert_eq!(made.name, "Event");
    assert_eq!(made.variants.len(), 2);
    assert_eq!(made.variants[0].name, "Stop");
    assert_eq!(made.variants[0].enum_name, "Event");
    assert_eq!(made.variants[0].return_type, "()");
    assert_eq!(made.variants[1].name, "Start");
    assert_eq!(made.variants[1].variant_type, EnumVariantType::Tuple);
}

#[test]
fn struct_and_union_are_no_enums() {
    let args = EnumHandlerArgs::default();
    for data in [ItemData::Struct, ItemData::Union] {
        let item = DeriveItem {
            vis: String::new(),
            ident: "NotEnum".to_string(),
            data,
        };
        assert!(matches!(Enum::new(&item, &args), Err(Error::NotEnum)));
        assert!(matches!(enum_handler_core(&item, &args), Err(Error::NotEnum)));
    }
}

#[test]
fn enum_without_variants_is_made_but_not_generated_for() {
    let args = EnumHandlerArgs {
        return_type: "<".to_string(),
        ..EnumHandlerArgs::default()
    };
    let item = an_enum("", "Empty", vec![]);
    assert!(Enum::new(&item, &args).unwrap().variants.is_empty());
    assert!(matches!(enum_handler_core(&item, &args), Err(Error::NoVariants)));
}

#[test]
fn enum_with_variants_needs_a_return_type() {
    let args = EnumHandlerArgs {
        return_type: "<".to_string(),
        ..EnumHandlerArgs::default()
    };
    let item = an_enum("", "Event", vec![unit("Stop")]);
    assert!(matches!(Enum::new(&item, &args), Err(Error::SynError(_))));
    assert!(matches!(enum_handler_core(&item, &args), Err(Error::SynError(_))));
}

#[test]
fn handler_names_are_in_snake_case() {
    let args = EnumHandlerArgs::default();
    let variant = variant_of("OneTuple", EnumVariantType::Unit, vec![]);
    assert_eq!(variant.get_variant_handler_name(&args), "on_one_tuple");
    let acronym = variant_of("XMLHttpRequest", EnumVariantType::Unit, vec![]);
    assert_eq!(acronym.get_variant_handler_name(&args), "on_xml_http_request");

    let renamed = EnumHandlerArgs {
        handler_name: "r#handle".to_string(),
        ..EnumHandlerArgs::default()
    };
    assert_eq!(renamed.get_handler_name(), "r#handle");
    assert_eq!(variant.get_variant_handler_name(&renamed), "handle_one_tuple");
    assert_eq!(EnumVariant::join_handler_name("on", "stop"), "on_stop");
    assert_eq!(EnumVariant::join_handler_name("r#on", "stop"), "on_stop");
}

#[test]
fn parameters_are_named_by_field_or_position() {
    let single = variant_of(
        "Start",
        EnumVariantType::Tuple,
        vec![(None, "String".to_string())],
    );
    assert_eq!(single.parameter_name(&None, 0), "arg");
    assert_eq!(single.parameter_name(&Some("var1".to_string()), 0), "var1");
    assert_eq!(single.parameters(), vec!["arg".to_string()]);

    let many = variant_of(
        "Start",
        EnumVariantType::Tuple,
        (0..12).map(|_| (None, "u8".to_string())).collect(),
    );
    assert_eq!(many.parameter_name(&None, 0), "arg0");
    assert_eq!(many.parameter_name(&None, 11), "arg11");
    assert_eq!(many.parameters()[10], "arg10");

    let none = variant_of("Stop", EnumVariantType::Tuple, vec![]);
    assert_eq!(none.parameter_name(&None, 0), "arg0");
    assert!(none.parameters().is_empty());
}

#[test]
fn handler_text_by_value_and_by_reference() {
    let variant = variant_of(
        "Start",
        EnumVariantType::Struct,
        vec![
            (Some("name".to_string()), "String".to_string()),
            (Some("count".to_string()), "i32".to_string()),
            (Some("path".to_string()), "std :: string :: String".to_string()),
        ],
    );
    assert_eq!(
        variant.handler_source("on_start", false, false, &None),
        "fn on_start (& self , name : String , count : i32 , path : std :: string :: String) -> () ;"
    );
    assert_eq!(
        variant.handler_source("on_start", true, true, &None),
        "async fn on_start (& self , name : & str , count : & i32 , path : & std :: string :: String) -> () ;"
    );
    assert_eq!(
        variant.handler_source("on_start", false, false, &Some("42".to_string())),
        "fn on_start (& self , name : String , count : i32 , path : std :: string :: String) -> () { 42 }"
    );
    assert_eq!(
        variant_of("Stop", EnumVariantType::Unit, vec![]).handler_source(
            "on_stop",
            false,
            true,
            &Some(String::new())
        ),
        "fn on_stop (& self) -> () { }"
    );
}

#[test]
fn handler_text_under_settings() {
    let variant = variant_of(
        "Start",
        EnumVariantType::Tuple,
        vec![(None, "String".to_string())],
    );
    let plain = EnumHandlerArgs::default();
    assert_eq!(
        variant.generate_handler(&plain).unwrap(),
        "fn on_start (& self , arg : String) -> () ;"
    );
    let with_body = EnumHandlerArgs {
        default_implementation: true,
        default_return_value: "Default::default()".to_string(),
        pass_args_by_ref: true,
        ..EnumHandlerArgs::default()
    };
    assert_eq!(
        variant.generate_handler(&with_body).unwrap(),
        "fn on_start (& self , arg : & str) -> () { Default :: default () }"
    );
    let unit_body = EnumHandlerArgs {
        default_implementation: true,
        ..EnumHandlerArgs::default()
    };
    assert_eq!(
        variant.generate_handler(&unit_body).unwrap(),
        "fn on_start (& self , arg : String) -> () { }"
    );
    let bad_value = EnumHandlerArgs {
        default_implementation: true,
        default_return_value: "1 +".to_string(),
        ..EnumHandlerArgs::default()
    };
    assert!(!syn_message(variant.generate_handler(&bad_value)).is_empty());
    let unused_value = EnumHandlerArgs {
        default_return_value: "1 +".to_string(),
        ..EnumHandlerArgs::default()
    };
    assert_eq!(
        variant.generate_handler(&unused_value).unwrap(),
        "fn on_start (& self , arg : String) -> () ;"
    );
}

#[test]
fn match_arm_text_by_kind_of_variant() {
    let fields = vec![
        (Some("var1".to_string()), "String".to_string()),
        (Some("var2".to_string()), "i32".to_string()),
    ];
    assert_eq!(
        variant_of("Stop", EnumVariantType::Unit, vec![]).match_arm_source("on_stop", false),
        "Event :: Stop => { self . on_stop () }"
    );
    assert_eq!(
        variant_of("Stop", EnumVariantType::Unit, fields.clone()).match_arm_source("on_stop", true),
        "Event :: Stop => { self . on_stop () . await }"
    );
    assert_eq!(
        variant_of("Resume", EnumVariantType::Struct, fields.clone())
            .match_arm_source("on_resume", false),
        "Event :: Resume { var1 , var2 } => { self . on_resume (var1 , var2) }"
    );
    assert_eq!(
        variant_of("Resume", EnumVariantType::Struct, vec![]).match_arm_source("on_resume", false),
        "Event :: Resume { } => { self . on_resume () }"
    );
    assert_eq!(
        variant_of(
            "Start",
            EnumVariantType::Tuple,
            vec![(None, "String".to_string()), (None, "i32".to_string())]
        )
        .match_arm_source("on_start", true),
        "Event :: Start (arg0 , arg1) => { self . on_start (arg0 , arg1) . await }"
    );
    assert_eq!(
        variant_of("Start", EnumVariantType::Tuple, vec![]).match_arm_source("on_start", false),
        "Event :: Start () => { self . on_start () }"
    );
    assert_eq!(
        variant_of("Stop", EnumVariantType::Unit, vec![])
            .generate_match_arm(&EnumHandlerArgs::default()),
        "Event :: Stop => { self . on_stop () }"
    );
}

#[test]
fn trait_text_from_its_pieces() {
    let args = EnumHandlerArgs {
        is_async: true,
        pass_args_by_ref: true,
        ..EnumHandlerArgs::default()
    };
    let made = Enum {
        vis: "pub".to_string(),
        name: "Event".to_string(),
        variants: vec![],
    };
    assert_eq!(
        made.trait_source(
            &args,
            "pub (crate)",
            "i32",
            &vec!["A".to_string(), "B".to_string()],
            &vec!["X".to_string(), "Y".to_string()],
        ),
        "# [async_trait :: async_trait] pub (crate) trait EventHandler { async fn on (& self , e : & Event) -> i32 { match (e) { A B } } X Y }"
    );
    assert_eq!(
        made.trait_source(&EnumHandlerArgs::default(), "", "()", &vec![], &vec![]),
        "trait EventHandler { fn on (& self , e : Event) -> () { match (e) { } } }"
    );
    assert_eq!(
        made.generate_trait(&EnumHandlerArgs::default()).unwrap(),
        "pub trait EventHandler { fn on (& self , e : Event) -> () { match (e) { } } }"
    );
}

#[test]
fn mock_text_from_its_pieces() {
    let made = Enum {
        vis: String::new(),
        name: "Event".to_string(),
        variants: vec![],
    };
    let args = EnumHandlerArgs {
        is_async: true,
        ..EnumHandlerArgs::default()
    };
    assert_eq!(
        made.mock_source(&args, "pub", "MockHandler", &vec!["X".to_string()]),
        "# [cfg (test)] mockall :: mock ! { pub MockHandler { } # [async_trait :: async_trait] impl EventHandler for MockHandler { X } }"
    );
    assert_eq!(
        made.mock_source(&EnumHandlerArgs::default(), "", "M", &vec![]),
        "# [cfg (test)] mockall :: mock ! { M { } impl EventHandler for M { } }"
    );
}

#[test]
fn mock_has_no_bodies() {
    let args = EnumHandlerArgs {
        mock_name: "MockHandler".to_string(),
        default_implementation: true,
        default_return_value: "1 +".to_string(),
        ..EnumHandlerArgs::default()
    };
    let item = an_enum("", "Event", vec![tuple("Hello", &["String"])]);
    let made = Enum::new(&item, &args).unwrap();
    assert_eq!(
        made.generate_mock(&args).unwrap(),
        "# [cfg (test)] mockall :: mock ! { MockHandler { } impl EventHandler for MockHandler { fn on_hello (& self , arg : String) -> () ; } }"
    );
    assert!(matches!(made.generate_trait(&args), Err(Error::SynError(_))));
    assert!(matches!(made.generate_handlers(&args), Err(Error::SynError(_))));
    assert!(matches!(enum_handler_core(&item, &args), Err(Error::SynError(_))));
}

#[test]
fn handlers_and_arms_follow_the_variants() {
    let args = EnumHandlerArgs::default();
    let item = an_enum("", "Event", vec![unit("Stop"), tuple("Start", &["String"])]);
    let made = Enum::new(&item, &args).unwrap();
    assert_eq!(
        made.generate_handlers(&args).unwrap(),
        vec![
            "fn on_stop (& self) -> () ;".to_string(),
            "fn on_start (& self , arg : String) -> () ;".to_string(),
        ]
    );
    assert_eq!(
        made.generate_match_arms(&args),
        vec![
            "Event :: Stop => { self . on_stop () }".to_string(),
            "Event :: Start (arg) => { self . on_start (arg) }".to_string(),
        ]
    );
}

#[test]
fn mock_that_cannot_be_named_is_left_out() {
    let args = EnumHandlerArgs {
        mock_name: "Mock Handler".to_string(),
        ..EnumHandlerArgs::default()
    };
    let item = an_enum("", "Event", vec![unit("Stop")]);
    let made = Enum::new(&item, &args).unwrap();
    assert!(matches!(made.generate_mock(&args), Err(Error::SynError(_))));
    assert_eq!(
        enum_handler_core(&item, &args).unwrap(),
        "trait EventHandler { fn on (& self , e : Event) -> () { match (e) { Event :: Stop => { self . on_stop () } } } fn on_stop (& self) -> () ; }"
    );
}

#[test]
fn trait_and_mock_by_reference() {
    let args = EnumHandlerArgs {
        mock_name: "TestEvent".to_string(),
        pass_args_by_ref: true,
        ..EnumHandlerArgs::default()
    };
    let item = an_enum("", "Event", vec![tuple("Hello", &["String"])]);
    assert_eq!(
        enum_handler_core(&item, &args).unwrap(),
        "trait EventHandler { fn on (& self , e : & Event) -> () { match (e) { Event :: Hello (arg) => { self . on_hello (arg) } } } fn on_hello (& self , arg : & str) -> () ; } # [cfg (test)] mockall :: mock ! { TestEvent { } impl EventHandler for TestEvent { fn on_hello (& self , arg : & str) -> () ; } }"
    );
}

#[test]
fn bad_visibility_stops_the_trait() {
    let args = EnumHandlerArgs {
        visibility: "pub(".to_string(),
        ..EnumHandlerArgs::default()
    };
    let item = an_enum("pub", "Event", vec![unit("Stop")]);
    assert!(matches!(enum_handler_core(&item, &args), Err(Error::SynError(_))));
}

#[test]
fn trace_entry_and_file_size() {
    assert_eq!(
        trace("enum E { A }", "trait EHandler { }"),
        "\n\n// ************************************************************\n// Given input:\nenum E { A }\n// ------------------------------------------------------------\n// Generated output:\ntrait EHandler { }\n// ************************************************************\n\n"
    );
    assert_eq!(MAX_FILE_SIZE, 1024 * 128);
    assert!(appends(None));
    assert!(appends(Some(0)));
    assert!(appends(Some(MAX_FILE_SIZE)));
    assert!(!appends(Some(MAX_FILE_SIZE + 1)));
}

#[test]
fn identifiers_and_other_texts() {
    for good in ["on", "_", "_x", "x1", "Handler", "ünïcode", "r#type", "r#match", "self", "a_b"] {
        assert!(is_identifier(good), "{}", good);
    }
    for bad in [
        "", "1", "123", "1x", "on x", " on", "on-x", "a.b", "r#", "r#_", "r#self", "r#Self",
        "r#super", "r#crate", "r#1", "r#r#x", "#", "x#",
    ] {
        assert!(!is_identifier(bad), "{}", bad);
    }
    assert!(is_plain_identifier("r"));
    assert!(is_plain_identifier("_"));
    assert!(is_plain_identifier("crate"));
    assert!(!is_plain_identifier("r#type"));
    assert!(!is_plain_identifier("0"));
}

#[test]
fn names_are_tested_before_they_are_made() {
    let good = EnumHandlerArgs {
        trait_name: "NewTraitName".to_string(),
        trait_suffix: "Processor".to_string(),
        handler_name: "handle".to_string(),
        ..EnumHandlerArgs::default()
    };
    assert!(good.names_trait("TraitName"));
    assert!(good.names_handler());
    assert_eq!(good.checked_trait_name("TraitName"), Some("NewTraitName".to_string()));
    assert_eq!(good.checked_handler_name(), Some("handle".to_string()));

    let suffixed = EnumHandlerArgs {
        trait_suffix: "Processor".to_string(),
        ..EnumHandlerArgs::default()
    };
    assert_eq!(
        suffixed.checked_trait_name("TraitName"),
        Some("TraitNameProcessor".to_string())
    );
    assert_eq!(suffixed.checked_handler_name(), Some("on".to_string()));

    let bad = EnumHandlerArgs {
        trait_suffix: "-Handler".to_string(),
        handler_name: "on it".to_string(),
        ..EnumHandlerArgs::default()
    };
    assert!(!bad.names_trait("Event"));
    assert!(!bad.names_handler());
    assert_eq!(bad.checked_trait_name("Event"), None);
    assert_eq!(bad.checked_handler_name(), None);

    let named = EnumHandlerArgs {
        trait_name: "New Trait".to_string(),
        ..EnumHandlerArgs::default()
    };
    assert_eq!(named.checked_trait_name("Event"), None);

    let variant = variant_of("OneTuple", EnumVariantType::Unit, vec![]);
    assert!(variant.names_handler(&EnumHandlerArgs::default()));
    assert!(!variant.names_handler(&bad));
    assert!(!variant_of("A-", EnumVariantType::Unit, vec![]).names_handler(&bad));
}

#[test]
fn first_name_that_is_no_identifier() {
    let item = an_enum("", "Event", vec![unit("Stop"), unit("Start")]);
    assert_eq!(first_bad_name(&item, &EnumHandlerArgs::default()), None);

    let bad_trait = EnumHandlerArgs {
        trait_name: "New Trait".to_string(),
        handler_name: "on it".to_string(),
        ..EnumHandlerArgs::default()
    };
    assert_eq!(first_bad_name(&item, &bad_trait), Some("New Trait".to_string()));

    let bad_handler = EnumHandlerArgs {
        handler_name: "on it".to_string(),
        ..EnumHandlerArgs::default()
    };
    assert_eq!(first_bad_name(&item, &bad_handler), Some("on it".to_string()));

    let odd = an_enum("", "Event", vec![unit("Stop"), unit("")]);
    assert_eq!(first_bad_name(&odd, &EnumHandlerArgs::default()), None);
    let broken = an_enum("", "1", vec![unit("Stop")]);
    assert_eq!(
        first_bad_name(&broken, &EnumHandlerArgs::default()),
        Some("1Handler".to_string())
    );

    let no_names = DeriveItem {
        vis: String::new(),
        ident: "1".to_string(),
        data: ItemData::Struct,
    };
    assert_eq!(first_bad_name(&no_names, &bad_trait), None);
    assert_eq!(first_bad_name(&an_enum("", "1", vec![]), &bad_trait), None);
}

#[test]
fn checked_generation_in_the_order_of_its_steps() {
    let item = an_enum("", "Event", vec![unit("Stop"), unit("Start")]);
    let plain = EnumHandlerArgs::default();
    assert_eq!(
        checked_enum_handler_core(&item, &plain).unwrap().unwrap(),
        enum_handler_core(&item, &plain).unwrap()
    );

    let bad_name = EnumHandlerArgs {
        handler_name: "on it".to_string(),
        ..EnumHandlerArgs::default()
    };
    assert!(checked_enum_handler_core(&item, &bad_name).is_none());

    let bad_name_and_value = EnumHandlerArgs {
        handler_name: "on it".to_string(),
        default_implementation: true,
        default_return_value: "1 +".to_string(),
        ..EnumHandlerArgs::default()
    };
    assert!(checked_enum_handler_core(&item, &bad_name_and_value).is_none());

    let bad_name_and_type = EnumHandlerArgs {
        handler_name: "on it".to_string(),
        return_type: "<".to_string(),
        ..EnumHandlerArgs::default()
    };
    assert!(matches!(
        checked_enum_handler_core(&item, &bad_name_and_type),
        Some(Err(Error::SynError(_)))
    ));

    let bad_name_and_visibility = EnumHandlerArgs {
        trait_name: "New Trait".to_string(),
        visibility: "pub(".to_string(),
        ..EnumHandlerArgs::default()
    };
    assert!(matches!(
        checked_enum_handler_core(&item, &bad_name_and_visibility),
        Some(Err(Error::SynError(_)))
    ));

    let not_an_enum = DeriveItem {
        vis: String::new(),
        ident: "S".to_string(),
        data: ItemData::Union,
    };
    assert!(matches!(
        checked_enum_handler_core(&not_an_enum, &bad_name),
        Some(Err(Error::NotEnum))
    ));
    assert!(matches!(
        checked_enum_handler_core(&an_enum("", "E", vec![]), &bad_name),
        Some(Err(Error::NoVariants))
    ));
}

#[test]
fn mock_goes_behind_the_trait_or_is_left_out() {
    assert_eq!(
        with_mock("trait T { }".to_string(), Ok("mock".to_string())),
        "trait T { } mock"
    );
    assert_eq!(
        with_mock("trait T { }".to_string(), Err(Error::SynError("no".to_string()))),
        "trait T { }"
    );
    assert_eq!(with_mock(String::new(), Err(Error::NotEnum)), "");
}

#[test]
fn mock_named_by_a_number_is_left_out() {
    let args = EnumHandlerArgs {
        mock_name: "123".to_string(),
        ..EnumHandlerArgs::default()
    };
    let item = an_enum("", "Event", vec![unit("Unit")]);
    assert_eq!(
        enum_handler_core(&item, &args).unwrap(),
        "trait EventHandler { fn on (& self , e : Event) -> () { match (e) { Event :: Unit => { self . on_unit () } } } fn on_unit (& self) -> () ; }"
    );
}
