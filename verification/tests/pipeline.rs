use index_config_core::builder::build_config;
use index_config_core::emit::{emit_provider, SettingsCall};
use index_config_core::model::{
    ConfigError, DupRole, FieldInput, FieldRoles, ItemShape, NameOverride, StructBlock, TypeInput,
};
use index_config_core::naming::is_valid_name;

fn roles(
    primary_key: bool,
    displayed: bool,
    searchable: bool,
    distinct: bool,
    filterable: bool,
    sortable: bool,
) -> FieldRoles {
    FieldRoles { primary_key, displayed, searchable, distinct, filterable, sortable }
}

fn field(name: &str, span: usize, r: FieldRoles) -> FieldInput {
    FieldInput { name: name.to_string(), span, blocks: vec![Some(r)] }
}

fn plain_field(name: &str, span: usize) -> FieldInput {
    FieldInput { name: name.to_string(), span, blocks: vec![] }
}

fn named_type(ident: &str, blocks: Vec<StructBlock>, fields: Vec<FieldInput>) -> TypeInput {
    TypeInput {
        ident: ident.to_string(),
        ident_span: 0,
        shape: ItemShape::NamedFields,
        struct_blocks: blocks,
        fields,
    }
}

fn name_block(value: &str, span: usize) -> StructBlock {
    StructBlock {
        index_name: Some(NameOverride { value: value.to_string(), span }),
        max_total_hits: None,
    }
}

#[test]
fn single_primary_key_is_recorded() {
    let t = named_type(
        "Movie",
        vec![],
        vec![
            field("id", 1, roles(true, false, false, false, false, false)),
            plain_field("title", 2),
        ],
    );
    let d = build_config(&t).unwrap();
    assert_eq!(d.primary_key_field, Some("id".to_string()));
    assert_eq!(d.distinct_field, None);
}

#[test]
fn no_primary_key_is_absent() {
    let t = named_type("Movie", vec![], vec![plain_field("id", 1), plain_field("title", 2)]);
    let d = build_config(&t).unwrap();
    assert_eq!(d.primary_key_field, None);
}

#[test]
fn second_primary_key_is_rejected_at_second_field() {
    let t = named_type(
        "Movie",
        vec![],
        vec![
            field("id", 1, roles(true, false, false, false, false, false)),
            field("other", 2, roles(true, false, false, false, false, false)),
        ],
    );
    let e = build_config(&t).unwrap_err();
    assert_eq!(e, ConfigError::DuplicateRole { role: DupRole::PrimaryKey, span: 2 });
    assert_eq!(e.message(), "Only one field can be marked as primary key");
    assert_eq!(e.span(), 2);
}

#[test]
fn single_distinct_is_recorded() {
    let t = named_type(
        "Movie",
        vec![],
        vec![
            plain_field("id", 1),
            field("slug", 2, roles(false, false, false, true, false, false)),
        ],
    );
    let d = build_config(&t).unwrap();
    assert_eq!(d.distinct_field, Some("slug".to_string()));
    assert_eq!(d.primary_key_field, None);
}

#[test]
fn second_distinct_is_rejected_at_second_field() {
    let t = named_type(
        "Movie",
        vec![],
        vec![
            field("a", 1, roles(false, false, false, true, false, false)),
            field("b", 5, roles(false, false, false, true, false, false)),
        ],
    );
    let e = build_config(&t).unwrap_err();
    assert_eq!(e, ConfigError::DuplicateRole { role: DupRole::Distinct, span: 5 });
    assert_eq!(e.message(), "Only one field can be marked as distinct");
}

#[test]
fn primary_key_duplicate_wins_over_distinct_duplicate_on_same_field() {
    let both = roles(true, false, false, true, false, false);
    let t = named_type("Movie", vec![], vec![field("a", 1, both), field("b", 2, both)]);
    let e = build_config(&t).unwrap_err();
    assert_eq!(e, ConfigError::DuplicateRole { role: DupRole::PrimaryKey, span: 2 });
}

#[test]
fn unannotated_type_name_is_snake_cased() {
    let t = named_type("UserProfile", vec![], vec![]);
    let d = build_config(&t).unwrap();
    assert_eq!(d.index_name, "user_profile");
}

#[test]
fn explicit_valid_override_is_kept_verbatim() {
    let t = named_type("UserProfile", vec![name_block("My-Index", 7)], vec![]);
    let d = build_config(&t).unwrap();
    assert_eq!(d.index_name, "My-Index");
}

#[test]
fn invalid_override_is_rejected_at_its_annotation() {
    let t = named_type("UserProfile", vec![name_block("bad name!", 7)], vec![]);
    let e = build_config(&t).unwrap_err();
    assert_eq!(e, ConfigError::InvalidName { span: 7 });
    assert_eq!(e.message(), "Index must follow the naming guidelines.");
}

#[test]
fn empty_override_is_rejected() {
    let t = named_type("UserProfile", vec![name_block("", 3)], vec![]);
    assert_eq!(build_config(&t).unwrap_err(), ConfigError::InvalidName { span: 3 });
}

#[test]
fn name_charset_accepts_letters_digits_hyphen_underscore() {
    assert!(is_valid_name("My-Index_2"));
    assert!(is_valid_name("a"));
    assert!(!is_valid_name(""));
    assert!(!is_valid_name("bad name!"));
    assert!(!is_valid_name("caf\u{e9}"));
}

#[test]
fn last_name_override_wins_across_blocks() {
    let t = named_type(
        "Movie",
        vec![name_block("first", 1), name_block("second", 2)],
        vec![],
    );
    let d = build_config(&t).unwrap();
    assert_eq!(d.index_name, "second");
}

#[test]
fn keys_are_overwritten_independently_across_blocks() {
    let blocks = vec![
        StructBlock {
            index_name: Some(NameOverride { value: "movies".to_string(), span: 1 }),
            max_total_hits: Some("100".to_string()),
        },
        StructBlock { index_name: None, max_total_hits: Some("500".to_string()) },
    ];
    let t = named_type("Movie", blocks, vec![]);
    let d = build_config(&t).unwrap();
    assert_eq!(d.index_name, "movies");
    assert_eq!(d.pagination_limit, Some("500".to_string()));
}

#[test]
fn first_successfully_parsed_field_block_wins() {
    let first = roles(false, true, false, false, false, false);
    let second = roles(false, false, true, false, false, false);
    let f = FieldInput {
        name: "title".to_string(),
        span: 1,
        blocks: vec![None, Some(first), Some(second)],
    };
    let t = named_type("Movie", vec![], vec![f]);
    let d = build_config(&t).unwrap();
    assert_eq!(d.displayed_fields, vec!["title".to_string()]);
    assert!(d.searchable_fields.is_empty());
}

#[test]
fn field_with_no_recognized_block_has_no_roles() {
    let t = named_type("Movie", vec![], vec![plain_field("title", 1)]);
    let d = build_config(&t).unwrap();
    assert!(d.displayed_fields.is_empty());
    assert!(d.searchable_fields.is_empty());
    assert!(d.filterable_fields.is_empty());
    assert!(d.sortable_fields.is_empty());
}

#[test]
fn group_sequences_preserve_declaration_order() {
    let t = named_type(
        "Movie",
        vec![],
        vec![
            field("a", 1, roles(false, true, true, false, false, false)),
            field("b", 2, roles(false, false, true, false, true, false)),
            field("c", 3, roles(false, true, false, false, false, true)),
        ],
    );
    let d = build_config(&t).unwrap();
    assert_eq!(d.displayed_fields, vec!["a".to_string(), "c".to_string()]);
    assert_eq!(d.searchable_fields, vec!["a".to_string(), "b".to_string()]);
    assert_eq!(d.filterable_fields, vec!["b".to_string()]);
    assert_eq!(d.sortable_fields, vec!["c".to_string()]);
}

#[test]
fn tuple_like_item_is_rejected() {
    let t = TypeInput {
        ident: "Pair".to_string(),
        ident_span: 4,
        shape: ItemShape::UnnamedFields,
        struct_blocks: vec![],
        fields: vec![],
    };
    let e = build_config(&t).unwrap_err();
    assert_eq!(e, ConfigError::WrongShape { span: 4 });
    assert_eq!(e.message(), "Applicable only to struct");
}

#[test]
fn unit_like_and_enum_like_items_are_rejected() {
    for shape in [ItemShape::Unit, ItemShape::NotAStruct] {
        let t = TypeInput {
            ident: "Thing".to_string(),
            ident_span: 9,
            shape,
            struct_blocks: vec![],
            fields: vec![],
        };
        assert_eq!(build_config(&t).unwrap_err(), ConfigError::WrongShape { span: 9 });
    }
}

#[test]
fn shape_is_checked_before_the_name() {
    let t = TypeInput {
        ident: "Pair".to_string(),
        ident_span: 4,
        shape: ItemShape::UnnamedFields,
        struct_blocks: vec![name_block("bad name!", 7)],
        fields: vec![],
    };
    assert_eq!(build_config(&t).unwrap_err(), ConfigError::WrongShape { span: 4 });
}

#[test]
fn invalid_name_is_reported_before_duplicate_roles() {
    let pk = roles(true, false, false, false, false, false);
    let t = named_type(
        "Movie",
        vec![name_block("bad name!", 7)],
        vec![field("a", 1, pk), field("b", 2, pk)],
    );
    assert_eq!(build_config(&t).unwrap_err(), ConfigError::InvalidName { span: 7 });
}

#[test]
fn running_the_pipeline_twice_gives_equal_descriptors() {
    let t = named_type(
        "UserProfile",
        vec![StructBlock { index_name: None, max_total_hits: Some("500".to_string()) }],
        vec![
            field("id", 1, roles(true, true, false, false, false, false)),
            field("bio", 2, roles(false, true, true, false, true, true)),
        ],
    );
    let first = build_config(&t).unwrap();
    let second = build_config(&t).unwrap();
    assert_eq!(first, second);
}

#[test]
fn settings_chain_always_carries_the_four_group_calls() {
    let t = named_type("Movie", vec![], vec![plain_field("title", 1)]);
    let p = emit_provider(build_config(&t).unwrap());
    assert_eq!(
        p.settings,
        vec![
            SettingsCall::DisplayedAttributes { names: vec![] },
            SettingsCall::SortableAttributes { names: vec![] },
            SettingsCall::FilterableAttributes { names: vec![] },
            SettingsCall::SearchableAttributes { names: vec![] },
        ]
    );
}

#[test]
fn distinct_call_is_emitted_only_when_a_distinct_field_exists() {
    let t = named_type(
        "Movie",
        vec![],
        vec![field("slug", 1, roles(false, false, false, true, false, false))],
    );
    let p = emit_provider(build_config(&t).unwrap());
    assert_eq!(p.settings.len(), 5);
    assert_eq!(p.settings[4], SettingsCall::DistinctAttribute { name: "slug".to_string() });
}

#[test]
fn no_pagination_value_emits_no_pagination_call() {
    let t = named_type("Movie", vec![], vec![]);
    let p = emit_provider(build_config(&t).unwrap());
    assert!(p.settings.iter().all(|c| !matches!(c, SettingsCall::Pagination { .. })));
}

#[test]
fn pagination_value_is_forwarded_verbatim_as_the_last_call() {
    let t = named_type(
        "Movie",
        vec![StructBlock { index_name: None, max_total_hits: Some("500".to_string()) }],
        vec![],
    );
    let p = emit_provider(build_config(&t).unwrap());
    assert_eq!(
        p.settings.last(),
        Some(&SettingsCall::Pagination { max_total_hits: "500".to_string() })
    );
}

#[test]
fn provider_carries_index_name_and_primary_key() {
    let t = named_type(
        "Movie",
        vec![],
        vec![field("id", 1, roles(true, false, false, false, false, false))],
    );
    let p = emit_provider(build_config(&t).unwrap());
    assert_eq!(p.index_name, "movie");
    assert_eq!(p.primary_key, Some("id".to_string()));
}

#[test]
fn snake_casing_handles_plain_and_mixed_identifiers() {
    let one = named_type("Movie", vec![], vec![]);
    assert_eq!(build_config(&one).unwrap().index_name, "movie");
    let two = named_type("HTTPResponse2", vec![], vec![]);
    let d = build_config(&two).unwrap();
    assert!(is_valid_name(&d.index_name));
    assert_eq!(d.index_name, d.index_name.to_lowercase());
}
