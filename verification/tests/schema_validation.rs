use views_codegen::bundles::derive_container_view;
use views_codegen::bundles::derive_hash_container_view;
use views_codegen::bundles::derive_hash_view;
use views_codegen::bundles::derive_view;
use views_codegen::container_code::generate_save_delete_view_code;
use views_codegen::hash_code::generate_crypto_hash_code;
use views_codegen::hash_code::generate_hash_view_code;
use views_codegen::schema::DeriveError;
use views_codegen::schema::FieldDecl;
use views_codegen::schema::GenericParam;
use views_codegen::schema::Schema;
use views_codegen::schema::StructDecl;
use views_codegen::schema::TypeShape;
use views_codegen::view_code::generate_view_code;
use views_codegen::view_code::load_plan;

fn named_field(name: &str, head: &str) -> FieldDecl {
    FieldDecl {
        name: Some(name.to_string()),
        ty: TypeShape::Path(vec![head.to_string()]),
    }
}

fn two_field_decl() -> StructDecl {
    StructDecl {
        name: "TestView".to_string(),
        generics: vec![GenericParam::TypeParam("C".to_string())],
        fields: vec![
            named_field("register", "RegisterView"),
            named_field("collection", "CollectionView"),
        ],
    }
}

#[test]
fn missing_context_parameter_is_reported() {
    let decl = StructDecl {
        name: "TestView".to_string(),
        generics: vec![],
        fields: vec![named_field("register", "RegisterView")],
    };
    assert_eq!(
        generate_view_code(&decl),
        Err(DeriveError::MissingContextParameter)
    );

    let lifetime_only = StructDecl {
        name: "TestView".to_string(),
        generics: vec![GenericParam::OtherParam("'a".to_string())],
        fields: vec![named_field("register", "RegisterView")],
    };
    assert_eq!(
        generate_hash_view_code(&lifetime_only),
        Err(DeriveError::MissingContextParameter)
    );
}

#[test]
fn unnamed_field_is_reported() {
    let decl = StructDecl {
        name: "TestView".to_string(),
        generics: vec![GenericParam::TypeParam("C".to_string())],
        fields: vec![FieldDecl {
            name: None,
            ty: TypeShape::Path(vec!["RegisterView".to_string()]),
        }],
    };
    assert_eq!(generate_view_code(&decl), Err(DeriveError::UnnamedField));
}

#[test]
fn unsupported_field_type_is_reported() {
    let decl = StructDecl {
        name: "TestView".to_string(),
        generics: vec![GenericParam::TypeParam("C".to_string())],
        fields: vec![
            named_field("register", "RegisterView"),
            FieldDecl {
                name: Some("pair".to_string()),
                ty: TypeShape::Other,
            },
        ],
    };
    assert_eq!(
        generate_save_delete_view_code(&decl),
        Err(DeriveError::UnsupportedFieldType)
    );
}

#[test]
fn empty_field_list_is_reported() {
    let decl = StructDecl {
        name: "TestView".to_string(),
        generics: vec![GenericParam::TypeParam("C".to_string())],
        fields: vec![],
    };
    assert_eq!(generate_crypto_hash_code(&decl), Err(DeriveError::NoFields));
}

#[test]
fn container_bundle_concatenates_view_and_transactional_impls() {
    let decl = two_field_decl();
    let bundle = derive_container_view(&decl).unwrap();
    let view = generate_view_code(&decl).unwrap();
    let container = generate_save_delete_view_code(&decl).unwrap();
    assert_eq!(bundle, format!("{}{}", view, container));
}

#[test]
fn hash_container_bundle_emits_all_four_impls() {
    let decl = two_field_decl();
    let bundle = derive_hash_container_view(&decl).unwrap();
    let view = generate_view_code(&decl).unwrap();
    let container = generate_save_delete_view_code(&decl).unwrap();
    let hash = generate_hash_view_code(&decl).unwrap();
    let crypto = generate_crypto_hash_code(&decl).unwrap();
    assert_eq!(bundle, format!("{}{}{}{}", view, container, hash, crypto));
    assert!(bundle.contains("struct TestViewHash"));
}

#[test]
fn view_bundle_matches_base_composite() {
    let decl = two_field_decl();
    assert_eq!(
        derive_view(&decl).unwrap(),
        generate_view_code(&decl).unwrap()
    );
    assert_eq!(
        derive_hash_view(&decl).unwrap(),
        generate_hash_view_code(&decl).unwrap()
    );
}

#[test]
fn load_plan_positions_are_declaration_order() {
    let decl = StructDecl {
        name: "Wide".to_string(),
        generics: vec![
            GenericParam::TypeParam("C".to_string()),
            GenericParam::TypeParam("D".to_string()),
        ],
        fields: (0..12)
            .map(|i| named_field(&format!("field{}", i), "RegisterView"))
            .collect(),
    };
    let schema = Schema::from_declaration(&decl).unwrap();
    let plan = load_plan(&schema);
    assert_eq!(plan.len(), 12);
    for (i, step) in plan.iter().enumerate() {
        assert_eq!(step.position, i);
        assert_eq!(step.field_name, format!("field{}", i));
        assert_eq!(step.type_head, "RegisterView");
    }
}

#[test]
fn load_positions_render_in_decimal() {
    let decl = StructDecl {
        name: "Wide".to_string(),
        generics: vec![GenericParam::TypeParam("C".to_string())],
        fields: (0..12)
            .map(|i| named_field(&format!("field{}", i), "RegisterView"))
            .collect(),
    };
    let view = generate_view_code(&decl).unwrap();
    assert!(view.contains("let index = 0;"));
    assert!(view.contains("let index = 9;"));
    assert!(view.contains("let index = 10;"));
    assert!(view.contains("let index = 11;"));
    assert!(!view.contains("let index = 12;"));
}

#[test]
fn multiple_generic_parameters_use_the_first_type_parameter() {
    let decl = StructDecl {
        name: "TestView".to_string(),
        generics: vec![
            GenericParam::OtherParam("'a".to_string()),
            GenericParam::TypeParam("C".to_string()),
            GenericParam::TypeParam("D".to_string()),
        ],
        fields: vec![named_field("register", "RegisterView")],
    };
    let view = generate_view_code(&decl).unwrap();
    assert!(view.contains("impl<'a, C, D> linera_views::views::View<C> for TestView<'a, C, D>"));
    assert!(view.contains("    C: Context + Send + Sync + Clone + 'static,"));
}

#[test]
fn nested_path_field_uses_its_first_segment() {
    let decl = StructDecl {
        name: "TestView".to_string(),
        generics: vec![GenericParam::TypeParam("C".to_string())],
        fields: vec![FieldDecl {
            name: Some("inner".to_string()),
            ty: TypeShape::Path(vec!["views".to_string(), "RegisterView".to_string()]),
        }],
    };
    let view = generate_view_code(&decl).unwrap();
    assert!(view.contains("let inner = views::load(context.clone_with_base_key(base_key)).await?;"));
}
