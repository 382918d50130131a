use mime::{FieldDefinition, FieldDefinitionError, FieldDefinitionErrorKind, FieldVisibility, FieldVisibilityError};

#[test]
fn field_visibility_valid_from_str() {
    assert_eq!(
        FieldVisibility::Public,
        FieldVisibility::from_str("pub").unwrap()
    );
    assert_eq!(
        FieldVisibility::Private,
        FieldVisibility::from_str("pri").unwrap()
    );
}

#[test]
fn field_viasbility_invalid_from_str() {
    assert_eq!(
        Err(FieldVisibilityError::new("Invalid visibility specified", "test")),
        FieldVisibility::from_str("test")
    );
}

#[test]
fn field_visibility_format() {
    let public = FieldVisibility::from_str("pub").unwrap();
    assert_eq!("pub", public.to_string());

    let private = FieldVisibility::from_str("pri").unwrap();
    assert_eq!("", private.to_string());
}

#[test]
fn field_definition_valid_from_str() {
    let field = FieldDefinition::from_str("id:i32").unwrap();
    assert_eq!("id", field.name());
    assert_eq!("i32", field.ty());
    assert_eq!(FieldVisibility::Public, field.visibility());

    let field = FieldDefinition::from_str("id:i32:pri").unwrap();
    assert_eq!("id", field.name());
    assert_eq!("i32", field.ty());
    assert_eq!(FieldVisibility::Private, field.visibility());
}

#[test]
fn field_definition_invalid_from_str() {
    assert_eq!(
        FieldDefinitionErrorKind::InvalidFormat,
        FieldDefinition::from_str("id:i32:pub:test")
            .err()
            .unwrap()
            .kind
    );
    assert_eq!(
        FieldDefinitionErrorKind::InvalidVisibility(FieldVisibilityError::new(
            "Invalid visibility specified",
            "hans"
        )),
        FieldDefinition::from_str("id:i32:hans").err().unwrap().kind
    );
    assert_eq!(
        FieldDefinitionErrorKind::Space,
        FieldDefinition::from_str("id:i32 test").err().unwrap().kind
    );
}

#[test]
fn public_visibility_token_gives_public_field() {
    let field = FieldDefinition::from_str("email:String:pub").unwrap();
    assert_eq!("email", field.name());
    assert_eq!("String", field.ty());
    assert_eq!(FieldVisibility::Public, field.visibility());
}

#[test]
fn any_white_space_is_refused_first() {
    for d in ["id:i32\ttest", "id :i32", " id:i32", "id:i32:pub:x y", "a\u{3000}b:c", "x\n:y"] {
        let e = FieldDefinition::from_str(d).err().unwrap();
        assert_eq!(FieldDefinitionErrorKind::Space, e.kind);
        assert_eq!("Space not allowed in field definition", e.to_string());
    }
}

#[test]
fn wrong_segment_counts_are_malformed() {
    for d in ["", "id", "idi32", "a:b:pub:c", "a:b:c:d:e", "::::"] {
        let e = FieldDefinition::from_str(d).err().unwrap();
        assert_eq!(FieldDefinitionErrorKind::InvalidFormat, e.kind);
        assert_eq!("Malformed field definition", e.msg);
    }
}

#[test]
fn empty_name_or_type_is_malformed() {
    for d in [":i32", "id:", ":", ":i32:pub", "id::pri", "::pub"] {
        let e = FieldDefinition::from_str(d).err().unwrap();
        assert_eq!(FieldDefinitionErrorKind::InvalidFormat, e.kind);
    }
}

#[test]
fn unknown_visibility_is_wrapped() {
    for (d, token) in [
        ("id:i32:hans", "hans"),
        ("id:i32:", ""),
        ("id:i32:PUB", "PUB"),
        ("id:i32:public", "public"),
        ("::hans", "hans"),
        (":i32:x", "x"),
        ("id::x", "x"),
    ] {
        let e = FieldDefinition::from_str(d).err().unwrap();
        assert_eq!("Invalid visibility", e.to_string());
        match e.kind {
            FieldDefinitionErrorKind::InvalidVisibility(cause) => {
                assert_eq!("Invalid visibility specified", cause.to_string());
                assert_eq!(token, cause.token);
            }
            other => panic!("unexpected kind {:?}", other),
        }
    }
}

#[test]
fn field_lines() {
    let public = FieldDefinition::from_str("id:i32").unwrap();
    assert_eq!("pub id: i32,", public.to_string());
    let private = FieldDefinition::from_str("email:String:pri").unwrap();
    assert_eq!("email: String,", private.to_string());
}

#[test]
fn unicode_names_are_kept_verbatim() {
    let field = FieldDefinition::from_str("größe:Vec<u8>:pri").unwrap();
    assert_eq!("größe", field.name());
    assert_eq!("Vec<u8>", field.ty());
    assert_eq!(FieldVisibility::Private, field.visibility());
}

#[test]
fn descriptors_parse_through_from_str_trait() {
    let field: FieldDefinition = "name:String:pri".parse().unwrap();
    assert_eq!("name", field.name());
    assert_eq!(FieldVisibility::Private, field.visibility());
    let visibility: FieldVisibility = "pub".parse().unwrap();
    assert_eq!(FieldVisibility::Public, visibility);
    assert!("x".parse::<FieldVisibility>().is_err());
}

#[test]
fn visibility_errors_keep_the_token() {
    let hans = FieldVisibility::from_str("hans").err().unwrap();
    let test = FieldVisibility::from_str("test").err().unwrap();
    assert_eq!("hans", hans.token);
    assert_eq!("test", test.token);
    assert_ne!(hans, test);
}

#[test]
fn visibility_error_converts_into_field_error() {
    let cause = FieldVisibilityError::new("Invalid visibility specified", "x");
    let e = FieldDefinitionError::from(cause);
    assert_eq!("Invalid visibility", e.msg);
    assert_eq!(
        FieldDefinitionErrorKind::InvalidVisibility(FieldVisibilityError::new(
            "Invalid visibility specified",
            "x"
        )),
        e.kind
    );
}
