use mime::{
    FieldDefinition, FieldDefinitionErrorKind, GenerationAction, GenerationConfig,
    GenerationEvent, ModelData, ModelDefinition, ModelError,
};

fn fields(descriptors: &[&str]) -> Vec<FieldDefinition> {
    descriptors
        .iter()
        .map(|d| FieldDefinition::from_str(d).unwrap())
        .collect()
}

fn model(name: &str, descriptors: &[&str]) -> ModelDefinition {
    ModelDefinition::new(ModelData::new(name, "", fields(descriptors)).unwrap())
}

#[test]
fn names_take_case_of_first_character() {
    let data = ModelData::new("user", "users", Vec::new()).unwrap();
    assert_eq!("User", data.class_name());
    assert_eq!("user", data.file_name());
    assert_eq!("users", data.table_name());

    let data = ModelData::new("OrderItem", "", Vec::new()).unwrap();
    assert_eq!("OrderItem", data.class_name());
    assert_eq!("orderItem", data.file_name());
}

#[test]
fn casing_is_unicode_aware_on_first_character_only() {
    assert_eq!("Éclair", ModelData::first_character_to_upper("éclair"));
    assert_eq!("SSen", ModelData::first_character_to_upper("ßen"));
    assert_eq!("äBC", ModelData::first_character_to_lower("ÄBC"));
    assert_eq!("X", ModelData::first_character_to_upper("x"));
    assert_eq!("", ModelData::first_character_to_upper(""));
    assert_eq!("", ModelData::first_character_to_lower(""));
}

#[test]
fn uppercasing_twice_is_uppercasing_once() {
    for name in ["user", "User", "ßen", "éclair", "1abc", "x"] {
        let once = ModelData::first_character_to_upper(name);
        assert_eq!(once, ModelData::first_character_to_upper(&once));
    }
}

#[test]
fn empty_model_name_is_refused() {
    assert_eq!(
        ModelError::InvalidModelName,
        ModelData::new("", "", Vec::new()).err().unwrap()
    );
    let descriptors = vec!["id:i32".to_string()];
    assert_eq!(
        ModelError::InvalidModelName,
        ModelData::from_descriptors("", "", &descriptors).err().unwrap()
    );
}

#[test]
fn rendering_lists_fields_in_order() {
    let m = model("user", &["id:i32", "email:String:pri"]);
    assert_eq!(
        "struct User {\n    pub id: i32,\n    email: String,\n}\n",
        m.model_data().to_string()
    );
    assert_eq!(
        "struct User {\n    pub id: i32,\n    email: String,\n}\n\n",
        m.to_string()
    );
}

#[test]
fn rendering_without_fields() {
    let m = model("empty", &[]);
    assert_eq!("struct Empty {\n}\n", m.model_data().to_string());
}

#[test]
fn swapped_fields_render_differently() {
    let a = model("user", &["id:i32", "email:String:pri"]);
    let b = model("user", &["email:String:pri", "id:i32"]);
    assert_ne!(a.to_string(), b.to_string());
    let c = model("user", &["id:i32", "id:i32"]);
    let d = model("user", &["id:i32", "id:i32"]);
    assert_eq!(c.to_string(), d.to_string());
}

#[test]
fn descriptors_build_a_model() {
    let descriptors = vec!["id:i32".to_string(), "email:String:pri".to_string()];
    let data = ModelData::from_descriptors("user", "users", &descriptors).unwrap();
    assert_eq!("User", data.class_name());
    assert_eq!(2, data.fields().len());
    assert_eq!("id", data.fields()[0].name());
    assert_eq!("email", data.fields()[1].name());
}

#[test]
fn descriptors_stop_at_first_fault() {
    let descriptors = vec![
        "id:i32".to_string(),
        "bad field".to_string(),
        "x".to_string(),
    ];
    match ModelData::from_descriptors("user", "", &descriptors) {
        Err(ModelError::Field { index, error }) => {
            assert_eq!(1, index);
            assert_eq!(FieldDefinitionErrorKind::Space, error.kind)
        }
        other => panic!("unexpected result {:?}", other),
    }
    let descriptors = vec!["x".to_string(), "bad field".to_string()];
    match ModelData::from_descriptors("user", "", &descriptors) {
        Err(ModelError::Field { index, error }) => {
            assert_eq!(0, index);
            assert_eq!(FieldDefinitionErrorKind::InvalidFormat, error.kind)
        }
        other => panic!("unexpected result {:?}", other),
    }
}

#[test]
fn config_defaults_and_getters() {
    let c = GenerationConfig::new(false, false, None);
    assert_eq!("src/models", c.model_dir());
    assert!(!c.is_force());
    assert!(!c.dry_run());
    let c = GenerationConfig::new(true, true, Some("out"));
    assert_eq!("out", c.model_dir());
    assert!(c.is_force());
    assert!(c.dry_run());
}

#[test]
fn target_path_joins_directory_and_file_name() {
    let m = model("User", &[]);
    assert_eq!("models/user.rs", m.target_path(&GenerationConfig::new(false, false, Some("models"))));
    assert_eq!("models/user.rs", m.target_path(&GenerationConfig::new(false, false, Some("models/"))));
    assert_eq!("user.rs", m.target_path(&GenerationConfig::new(false, false, Some(""))));
    assert_eq!("src/models/user.rs", m.target_path(&GenerationConfig::new(false, false, None)));
}

#[test]
fn dry_run_never_touches_the_file_system() {
    let m = model("user", &["id:i32"]);
    for force in [false, true] {
        let c = GenerationConfig::new(force, true, Some("models"));
        for event in [
            GenerationEvent::Start,
            GenerationEvent::DirectoryReady { file_exists: false },
            GenerationEvent::DirectoryReady { file_exists: true },
        ] {
            assert_eq!(GenerationAction::Skip, m.next_action(&c, event));
        }
    }
}

#[test]
fn existing_file_is_kept_without_force() {
    let m = model("user", &["id:i32"]);
    let c = GenerationConfig::new(false, false, Some("models"));
    assert_eq!(
        GenerationAction::CreateDirectory("models".to_string()),
        m.next_action(&c, GenerationEvent::Start)
    );
    assert_eq!(
        GenerationAction::AlreadyExists("models/user.rs".to_string()),
        m.next_action(&c, GenerationEvent::DirectoryReady { file_exists: true })
    );
}

#[test]
fn existing_file_is_overwritten_with_force() {
    let m = model("user", &["id:i32"]);
    let c = GenerationConfig::new(true, false, Some("models"));
    assert_eq!(
        GenerationAction::Write {
            path: "models/user.rs".to_string(),
            text: "struct User {\n    pub id: i32,\n}\n\n".to_string(),
        },
        m.next_action(&c, GenerationEvent::DirectoryReady { file_exists: true })
    );
}

#[test]
fn end_to_end_user_model() {
    let descriptors = vec!["id:i32".to_string(), "email:String:pri".to_string()];
    let data = ModelData::from_descriptors("user", "", &descriptors).unwrap();
    let m = ModelDefinition::new(data);
    let c = GenerationConfig::new(false, false, Some("models"));
    let expected = "struct User {\n    pub id: i32,\n    email: String,\n}\n\n";
    assert_eq!(
        GenerationAction::CreateDirectory("models".to_string()),
        m.next_action(&c, GenerationEvent::Start)
    );
    assert_eq!(
        GenerationAction::Write {
            path: "models/user.rs".to_string(),
            text: expected.to_string(),
        },
        m.next_action(&c, GenerationEvent::DirectoryReady { file_exists: false })
    );
    assert_eq!(expected, m.to_string());
}
