//! End-to-end tests of registration, compilation and rendering.

use render::compiler::{compile_templates, TemplateSource};
use render::engine::Engine;
use render::errors::{CompileErrorType, RenderErrorType};
use render::registry::{register_component, Registry};
use render::renderer::render_template;
use render::resolver::{is_authorized, validate_template_variables};
use render::schema::{Property, Schema};

fn obj(props: Vec<(&str, Schema)>) -> Schema {
    Schema::Object {
        properties: props
            .into_iter()
            .map(|(key, schema)| Property { key: key.to_string(), schema })
            .collect(),
    }
}

fn extract_vars_from_template(template: &str) -> Vec<String> {
    let mut env = minijinja::Environment::new();
    env.add_template_owned("template".to_string(), template.to_string())
        .unwrap();
    let tmpl = env.get_template("template").unwrap();
    tmpl.undeclared_variables(true).into_iter().collect()
}

fn json(text: &str) -> serde_json::Value {
    serde_json::from_str(text).unwrap()
}

fn setup(registry: &mut Registry) -> Vec<TemplateSource> {
    register_component(
        registry,
        "name_component".to_string(),
        obj(vec![("name", Schema::Leaf)]),
    )
    .unwrap();
    register_component(
        registry,
        "condition_component".to_string(),
        obj(vec![("condition", Schema::Leaf)]),
    )
    .unwrap();
    vec![
        TemplateSource {
            name: "test1".to_string(),
            source: "Hello {{ name }}!".to_string(),
            components: vec!["name_component".to_string()],
        },
        TemplateSource {
            name: "test2".to_string(),
            source: "{% if condition %}True{% else %}False{% endif %}".to_string(),
            components: vec!["condition_component".to_string()],
        },
    ]
}

#[test]
fn test_register_component_success() {
    let mut registry = Registry::new();
    register_component(
        &mut registry,
        "test_button".to_string(),
        obj(vec![("label", Schema::Leaf), ("url", Schema::Leaf)]),
    )
    .unwrap();
    assert!(registry.lookup(&"test_button".to_string()).is_some());
    assert!(registry.lookup(&"other".to_string()).is_none());
}

#[test]
fn test_validate_template_variables_authorised() {
    let mut registry = Registry::new();
    register_component(
        &mut registry,
        "test_button".to_string(),
        obj(vec![("label", Schema::Leaf), ("url", Schema::Leaf)]),
    )
    .unwrap();
    let vars = extract_vars_from_template("{{ label }}");
    let components = vec!["test_button".to_string()];
    assert_eq!(validate_template_variables(&registry, &components, &vars), Ok(()));
}

#[test]
fn test_validate_template_variables_unauthorised() {
    let registry = Registry::new();
    let vars = extract_vars_from_template("{{ unauthorised_variable }}");
    let components: Vec<String> = vec![];
    let err = validate_template_variables(&registry, &components, &vars).unwrap_err();
    assert!(err.contains("unauthorised_variable"));
    assert_eq!(
        err,
        "Variable 'unauthorised_variable' is not allowed by schema"
    );
}

#[test]
fn test_compile_templates() {
    let mut registry = Registry::new();
    let templates = setup(&mut registry);
    let mut engine = Engine::new();
    assert!(compile_templates(&registry, &mut engine, &templates).is_ok());
}

#[test]
fn test_render_template() {
    let mut registry = Registry::new();
    let templates = setup(&mut registry);
    let mut engine = Engine::new();
    compile_templates(&registry, &mut engine, &templates).unwrap();
    let result = render_template(&engine, &"test1".to_string(), &json(r#"{"name":"World"}"#));
    assert_eq!(result.unwrap(), "Hello World!");
}

#[test]
fn test_render_template_with_condition() {
    let mut registry = Registry::new();
    let templates = setup(&mut registry);
    let mut engine = Engine::new();
    compile_templates(&registry, &mut engine, &templates).unwrap();
    let result = render_template(&engine, &"test2".to_string(), &json(r#"{"condition":true}"#));
    assert_eq!(result.unwrap(), "True");
}

#[test]
fn test_render_template_with_false_condition() {
    let mut registry = Registry::new();
    let templates = setup(&mut registry);
    let mut engine = Engine::new();
    compile_templates(&registry, &mut engine, &templates).unwrap();
    let result = render_template(&engine, &"test2".to_string(), &json(r#"{"condition":false}"#));
    assert_eq!(result.unwrap(), "False");
}

#[test]
fn test_render_nonexistent_template() {
    let engine = Engine::new();
    let err = render_template(&engine, &"nonexistent".to_string(), &json("{}")).unwrap_err();
    assert_eq!(err.error_type, RenderErrorType::TemplateNotFound);
    assert!(err.message.contains("Template not found"));
}

#[test]
fn test_compile_undeclared_component_fails_with_variable_name() {
    let registry = Registry::new();
    let mut engine = Engine::new();
    let templates = vec![TemplateSource {
        name: "secret_template".to_string(),
        source: "{{ secret }}".to_string(),
        components: vec![],
    }];
    let err = compile_templates(&registry, &mut engine, &templates).unwrap_err();
    assert_eq!(err.error_type, CompileErrorType::SchemaValidationError);
    assert_eq!(
        err.message,
        "Template validation error: Variable 'secret' is not allowed by schema"
    );
    assert!(err.missing_dependencies.is_none());
}

#[test]
fn test_failed_compilation_renders_not_found() {
    let registry = Registry::new();
    let mut engine = Engine::new();
    let templates = vec![TemplateSource {
        name: "secret_template".to_string(),
        source: "{{ secret }}".to_string(),
        components: vec![],
    }];
    assert!(compile_templates(&registry, &mut engine, &templates).is_err());
    let err = render_template(&engine, &"secret_template".to_string(), &json("{}")).unwrap_err();
    assert_eq!(err.error_type, RenderErrorType::TemplateNotFound);
}

#[test]
fn test_recompile_overwrites_previous_template() {
    let mut registry = Registry::new();
    register_component(
        &mut registry,
        "name_component".to_string(),
        obj(vec![("name", Schema::Leaf)]),
    )
    .unwrap();
    let mut engine = Engine::new();
    let first = vec![TemplateSource {
        name: "greeting".to_string(),
        source: "Hello {{ name }}!".to_string(),
        components: vec!["name_component".to_string()],
    }];
    compile_templates(&registry, &mut engine, &first).unwrap();
    let second = vec![TemplateSource {
        name: "greeting".to_string(),
        source: "Goodbye {{ name }}!".to_string(),
        components: vec!["name_component".to_string()],
    }];
    compile_templates(&registry, &mut engine, &second).unwrap();
    let result = render_template(&engine, &"greeting".to_string(), &json(r#"{"name":"World"}"#));
    assert_eq!(result.unwrap(), "Goodbye World!");
}

#[test]
fn test_recompile_failure_removes_previous_template() {
    let mut registry = Registry::new();
    register_component(
        &mut registry,
        "name_component".to_string(),
        obj(vec![("name", Schema::Leaf)]),
    )
    .unwrap();
    let mut engine = Engine::new();
    let first = vec![TemplateSource {
        name: "greeting".to_string(),
        source: "Hello {{ name }}!".to_string(),
        components: vec!["name_component".to_string()],
    }];
    compile_templates(&registry, &mut engine, &first).unwrap();
    let second = vec![TemplateSource {
        name: "greeting".to_string(),
        source: "{{ secret }}".to_string(),
        components: vec!["name_component".to_string()],
    }];
    assert!(compile_templates(&registry, &mut engine, &second).is_err());
    let err = render_template(&engine, &"greeting".to_string(), &json("{}")).unwrap_err();
    assert_eq!(err.error_type, RenderErrorType::TemplateNotFound);
}

#[test]
fn test_compile_syntax_error() {
    let registry = Registry::new();
    let mut engine = Engine::new();
    let templates = vec![TemplateSource {
        name: "broken".to_string(),
        source: "{% if %}".to_string(),
        components: vec![],
    }];
    let err = compile_templates(&registry, &mut engine, &templates).unwrap_err();
    assert!(
        err.error_type == CompileErrorType::ParseError
            || err.error_type == CompileErrorType::MissingDependency
    );
    assert!(!err.message.is_empty());
}

#[test]
fn test_earlier_templates_stay_compiled_after_failure() {
    let mut registry = Registry::new();
    let templates = setup(&mut registry);
    let mut engine = Engine::new();
    let batch = vec![
        templates[0].clone(),
        TemplateSource {
            name: "bad".to_string(),
            source: "{{ secret }}".to_string(),
            components: vec![],
        },
    ];
    assert!(compile_templates(&registry, &mut engine, &batch).is_err());
    let result = render_template(&engine, &"test1".to_string(), &json(r#"{"name":"World"}"#));
    assert_eq!(result.unwrap(), "Hello World!");
}

#[test]
fn test_render_error_on_undefined_variable_in_strict_mode() {
    let mut registry = Registry::new();
    let templates = setup(&mut registry);
    let mut engine = Engine::new();
    compile_templates(&registry, &mut engine, &templates).unwrap();
    let err = render_template(&engine, &"test1".to_string(), &json("{}")).unwrap_err();
    assert_eq!(err.error_type, RenderErrorType::RenderError);
    assert!(err.message.starts_with("Failed to render template: "));
}

#[test]
fn test_nested_path_authorized() {
    let city_schema = obj(vec![(
        "user",
        obj(vec![("address", obj(vec![("city", Schema::Leaf)]))]),
    )]);
    let path = vec!["user".to_string(), "address".to_string(), "city".to_string()];
    assert!(is_authorized(&path, &vec![city_schema]));
}

#[test]
fn test_missing_intermediate_segment_rejected() {
    let city_schema = obj(vec![(
        "user",
        obj(vec![("address", obj(vec![("city", Schema::Leaf)]))]),
    )]);
    let path = vec!["user".to_string(), "phone".to_string()];
    assert!(!is_authorized(&path, &vec![city_schema]));
    let below_leaf = vec![
        "user".to_string(),
        "address".to_string(),
        "city".to_string(),
        "zip".to_string(),
    ];
    let city_schema2 = obj(vec![(
        "user",
        obj(vec![("address", obj(vec![("city", Schema::Leaf)]))]),
    )]);
    assert!(!is_authorized(&below_leaf, &vec![city_schema2]));
}

#[test]
fn test_authorization_is_or_across_components() {
    let path = vec!["beta".to_string()];
    let a_alone = vec![obj(vec![("alpha", Schema::Leaf)])];
    assert!(!is_authorized(&path, &a_alone));
    let a_then_b = vec![obj(vec![("alpha", Schema::Leaf)]), obj(vec![("beta", Schema::Leaf)])];
    assert!(is_authorized(&path, &a_then_b));
}

#[test]
fn test_unknown_component_names_are_skipped() {
    let mut registry = Registry::new();
    register_component(
        &mut registry,
        "name_component".to_string(),
        obj(vec![("name", Schema::Leaf)]),
    )
    .unwrap();
    let mut engine = Engine::new();
    let templates = vec![TemplateSource {
        name: "greet".to_string(),
        source: "Hello {{ name }}!".to_string(),
        components: vec!["no_such_component".to_string(), "name_component".to_string()],
    }];
    assert!(compile_templates(&registry, &mut engine, &templates).is_ok());
}

#[test]
fn test_dotted_variable_compiles_against_nested_schema() {
    let mut registry = Registry::new();
    register_component(
        &mut registry,
        "user_component".to_string(),
        obj(vec![(
            "user",
            obj(vec![("address", obj(vec![("city", Schema::Leaf)]))]),
        )]),
    )
    .unwrap();
    let mut engine = Engine::new();
    let templates = vec![TemplateSource {
        name: "city".to_string(),
        source: "{{ user.address.city }}".to_string(),
        components: vec!["user_component".to_string()],
    }];
    compile_templates(&registry, &mut engine, &templates).unwrap();
    let context = json(r#"{"user":{"address":{"city":"Paris"}}}"#);
    let result = render_template(&engine, &"city".to_string(), &context);
    assert_eq!(result.unwrap(), "Paris");
}

#[test]
fn test_register_overwrites_previous_schema() {
    let mut registry = Registry::new();
    register_component(
        &mut registry,
        "c".to_string(),
        obj(vec![("first", Schema::Leaf)]),
    )
    .unwrap();
    register_component(
        &mut registry,
        "c".to_string(),
        obj(vec![("second", Schema::Leaf)]),
    )
    .unwrap();
    let vars = vec!["second".to_string()];
    let components = vec!["c".to_string()];
    assert_eq!(validate_template_variables(&registry, &components, &vars), Ok(()));
    let old_vars = vec!["first".to_string()];
    assert!(validate_template_variables(&registry, &components, &old_vars).is_err());
}
