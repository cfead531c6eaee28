use rekcod::engine::{
    create_context, get_env_value, get_syntax, none_default, read_values, render_dynamic_tmpl,
    DefaultChoice, RenderError, ValueKind,
};

fn no_env() -> Vec<(String, String)> {
    Vec::new()
}

#[test]
fn default_filter_fills_in_missing_value() {
    let out = render_dynamic_tmpl("{{ Value.x | default(\"d\") }}", "{}", &no_env(), None).unwrap();
    assert_eq!(out, "d");
}

#[test]
fn default_filter_keeps_given_value() {
    let out = render_dynamic_tmpl("{{ Value.x | default(\"d\") }}", "{x: \"y\"}", &no_env(), None).unwrap();
    assert_eq!(out, "y");
}

#[test]
fn compose_template_renders_with_values() {
    let tmpl = "image: nginx:{{ Value.tag | default(\"latest\") }}";
    assert_eq!(
        render_dynamic_tmpl(tmpl, "tag: 1.27", &no_env(), None).unwrap(),
        "image: nginx:1.27"
    );
    assert_eq!(render_dynamic_tmpl(tmpl, "", &no_env(), None).unwrap(), "image: nginx:latest");
}

#[test]
fn env_is_seen_by_templates() {
    let env = vec![("REGISTRY".to_string(), "r.example".to_string())];
    assert_eq!(
        render_dynamic_tmpl("{{ Env.REGISTRY }}/{{ Env.MISSING }}", "{}", &env, None).unwrap(),
        "r.example/"
    );
}

#[test]
fn render_is_not_the_identity() {
    let out = render_dynamic_tmpl("a{{ 1 + 2 }}b", "{}", &no_env(), None).unwrap();
    assert_eq!(out, "a3b");
}

#[test]
fn bad_values_and_bad_templates_are_told_apart() {
    match render_dynamic_tmpl("x", "a: [", &no_env(), None) {
        Err(RenderError::Values(m)) => assert!(!m.is_empty()),
        _ => panic!("the values should have been refused"),
    }
    match render_dynamic_tmpl("{{ x", "{}", &no_env(), None) {
        Err(e) => {
            assert!(matches!(e, RenderError::Template(_)));
            assert!(!e.message().is_empty());
        }
        Ok(_) => panic!("the template should have been refused"),
    }
}

#[test]
fn line_comment_by_file_name() {
    assert_eq!(get_syntax("docker-compose.yaml"), Some("#"));
    assert_eq!(get_syntax("docker-compose.yml"), Some("#"));
    assert_eq!(get_syntax("values.yaml.j2"), Some("#"));
    assert_eq!(get_syntax("values.yml.jinja"), Some("#"));
    assert_eq!(get_syntax("config.json"), Some("//"));
    assert_eq!(get_syntax("config.json.j2"), Some("//"));
    assert_eq!(get_syntax("readme.txt"), None);
    assert_eq!(get_syntax("yaml"), None);
    assert_eq!(get_syntax(".j2"), None);
    assert_eq!(get_syntax(""), None);
}

#[test]
fn default_filter_choice() {
    assert_eq!(none_default(ValueKind::Defined, true), DefaultChoice::Input);
    assert_eq!(none_default(ValueKind::Defined, false), DefaultChoice::Input);
    assert_eq!(none_default(ValueKind::Undefined, true), DefaultChoice::Fallback);
    assert_eq!(none_default(ValueKind::Nothing, true), DefaultChoice::Fallback);
    assert_eq!(none_default(ValueKind::Undefined, false), DefaultChoice::Empty);
    assert_eq!(none_default(ValueKind::Nothing, false), DefaultChoice::Empty);
}

#[test]
fn env_key_that_is_not_set_is_the_empty_text() {
    let env = vec![
        ("A".to_string(), "1".to_string()),
        ("A".to_string(), "2".to_string()),
    ];
    assert_eq!(get_env_value(&env, "A"), "2");
    assert_eq!(get_env_value(&env, "B"), "");
    assert_eq!(
        render_dynamic_tmpl("{{ Env.A }}|{{ Env.B | default(\"x\") }}|", "{}", &env, None).unwrap(),
        "2||"
    );
}

#[test]
fn template_sees_value_and_env() {
    let doc = read_values("a: 1").unwrap();
    let names: Vec<String> = create_context(&doc, &no_env(), None)
        .into_iter()
        .map(|e| e.0)
        .collect();
    assert_eq!(names, vec!["Value", "Env"]);
    assert_eq!(
        render_dynamic_tmpl(
            "{% if Docker is defined %}d{% endif %}{% if Value is defined %}v{% endif %}{% if Env is defined %}e{% endif %}",
            "{}",
            &no_env(),
            None
        )
        .unwrap(),
        "ve"
    );
    assert!(matches!(read_values("a: ["), Err(RenderError::Values(_))));
}
