use yadex::{build_index, RawEntry, Template, TemplateLoadError};

fn entries() -> Vec<Option<RawEntry>> {
    vec![
        Some(RawEntry { name: "<b>".to_owned(), is_dir: false, size: 3, mtime: 0 }),
        Some(RawEntry { name: "sub".to_owned(), is_dir: true, size: 0, mtime: 0 }),
    ]
}

#[test]
fn from_sources_compiles_both_templates() {
    let t = Template::from_sources("index: {{maybe_truncated}}", "error page");
    assert!(t.is_ok());
}

#[test]
fn bad_index_template_fails_naming_index() {
    let t = Template::from_sources("{{#each entry}}", "fine");
    match t {
        Err(TemplateLoadError::Register { component, message }) => {
            assert_eq!(component, "index");
            assert!(!message.is_empty());
        }
        _ => panic!("a broken index template must fail registration"),
    }
}

#[test]
fn bad_error_template_fails_naming_error() {
    let t = Template::from_sources("fine", "{{#if x}}");
    match t {
        Err(TemplateLoadError::Register { component, .. }) => {
            assert_eq!(component, "error");
        }
        _ => panic!("a broken error template must fail registration"),
    }
}

#[test]
fn render_failure_names_the_index_template() {
    let t = Template::from_sources("{{bogus_helper entry}}", "e").unwrap();
    let data = build_index("/", &entries(), 10);
    match t.render_index(&data) {
        Err(yadex::YadexError::Render { template, message }) => {
            assert_eq!(template, "index");
            assert!(!message.is_empty());
        }
        Err(_) => panic!("a render failure must carry the Render kind"),
        Ok(_) => panic!("an unknown helper must fail the render"),
    }
}

#[test]
fn io_load_failure_carries_component_and_path() {
    let e = TemplateLoadError::Io {
        component: "index".to_owned(),
        path: "/etc/yadex/index.hbs".to_owned(),
        message: "permission denied".to_owned(),
    };
    match e {
        TemplateLoadError::Io { component, path, .. } => {
            assert_eq!(component, "index");
            assert!(path.ends_with("index.hbs"));
        }
        TemplateLoadError::Register { .. } => panic!("an unread file is an I/O failure"),
    }
}

#[test]
fn render_index_feeds_the_model_to_the_template() {
    let t = Template::from_sources(
        "{{#each entry}}{{name}}|{{href}}|{{size}}|{{is_dir}};{{/each}}{{maybe_truncated}}",
        "error page",
    )
    .unwrap();
    let data = build_index("/", &entries(), 10);
    let html = t.render_index(&data).unwrap();
    assert_eq!(
        html,
        "&lt;b&gt;|/%3Cb%3E|3|false;sub/|/sub/|0|true;false"
    );
}

#[test]
fn display_name_is_escaped_by_the_engine_not_left_raw() {
    let t = Template::from_sources("{{#each entry}}{{name}}{{/each}}", "e").unwrap();
    let data = build_index("/", &entries(), 10);
    let html = t.render_index(&data).unwrap();
    assert!(html.contains("&lt;b&gt;"));
    assert!(!html.contains("<b>"));
}

#[test]
fn truncation_flag_reaches_the_template() {
    let t = Template::from_sources("{{maybe_truncated}}", "e").unwrap();
    let data = build_index("/", &entries(), 2);
    assert_eq!(t.render_index(&data).unwrap(), "true");
    let data = build_index("/", &entries(), 5);
    assert_eq!(t.render_index(&data).unwrap(), "false");
}

#[test]
fn absent_datetime_renders_as_nothing() {
    let raw = vec![Some(RawEntry {
        name: "a".to_owned(),
        is_dir: false,
        size: 0,
        mtime: i64::MAX,
    })];
    let t = Template::from_sources("{{#each entry}}[{{datetime}}]{{/each}}", "e").unwrap();
    let data = build_index("/", &raw, 10);
    assert_eq!(t.render_index(&data).unwrap(), "[]");
}

#[test]
fn present_datetime_renders_the_rfc3339_text() {
    let raw = vec![Some(RawEntry { name: "a".to_owned(), is_dir: false, size: 0, mtime: 0 })];
    let t = Template::from_sources("{{#each entry}}{{datetime}}{{/each}}", "e").unwrap();
    let data = build_index("/", &raw, 10);
    assert_eq!(t.render_index(&data).unwrap(), "1970-01-01T00:00:00+00:00");
}
