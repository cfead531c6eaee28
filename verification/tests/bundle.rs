use rekcod::application::ApplicationTmpl;
use rekcod::bundle::{
    template_names, AppTmplManager, BundleScan, InitError, Manifest, TemplateEntry,
};

fn entry(name: &str, is_file: bool) -> TemplateEntry {
    TemplateEntry { file_name: name.to_string(), is_file }
}

fn manifest(name: &str) -> ApplicationTmpl {
    ApplicationTmpl {
        name: name.to_string(),
        description: "d".to_string(),
        version: Some("1".to_string()),
        qa: None,
    }
}

fn scan(id: &str, files: Vec<TemplateEntry>, m: Manifest) -> BundleScan {
    BundleScan {
        path: format!("/data/app/{}", id),
        id: Some(id.to_string()),
        template: Some(files),
        manifest: m,
        watched: true,
    }
}

#[test]
fn templates_are_the_regular_files() {
    let entries = vec![
        entry("docker-compose.yaml", true),
        entry("conf.d", false),
        entry("values.yaml", true),
    ];
    assert_eq!(template_names(&entries), vec!["docker-compose.yaml", "values.yaml"]);
    assert_eq!(template_names(&vec![]), Vec::<String>::new());
}

#[test]
fn init_takes_bundles_in() {
    let mut m = AppTmplManager::new();
    let scans = vec![
        scan("web", vec![entry("docker-compose.yaml", true), entry("sub", false)], Manifest::Parsed(manifest("web"))),
        scan("db", vec![], Manifest::Invalid),
    ];
    assert!(m.init(&scans).is_ok());
    assert_eq!(m.get_app_tmpl_list().len(), 2);
    let web = m.get_app_tmpl("web").unwrap();
    assert_eq!(web.id, "web");
    assert_eq!(web.tmpls, vec!["docker-compose.yaml"]);
    assert_eq!(web.info.as_ref().unwrap().name, "web");
    assert_eq!(web.get_app_root_path(), "/data/app/web");
    assert_eq!(web.get_default_project_path(), "/data/app/web/project");
    assert!(web.has_tmpl("docker-compose.yaml"));
    assert!(!web.has_tmpl("sub"));
    let db = m.get_app_tmpl("db").unwrap();
    assert!(db.info.is_none());
    assert!(m.get_app_tmpl("other").is_none());
}

#[test]
fn init_passes_over_what_is_no_bundle() {
    let mut m = AppTmplManager::new();
    let mut nameless = scan("x", vec![], Manifest::Parsed(manifest("x")));
    nameless.id = None;
    let mut unwatched = scan("y", vec![], Manifest::Parsed(manifest("y")));
    unwatched.watched = false;
    let scans = vec![
        nameless,
        scan("z", vec![], Manifest::Unreadable),
        unwatched,
        scan("ok", vec![], Manifest::Parsed(manifest("ok"))),
    ];
    assert!(m.init(&scans).is_ok());
    assert_eq!(m.get_app_tmpl_list().len(), 1);
    assert!(m.get_app_tmpl("ok").is_some());
}

#[test]
fn init_stops_at_unlistable_templates() {
    let mut m = AppTmplManager::new();
    let mut broken = scan("broken", vec![], Manifest::Parsed(manifest("b")));
    broken.template = None;
    let scans = vec![
        scan("a", vec![], Manifest::Parsed(manifest("a"))),
        broken,
        scan("c", vec![], Manifest::Parsed(manifest("c"))),
    ];
    match m.init(&scans) {
        Err(InitError::TemplateDir(path)) => assert_eq!(path, "/data/app/broken"),
        Ok(()) => panic!("the scan should have stopped"),
    }
    assert!(m.get_app_tmpl("a").is_some());
    assert!(m.get_app_tmpl("c").is_none());
}

#[test]
fn changed_manifest_replaces_info_and_bad_one_keeps_it() {
    let mut m = AppTmplManager::new();
    m.init(&vec![scan("web", vec![entry("t", true)], Manifest::Parsed(manifest("web")))])
        .unwrap();
    m.reload_info("web", Some(manifest("web2")));
    assert_eq!(m.get_app_tmpl("web").unwrap().info.as_ref().unwrap().name, "web2");
    m.reload_info("web", None);
    assert_eq!(m.get_app_tmpl("web").unwrap().info.as_ref().unwrap().name, "web2");
    assert_eq!(m.get_app_tmpl("web").unwrap().tmpls, vec!["t"]);
    m.reload_info("unknown", Some(manifest("x")));
    assert_eq!(m.get_app_tmpl_list().len(), 1);
}

#[test]
fn bundle_of_same_id_is_replaced() {
    let mut m = AppTmplManager::new();
    assert!(m.add_bundle(&scan("web", vec![entry("a", true)], Manifest::Invalid)));
    assert!(m.add_bundle(&scan("web", vec![entry("b", true)], Manifest::Invalid)));
    assert_eq!(m.get_app_tmpl_list().len(), 1);
    assert_eq!(m.get_app_tmpl("web").unwrap().tmpls, vec!["b"]);
}
