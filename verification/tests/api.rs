use rekcod::api::application::{
    get_app_template_by_name, get_app_tmpl_by_id, get_app_tmpl_list, list_deploy_app, TmplError,
};
use rekcod::api::env::{get_global_env, set_global_env};
use rekcod::api::node::{info_node, list_node};
use rekcod::api::req::EnvRequest;
use rekcod::application::{ApplicationTmpl, ApplicationTmplQaItem};
use rekcod::bundle::{AppTmplManager, BundleScan, Manifest, TemplateEntry};
use rekcod::deploy::AppDeployInfo;
use rekcod::env::EnvManager;
use rekcod::kvs::KvsForDb;
use rekcod::node::{Node, NodeState};

fn state(name: &str, sub_key: &str, token: &str) -> NodeState {
    let row = KvsForDb::new("node", name, sub_key, "");
    let mut decoded = Node::default();
    decoded.ip = "10.0.0.1".to_string();
    decoded.token = token.to_string();
    NodeState::create(&row, decoded, 0, 0)
}

#[test]
fn node_answers() {
    let nodes = vec![state("n1", "online", "s1"), state("n2", "offline", "s2")];
    let answer = list_node(&nodes);
    assert_eq!(answer.code(), 0);
    let items = answer.into_data().unwrap();
    assert_eq!(items.len(), 2);
    assert_eq!(items[0].name, "n1");
    assert!(items[0].status);
    assert_eq!(items[1].name, "n2");
    assert!(!items[1].status);
    let one = info_node(Some(&nodes[1]));
    assert_eq!(one.data().unwrap().name, "n2");
    let none = info_node(None);
    assert_eq!(none.code(), 0);
    assert!(none.data().is_none());
    assert_eq!(list_node(&vec![]).into_data().unwrap().len(), 0);
}

fn manager() -> AppTmplManager {
    let mut m = AppTmplManager::new();
    let scans = vec![
        BundleScan {
            path: "/data/app/web".to_string(),
            id: Some("web".to_string()),
            template: Some(vec![TemplateEntry { file_name: "docker-compose.yaml".to_string(), is_file: true }]),
            manifest: Manifest::Parsed(ApplicationTmpl {
                name: "Web".to_string(),
                description: "a web server".to_string(),
                version: None,
                qa: Some(vec![ApplicationTmplQaItem {
                    id: "tag".to_string(),
                    name: "tag".to_string(),
                    label: "Tag".to_string(),
                    typ: "string".to_string(),
                    default_value: Some("latest".to_string()),
                }]),
            }),
            watched: true,
        },
        BundleScan {
            path: "/data/app/raw".to_string(),
            id: Some("raw".to_string()),
            template: Some(vec![]),
            manifest: Manifest::Invalid,
            watched: true,
        },
    ];
    m.init(&scans).unwrap();
    m
}

#[test]
fn bundle_answers_leave_out_bundles_without_manifest() {
    let m = manager();
    let list = get_app_tmpl_list(&m);
    assert_eq!(list.len(), 1);
    assert_eq!(list[0].id, "web");
    assert_eq!(list[0].name, "Web");
    assert_eq!(list[0].tmpls, vec!["docker-compose.yaml"]);
    assert_eq!(list[0].qa.as_ref().unwrap()[0].default_value.as_deref(), Some("latest"));
    assert!(list[0].values.is_none());
    assert!(get_app_tmpl_by_id(m.get_app_tmpl("raw").unwrap()).is_none());
    assert_eq!(get_app_tmpl_by_id(m.get_app_tmpl("web").unwrap()).unwrap().description, "a web server");
}

#[test]
fn template_content_needs_known_bundle_and_template() {
    let m = manager();
    assert_eq!(
        get_app_template_by_name(&m, "web", "docker-compose.yaml"),
        Ok("/docker-compose.yaml".to_string())
    );
    assert_eq!(get_app_template_by_name(&m, "web", "other"), Err(TmplError::TmplNotFound));
    assert_eq!(get_app_template_by_name(&m, "nope", "x"), Err(TmplError::AppNotFound));
    assert_eq!(TmplError::AppNotFound.message(), "App not found");
    assert_eq!(TmplError::TmplNotFound.message(), "Tmpl not found");
}

#[test]
fn deployments_that_do_not_decode_are_left_out() {
    let info = |name: &str| AppDeployInfo {
        name: name.to_string(),
        node_name: "n1".to_string(),
        values: None,
        project: None,
        build: None,
    };
    let list = list_deploy_app(vec![Some(info("a")), None, Some(info("b"))]);
    let names: Vec<String> = list.into_iter().map(|i| i.name).collect();
    assert_eq!(names, vec!["a", "b"]);
}

#[test]
fn environment_answers() {
    assert_eq!(get_global_env(None).values, "");
    let row = KvsForDb::new("env", "global", "", "A=1");
    assert_eq!(get_global_env(Some(&row)).values, "A=1");
    let mut cache = EnvManager::new();
    cache.set("A=0");
    let row = set_global_env(&mut cache, EnvRequest { values: "A=2".to_string() });
    assert!(!cache.is_loaded());
    assert_eq!(
        (row.module.as_str(), row.key.as_str(), row.sub_key.as_str(), row.value.as_str()),
        ("env", "global", "", "A=2")
    );
}
