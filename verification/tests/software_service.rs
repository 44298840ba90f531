use agama_core::events::{Event, ServiceStatus};
use agama_core::products::{ProductSpec, ProductsRegistry, RepositorySpec, SoftwareSpec};
use agama_core::service_status::ServiceStatusManager;
use agama_core::software::{
    repository_alias, repository_plan, Product, SoftwareAction, SoftwareServiceError,
    SoftwareServiceServer,
};

fn repo(url: &str, archs: &[&str]) -> RepositorySpec {
    RepositorySpec {
        url: url.to_string(),
        archs: archs.iter().map(|a| a.to_string()).collect(),
    }
}

fn product_with_repos(id: &str, repos: Vec<RepositorySpec>) -> ProductSpec {
    ProductSpec {
        id: id.to_string(),
        name: format!("{} name", id),
        description: format!("{} description", id),
        icon: "default.svg".to_string(),
        software: SoftwareSpec {
            installation_repositories: repos,
            mandatory_patterns: vec!["enhanced_base".to_string()],
            optional_patterns: None,
            mandatory_packages: vec!["NetworkManager".to_string()],
            optional_packages: None,
            base_product: id.to_string(),
        },
    }
}

fn server() -> SoftwareServiceServer {
    let registry = ProductsRegistry::new(vec![
        product_with_repos(
            "tumbleweed",
            vec![
                repo("https://example.com/repo0", &["x86_64", "aarch64"]),
                repo("https://example.com/repo1", &["s390x"]),
                repo("https://example.com/repo2", &["x86_64"]),
            ],
        ),
        product_with_repos("leap", vec![repo("https://example.com/leap", &["x86_64"])]),
    ]);
    SoftwareServiceServer::new(registry, "x86_64".to_string())
}

fn tracker() -> ServiceStatusManager {
    ServiceStatusManager::new("software".to_string())
}

#[test]
fn alias_is_agama_dash_index() {
    assert_eq!(repository_alias(0), "agama-0");
    assert_eq!(repository_alias(7), "agama-7");
    assert_eq!(repository_alias(10), "agama-10");
    assert_eq!(repository_alias(105), "agama-105");
    assert_eq!(repository_alias(98761), "agama-98761");
}

#[test]
fn plan_keeps_matching_repositories_in_order() {
    let product = product_with_repos(
        "tumbleweed",
        vec![
            repo("https://example.com/repo0", &["x86_64", "aarch64"]),
            repo("https://example.com/repo1", &["s390x"]),
            repo("https://example.com/repo2", &["x86_64"]),
        ],
    );
    let plan = repository_plan(&product.software, &"x86_64".to_string());
    assert_eq!(
        plan,
        vec![
            ("agama-0".to_string(), "https://example.com/repo0".to_string()),
            ("agama-2".to_string(), "https://example.com/repo2".to_string()),
        ]
    );
    let none = repository_plan(&product.software, &"riscv64".to_string());
    assert!(none.is_empty());
}

#[test]
fn select_product_validates_the_identifier() {
    let mut s = server();
    s.select_product("leap".to_string()).unwrap();
    assert_eq!(s.selected_product, Some("leap".to_string()));
    let err = s.select_product("missing".to_string()).unwrap_err();
    assert_eq!(err, SoftwareServiceError::UnknownProduct("missing".to_string()));
    // the failed call left the selection untouched
    assert_eq!(s.selected_product, Some("leap".to_string()));
}

#[test]
fn probe_without_selection_fails_and_stays_idle() {
    let s = server();
    let mut t = tracker();
    let err = s.probe(&mut t).unwrap_err();
    assert_eq!(err, SoftwareServiceError::NoSelectedProduct);
    assert!(!t.is_busy());
}

#[test]
fn probe_while_busy_is_rejected() {
    let mut s = server();
    s.select_product("tumbleweed".to_string()).unwrap();
    let mut t = tracker();
    s.probe(&mut t).unwrap();
    let err = s.probe(&mut t).unwrap_err();
    assert_eq!(err, SoftwareServiceError::AlreadyBusy);
}

#[test]
fn probe_returns_events_and_the_plan() {
    let mut s = server();
    s.select_product("tumbleweed".to_string()).unwrap();
    let mut t = tracker();
    let (events, plan) = s.probe(&mut t).unwrap();
    assert_eq!(events.len(), 2);
    match &events[0] {
        Event::Progress { service, progress } => {
            assert_eq!(service, "software");
            assert_eq!(progress.current_step, 0);
            assert_eq!(progress.max_steps, 2);
            assert_eq!(progress.current_title, "Add base repositories");
        }
        other => panic!("expected a progress event, got {:?}", other),
    }
    match &events[1] {
        Event::ServiceStatusChanged { status, .. } => assert_eq!(*status, ServiceStatus::Busy),
        other => panic!("expected a status event, got {:?}", other),
    }
    assert_eq!(
        plan,
        vec![
            ("agama-0".to_string(), "https://example.com/repo0".to_string()),
            ("agama-2".to_string(), "https://example.com/repo2".to_string()),
        ]
    );
    let summary = t.get_progress().unwrap();
    assert_eq!(
        summary.steps,
        vec![
            "Add base repositories".to_string(),
            "Refreshing repositories metadata".to_string(),
        ]
    );
}

#[test]
fn dispatch_get_products_lists_the_registry() {
    let mut s = server();
    let mut t = tracker();
    let eff = s.dispatch(SoftwareAction::GetProducts, &mut t).unwrap();
    let products = eff.products_reply.unwrap();
    assert_eq!(
        products,
        vec![
            Product {
                id: "tumbleweed".to_string(),
                name: "tumbleweed name".to_string(),
                description: "tumbleweed description".to_string(),
                icon: "default.svg".to_string(),
            },
            Product {
                id: "leap".to_string(),
                name: "leap name".to_string(),
                description: "leap description".to_string(),
                icon: "default.svg".to_string(),
            },
        ]
    );
    assert!(eff.events.is_empty());
    assert!(eff.probe_plan.is_none());
}

#[test]
fn dispatch_probe_drives_the_tracker_to_completion() {
    let mut s = server();
    let mut t = tracker();
    s.dispatch(SoftwareAction::SelectProduct("leap".to_string()), &mut t)
        .unwrap();
    let eff = s.dispatch(SoftwareAction::Probe, &mut t).unwrap();
    let plan = eff.probe_plan.unwrap();
    assert_eq!(
        plan,
        vec![("agama-0".to_string(), "https://example.com/leap".to_string())]
    );
    assert!(t.is_busy());
    // repositories added, then metadata refreshed
    let (_, over) = t.complete_step(true);
    assert!(!over);
    let (_, over) = t.complete_step(true);
    assert!(over);
    assert!(!t.is_busy());
}

#[test]
fn dispatch_select_product_unknown_is_an_error() {
    let mut s = server();
    let mut t = tracker();
    let err = s
        .dispatch(SoftwareAction::SelectProduct("missing".to_string()), &mut t)
        .unwrap_err();
    assert_eq!(err, SoftwareServiceError::UnknownProduct("missing".to_string()));
    assert_eq!(s.selected_product, None);
}

#[test]
fn software_error_messages_name_the_cause() {
    let err = SoftwareServiceError::UnknownProduct("missing".to_string());
    assert_eq!(err.message(), "unknown product: missing");
    assert_eq!(
        SoftwareServiceError::NoSelectedProduct.message(),
        "no product is selected"
    );
}
