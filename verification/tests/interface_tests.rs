use anki::ankiweb::service_url;
use anki::interface::{
    format_code, generate_rust_interface, render_rust_interface, rust_type, CollectionService,
    Method,
};
use anki::error::AnkiError;

#[test]
fn service_url_prefixes_the_service() {
    assert_eq!(service_url("desktop/addon-info"), "https://ankiweb.net/svc/desktop/addon-info");
    assert_eq!(service_url(""), "https://ankiweb.net/svc/");
}

#[test]
fn rust_type_maps_packages_to_modules() {
    assert_eq!(rust_type("anki.sync.SyncAuth"), "anki_proto::sync::SyncAuth");
    assert_eq!(
        rust_type("anki.import_export.ImportCsvRequest"),
        "anki_proto::import_export::ImportCsvRequest"
    );
    assert_eq!(
        rust_type("anki.sync.SyncStatusResponse.Required"),
        "anki_proto::sync::sync_status_response::Required"
    );
    assert_eq!(rust_type("other.Thing"), "other::Thing");
}

#[test]
fn rust_type_result_has_no_dots() {
    for name in ["anki.a.b.C", "x.y.Z", "anki.ankiweb.GetAddonInfoRequest"] {
        let t = rust_type(name);
        assert!(!t.contains('.'), "{t}");
        assert!(t.ends_with(&format!("::{}", name.rsplit_once('.').unwrap().1)));
    }
}

fn method(name: &str, input: Option<&str>, output: Option<&str>) -> Method {
    Method {
        name: name.to_string(),
        input: input.map(|s| s.to_string()),
        output: output.map(|s| s.to_string()),
    }
}

#[test]
fn method_labels() {
    let m = method("sync_login", Some("anki.sync.SyncLoginRequest"), None);
    assert_eq!(m.get_input_arg_with_label(), "input: anki_proto::sync::SyncLoginRequest");
    assert_eq!(m.get_output_type(), "()");
    let e = method("empty", None, Some("anki.generic.String"));
    assert_eq!(e.get_input_arg_with_label(), "");
    assert_eq!(e.get_output_type(), "anki_proto::generic::String");
}

#[test]
fn interface_skips_frontend_service() {
    let services = vec![
        CollectionService {
            name: "SyncService".to_string(),
            trait_methods: vec![
                method("sync_status", Some("anki.sync.SyncAuth"), Some("anki.sync.SyncStatusResponse")),
                method("abort_sync", None, None),
            ],
        },
        CollectionService {
            name: "FrontendService".to_string(),
            trait_methods: vec![method("x", None, None)],
        },
        CollectionService { name: "EmptyService".to_string(), trait_methods: vec![] },
    ];
    let text = render_rust_interface(&services);
    assert_eq!(
        text,
        "use crate::error::Result;pub trait SyncService {\n\
         fn sync_status(&mut self, input: anki_proto::sync::SyncAuth) -> Result<anki_proto::sync::SyncStatusResponse>;\n\
         fn abort_sync(&mut self, ) -> Result<()>;\n\
         }pub trait EmptyService {\n}"
    );
    let formatted = generate_rust_interface(&services).ok().unwrap();
    assert!(formatted.contains("pub trait SyncService {"));
    assert!(!formatted.contains("FrontendService"));
}

#[test]
fn format_code_rejects_non_rust() {
    match format_code("fn (".to_string()) {
        Err(AnkiError::InvalidInput { .. }) => {}
        _ => panic!("expected an error"),
    }
    assert_eq!(format_code("fn  main( ) { }".to_string()).ok().unwrap(), "fn main() {}\n");
}

#[test]
fn backend_services_are_split_off() {
    let named = |n: &str| CollectionService { name: n.to_string(), trait_methods: vec![] };
    let (col, backend) = anki::interface::split_services(vec![
        named("SyncService"),
        named("BackendSyncService"),
        named("CardsService"),
        named("Backend"),
        named("BackendCardsService"),
    ]);
    let col: Vec<String> = col.into_iter().map(|s| s.name).collect();
    let backend: Vec<String> = backend.into_iter().map(|s| s.name).collect();
    assert_eq!(col, vec!["SyncService", "CardsService"]);
    assert_eq!(backend, vec!["BackendSyncService", "Backend", "BackendCardsService"]);
}
