use service_lifecycle::config::ServerSettings;
use service_lifecycle::display::{PageResponse, SharedDisplayState};
use service_lifecycle::lifecycle::{Lifecycle, LifecycleAction, LifecycleEvent};
use service_lifecycle::server::BoundSocket;
use service_lifecycle::{
    default_handler, fallback_root, generate_default_html, generate_html, server_start,
};

fn published(host: &str, port: u16, secure: bool, path: &str) -> SharedDisplayState {
    let mut display = SharedDisplayState::new();
    let settings = ServerSettings::new(String::from(host), port, secure);
    let (lifecycle, _): (Lifecycle<()>, LifecycleAction<()>) =
        server_start(settings, String::from(path));
    let socket = BoundSocket { listener: (), local_port: port };
    let (_, action) = lifecycle.advance(&mut display, LifecycleEvent::BindReturned(Ok(socket)));
    assert_eq!(action, LifecycleAction::InstallHandlers);
    display
}

#[test]
fn display_state_starts_empty() {
    let display = SharedDisplayState::new();
    assert_eq!(display.current(), "");
}

#[test]
fn landing_page_of_an_empty_slot() {
    let display = SharedDisplayState::new();
    assert_eq!(
        generate_default_html(&display),
        "<!DOCTYPE html><html><head><title>BachueTech</title></head><body><h1>Bachuetech AI</h1><br/><h2>Open <a href=\"\"></a></h2></body></html>"
    );
}

#[test]
fn landing_page_holds_the_composed_address() {
    let display = published("0.0.0.0", 3002, false, "/app");
    assert_eq!(display.current(), "http://localhost:3002/app");
    let page = generate_default_html(&display);
    assert!(page.contains("http://localhost:3002/app"));
    assert_eq!(
        page,
        "<!DOCTYPE html><html><head><title>BachueTech</title></head><body><h1>Bachuetech AI</h1><br/><h2>Open <a href=\"http://localhost:3002/app\">http://localhost:3002/app</a></h2></body></html>"
    );
}

#[test]
fn landing_page_links_and_labels_with_the_address() {
    let display = published("10.0.0.7", 8443, true, "/portal");
    let page = generate_default_html(&display);
    assert_eq!(page.matches("https://10.0.0.7:8443/portal").count(), 2);
    assert!(page
        .contains("<a href=\"https://10.0.0.7:8443/portal\">https://10.0.0.7:8443/portal</a>"));
    assert!(page.starts_with("<!DOCTYPE html>"));
    assert!(page.ends_with("</html>"));
}

#[test]
fn both_page_generators_agree() {
    let display = published("0.0.0.0", 3001, true, "/app");
    assert_eq!(generate_html(&display), generate_default_html(&display));
    let empty = SharedDisplayState::new();
    assert_eq!(generate_html(&empty), generate_default_html(&empty));
}

#[test]
fn default_handler_answers_with_the_landing_page() {
    let display = published("0.0.0.0", 3002, false, "/app");
    let response = default_handler(&display);
    assert_eq!(response, PageResponse::Html(generate_default_html(&display)));
    match response {
        PageResponse::Html(markup) => assert!(markup.contains("http://localhost:3002/app")),
        PageResponse::TemporaryRedirect(_) => panic!("the landing handler does not redirect"),
    }
}

#[test]
fn reading_the_page_leaves_the_slot_alone() {
    let display = published("0.0.0.0", 3002, false, "/app");
    let first = generate_default_html(&display);
    let _ = default_handler(&display);
    let second = generate_html(&display);
    assert_eq!(first, second);
    assert_eq!(display.current(), "http://localhost:3002/app");
}

#[test]
fn fallback_redirects_every_path_to_the_root() {
    for path in ["/missing", "/a/b/c?x=1", "", "/", "/app"] {
        assert_eq!(fallback_root(path), PageResponse::TemporaryRedirect(String::from("/")));
    }
}
