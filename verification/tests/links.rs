use dsh_desktop::links::{link_action, LinkAction};
use dsh_desktop::web_url::WebUrl;

#[test]
fn keeps_web_app_origin_in_the_shell() {
    let app_url = WebUrl::parse("http://127.0.0.1:3080/chat").expect("app URL");
    for url in [
        "http://127.0.0.1:3080/chat/deep-think",
        "http://127.0.0.1:3080/api/models?detail=1",
    ] {
        let url = WebUrl::parse(url).expect("internal URL");
        assert_eq!(link_action(&url, Some(&app_url)), LinkAction::KeepInWebview);
    }
}

#[test]
fn opens_web_and_app_links_with_the_system_default_handler() {
    let app_url = WebUrl::parse("http://127.0.0.1:3080").expect("app URL");
    for url in [
        "https://example.com/article",
        "http://127.0.0.1:3081/other-service",
        "mailto:user@example.com",
        "tel:+1234567890",
    ] {
        let url = WebUrl::parse(url).expect("external URL");
        assert_eq!(
            link_action(&url, Some(&app_url)),
            LinkAction::OpenExternally
        );
    }
}

#[test]
fn blocks_unsupported_link_schemes() {
    let app_url = WebUrl::parse("http://127.0.0.1:3080").expect("app URL");
    for url in ["file:///etc/passwd", "data:text/plain,hello"] {
        let url = WebUrl::parse(url).expect("unsupported URL");
        assert_eq!(link_action(&url, Some(&app_url)), LinkAction::Block);
    }
}

#[test]
fn without_an_app_url_nothing_is_kept() {
    let url = WebUrl::parse("http://127.0.0.1:3080/chat").expect("url");
    assert_eq!(link_action(&url, None), LinkAction::OpenExternally);
    let file = WebUrl::parse("file:///tmp/x").expect("url");
    assert_eq!(link_action(&file, None), LinkAction::Block);
}

#[test]
fn opaque_origins_are_never_kept() {
    let file = WebUrl::parse("file:///tmp/x").expect("url");
    assert_eq!(link_action(&file, Some(&file)), LinkAction::Block);
    let mail = WebUrl::parse("mailto:user@example.com").expect("url");
    assert_eq!(link_action(&mail, Some(&mail)), LinkAction::OpenExternally);
}

#[test]
fn default_port_belongs_to_the_same_origin() {
    let app_url = WebUrl::parse("http://localhost/").expect("app URL");
    let url = WebUrl::parse("http://localhost:80/chat").expect("url");
    assert_eq!(link_action(&url, Some(&app_url)), LinkAction::KeepInWebview);
    let other_scheme = WebUrl::parse("https://localhost/chat").expect("url");
    assert_eq!(
        link_action(&other_scheme, Some(&app_url)),
        LinkAction::OpenExternally
    );
}
