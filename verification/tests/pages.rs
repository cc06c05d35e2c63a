use light::bookmarks_page::bookmarks_html;
use light::chrome::chrome_html;
use light::ipc::js_call;
use light::navbar::navbar_html;
use light::settings_page::settings_html;

#[test]
fn chrome_page_is_html_with_handler() {
    let html = chrome_html();
    assert!(html.starts_with("<!DOCTYPE html>"));
    assert!(html.ends_with("</html>"));
    assert!(html.contains("function handleMessage(msg)"));
    assert!(html.contains("onerror=\"this.className=\\'tab-favicon-placeholder\\'"));
}

#[test]
fn navbar_page_has_address_bar() {
    let html = navbar_html();
    assert!(html.starts_with("<!DOCTYPE html>"));
    assert!(html.contains("id=\"address-bar\""));
    assert!(html.ends_with("</html>"));
}

#[test]
fn navbar_page_has_buttons_and_menu() {
    let html = navbar_html();
    assert!(html.contains("send({type:'GoBack'})"));
    assert!(html.contains("send({type:'GoForward'})"));
    assert!(html.contains("send({type:'Reload'})"));
    assert!(html.contains("id=\"bookmark-btn\""));
    assert!(html.contains("id=\"menu-btn\" class=\"nav-btn\" onclick=\"send({type:'OpenSettings'})\""));
}

#[test]
fn settings_page_holds_escaped_url() {
    let html = settings_html("https://a.com/?q=\"x\"<b>");
    assert!(html.contains("value=\"https://a.com/?q=&quot;x&quot;&lt;b>\" spellcheck=\"false\""));
    assert!(html.contains("function save() {"));
    assert!(!html.contains("{{"));
}

#[test]
fn settings_page_with_plain_url() {
    let html = settings_html("https://start.duckduckgo.com");
    assert!(html.contains("id=\"default-url\" value=\"https://start.duckduckgo.com\""));
}

#[test]
fn bookmarks_page_embeds_json() {
    let html = bookmarks_html("[{\"name\":\"A\",\"url\":\"https://a.com\"}]");
    assert!(html.contains("let bookmarks = [{\"name\":\"A\",\"url\":\"https://a.com\"}];"));
    assert!(html.contains("${esc(bm.name)}"));
    assert!(html.ends_with("</html>"));
}

#[test]
fn js_call_wraps_json() {
    assert_eq!(js_call("{\"type\":\"TabClosed\",\"id\":3}"), "handleMessage({\"type\":\"TabClosed\",\"id\":3})");
}
