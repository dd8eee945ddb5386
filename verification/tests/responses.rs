use cockpit_web_console::response::{
    decimal_chars, invoke_status, method_not_allowed_response, preflight_response, response_head,
    route_request, Route,
};

#[test]
fn decimal_notation() {
    assert_eq!(decimal_chars(0).into_iter().collect::<String>(), "0");
    assert_eq!(decimal_chars(7).into_iter().collect::<String>(), "7");
    assert_eq!(decimal_chars(18081).into_iter().collect::<String>(), "18081");
    assert_eq!(decimal_chars(1000).into_iter().collect::<String>(), "1000");
}

#[test]
fn response_head_is_framed_exactly() {
    let h = response_head(200, "OK", "text/html; charset=utf-8", 1234, Some(18082));
    assert_eq!(
        h,
        "HTTP/1.1 200 OK\r\ncontent-type: text/html; charset=utf-8\r\ncontent-length: 1234\r\ncache-control: no-store\r\nx-content-type-options: nosniff\r\naccess-control-allow-origin: http://127.0.0.1:18082\r\naccess-control-allow-methods: GET,POST,OPTIONS\r\naccess-control-allow-headers: content-type\r\nconnection: close\r\n\r\n"
    );
}

#[test]
fn response_head_announces_default_port_without_one() {
    let h = response_head(204, "No Content", "text/plain; charset=utf-8", 0, None);
    assert!(h.starts_with("HTTP/1.1 204 No Content\r\n"));
    assert!(h.contains("content-length: 0\r\n"));
    assert!(h.contains("access-control-allow-origin: http://127.0.0.1:18081\r\n"));
}

#[test]
fn routing() {
    assert!(matches!(route_request("OPTIONS", "/anything"), Route::Preflight));
    assert!(matches!(route_request("POST", "/__cockpit_web__/invoke"), Route::Invoke));
    assert!(matches!(route_request("GET", "/__cockpit_web__/health"), Route::Health));
    assert!(matches!(route_request("POST", "/__cockpit_web__/health"), Route::MethodNotAllowed));
    assert!(matches!(route_request("GET", "/__cockpit_web__/invoke"), Route::Static { head_only: false }));
    assert!(matches!(route_request("HEAD", "/x"), Route::Static { head_only: true }));
    assert!(matches!(route_request("get", "/x"), Route::MethodNotAllowed));
    assert!(matches!(route_request("", "/"), Route::MethodNotAllowed));
}

#[test]
fn fixed_responses() {
    let p = preflight_response();
    assert_eq!((p.status, p.reason, p.content_type, p.body), (204, "No Content", "text/plain; charset=utf-8", ""));
    let m = method_not_allowed_response();
    assert_eq!((m.status, m.reason, m.body), (405, "Method Not Allowed", "method not allowed"));
    assert_eq!(invoke_status(true), (200, "OK"));
    assert_eq!(invoke_status(false), (400, "Bad Request"));
}
