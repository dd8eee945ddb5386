use cockpit_web_console::paths::{
    choose_static_file, content_type_for_path, file_extension, frontend_dist_candidates,
    index_file, normalize_path, resolve_static_path, PathComponent, StaticPathError,
};

fn comps(p: &str) -> Vec<PathComponent> {
    let mut v = Vec::new();
    for (i, part) in p.split('/').enumerate() {
        if i == 0 && part.is_empty() && p.starts_with('/') {
            v.push(PathComponent::RootDir);
        } else if part == "." {
            v.push(PathComponent::CurDir);
        } else if part == ".." {
            v.push(PathComponent::ParentDir);
        } else if !part.is_empty() {
            v.push(PathComponent::Normal(part.to_string()));
        }
    }
    v
}

fn render(p: &[PathComponent]) -> String {
    let mut s = String::new();
    for c in p {
        match c {
            PathComponent::RootDir => s.push('/'),
            PathComponent::CurDir => s.push_str("./"),
            PathComponent::ParentDir => s.push_str("../"),
            PathComponent::Normal(n) => {
                s.push_str(n);
                s.push('/');
            }
        }
    }
    s
}

#[test]
fn normalize_resolves_dots_lexically() {
    assert_eq!(render(&normalize_path(&comps("/a/b/../c/./d"))), "/a/c/d/");
    assert_eq!(render(&normalize_path(&comps("/../a"))), "/a/");
    assert_eq!(render(&normalize_path(&comps("a/../../b"))), "b/");
    assert_eq!(render(&normalize_path(&comps("./x/."))), "x/");
    assert_eq!(render(&normalize_path(&comps("/"))), "/");
    assert_eq!(render(&normalize_path(&Vec::new())), "");
}

#[test]
fn normalize_twice_is_normalize_once() {
    for p in ["/a/b/../c/./d", "../x/../../y", "/..", "a/./b/../..", "/usr/../etc/./x/.."] {
        let once = normalize_path(&comps(p));
        let twice = normalize_path(&once);
        assert_eq!(render(&once), render(&twice));
    }
}

#[test]
fn root_path_serves_index() {
    let root = comps("/srv/dist");
    assert_eq!(render(&resolve_static_path(&root, "/").ok().unwrap()), "/srv/dist/index.html/");
    assert_eq!(render(&resolve_static_path(&root, "").ok().unwrap()), "/srv/dist/index.html/");
}

#[test]
fn request_paths_resolve_under_root() {
    let root = comps("/srv/dist");
    assert_eq!(render(&resolve_static_path(&root, "/assets/app.js").ok().unwrap()), "/srv/dist/assets/app.js/");
    assert_eq!(render(&resolve_static_path(&root, "///a//b/").ok().unwrap()), "/srv/dist/a/b/");
    assert_eq!(render(&resolve_static_path(&root, "/a%20b.css").ok().unwrap()), "/srv/dist/a b.css/");
    assert_eq!(render(&resolve_static_path(&root, "/x%2Fy").ok().unwrap()), "/srv/dist/x/y/");
    assert_eq!(render(&resolve_static_path(&root, "/100%").ok().unwrap()), "/srv/dist/100%/");
    assert_eq!(render(&resolve_static_path(&root, "/a+b").ok().unwrap()), "/srv/dist/a+b/");
}

#[test]
fn traversal_is_refused() {
    let root = comps("/srv/dist");
    for p in ["/../etc/passwd", "/a/../../b", "/./a", "/%2e%2e/secret", "/a%2F..%2Fb", "/a\\b", "/a%5Cb"] {
        match resolve_static_path(&root, p) {
            Err(e) => assert_eq!(e.message(), "invalid static path"),
            Ok(_) => panic!("{} was accepted", p),
        }
    }
}

#[test]
fn bad_percent_encoding_is_refused() {
    let root = comps("/srv/dist");
    match resolve_static_path(&root, "/%ff") {
        Err(StaticPathError::InvalidUrlEncoding(m)) => assert!(m.starts_with("invalid URL encoding: ")),
        _ => panic!("expected an encoding error"),
    }
}

#[test]
fn extension_rules() {
    let ext = |s: &str| file_extension(&s.chars().collect()).map(|e| e.into_iter().collect::<String>());
    assert_eq!(ext("app.js"), Some("js".to_string()));
    assert_eq!(ext("a.tar.gz"), Some("gz".to_string()));
    assert_eq!(ext(".bashrc"), None);
    assert_eq!(ext(".a.b"), Some("b".to_string()));
    assert_eq!(ext("name."), Some("".to_string()));
    assert_eq!(ext("noext"), None);
    assert_eq!(ext(".."), None);
}

#[test]
fn content_types() {
    let ct = |p: &str| content_type_for_path(&comps(p));
    assert_eq!(ct("/d/index.html"), "text/html; charset=utf-8");
    assert_eq!(ct("/d/INDEX.HTML"), "text/html; charset=utf-8");
    assert_eq!(ct("/d/a.js"), "text/javascript; charset=utf-8");
    assert_eq!(ct("/d/a.mjs"), "text/javascript; charset=utf-8");
    assert_eq!(ct("/d/a.css"), "text/css; charset=utf-8");
    assert_eq!(ct("/d/a.json"), "application/json; charset=utf-8");
    assert_eq!(ct("/d/a.svg"), "image/svg+xml");
    assert_eq!(ct("/d/a.png"), "image/png");
    assert_eq!(ct("/d/a.JPG"), "image/jpeg");
    assert_eq!(ct("/d/a.jpeg"), "image/jpeg");
    assert_eq!(ct("/d/a.webp"), "image/webp");
    assert_eq!(ct("/d/favicon.ico"), "image/x-icon");
    assert_eq!(ct("/d/f.woff"), "font/woff");
    assert_eq!(ct("/d/f.woff2"), "font/woff2");
    assert_eq!(ct("/d/f.wasm"), "application/octet-stream");
    assert_eq!(ct("/d/.htaccess"), "application/octet-stream");
    assert_eq!(ct("/"), "application/octet-stream");
    assert_eq!(ct(""), "application/octet-stream");
}

#[test]
fn frontend_candidates_in_order() {
    let c = frontend_dist_candidates(&comps("/home/u/app/src-tauri"), &comps("/work/dir"));
    assert_eq!(c.len(), 3);
    assert_eq!(render(&c[0]), "/home/u/app/dist/");
    assert_eq!(render(&c[1]), "/work/dir/dist/");
    assert_eq!(render(&c[2]), "/work/dist/");
    assert_eq!(render(&index_file(&c[1])), "/work/dir/dist/index.html/");
}

#[test]
fn static_file_choice_falls_back_to_index() {
    let root = comps("/srv/dist");
    let f = choose_static_file(comps("/srv/dist/a.css"), true, &root);
    assert_eq!(render(&f.path), "/srv/dist/a.css/");
    assert_eq!(f.content_type, "text/css; charset=utf-8");
    let f = choose_static_file(comps("/srv/dist/route/x"), false, &root);
    assert_eq!(render(&f.path), "/srv/dist/index.html/");
    assert_eq!(f.content_type, "text/html; charset=utf-8");
}
