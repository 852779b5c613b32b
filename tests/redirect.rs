use markup_lexer::redirect::{lowercase_redirect_path, redirect_path, redirect_to_lowercase};

#[test]
fn upper_case_path_redirects() {
    assert_eq!(
        redirect_to_lowercase("https://example.com/Foo/BAR?q=X"),
        Some("https://example.com/foo/bar?q=X".to_string())
    );
}

#[test]
fn lower_case_path_stays() {
    assert_eq!(redirect_to_lowercase("https://Example.com/foo"), None);
    assert_eq!(redirect_to_lowercase("not a url"), None);
}

#[test]
fn path_lowering() {
    assert_eq!(lowercase_redirect_path("/Foo"), Some("/foo".to_string()));
    assert_eq!(lowercase_redirect_path("/foo"), None);
    assert_eq!(redirect_path("/A", "/a".to_string()), Some("/a".to_string()));
    assert_eq!(redirect_path("/a", "/a".to_string()), None);
}

#[test]
fn only_path_is_lowered() {
    let target = redirect_to_lowercase("https://example.com/Foo/Bar?Q=1");
    assert_eq!(target, Some("https://example.com/foo/bar?Q=1".to_string()));
    assert_eq!(redirect_to_lowercase(&target.unwrap()), None);
    assert_eq!(redirect_to_lowercase("https://example.com/foo"), None);
}
