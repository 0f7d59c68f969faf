use rocket_include_dir::media::content_type;

#[test]
fn known_extensions_have_a_content_type() {
    assert_eq!(content_type("index.html"), Some("text/html; charset=utf-8".to_string()));
    assert_eq!(content_type("test.txt"), Some("text/plain; charset=utf-8".to_string()));
    assert_eq!(content_type("app.js"), Some("text/javascript".to_string()));
    assert_eq!(content_type("style.css"), Some("text/css; charset=utf-8".to_string()));
    assert_eq!(content_type("data.json"), Some("application/json".to_string()));
    assert_eq!(content_type("logo.png"), Some("image/png".to_string()));
}

#[test]
fn extensions_match_without_regard_to_case() {
    assert_eq!(content_type("INDEX.HTML"), Some("text/html; charset=utf-8".to_string()));
    assert_eq!(content_type("photo.JpG"), Some("image/jpeg".to_string()));
}

#[test]
fn only_the_last_extension_counts() {
    assert_eq!(content_type("archive.tar.gz"), Some("application/gzip".to_string()));
    assert_eq!(content_type("page.html.bak"), None);
}

#[test]
fn unknown_or_absent_extension_has_no_content_type() {
    assert_eq!(content_type("notes.unknown-extension"), None);
    assert_eq!(content_type("Makefile"), None);
    assert_eq!(content_type(".html"), None);
    assert_eq!(content_type("html"), None);
    assert_eq!(content_type("trailing."), None);
}
