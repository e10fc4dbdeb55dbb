use backend::media::{choose_media_type, extension, guess_for_name};

#[test]
fn extension_is_what_follows_the_last_dot() {
    assert_eq!(extension(b"index.html"), Some(&b"html"[..]));
    assert_eq!(extension(b"archive.tar.gz"), Some(&b"gz"[..]));
    assert_eq!(extension(b"a.b"), Some(&b"b"[..]));
    assert_eq!(extension(b".a.b"), Some(&b"b"[..]));
    assert_eq!(extension(b"a..b"), Some(&b"b"[..]));
}

#[test]
fn a_trailing_dot_gives_an_empty_extension() {
    assert_eq!(extension(b"name."), Some(&b""[..]));
    assert_eq!(extension(b"a.b."), Some(&b""[..]));
}

#[test]
fn names_without_an_inner_dot_have_no_extension() {
    assert_eq!(extension(b""), None);
    assert_eq!(extension(b"Makefile"), None);
    assert_eq!(extension(b".gitignore"), None);
    assert_eq!(extension(b"."), None);
    assert_eq!(extension(b"x"), None);
}

#[test]
fn a_known_guess_is_the_media_type() {
    assert_eq!(choose_media_type(Some("text/css")), "text/css");
    assert_eq!(choose_media_type(Some("image/png")), "image/png");
}

#[test]
fn no_guess_gives_the_default_media_type() {
    assert_eq!(choose_media_type(None), "application/octet-stream");
}

#[test]
fn common_frontend_files_are_guessed() {
    assert_eq!(guess_for_name(b"index.html"), Some("text/html"));
    assert_eq!(guess_for_name(b"style.css"), Some("text/css"));
    assert_eq!(guess_for_name(b"app.js"), Some("text/javascript"));
    assert_eq!(guess_for_name(b"data.json"), Some("application/json"));
    assert_eq!(guess_for_name(b"logo.png"), Some("image/png"));
    assert_eq!(guess_for_name(b"icon.svg"), Some("image/svg+xml"));
    assert_eq!(guess_for_name(b"module.wasm"), Some("application/wasm"));
    assert_eq!(guess_for_name(b"notes.txt"), Some("text/plain"));
}

#[test]
fn the_guess_ignores_case() {
    assert_eq!(guess_for_name(b"INDEX.HTML"), Some("text/html"));
    assert_eq!(guess_for_name(b"Logo.PnG"), Some("image/png"));
}

#[test]
fn only_the_last_extension_counts() {
    assert_eq!(guess_for_name(b"page.html.txt"), Some("text/plain"));
    assert_eq!(guess_for_name(b"notes.txt.html"), Some("text/html"));
}

#[test]
fn unknown_or_missing_extensions_give_no_guess() {
    assert_eq!(guess_for_name(b"Makefile"), None);
    assert_eq!(guess_for_name(b".html"), None);
    assert_eq!(guess_for_name(b"name."), None);
    assert_eq!(guess_for_name(b"file.no-such-extension"), None);
    assert_eq!(guess_for_name(b""), None);
}

#[test]
fn an_extension_that_is_not_text_gives_no_guess() {
    assert_eq!(guess_for_name(&[b'a', b'.', 0xff]), None);
}
