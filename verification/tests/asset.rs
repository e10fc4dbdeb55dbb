use backend::asset::{leading_slashes, piece_is_parent, piece_is_skipped, resolve, split};

fn segments_of(path: &str) -> Option<Vec<String>> {
    resolve(path).map(|p| p.segments().clone())
}

fn strings(items: &[&str]) -> Option<Vec<String>> {
    Some(items.iter().map(|s| s.to_string()).collect())
}

#[test]
fn leading_slashes_are_counted() {
    assert_eq!(leading_slashes(b""), 0);
    assert_eq!(leading_slashes(b"a/b"), 0);
    assert_eq!(leading_slashes(b"/a"), 1);
    assert_eq!(leading_slashes(b"///a/"), 3);
    assert_eq!(leading_slashes(b"//"), 2);
}

#[test]
fn split_cuts_at_every_slash() {
    assert_eq!(split(b""), vec![b"".to_vec()]);
    assert_eq!(split(b"a"), vec![b"a".to_vec()]);
    assert_eq!(split(b"a/b"), vec![b"a".to_vec(), b"b".to_vec()]);
    assert_eq!(split(b"/"), vec![b"".to_vec(), b"".to_vec()]);
    assert_eq!(split(b"a//b/"), vec![b"a".to_vec(), b"".to_vec(), b"b".to_vec(), b"".to_vec()]);
}

#[test]
fn skipped_and_parent_pieces_are_told_apart() {
    assert!(piece_is_skipped(b""));
    assert!(piece_is_skipped(b"."));
    assert!(!piece_is_skipped(b".."));
    assert!(!piece_is_skipped(b"a"));
    assert!(!piece_is_skipped(b" "));
    assert!(piece_is_parent(b".."));
    assert!(!piece_is_parent(b"."));
    assert!(!piece_is_parent(b"..."));
    assert!(!piece_is_parent(b".a"));
    assert!(!piece_is_parent(b"a."));
    assert!(!piece_is_parent(b""));
}

#[test]
fn plain_paths_resolve_to_their_segments() {
    assert_eq!(segments_of("/index.html"), strings(&["index.html"]));
    assert_eq!(segments_of("/assets/app.js"), strings(&["assets", "app.js"]));
    assert_eq!(segments_of("/a/b/c/d.css"), strings(&["a", "b", "c", "d.css"]));
    assert_eq!(segments_of("index.html"), strings(&["index.html"]));
}

#[test]
fn the_root_resolves_to_no_segments() {
    assert_eq!(segments_of("/"), strings(&[]));
    assert_eq!(segments_of(""), strings(&[]));
    assert_eq!(segments_of("///"), strings(&[]));
    assert_eq!(segments_of("/."), strings(&[]));
    assert_eq!(segments_of("/./"), strings(&[]));
}

#[test]
fn empty_and_dot_segments_are_dropped() {
    assert_eq!(segments_of("//a///b/"), strings(&["a", "b"]));
    assert_eq!(segments_of("/./a/./b/."), strings(&["a", "b"]));
    assert_eq!(segments_of("/file.txt/"), strings(&["file.txt"]));
}

#[test]
fn parent_segments_are_refused() {
    assert!(resolve("/..").is_none());
    assert!(resolve("/../etc/passwd").is_none());
    assert!(resolve("/../../../../etc/passwd").is_none());
    assert!(resolve("/a/../b").is_none());
    assert!(resolve("/a/b/..").is_none());
    assert!(resolve("/a/b/../").is_none());
    assert!(resolve("..").is_none());
}

#[test]
fn escaped_parent_segments_are_refused() {
    assert!(resolve("/%2e%2e/etc/passwd").is_none());
    assert!(resolve("/%2E%2E/etc/passwd").is_none());
    assert!(resolve("/.%2e/x").is_none());
    assert!(resolve("/%2e./x").is_none());
    assert!(resolve("/a%2f..%2fb").is_none());
    assert!(resolve("/..%2F..%2Fetc/passwd").is_none());
}

#[test]
fn an_escape_is_decoded_once_only() {
    assert_eq!(segments_of("/%252e%252e/x"), strings(&["%2e%2e", "x"]));
}

#[test]
fn names_of_dots_that_are_no_parent_resolve() {
    assert_eq!(segments_of("/..."), strings(&["..."]));
    assert_eq!(segments_of("/..a"), strings(&["..a"]));
    assert_eq!(segments_of("/a.."), strings(&["a.."]));
    assert_eq!(segments_of("/.hidden"), strings(&[".hidden"]));
}

#[test]
fn a_path_that_is_rooted_after_decoding_is_refused() {
    assert!(resolve("/%2Fetc/passwd").is_none());
    assert!(resolve("%2f").is_none());
    assert!(resolve("///%2fa").is_none());
}

#[test]
fn an_escaped_slash_inside_separates_segments() {
    assert_eq!(segments_of("/a%2Fb"), strings(&["a", "b"]));
    assert_eq!(segments_of("/a%2F%2Fb"), strings(&["a", "b"]));
}

#[test]
fn escapes_are_decoded_in_segments() {
    assert_eq!(segments_of("/my%20file.txt"), strings(&["my file.txt"]));
    assert_eq!(segments_of("/%C3%A9t%C3%A9.txt"), strings(&["été.txt"]));
    assert_eq!(segments_of("/été.txt"), strings(&["été.txt"]));
    assert_eq!(segments_of("/100%"), strings(&["100%"]));
}

#[test]
fn bytes_that_are_not_text_are_refused() {
    assert!(resolve("/%FF").is_none());
    assert!(resolve("/a/%C3").is_none());
    assert!(resolve("/%C3/%A9").is_none());
    assert!(resolve("/%ED%A0%80").is_none());
    assert!(resolve("/%C0%AF").is_none());
}

#[test]
fn resolved_segments_are_always_plain() {
    let paths = [
        "/", "/a", "/a/b", "//a//", "/./x/./y", "/%41", "/a%2Fb", "/...", "/x.tar.gz",
        "/caf%C3%A9/menu.html", "/a b/c",
    ];
    for path in paths {
        let found = resolve(path).unwrap();
        for segment in found.segments() {
            assert!(!segment.is_empty());
            assert_ne!(segment, ".");
            assert_ne!(segment, "..");
            assert!(!segment.contains('/'));
        }
    }
}
