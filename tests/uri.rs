use nipaplay_next::uri::{contains_scheme_separator, ensure_uri, join, path_is_absolute, UriError};

fn cwd(dir: &str) -> Result<String, String> {
    Ok(dir.to_string())
}

#[test]
fn uri_is_kept_as_it_is() {
    let r = ensure_uri("http://example.com/a.mp4", Err("unreadable".to_string()));
    assert_eq!(r, Ok("http://example.com/a.mp4".to_string()));
}

#[test]
fn absolute_path_becomes_file_url() {
    let r = ensure_uri("/tmp/a b.mp4", Err("unreadable".to_string()));
    assert_eq!(r, Ok("file:///tmp/a%20b.mp4".to_string()));
}

#[test]
fn relative_path_is_joined_onto_working_dir() {
    assert_eq!(
        ensure_uri("video.mp4", cwd("/home/user")),
        Ok("file:///home/user/video.mp4".to_string())
    );
    assert_eq!(ensure_uri("video.mp4", cwd("/")), Ok("file:///video.mp4".to_string()));
}

#[test]
fn relative_path_without_working_dir_fails() {
    let r = ensure_uri("video.mp4", Err("no such directory".to_string()));
    assert_eq!(r, Err(UriError::WorkingDir("no such directory".to_string())));
}

#[test]
fn relative_path_against_relative_dir_is_invalid() {
    let r = ensure_uri("video.mp4", cwd("media"));
    assert_eq!(r, Err(UriError::InvalidFilePath("media/video.mp4".to_string())));
    let r = ensure_uri("", cwd(""));
    assert_eq!(r, Err(UriError::InvalidFilePath("".to_string())));
}

#[test]
fn relative_and_absolute_forms_give_the_same_uri() {
    let relative = ensure_uri("media/a.mkv", cwd("/srv"));
    let absolute = ensure_uri("/srv/media/a.mkv", cwd("/elsewhere"));
    assert_eq!(relative, absolute);
    assert_eq!(relative, Ok("file:///srv/media/a.mkv".to_string()));
}

#[test]
fn scheme_separator_detection() {
    assert!(contains_scheme_separator("rtsp://cam/1"));
    assert!(contains_scheme_separator("a://"));
    assert!(!contains_scheme_separator("C:/videos/a.mp4"));
    assert!(!contains_scheme_separator(":/"));
    assert!(!contains_scheme_separator(""));
}

#[test]
fn absolute_path_detection() {
    assert!(path_is_absolute("/a"));
    assert!(!path_is_absolute("a/b"));
    assert!(!path_is_absolute(""));
}

#[test]
fn joining_paths() {
    assert_eq!(join("/a", "b"), "/a/b");
    assert_eq!(join("/a/", "b"), "/a/b");
    assert_eq!(join("/a", "/c"), "/c");
    assert_eq!(join("", "b"), "b");
    assert_eq!(join("/a", ""), "/a/");
}
