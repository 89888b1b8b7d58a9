use pty_manager::guess_mime;
use pty_manager::mime::{extension, mime_for_extension};

#[test]
fn guess_mime_txt() {
    assert_eq!(guess_mime("file.txt"), Some("text/plain".to_string()));
}

#[test]
fn guess_mime_rs() {
    assert_eq!(guess_mime("main.rs"), Some("text/x-rust".to_string()));
}

#[test]
fn guess_mime_png() {
    assert_eq!(guess_mime("image.png"), Some("image/png".to_string()));
}

#[test]
fn guess_mime_unknown_ext() {
    assert_eq!(guess_mime("file.xyz"), None);
}

#[test]
fn guess_mime_no_extension() {
    assert_eq!(guess_mime("Makefile"), None);
}

#[test]
fn guess_mime_case_insensitive() {
    assert_eq!(guess_mime("FILE.PNG"), Some("image/png".to_string()));
    assert_eq!(guess_mime("doc.TXT"), Some("text/plain".to_string()));
}

#[test]
fn guess_mime_uses_last_dot() {
    assert_eq!(guess_mime("archive.tar.gz"), Some("application/gzip".to_string()));
    assert_eq!(guess_mime("notes.md.bak"), None);
    assert_eq!(guess_mime("trailing."), None);
}

#[test]
fn guess_mime_every_known_extension() {
    let table = [
        ("a.md", "text/plain"),
        ("a.log", "text/plain"),
        ("a.csv", "text/plain"),
        ("a.html", "text/html"),
        ("a.htm", "text/html"),
        ("a.css", "text/css"),
        ("a.js", "text/javascript"),
        ("a.mjs", "text/javascript"),
        ("a.ts", "text/typescript"),
        ("a.tsx", "text/typescript"),
        ("a.json", "application/json"),
        ("a.xml", "application/xml"),
        ("a.pdf", "application/pdf"),
        ("a.zip", "application/zip"),
        ("a.tar", "application/gzip"),
        ("a.jpg", "image/jpeg"),
        ("a.jpeg", "image/jpeg"),
        ("a.gif", "image/gif"),
        ("a.svg", "image/svg+xml"),
        ("a.webp", "image/webp"),
        ("a.mp3", "audio/mpeg"),
        ("a.mp4", "video/mp4"),
        ("a.toml", "text/x-toml"),
        ("a.yaml", "text/x-yaml"),
        ("a.yml", "text/x-yaml"),
        ("a.sh", "text/x-shellscript"),
        ("a.bash", "text/x-shellscript"),
        ("a.zsh", "text/x-shellscript"),
    ];
    for (name, mime) in table {
        assert_eq!(guess_mime(name), Some(mime.to_string()), "{}", name);
    }
}

#[test]
fn extension_after_last_dot() {
    assert_eq!(extension("a.b.c"), "c");
    assert_eq!(extension("Makefile"), "Makefile");
    assert_eq!(extension(".hidden"), "hidden");
    assert_eq!(extension("x."), "");
    assert_eq!(extension(""), "");
}

#[test]
fn mime_for_extension_is_case_sensitive() {
    assert_eq!(mime_for_extension("png"), Some("image/png".to_string()));
    assert_eq!(mime_for_extension("PNG"), None);
    assert_eq!(mime_for_extension(""), None);
}
