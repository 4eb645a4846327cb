use chat::file::{join, stored_extension};
use chat::{AppError, ChatFile, ErrorKind};
use sha2::{Digest, Sha256};
use std::str::FromStr;

const HELLO_HASH: &str = "b94d27b9934d3e08a52e52d7da7dabfac484efe37a5380ee9088f7ace2efcde9";

#[test]
fn test_chat_file_new() {
    let file = ChatFile::new(1, "example.txt", b"hello world");
    assert_eq!(file.ext, "txt");
    assert_eq!(file.hash, hex::encode(Sha256::digest(b"hello world")));
    assert_eq!(file.ws_id, 1);
}

#[test]
fn new_file_hash_is_sha256_in_lower_hex() {
    let file = ChatFile::new(7, "a.png", b"hello world");
    assert_eq!(file.hash, HELLO_HASH);
}

#[test]
fn new_file_of_empty_data() {
    let file = ChatFile::new(0, "x.bin", b"");
    assert_eq!(file.hash, "e3b0c44298fc1c149afbf4c8996fb92427ae41e4649b934ca495991b7852b855");
}

#[test]
fn stored_extension_follows_path_rules() {
    assert_eq!(stored_extension("a.tar.gz"), "gz");
    assert_eq!(stored_extension(".bashrc"), "bin");
    assert_eq!(stored_extension("noext"), "bin");
    assert_eq!(stored_extension("a."), "bin");
    assert_eq!(stored_extension("dir/x.png"), "png");
    assert_eq!(stored_extension("dir.d/x"), "bin");
    assert_eq!(stored_extension("x.png/"), "png");
    assert_eq!(stored_extension("x.png/."), "png");
    assert_eq!(stored_extension(".."), "bin");
    assert_eq!(stored_extension("a/.."), "bin");
    assert_eq!(stored_extension(""), "bin");
    assert_eq!(stored_extension("/"), "bin");
    assert_eq!(stored_extension("報告.pdf"), "pdf");
}

#[test]
fn hash_to_path_lays_out_the_hash() {
    let file = ChatFile::new(1, "example.txt", b"hello world");
    assert_eq!(
        file.hash_to_path(),
        format!("1/b94/d27/{}.txt", &HELLO_HASH[6..])
    );
}

#[test]
fn url_and_path_of_a_file() {
    let file = ChatFile {
        ws_id: 12,
        ext: "md".to_string(),
        hash: "abcdefgh".to_string(),
    };
    assert_eq!(file.url(), "/files/12/abc/def/gh.md");
    assert_eq!(file.path("/tmp/chat"), "/tmp/chat/12/abc/def/gh.md");
    assert_eq!(file.path("/tmp/chat/"), "/tmp/chat/12/abc/def/gh.md");
    assert_eq!(file.path(""), "12/abc/def/gh.md");
    assert!(file.has_storage_path());
}

#[test]
fn short_or_split_hashes_have_no_path() {
    let short = ChatFile { ws_id: 1, ext: "a".to_string(), hash: "abc".to_string() };
    assert!(!short.has_storage_path());
    let wide = ChatFile { ws_id: 1, ext: "a".to_string(), hash: "aaé123".to_string() };
    assert!(!wide.has_storage_path());
    let ok = ChatFile { ws_id: 1, ext: "a".to_string(), hash: "aéb0123".to_string() };
    assert!(ok.has_storage_path());
    assert_eq!(ok.url(), "/files/1/aé/b01/23.a");
}

#[test]
fn join_follows_pathbuf() {
    assert_eq!(join("/a", "b"), "/a/b");
    assert_eq!(join("/a/", "b"), "/a/b");
    assert_eq!(join("", "b"), "b");
    assert_eq!(join("/a", "/b"), "/b");
}

#[test]
fn url_reads_back_as_the_file() {
    let file = ChatFile::new(3, "notes.tar.gz", b"some bytes");
    let back = ChatFile::parse(&file.url()).unwrap();
    assert_eq!(back.ws_id, file.ws_id);
    assert_eq!(back.ext, file.ext);
    assert_eq!(back.hash, file.hash);
}

#[test]
fn parse_keeps_dots_of_the_extension() {
    let f = ChatFile::parse("/files/+5/abc/def/ghi.tar.gz").unwrap();
    assert_eq!(f.ws_id, 5);
    assert_eq!(f.ext, "tar.gz");
    assert_eq!(f.hash, "abcdefghi");
}

fn parse_error(s: &str) -> AppError {
    match ChatFile::parse(s) {
        Ok(_) => panic!("expected an error"),
        Err(e) => e,
    }
}

#[test]
fn parse_without_prefix_is_refused() {
    let e = parse_error("1");
    assert_eq!(e.kind(), ErrorKind::ChatFileError);
    assert_eq!(e.message(), "Chat file error: Invalid chat file path: 1");
    assert_eq!(e.status_code(), 400);
}

#[test]
fn parse_with_wrong_number_of_parts_is_refused() {
    let e = parse_error("/files/1/abc/def");
    assert_eq!(e.detail(), "Invalid chat file path: 1/abc/def");
    let e = parse_error("/files/1/a/b/c/d.txt");
    assert_eq!(e.detail(), "Invalid chat file path: 1/a/b/c/d.txt");
}

#[test]
fn parse_with_bad_workspace_is_refused() {
    assert_eq!(parse_error("/files/x/abc/def/g.txt").detail(), "Invalid workspace id: x");
    assert_eq!(parse_error("/files/-1/abc/def/g.txt").detail(), "Invalid workspace id: -1");
    assert_eq!(parse_error("/files//abc/def/g.txt").detail(), "Invalid workspace id: ");
    assert_eq!(
        parse_error("/files/18446744073709551616/abc/def/g.txt").detail(),
        "Invalid workspace id: 18446744073709551616"
    );
    let max = ChatFile::parse("/files/18446744073709551615/abc/def/g.txt").unwrap();
    assert_eq!(max.ws_id, u64::MAX);
}

#[test]
fn parse_without_extension_is_refused() {
    let e = parse_error("/files/1/abc/def/ghi");
    assert_eq!(e.message(), "Chat file error: Invalid file name: ghi");
}

#[test]
fn from_str_reads_a_url() {
    let f = ChatFile::from_str("/files/1/abc/def/g.txt").unwrap();
    assert_eq!(f.hash, "abcdefg");
    let e = ChatFile::from_str("1").unwrap_err();
    assert_eq!(e.message(), "Chat file error: Invalid chat file path: 1");
}
