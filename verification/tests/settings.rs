use chat::handlers::{chat_not_found, download_path, missing_download, sign_in_refused, upload_target};
use chat::text::{i64_to_string, u64_to_string};
use chat::{AppConfig, AuthConfig, ConfigSource, ServerConfig};

fn config(port: u16) -> AppConfig {
    AppConfig {
        server: ServerConfig { port, db_url: "postgres://localhost/chat".to_string(), base_dir: "/tmp/chat".to_string() },
        auth: AuthConfig { sk: "sk".to_string(), pk: "pk".to_string() },
    }
}

#[test]
fn config_source_order() {
    assert_eq!(AppConfig::source(true, true, Some("x".to_string())), Ok(ConfigSource::Local));
    assert_eq!(AppConfig::source(false, true, Some("x".to_string())), Ok(ConfigSource::System));
    assert_eq!(AppConfig::source(false, false, Some("x".to_string())), Ok(ConfigSource::EnvPath("x".to_string())));
    assert_eq!(AppConfig::source(false, false, None), Err("No configuration file found".to_string()));
}

#[test]
fn listen_address() {
    assert_eq!(config(6688).listen_addr(), "0.0.0.0:6688");
    assert_eq!(config(0).listen_addr(), "0.0.0.0:0");
}

#[test]
fn bad_keys_are_refused() {
    assert!(config(1).load_keys().is_err());
}

#[test]
fn decimal_text() {
    assert_eq!(u64_to_string(0), "0");
    assert_eq!(u64_to_string(u64::MAX), "18446744073709551615");
    assert_eq!(i64_to_string(i64::MIN), "-9223372036854775808");
    assert_eq!(i64_to_string(-42), "-42");
}

#[test]
fn handler_answers() {
    let e = chat_not_found(42);
    assert_eq!(e.message(), "Not found: Chat not found: 42");
    assert_eq!(e.status_code(), 404);
    let (status, body) = sign_in_refused();
    assert_eq!(status, 403);
    assert_eq!(body.error, "Invalid email or password");
    assert_eq!(missing_download().detail(), "File does not exist");
}

#[test]
fn downloads_stay_in_the_users_workspace() {
    assert_eq!(
        download_path(1, 1, "/data", "b94/d27/x.txt").unwrap(),
        ("/data/1/b94/d27/x.txt".to_string(), "text/plain".to_string())
    );
    assert_eq!(download_path(1, 1, "/data", "a/b/c.png").unwrap().1, "image/png");
    assert_eq!(download_path(1, 1, "/data", "a/b/c").unwrap().1, "application/octet-stream");
    let e = download_path(2, 1, "/data", "x").unwrap_err();
    assert_eq!(e.detail(), "File does not exist or you are not authorized");
    assert_eq!(e.status_code(), 404);
}

#[test]
fn upload_plan() {
    let t = upload_target(1, "example.txt", b"hello world", "/data");
    assert_eq!(t.url, "/files/1/b94/d27/b9934d3e08a52e52d7da7dabfac484efe37a5380ee9088f7ace2efcde9.txt");
    assert_eq!(t.path, "/data/1/b94/d27/b9934d3e08a52e52d7da7dabfac484efe37a5380ee9088f7ace2efcde9.txt");
}

#[test]
fn settings_files_by_source() {
    assert_eq!(ConfigSource::Local.file_name(), "chat.yaml");
    assert_eq!(ConfigSource::System.file_name(), "/etc/config/chat.yaml");
    assert_eq!(ConfigSource::EnvPath("/srv/c.yaml".to_string()).file_name(), "/srv/c.yaml");
}
