use vstd::prelude::*;
use vstd::string::StringExecFns;
use crate::error::{AppError, ErrorKind, ErrorOutput};
use crate::file::{ChatFile, join, join_path, relative_path, url_of, stored_ext, hex_lower, sha256_digest, url_safe};
use crate::text::{decimal, push_decimal, u64_to_string};

verus! {

/// The body of a successful sign-up or sign-in: the token of the user.
#[derive(Debug)]
pub struct AuthOutput {
    pub token: String,
}

/// The error for a chat id that names no chat.
pub fn chat_not_found(id: u64) -> (e: AppError)
    ensures
        e@ == (ErrorKind::NotFound, "Chat not found: "@ + decimal(id as nat)),
{
    let mut m = String::from_str("Chat not found: ");
    push_decimal(&mut m, id);
    AppError::NotFound(m)
}

/// The answer to a sign-in with an unknown email or a wrong password:
/// status 403 and a body that says so.
pub fn sign_in_refused() -> (r: (u16, ErrorOutput))
    ensures
        r.0 == 403,
        r.1.error@ == "Invalid email or password"@,
{
    (403, ErrorOutput::new("Invalid email or password"))
}

/// The media type that `mime_guess` infers from the extension of a path,
/// as text (`application/octet-stream` where it knows none).
pub uninterp spec fn guessed_mime(path: Seq<char>) -> Seq<char>;

/// Calls `mime_guess::from_path(..).first_or_octet_stream()` and gives the
/// media type as text, a function of the path alone.
#[verifier::external_body]
fn mime_of_path(path: &str) -> (m: String)
    ensures
        m@ == guessed_mime(path@),
{
    mime_guess::from_path(path).first_or_octet_stream().as_ref().to_string()
}

/// Where a download of `path` from workspace `ws_id` is read from, for a
/// user of workspace `user_ws_id`, and the media type it is served as:
/// only a user of that workspace may read from it.
pub fn download_path(user_ws_id: i64, ws_id: u64, base_dir: &str, path: &str) -> (r: Result<(String, String), AppError>)
    ensures
        user_ws_id as u64 != ws_id ==> (r matches Err(e)
            && e@ == (ErrorKind::NotFound, "File does not exist or you are not authorized"@)),
        user_ws_id as u64 == ws_id ==> (r matches Ok((p, m))
            && p@ == join_path(join_path(base_dir@, decimal(ws_id as nat)), path@)
            && m@ == guessed_mime(p@)),
{
    if user_ws_id as u64 != ws_id {
        return Err(AppError::NotFound(String::from_str("File does not exist or you are not authorized")));
    }
    let ws = u64_to_string(ws_id);
    let dir = join(base_dir, ws.as_str());
    let p = join(dir.as_str(), path);
    let m = mime_of_path(p.as_str());
    Ok((p, m))
}

/// The error for a download of a file that is not stored.
pub fn missing_download() -> (e: AppError)
    ensures
        e@ == (ErrorKind::NotFound, "File does not exist"@),
{
    AppError::NotFound(String::from_str("File does not exist"))
}

/// Where an upload goes: the record of the file, where it is stored under
/// `base_dir`, and the URL it is served under.
pub struct UploadTarget {
    pub file: ChatFile,
    pub path: String,
    pub url: String,
}

/// Plans the upload of `data` named `filename` by a user of workspace `ws_id`.
pub fn upload_target(ws_id: u64, filename: &str, data: &[u8], base_dir: &str) -> (t: UploadTarget)
    ensures
        t.file.ws_id == ws_id,
        t.file.ext@ == stored_ext(filename@),
        t.file.hash@ == hex_lower(sha256_digest(data@)),
        url_safe(t.file@),
        t.path@ == join_path(base_dir@, relative_path(t.file@)),
        t.url@ == url_of(t.file@),
{
    let file = ChatFile::new(ws_id, filename, data);
    let path = file.path(base_dir);
    let url = file.url();
    UploadTarget { file, path, url }
}

} // verus!
