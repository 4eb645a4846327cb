use vstd::prelude::*;
use vstd::string::StringExecFns;
use crate::error::{AppError, ErrorKind};
use crate::file::{ChatFile, parse_chat_file, hash_splittable, join_path, relative_path};

verus! {

/// A message to send: its text and the URLs of uploaded files it refers to.
#[derive(Debug, Clone)]
pub struct CreateMessage {
    pub content: String,
    pub files: Vec<String>,
}

/// A page of messages to list: at most `limit` messages older than `last_id`.
#[derive(Debug, Clone)]
pub struct ListMessages {
    pub limit: u64,
    pub last_id: Option<u64>,
}

/// The next step of sending a message.
#[derive(Debug)]
pub enum MessageStep {
    /// Make sure that the file the message refers to at `index` is stored at `path`.
    CheckFile { index: usize, path: String },
    /// Store the message.
    Store,
    /// Refuse the message.
    Fail(AppError),
}

/// Whether the file URL at `index` of a message, where it reads as a file,
/// names one that has a storage path.
pub open spec fn file_has_path(files: Seq<String>, index: int) -> bool {
    parse_chat_file(files[index]@) matches Ok(f) ==> hash_splittable(f.hash)
}

impl CreateMessage {
    /// Whether the file URL at `index` of this message, where it reads as a
    /// file, names one whose hash can be laid out as a storage path.
    pub fn file_has_storage_path(&self, index: usize) -> (b: bool)
        requires
            index < self.files@.len(),
        ensures
            b == file_has_path(self.files@, index as int),
    {
        match ChatFile::parse(self.files[index].as_str()) {
            Ok(f) => f.has_storage_path(),
            Err(_) => true,
        }
    }

    /// The next step of sending this message to a workspace whose files are
    /// stored under `base_dir`, once the first `confirmed` files were found.
    /// An empty message is refused; then each file URL is read in turn and
    /// its file must exist; then the message is stored.
    pub fn next_step(&self, base_dir: &str, confirmed: usize) -> (s: MessageStep)
        requires
            confirmed <= self.files@.len(),
            self.content@.len() > 0 && confirmed < self.files@.len() ==> file_has_path(self.files@, confirmed as int),
        ensures
            self.content@.len() == 0 ==> (s matches MessageStep::Fail(e)
                && e@ == (ErrorKind::CreateMessageError, "content is empty"@)),
            self.content@.len() > 0 && confirmed == self.files@.len() ==> s is Store,
            self.content@.len() > 0 && confirmed < self.files@.len() ==> match parse_chat_file(self.files@[confirmed as int]@) {
                Ok(f) => s matches MessageStep::CheckFile { index, path }
                    && index == confirmed
                    && path@ == join_path(base_dir@, relative_path(f)),
                Err(e) => s matches MessageStep::Fail(err) && err@ == e,
            },
    {
        if self.content.as_str().is_empty() {
            return MessageStep::Fail(AppError::CreateMessageError(String::from_str("content is empty")));
        }
        if confirmed == self.files.len() {
            return MessageStep::Store;
        }
        match ChatFile::parse(self.files[confirmed].as_str()) {
            Err(e) => MessageStep::Fail(e),
            Ok(f) => {
                assert(parse_chat_file(self.files@[confirmed as int]@) matches Ok(m) && hash_splittable(m.hash));
                let path = f.path(base_dir);
                MessageStep::CheckFile { index: confirmed, path }
            },
        }
    }

    /// The error for a message whose file at `index` is not stored.
    pub fn missing_file(&self, index: usize) -> (e: AppError)
        requires
            index < self.files@.len(),
        ensures
            e@ == (ErrorKind::CreateMessageError, "file "@ + self.files@[index as int]@ + " does not exist"@),
    {
        let mut m = String::from_str("file ");
        m.append(self.files[index].as_str());
        m.append(" does not exist");
        AppError::CreateMessageError(m)
    }
}

/// The bounds of a page query: the id below which messages are listed
/// (every id when none is given) and how many at most, between 1 and 100.
pub open spec fn page_bounds(input: ListMessages) -> (i64, i64) {
    let last = match input.last_id {
        Some(id) => id,
        None => i64::MAX as u64,
    };
    let limit = if input.limit < 1 { 1 } else if input.limit > 100 { 100 } else { input.limit };
    (last as i64, limit as i64)
}

impl ListMessages {
    /// The id below which messages are listed and the largest number listed,
    /// as the database query takes them.
    pub fn query_bounds(&self) -> (b: (i64, i64))
        ensures
            b == page_bounds(*self),
            1 <= b.1 <= 100,
    {
        let last: u64 = match self.last_id {
            Some(id) => id,
            None => 9223372036854775807u64,
        };
        let limit: u64 = if self.limit < 1 { 1 } else if self.limit > 100 { 100 } else { self.limit };
        (last as i64, limit as i64)
    }
}

} // verus!
