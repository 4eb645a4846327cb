use sha2::Digest;
use vstd::prelude::*;
use vstd::string::{StringExecFns, StringSliceAdditionalSpecFns};
use vstd::utf8::*;
use crate::text::{
    decimal, u64_to_string, str_chars, split_by, split_chars, last_pos, find_last_char,
    string_of_range, string_of, sub_chars, find_char, parse_u64, parse_u64_spec, split_once_spec,
    digit_char, lemma_split_by_pieces, lemma_split_by_append, lemma_split_by_absent,
    lemma_first_pos_at, lemma_parse_decimal, lemma_last_pos_bounds,
};
use crate::error::{AppError, ErrorKind};

verus! {

broadcast use vstd::utf8::encode_utf8_valid_utf8, vstd::utf8::encode_utf8_decode_utf8;

/// A file uploaded into a workspace, stored under the SHA-256 hash of its content.
#[derive(Debug, Clone)]
pub struct ChatFile {
    pub ws_id: u64,
    pub ext: String,
    pub hash: String,
}

/// The abstract value of a [`ChatFile`].
pub struct FileModel {
    pub ws_id: u64,
    pub ext: Seq<char>,
    pub hash: Seq<char>,
}

impl View for ChatFile {
    type V = FileModel;

    open spec fn view(&self) -> FileModel {
        FileModel { ws_id: self.ws_id, ext: self.ext@, hash: self.hash@ }
    }
}

/// Whether the hash text can be cut after its third and its sixth byte,
/// as the storage layout needs.
pub open spec fn hash_splittable(hash: Seq<char>) -> bool {
    &&& is_char_boundary(encode_utf8(hash), 3)
    &&& is_char_boundary(encode_utf8(hash), 6)
}

/// The three pieces of a hash in the storage layout: its first three bytes,
/// the next three, and the rest.
pub open spec fn hash_parts(hash: Seq<char>) -> (Seq<char>, Seq<char>, Seq<char>) {
    let b = encode_utf8(hash);
    (
        decode_utf8(b.subrange(0, 3)),
        decode_utf8(b.subrange(3, 6)),
        decode_utf8(b.subrange(6, b.len() as int)),
    )
}

/// The path of a stored file relative to the storage directory:
/// `{ws_id}/{hash[0..3]}/{hash[3..6]}/{hash[6..]}.{ext}`.
pub open spec fn relative_path(f: FileModel) -> Seq<char> {
    let p = hash_parts(f.hash);
    decimal(f.ws_id as nat) + seq!['/'] + p.0 + seq!['/'] + p.1 + seq!['/'] + p.2 + seq!['.'] + f.ext
}

/// The prefix of every file URL.
pub open spec fn files_prefix() -> Seq<char> {
    seq!['/', 'f', 'i', 'l', 'e', 's', '/']
}

/// The URL under which a stored file is served.
pub open spec fn url_of(f: FileModel) -> Seq<char> {
    files_prefix() + relative_path(f)
}

/// What `PathBuf::join` gives on Unix: an absolute tail replaces the base;
/// otherwise a separator is put between them unless the base is empty or
/// already ends in one.
pub open spec fn join_path(base: Seq<char>, tail: Seq<char>) -> Seq<char> {
    if tail.len() > 0 && tail[0] == '/' {
        tail
    } else if base.len() == 0 || base.last() == '/' {
        base + tail
    } else {
        base + seq!['/'] + tail
    }
}

/// The three hash pieces put back together give the hash.
pub proof fn lemma_hash_parts(hash: Seq<char>)
    requires
        hash_splittable(hash),
    ensures
        hash_parts(hash).0 + hash_parts(hash).1 + hash_parts(hash).2 == hash,
{
    let b = encode_utf8(hash);
    let rest = b.subrange(3, b.len() as int);
    lemma_rest_boundary(hash);
    decode_utf8_split(b, 3);
    valid_utf8_split(b, 3);
    decode_utf8_split(rest, 3);
    assert(rest.subrange(0, 3) =~= b.subrange(3, 6));
    assert(rest.subrange(3, rest.len() as int) =~= b.subrange(6, b.len() as int));
}

/// After the first three bytes, the cut after the sixth byte is three bytes further.
proof fn lemma_rest_boundary(hash: Seq<char>)
    requires
        hash_splittable(hash),
    ensures
        is_char_boundary(encode_utf8(hash).subrange(3, encode_utf8(hash).len() as int), 3),
        valid_utf8(encode_utf8(hash).subrange(3, encode_utf8(hash).len() as int)),
{
    let b = encode_utf8(hash);
    valid_utf8_split(b, 3);
    let rest = b.subrange(3, b.len() as int);
    assert(b.len() >= 6) by {
        if b.len() < 6 {
            reveal_with_fuel(is_char_boundary, 1);
        }
    }
    if b.len() > 6 {
        is_char_boundary_iff_not_is_continuation_byte(b, 6);
        is_char_boundary_iff_not_is_continuation_byte(rest, 3);
        assert(rest[3] == b[6]);
    } else {
        is_char_boundary_start_end_of_seq(rest);
    }
}

/// Joins a path to a base directory as `PathBuf::join` does on Unix.
pub fn join(base: &str, tail: &str) -> (p: String)
    ensures
        p@ == join_path(base@, tail@),
{
    let basec = str_chars(base);
    let tailc = str_chars(tail);
    if tailc.len() > 0 && tailc[0] == '/' {
        return String::from_str(tail);
    }
    let mut p = String::from_str(base);
    if basec.len() > 0 && basec[basec.len() - 1] != '/' {
        p.push('/');
    }
    p.append(tail);
    p
}

impl ChatFile {
    /// Whether the hash of this file can be laid out as a storage path.
    pub fn has_storage_path(&self) -> (b: bool)
        ensures
            b == hash_splittable(self.hash@),
    {
        let h = self.hash.as_str();
        h.is_char_boundary(3) && h.is_char_boundary(6)
    }

    /// The path of this file relative to the storage directory.
    pub fn hash_to_path(&self) -> (p: String)
        requires
            hash_splittable(self.hash@),
        ensures
            p@ == relative_path(self@),
    {
        let h = self.hash.as_str();
        let ghost b = encode_utf8(self.hash@);
        proof {
            lemma_rest_boundary(self.hash@);
        }
        let (part1, rest) = h.split_at(3);
        let (part2, part3) = rest.split_at(3);
        proof {
            let r = b.subrange(3, b.len() as int);
            assert(part2.spec_bytes() =~= b.subrange(3, 6));
            assert(part3.spec_bytes() =~= b.subrange(6, b.len() as int));
            assert(decode_utf8(encode_utf8(part1@)) == part1@);
            assert(decode_utf8(encode_utf8(part2@)) == part2@);
            assert(decode_utf8(encode_utf8(part3@)) == part3@);
        }
        let mut p = u64_to_string(self.ws_id);
        p.push('/');
        p.append(part1);
        p.push('/');
        p.append(part2);
        p.push('/');
        p.append(part3);
        p.push('.');
        p.append(self.ext.as_str());
        p
    }

    /// The URL under which this file is served.
    pub fn url(&self) -> (u: String)
        requires
            hash_splittable(self.hash@),
        ensures
            u@ == url_of(self@),
    {
        let mut u = String::new();
        u.push('/');
        u.push('f');
        u.push('i');
        u.push('l');
        u.push('e');
        u.push('s');
        u.push('/');
        let rel = self.hash_to_path();
        u.append(rel.as_str());
        assert(u@ =~= url_of(self@));
        u
    }

    /// Where this file is stored under the storage directory `base_dir`.
    pub fn path(&self, base_dir: &str) -> (p: String)
        requires
            hash_splittable(self.hash@),
        ensures
            p@ == join_path(base_dir@, relative_path(self@)),
    {
        let rel = self.hash_to_path();
        join(base_dir, rel.as_str())
    }
}


/// Whether a path segment names something: it is neither empty nor `.`.
pub open spec fn is_named_segment(p: Seq<char>) -> bool {
    p.len() > 0 && p != seq!['.']
}

/// The last segment of a path that names something.
pub open spec fn last_named(segs: Seq<Seq<char>>) -> Option<Seq<char>>
    decreases segs.len(),
{
    if segs.len() == 0 {
        None
    } else if is_named_segment(segs.last()) {
        Some(segs.last())
    } else {
        last_named(segs.drop_last())
    }
}

/// What `Path::file_name` gives on Unix: the last segment that is neither
/// empty nor `.`, unless that segment is `..`.
pub open spec fn file_name_of(path: Seq<char>) -> Option<Seq<char>> {
    match last_named(split_by(path, '/')) {
        Some(n) => if n == seq!['.', '.'] { None } else { Some(n) },
        None => None,
    }
}

/// What `Path::extension` gives for a file name: the text after its last
/// `.`, unless there is none or the only one starts the name.
pub open spec fn extension_of(name: Seq<char>) -> Option<Seq<char>> {
    match last_pos(name, '.') {
        Some(i) => if i == 0 { None } else { Some(name.skip(i + 1)) },
        None => None,
    }
}

/// The extension under which an upload named `filename` is stored:
/// its own non-empty extension, or `bin`.
pub open spec fn stored_ext(filename: Seq<char>) -> Seq<char> {
    match file_name_of(filename) {
        Some(n) => match extension_of(n) {
            Some(e) => if e.len() > 0 { e } else { "bin"@ },
            None => "bin"@,
        },
        None => "bin"@,
    }
}

/// The file name of a path, as `Path::file_name` gives it on Unix.
fn file_name_chars(path: &Vec<char>) -> (r: Option<Vec<char>>)
    ensures
        r matches Some(n) ==> file_name_of(path@) == Some(n@),
        r is None ==> file_name_of(path@) is None,
{
    let segs = split_chars(path, '/');
    let ghost all = split_by(path@, '/');
    let mut i: usize = segs.len();
    assert(all.take(all.len() as int) =~= all);
    while i > 0
        invariant
            i <= segs@.len(),
            all == split_by(path@, '/'),
            segs@.len() == all.len(),
            forall|k: int| 0 <= k < segs@.len() ==> (#[trigger] segs@[k])@ == all[k],
            last_named(all) == last_named(all.take(i as int)),
        decreases i,
    {
        let seg = &segs[i - 1];
        let ghost t = all.take(i as int);
        assert(t.last() == all[i - 1]);
        let named = seg.len() > 0 && !(seg.len() == 1 && seg[0] == '.');
        proof {
            if seg@.len() == 1 && seg@[0] == '.' {
                assert(seg@ =~= seq!['.']);
            }
            if seg@ == seq!['.'] {
                assert(seg@[0] == '.');
            }
        }
        if named {
            let dotdot = seg.len() == 2 && seg[0] == '.' && seg[1] == '.';
            proof {
                if dotdot {
                    assert(seg@ =~= seq!['.', '.']);
                }
                if seg@ == seq!['.', '.'] {
                    assert(seg@[0] == '.' && seg@[1] == '.');
                }
            }
            assert(is_named_segment(t.last()));
            assert(last_named(t) == Some(seg@));
            if dotdot {
                return None;
            }
            return Some(seg.clone());
        }
        assert(t.drop_last() =~= all.take(i - 1));
        i = i - 1;
    }
    assert(all.take(0) =~= Seq::<Seq<char>>::empty());
    None
}

/// The extension under which an upload named `filename` is stored.
pub fn stored_extension(filename: &str) -> (ext: String)
    ensures
        ext@ == stored_ext(filename@),
{
    let chars = str_chars(filename);
    match file_name_chars(&chars) {
        Some(name) => match find_last_char(&name, '.') {
            Some(i) => {
                if i == 0 || i + 1 == name.len() {
                    String::from_str("bin")
                } else {
                    string_of_range(&name, i + 1, name.len())
                }
            },
            None => String::from_str("bin"),
        },
        None => String::from_str("bin"),
    }
}


/// The hexadecimal digit for a value below sixteen, in lower case.
pub open spec fn hex_digit(n: nat) -> char {
    if n < 10 {
        digit_char(n)
    } else if n == 10 {
        'a'
    } else if n == 11 {
        'b'
    } else if n == 12 {
        'c'
    } else if n == 13 {
        'd'
    } else if n == 14 {
        'e'
    } else {
        'f'
    }
}

/// Lower-case hexadecimal text of bytes, two digits per byte, high nibble first.
pub open spec fn hex_lower(bytes: Seq<u8>) -> Seq<char>
    decreases bytes.len(),
{
    if bytes.len() == 0 {
        Seq::<char>::empty()
    } else {
        hex_lower(bytes.drop_last()) + seq![
            hex_digit((bytes.last() / 16) as nat),
            hex_digit((bytes.last() % 16) as nat),
        ]
    }
}

/// The SHA-256 digest of some bytes.
pub uninterp spec fn sha256_digest(data: Seq<u8>) -> Seq<u8>;

/// Calls `sha2::Sha256::digest`: the digest is a function of the data
/// alone, and it is 32 bytes long.
#[verifier::external_body]
fn sha256(data: &[u8]) -> (d: Vec<u8>)
    ensures
        d@ == sha256_digest(data@),
        d@.len() == 32,
{
    sha2::Sha256::digest(data).to_vec()
}

/// Calls `hex::encode`: two lower-case hexadecimal digits for each byte,
/// high nibble first.
#[verifier::external_body]
fn hex_encode(data: &[u8]) -> (s: String)
    ensures
        s@ == hex_lower(data@),
{
    hex::encode(data)
}

/// Whether a character is a lower-case hexadecimal digit.
pub open spec fn is_hex_char(c: char) -> bool {
    ('0' <= c && c <= '9') || ('a' <= c && c <= 'f')
}

proof fn lemma_hex_lower(bytes: Seq<u8>)
    ensures
        hex_lower(bytes).len() == 2 * bytes.len(),
        forall|i: int| 0 <= i < hex_lower(bytes).len() ==> #[trigger] is_hex_char(hex_lower(bytes)[i]),
    decreases bytes.len(),
{
    if bytes.len() > 0 {
        lemma_hex_lower(bytes.drop_last());
        let h = hex_lower(bytes);
        let init = hex_lower(bytes.drop_last());
        let hi = (bytes.last() / 16) as nat;
        let lo = (bytes.last() % 16) as nat;
        assert(is_hex_char(hex_digit(hi)) && is_hex_char(hex_digit(lo)));
        assert forall|i: int| 0 <= i < h.len() implies #[trigger] is_hex_char(h[i]) by {
            if i < init.len() {
                assert(h[i] == init[i]);
            }
        }
    }
}

/// Whether a stored file can be written as a URL and read back from it:
/// the hash splits after its third and sixth byte, holds no `/`, its last
/// piece holds no `.`, and the extension holds no `/`.
pub open spec fn url_safe(f: FileModel) -> bool {
    &&& hash_splittable(f.hash)
    &&& !f.hash.contains('/')
    &&& !hash_parts(f.hash).2.contains('.')
    &&& !f.ext.contains('/')
}

/// What reading a file URL gives: the file it names, or the error that says
/// which part of it is wrong.
pub open spec fn parse_chat_file(s: Seq<char>) -> Result<FileModel, (ErrorKind, Seq<char>)> {
    if !files_prefix().is_prefix_of(s) {
        Err((ErrorKind::ChatFileError, "Invalid chat file path: "@ + s))
    } else {
        let rest = s.skip(7);
        let parts = split_by(rest, '/');
        if parts.len() != 4 {
            Err((ErrorKind::ChatFileError, "Invalid chat file path: "@ + rest))
        } else {
            match parse_u64_spec(parts[0]) {
                None => Err((ErrorKind::ChatFileError, "Invalid workspace id: "@ + parts[0])),
                Some(ws) => match split_once_spec(parts[3], '.') {
                    None => Err((ErrorKind::ChatFileError, "Invalid file name: "@ + parts[3])),
                    Some((last, ext)) => Ok(
                        FileModel { ws_id: ws, ext: ext, hash: parts[1] + parts[2] + last },
                    ),
                },
            }
        }
    }
}

fn file_error(prefix: &str, detail: &str) -> (e: AppError)
    ensures
        e@ == (ErrorKind::ChatFileError, prefix@ + detail@),
{
    let mut m = String::from_str(prefix);
    m.append(detail);
    AppError::ChatFileError(m)
}

impl ChatFile {
    /// The record of an upload of `data` named `filename` into workspace `ws_id`.
    pub fn new(ws_id: u64, filename: &str, data: &[u8]) -> (f: ChatFile)
        ensures
            f.ws_id == ws_id,
            f.ext@ == stored_ext(filename@),
            f.hash@ == hex_lower(sha256_digest(data@)),
            f.hash@.len() == 64,
            forall|i: int| 0 <= i < f.hash@.len() ==> #[trigger] is_hex_char(f.hash@[i]),
            hash_splittable(f.hash@),
            url_safe(f@),
    {
        let digest = sha256(data);
        let hash = hex_encode(digest.as_slice());
        let ext = stored_extension(filename);
        proof {
            lemma_hex_lower(digest@);
            lemma_hex_hash_url_safe(hash@);
            lemma_stored_ext_no_slash(filename@);
        }
        ChatFile { ws_id, ext, hash }
    }

    /// Reads a file URL of the form `/files/{ws_id}/{aaa}/{bbb}/{rest}.{ext}`.
    pub fn parse(s: &str) -> (r: Result<ChatFile, AppError>)
        ensures
            r is Ok <==> parse_chat_file(s@) is Ok,
            r matches Ok(f) ==> parse_chat_file(s@) == Ok::<FileModel, (ErrorKind, Seq<char>)>(f@),
            r matches Err(e) ==> parse_chat_file(s@) == Err::<FileModel, (ErrorKind, Seq<char>)>(e@),
    {
        let v = str_chars(s);
        let has_prefix = v.len() >= 7 && v[0] == '/' && v[1] == 'f' && v[2] == 'i' && v[3] == 'l'
            && v[4] == 'e' && v[5] == 's' && v[6] == '/';
        proof {
            if has_prefix {
                assert(files_prefix() =~= v@.subrange(0, 7));
            }
            if files_prefix().is_prefix_of(v@) {
                assert(v@.subrange(0, 7)[1] == 'f');
            }
        }
        if !has_prefix {
            return Err(file_error("Invalid chat file path: ", s));
        }
        let rest = sub_chars(&v, 7, v.len());
        assert(rest@ =~= v@.skip(7));
        let parts = split_chars(&rest, '/');
        if parts.len() != 4 {
            let rest_s = string_of(&rest);
            return Err(file_error("Invalid chat file path: ", rest_s.as_str()));
        }
        let ws = parse_u64(&parts[0]);
        match ws {
            None => {
                let p0 = string_of(&parts[0]);
                Err(file_error("Invalid workspace id: ", p0.as_str()))
            },
            Some(ws_id) => {
                match find_char(&parts[3], '.') {
                    None => {
                        let p3 = string_of(&parts[3]);
                        Err(file_error("Invalid file name: ", p3.as_str()))
                    },
                    Some(i) => {
                        let last = &parts[3];
                        let ext = string_of_range(last, i + 1, last.len());
                        let mut hash = string_of(&parts[1]);
                        let p2 = string_of(&parts[2]);
                        let head = string_of_range(last, 0, i);
                        hash.append(p2.as_str());
                        hash.append(head.as_str());
                        proof {
                            assert(last@.take(i as int) =~= last@.subrange(0, i as int));
                            assert(last@.skip(i + 1) =~= last@.subrange(i + 1, last@.len() as int));
                        }
                        Ok(ChatFile { ws_id, ext, hash })
                    },
                }
            },
        }
    }
}

impl std::str::FromStr for ChatFile {
    type Err = AppError;

    /// Reads a file URL; see [`ChatFile::parse`].
    fn from_str(s: &str) -> (r: Result<ChatFile, AppError>)
        ensures
            r is Ok <==> parse_chat_file(s@) is Ok,
            r matches Ok(f) ==> parse_chat_file(s@) == Ok::<FileModel, (ErrorKind, Seq<char>)>(f@),
            r matches Err(e) ==> parse_chat_file(s@) == Err::<FileModel, (ErrorKind, Seq<char>)>(e@),
    {
        ChatFile::parse(s)
    }
}

/// A hash written in lower-case hexadecimal, 64 digits long, is safe in a URL.
proof fn lemma_hex_hash_url_safe(hash: Seq<char>)
    requires
        hash.len() == 64,
        forall|i: int| 0 <= i < hash.len() ==> #[trigger] is_hex_char(hash[i]),
    ensures
        hash_splittable(hash),
        !hash.contains('/'),
        !hash_parts(hash).2.contains('.'),
{
    assert(is_ascii_chars(hash)) by {
        assert forall|i: int| 0 <= i < hash.len() implies '\0' <= #[trigger] hash[i] <= '\u{7f}' by {
            assert(is_hex_char(hash[i]));
        }
    }
    is_ascii_chars_encode_utf8(hash);
    let b = encode_utf8(hash);
    is_char_boundary_iff_not_is_continuation_byte(b, 3);
    is_char_boundary_iff_not_is_continuation_byte(b, 6);
    assert(hash[3] as u8 == b[3]);
    assert(hash[6] as u8 == b[6]);
    assert(is_hex_char(hash[3]) && is_hex_char(hash[6]));
    assert(!hash.contains('/')) by {
        if hash.contains('/') {
            let j = choose|j: int| 0 <= j < hash.len() && hash[j] == '/';
            assert(is_hex_char(hash[j]));
        }
    }
    lemma_hash_parts(hash);
    let p = hash_parts(hash);
    assert(!p.2.contains('.')) by {
        if p.2.contains('.') {
            let j = choose|j: int| 0 <= j < p.2.len() && p.2[j] == '.';
            assert(hash[p.0.len() + p.1.len() + j] == p.2[j]);
            assert(is_hex_char(hash[p.0.len() + p.1.len() + j]));
        }
    }
}

proof fn lemma_last_named_member(segs: Seq<Seq<char>>)
    ensures
        last_named(segs) matches Some(n) ==> exists|k: int| 0 <= k < segs.len() && segs[k] == n,
    decreases segs.len(),
{
    if segs.len() > 0 {
        if is_named_segment(segs.last()) {
            assert(segs[segs.len() - 1] == segs.last());
        } else {
            lemma_last_named_member(segs.drop_last());
            if last_named(segs.drop_last()) is Some {
                let n = last_named(segs.drop_last())->0;
                let k = choose|k: int| 0 <= k < segs.drop_last().len() && segs.drop_last()[k] == n;
                assert(segs[k] == n);
            }
        }
    }
}

/// The stored extension never holds a `/`.
/// An upload keeps its own extension, whatever its length: a file name made
/// of a non-empty base, a dot and a non-empty extension without a dot is
/// stored under exactly that extension.
pub proof fn lemma_stored_ext_keeps_extension(base: Seq<char>, ext: Seq<char>)
    requires
        base.len() > 0,
        ext.len() > 0,
        !base.contains('/'),
        !ext.contains('/'),
        !ext.contains('.'),
    ensures
        stored_ext(base + seq!['.'] + ext) == ext,
{
    let name = base + seq!['.'] + ext;
    let i = base.len() as int;
    assert(name.len() == base.len() + 1 + ext.len());
    assert(name[i] == '.');
    assert(!name.contains('/')) by {
        if name.contains('/') {
            let j = choose|j: int| 0 <= j < name.len() && name[j] == '/';
            if j < i {
                assert(base[j] == '/');
            } else if j > i {
                assert(ext[j - i - 1] == '/');
            }
        }
    }
    lemma_split_by_absent(name, '/');
    let segs = split_by(name, '/');
    assert(segs.last() == name);
    assert(name != seq!['.']) by {
        assert(name.len() >= 3);
    }
    assert(is_named_segment(segs.last()));
    assert(last_named(segs) == Some(name));
    assert(name != seq!['.', '.']) by {
        assert(name.len() >= 3);
        if name.len() == 2 {}
    }
    assert(file_name_of(name) == Some(name));
    assert forall|j: int| i < j < name.len() implies name[j] != '.' by {
        assert(name[j] == ext[j - i - 1]);
        if ext[j - i - 1] == '.' {
            assert(ext.contains('.'));
        }
    }
    crate::text::lemma_last_pos_at(name, '.', i);
    assert(name.skip(i + 1) =~= ext);
    assert(extension_of(name) == Some(ext));
}

proof fn lemma_stored_ext_no_slash(filename: Seq<char>)
    ensures
        !stored_ext(filename).contains('/'),
{
    reveal_strlit("bin");
    let segs = split_by(filename, '/');
    lemma_split_by_pieces(filename, '/');
    lemma_last_named_member(segs);
    match file_name_of(filename) {
        Some(n) => {
            let k = choose|k: int| 0 <= k < segs.len() && segs[k] == n;
            assert(!segs[k].contains('/'));
            match extension_of(n) {
                Some(e) => {
                    if e.len() > 0 {
                        let i = last_pos(n, '.')->0;
                        lemma_last_pos_bounds(n, '.');
                        assert(!e.contains('/')) by {
                            if e.contains('/') {
                                let j = choose|j: int| 0 <= j < e.len() && e[j] == '/';
                                assert(n[i + 1 + j] == '/');
                            }
                        }
                    }
                },
                None => {},
            }
        },
        None => {},
    }
}


proof fn lemma_no_char_in_part(whole: Seq<char>, a: Seq<char>, b: Seq<char>, c: Seq<char>, x: char)
    requires
        a + b + c == whole,
        !whole.contains(x),
    ensures
        !a.contains(x),
        !b.contains(x),
        !c.contains(x),
{
    if a.contains(x) {
        let j = choose|j: int| 0 <= j < a.len() && a[j] == x;
        assert(whole[j] == a[j]);
    }
    if b.contains(x) {
        let j = choose|j: int| 0 <= j < b.len() && b[j] == x;
        assert(whole[a.len() + j] == b[j]);
    }
    if c.contains(x) {
        let j = choose|j: int| 0 <= j < c.len() && c[j] == x;
        assert(whole[a.len() + b.len() + j] == c[j]);
    }
}

/// A stored file written as its URL reads back as the same file.
pub proof fn lemma_url_roundtrip(f: FileModel)
    requires
        url_safe(f),
    ensures
        parse_chat_file(url_of(f)) == Ok::<FileModel, (ErrorKind, Seq<char>)>(f),
{
    let p = hash_parts(f.hash);
    lemma_hash_parts(f.hash);
    lemma_no_char_in_part(f.hash, p.0, p.1, p.2, '/');
    lemma_parse_decimal(f.ws_id);
    let dec = decimal(f.ws_id as nat);
    let tail = p.2 + seq!['.'] + f.ext;
    let u = url_of(f);
    let rel = relative_path(f);
    assert(u.subrange(0, 7) =~= files_prefix());
    assert(u.skip(7) =~= rel);
    assert(!tail.contains('/')) by {
        if tail.contains('/') {
            let j = choose|j: int| 0 <= j < tail.len() && tail[j] == '/';
            if j < p.2.len() {
                assert(p.2[j] == '/');
            } else if j > p.2.len() {
                assert(f.ext[j - p.2.len() - 1] == '/');
            }
        }
    }
    let a1 = dec;
    let a2 = a1 + seq!['/'] + p.0;
    let a3 = a2 + seq!['/'] + p.1;
    assert(rel =~= a3 + seq!['/'] + tail);
    lemma_split_by_absent(a1, '/');
    lemma_split_by_append(a1, '/', p.0);
    lemma_split_by_append(a2, '/', p.1);
    lemma_split_by_append(a3, '/', tail);
    let parts = split_by(rel, '/');
    assert(parts =~= seq![dec, p.0, p.1, tail]);
    assert(tail[p.2.len() as int] == '.');
    assert forall|j: int| 0 <= j < p.2.len() implies tail[j] != '.' by {
        assert(tail[j] == p.2[j]);
        assert(!p.2.contains('.'));
    }
    lemma_first_pos_at(tail, '.', p.2.len() as int);
    assert(tail.take(p.2.len() as int) =~= p.2);
    assert(tail.skip(p.2.len() as int + 1) =~= f.ext);
}

/// An upload whose name has no extension is stored as `bin`: a plain name
/// without a dot, or one whose only dot starts it.
pub proof fn lemma_stored_ext_default(name: Seq<char>)
    requires
        name.len() > 0,
        !name.contains('/'),
        name != seq!['.'],
        name != seq!['.', '.'],
        forall|j: int| 0 < j < name.len() ==> name[j] != '.',
    ensures
        stored_ext(name) == "bin"@,
{
    crate::text::lemma_split_by_absent(name, '/');
    let segs = split_by(name, '/');
    assert(segs.last() == name);
    assert(last_named(segs) == Some(name));
    assert(file_name_of(name) == Some(name));
    if name[0] == '.' {
        crate::text::lemma_last_pos_at(name, '.', 0);
    } else {
        crate::text::lemma_last_pos_none(name, '.');
    }
}

} // verus!
