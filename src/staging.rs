use vstd::prelude::*;

use base64::Engine;

use crate::error::ErrorKind;

verus! {

/// The working directory used when the host configures none.
pub const DEFAULT_WORKING_DIR: &'static str = "temp";

/// The confirmation returned once a document has been staged.
pub const STAGED_CONFIRMATION: &'static str = "PDF processed successfully";

/// The bytes that standard base64 (with padding) decodes `text` into, or
/// `None` where `text` is not valid standard base64.
pub uninterp spec fn base64_decoded(text: Seq<char>) -> Option<Seq<u8>>;

#[verifier::external_type_specification]
#[verifier::external_body]
pub struct ExDecodeError(base64::DecodeError);

/// Relies on base64's `Engine::decode` with the `STANDARD` engine: it succeeds
/// exactly on valid standard base64 and then yields the decoded bytes.
#[verifier::external_body]
fn decode_base64(text: &str) -> (r: Result<Vec<u8>, base64::DecodeError>)
    ensures
        r is Ok <==> base64_decoded(text@) is Some,
        r is Ok ==> base64_decoded(text@) == Some(r->Ok_0@),
{
    base64::engine::general_purpose::STANDARD.decode(text)
}

/// Relies on the `Display` impl of base64's `DecodeError` for a readable text.
#[verifier::external_body]
fn describe_decode_error(e: &base64::DecodeError) -> (r: String) {
    e.to_string()
}

/// A character that separates path components on some platform.
pub open spec fn is_separator(c: char) -> bool {
    c == '/' || c == '\\'
}

/// A file name that names one entry directly inside the working directory:
/// not empty, not `.` or `..`, and free of path separators.
pub open spec fn safe_filename(name: Seq<char>) -> bool {
    &&& name.len() > 0
    &&& name != seq!['.']
    &&& name != seq!['.', '.']
    &&& forall|i: int| 0 <= i < name.len() ==> !is_separator(#[trigger] name[i])
}

/// The path of file `name` inside directory `dir`.
pub open spec fn staged_path(dir: Seq<char>, name: Seq<char>) -> Seq<char> {
    if dir.len() == 0 {
        name
    } else if is_separator(dir.last()) {
        dir + name
    } else {
        dir + seq!['/'] + name
    }
}

/// Why a payload cannot be staged.
#[derive(Debug, Clone, Copy, PartialEq, Eq, Structural)]
pub enum StageFault {
    /// The payload is not valid base64.
    Malformed,
    /// The file name is not safe.
    UnsafeName,
}

/// What staging `content` under `name` in `dir` comes to: the path and the
/// bytes to write, or the fault. A malformed payload is reported before a bad
/// name.
pub open spec fn stage_spec(dir: Seq<char>, content: Seq<char>, name: Seq<char>) -> Result<
    (Seq<char>, Seq<u8>),
    StageFault,
> {
    match base64_decoded(content) {
        None => Err(StageFault::Malformed),
        Some(bytes) => if safe_filename(name) {
            Ok((staged_path(dir, name), bytes))
        } else {
            Err(StageFault::UnsafeName)
        },
    }
}

/// The working area's files, path to contents, once a staging outcome has
/// been carried out: a planned write replaces the file, a fault writes nothing.
pub open spec fn files_after(
    files: Map<Seq<char>, Seq<u8>>,
    outcome: Result<(Seq<char>, Seq<u8>), StageFault>,
) -> Map<Seq<char>, Seq<u8>> {
    match outcome {
        Ok((path, bytes)) => files.insert(path, bytes),
        Err(_) => files,
    }
}

/// Staging valid base64 under a name free of path separators (and not empty,
/// `.` or `..`) succeeds, and afterwards the file at the staged path holds
/// exactly the decoded bytes.
pub proof fn lemma_valid_payload_is_staged(
    files: Map<Seq<char>, Seq<u8>>,
    dir: Seq<char>,
    content: Seq<char>,
    name: Seq<char>,
)
    requires
        base64_decoded(content) is Some,
        safe_filename(name),
    ensures
        stage_spec(dir, content, name) is Ok,
        files_after(files, stage_spec(dir, content, name)).contains_key(staged_path(dir, name)),
        Some(files_after(files, stage_spec(dir, content, name))[staged_path(dir, name)])
            == base64_decoded(content),
{
}

/// Staging a payload that is not valid base64 fails as malformed, whatever the
/// name, and leaves every file as it was.
pub proof fn lemma_malformed_payload_writes_nothing(
    files: Map<Seq<char>, Seq<u8>>,
    dir: Seq<char>,
    content: Seq<char>,
    name: Seq<char>,
)
    requires
        base64_decoded(content) is None,
    ensures
        stage_spec(dir, content, name) == Err::<(Seq<char>, Seq<u8>), StageFault>(
            StageFault::Malformed,
        ),
        files_after(files, stage_spec(dir, content, name)) == files,
{
}

/// Staging twice under the same name leaves the second payload on disk.
pub proof fn lemma_second_stage_overwrites(
    files: Map<Seq<char>, Seq<u8>>,
    dir: Seq<char>,
    first: Seq<char>,
    second: Seq<char>,
    name: Seq<char>,
)
    requires
        base64_decoded(first) is Some,
        base64_decoded(second) is Some,
        safe_filename(name),
    ensures
        Some(
            files_after(
                files_after(files, stage_spec(dir, first, name)),
                stage_spec(dir, second, name),
            )[staged_path(dir, name)],
        ) == base64_decoded(second),
{
}

/// A decoded document together with the path it is to be written to.
#[derive(Debug)]
pub struct StagedFile {
    pub path: String,
    pub bytes: Vec<u8>,
}

/// Stages documents in one working directory.
#[derive(Debug)]
pub struct StagingService {
    pub working_dir: String,
}

/// Tells whether `name` is a safe file name.
pub fn is_safe_filename(name: &str) -> (r: bool)
    ensures
        r == safe_filename(name@),
{
    let n = name.unicode_len();
    if n == 0 {
        return false;
    }
    let first = name.get_char(0);
    if n == 1 && first == '.' {
        proof {
            assert(name@ =~= seq!['.']);
        }
        return false;
    }
    if n == 2 && first == '.' && name.get_char(1) == '.' {
        proof {
            assert(name@ =~= seq!['.', '.']);
        }
        return false;
    }
    let mut i: usize = 0;
    while i < n
        invariant
            n == name@.len(),
            i <= n,
            forall|j: int| 0 <= j < i ==> !is_separator(#[trigger] name@[j]),
        decreases n - i,
    {
        let c = name.get_char(i);
        if c == '/' || c == '\\' {
            return false;
        }
        i = i + 1;
    }
    true
}

impl StagingService {
    /// A service that stages into `working_dir`.
    pub fn new(working_dir: String) -> (r: Self)
        ensures
            r.working_dir@ == working_dir@,
    {
        StagingService { working_dir }
    }

    /// A service that stages into the conventional `temp` directory.
    pub fn in_default_dir() -> (r: Self)
        ensures
            r.working_dir@ == DEFAULT_WORKING_DIR@,
    {
        StagingService { working_dir: String::from_str(DEFAULT_WORKING_DIR) }
    }

    /// The path that file `name` would have in the working directory.
    pub fn target_path(&self, name: &str) -> (r: String)
        ensures
            r@ == staged_path(self.working_dir@, name@),
    {
        let n = self.working_dir.as_str().unicode_len();
        if n == 0 {
            return String::from_str(name);
        }
        let last = self.working_dir.as_str().get_char(n - 1);
        let mut path = self.working_dir.clone();
        if last != '/' && last != '\\' {
            path.append("/");
            proof {
                reveal_strlit("/");
            }
        }
        path.append(name);
        proof {
            assert(self.working_dir@.last() == last);
        }
        path
    }

    /// Decodes `content` and fixes where it is to be written as `name`.
    ///
    /// Nothing is touched on disk: the caller creates the working directory
    /// if needed and writes the returned bytes to the returned path.
    pub fn prepare(&self, content: &str, name: &str) -> (r: Result<StagedFile, ErrorKind>)
        ensures
            match stage_spec(self.working_dir@, content@, name@) {
                Ok((path, bytes)) => r is Ok && r->Ok_0.path@ == path && r->Ok_0.bytes@ == bytes,
                Err(StageFault::Malformed) => r is Err && r->Err_0 is Decode,
                Err(StageFault::UnsafeName) => r is Err && r->Err_0 is InvalidFilename
                    && r->Err_0->InvalidFilename_0@ == name@,
            },
    {
        match decode_base64(content) {
            Err(e) => Err(ErrorKind::Decode(describe_decode_error(&e))),
            Ok(bytes) => {
                if !is_safe_filename(name) {
                    return Err(ErrorKind::InvalidFilename(String::from_str(name)));
                }
                let path = self.target_path(name);
                Ok(StagedFile { path, bytes })
            },
        }
    }

    /// Reports the outcome of the filesystem work for a prepared file: the
    /// confirmation once the directory exists and the bytes are written, the
    /// filesystem's own description otherwise.
    pub fn finish(&self, written: Result<(), String>) -> (r: Result<String, ErrorKind>)
        ensures
            match written {
                Ok(()) => r is Ok && r->Ok_0@ == STAGED_CONFIRMATION@,
                Err(m) => r is Err && r->Err_0 is Io && r->Err_0->Io_0@ == m@,
            },
    {
        match written {
            Ok(()) => Ok(String::from_str(STAGED_CONFIRMATION)),
            Err(m) => Err(ErrorKind::Io(m)),
        }
    }
}

} // verus!
