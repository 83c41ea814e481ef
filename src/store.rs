use vstd::prelude::*;

use crate::digest::{blake3_hex, blake3_hex_of, is_lower_hex_digit, TOKEN_LEN};
use crate::model::{App, AppConfig, AppError, AppId, AppResult};
use crate::naming::{
    app_file_name, app_file_names, file_name_spec, id_spec, is_id_suffix, is_slug, new_id,
    select_app_files, slug_of, views,
};

verus! {

/// The path of a file name inside a directory, as `std::path::Path::join`
/// forms it.
pub uninterp spec fn joined_path(dir: Seq<char>, name: Seq<char>) -> Seq<char>;

/// Relies on `std::path::Path::join`: the path depends on its two parts alone.
#[verifier::external_body]
fn join_path(dir: &str, name: &str) -> (r: String)
    ensures
        r@ == joined_path(dir@, name@),
{
    std::path::Path::new(dir).join(name).to_string_lossy().into_owned()
}

/// A record staged for writing to `filename`.
#[derive(Debug)]
pub struct PendingWrite {
    pub filename: String,
    pub config: AppConfig,
}

/// The store of App documents kept in one directory.
///
/// Every operation re-reads the directory: the store holds no document in
/// memory. The functions here decide, from what the filesystem and the codec
/// reported, what the operation returns and what is to be written.
pub struct FileAppService {
    config_dir: String,
}

impl View for FileAppService {
    type V = Seq<char>;

    closed spec fn view(&self) -> Seq<char> {
        self.config_dir@
    }
}

/// `app` is the document read from `filename`, whose bytes `bytes` decoded
/// to `config`.
pub open spec fn is_loaded(app: App, filename: String, bytes: Seq<u8>, config: AppConfig) -> bool {
    &&& app.id == config.id
    &&& app.name == config.name
    &&& app.envs == config.envs
    &&& app.datasets == config.datasets
    &&& app.pipelines == config.pipelines
    &&& app.filename == filename
    &&& app.etag@ == blake3_hex(bytes)
}

/// What `get` returns once the bytes of `filename` were read and the codec
/// reported `decoded` for them.
pub open spec fn decode_outcome(
    filename: String,
    bytes: Seq<u8>,
    decoded: Result<AppConfig, String>,
    r: AppResult<App>,
) -> bool {
    match decoded {
        Ok(config) => r is Ok && is_loaded(r->Ok_0, filename, bytes, config),
        Err(cause) => r == Err::<App, AppError>(
            AppError::ValidationError { filename, source: cause },
        ),
    }
}

/// What `get` returns for `filename`, given what reading the file reported:
/// its bytes and what the codec made of them, or the cause of the failure.
pub open spec fn get_outcome(
    filename: String,
    read: Result<(Seq<u8>, Result<AppConfig, String>), String>,
    r: AppResult<App>,
) -> bool {
    match read {
        Err(cause) => r == Err::<App, AppError>(AppError::FileIoError { filename, source: cause }),
        Ok((bytes, decoded)) => decode_outcome(filename, bytes, decoded, r),
    }
}

/// The views of what a read and its decoding reported.
pub open spec fn fetched_view(read: Result<(Vec<u8>, Result<AppConfig, String>), String>) -> Result<
    (Seq<u8>, Result<AppConfig, String>),
    String,
> {
    match read {
        Ok((bytes, decoded)) => Ok((bytes@, decoded)),
        Err(cause) => Err(cause),
    }
}

/// The record of `app` without its file name and token.
pub open spec fn record_of(app: App) -> AppConfig {
    AppConfig {
        id: app.id,
        name: app.name,
        envs: app.envs,
        datasets: app.datasets,
        pipelines: app.pipelines,
    }
}

/// The views of a read outcome.
pub open spec fn read_view(read: Result<Vec<u8>, String>) -> Result<Seq<u8>, String> {
    match read {
        Ok(b) => Ok(b@),
        Err(cause) => Err(cause),
    }
}

/// What the conflict check of `update` decides, given what reading the
/// document's file reported.
pub open spec fn update_check(app: App, current: Result<Seq<u8>, String>) -> AppResult<PendingWrite> {
    match current {
        Err(cause) => Err(AppError::FileIoError { filename: app.filename, source: cause }),
        Ok(bytes) => token_check(app, blake3_hex(bytes)),
    }
}

/// The token comparison of `update`: the record to write when the caller
/// presents `current`, the token of the file's bytes now, and a conflict
/// naming the file otherwise.
pub open spec fn token_check(app: App, current: Seq<char>) -> AppResult<PendingWrite> {
    if app.etag@ == current {
        Ok(PendingWrite { filename: app.filename, config: record_of(app) })
    } else {
        Err(AppError::Conflict { filename: app.filename })
    }
}

/// What `update` returns once the staged record `w`, encoded as `bytes`,
/// was written or not: the document with the token of the bytes written, or
/// a file I/O error.
pub open spec fn update_outcome(
    w: PendingWrite,
    bytes: Seq<u8>,
    written: Result<(), String>,
    r: AppResult<App>,
) -> bool {
    match written {
        Ok(()) => r is Ok && is_loaded(r->Ok_0, w.filename, bytes, w.config),
        Err(cause) => r == Err::<App, AppError>(
            AppError::FileIoError { filename: w.filename, source: cause },
        ),
    }
}

/// What `delete` returns, given what removing the file reported.
pub open spec fn delete_outcome(filename: String, removed: Result<(), String>) -> AppResult<()> {
    match removed {
        Ok(()) => Ok(()),
        Err(cause) => Err(AppError::FileIoError { filename, source: cause }),
    }
}

/// `w` is the record that `create` writes for a document named `name` with
/// identifier `id`: no environments, datasets or pipelines.
pub open spec fn is_new_record(w: PendingWrite, name: String, id: AppId) -> bool {
    &&& w.filename@ == file_name_spec(id.0@)
    &&& w.config.id == id
    &&& w.config.name == name
    &&& w.config.envs@.len() == 0
    &&& w.config.datasets@.len() == 0
    &&& w.config.pipelines@.len() == 0
}

impl FileAppService {
    pub fn new(config_dir: &str) -> (r: Self)
        ensures
            r@ == config_dir@,
    {
        FileAppService { config_dir: config_dir.to_owned() }
    }

    /// The store's directory.
    pub fn config_dir(&self) -> (r: &String)
        ensures
            r@ == self@,
    {
        &self.config_dir
    }

    /// The path of `filename` in the store's directory.
    pub fn get_path(&self, filename: &str) -> (r: String)
        ensures
            r@ == joined_path(self@, filename@),
    {
        join_path(self.config_dir.as_str(), filename)
    }

    /// A fresh identifier for a document named `name`.
    pub fn generate_id(&self, name: &str) -> (r: AppId)
        ensures
            exists|suffix: Seq<char>| is_id_suffix(suffix) && r.0@ == id_spec(name@, suffix),
            is_slug(slug_of(name@)),
    {
        new_id(name)
    }

    /// The concurrency token of `bytes`.
    pub fn calculate_etag(&self, bytes: &[u8]) -> (r: String)
        ensures
            r@ == blake3_hex(bytes@),
            r@.len() == TOKEN_LEN,
            forall|i: int| 0 <= i < r@.len() ==> is_lower_hex_digit(#[trigger] r@[i]),
    {
        blake3_hex_of(bytes)
    }

    /// The record a new document named `name` with identifier `id` starts as,
    /// and the file it goes to.
    pub fn new_record(name: String, id: AppId) -> (r: PendingWrite)
        ensures
            is_new_record(r, name, id),
    {
        let filename = app_file_name(&id);
        PendingWrite {
            filename,
            config: AppConfig {
                id,
                name,
                envs: Vec::new(),
                datasets: Vec::new(),
                pipelines: Vec::new(),
            },
        }
    }

    /// The record `create` writes for a document named `name`, under a fresh
    /// identifier.
    pub fn create_record(&self, name: String) -> (r: PendingWrite)
        ensures
            exists|id: AppId, suffix: Seq<char>|
                is_id_suffix(suffix) && id.0@ == id_spec(name@, suffix) && is_new_record(
                    r,
                    name,
                    id,
                ),
    {
        let id = self.generate_id(name.as_str());
        FileAppService::new_record(name, id)
    }

    /// The bytes to write, or the internal error when the codec could not
    /// encode the record.
    pub fn encoded(encoded: Result<Vec<u8>, String>) -> (r: AppResult<Vec<u8>>)
        ensures
            r == match encoded {
                Ok(bytes) => Ok::<Vec<u8>, AppError>(bytes),
                Err(cause) => Err(AppError::Internal { source: cause }),
            },
    {
        match encoded {
            Ok(bytes) => Ok(bytes),
            Err(cause) => Err(AppError::Internal { source: cause }),
        }
    }

    /// What `create` does once the new record's write was attempted: on
    /// success the file name to read the document back from, otherwise an
    /// internal error.
    pub fn created(w: PendingWrite, written: Result<(), String>) -> (r: AppResult<String>)
        ensures
            r == match written {
                Ok(()) => Ok::<String, AppError>(w.filename),
                Err(cause) => Err(AppError::Internal { source: cause }),
            },
    {
        match written {
            Ok(()) => Ok(w.filename),
            Err(cause) => Err(AppError::Internal { source: cause }),
        }
    }

    /// The document read from `filename`, given the bytes read and what the
    /// codec made of them. The token is the digest of exactly those bytes.
    pub fn app_from_bytes(filename: String, bytes: &[u8], decoded: Result<AppConfig, String>) -> (r:
        AppResult<App>)
        ensures
            decode_outcome(filename, bytes@, decoded, r),
    {
        match decoded {
            Ok(config) => {
                let etag = blake3_hex_of(bytes);
                Ok(
                    App {
                        id: config.id,
                        name: config.name,
                        envs: config.envs,
                        datasets: config.datasets,
                        pipelines: config.pipelines,
                        etag,
                        filename,
                    },
                )
            },
            Err(cause) => Err(AppError::ValidationError { filename, source: cause }),
        }
    }

    /// What `get` returns for `filename`, given what reading its file
    /// reported: the bytes read with what the codec made of them, or the cause
    /// of the failure. A missing or unreadable file is a file I/O error; bytes
    /// that do not decode are a validation error.
    pub fn get(filename: String, read: Result<(Vec<u8>, Result<AppConfig, String>), String>) -> (r:
        AppResult<App>)
        ensures
            get_outcome(filename, fetched_view(read), r),
    {
        match read {
            Err(cause) => Err(AppError::FileIoError { filename, source: cause }),
            Ok((bytes, decoded)) => FileAppService::app_from_bytes(filename, bytes.as_slice(), decoded),
        }
    }

    /// The conflict check of `update`: the document's file must exist and its
    /// current bytes must have the token the caller presents. On success the
    /// record to write, stripped of file name and token.
    ///
    /// The check and the write that follows are two steps, not one atomic
    /// compare-and-swap: two updates that both pass the check before either
    /// writes both succeed, and the last write wins. Callers that need updates
    /// of one file serialised must hold a lock of their own around them.
    pub fn check_update(app: App, current: Result<Vec<u8>, String>) -> (r: AppResult<PendingWrite>)
        ensures
            r == update_check(app, read_view(current)),
    {
        match current {
            Err(cause) => Err(AppError::FileIoError { filename: app.filename, source: cause }),
            Ok(bytes) => {
                let token = blake3_hex_of(bytes.as_slice());
                FileAppService::check_token(app, &token)
            },
        }
    }

    /// The token comparison of `update`, given the token of the file's
    /// current bytes: the record to write, stripped of file name and token,
    /// when the caller's token equals it, and a conflict naming the file
    /// otherwise.
    pub fn check_token(app: App, current: &String) -> (r: AppResult<PendingWrite>)
        ensures
            r == token_check(app, current@),
    {
        if app.etag == *current {
            Ok(
                PendingWrite {
                    filename: app.filename,
                    config: AppConfig {
                        id: app.id,
                        name: app.name,
                        envs: app.envs,
                        datasets: app.datasets,
                        pipelines: app.pipelines,
                    },
                },
            )
        } else {
            Err(AppError::Conflict { filename: app.filename })
        }
    }

    /// What `update` returns once the staged record, encoded as `bytes`, was
    /// written or not: the document with the token of the bytes written.
    pub fn updated(w: PendingWrite, bytes: &[u8], written: Result<(), String>) -> (r: AppResult<App>)
        ensures
            update_outcome(w, bytes@, written, r),
    {
        match written {
            Ok(()) => FileAppService::app_from_bytes(w.filename, bytes, Ok(w.config)),
            Err(cause) => Err(AppError::FileIoError { filename: w.filename, source: cause }),
        }
    }

    /// What `delete` returns, given what removing the file reported. Removing
    /// an absent file fails: delete is not idempotent.
    pub fn delete(filename: String, removed: Result<(), String>) -> (r: AppResult<()>)
        ensures
            r == delete_outcome(filename, removed),
    {
        match removed {
            Ok(()) => Ok(()),
            Err(cause) => Err(AppError::FileIoError { filename, source: cause }),
        }
    }

    /// What `list` returns for the document files it read, each with what
    /// reading it reported: one result per file, in the same order, each what
    /// `get` returns for that file. A file that cannot be read or decoded is
    /// reported in its place and does not fail the others.
    pub fn list_results(
        reads: Vec<(String, Result<(Vec<u8>, Result<AppConfig, String>), String>)>,
    ) -> (r: Vec<AppResult<App>>)
        ensures
            r@.len() == reads@.len(),
            forall|i: int|
                0 <= i < reads@.len() ==> get_outcome(
                    reads@[i].0,
                    fetched_view(reads@[i].1),
                    #[trigger] r@[i],
                ),
    {
        let mut rest = reads;
        let mut out: Vec<AppResult<App>> = Vec::new();
        while rest.len() > 0
            invariant
                out@.len() + rest@.len() == reads@.len(),
                rest@ == reads@.subrange(out@.len() as int, reads@.len() as int),
                forall|i: int|
                    0 <= i < out@.len() ==> get_outcome(
                        reads@[i].0,
                        fetched_view(reads@[i].1),
                        #[trigger] out@[i],
                    ),
            decreases rest@.len(),
        {
            let ghost k = out@.len() as int;
            let (filename, read) = rest.remove(0);
            assert(reads@[k] == (filename, read));
            let r = FileAppService::get(filename, read);
            out.push(r);
            assert(rest@ =~= reads@.subrange(out@.len() as int, reads@.len() as int));
        }
        out
    }

    /// The file names `list` reads, given the directory's entry names: those
    /// that match the document pattern, in directory order. A directory that
    /// could not be read fails the whole listing.
    pub fn list(entries: Result<Vec<String>, String>) -> (r: AppResult<Vec<String>>)
        ensures
            match entries {
                Ok(names) => r is Ok && views(r->Ok_0@) == app_file_names(views(names@)),
                Err(cause) => r == Err::<Vec<String>, AppError>(AppError::Internal { source: cause }),
            },
    {
        match entries {
            Ok(names) => Ok(select_app_files(&names)),
            Err(cause) => Err(AppError::Internal { source: cause }),
        }
    }
}

} // verus!
