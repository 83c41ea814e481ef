//! What holds of the store's operations taken together, over a model of one
//! file name: `None` when no file has that name, `Some(bytes)` when it holds
//! `bytes`.
use vstd::prelude::*;

use crate::digest::blake3_hex;
use crate::model::{App, AppConfig, AppError, AppId, AppResult};
use crate::naming::{
    app_file_names, file_name_spec, is_app_file_name_spec, lemma_app_file_names_push,
};
use crate::store::{
    delete_outcome, get_outcome, is_new_record, update_check, update_outcome, PendingWrite,
};

verus! {

/// A read of a file in `state` yields its bytes when it is present and fails
/// when it is absent.
pub open spec fn read_reports(state: Option<Seq<u8>>, read: Result<Seq<u8>, String>) -> bool {
    match state {
        Some(bytes) => read == Ok::<Seq<u8>, String>(bytes),
        None => read is Err,
    }
}

/// Removing a file in `state` succeeds when it is present and fails when it
/// is absent.
pub open spec fn remove_reports(state: Option<Seq<u8>>, removed: Result<(), String>) -> bool {
    match state {
        Some(_) => removed is Ok,
        None => removed is Err,
    }
}

/// What a `get` of a file in `state` is handed: the failure, or the bytes
/// with what the codec made of them.
pub open spec fn fetch_reports(
    state: Option<Seq<u8>>,
    read: Result<(Seq<u8>, Result<AppConfig, String>), String>,
) -> bool {
    match state {
        Some(bytes) => read is Ok && read->Ok_0.0 == bytes,
        None => read is Err,
    }
}

/// The state of the file named `f` in the directory `fs`.
pub open spec fn file_state(fs: Map<Seq<char>, Seq<u8>>, f: Seq<char>) -> Option<Seq<u8>> {
    if fs.contains_key(f) {
        Some(fs[f])
    } else {
        None
    }
}

/// The directory after an update of `f`: the bytes written replace the
/// file's when the check passed and the write succeeded; otherwise nothing
/// changed.
pub open spec fn after_update(
    fs: Map<Seq<char>, Seq<u8>>,
    f: Seq<char>,
    check: AppResult<PendingWrite>,
    bytes: Seq<u8>,
    written: Result<(), String>,
) -> Map<Seq<char>, Seq<u8>> {
    if check is Ok && written is Ok {
        fs.insert(f, bytes)
    } else {
        fs
    }
}

/// The directory after a removal of `f`: without `f` when the removal
/// succeeded, unchanged otherwise.
pub open spec fn after_delete(
    fs: Map<Seq<char>, Seq<u8>>,
    f: Seq<char>,
    removed: Result<(), String>,
) -> Map<Seq<char>, Seq<u8>> {
    if removed is Ok {
        fs.remove(f)
    } else {
        fs
    }
}

/// Two documents with the same content, file name and token.
pub open spec fn same_document(a: App, b: App) -> bool {
    &&& a.id == b.id
    &&& a.name == b.name
    &&& a.envs == b.envs
    &&& a.datasets == b.datasets
    &&& a.pipelines == b.pipelines
    &&& a.filename == b.filename
    &&& a.etag@ == b.etag@
}

/// Creating a document and reading it back. When the codec decodes the bytes
/// written for a new record back to that record, `get` returns the new
/// document: its identifier and name, no environments, datasets or pipelines,
/// and the token of the bytes written. Reading the same bytes again returns
/// the same content and the same token.
pub proof fn lemma_create_then_get(
    name: String,
    id: AppId,
    w: PendingWrite,
    bytes: Seq<u8>,
    r1: AppResult<App>,
    r2: AppResult<App>,
)
    requires
        is_new_record(w, name, id),
        get_outcome(w.filename, Ok((bytes, Ok(w.config))), r1),
        get_outcome(w.filename, Ok((bytes, Ok(w.config))), r2),
    ensures
        r1 is Ok,
        r2 is Ok,
        r1->Ok_0.id == id,
        r1->Ok_0.name == name,
        r1->Ok_0.filename@ == file_name_spec(id.0@),
        r1->Ok_0.envs@.len() == 0,
        r1->Ok_0.datasets@.len() == 0,
        r1->Ok_0.pipelines@.len() == 0,
        r1->Ok_0.etag@ == blake3_hex(bytes),
        same_document(r1->Ok_0, r2->Ok_0),
{
}

/// An update is accepted exactly when the token presented is the digest of
/// the file's current bytes. Any other token is a conflict that names the
/// document's file and stages nothing to write, so the file keeps its bytes.
/// An update of an absent file is a file I/O error.
pub proof fn lemma_update_token(app: App, state: Option<Seq<u8>>, read: Result<Seq<u8>, String>)
    requires
        read_reports(state, read),
    ensures
        state is Some ==> (update_check(app, read) is Ok <==> app.etag@ == blake3_hex(
            state->Some_0,
        )),
        state is Some && app.etag@ != blake3_hex(state->Some_0) ==> update_check(app, read)
            == Err::<PendingWrite, AppError>(AppError::Conflict { filename: app.filename }),
        state is None ==> (update_check(app, read) matches Err(
            AppError::FileIoError { filename: f, .. },
        ) && f == app.filename),
{
}

/// Deleting and then reading a file name. Once the file was removed, `get`
/// fails with a file I/O error that names it. Deleting an absent file fails
/// with a file I/O error too, and leaves the directory as it was: delete is
/// not idempotent.
pub proof fn lemma_delete_then_get(
    fs: Map<Seq<char>, Seq<u8>>,
    filename: String,
    removed: Result<(), String>,
    read_after: Result<(Seq<u8>, Result<AppConfig, String>), String>,
    r: AppResult<App>,
)
    requires
        remove_reports(file_state(fs, filename@), removed),
        fetch_reports(file_state(after_delete(fs, filename@, removed), filename@), read_after),
        get_outcome(filename, read_after, r),
    ensures
        !after_delete(fs, filename@, removed).contains_key(filename@),
        fs.contains_key(filename@) ==> delete_outcome(filename, removed) == Ok::<(), AppError>(()),
        !fs.contains_key(filename@) ==> (delete_outcome(filename, removed) matches Err(
            AppError::FileIoError { filename: f, .. },
        ) && f == filename),
        !fs.contains_key(filename@) ==> after_delete(fs, filename@, removed) == fs,
        r matches Err(AppError::FileIoError { filename: f, .. }) && f == filename,
{
}

/// An update that presents the token of the file's current bytes, and whose
/// write succeeds, returns the document under the same file name with the
/// token of the bytes now on disk.
pub proof fn lemma_update_accepted(
    fs: Map<Seq<char>, Seq<u8>>,
    app: App,
    read: Result<Seq<u8>, String>,
    bytes: Seq<u8>,
    r: AppResult<App>,
)
    requires
        read_reports(file_state(fs, app.filename@), read),
        fs.contains_key(app.filename@),
        app.etag@ == blake3_hex(fs[app.filename@]),
        update_check(app, read) is Ok ==> update_outcome(update_check(app, read)->Ok_0, bytes, Ok(()), r),
    ensures
        update_check(app, read) is Ok,
        r is Ok,
        r->Ok_0.filename == app.filename,
        after_update(fs, app.filename@, update_check(app, read), bytes, Ok(())).contains_key(
            app.filename@,
        ),
        r->Ok_0.etag@ == blake3_hex(
            after_update(fs, app.filename@, update_check(app, read), bytes, Ok(()))[app.filename@],
        ),
{
}

/// An update that presents any token but that of the file's current bytes
/// is a conflict naming the file, and every file keeps its bytes. This holds
/// of a stale token too: once another update wrote bytes whose digest is not
/// that token, the token is refused.
pub proof fn lemma_update_conflict_keeps_files(
    fs: Map<Seq<char>, Seq<u8>>,
    app: App,
    read: Result<Seq<u8>, String>,
    bytes: Seq<u8>,
    written: Result<(), String>,
)
    requires
        read_reports(file_state(fs, app.filename@), read),
        fs.contains_key(app.filename@),
        app.etag@ != blake3_hex(fs[app.filename@]),
    ensures
        update_check(app, read) == Err::<PendingWrite, AppError>(
            AppError::Conflict { filename: app.filename },
        ),
        after_update(fs, app.filename@, update_check(app, read), bytes, written) == fs,
{
}

/// Listing reads exactly the directory's entries that match the document
/// pattern: every name it reads is such an entry, and every such entry is
/// read. An entry that does not match never appears.
pub proof fn lemma_list_selects(names: Seq<Seq<char>>, n: Seq<char>)
    ensures
        app_file_names(names).contains(n) <==> (names.contains(n) && is_app_file_name_spec(n)),
        app_file_names(names).len() <= names.len(),
    decreases names.len(),
{
    if names.len() == 0 {
        reveal(Seq::filter);
        assert(app_file_names(names) =~= Seq::<Seq<char>>::empty());
    } else {
        let pre = names.drop_last();
        let x = names.last();
        assert(names =~= pre.push(x));
        lemma_app_file_names_push(pre, x);
        lemma_list_selects(pre, n);
        if names.contains(n) && !pre.contains(n) {
            let i = choose|i: int| 0 <= i < names.len() && names[i] == n;
            if i < pre.len() {
                assert(pre[i] == n);
            }
        }
        if pre.contains(n) {
            let i = choose|i: int| 0 <= i < pre.len() && pre[i] == n;
            assert(names[i] == n);
        }
        if is_app_file_name_spec(x) {
            let f = app_file_names(pre);
            if f.contains(n) {
                let i = choose|i: int| 0 <= i < f.len() && f[i] == n;
                assert(f.push(x)[i] == n);
            }
            if f.push(x).contains(n) && n != x {
                let i = choose|i: int| 0 <= i < f.push(x).len() && f.push(x)[i] == n;
                assert(f[i] == n);
            }
            assert(f.push(x)[f.len() as int] == x);
        }
    }
}

} // verus!
