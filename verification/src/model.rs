//! What the store guarantees, stated on a model of the storage directory.
//!
//! The directory is modelled as a map from paths to the bytes of the entries.
//! Uploads and downloads are run against a directory that carries out every
//! operation faithfully and without failure, so that a lookup fails exactly
//! when the entry is missing.

use crate::digest::{content_id, is_content_id, lemma_hex_lower_injective, sha256_digest};
use crate::error::{ErrorView, SIZE_LIMIT_MESSAGE};
use crate::http::{
    disposition_of, download_response_view, error_response_view, upload_start, ResponseView,
    Status, UploadView, CONTENT_DISPOSITION,
};
use crate::layout::{
    content_path, lemma_content_path_injective, lemma_name_path_injective,
    lemma_name_path_is_no_content_path, lemma_own_paths_differ, name_path,
};
use crate::store::{
    get_outcome, put_next, put_start, write_name, PutView, StepView, StoreOpView,
    StoredObjectView, MAX_FILE_SIZE, UNKNOWN_NAME,
};
use vstd::prelude::*;
use vstd::utf8::{
    decode_utf8, encode_utf8, encode_utf8_decode_utf8, encode_utf8_valid_utf8, valid_utf8,
};

verus! {

/// The entries of the storage directory: the bytes held under each path.
pub type Files = Map<Seq<char>, Seq<u8>>;

/// The directory after `op` has been carried out. Only a write changes it.
pub open spec fn after(files: Files, op: StoreOpView) -> Files {
    match op {
        StoreOpView::EnsureDir { path } => files,
        StoreOpView::Stat { path } => files,
        StoreOpView::Write { path, data } => files.insert(path, data),
    }
}

/// What the directory reports for `op`: looking up a missing entry fails,
/// with the description `note`; everything else succeeds.
pub open spec fn answer(files: Files, op: StoreOpView, note: Seq<char>) -> Result<(), Seq<char>> {
    match op {
        StoreOpView::Stat { path } => if files.contains_key(path) {
            Ok(())
        } else {
            Err(note)
        },
        _ => Ok(()),
    }
}

/// Carries out up to `rounds` operations of a put against the directory and
/// hands back the directory with the step that was reached.
pub open spec fn run(files: Files, step: StepView, note: Seq<char>, rounds: nat) -> (
    Files,
    StepView,
)
    decreases rounds,
{
    match step {
        StepView::Perform(put, op) => if rounds == 0 {
            (files, step)
        } else {
            run(after(files, op), put_next(put, answer(files, op, note)), note, (rounds - 1) as nat)
        },
        _ => (files, step),
    }
}

/// An upload of `upload`, run to its end: no put takes more than four
/// operations.
pub open spec fn upload(files: Files, upload: UploadView, note: Seq<char>) -> (Files, StepView) {
    run(files, upload_start(upload), note, 4)
}

/// The directory once the object `id`, with bytes `data`, has been put under
/// the name `file_name`: bytes that were there stay, and the name is replaced.
pub open spec fn with_object(
    files: Files,
    id: Seq<char>,
    data: Seq<u8>,
    file_name: Seq<char>,
) -> Files {
    let kept = if files.contains_key(content_path(id)) {
        files
    } else {
        files.insert(content_path(id), data)
    };
    kept.insert(name_path(id), encode_utf8(file_name))
}

/// Reading the content entry of `id`: its bytes, or the failure `note` where
/// there is none.
pub open spec fn read_content(files: Files, id: Seq<char>, note: Seq<char>) -> Result<
    Seq<u8>,
    Seq<char>,
> {
    if files.contains_key(content_path(id)) {
        Ok(files[content_path(id)])
    } else {
        Err(note)
    }
}

/// Reading the name entry of `id` as text: there is none where the entry is
/// missing or does not hold UTF-8.
pub open spec fn read_name(files: Files, id: Seq<char>) -> Option<Seq<char>> {
    if files.contains_key(name_path(id)) && valid_utf8(files[name_path(id)]) {
        Some(decode_utf8(files[name_path(id)]))
    } else {
        None
    }
}

/// A get of `id` against the directory.
pub open spec fn get(files: Files, id: Seq<char>, note: Seq<char>) -> Result<
    StoredObjectView,
    ErrorView,
> {
    get_outcome(read_content(files, id, note), read_name(files, id))
}

/// A download of `id` against the directory.
pub open spec fn download(files: Files, id: Seq<char>, note: Seq<char>) -> ResponseView {
    download_response_view(get(files, id, note))
}

/// A put of at most [`MAX_FILE_SIZE`] bytes ends after at most four
/// operations: the object is stored under the hash of its bytes, the bytes
/// are written only where none were stored, and the name is written always.
pub proof fn law_put_stores(files: Files, data: Seq<u8>, file_name: Seq<char>, note: Seq<char>)
    requires
        data.len() <= MAX_FILE_SIZE,
    ensures
        run(files, put_start(data, file_name), note, 4) == (
            with_object(files, content_id(data), data, file_name),
            StepView::Stored(content_id(data)),
        ),
{
    let id = content_id(data);
    reveal_with_fuel(run, 5);
    if files.contains_key(content_path(id)) {
        assert(run(files, put_start(data, file_name), note, 4).0 =~= with_object(
            files,
            id,
            data,
            file_name,
        ));
    } else {
        assert(run(files, put_start(data, file_name), note, 4).0 =~= with_object(
            files,
            id,
            data,
            file_name,
        ));
    }
}

/// Round trip: after an upload of `data` under any name, a download of the
/// identifier that the upload returned delivers exactly `data`, under that
/// name.
///
/// This holds where the directory held nothing under the hash of `data`, or
/// held `data` itself: bytes that are stored already are never replaced.
pub proof fn law_round_trip(files: Files, data: Seq<u8>, file_name: Seq<char>, note: Seq<char>)
    requires
        data.len() <= MAX_FILE_SIZE,
        files.contains_key(content_path(content_id(data))) ==> files[content_path(content_id(data))]
            == data,
    ensures
        ({
            let id = content_id(data);
            let (stored, step) = upload(files, UploadView::File { file_name, data }, note);
            &&& step == StepView::Stored(id)
            &&& get(stored, id, note) == Ok::<StoredObjectView, ErrorView>(
                StoredObjectView { content: data, file_name },
            )
            &&& download(stored, id, note).status == Status::Success
            &&& download(stored, id, note).body == data
            &&& download(stored, id, note).headers[1] == (
                CONTENT_DISPOSITION@,
                disposition_of(file_name),
            )
        }),
{
    let id = content_id(data);
    law_put_stores(files, data, file_name, note);
    lemma_own_paths_differ(id);
    encode_utf8_valid_utf8(file_name);
    encode_utf8_decode_utf8(file_name);
}

/// Idempotence: two uploads of the same bytes, under whatever names, return
/// the same identifier. The second upload leaves the stored bytes as the
/// first one left them, and a later download delivers them under the name of
/// the second upload.
pub proof fn law_repeated_upload(
    files: Files,
    data: Seq<u8>,
    first_name: Seq<char>,
    second_name: Seq<char>,
    note: Seq<char>,
)
    requires
        data.len() <= MAX_FILE_SIZE,
    ensures
        ({
            let id = content_id(data);
            let (once, first) = upload(
                files,
                UploadView::File { file_name: first_name, data },
                note,
            );
            let (twice, second) = upload(
                once,
                UploadView::File { file_name: second_name, data },
                note,
            );
            &&& first == StepView::Stored(id)
            &&& second == first
            &&& once.contains_key(content_path(id))
            &&& twice[content_path(id)] == once[content_path(id)]
            &&& get(twice, id, note) == Ok::<StoredObjectView, ErrorView>(
                StoredObjectView { content: once[content_path(id)], file_name: second_name },
            )
            &&& download(twice, id, note).body == download(once, id, note).body
            &&& (files.contains_key(content_path(id)) ==> files[content_path(id)] == data)
                ==> download(twice, id, note).body == data
        }),
{
    let id = content_id(data);
    law_put_stores(files, data, first_name, note);
    let once = with_object(files, id, data, first_name);
    law_put_stores(once, data, second_name, note);
    lemma_own_paths_differ(id);
    encode_utf8_valid_utf8(first_name);
    encode_utf8_decode_utf8(first_name);
    encode_utf8_valid_utf8(second_name);
    encode_utf8_decode_utf8(second_name);
}

/// Stored bytes are never overwritten: a put keeps every entry of the
/// directory as it was, but for the name entry of the object that it stores,
/// and adds at most the two entries of that object.
pub proof fn law_put_keeps_entries(
    files: Files,
    data: Seq<u8>,
    file_name: Seq<char>,
    note: Seq<char>,
)
    requires
        data.len() <= MAX_FILE_SIZE,
    ensures
        ({
            let id = content_id(data);
            let stored = upload(files, UploadView::File { file_name, data }, note).0;
            &&& forall|path: Seq<char>|
                files.contains_key(path) && path != name_path(id) ==> stored.contains_key(path)
                    && #[trigger] stored[path] == files[path]
            &&& forall|path: Seq<char>| #[trigger]
                stored.contains_key(path) ==> files.contains_key(path) || path == content_path(id)
                    || path == name_path(id)
        }),
{
    law_put_stores(files, data, file_name, note);
}

/// The bytes of every object that is stored under a well-formed identifier
/// outlive any later upload, whatever it holds.
pub proof fn law_content_outlives_uploads(
    files: Files,
    other: Seq<char>,
    data: Seq<u8>,
    file_name: Seq<char>,
    note: Seq<char>,
)
    requires
        is_content_id(other),
        files.contains_key(content_path(other)),
        data.len() <= MAX_FILE_SIZE,
    ensures
        ({
            let stored = upload(files, UploadView::File { file_name, data }, note).0;
            read_content(stored, other, note) == read_content(files, other, note)
        }),
{
    law_put_stores(files, data, file_name, note);
    lemma_name_path_is_no_content_path(content_id(data), other);
}

/// Objects do not disturb one another: putting an object leaves every object
/// with another well-formed identifier as it was, bytes and name.
pub proof fn law_objects_are_independent(
    files: Files,
    id: Seq<char>,
    data: Seq<u8>,
    file_name: Seq<char>,
    other: Seq<char>,
    note: Seq<char>,
)
    requires
        is_content_id(id),
        is_content_id(other),
        id != other,
    ensures
        get(with_object(files, id, data, file_name), other, note) == get(files, other, note),
{
    if content_path(id) == content_path(other) {
        lemma_content_path_injective(id, other);
    }
    if name_path(id) == name_path(other) {
        lemma_name_path_injective(id, other);
    }
    lemma_name_path_is_no_content_path(id, other);
    lemma_name_path_is_no_content_path(other, id);
}

/// Identifiers tell objects apart as well as digests do: payloads with equal
/// identifiers have equal digests.
pub proof fn law_id_determines_digest(first: Seq<u8>, second: Seq<u8>)
    ensures
        content_id(first) == content_id(second) ==> sha256_digest(first) == sha256_digest(second),
{
    if content_id(first) == content_id(second) {
        lemma_hex_lower_injective(sha256_digest(first), sha256_digest(second));
    }
}

/// Two puts that take turns on one directory. Each entry of `schedule` lets
/// one of them carry out its next operation: the first where it is `true`,
/// the second where it is `false`. A put that has ended stays as it is.
pub open spec fn interleave(
    files: Files,
    first: StepView,
    second: StepView,
    note: Seq<char>,
    schedule: Seq<bool>,
) -> (Files, StepView, StepView)
    decreases schedule.len(),
{
    if schedule.len() == 0 {
        (files, first, second)
    } else if schedule[0] {
        let (next_files, next) = run(files, first, note, 1);
        interleave(next_files, next, second, note, schedule.drop_first())
    } else {
        let (next_files, next) = run(files, second, note, 1);
        interleave(next_files, first, next, note, schedule.drop_first())
    }
}

/// `step` is one of the steps that a put of `data` under `file_name` passes
/// through when nothing fails.
spec fn on_course(step: StepView, data: Seq<u8>, file_name: Seq<char>) -> bool {
    let id = content_id(data);
    ||| step == put_start(data, file_name)
    ||| step == StepView::Perform(
        PutView::Probing { id, data, file_name },
        StoreOpView::Stat { path: content_path(id) },
    )
    ||| step == StepView::Perform(
        PutView::WritingContent { id, file_name },
        StoreOpView::Write { path: content_path(id), data },
    )
    ||| step == name_written_next(data, file_name)
    ||| step == StepView::Stored(id)
}

/// The step of a put of `data` that writes the name.
spec fn name_written_next(data: Seq<u8>, file_name: Seq<char>) -> StepView {
    let id = content_id(data);
    StepView::Perform(PutView::WritingName { id }, write_name(id, file_name))
}

/// What holds while two puts of the same `data` take turns: the bytes under
/// their identifier are `data` wherever there are any, they are there once
/// one put has got past them, and the name is that of a put that has ended.
spec fn racing(
    files: Files,
    first: StepView,
    second: StepView,
    data: Seq<u8>,
    first_name: Seq<char>,
    second_name: Seq<char>,
) -> bool {
    let id = content_id(data);
    let past_bytes = |step: StepView, file_name: Seq<char>|
        step == name_written_next(data, file_name) || step == StepView::Stored(id);
    &&& data.len() <= MAX_FILE_SIZE
    &&& on_course(first, data, first_name)
    &&& on_course(second, data, second_name)
    &&& files.contains_key(content_path(id)) ==> files[content_path(id)] == data
    &&& past_bytes(first, first_name) || past_bytes(second, second_name) ==> files.contains_key(
        content_path(id),
    )
    &&& first is Stored || second is Stored ==> {
        &&& files.contains_key(name_path(id))
        &&& files[name_path(id)] == encode_utf8(first_name) || files[name_path(id)]
            == encode_utf8(second_name)
    }
}

/// Whatever the turns, two racing puts keep racing.
proof fn lemma_racing_is_kept(
    files: Files,
    first: StepView,
    second: StepView,
    data: Seq<u8>,
    first_name: Seq<char>,
    second_name: Seq<char>,
    note: Seq<char>,
    schedule: Seq<bool>,
)
    requires
        racing(files, first, second, data, first_name, second_name),
    ensures
        ({
            let (end, first_end, second_end) = interleave(files, first, second, note, schedule);
            racing(end, first_end, second_end, data, first_name, second_name)
        }),
    decreases schedule.len(),
{
    if schedule.len() > 0 {
        reveal_with_fuel(run, 2);
        lemma_own_paths_differ(content_id(data));
        if schedule[0] {
            let (next_files, next) = run(files, first, note, 1);
            assert(racing(next_files, next, second, data, first_name, second_name));
            lemma_racing_is_kept(
                next_files,
                next,
                second,
                data,
                first_name,
                second_name,
                note,
                schedule.drop_first(),
            );
        } else {
            let (next_files, next) = run(files, second, note, 1);
            assert(racing(next_files, first, next, data, first_name, second_name));
            lemma_racing_is_kept(
                next_files,
                first,
                next,
                data,
                first_name,
                second_name,
                note,
                schedule.drop_first(),
            );
        }
    }
}

/// Concurrent uploads of the same bytes are harmless. However the operations
/// of the two uploads interleave, once both have ended both have returned
/// the same identifier, a download delivers the uploaded bytes, and it names
/// them as one of the two uploads did: which one depends on the turns.
///
/// As for a single upload, the directory must not hold other bytes under
/// the hash of `data` beforehand.
pub proof fn law_concurrent_uploads(
    files: Files,
    data: Seq<u8>,
    first_name: Seq<char>,
    second_name: Seq<char>,
    note: Seq<char>,
    schedule: Seq<bool>,
)
    requires
        data.len() <= MAX_FILE_SIZE,
        files.contains_key(content_path(content_id(data))) ==> files[content_path(content_id(data))]
            == data,
    ensures
        ({
            let id = content_id(data);
            let (end, first, second) = interleave(
                files,
                put_start(data, first_name),
                put_start(data, second_name),
                note,
                schedule,
            );
            !(first is Perform) && !(second is Perform) ==> {
                &&& first == StepView::Stored(id)
                &&& second == StepView::Stored(id)
                &&& download(end, id, note).status == Status::Success
                &&& download(end, id, note).body == data
                &&& get(end, id, note) matches Ok(object)
                &&& object.file_name == first_name || object.file_name == second_name
            }
        }),
{
    let first = put_start(data, first_name);
    let second = put_start(data, second_name);
    assert(racing(files, first, second, data, first_name, second_name));
    lemma_racing_is_kept(files, first, second, data, first_name, second_name, note, schedule);
    encode_utf8_valid_utf8(first_name);
    encode_utf8_decode_utf8(first_name);
    encode_utf8_valid_utf8(second_name);
    encode_utf8_decode_utf8(second_name);
}

/// Size boundary: a file of up to [`MAX_FILE_SIZE`] bytes is stored, and a
/// file of one byte more is refused with `400` and a fixed message, without
/// any operation on the directory.
pub proof fn law_size_limit(files: Files, data: Seq<u8>, file_name: Seq<char>, note: Seq<char>)
    ensures
        ({
            let (stored, step) = upload(files, UploadView::File { file_name, data }, note);
            &&& data.len() <= MAX_FILE_SIZE ==> step == StepView::Stored(content_id(data))
            &&& data.len() > MAX_FILE_SIZE ==> {
                &&& step == StepView::Failed(ErrorView::SizeLimitExceeded)
                &&& stored == files
                &&& error_response_view(ErrorView::SizeLimitExceeded) == ResponseView {
                    status: Status::BadRequest,
                    headers: Seq::<(Seq<char>, Seq<char>)>::empty(),
                    body: encode_utf8(SIZE_LIMIT_MESSAGE@),
                }
            }
        }),
{
    if data.len() <= MAX_FILE_SIZE {
        law_put_stores(files, data, file_name, note);
    }
}

/// An upload without a file never touches the directory: a body without a
/// field is answered with `400`, an unreadable one with `500` and the cause.
pub proof fn law_upload_without_file(files: Files, cause: Seq<char>, note: Seq<char>)
    ensures
        upload(files, UploadView::NoField, note) == (
            files,
            StepView::Failed(ErrorView::NoFileUploaded),
        ),
        upload(files, UploadView::Unreadable(cause), note) == (
            files,
            StepView::Failed(ErrorView::MultipartParse(cause)),
        ),
        error_response_view(ErrorView::NoFileUploaded).status == Status::BadRequest,
        error_response_view(ErrorView::MultipartParse(cause)).status
            == Status::InternalServerError,
        error_response_view(ErrorView::MultipartParse(cause)).body == encode_utf8(cause),
{
}

/// A download of an identifier under which no bytes are stored is answered
/// with `404` and the description of the failed read.
pub proof fn law_unknown_id(files: Files, id: Seq<char>, note: Seq<char>)
    requires
        !files.contains_key(content_path(id)),
    ensures
        download(files, id, note) == (ResponseView {
            status: Status::NotFound,
            headers: Seq::<(Seq<char>, Seq<char>)>::empty(),
            body: encode_utf8(note),
        }),
{
}

/// A download of an object whose name entry is missing succeeds, and names
/// the object [`UNKNOWN_NAME`].
pub proof fn law_missing_name(files: Files, id: Seq<char>, note: Seq<char>)
    requires
        files.contains_key(content_path(id)),
        !files.contains_key(name_path(id)),
    ensures
        download(files, id, note).status == Status::Success,
        download(files, id, note).body == files[content_path(id)],
        download(files, id, note).headers[1] == (
            CONTENT_DISPOSITION@,
            disposition_of(UNKNOWN_NAME@),
        ),
{
}

} // verus!
