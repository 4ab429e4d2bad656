//! The content store: objects kept under the hash of their bytes.
//!
//! The store never touches the storage directory itself. A put is a short
//! conversation: the store names one operation at a time, the caller carries
//! it out and reports how it went, and the store decides what comes next. A
//! get is decided in one step from the outcome of reading the two entries of
//! the requested object.

use crate::digest::{content_hash, content_id, is_content_id};
use crate::error::{Error, ErrorView};
use crate::layout::{content_path, content_path_of, name_path, name_path_of, UPLOAD_PATH};
use crate::media::text_of;
use vstd::prelude::*;
use vstd::string::*;
use vstd::utf8::encode_utf8;

verus! {

/// The largest number of bytes that one object may hold.
pub const MAX_FILE_SIZE: usize = 1_000_000;

/// The file name reported for an object whose name entry cannot be read.
pub const UNKNOWN_NAME: &'static str = "unknown";

/// One operation on the storage directory that a put asks its caller to
/// carry out. Each of them either succeeds or fails with a description.
#[derive(Debug, PartialEq, Eq)]
pub enum StoreOp {
    /// Create the directory at `path`, with any parents that are missing.
    EnsureDir { path: String },
    /// Look up the entry at `path`; succeeds when there is one.
    Stat { path: String },
    /// Create the entry at `path`, or replace it, so that it holds `data`.
    Write { path: String, data: Vec<u8> },
}

/// A [`StoreOp`] over character and byte sequences.
pub enum StoreOpView {
    EnsureDir { path: Seq<char> },
    Stat { path: Seq<char> },
    Write { path: Seq<char>, data: Seq<u8> },
}

impl View for StoreOp {
    type V = StoreOpView;

    open spec fn view(&self) -> StoreOpView {
        match self {
            StoreOp::EnsureDir { path } => StoreOpView::EnsureDir { path: path@ },
            StoreOp::Stat { path } => StoreOpView::Stat { path: path@ },
            StoreOp::Write { path, data } => StoreOpView::Write { path: path@, data: data@ },
        }
    }
}

/// Where a put stands, with what it still has to write.
#[derive(Debug)]
enum Stage {
    EnsuringDir { id: String, data: Vec<u8>, file_name: String },
    Probing { id: String, data: Vec<u8>, file_name: String },
    WritingContent { id: String, file_name: String },
    WritingName { id: String },
}

/// A put that waits for the outcome of the operation it asked for last.
///
/// The identifier of the object is fixed when the put begins, and always has
/// the shape of a content identifier.
#[derive(Debug)]
pub struct Put {
    stage: Stage,
}

/// The state of a [`Put`]: the operation it waits for, the identifier of the
/// object, and what is still to be written.
pub enum PutView {
    /// Waits for the storage directory to be created.
    EnsuringDir { id: Seq<char>, data: Seq<u8>, file_name: Seq<char> },
    /// Waits to learn whether the bytes are stored already.
    Probing { id: Seq<char>, data: Seq<u8>, file_name: Seq<char> },
    /// Waits for the bytes to be written.
    WritingContent { id: Seq<char>, file_name: Seq<char> },
    /// Waits for the file name to be written.
    WritingName { id: Seq<char> },
}

impl PutView {
    /// The identifier of the object that the put stores.
    pub open spec fn id(self) -> Seq<char> {
        match self {
            PutView::EnsuringDir { id, .. } => id,
            PutView::Probing { id, .. } => id,
            PutView::WritingContent { id, .. } => id,
            PutView::WritingName { id } => id,
        }
    }

    /// The largest number of operations that the put may still ask for,
    /// counting the one it waits for.
    pub open spec fn remaining(self) -> nat {
        match self {
            PutView::EnsuringDir { .. } => 4,
            PutView::Probing { .. } => 3,
            PutView::WritingContent { .. } => 2,
            PutView::WritingName { .. } => 1,
        }
    }
}

impl View for Put {
    type V = PutView;

    closed spec fn view(&self) -> PutView {
        match self.stage {
            Stage::EnsuringDir { id, data, file_name } => PutView::EnsuringDir {
                id: id@,
                data: data@,
                file_name: file_name@,
            },
            Stage::Probing { id, data, file_name } => PutView::Probing {
                id: id@,
                data: data@,
                file_name: file_name@,
            },
            Stage::WritingContent { id, file_name } => PutView::WritingContent {
                id: id@,
                file_name: file_name@,
            },
            Stage::WritingName { id } => PutView::WritingName { id: id@ },
        }
    }
}

/// What a put does next.
#[derive(Debug)]
pub enum Step {
    /// Carry out the operation and hand its outcome to [`Put::advance`].
    Perform(Put, StoreOp),
    /// The object is stored under this identifier.
    Stored(String),
    /// The put has failed; nothing more is to be done.
    Failed(Error),
}

/// A [`Step`] over views.
pub enum StepView {
    Perform(PutView, StoreOpView),
    Stored(Seq<char>),
    Failed(ErrorView),
}

impl View for Step {
    type V = StepView;

    open spec fn view(&self) -> StepView {
        match self {
            Step::Perform(put, op) => StepView::Perform(put@, op@),
            Step::Stored(id) => StepView::Stored(id@),
            Step::Failed(error) => StepView::Failed(error@),
        }
    }
}

/// The outcome of a storage operation: success, or the cause of its failure.
pub open spec fn reply_view(reply: Result<(), String>) -> Result<(), Seq<char>> {
    match reply {
        Ok(_) => Ok(()),
        Err(cause) => Err(cause@),
    }
}

/// The outcome of reading an entry: its bytes, or the cause of the failure.
pub open spec fn read_view(read: Result<Vec<u8>, String>) -> Result<Seq<u8>, Seq<char>> {
    match read {
        Ok(bytes) => Ok(bytes@),
        Err(cause) => Err(cause@),
    }
}

/// The operation that writes `file_name` into the name entry of `id`.
pub open spec fn write_name(id: Seq<char>, file_name: Seq<char>) -> StoreOpView {
    StoreOpView::Write { path: name_path(id), data: encode_utf8(file_name) }
}

/// How a put of `data` under the name `file_name` begins: an oversized
/// payload is refused at once; otherwise the identifier is the hash of the
/// bytes and the storage directory is created first.
pub open spec fn put_start(data: Seq<u8>, file_name: Seq<char>) -> StepView {
    if data.len() > MAX_FILE_SIZE {
        StepView::Failed(ErrorView::SizeLimitExceeded)
    } else {
        StepView::Perform(
            PutView::EnsuringDir { id: content_id(data), data, file_name },
            StoreOpView::EnsureDir { path: UPLOAD_PATH@ },
        )
    }
}

/// How a put goes on once the operation it waited for has ended with `reply`.
///
/// After the directory is there, the content entry is probed. The bytes are
/// written only when the probe finds nothing; the file name is written in
/// either case. A failure to create the directory or to write ends the put
/// with the reported cause.
pub open spec fn put_next(put: PutView, reply: Result<(), Seq<char>>) -> StepView {
    match put {
        PutView::EnsuringDir { id, data, file_name } => match reply {
            Ok(_) => StepView::Perform(
                PutView::Probing { id, data, file_name },
                StoreOpView::Stat { path: content_path(id) },
            ),
            Err(cause) => StepView::Failed(ErrorView::Storage(cause)),
        },
        PutView::Probing { id, data, file_name } => match reply {
            Ok(_) => StepView::Perform(PutView::WritingName { id }, write_name(id, file_name)),
            Err(_) => StepView::Perform(
                PutView::WritingContent { id, file_name },
                StoreOpView::Write { path: content_path(id), data },
            ),
        },
        PutView::WritingContent { id, file_name } => match reply {
            Ok(_) => StepView::Perform(PutView::WritingName { id }, write_name(id, file_name)),
            Err(cause) => StepView::Failed(ErrorView::Storage(cause)),
        },
        PutView::WritingName { id } => match reply {
            Ok(_) => StepView::Stored(id),
            Err(cause) => StepView::Failed(ErrorView::Storage(cause)),
        },
    }
}

/// Begins to store `data` under the name `file_name`. The put is refused
/// exactly when `data` holds more than [`MAX_FILE_SIZE`] bytes; otherwise it
/// asks for its first operation.
pub fn begin_put(data: Vec<u8>, file_name: String) -> (step: Step)
    ensures
        step@ == put_start(data@, file_name@),
        data@.len() > MAX_FILE_SIZE ==> step@ == StepView::Failed(ErrorView::SizeLimitExceeded),
        data@.len() <= MAX_FILE_SIZE ==> step is Perform,
{
    if data.len() > MAX_FILE_SIZE {
        return Step::Failed(Error::SizeLimitExceeded);
    }
    let id = content_hash(data.as_slice());
    let op = StoreOp::EnsureDir { path: String::from_str(UPLOAD_PATH) };
    Step::Perform(Put { stage: Stage::EnsuringDir { id, data, file_name } }, op)
}

/// The step that writes `file_name` into the name entry of `id`.
fn name_step(id: String, file_name: String) -> (step: Step)
    requires
        is_content_id(id@),
    ensures
        step@ == StepView::Perform(PutView::WritingName { id: id@ }, write_name(id@, file_name@)),
{
    let op = StoreOp::Write {
        path: name_path_of(id.as_str()),
        data: file_name.as_str().as_bytes_vec(),
    };
    Step::Perform(Put { stage: Stage::WritingName { id } }, op)
}

impl Put {
    #[verifier::type_invariant]
    spec fn well_formed(self) -> bool {
        is_content_id(self@.id())
    }

    /// Takes the outcome of the operation that this put asked for and says
    /// what comes next.
    ///
    /// A put that goes on has fewer operations left than before, so it ends
    /// after four of them at most. A failure to create the directory or to
    /// write ends it with the reported cause. An identifier that is reported
    /// as stored has the shape of a content identifier.
    pub fn advance(self, reply: Result<(), String>) -> (step: Step)
        ensures
            step@ == put_next(self@, reply_view(reply)),
            step matches Step::Perform(next, _) ==> next@.remaining() < self@.remaining(),
            reply matches Err(cause) ==> self@ is Probing || step@ == StepView::Failed(
                ErrorView::Storage(cause@),
            ),
            step matches Step::Stored(id) ==> is_content_id(id@),
    {
        proof {
            use_type_invariant(&self);
        }
        match self.stage {
            Stage::EnsuringDir { id, data, file_name } => match reply {
                Ok(_) => {
                    let op = StoreOp::Stat { path: content_path_of(id.as_str()) };
                    Step::Perform(Put { stage: Stage::Probing { id, data, file_name } }, op)
                },
                Err(cause) => Step::Failed(Error::Storage(cause)),
            },
            Stage::Probing { id, data, file_name } => match reply {
                Ok(_) => name_step(id, file_name),
                Err(_) => {
                    let op = StoreOp::Write { path: content_path_of(id.as_str()), data };
                    Step::Perform(Put { stage: Stage::WritingContent { id, file_name } }, op)
                },
            },
            Stage::WritingContent { id, file_name } => match reply {
                Ok(_) => name_step(id, file_name),
                Err(cause) => Step::Failed(Error::Storage(cause)),
            },
            Stage::WritingName { id } => match reply {
                Ok(_) => Step::Stored(id),
                Err(cause) => Step::Failed(Error::Storage(cause)),
            },
        }
    }
}

/// A stored object as a get returns it.
#[derive(Debug, PartialEq, Eq)]
pub struct StoredObject {
    /// The bytes of the object.
    pub content: Vec<u8>,
    /// The name it was last uploaded with, or [`UNKNOWN_NAME`].
    pub file_name: String,
}

/// A [`StoredObject`] over byte and character sequences.
pub struct StoredObjectView {
    pub content: Seq<u8>,
    pub file_name: Seq<char>,
}

impl View for StoredObject {
    type V = StoredObjectView;

    open spec fn view(&self) -> StoredObjectView {
        StoredObjectView { content: self.content@, file_name: self.file_name@ }
    }
}

/// The outcome of a get, as a sequence-level value.
pub open spec fn get_view(outcome: Result<StoredObject, Error>) -> Result<
    StoredObjectView,
    ErrorView,
> {
    match outcome {
        Ok(object) => Ok(object@),
        Err(error) => Err(error@),
    }
}

/// What a get returns, given the outcome of reading the content entry and,
/// where it could be read, the text of the name entry: the object is found
/// exactly when its bytes could be read, and a name that could not be read is
/// replaced by [`UNKNOWN_NAME`].
pub open spec fn get_outcome(content: Result<Seq<u8>, Seq<char>>, name: Option<Seq<char>>) -> Result<
    StoredObjectView,
    ErrorView,
> {
    match content {
        Ok(bytes) => Ok(
            StoredObjectView {
                content: bytes,
                file_name: match name {
                    Some(text) => text,
                    None => UNKNOWN_NAME@,
                },
            },
        ),
        Err(cause) => Err(ErrorView::NotFound(cause)),
    }
}

/// Decides a get from the outcome of reading the two entries of the object.
pub fn finish_get(content: Result<Vec<u8>, String>, name: Option<String>) -> (outcome: Result<
    StoredObject,
    Error,
>)
    ensures
        get_view(outcome) == get_outcome(read_view(content), text_of(name)),
{
    match content {
        Ok(bytes) => {
            let file_name = match name {
                Some(text) => text,
                None => String::from_str(UNKNOWN_NAME),
            };
            Ok(StoredObject { content: bytes, file_name })
        },
        Err(cause) => Err(Error::NotFound(cause)),
    }
}

} // verus!
