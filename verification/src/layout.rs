//! Layout of the storage directory.
//!
//! Every object owns two entries of one flat directory: its bytes under its
//! identifier, and the name it was last uploaded with under the identifier
//! followed by a fixed suffix.

use crate::digest::{is_content_id, is_lower_hex};
use vstd::prelude::*;
use vstd::string::*;

verus! {

/// The directory that holds all stored objects.
pub const UPLOAD_PATH: &'static str = "/tmp/uploads";

/// What follows an identifier in the path of its file-name entry.
pub const NAME_SUFFIX: &'static str = ".name";

/// Path of the entry that holds the bytes of the object `id`.
pub open spec fn content_path(id: Seq<char>) -> Seq<char> {
    UPLOAD_PATH@ + seq!['/'] + id
}

/// Path of the entry that holds the file name of the object `id`.
pub open spec fn name_path(id: Seq<char>) -> Seq<char> {
    content_path(id) + NAME_SUFFIX@
}

/// The two entries of one object never share a path.
pub proof fn lemma_own_paths_differ(id: Seq<char>)
    ensures
        content_path(id) != name_path(id),
{
    reveal_strlit(".name");
    assert(name_path(id).len() == content_path(id).len() + 5);
}

/// Distinct identifiers have distinct content entries.
pub proof fn lemma_content_path_injective(a: Seq<char>, b: Seq<char>)
    requires
        content_path(a) == content_path(b),
    ensures
        a == b,
{
    let prefix = UPLOAD_PATH@ + seq!['/'];
    assert(content_path(a).subrange(prefix.len() as int, content_path(a).len() as int) =~= a);
    assert(content_path(b).subrange(prefix.len() as int, content_path(b).len() as int) =~= b);
}

/// Distinct identifiers have distinct file-name entries.
pub proof fn lemma_name_path_injective(a: Seq<char>, b: Seq<char>)
    requires
        name_path(a) == name_path(b),
    ensures
        a == b,
{
    let pa = content_path(a);
    let pb = content_path(b);
    assert(pa.len() == pb.len()) by {
        assert(name_path(a).len() == pa.len() + NAME_SUFFIX@.len());
        assert(name_path(b).len() == pb.len() + NAME_SUFFIX@.len());
    }
    assert(name_path(a).subrange(0, pa.len() as int) =~= pa);
    assert(name_path(b).subrange(0, pb.len() as int) =~= pb);
    lemma_content_path_injective(a, b);
}

/// The file-name entry of any object is no content entry of a well-formed
/// identifier: such an identifier holds no `.`.
pub proof fn lemma_name_path_is_no_content_path(a: Seq<char>, b: Seq<char>)
    requires
        is_content_id(b),
    ensures
        name_path(a) != content_path(b),
{
    reveal_strlit(".name");
    if name_path(a) == content_path(b) {
        let prefix = UPLOAD_PATH@ + seq!['/'];
        let k = a.len() as int;
        assert(content_path(b).len() == prefix.len() + b.len());
        assert(name_path(a).len() == prefix.len() + a.len() + 5);
        assert(b.len() == a.len() + 5);
        assert(content_path(b)[prefix.len() + k] == b[k]);
        assert(name_path(a)[prefix.len() + k] == NAME_SUFFIX@[0]);
        assert(b[k] == '.');
        assert(is_lower_hex(b[k]));
    }
}

/// Builds the path of the entry that holds the bytes of the object `id`.
pub fn content_path_of(id: &str) -> (path: String)
    ensures
        path@ == content_path(id@),
{
    proof {
        reveal_strlit("/");
    }
    let mut path = String::from_str(UPLOAD_PATH);
    path.append("/");
    path.append(id);
    assert(path@ =~= content_path(id@));
    path
}

/// Builds the path of the entry that holds the file name of the object `id`.
pub fn name_path_of(id: &str) -> (path: String)
    ensures
        path@ == name_path(id@),
{
    let mut path = content_path_of(id);
    path.append(NAME_SUFFIX);
    path
}

} // verus!
