//! Guest images in the upload directory.

use vstd::prelude::*;
use vstd::string::{StrSliceExecFns, StringExecFns};

use crate::text;
use crate::text::render;

verus! {

broadcast use vstd::string::group_string_axioms;

/// The largest image that can be uploaded (256 MiB).
pub const MAX_IMAGE_SIZE: usize = 0x1000_0000;

/// Whether a name is that of an image: it is not empty and cannot lead out of the
/// directory, having neither a slash nor two dots in a row.
pub open spec fn is_image_name(name: Seq<char>) -> bool {
    &&& name.len() > 0
    &&& forall|i: int| 0 <= i < name.len() ==> #[trigger] name[i] != '/'
    &&& forall|i: int|
        0 <= i < name.len() - 1 && #[trigger] name[i] == '.' ==> name[i + 1] != '.'
}

/// The path of an image.
pub open spec fn path_of(name: Seq<char>) -> Seq<char> {
    "/image/"@ + name
}

/// What the uploader of an image is told.
pub open spec fn stored_text(len: nat, path: Seq<char>) -> Seq<char> {
    "stored "@ + text::digits(len, 10) + " bytes at "@ + path + "\n"@
}

/// Tells whether a name is that of an image. The name comes from the path of a
/// request; anything that could still escape the directory is rejected.
pub fn valid_image_name(name: &str) -> (valid: bool)
    ensures
        valid == is_image_name(name@),
{
    let length: usize = name.unicode_len();
    if length == 0 {
        return false;
    }
    let mut dot = false;
    let mut i: usize = 0;
    while i < length
        invariant
            0 < length == name@.len(),
            i <= length,
            forall|k: int| 0 <= k < i ==> #[trigger] name@[k] != '/',
            forall|k: int| 0 <= k < i - 1 && #[trigger] name@[k] == '.' ==> name@[k + 1] != '.',
            dot == (i > 0 && name@[i - 1] == '.'),
        decreases length - i,
    {
        let c = name.get_char(i);
        if c == '/' {
            return false;
        }
        if dot && c == '.' {
            assert(name@[i - 1] == '.' && name@[i - 1 + 1] == '.');
            return false;
        }
        dot = c == '.';
        i = i + 1;
    }
    true
}

/// The path of the image with the given name.
///
/// Returns `None` where the name is not that of an image; a request with such a name
/// is a bad one.
pub fn image_path(name: &str) -> (path: Option<String>)
    ensures
        is_image_name(name@) ==> (path matches Some(p) && p@ == path_of(name@)),
        !is_image_name(name@) ==> path is None,
{
    if !valid_image_name(name) {
        return None;
    }
    let mut path = String::from_str("/image/");
    path.append(name);
    Some(path)
}

/// The reply to the upload of an image of `len` bytes.
pub fn stored_message(len: u64, path: &str) -> (message: String)
    ensures
        message@ == stored_text(len as nat, path@),
{
    let mut message = String::from_str("stored ");
    let number = render(len, 10);
    message.append(number.as_str());
    message.append(" bytes at ");
    message.append(path);
    message.append("\n");
    message
}

/// The path of an image is that of a file right in the upload directory: beyond the
/// directory's own slashes it has none, and no two dots in a row.
pub proof fn law_image_path_stays_inside(name: Seq<char>)
    requires
        is_image_name(name),
    ensures
        ({
            let path = path_of(name);
            &&& path.len() > 7
            &&& path.take(7) == "/image/"@
            &&& forall|i: int| 7 <= i < path.len() ==> #[trigger] path[i] != '/'
            &&& forall|i: int|
                0 <= i < path.len() - 1 && #[trigger] path[i] == '.' ==> path[i + 1] != '.'
        }),
{
    reveal_strlit("/image/");
    let path = path_of(name);
    assert("/image/"@ =~= seq!['/', 'i', 'm', 'a', 'g', 'e', '/']);
    assert(path.take(7) =~= "/image/"@);
    assert forall|i: int| 7 <= i < path.len() implies #[trigger] path[i] != '/' by {
        assert(path[i] == name[i - 7]);
    }
    assert forall|i: int|
        0 <= i < path.len() - 1 && #[trigger] path[i] == '.' implies path[i + 1] != '.' by {
        if i >= 7 {
            assert(path[i] == name[i - 7]);
            assert(path[i + 1] == name[i - 7 + 1]);
        }
    }
}

/// Every name that is not empty and has no slash and no two dots in a row is that of an
/// image, whatever else it holds; its path is the name in the directory `/image`. No
/// other name is.
pub proof fn law_image_names(name: Seq<char>)
    ensures
        is_image_name(name) <==> name.len() != 0 && !name.contains('/') && (forall|i: int|
            0 <= i && i + 2 <= name.len() ==> #[trigger] name.subrange(i, i + 2) != seq!['.', '.']),
        path_of(name) == seq!['/', 'i', 'm', 'a', 'g', 'e', '/'] + name,
{
    reveal_strlit("/image/");
    assert("/image/"@ =~= seq!['/', 'i', 'm', 'a', 'g', 'e', '/']);
    if is_image_name(name) {
        assert forall|i: int| 0 <= i && i + 2 <= name.len() implies #[trigger] name.subrange(
            i,
            i + 2,
        ) != seq!['.', '.'] by {
            let two = name.subrange(i, i + 2);
            assert(two[0] == name[i] && two[1] == name[i + 1]);
        }
    } else if name.len() != 0 && !name.contains('/') {
        assert(exists|i: int|
            0 <= i < name.len() - 1 && #[trigger] name[i] == '.' && name[i + 1] == '.') by {
            assert forall|i: int| 0 <= i < name.len() implies #[trigger] name[i] != '/' by {}
        }
        let i = choose|i: int|
            0 <= i < name.len() - 1 && #[trigger] name[i] == '.' && name[i + 1] == '.';
        assert(name.subrange(i, i + 2) =~= seq!['.', '.']);
    }
}

/// The reply to an upload names the size, in decimal, and the path.
pub proof fn law_upload_reply(len: nat, path: Seq<char>)
    ensures
        stored_text(len, path) == seq!['s', 't', 'o', 'r', 'e', 'd', ' '] + text::digits(len, 10)
            + seq![' ', 'b', 'y', 't', 'e', 's', ' ', 'a', 't', ' '] + path + seq!['\n'],
{
    reveal_strlit("stored ");
    reveal_strlit(" bytes at ");
    reveal_strlit("\n");
    assert("stored "@ =~= seq!['s', 't', 'o', 'r', 'e', 'd', ' ']);
    assert(" bytes at "@ =~= seq![' ', 'b', 'y', 't', 'e', 's', ' ', 'a', 't', ' ']);
    assert("\n"@ =~= seq!['\n']);
}

} // verus!
