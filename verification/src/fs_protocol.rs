//! The responder for the frontend's files: from the path of a request to the
//! file to read, and from what was read to the response.
//!
//! The path `/` stands for `index.html`; any other path is looked up below
//! the frontend's directory without its leading slashes. A file that is not
//! there, or cannot be read, and a directory that was never set, give the
//! answer "not found" with an empty body.

use crate::registry::{frontend_dir, CallbackRegistry};
use vstd::prelude::*;

verus! {

/// A response to a request for a file.
#[derive(Debug, PartialEq, Eq)]
pub struct StaticResponse {
    /// The HTTP status.
    pub status: u16,
    /// The body.
    pub body: Vec<u8>,
}

/// A file to read: a path below a directory.
#[derive(Debug, PartialEq, Eq)]
pub struct FileLocation {
    /// The frontend's directory.
    pub dir: String,
    /// The path of the file below the directory.
    pub file: String,
}

/// `path` without its leading slashes.
pub open spec fn trim_leading_slashes(path: Seq<char>) -> Seq<char>
    decreases path.len(),
{
    if path.len() > 0 && path[0] == '/' {
        trim_leading_slashes(path.skip(1))
    } else {
        path
    }
}

/// The path below the frontend's directory that a request's path stands for.
pub open spec fn resolved_path(request_path: Seq<char>) -> Seq<char> {
    if request_path.len() == 1 && request_path[0] == '/' {
        "index.html"@
    } else {
        trim_leading_slashes(request_path)
    }
}

/// Where the first `k` characters are slashes, trimming may start behind them.
proof fn lemma_trim_skips(path: Seq<char>, k: nat)
    requires
        k <= path.len(),
        forall|j: int| 0 <= j < k ==> path[j] == '/',
    ensures
        trim_leading_slashes(path) == trim_leading_slashes(path.skip(k as int)),
    decreases k,
{
    if k > 0 {
        let rest = path.skip(1);
        assert forall|j: int| 0 <= j < k - 1 implies rest[j] == '/' by {
            assert(rest[j] == path[j + 1]);
        }
        lemma_trim_skips(rest, (k - 1) as nat);
        assert(rest.skip(k - 1) =~= path.skip(k as int));
    } else {
        assert(path.skip(0) =~= path);
    }
}

/// The path below the frontend's directory that a request's path stands for.
pub fn resolve_request_path(request_path: &str) -> (file: String)
    ensures
        file@ == resolved_path(request_path@),
{
    let n = request_path.unicode_len();
    if n == 1 && request_path.get_char(0) == '/' {
        return "index.html".to_owned();
    }
    let mut k: usize = 0;
    loop
        invariant_except_break
            k <= n,
            n == request_path@.len(),
            forall|j: int| 0 <= j < k ==> request_path@[j] == '/',
        ensures
            k <= n,
            n == request_path@.len(),
            forall|j: int| 0 <= j < k ==> request_path@[j] == '/',
            k == n || request_path@[k as int] != '/',
        decreases n - k,
    {
        if k >= n {
            break;
        }
        if request_path.get_char(k) != '/' {
            break;
        }
        k += 1;
    }
    proof {
        lemma_trim_skips(request_path@, k as nat);
        assert(request_path@.subrange(k as int, n as int) =~= request_path@.skip(k as int));
    }
    request_path.substring_char(k, n).to_owned()
}

/// The answer "not found": status 404 and an empty body.
pub fn not_found_response() -> (response: StaticResponse)
    ensures
        response.status == 404,
        response.body@ == Seq::<u8>::empty(),
{
    StaticResponse { status: 404, body: Vec::new() }
}

/// Says which file a request asks for: the resolved path below the
/// frontend's directory. Without a directory there is no file, and the
/// answer is "not found".
pub fn handle_fs_protocol<A>(registry: &CallbackRegistry<A>, request_path: &str) -> (location:
    Option<FileLocation>)
    ensures
        match registry@.frontend_dir {
            None => location is None,
            Some(dir) => {
                &&& location matches Some(found)
                &&& found.dir@ == dir
                &&& found.file@ == resolved_path(request_path@)
            },
        },
{
    match frontend_dir(registry) {
        None => None,
        Some(dir) => Some(FileLocation { dir, file: resolve_request_path(request_path) }),
    }
}

/// The response for what was read: the file's content with status 200, or
/// "not found" where there was nothing to read.
pub fn file_response(content: Option<Vec<u8>>) -> (response: StaticResponse)
    ensures
        match content {
            Some(bytes) => response.status == 200 && response.body@ == bytes@,
            None => response.status == 404 && response.body@ == Seq::<u8>::empty(),
        },
{
    match content {
        Some(bytes) => StaticResponse { status: 200, body: bytes },
        None => not_found_response(),
    }
}

} // verus!
