//! Paths of manifests. A path is held as text; what `std::path` makes of it is
//! taken from `std::path`, under contracts that are not proved.

use vstd::prelude::*;
use vstd::string::StringExecFns;

verus! {

/// What `std::path::Path::parent` gives for `path`, on the platform that the
/// crate is built for.
pub uninterp spec fn path_parent(path: Seq<char>) -> Option<Seq<char>>;

/// What `std::path::Path::join` makes of `base` and `part`, on the platform
/// that the crate is built for.
pub uninterp spec fn path_joined(base: Seq<char>, part: Seq<char>) -> Seq<char>;

/// `std::path::Path::parent`. The contract gives the outcome a name,
/// `path_parent`.
#[verifier::external_body]
pub(crate) fn parent(path: &str) -> (r: Option<String>)
    ensures
        r.deep_view() == path_parent(path@),
{
    std::path::Path::new(path).parent().map(|dir| dir.to_string_lossy().into_owned())
}

/// `std::path::Path::join`. The contract gives the outcome a name,
/// `path_joined`.
#[verifier::external_body]
pub(crate) fn join(base: &str, part: &str) -> (r: String)
    ensures
        r@ == path_joined(base@, part@),
{
    std::path::Path::new(base).join(part).to_string_lossy().into_owned()
}

/// The name of the file that holds the manifest of a package.
pub const MANIFEST_FILE: &'static str = "Cargo.toml";

/// The directory of the manifest at `manifest`: its parent, or the path itself
/// where it has none.
pub open spec fn directory_of(manifest: Seq<char>) -> Seq<char> {
    match path_parent(manifest) {
        Some(dir) => dir,
        None => manifest,
    }
}

/// Where the manifest of `member` lies, for a workspace whose manifest is at
/// `manifest`: in the directory `member` beside that manifest.
pub open spec fn member_manifest(manifest: Seq<char>, member: Seq<char>) -> Seq<char> {
    path_joined(path_joined(directory_of(manifest), member), MANIFEST_FILE@)
}

/// The path of the manifest of `member`, for a workspace whose manifest is at
/// `manifest`.
pub fn member_manifest_path(manifest: &str, member: &str) -> (r: String)
    ensures
        r@ == member_manifest(manifest@, member@),
{
    let dir = match parent(manifest) {
        Some(dir) => dir,
        None => String::from_str(manifest),
    };
    let member_dir = join(dir.as_str(), member);
    join(member_dir.as_str(), MANIFEST_FILE)
}

} // verus!
