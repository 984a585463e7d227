//! The resource-location policy: a development-tree copy of the artifact
//! wins unconditionally over the packaged-bundle copy; when there is no
//! development copy, the host's bundle resolution decides, and its error
//! becomes the resolution failure. The filesystem existence check and the
//! host's bundle lookup happen outside; their results are decided here.

use vstd::prelude::*;
use crate::errors::BridgeError;

verus! {

/// The mathematical content of an optional development-tree copy.
pub open spec fn dev_view(dev: Option<String>) -> Option<Seq<char>> {
    match dev {
        Some(p) => Some(p@),
        None => None,
    }
}

/// The mathematical content of the host's bundle resolution: the resolved
/// path, or the cause it reported.
pub open spec fn bundled_view(bundled: Result<String, String>) -> Result<Seq<char>, Seq<char>> {
    match bundled {
        Ok(p) => Ok(p@),
        Err(c) => Err(c@),
    }
}

/// The resolution policy: the development copy when one exists, whatever
/// the bundle holds; otherwise the bundle resolution's own verdict.
pub open spec fn resolve_spec(dev: Option<Seq<char>>, bundled: Result<Seq<char>, Seq<char>>) -> Result<
    Seq<char>,
    Seq<char>,
> {
    match dev {
        Some(p) => Ok(p),
        None => bundled,
    }
}

/// Chooses the artifact's path. `dev_copy` is the development-tree
/// candidate when it exists on disk; `bundled` is the host's resolution of
/// the same logical name against the packaged bundle. A failure is always
/// a resolution error carrying the host resolver's cause.
pub fn resolve_artifact(dev_copy: Option<String>, bundled: Result<String, String>) -> (r: Result<
    String,
    BridgeError,
>)
    ensures
        r is Ok <==> resolve_spec(dev_view(dev_copy), bundled_view(bundled)) is Ok,
        r matches Ok(p) ==> resolve_spec(dev_view(dev_copy), bundled_view(bundled)) == Ok::<
            Seq<char>,
            Seq<char>,
        >(p@),
        r matches Err(e) ==> e matches BridgeError::Resolution { cause } && resolve_spec(
            dev_view(dev_copy),
            bundled_view(bundled),
        ) == Err::<Seq<char>, Seq<char>>(cause@),
{
    match dev_copy {
        Some(p) => Ok(p),
        None => match bundled {
            Ok(p) => Ok(p),
            Err(cause) => Err(BridgeError::Resolution { cause }),
        },
    }
}

/// Development override is absolute: whenever a development-tree copy
/// exists, resolution returns it, whatever the packaged bundle holds.
pub proof fn lemma_dev_override_absolute(
    dev: Seq<char>,
    bundled_a: Result<Seq<char>, Seq<char>>,
    bundled_b: Result<Seq<char>, Seq<char>>,
)
    ensures
        resolve_spec(Some(dev), bundled_a) == Ok::<Seq<char>, Seq<char>>(dev),
        resolve_spec(Some(dev), bundled_a) == resolve_spec(Some(dev), bundled_b),
{
}

/// When neither copy exists, resolution fails and carries the host
/// resolver's cause, so no path is ever produced for a launch.
pub proof fn lemma_missing_artifact_fails(cause: Seq<char>)
    ensures
        resolve_spec(None, Err(cause)) == Err::<Seq<char>, Seq<char>>(cause),
{
}

/// The fixed logical name of the artifact within either layout.
pub fn artifact_resource_name() -> (s: String)
    ensures
        s@ == "resources/scanner.py"@,
{
    String::from_str("resources/scanner.py")
}

/// The fixed interpreter that executes the artifact.
pub fn interpreter() -> (s: String)
    ensures
        s@ == "python3"@,
{
    String::from_str("python3")
}

/// The development-tree candidate: the artifact's logical name under the
/// build-time source-tree root.
pub fn dev_candidate(root: &str) -> (s: String)
    ensures
        s@ == root@ + "/"@ + "resources/scanner.py"@,
{
    let mut s = String::from_str(root);
    s.append("/");
    s.append("resources/scanner.py");
    s
}

} // verus!
