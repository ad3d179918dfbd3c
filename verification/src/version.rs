use vstd::prelude::*;

verus! {

/// What the `semver` crate makes of `text`: `None` where `text` is no semantic
/// version, else the display form of the version it parses to.
pub uninterp spec fn semver_display(text: Seq<char>) -> Option<Seq<char>>;

/// Parses `text` with `semver::Version::parse` and writes the version back
/// with its `Display`. Claimed, and not proved: the outcome is
/// `semver_display(text)`, with the parser's error where that is `None`.
#[verifier::external_body]
pub(crate) fn display_semver(text: &str) -> (r: Result<String, semver::Error>)
    ensures
        match r {
            Ok(s) => semver_display(text@) == Some(s@),
            Err(_) => semver_display(text@) is None,
        },
{
    semver::Version::parse(text).map(|v| v.to_string())
}

} // verus!
