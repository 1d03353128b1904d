//! Mismatch policy: decides whether a file's current extension and the
//! detection outcome differ in a way worth reporting or acting on.
//!
//! The rules, first applicable wins: an undetected or unreadable file is
//! never a mismatch; a current extension `jpeg` beside a detected `jpg` is
//! accepted as the one known alias; an exact, case-sensitive match is no
//! mismatch; anything else is.

use vstd::prelude::*;

verus! {

/// The file's current extension, or the absence of one.
#[derive(Clone, Debug)]
pub enum CurrentExt {
    Named(String),
    Missing,
}

/// The outcome of trying to detect a file's format: a detected extension,
/// an inspected-but-unrecognised file, or a file that could not be read
/// (with the cause). The last two are distinct outcomes, though the policy
/// treats both as "leave the file alone".
#[derive(Clone, Debug)]
pub enum Detection {
    Detected(String),
    Unknown,
    ReadError(String),
}

/// What the policy decides, rule by rule in order.
pub open spec fn spec_different(current: CurrentExt, detected: Detection) -> bool {
    match detected {
        Detection::Unknown => false,
        Detection::ReadError(_) => false,
        Detection::Detected(d) => match current {
            CurrentExt::Missing => true,
            CurrentExt::Named(c) => if c@ == "jpeg"@ && d@ == "jpg"@ {
                false
            } else if c@ == d@ {
                false
            } else {
                true
            },
        },
    }
}

/// Decides whether the current extension and the detection outcome count as
/// a difference worth reporting.
pub fn different_extensions(current: &CurrentExt, detected: &Detection) -> (r: bool)
    ensures
        r == spec_different(*current, *detected),
{
    match detected {
        Detection::Unknown => false,
        Detection::ReadError(_) => false,
        Detection::Detected(d) => match current {
            CurrentExt::Missing => true,
            CurrentExt::Named(c) => {
                let jpeg: String = "jpeg".to_owned();
                let jpg: String = "jpg".to_owned();
                if *c == jpeg && *d == jpg {
                    false
                } else if *c == *d {
                    false
                } else {
                    true
                }
            },
        },
    }
}

/// Turns the detector's outcome into the policy's input: a recognised format
/// becomes its canonical extension, no match becomes `Unknown`.
pub fn classify(bytes: &[u8]) -> (d: Detection)
    ensures
        crate::detect::spec_detect(bytes@) matches Some(k) ==> (d matches Detection::Detected(s)
            && s@ == k.ext_seq()),
        crate::detect::spec_detect(bytes@) is None ==> d is Unknown,
{
    match crate::detect::detect(bytes) {
        Some(k) => Detection::Detected(k.extension().to_owned()),
        None => Detection::Unknown,
    }
}

/// A file whose detection failed — unrecognised or unreadable — is never
/// reported as different, whatever its current extension.
pub proof fn lemma_no_detection_never_different(current: CurrentExt, cause: String)
    ensures
        !spec_different(current, Detection::Unknown),
        !spec_different(current, Detection::ReadError(cause)),
{
}

/// A current extension equal to the detected one is never a difference.
pub proof fn lemma_equal_never_different(c: String, d: String)
    requires
        c@ == d@,
    ensures
        !spec_different(CurrentExt::Named(c), Detection::Detected(d)),
{
}

/// The one alias the policy accepts: a file named `.jpeg` whose contents
/// are detected as `jpg` is not a difference.
pub proof fn lemma_jpeg_alias_not_different(c: String, d: String)
    requires
        c@ == "jpeg"@,
        d@ == "jpg"@,
    ensures
        !spec_different(CurrentExt::Named(c), Detection::Detected(d)),
{
}

/// The alias is one-directional: a file named `.jpg` beside a detected
/// `jpeg` is a difference (no rule equates them that way round).
pub proof fn lemma_jpeg_alias_is_asymmetric(c: String, d: String)
    requires
        c@ == "jpg"@,
        d@ == "jpeg"@,
    ensures
        spec_different(CurrentExt::Named(c), Detection::Detected(d)),
{
    reveal_strlit("jpg");
    reveal_strlit("jpeg");
    assert("jpg"@.len() == 3);
    assert("jpeg"@.len() == 4);
}

/// A file with no extension at all is reported whenever detection succeeds.
pub proof fn lemma_missing_extension_always_different(d: String)
    ensures
        spec_different(CurrentExt::Missing, Detection::Detected(d)),
{
}

} // verus!
