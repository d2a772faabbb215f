//! Decisions of archive extraction: whether a project is skipped, left as it is, or
//! extracted at which commit. Reading the lock file, fetching and unpacking are done by
//! the caller.
use vstd::prelude::*;

verus! {

/// What to do with a project before anything is fetched.
#[derive(Debug, Clone, Copy, PartialEq, Eq, Structural)]
pub enum ExtractStart {
    /// Leave the existing directory; `unlocked` tells that the lock file has no entry
    /// for it while updating, so its version is unknown.
    Skip { unlocked: bool },
    /// Fetch the project and its tag.
    Fetch,
}

/// Whether an extracted project is kept: asked to keep, and already extracted.
pub fn extract_start(keep: bool, update: bool, is_extracted: bool, locked: bool) -> (r:
    ExtractStart)
    ensures
        r == if keep && is_extracted {
            ExtractStart::Skip { unlocked: update && !locked }
        } else {
            ExtractStart::Fetch
        },
{
    if keep && is_extracted {
        ExtractStart::Skip { unlocked: update && !locked }
    } else {
        ExtractStart::Fetch
    }
}

/// What to do with a project once its tag is known.
#[derive(Debug, Clone, PartialEq, Eq)]
pub enum ExtractAction {
    /// The extracted copy is the locked commit, which is the tag's.
    UpToDate,
    /// Extract `commit`; `replace` asks to remove the existing copy first, `mismatch`
    /// tells that the locked commit differs from the tag's.
    Extract { commit: String, replace: bool, mismatch: bool },
}

/// Chooses the commit to extract: the locked one if any, else the tag's. In update mode
/// an existing copy is kept when its locked commit is the tag's, and replaced by the tag's
/// commit otherwise.
pub fn extract_action(update: bool, is_extracted: bool, locked: Option<String>, tag_commit: String) -> (r:
    ExtractAction)
    ensures
        r == if update && is_extracted {
            match locked {
                Some(c) => if c@ == tag_commit@ {
                    ExtractAction::UpToDate
                } else {
                    ExtractAction::Extract { commit: tag_commit, replace: true, mismatch: true }
                },
                None => ExtractAction::Extract { commit: tag_commit, replace: true, mismatch: false },
            }
        } else {
            match locked {
                Some(c) => ExtractAction::Extract { commit: c, replace: false, mismatch: false },
                None => ExtractAction::Extract {
                    commit: tag_commit,
                    replace: false,
                    mismatch: false,
                },
            }
        },
{
    if update && is_extracted {
        match locked {
            Some(c) => {
                if c == tag_commit {
                    ExtractAction::UpToDate
                } else {
                    ExtractAction::Extract { commit: tag_commit, replace: true, mismatch: true }
                }
            },
            None => ExtractAction::Extract { commit: tag_commit, replace: true, mismatch: false },
        }
    } else {
        match locked {
            Some(c) => ExtractAction::Extract { commit: c, replace: false, mismatch: false },
            None => ExtractAction::Extract { commit: tag_commit, replace: false, mismatch: false },
        }
    }
}

} // verus!
