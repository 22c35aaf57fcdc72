//! Expansion of a leading `~` segment in a path given segment by segment.
//!
//! A structured path is the sequence of its segments, each held as raw
//! bytes, so neither the path nor the home directory has to be valid text.
//! A root is a segment of its own, written as it stands in the path.
//! The path refers to the home directory when its first segment is exactly
//! `~`.
//! Expansion puts the segments of the home directory in place of that one
//! segment and keeps all the others, in order.

use vstd::prelude::*;
use crate::home::{ExpandUser, HomeDirError};
use crate::lookup::{home_dir, path_segments};

verus! {

/// A path as the sequence of its segments.
#[derive(Debug, Clone, PartialEq, Eq)]
pub struct SegmentedPath {
    /// The segments from first to last, each as the bytes of its name.
    pub segments: Vec<Vec<u8>>,
}

impl View for SegmentedPath {
    type V = Seq<Seq<u8>>;

    open spec fn view(&self) -> Seq<Seq<u8>> {
        self.segments@.map_values(|segment: Vec<u8>| segment@)
    }
}

/// The segment that stands for the home directory: the single byte `~`.
pub open spec fn marker_segment() -> Seq<u8> {
    seq![0x7Eu8]
}

/// Whether the first segment of `path` is the home directory marker.
pub open spec fn leads_home(path: Seq<Seq<u8>>) -> bool {
    path.len() >= 1 && path[0] == marker_segment()
}

/// What expansion of `path` yields when the lookup of the home directory
/// gave `home`, with `None` for a lookup that found nothing.
///
/// The lookup is consulted only for a path that leads with the marker.
pub open spec fn rebased(path: Seq<Seq<u8>>, home: Option<Seq<Seq<u8>>>) -> Result<
    Seq<Seq<u8>>,
    HomeDirError,
> {
    if leads_home(path) {
        match home {
            Some(dir) => Ok(dir + path.skip(1)),
            None => Err(HomeDirError::NoHomeDir),
        }
    } else {
        Ok(path)
    }
}

/// The segments of an expanded path, with its error kept.
pub open spec fn segments_of(outcome: Result<SegmentedPath, HomeDirError>) -> Result<
    Seq<Seq<u8>>,
    HomeDirError,
> {
    match outcome {
        Ok(path) => Ok(path@),
        Err(error) => Err(error),
    }
}

/// The segments of a looked-up home directory, if the lookup found one.
pub open spec fn found_segments(home: Option<SegmentedPath>) -> Option<Seq<Seq<u8>>> {
    match home {
        Some(dir) => Some(dir@),
        None => None,
    }
}

/// A path whose only segment is the marker expands to exactly the segments
/// of the home directory: with no segment left to append, nothing is joined
/// onto it.
pub proof fn marker_alone_is_home(home: Seq<Seq<u8>>)
    ensures
        rebased(seq![marker_segment()], Some(home)) == Ok::<Seq<Seq<u8>>, HomeDirError>(home),
{
}

/// A path that does not lead with the marker expands to itself, whatever
/// the lookup of the home directory gave.
pub proof fn unmarked_path_is_unchanged(path: Seq<Seq<u8>>, home: Option<Seq<Seq<u8>>>)
    requires
        !leads_home(path),
    ensures
        rebased(path, home) == Ok::<Seq<Seq<u8>>, HomeDirError>(path),
{
}

/// Expansion replaces one segment and keeps the rest: every segment after
/// the marker stands, unchanged and in its place, after the segments of the
/// home directory.
pub proof fn segments_after_marker_are_kept(path: Seq<Seq<u8>>, home: Seq<Seq<u8>>)
    requires
        leads_home(path),
    ensures
        rebased(path, Some(home)) matches Ok(out) && {
            &&& out.len() == home.len() + path.len() - 1
            &&& forall|i: int| 0 <= i < home.len() ==> out[i] == home[i]
            &&& forall|i: int| 1 <= i < path.len() ==> out[home.len() + i - 1] == path[i]
        },
{
}

/// A path that leads with the marker cannot be expanded without a home
/// directory: the expansion fails and falls back on nothing.
pub proof fn missing_home_fails_expansion(path: Seq<Seq<u8>>)
    requires
        leads_home(path),
    ensures
        rebased(path, None) == Err::<Seq<Seq<u8>>, HomeDirError>(HomeDirError::NoHomeDir),
{
}

impl SegmentedPath {
    /// Decides whether the path leads with the home directory marker.
    pub fn begins_with_marker(&self) -> (found: bool)
        ensures
            found == leads_home(self@),
    {
        if self.segments.len() == 0 {
            false
        } else {
            let first = &self.segments[0];
            let found = first.len() == 1 && first[0] == 0x7Eu8;
            assert(found == (first@ =~= marker_segment()));
            found
        }
    }

    /// Expands the path against the outcome of a home directory lookup.
    ///
    /// This is the whole of the expansion with the environment taken out:
    /// the caller supplies the home directory that the lookup found, if any.
    pub fn expand_from(self, home: Option<SegmentedPath>) -> (out: Result<
        SegmentedPath,
        HomeDirError,
    >)
        ensures
            segments_of(out) == rebased(self@, found_segments(home)),
            !leads_home(self@) ==> out == Ok::<SegmentedPath, HomeDirError>(self),
    {
        if self.begins_with_marker() {
            match home {
                None => Err(HomeDirError::NoHomeDir),
                Some(dir) => {
                    let mut segments = dir.segments;
                    let mut tail = self.segments;
                    let mut rest = tail.split_off(1);
                    segments.append(&mut rest);
                    let out = SegmentedPath { segments };
                    assert(out@ =~= dir@ + self@.skip(1));
                    Ok(out)
                },
            }
        } else {
            Ok(self)
        }
    }
}

/// Looks the home directory up and splits it into its segments.
fn home_dir_as_segments() -> (home: Option<SegmentedPath>) {
    match home_dir() {
        None => None,
        Some(dir) => Some(SegmentedPath { segments: path_segments(&dir) }),
    }
}

impl ExpandUser for SegmentedPath {
    open spec fn marks_home(&self) -> bool {
        leads_home(self@)
    }

    /// Expands against the home directory that the environment reports.
    ///
    /// Which directory that is cannot be known here, so for a path that
    /// leads with the marker the contract says what holds of every answer:
    /// the result is `rebased` for some outcome of the lookup. `expand_from`
    /// gives the result for each outcome.
    fn expand_user(self) -> (out: Result<SegmentedPath, HomeDirError>)
        ensures
            exists|home: Option<Seq<Seq<u8>>>| segments_of(out) == rebased(self@, home),
    {
        if self.begins_with_marker() {
            self.expand_from(home_dir_as_segments())
        } else {
            assert(Ok::<Seq<Seq<u8>>, HomeDirError>(self@) == rebased(self@, None));
            Ok(self)
        }
    }
}

} // verus!
