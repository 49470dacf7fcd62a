//! Entries of the destination that stand where the source has a directory.
//!
//! A copy that finds something at the place of a directory does not touch it.
//! Where the directory of the source is empty, nothing is written below that
//! place either, so a file standing there goes unnoticed and the copy reports
//! that it ran through. Such a copy has not done what was asked: after it, the
//! destination lacks a directory that the source has. This module decides,
//! from what was found at those places after the copy, whether it stands.

use vstd::prelude::*;
use vstd::string::StringExecFns;
use crate::failure::{Cause, CopyFailure, IoCause};

verus! {

/// What was found in the destination at the place of one directory of the
/// source.
#[derive(Debug, PartialEq, Eq)]
pub struct Landing {
    /// The path of the place, in the destination.
    pub path: String,
    /// Whether a directory stands there.
    pub is_directory: bool,
}

/// Every place holds a directory.
pub open spec fn all_directories(landings: Seq<Landing>) -> bool {
    forall|at: int| 0 <= at < landings.len() ==> (#[trigger] landings[at]).is_directory
}

/// The place at `at` is the first that holds no directory.
pub open spec fn first_clash(landings: Seq<Landing>, at: int) -> bool {
    &&& 0 <= at < landings.len()
    &&& !landings[at].is_directory
    &&& all_directories(landings.take(at))
}

/// The sentence that describes a clash at `path`.
pub open spec fn clash_text(path: Seq<char>) -> Seq<char> {
    "Path \""@ + path + "\" is not a directory!"@
}

/// The sentence that describes a clash at `path`.
pub fn describe_clash(path: &str) -> (text: String)
    ensures
        text@ == clash_text(path@),
{
    let mut text = String::from_str("Path \"");
    text.append(path);
    text.append("\" is not a directory!");
    text
}

/// Whether a copy that reported `bytes` moved stands, given what was found
/// afterwards at the place of each directory of the source.
///
/// It stands, with the same number of bytes, where every place holds a
/// directory. Otherwise it has failed on the first place that holds none: a
/// conflict, described by the path of that place.
pub fn confirm(bytes: u64, landings: &Vec<Landing>) -> (checked: Result<u64, CopyFailure>)
    ensures
        all_directories(landings@) <==> checked is Ok,
        checked matches Ok(moved) ==> moved == bytes,
        forall|at: int| #[trigger]
            first_clash(landings@, at) ==> (checked matches Err(failure) && failure.cause
                == Cause::Io(IoCause::NotADirectory) && failure.message@ == clash_text(
                landings@[at].path@,
            )),
{
    let mut at: usize = 0;
    while at < landings.len()
        invariant
            at <= landings@.len(),
            all_directories(landings@.take(at as int)),
        decreases landings@.len() - at,
    {
        if !landings[at].is_directory {
            let message = describe_clash(landings[at].path.as_str());
            proof {
                assert forall|other: int| #[trigger]
                    first_clash(landings@, other) implies other == at by {
                    if other < at {
                        assert(landings@.take(at as int)[other] == landings@[other]);
                    } else if other > at {
                        assert(landings@.take(other)[at as int] == landings@[at as int]);
                    }
                }
            }
            return Err(CopyFailure::new(Cause::Io(IoCause::NotADirectory), message));
        }
        proof {
            assert forall|before: int| 0 <= before < at + 1 implies (#[trigger] landings@.take(
                at + 1,
            )[before]).is_directory by {
                if before < at {
                    assert(landings@.take(at as int)[before] == landings@[before]);
                }
            }
        }
        at = at + 1;
    }
    proof {
        assert(landings@.take(at as int) =~= landings@);
        assert forall|other: int| !first_clash(landings@, other) by {}
    }
    Ok(bytes)
}

/// A copy stands or has failed on exactly one place: where some place holds
/// no directory, there is one first such place and no other.
pub proof fn one_first_clash(landings: Seq<Landing>)
    ensures
        !all_directories(landings) <==> exists|at: int| first_clash(landings, at),
        forall|one: int, other: int|
            first_clash(landings, one) && first_clash(landings, other) ==> one == other,
    decreases landings.len(),
{
    assert forall|one: int, other: int|
        first_clash(landings, one) && first_clash(landings, other) implies one == other by {
        if one < other {
            assert(landings.take(other)[one] == landings[one]);
        } else if other < one {
            assert(landings.take(one)[other] == landings[other]);
        }
    }
    if exists|at: int| first_clash(landings, at) {
        let at = choose|at: int| first_clash(landings, at);
        assert(!landings[at].is_directory);
    }
    if !all_directories(landings) {
        let bad = choose|at: int| 0 <= at < landings.len() && !(#[trigger] landings[at]).is_directory;
        least_clash(landings, bad);
    }
}

/// Below any place that holds no directory there is a first one.
proof fn least_clash(landings: Seq<Landing>, bad: int)
    requires
        0 <= bad < landings.len(),
        !landings[bad].is_directory,
    ensures
        exists|at: int| first_clash(landings, at),
    decreases bad,
{
    if all_directories(landings.take(bad)) {
        assert(first_clash(landings, bad));
    } else {
        let earlier = choose|at: int|
            0 <= at < landings.take(bad).len() && !(#[trigger] landings.take(bad)[at]).is_directory;
        assert(landings.take(bad)[earlier] == landings[earlier]);
        least_clash(landings, earlier);
    }
}

} // verus!
