//! Moving bytes with calls that may move only some of them.

use vstd::prelude::*;

use crate::error::{Fault, IoFailure, VaultError};

verus! {

/// What came of one call.
#[derive(Debug, PartialEq)]
pub enum Moved<E> {
    /// So many bytes were moved.
    Bytes(usize),
    /// The call was interrupted before it moved anything.
    Interrupted,
    Failed(E),
}

/// What follows.
#[derive(Debug, PartialEq)]
pub enum Progress<E> {
    /// Go on from this position.
    Go { from: usize },
    /// Everything was moved.
    Done,
    Failed(E),
}

pub open spec fn moved_value(m: Moved<VaultError>) -> Moved<Fault> {
    match m {
        Moved::Bytes(n) => Moved::Bytes(n),
        Moved::Interrupted => Moved::Interrupted,
        Moved::Failed(e) => Moved::Failed(e@),
    }
}

pub open spec fn progress_value(p: Progress<VaultError>) -> Progress<Fault> {
    match p {
        Progress::Go { from } => Progress::Go { from },
        Progress::Done => Progress::Done,
        Progress::Failed(e) => Progress::Failed(e@),
    }
}

/// What follows a call: an interrupted one is made again, one that moved
/// nothing is an error, and anything else moves the position.
pub open spec fn advanced(
    done: usize,
    total: usize,
    outcome: Moved<Fault>,
    zero: Seq<char>,
) -> Progress<
    Fault,
> {
    match outcome {
        Moved::Interrupted => Progress::Go { from: done },
        Moved::Failed(e) => Progress::Failed(e),
        Moved::Bytes(n) => if n == 0 {
            Progress::Failed(Fault::Io { os_code: None, text: zero })
        } else if done + n >= total {
            Progress::Done
        } else {
            Progress::Go { from: (done + n) as usize }
        },
    }
}

/// Decides what follows a call. `zero` describes a call that moved nothing.
pub fn advance(done: usize, total: usize, outcome: Moved<VaultError>, zero: &str) -> (r: Progress<
    VaultError,
>)
    requires
        done <= total,
        outcome matches Moved::Bytes(n) ==> n <= total - done,
    ensures
        progress_value(r) == advanced(done, total, moved_value(outcome), zero@),
{
    match outcome {
        Moved::Interrupted => Progress::Go { from: done },
        Moved::Failed(e) => Progress::Failed(e),
        Moved::Bytes(n) => if n == 0 {
            Progress::Failed(VaultError::Io(IoFailure { os_code: None, text: zero.to_string() }))
        } else if done + n >= total {
            Progress::Done
        } else {
            Progress::Go { from: done + n }
        },
    }
}

/// The position never goes back, an interruption does not move it, and the end
/// is reached exactly when every byte was moved.
pub proof fn law_progress_is_exact(done: usize, total: usize, n: usize, zero: Seq<char>)
    requires
        done < total,
        n <= total - done,
    ensures
        advanced(done, total, Moved::Interrupted, zero) == (Progress::<Fault>::Go { from: done }),
        advanced(done, total, Moved::Bytes(n), zero) == Progress::<Fault>::Done <==> done + n
            == total,
        n > 0 && done + n < total ==> advanced(done, total, Moved::Bytes(n), zero) == (Progress::<
            Fault,
        >::Go { from: (done + n) as usize }),
{
}

/// What stands for a value stands for all of it: the same variant, with every part.
pub proof fn law_moved_value_is_faithful(m: Moved<VaultError>)
    ensures
        match (m, moved_value(m)) {
            (Moved::Bytes(n), Moved::Bytes(v0)) => v0 == n,
            (Moved::Interrupted, Moved::Interrupted) => true,
            (Moved::Failed(e), Moved::Failed(v0)) => v0 == e@,
            _ => false,
        },
{
}

/// What stands for a value stands for all of it: the same variant, with every part.
pub proof fn law_progress_value_is_faithful(p: Progress<VaultError>)
    ensures
        match (p, progress_value(p)) {
            (Progress::Go { from }, Progress::Go { from: from_v }) => from_v == from,
            (Progress::Done, Progress::Done) => true,
            (Progress::Failed(e), Progress::Failed(v0)) => v0 == e@,
            _ => false,
        },
{
}

} // verus!
