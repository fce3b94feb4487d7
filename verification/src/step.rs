//! The outcome model shared by every decoder: a grammar element either
//! matches (yielding the next input position and a value), misses (a
//! recoverable grammar mismatch at a position), or fails fatally (an
//! unsupported element topology, which no alternative may absorb).

use vstd::prelude::*;

verus! {

/// Specification-level outcome of running one grammar element against the
/// input at a given position.
#[verifier::ext_equal]
pub enum Step<T> {
    /// The element matched; `next` is the first position after it.
    Hit { next: int, val: T },
    /// The element did not match at position `at`; the dispatcher may try
    /// another whole-grammar alternative.
    Miss { at: int },
    /// An unsupported element topology at position `at`; decoding aborts.
    Fatal { at: int },
}

/// Executable-side failure: the position reached and whether the failure is
/// fatal (fatal failures abort the whole decode, never backtrack).
#[derive(Clone, Copy, Debug, PartialEq, Eq, Structural)]
pub struct Fail {
    pub at: usize,
    pub fatal: bool,
}

impl Fail {
    /// A recoverable mismatch at `at`.
    pub fn miss(at: usize) -> (r: Fail)
        ensures
            r.at == at && !r.fatal,
    {
        Fail { at, fatal: false }
    }

    /// A fatal fault at `at`.
    pub fn fatal(at: usize) -> (r: Fail)
        ensures
            r.at == at && r.fatal,
    {
        Fail { at, fatal: true }
    }
}

/// The executable result `r` realises the specified outcome `st`, with
/// `vw` translating the executable value into its model and positions
/// staying inside an input of length `len` that starts at `i`.
pub open spec fn agrees<E, T>(
    len: int,
    i: int,
    r: Result<(usize, E), Fail>,
    st: Step<T>,
    vw: spec_fn(E) -> T,
) -> bool {
    match (r, st) {
        (Result::Ok((j, v)), Step::Hit { next, val }) => {
            &&& j == next
            &&& vw(v) == val
            &&& i <= j <= len
        },
        (Result::Err(f), Step::Miss { at }) => !f.fatal && f.at == at && f.at <= len,
        (Result::Err(f), Step::Fatal { at }) => f.fatal && f.at == at && f.at <= len,
        _ => false,
    }
}

/// Passes a miss or a fatal fault through unchanged; meaningful only on
/// outcomes that are not hits.
pub open spec fn carry<T, U>(st: Step<T>) -> Step<U>
    recommends
        !(st is Hit),
{
    match st {
        Step::Hit { .. } => Step::Miss { at: 0 },
        Step::Miss { at } => Step::Miss { at },
        Step::Fatal { at } => Step::Fatal { at },
    }
}

/// Repetition: exactly `n` copies of the element described by `f`, one
/// after the other, accumulating their values onto `acc`.
pub open spec fn sp_list<T>(f: spec_fn(int) -> Step<T>, i: int, n: nat, acc: Seq<T>) -> Step<
    Seq<T>,
>
    decreases n,
{
    if n == 0 {
        Step::Hit { next: i, val: acc }
    } else {
        match f(i) {
            Step::Hit { next, val } => sp_list(f, next, (n - 1) as nat, acc.push(val)),
            Step::Miss { at } => Step::Miss { at },
            Step::Fatal { at } => Step::Fatal { at },
        }
    }
}

/// A matched repetition of `n` elements yields exactly `n` values beyond
/// the accumulator it started from.
pub proof fn lemma_sp_list_len<T>(f: spec_fn(int) -> Step<T>, i: int, n: nat, acc: Seq<T>)
    ensures
        match sp_list(f, i, n, acc) {
            Step::Hit { val, .. } => val.len() == acc.len() + n,
            _ => true,
        },
    decreases n,
{
    if n != 0 {
        match f(i) {
            Step::Hit { next, val } => {
                lemma_sp_list_len(f, next, (n - 1) as nat, acc.push(val));
            },
            _ => {},
        }
    }
}

} // verus!
