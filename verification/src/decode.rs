//! The format dispatcher: tries the legacy grammar, then the 2.2 grammar,
//! then the 4.1 grammar, each against the whole buffer, and returns the
//! first structural match as the canonical mesh. Only exhaustion of all
//! three alternatives, or an unsupported element topology, reaches the
//! caller.

use vstd::prelude::*;

pub mod v1;
pub mod v2;
pub mod v4;

use crate::decode::v4::legacy_of;
use crate::mesh::{Mesh, MeshV};
use crate::step::Step;

verus! {

/// Why a buffer failed to decode.
#[derive(Clone, Copy, Debug, PartialEq, Eq, Structural)]
pub enum DecodeError {
    /// No dialect matched; `at` is the most specific position any of the
    /// three attempts reached.
    NoGrammarMatched { at: usize },
    /// An element type code outside the supported table, at `at`; decoding
    /// aborted without trying further dialects.
    UnsupportedTopology { at: usize },
}

/// The larger of two positions.
pub open spec fn pos_max(a: int, b: int) -> int {
    if a >= b {
        a
    } else {
        b
    }
}

/// What decoding a buffer yields: the first dialect, in the fixed order
/// legacy, 2.2, 4.1, whose grammar matches, normalised to the canonical
/// mesh; an unsupported topology aborts at once, and if every dialect
/// misses, the most specific position reached is reported.
pub open spec fn sp_decode(s: Seq<u8>) -> Result<MeshV, DecodeError> {
    match v1::sp_mesh(s, 0) {
        Step::Hit { val, .. } => Result::Ok(val),
        Step::Fatal { at } => Result::Err(DecodeError::UnsupportedTopology { at: at as usize }),
        Step::Miss { at: a1 } => match v2::sp_mesh(s, 0) {
            Step::Hit { val, .. } => Result::Ok(val),
            Step::Fatal { at } => Result::Err(
                DecodeError::UnsupportedTopology { at: at as usize },
            ),
            Step::Miss { at: a2 } => match v4::sp_mesh(s, 0) {
                Step::Hit { val, .. } => Result::Ok(legacy_of(val)),
                Step::Fatal { at } => Result::Err(
                    DecodeError::UnsupportedTopology { at: at as usize },
                ),
                Step::Miss { at: a3 } => Result::Err(
                    DecodeError::NoGrammarMatched { at: pos_max(pos_max(a1, a2), a3) as usize },
                ),
            },
        },
    }
}

/// Decodes a mesh text buffer: tries the legacy dialect, then 2.2, then
/// 4.1, in that order, against the whole buffer, and returns the first
/// structural match as the canonical mesh.
pub fn mesh(s: &[u8]) -> (r: Result<Mesh, DecodeError>)
    ensures
        (match (r, sp_decode(s@)) {
            (Result::Ok(m), Result::Ok(mv)) => m@ == mv,
            (Result::Err(e), Result::Err(ev)) => e == ev,
            _ => false,
        }),
{
    let f1 = match v1::mesh(s, 0) {
        Ok((_, m)) => {
            return Ok(m);
        },
        Err(f) => f,
    };
    if f1.fatal {
        return Err(DecodeError::UnsupportedTopology { at: f1.at });
    }
    let f2 = match v2::mesh(s, 0) {
        Ok((_, m)) => {
            return Ok(m);
        },
        Err(f) => f,
    };
    if f2.fatal {
        return Err(DecodeError::UnsupportedTopology { at: f2.at });
    }
    let f3 = match v4::mesh(s, 0) {
        Ok((_, m4)) => {
            return Ok(m4.to_legacy());
        },
        Err(f) => f,
    };
    if f3.fatal {
        return Err(DecodeError::UnsupportedTopology { at: f3.at });
    }
    let m12 = if f1.at >= f2.at {
        f1.at
    } else {
        f2.at
    };
    let deepest = if m12 >= f3.at {
        m12
    } else {
        f3.at
    };
    Err(DecodeError::NoGrammarMatched { at: deepest })
}

} // verus!
