//! Definitions shared by the debug-target backends.
//!
//! Every backend exposes the same operations — word and byte reads,
//! register access, halt/run control, and the `op_start`/`op_done`
//! bracket — over a different transport.  This module holds what they
//! share: the read-size bound and the probe-argument parser.

use crate::util::{dec_value, find_byte, is_dec_token};
use vstd::prelude::*;

verus! {

/// The largest byte read any backend accepts in one call.
pub const CORE_MAX_READSIZE: usize = 65536;

/// Whether `i` is the position of the only dash in `s`.
pub open spec fn single_dash_at(s: Seq<u8>, i: int) -> bool {
    &&& 0 <= i < s.len()
    &&& s[i] == 0x2d
    &&& forall|j: int| 0 <= j < s.len() && j != i ==> s[j] != 0x2d
}

/// Splits a probe argument of the shape `name-index` into the name and the
/// index: only when the argument holds exactly one dash and what follows it
/// is a decimal number.  Anything else is a bare probe name.
pub fn parse_probe(probe: &[u8]) -> (r: (Vec<u8>, Option<usize>))
    ensures
        match r.1 {
            Some(v) => exists|i: int|
                #[trigger] single_dash_at(probe@, i) && is_dec_token(probe@.skip(i + 1))
                    && dec_value(probe@.skip(i + 1)) == v && r.0@ == probe@.take(i),
            None => r.0@ == probe@ && forall|i: int|
                #[trigger] single_dash_at(probe@, i) ==> !(is_dec_token(probe@.skip(i + 1))
                    && dec_value(probe@.skip(i + 1)) <= usize::MAX),
        },
{
    let n = probe.len();
    let whole = vstd::slice::slice_to_vec(probe);
    let i = match find_byte(probe, 0x2d) {
        Some(i) => i,
        None => {
            return (whole, None);
        },
    };
    let rest = vstd::slice::slice_subrange(probe, i + 1, n);
    proof {
        assert(rest@ =~= probe@.skip(i + 1));
    }
    if find_byte(rest, 0x2d).is_some() {
        proof {
            assert forall|k: int| #[trigger] single_dash_at(probe@, k) implies false by {
                let j = choose|j: int| 0 <= j < rest@.len() && rest@[j] == 0x2d;
                assert(probe@[i + 1 + j] == 0x2d);
            }
        }
        return (whole, None);
    }
    match crate::util::parse_usize_dec(rest) {
        Some(v) => {
            let name = vstd::slice::slice_to_vec(vstd::slice::slice_subrange(probe, 0, i));
            proof {
                assert(single_dash_at(probe@, i as int)) by {
                    assert(forall|j: int|
                        0 <= j < probe@.len() && j != i ==> #[trigger] probe@[j] != 0x2d) by {
                        assert forall|j: int|
                            0 <= j < probe@.len() && j != i implies #[trigger] probe@[j]
                            != 0x2d by {
                            if j > i {
                                assert(rest@[j - i - 1] == probe@[j]);
                            }
                        }
                    }
                }
                assert(name@ =~= probe@.take(i as int));
            }
            (name, Some(v))
        },
        None => {
            proof {
                assert forall|k: int|
                    #[trigger] single_dash_at(probe@, k) implies !(is_dec_token(probe@.skip(k + 1))
                    && dec_value(probe@.skip(k + 1)) <= usize::MAX) by {
                    assert(k == i) by {
                        if k != i {
                            assert(probe@[i as int] == 0x2d);
                        }
                    }
                }
            }
            (whole, None)
        },
    }
}

} // verus!
