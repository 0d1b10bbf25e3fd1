//! Handles of the applications that drivers serve, and the callbacks that
//! drivers schedule for them.

use vstd::prelude::*;
use vstd::arithmetic::div_mod::{lemma_fundamental_div_mod, lemma_fundamental_div_mod_converse};
use crate::returncode::ReturnCode;

verus! {

/// Identifies one application; also its index into a driver's per-application
/// state.
#[derive(Clone, Copy, Debug, PartialEq, Eq, Structural)]
pub struct AppId {
    pub idx: usize,
}

/// A function an application registered to be called back.
#[derive(Clone, Copy, Debug, PartialEq, Eq, Structural)]
pub struct Callback {
    pub app: AppId,
    pub id: usize,
}

/// One scheduled invocation of a callback, with its three arguments.
#[derive(Clone, Copy, Debug, PartialEq, Eq, Structural)]
pub struct Upcall {
    pub callback: Callback,
    pub r0: usize,
    pub r1: usize,
    pub r2: usize,
}

/// The answer to a request that may need a device: either the code is known
/// at once, or the device is to be asked and its answer is the answer to the
/// request.
#[derive(Debug, PartialEq, Eq, Structural)]
pub enum Answer<R> {
    Code(ReturnCode),
    Device(R),
}

impl AppId {
    /// The handle of the application stored at `idx`.
    pub fn new(idx: usize) -> (r: AppId)
        ensures
            r.idx == idx,
    {
        AppId { idx }
    }

    /// The index of the application's state.
    pub fn idx(&self) -> (r: usize)
        ensures
            r == self.idx,
    {
        self.idx
    }
}

impl Callback {
    /// A callback `id` registered by `app`.
    pub fn new(app: AppId, id: usize) -> (r: Callback)
        ensures
            r == (Callback { app, id }),
    {
        Callback { app, id }
    }

    /// The invocation of this callback with arguments `r0`, `r1`, `r2`.
    pub fn schedule(&self, r0: usize, r1: usize, r2: usize) -> (u: Upcall)
        ensures
            u == (Upcall { callback: *self, r0, r1, r2 }),
    {
        Upcall { callback: *self, r0, r1, r2 }
    }
}

/// A signed number as the machine word that a callback carries: the number
/// itself if it is not negative, else counted down from the top of the
/// word's range.
pub open spec fn as_word(x: int) -> usize {
    (x % (usize::MAX + 1)) as usize
}

/// Turns a signed number into the machine word that a callback carries.
pub fn to_word(x: i64) -> (w: usize)
    ensures
        w == as_word(x as int),
{
    let modulus: u128 = (usize::MAX as u128) + 1;
    if x >= 0 {
        ((x as u128) % modulus) as usize
    } else {
        let magnitude: u128 = (-(x as i128)) as u128;
        let rest: u128 = magnitude % modulus;
        proof {
            let m = modulus as int;
            let q = magnitude as int / m;
            lemma_fundamental_div_mod(magnitude as int, m);
            if rest == 0 {
                assert(x as int == (-q) * m + 0) by (nonlinear_arith)
                    requires
                        magnitude == m * q + rest,
                        rest == 0,
                        x as int == -magnitude,
                ;
                lemma_fundamental_div_mod_converse(x as int, m, -q, 0);
            } else {
                assert(x as int == (-q - 1) * m + (m - rest)) by (nonlinear_arith)
                    requires
                        magnitude == m * q + rest,
                        x as int == -magnitude,
                ;
                lemma_fundamental_div_mod_converse(x as int, m, -q - 1, m - rest);
            }
        }
        if rest == 0 {
            0
        } else {
            (modulus - rest) as usize
        }
    }
}

/// The code reported when per-application state cannot be entered because the
/// application does not exist.
pub open spec fn spec_no_such_app() -> ReturnCode {
    ReturnCode::EINVAL
}

/// The code reported when per-application state cannot be entered because the
/// application does not exist.
pub fn no_such_app() -> (r: ReturnCode)
    ensures
        r == spec_no_such_app(),
{
    ReturnCode::EINVAL
}

} // verus!
