//! Detection parameters, held by libresdet and reached through a handle.
use vstd::prelude::*;
use crate::error::{ResdetError, status_of, status_result};

verus! {

/// Parameters for resolution detection. The handle names the parameter block that
/// libresdet allocated; it is never null.
pub struct Parameters {
    handle: usize,
}

impl Parameters {
    #[verifier::type_invariant]
    spec fn handle_is_set(self) -> bool {
        self.handle != 0
    }

    /// The handle of the parameter block.
    pub closed spec fn handle(&self) -> usize {
        self.handle
    }

    /// Create parameters with default values. `alloc` asks libresdet for a block of default
    /// parameters and hands back its handle, 0 where the allocation failed.
    pub fn new<F: Fn() -> usize>(alloc: F) -> (res: Result<Self, ResdetError>)
        requires
            alloc.requires(()),
        ensures
            exists|h: usize|
                #[trigger] alloc.ensures((), h) && (if h == 0 {
                    res == Err::<Self, ResdetError>(ResdetError::OutOfMemory)
                } else {
                    res matches Ok(p) && p.handle() == h
                }),
    {
        let h = alloc();
        if h == 0 {
            return Err(ResdetError::OutOfMemory);
        }
        Ok(Parameters { handle: h })
    }

    /// Set the detection range. `set` hands the handle and the range to libresdet and
    /// returns its status code.
    pub fn set_range<F: Fn(usize, usize) -> i32>(&mut self, range: usize, set: F) -> (res: Result<(), ResdetError>)
        requires
            set.requires((old(self).handle(), range)),
        ensures
            *final(self) == *old(self),
            exists|code: i32| #[trigger] set.ensures((old(self).handle(), range), code) && res == status_of(code)
                && (res is Ok <==> code == 0),
    {
        let code = set(self.handle, range);
        status_result(code)
    }

    /// Set the detection threshold, given as the bit pattern of an `f32`. `set` hands the
    /// handle and the threshold to libresdet and returns its status code.
    pub fn set_threshold<F: Fn(usize, u32) -> i32>(&mut self, threshold_bits: u32, set: F) -> (res: Result<(), ResdetError>)
        requires
            set.requires((old(self).handle(), threshold_bits)),
        ensures
            *final(self) == *old(self),
            exists|code: i32| #[trigger] set.ensures((old(self).handle(), threshold_bits), code) && res == status_of(code)
                && (res is Ok <==> code == 0),
    {
        let code = set(self.handle, threshold_bits);
        status_result(code)
    }

    /// The handle of the parameter block, never null.
    pub fn as_ptr(&self) -> (res: usize)
        ensures
            res == self.handle(),
            res != 0,
    {
        proof {
            use_type_invariant(self);
        }
        self.handle
    }
}

} // verus!
