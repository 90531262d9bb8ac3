//! A second WGSL checker with the same checks as `Naga`, kept for callers
//! that hold a `WgslValidator`.

use vstd::prelude::*;
use crate::naga::check_shader;
use crate::wgsl_error::WgslError;

verus! {

/// A WGSL checker: naga's validator with every check and capability on.
pub struct WgslValidator {
    validator: crate::naga_support::FullValidator,
}

impl WgslValidator {
    /// The validator that this checker checks with, in its present state.
    pub closed spec fn checker(self) -> crate::naga_support::FullValidator {
        self.validator
    }

    /// A checker with every validation flag and capability on, as naga
    /// builds it: it judges every shader as a freshly built full validator.
    pub fn new() -> (v: Self)
        ensures
            crate::naga_support::is_fresh(v.checker()),
    {
        WgslValidator { validator: crate::naga_support::FullValidator::new() }
    }

    /// Checks a WGSL shader: it must parse, and naga's validator must accept
    /// the module. See `validation_outcome` for each result, stated for the
    /// checker as it was before the call.
    pub fn validate_wgsl(&mut self, shader: &str) -> (r: Result<(), WgslError>)
        ensures
            crate::naga::validation_outcome(shader, old(self).checker(), r),
    {
        check_shader(&mut self.validator, shader)
    }
}

} // verus!
