//! The error taxonomy of the wrapper.

use vstd::prelude::*;

verus! {

/// The generic failure code reported by the native layer when a value
/// cannot be produced (for example, a parameter read of a name that was
/// never written).
pub const RESULT_FAIL: u32 = 0xBAD0_0000;

/// An error produced by the wrapper.
///
/// Any non-success code returned by a native entry point is preserved
/// verbatim in [`Error::NativeResult`]; semantic failures of the wrapper
/// itself (type mismatches, unmet capabilities, conversion failures) carry
/// a descriptive message in [`Error::Other`].
#[derive(Debug, Clone)]
pub enum Error {
    /// A non-success result code returned by a native entry point.
    NativeResult(u32),
    /// A wrapper-level failure with a descriptive message.
    Other(String),
}

impl Error {
    /// True if this error is the generic native failure code.
    pub open spec fn is_native_fail(&self) -> bool {
        self matches Error::NativeResult(c) && c == RESULT_FAIL
    }

    /// Returns a human-readable rendering of the error.
    pub fn message(&self) -> (r: String)
        ensures
            self matches Error::Other(m) ==> r@ == m@,
            self matches Error::NativeResult(c) ==> r@ == "native result code "@
                + crate::decimal::spec_decimal(*c),
    {
        match self {
            Error::NativeResult(c) => {
                let mut s = String::from_str("native result code ");
                let code = crate::decimal::u32_to_string(*c);
                s.append(code.as_str());
                s
            },
            Error::Other(m) => m.clone(),
        }
    }
}

} // verus!
