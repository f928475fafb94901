//! Depth presets for depth tests.
//!
//! Depth testing is used to avoid drawing "further away" fragments on top
//! of already drawn fragments.  Each fragment's output depth is tested
//! against a depth buffer; if the test fails the fragment is not drawn.

use vstd::prelude::*;

use crate::state::{Comparison, Depth};

verus! {

/// When rendering a fragment, draw regardless of depth buffer state.
/// Rendering will not update the depth buffer.
pub fn pass_test() -> (r: Depth)
    ensures
        r == (Depth { fun: Comparison::Always, write: false }),
{
    Depth { fun: Comparison::Always, write: false }
}

/// When rendering a fragment, draw regardless of depth buffer state.
/// Rendering will update the depth buffer.
pub fn pass_write() -> (r: Depth)
    ensures
        r == (Depth { fun: Comparison::Always, write: true }),
{
    Depth { fun: Comparison::Always, write: true }
}

/// When rendering a fragment, only draw when the fragment's output depth
/// is less than or equal to the current depth buffer value.  Rendering
/// will not update the depth buffer.
pub fn less_equal_test() -> (r: Depth)
    ensures
        r == (Depth { fun: Comparison::LessEqual, write: false }),
{
    Depth { fun: Comparison::LessEqual, write: false }
}

/// When rendering a fragment, only draw when the fragment's output depth
/// is less than or equal to the current depth buffer value.  Rendering
/// will update the depth buffer with the new depth value.
pub fn less_equal_write() -> (r: Depth)
    ensures
        r == (Depth { fun: Comparison::LessEqual, write: true }),
{
    Depth { fun: Comparison::LessEqual, write: true }
}

} // verus!
