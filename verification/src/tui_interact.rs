//! Whether the `ratatui-interact` integration (Tab order of field-and-list overlays)
//! is built in.
use vstd::prelude::*;

verus! {

/// Always true: the integration is part of this library.
pub fn enabled() -> (r: bool)
    ensures
        r,
{
    true
}

} // verus!
