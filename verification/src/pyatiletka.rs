//! The five-year-plan panel. Its targets, progress and colours are all
//! fractional quantities, which this library does not hold; only the panel
//! type itself lives here.
use vstd::prelude::*;

verus! {

/// The five-year-plan panel.
pub struct PyatiletkaPanel;

} // verus!
