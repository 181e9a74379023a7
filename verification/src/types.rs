//! Status codes that commands report.
use vstd::prelude::*;

verus! {

/// Error codes returned to the WebCrypt client.
#[allow(non_camel_case_types)]
#[derive(Clone, Copy, Debug, PartialEq, Eq, Structural)]
pub enum ERROR_ID {
    /// An operation inside the device failed (e.g. an encoding could not be produced).
    ERR_INTERNAL_ERROR,
}

} // verus!
