//! Log sinks of the runtime. Emission is left to embedders: the runtime
//! itself only defines the two severities it distinguishes, so that callers
//! have a stable place to route diagnostics through.

use vstd::prelude::*;

verus! {

/// Routine diagnostic output.
pub fn info(msg: String) {
    let _ = msg;
}

/// A failure worth surfacing to an operator.
pub fn error(msg: String) {
    let _ = msg;
}

} // verus!
