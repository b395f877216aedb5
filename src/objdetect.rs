//! Object detection: the outcome of loading a cascade model.
use crate::CvError;
use vstd::prelude::*;
use vstd::string::StringExecFns;

verus! {

/// The outcome of loading a cascade model from `path`, given the status the
/// native loader returned (zero where the model could not be loaded).
pub fn cascade_load_result(status: i32, path: &str) -> (r: Result<(), CvError>)
    ensures
        match r {
            Ok(()) => status != 0,
            Err(e) => status == 0 && (e matches CvError::InvalidCascadeModel(t) && t@ == path@),
        },
{
    if status != 0 {
        Ok(())
    } else {
        Err(CvError::InvalidCascadeModel(String::from_str(path)))
    }
}

} // verus!
