//! Whether the tool is there to be run, and what came of providing it.
//!
//! Starting the probe and fetching the tool are the caller's work; this module
//! holds what is asked of the tool and how the answers are read.

use vstd::prelude::*;
use vstd::string::StringExecFns;
use crate::error::OperationError;
use crate::text::texts;

verus! {

/// The arguments of the probe: a query for the tool's version. The tool counts
/// as installed exactly when a process with these arguments can be started.
pub fn probe_arguments() -> (arguments: Vec<String>)
    ensures
        texts(arguments@) == seq!["-version"@],
{
    let mut arguments: Vec<String> = Vec::new();
    arguments.push(String::from_str("-version"));
    proof {
        assert(texts(arguments@) =~= seq!["-version"@]);
    }
    arguments
}

/// Reads the answer of the provisioning step: success stays success, and a
/// failure is reported as an install error with the reason as it was given.
pub fn installation_result(provisioned: Result<(), String>) -> (result: Result<(), OperationError>)
    ensures
        provisioned is Ok <==> result is Ok,
        provisioned matches Err(reason) ==> (result matches Err(OperationError::InstallError(text))
            && text@ == reason@),
{
    match provisioned {
        Ok(()) => Ok(()),
        Err(reason) => Err(OperationError::InstallError(reason)),
    }
}

} // verus!
