//! Running one script file: from what reading it gave to the result of the run.
use vstd::prelude::*;
use vstd::string::StringExecFns;
use crate::repl::EvaluationUnit;
use crate::report::{GuardOutcome, PendingException, is_pending, pending_after, option_text, pending_report_text, report_pending_exception};

verus! {

/// What came of reading a source file in full.
pub enum FileRead {
    /// The file could not be opened.
    OpenFailed,
    /// The file was opened but could not be read as text.
    ReadFailed,
    /// The whole content of the file.
    Contents(String),
}

/// Why a script run failed.
#[derive(PartialEq, Eq, Structural, Clone, Copy, Debug)]
pub enum ScriptError {
    Open,
    Read,
    Execute,
}

/// The end of a script run: what the guard does, and the run's result.
pub struct ScriptReport {
    pub guard: GuardOutcome,
    pub result: Result<i32, ScriptError>,
}

pub open spec fn script_error_text(e: ScriptError) -> Seq<char> {
    match e {
        ScriptError::Open => "Error opening source file"@,
        ScriptError::Read => "Error reading from source file"@,
        ScriptError::Execute => "Error executing script"@,
    }
}

impl ScriptError {
    /// The short message that describes this failure.
    pub fn message(&self) -> (r: String)
        ensures
            r@ == script_error_text(*self),
    {
        match self {
            ScriptError::Open => String::from_str("Error opening source file"),
            ScriptError::Read => String::from_str("Error reading from source file"),
            ScriptError::Execute => String::from_str("Error executing script"),
        }
    }

    /// The host-level line printed when a run fails: a file that cannot be
    /// opened or read is reported by its message; a failed evaluation prints
    /// nothing here, since the guard has reported the exception already.
    pub fn host_report(&self) -> (r: Option<String>)
        ensures
            (r is None) == (*self is Execute),
            r matches Some(m) ==> m@ == script_error_text(*self),
    {
        match self {
            ScriptError::Execute => None,
            _ => Some(self.message()),
        }
    }
}

/// The unit that runs the script at `path`, given what reading it gave: the
/// whole text, named by the path, from line one. A file that cannot be opened
/// or read never reaches the engine.
pub fn script_unit(path: &str, read: FileRead) -> (r: Result<EvaluationUnit, ScriptError>)
    ensures
        read is OpenFailed ==> r == Err::<EvaluationUnit, ScriptError>(ScriptError::Open),
        read is ReadFailed ==> r == Err::<EvaluationUnit, ScriptError>(ScriptError::Read),
        read matches FileRead::Contents(t) ==> (r matches Ok(u) && u.text@ == t@ && u.name@
            == path@ && u.start_line == 1),
{
    match read {
        FileRead::OpenFailed => Err(ScriptError::Open),
        FileRead::ReadFailed => Err(ScriptError::Read),
        FileRead::Contents(text) => Ok(
            EvaluationUnit { text, name: String::from_str(path), start_line: 1 },
        ),
    }
}

/// The end of a script run whose evaluation `succeeded` or not: the guard
/// reports and clears what is pending, and a failed evaluation fails the run.
/// The value of a script run is never printed.
pub fn finish_script(succeeded: bool, pending: &PendingException) -> (r: ScriptReport)
    ensures
        r.guard.clear_pending == is_pending(*pending),
        !pending_after(*pending, r.guard.clear_pending),
        option_text(r.guard.message) == pending_report_text(*pending),
        succeeded ==> r.result == Ok::<i32, ScriptError>(1),
        !succeeded ==> r.result == Err::<i32, ScriptError>(ScriptError::Execute),
{
    let guard = report_pending_exception(pending);
    let result = if succeeded {
        Ok(1)
    } else {
        Err(ScriptError::Execute)
    };
    ScriptReport { guard, result }
}

} // verus!
