//! Reporting of an exception left pending by an evaluation.
//!
//! Every evaluation is followed by one pass of the guard here, whatever the
//! evaluation returned: the caller asks the engine what is pending, hands the
//! answer over as a [`PendingException`], clears the engine's pending state
//! when told to, and prints the line it is given.
use vstd::prelude::*;
use vstd::string::StringExecFns;
use crate::text::{decimal, decimal_text};

verus! {

/// A struct encapsulating information about a runtime script error.
pub struct ErrorInfo {
    /// The error message.
    pub message: String,
    /// The file name.
    pub filename: String,
    /// The line number.
    pub lineno: libc::c_uint,
    /// The column number.
    pub column: libc::c_uint,
}

/// What the engine says about its pending exception after an evaluation.
pub enum PendingException {
    /// No exception is pending.
    Nothing,
    /// An exception is pending, but the engine could not hand its value over.
    Unreadable,
    /// The pending value is an error object with an error report.
    Report {
        filename: Option<String>,
        lineno: libc::c_uint,
        column: libc::c_uint,
        message: String,
    },
    /// The pending value is anything else, given in its textual form.
    Thrown(String),
}

/// What the guard does with the engine's pending state.
pub struct GuardOutcome {
    /// Whether the pending exception is to be cleared.
    pub clear_pending: bool,
    /// The diagnostic line to print, if any.
    pub message: Option<String>,
}

pub open spec fn is_pending(p: PendingException) -> bool {
    !(p is Nothing)
}

/// Whether the guard clears the engine's pending state after `p` was seen.
/// Whether an exception is still pending once the guard, having seen `p`,
/// has cleared the engine's pending state or not as `clear` says.
pub open spec fn pending_after(p: PendingException, clear: bool) -> bool {
    is_pending(p) && !clear
}

pub open spec fn no_filename_text() -> Seq<char> {
    seq!['n', 'o', 'n', 'e']
}

pub open spec fn thrown_prefix() -> Seq<char> {
    "Thrown value: "@
}

pub open spec fn unreadable_text() -> Seq<char> {
    "Uncaught exception: JS_GetPendingException failed"@
}

/// The line that reports an error with the given parts.
pub open spec fn report_text(filename: Seq<char>, lineno: nat, column: nat, message: Seq<char>) -> Seq<char> {
    "Uncaught exception at "@ + filename + ":"@ + decimal_text(lineno) + ":"@ + decimal_text(column)
        + " - "@ + message
}

/// The line printed for pending exception `p`, if any.
pub open spec fn pending_report_text(p: PendingException) -> Option<Seq<char>> {
    match p {
        PendingException::Nothing => None,
        PendingException::Unreadable => Some(unreadable_text()),
        PendingException::Report { filename, lineno, column, message } => Some(
            report_text(
                match filename {
                    Some(f) => f@,
                    None => no_filename_text(),
                },
                lineno as nat,
                column as nat,
                message@,
            ),
        ),
        PendingException::Thrown(t) => Some(
            report_text(no_filename_text(), 0, 0, thrown_prefix() + t@),
        ),
    }
}

pub open spec fn option_text(o: Option<String>) -> Option<Seq<char>> {
    match o {
        Some(s) => Some(s@),
        None => None,
    }
}

impl ErrorInfo {
    /// The error information of a pending value, or `None` where nothing
    /// can be read of it.
    pub fn from_pending(p: &PendingException) -> (r: Option<ErrorInfo>)
        ensures
            (r is Some) == (p is Report || p is Thrown),
            r matches Some(e) ==> match p {
                PendingException::Report { filename, lineno, column, message } => {
                    &&& e.filename@ == (match filename {
                        Some(f) => f@,
                        None => no_filename_text(),
                    })
                    &&& e.lineno == lineno
                    &&& e.column == column
                    &&& e.message@ == message@
                },
                PendingException::Thrown(t) => {
                    &&& e.filename@ == no_filename_text()
                    &&& e.lineno == 0
                    &&& e.column == 0
                    &&& e.message@ == thrown_prefix() + t@
                },
                _ => false,
            },
    {
        match p {
            PendingException::Report { filename, lineno, column, message } => {
                let filename = match filename {
                    Some(f) => f.clone(),
                    None => {
                        proof {
                            reveal_strlit("none");
                        }
                        String::from_str("none")
                    },
                };
                Some(ErrorInfo { message: message.clone(), filename, lineno: *lineno, column: *column })
            },
            PendingException::Thrown(t) => {
                let message = String::from_str("Thrown value: ").concat(t.as_str());
                proof {
                    reveal_strlit("none");
                }
                Some(ErrorInfo { message, filename: String::from_str("none"), lineno: 0, column: 0 })
            },
            _ => None,
        }
    }

    /// The line that reports this error.
    pub fn report_line(&self) -> (r: String)
        ensures
            r@ == report_text(self.filename@, self.lineno as nat, self.column as nat, self.message@),
    {
        let mut r = String::from_str("Uncaught exception at ");
        r.append(self.filename.as_str());
        r.append(":");
        r.append(decimal(self.lineno).as_str());
        r.append(":");
        r.append(decimal(self.column).as_str());
        r.append(" - ");
        r.append(self.message.as_str());
        r
    }
}

/// Decides what to do about the exception that an evaluation left pending:
/// anything pending is cleared, so that none outlives the guard into the
/// next evaluation, and reported where something is known of it.
pub fn report_pending_exception(p: &PendingException) -> (r: GuardOutcome)
    ensures
        r.clear_pending == is_pending(*p),
        !pending_after(*p, r.clear_pending),
        option_text(r.message) == pending_report_text(*p),
{
    match p {
        PendingException::Nothing => GuardOutcome { clear_pending: false, message: None },
        PendingException::Unreadable => GuardOutcome {
            clear_pending: true,
            message: Some(String::from_str("Uncaught exception: JS_GetPendingException failed")),
        },
        _ => {
            let info = ErrorInfo::from_pending(p);
            match info {
                Some(e) => GuardOutcome { clear_pending: true, message: Some(e.report_line()) },
                None => GuardOutcome { clear_pending: true, message: None },
            }
        },
    }
}

} // verus!
