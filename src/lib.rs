//! A command-line host for an embedded script engine, reduced to its
//! decisions: how startup toggles become engine tuning, how the interactive
//! loop buffers lines into compilable units, how a pending exception is
//! reported and cleared, and what the host builtins hand back to scripts.
//! The engine itself, the terminal and the file system are driven by the
//! caller, which feeds each outcome back into the state machines here.

pub mod builtins;
pub mod config;
pub mod repl;
pub mod report;
pub mod script;
pub mod text;

pub use builtins::{BuiltinResult, LoadAction, LoadCall, LoadPhase, ReadAttempt, print_builtin, read_result};
pub use config::{Builtin, EngineTuning, GcMode, RunConfiguration, host_builtins};
pub use repl::{EvalOutcome, EvaluationUnit, Phase, ReplAction, ReplSession, TurnReport};
pub use report::{ErrorInfo, GuardOutcome, PendingException, report_pending_exception};
pub use script::{FileRead, ScriptError, ScriptReport, finish_script, script_unit};
pub use text::{decimal, join_with_spaces};
