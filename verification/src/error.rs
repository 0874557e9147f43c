//! The errors that the library reports, and their messages.

use crate::ports::{PortBinding, PortBindingView};
use crate::text::{decimal, decimal_digits};
use vstd::prelude::*;

verus! {

/// An input to a request that the daemon does not accept.
#[derive(Debug)]
pub enum ValidationError {
    /// A port number outside `0..=65535`.
    InvalidPort,
    /// A port binding that conflicts with one that the container has.
    PortConflict { offered: PortBinding, existing: PortBinding },
    /// A cron expression that cannot be parsed.
    InvalidSchedule { expression: String },
    /// A request for a stream that came without the mark that the caller
    /// accepts more than one reply.
    RequiresMore,
    /// A directory for the search path of a script that holds a colon.
    InvalidPath,
}

/// The model of a `ValidationError`.
pub enum ValidationErrorView {
    InvalidPort,
    PortConflict { offered: PortBindingView, existing: PortBindingView },
    InvalidSchedule { expression: Seq<char> },
    RequiresMore,
    InvalidPath,
}

impl DeepView for ValidationError {
    type V = ValidationErrorView;

    open spec fn deep_view(&self) -> ValidationErrorView {
        match self {
            ValidationError::InvalidPort => ValidationErrorView::InvalidPort,
            ValidationError::PortConflict { offered, existing } => ValidationErrorView::PortConflict {
                offered: offered@,
                existing: existing@,
            },
            ValidationError::InvalidSchedule { expression } => ValidationErrorView::InvalidSchedule {
                expression: expression@,
            },
            ValidationError::RequiresMore => ValidationErrorView::RequiresMore,
            ValidationError::InvalidPath => ValidationErrorView::InvalidPath,
        }
    }
}

impl View for ValidationError {
    type V = ValidationErrorView;

    open spec fn view(&self) -> ValidationErrorView {
        self.deep_view()
    }
}

/// How a script failed.
#[derive(Clone, Copy, Debug, PartialEq, Eq, Structural)]
pub enum ScriptError {
    /// The script exited with a code other than 0.
    HostScriptFailed(u32),
    /// A signal ended the script.
    HostScriptSignaled(u8),
    /// The script ended in some other way.
    HostScriptAbnormal,
}

/// A port binding as text: host port, `:`, container port, `/`, protocol.
pub open spec fn binding_text(b: PortBindingView) -> Seq<char> {
    decimal_digits(b.host_port as nat) + seq![':'] + decimal_digits(b.container_port as nat)
        + seq!['/'] + b.protocol
}

/// The message of a validation error.
pub open spec fn validation_message(e: ValidationErrorView) -> Seq<char> {
    match e {
        ValidationErrorView::InvalidPort => "Invalid port number"@,
        ValidationErrorView::PortConflict { offered, existing } => "Not adding port binding `"@
            + binding_text(offered)
            + "` because it conflicts with a port binding already added to the container: "@
            + binding_text(existing),
        ValidationErrorView::InvalidSchedule { expression } => "Invalid cron expression: "@
            + expression,
        ValidationErrorView::RequiresMore => "This call must be made with the more flag"@,
        ValidationErrorView::InvalidPath => "Path contains invalid character"@,
    }
}

/// The message of a script error, for the script of the given name.
pub open spec fn script_error_message(e: ScriptError, script: Seq<char>) -> Seq<char> {
    match e {
        ScriptError::HostScriptFailed(code) => "Host script \""@ + script
            + "\" exited non-zero ("@ + decimal_digits(code as nat) + ")"@,
        ScriptError::HostScriptSignaled(signal) => "Host script \""@ + script
            + "\" terminated by signal ("@ + decimal_digits(signal as nat) + ")"@,
        ScriptError::HostScriptAbnormal => "Host script \""@ + script + "\" failed"@,
    }
}

impl PortBinding {
    /// The binding as text.
    pub fn to_text(&self) -> (r: String)
        ensures
            r@ == binding_text(self@),
    {
        proof {
            reveal_strlit(":");
            reveal_strlit("/");
        }
        let r = decimal(self.host_port as u64).concat(":").concat(
            decimal(self.container_port as u64).as_str(),
        ).concat("/").concat(self.protocol.as_str());
        assert(r@ =~= binding_text(self@));
        r
    }
}

impl ValidationError {
    /// The message that goes to the caller.
    pub fn message(&self) -> (r: String)
        ensures
            r@ == validation_message(self@),
    {
        match self {
            ValidationError::InvalidPort => "Invalid port number".to_owned(),
            ValidationError::PortConflict { offered, existing } => {
                let r = "Not adding port binding `".to_owned().concat(
                    offered.to_text().as_str(),
                ).concat(
                    "` because it conflicts with a port binding already added to the container: ",
                ).concat(existing.to_text().as_str());
                assert(r@ =~= validation_message(self@));
                r
            },
            ValidationError::InvalidSchedule { expression } => {
                "Invalid cron expression: ".to_owned().concat(expression.as_str())
            },
            ValidationError::RequiresMore => "This call must be made with the more flag".to_owned(),
            ValidationError::InvalidPath => "Path contains invalid character".to_owned(),
        }
    }
}

impl ScriptError {
    /// The message that goes to the caller, for the script of the given
    /// name.
    pub fn message(&self, script: &str) -> (r: String)
        ensures
            r@ == script_error_message(*self, script@),
    {
        let head = "Host script \"".to_owned().concat(script);
        match self {
            ScriptError::HostScriptFailed(code) => {
                let r = head.concat("\" exited non-zero (").concat(
                    decimal(*code as u64).as_str(),
                ).concat(")");
                assert(r@ =~= script_error_message(*self, script@));
                r
            },
            ScriptError::HostScriptSignaled(signal) => {
                let r = head.concat("\" terminated by signal (").concat(
                    decimal(*signal as u64).as_str(),
                ).concat(")");
                assert(r@ =~= script_error_message(*self, script@));
                r
            },
            ScriptError::HostScriptAbnormal => head.concat("\" failed"),
        }
    }
}

} // verus!
