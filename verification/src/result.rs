//! Errors of the layer, and the translation of the simulator's "last error"
//! record into them.

use crate::text::{decimal, lossy_string, push_decimal, utf8_lossy};
use vstd::prelude::*;
use vstd::string::*;

verus! {

/// The phase the simulator was in when an error occurred.
#[derive(Clone, Copy, Debug, PartialEq, Eq, Hash, Structural)]
pub enum State {
    Compile,
    PLI,
    Run,
}

/// How severe the simulator judged an error to be.
#[derive(Clone, Copy, Debug, PartialEq, Eq, Hash, Structural)]
pub enum Severity {
    Notice,
    Warning,
    Error,
    System,
    Internal,
}

/// What can go wrong at the native boundary.
#[derive(Debug, PartialEq, Eq)]
#[non_exhaustive]
pub enum Error {
    /// The simulator reported a failure and gave no usable detail.
    UnknownSimulatorError,
    /// The simulator reported a failure with a full record. The four texts are
    /// the simulator's bytes, copied as they came.
    KnownSimulatorError {
        state_when_error_occurred: State,
        severity: Severity,
        message: Vec<u8>,
        product: Vec<u8>,
        code: Vec<u8>,
        file: Vec<u8>,
        line: i32,
    },
    /// An integer of the simulator matched no member of a closed set.
    EnumConversion { from_int: i32, to_enum: &'static str },
    /// A callback was registered without a closure to call.
    InvalidCallbackConfig,
    /// A failure of a supporting facility, by its message.
    Other(String),
}

/// What the simulator's "query last error" call handed back: the value it
/// returned, and the record it filled in. The record means something only
/// where `result` is not zero.
#[derive(Debug)]
pub struct LastError {
    pub result: i32,
    pub state: i32,
    pub level: i32,
    pub message: Vec<u8>,
    pub product: Vec<u8>,
    pub code: Vec<u8>,
    pub file: Vec<u8>,
    pub line: i32,
}

impl State {
    /// The simulator's integer for this state.
    pub open spec fn native_code(self) -> i32 {
        match self {
            State::Compile => 1,
            State::PLI => 2,
            State::Run => 3,
        }
    }

    /// The state that the simulator's integer `value` stands for, if any.
    pub open spec fn decode(value: i32) -> Option<State> {
        if value == 1 {
            Some(State::Compile)
        } else if value == 2 {
            Some(State::PLI)
        } else if value == 3 {
            Some(State::Run)
        } else {
            None
        }
    }

    /// The state's name as text.
    pub open spec fn name_text(self) -> Seq<char> {
        match self {
            State::Compile => "Compile"@,
            State::PLI => "PLI"@,
            State::Run => "Run"@,
        }
    }

    pub fn code(self) -> (r: i32)
        ensures
            r == self.native_code(),
    {
        match self {
            State::Compile => 1,
            State::PLI => 2,
            State::Run => 3,
        }
    }

    /// The state's name, as it is printed.
    pub fn name(self) -> (r: &'static str)
        ensures
            r@ == self.name_text(),
    {
        match self {
            State::Compile => "Compile",
            State::PLI => "PLI",
            State::Run => "Run",
        }
    }

    /// Decoding undoes encoding, and no two states share an integer.
    pub proof fn lemma_code_roundtrip(a: State, b: State)
        ensures
            State::decode(a.native_code()) == Some(a),
            a.native_code() == b.native_code() ==> a == b,
    {
    }
}

/// Decodes the simulator's integer for a state. An integer that stands for
/// no state is an [`Error::EnumConversion`].
impl TryFrom<i32> for State {
    type Error = Box<Error>;

    fn try_from(value: i32) -> (r: Result<Self, Box<Error>>) {
        match value {
            1 => Ok(State::Compile),
            2 => Ok(State::PLI),
            3 => Ok(State::Run),
            _ => Err(Box::new(Error::EnumConversion { from_int: value, to_enum: "State" })),
        }
    }
}

impl vstd::std_specs::convert::TryFromSpecImpl<i32> for State {
    open spec fn obeys_try_from_spec() -> bool {
        true
    }

    open spec fn try_from_spec(value: i32) -> Result<Self, Box<Error>> {
        match State::decode(value) {
            Some(state) => Ok(state),
            None => Err(Box::new(Error::EnumConversion { from_int: value, to_enum: "State" })),
        }
    }
}

impl Severity {
    /// The simulator's integer for this severity.
    pub open spec fn native_code(self) -> i32 {
        match self {
            Severity::Notice => 1,
            Severity::Warning => 2,
            Severity::Error => 3,
            Severity::System => 4,
            Severity::Internal => 5,
        }
    }

    /// The severity that the simulator's integer `value` stands for, if any.
    pub open spec fn decode(value: i32) -> Option<Severity> {
        if value == 1 {
            Some(Severity::Notice)
        } else if value == 2 {
            Some(Severity::Warning)
        } else if value == 3 {
            Some(Severity::Error)
        } else if value == 4 {
            Some(Severity::System)
        } else if value == 5 {
            Some(Severity::Internal)
        } else {
            None
        }
    }

    /// The severity's name as text.
    pub open spec fn name_text(self) -> Seq<char> {
        match self {
            Severity::Notice => "Notice"@,
            Severity::Warning => "Warning"@,
            Severity::Error => "Error"@,
            Severity::System => "System"@,
            Severity::Internal => "Internal"@,
        }
    }

    pub fn code(self) -> (r: i32)
        ensures
            r == self.native_code(),
    {
        match self {
            Severity::Notice => 1,
            Severity::Warning => 2,
            Severity::Error => 3,
            Severity::System => 4,
            Severity::Internal => 5,
        }
    }

    /// The severity's name, as it is printed.
    pub fn name(self) -> (r: &'static str)
        ensures
            r@ == self.name_text(),
    {
        match self {
            Severity::Notice => "Notice",
            Severity::Warning => "Warning",
            Severity::Error => "Error",
            Severity::System => "System",
            Severity::Internal => "Internal",
        }
    }

    /// Decoding undoes encoding, and no two severities share an integer.
    pub proof fn lemma_code_roundtrip(a: Severity, b: Severity)
        ensures
            Severity::decode(a.native_code()) == Some(a),
            a.native_code() == b.native_code() ==> a == b,
    {
    }
}

/// Decodes the simulator's integer for a severity. An integer that stands
/// for no severity is an [`Error::EnumConversion`].
impl TryFrom<i32> for Severity {
    type Error = Box<Error>;

    fn try_from(value: i32) -> (r: Result<Self, Box<Error>>) {
        match value {
            1 => Ok(Severity::Notice),
            2 => Ok(Severity::Warning),
            3 => Ok(Severity::Error),
            4 => Ok(Severity::System),
            5 => Ok(Severity::Internal),
            _ => Err(Box::new(Error::EnumConversion { from_int: value, to_enum: "Severity" })),
        }
    }
}

impl vstd::std_specs::convert::TryFromSpecImpl<i32> for Severity {
    open spec fn obeys_try_from_spec() -> bool {
        true
    }

    open spec fn try_from_spec(value: i32) -> Result<Self, Box<Error>> {
        match Severity::decode(value) {
            Some(severity) => Ok(severity),
            None => Err(Box::new(Error::EnumConversion { from_int: value, to_enum: "Severity" })),
        }
    }
}

impl LastError {
    /// The answer of a simulator that has no error to report.
    pub fn none() -> (r: LastError)
        ensures
            r.result == 0,
            r.state == 0,
            r.level == 0,
            r.message@ == Seq::<u8>::empty(),
            r.product@ == Seq::<u8>::empty(),
            r.code@ == Seq::<u8>::empty(),
            r.file@ == Seq::<u8>::empty(),
            r.line == 0,
            r.translated() is Ok,
    {
        LastError {
            result: 0,
            state: 0,
            level: 0,
            message: Vec::new(),
            product: Vec::new(),
            code: Vec::new(),
            file: Vec::new(),
            line: 0,
        }
    }

    /// What this answer means. No error where the simulator returned zero.
    /// Otherwise the state is decoded first, then the severity: the first that
    /// matches no member of its set is reported as such, and where both are
    /// known the record is handed on whole.
    pub open spec fn translated(self) -> Result<(), Box<Error>> {
        if self.result == 0 {
            Ok(())
        } else {
            match State::decode(self.state) {
                None => Err(
                    Box::new(Error::EnumConversion { from_int: self.state, to_enum: "State" }),
                ),
                Some(state) => match Severity::decode(self.level) {
                    None => Err(
                        Box::new(
                            Error::EnumConversion { from_int: self.level, to_enum: "Severity" },
                        ),
                    ),
                    Some(severity) => Err(
                        Box::new(
                            Error::KnownSimulatorError {
                                state_when_error_occurred: state,
                                severity: severity,
                                message: self.message,
                                product: self.product,
                                code: self.code,
                                file: self.file,
                                line: self.line,
                            },
                        ),
                    ),
                },
            }
        }
    }
}

impl Error {
    /// Wraps the failure of a supporting facility, given by its message.
    pub fn other(message: String) -> (r: Error)
        ensures
            r == Error::Other(message),
    {
        Error::Other(message)
    }

    /// The error as it is shown to a user.
    pub open spec fn text(self) -> Seq<char> {
        match self {
            Error::UnknownSimulatorError => "Unknown or unclassified error from the simulator"@,
            Error::KnownSimulatorError {
                state_when_error_occurred,
                severity,
                message,
                product,
                code,
                file,
                line,
            } => "Simulator encountered an error!\nState when error occurred: "@
                + state_when_error_occurred.name_text() + "\nSeverity of error:         "@
                + severity.name_text() + "\nMessage:                   "@ + utf8_lossy(message@)
                + "\nProduct:                   "@ + utf8_lossy(product@)
                + "\nCode:                      "@ + utf8_lossy(code@)
                + "\nFile:                      "@ + utf8_lossy(file@)
                + "\nLine:                      "@ + decimal(line as int) + "\n"@,
            Error::EnumConversion { from_int, to_enum } => "Could not convert "@ + decimal(
                from_int as int,
            ) + " (i32) to type "@ + to_enum@,
            Error::InvalidCallbackConfig => "No closure was given for the callback to call"@,
            Error::Other(message) => "Other: "@ + message@,
        }
    }

    /// Renders the error for a user. A known simulator error shows every field
    /// of its record, each on a line of its own.
    pub fn describe(&self) -> (r: String)
        ensures
            r@ == self.text(),
    {
        match self {
            Error::UnknownSimulatorError => String::from_str(
                "Unknown or unclassified error from the simulator",
            ),
            Error::KnownSimulatorError {
                state_when_error_occurred,
                severity,
                message,
                product,
                code,
                file,
                line,
            } => {
                let mut out = String::from_str(
                    "Simulator encountered an error!\nState when error occurred: ",
                );
                out.append(state_when_error_occurred.name());
                out.append("\nSeverity of error:         ");
                out.append(severity.name());
                out.append("\nMessage:                   ");
                out.append(lossy_string(message).as_str());
                out.append("\nProduct:                   ");
                out.append(lossy_string(product).as_str());
                out.append("\nCode:                      ");
                out.append(lossy_string(code).as_str());
                out.append("\nFile:                      ");
                out.append(lossy_string(file).as_str());
                out.append("\nLine:                      ");
                push_decimal(&mut out, *line);
                out.append("\n");
                out
            },
            Error::EnumConversion { from_int, to_enum } => {
                let mut out = String::from_str("Could not convert ");
                push_decimal(&mut out, *from_int);
                out.append(" (i32) to type ");
                out.append(to_enum);
                out
            },
            Error::InvalidCallbackConfig => String::from_str(
                "No closure was given for the callback to call",
            ),
            Error::Other(message) => {
                let mut out = String::from_str("Other: ");
                out.append(message.as_str());
                out
            },
        }
    }
}

/// Translates the simulator's answer to "query last error", polled after a
/// native call, into the result of that call.
pub fn from_last_vpi_call(last_error: LastError) -> (r: Result<(), Box<Error>>)
    ensures
        r == last_error.translated(),
{
    if last_error.result == 0 {
        return Ok(());
    }
    let state = match State::try_from(last_error.state) {
        Ok(state) => state,
        Err(e) => {
            return Err(e);
        },
    };
    let severity = match Severity::try_from(last_error.level) {
        Ok(severity) => severity,
        Err(e) => {
            return Err(e);
        },
    };
    Err(
        Box::new(
            Error::KnownSimulatorError {
                state_when_error_occurred: state,
                severity,
                message: last_error.message,
                product: last_error.product,
                code: last_error.code,
                file: last_error.file,
                line: last_error.line,
            },
        ),
    )
}

} // verus!
