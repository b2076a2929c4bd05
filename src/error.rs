//! Error types for the crate

use vstd::prelude::*;

verus! {

/// What an error reports, as mathematical values: the kind, the field name
/// and the context of that kind.
pub enum ErrorView {
    InvalidMaxVal { field_name: Seq<char>, expected: Seq<char>, found: Seq<char> },
    InvalidMinVal { field_name: Seq<char>, expected: Seq<char>, found: Seq<char> },
    InvalidPattern { field_name: Seq<char>, expected: Seq<char>, found: Seq<char> },
    InvalidOption { field_name: Seq<char> },
    InvalidMaxLen { field_name: Seq<char>, expected: Seq<char>, found: Seq<char> },
}

/// The human-readable rendering of an error: the field name, the expected
/// constraint and the offending value, each kind in a fixed form.
pub open spec fn message(e: ErrorView) -> Seq<char> {
    match e {
        ErrorView::InvalidMaxVal { field_name, expected, found } => field_name
            + " must not be greater than "@ + expected + ", found "@ + found,
        ErrorView::InvalidMinVal { field_name, expected, found } => field_name
            + " must not be less than "@ + expected + ", found "@ + found,
        ErrorView::InvalidPattern { field_name, expected, found } => "'"@ + field_name + "': '"@
            + found + "' must match the pattern '"@ + expected + "'"@,
        ErrorView::InvalidOption { field_name } => field_name + " must not be empty"@,
        ErrorView::InvalidMaxLen { field_name, expected, found } => field_name
            + " must not be greater than "@ + expected + " characters, found "@ + found,
    }
}

/// The concrete error kind
#[derive(Debug, PartialEq, Eq)]
pub enum ConstrainedTypeErrorKind {
    /// Number exceeded the maximum value
    InvalidMaxVal {
        /// Field name shown in the error
        field_name: String,
        /// Specified maximum value
        expected: String,
        /// Actual value
        found: String,
    },
    /// Number fell below the minimum value
    InvalidMinVal {
        /// Field name shown in the error
        field_name: String,
        /// Specified minimum value
        expected: String,
        /// Actual value
        found: String,
    },
    /// String does not match the pattern
    InvalidPattern {
        /// Field name shown in the error
        field_name: String,
        /// Specified pattern
        expected: String,
        /// Actual value, or the value reported in its place
        found: String,
    },
    /// String is empty
    InvalidOption {
        /// Field name shown in the error
        field_name: String,
    },
    /// Character data length exceeded the limit
    InvalidMaxLen {
        /// Field name shown in the error
        field_name: String,
        /// Specified character limit
        expected: String,
        /// Actual number of characters
        found: String,
    },
}

impl View for ConstrainedTypeErrorKind {
    type V = ErrorView;

    open spec fn view(&self) -> ErrorView {
        match self {
            ConstrainedTypeErrorKind::InvalidMaxVal { field_name, expected, found } => {
                ErrorView::InvalidMaxVal {
                    field_name: field_name@,
                    expected: expected@,
                    found: found@,
                }
            },
            ConstrainedTypeErrorKind::InvalidMinVal { field_name, expected, found } => {
                ErrorView::InvalidMinVal {
                    field_name: field_name@,
                    expected: expected@,
                    found: found@,
                }
            },
            ConstrainedTypeErrorKind::InvalidPattern { field_name, expected, found } => {
                ErrorView::InvalidPattern {
                    field_name: field_name@,
                    expected: expected@,
                    found: found@,
                }
            },
            ConstrainedTypeErrorKind::InvalidOption { field_name } => {
                ErrorView::InvalidOption { field_name: field_name@ }
            },
            ConstrainedTypeErrorKind::InvalidMaxLen { field_name, expected, found } => {
                ErrorView::InvalidMaxLen {
                    field_name: field_name@,
                    expected: expected@,
                    found: found@,
                }
            },
        }
    }
}

impl ConstrainedTypeErrorKind {
    /// The human-readable rendering of this error kind.
    pub fn to_string(&self) -> (r: String)
        ensures
            r@ == message(self@),
    {
        match self {
            ConstrainedTypeErrorKind::InvalidMaxVal { field_name, expected, found } => {
                let mut s = field_name.clone();
                s.append(" must not be greater than ");
                s.append(expected.as_str());
                s.append(", found ");
                s.append(found.as_str());
                s
            },
            ConstrainedTypeErrorKind::InvalidMinVal { field_name, expected, found } => {
                let mut s = field_name.clone();
                s.append(" must not be less than ");
                s.append(expected.as_str());
                s.append(", found ");
                s.append(found.as_str());
                s
            },
            ConstrainedTypeErrorKind::InvalidPattern { field_name, expected, found } => {
                let mut s = String::from_str("'");
                s.append(field_name.as_str());
                s.append("': '");
                s.append(found.as_str());
                s.append("' must match the pattern '");
                s.append(expected.as_str());
                s.append("'");
                s
            },
            ConstrainedTypeErrorKind::InvalidOption { field_name } => {
                let mut s = field_name.clone();
                s.append(" must not be empty");
                s
            },
            ConstrainedTypeErrorKind::InvalidMaxLen { field_name, expected, found } => {
                let mut s = field_name.clone();
                s.append(" must not be greater than ");
                s.append(expected.as_str());
                s.append(" characters, found ");
                s.append(found.as_str());
                s
            },
        }
    }
}

/// An alias for results returned by functions of this crate
pub type ConstrainedTypeResult<T> = Result<T, ConstrainedTypeError>;

/// A result agrees with a verdict (the error a constraint reports on an
/// input, if any) when it succeeds exactly where the verdict reports no
/// error, and otherwise carries that error.
pub open spec fn agrees_with<T>(r: ConstrainedTypeResult<T>, verdict: Option<ErrorView>) -> bool {
    match r {
        Ok(_) => verdict is None,
        Err(e) => verdict == Some(e@),
    }
}

/// The error type for errors that get returned in the crate
#[derive(Debug, PartialEq, Eq)]
pub struct ConstrainedTypeError {
    kind: ConstrainedTypeErrorKind,
}

impl View for ConstrainedTypeError {
    type V = ErrorView;

    closed spec fn view(&self) -> ErrorView {
        self.kind@
    }
}

impl ConstrainedTypeError {
    /// Get the kind of the error
    pub fn kind(&self) -> (r: &ConstrainedTypeErrorKind)
        ensures
            r@ == self@,
    {
        &self.kind
    }

    /// The human-readable rendering of this error.
    pub fn to_string(&self) -> (r: String)
        ensures
            r@ == message(self@),
    {
        self.kind.to_string()
    }
}

impl From<ConstrainedTypeErrorKind> for ConstrainedTypeError {
    fn from(kind: ConstrainedTypeErrorKind) -> (r: ConstrainedTypeError)
        ensures
            r@ == kind@,
    {
        ConstrainedTypeError { kind }
    }
}

impl vstd::std_specs::convert::FromSpecImpl<ConstrainedTypeErrorKind> for ConstrainedTypeError {
    open spec fn obeys_from_spec() -> bool {
        true
    }

    closed spec fn from_spec(kind: ConstrainedTypeErrorKind) -> ConstrainedTypeError {
        ConstrainedTypeError { kind }
    }
}

impl<T> From<ConstrainedTypeError> for Result<T, ConstrainedTypeError> {
    fn from(e: ConstrainedTypeError) -> (r: Result<T, ConstrainedTypeError>)
        ensures
            r == Err::<T, ConstrainedTypeError>(e),
    {
        Err(e)
    }
}

impl<T> vstd::std_specs::convert::FromSpecImpl<ConstrainedTypeError> for Result<T, ConstrainedTypeError> {
    open spec fn obeys_from_spec() -> bool {
        true
    }

    open spec fn from_spec(e: ConstrainedTypeError) -> Result<T, ConstrainedTypeError> {
        Err(e)
    }
}

} // verus!
