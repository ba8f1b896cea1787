//! Errors of the TSM report interface.
use vstd::prelude::*;
use crate::text::{concat2, decimal, owned, u32_to_decimal};

verus! {

#[verifier::external_type_specification]
#[verifier::external_body]
pub struct ExIoError(std::io::Error);

#[verifier::external_type_specification]
#[verifier::external_body]
pub struct ExFromUtf8Error(std::string::FromUtf8Error);

#[verifier::external_type_specification]
#[verifier::external_body]
pub struct ExParseIntError(std::num::ParseIntError);

/// Errors raised while creating or reading a TSM report.
#[derive(Debug)]
#[allow(inconsistent_fields)]
pub enum TsmError {
    Unsupported,
    IOError { context: String, source: std::io::Error },
    GenerationError { exp: u32, got: u32 },
    BytesToStringError { context: String, source: std::string::FromUtf8Error },
    StringToIntError { context: String, source: std::num::ParseIntError },
    Custom(String),
}

/// The human-readable text of a [`TsmError`].
pub open spec fn tsm_error_text(e: TsmError) -> Seq<char> {
    match e {
        TsmError::Unsupported => "TSM backend is unsupported"@,
        TsmError::IOError { context, .. } => context@,
        TsmError::GenerationError { exp, got } => "inblob write race detected: expected "@
            + decimal(exp as nat) + " found "@ + decimal(got as nat),
        TsmError::BytesToStringError { context, .. } => context@,
        TsmError::StringToIntError { context, .. } => context@,
        TsmError::Custom(m) => "TSM error: "@ + m@,
    }
}

impl TsmError {
    /// An error carrying a free-form message.
    pub fn custom(msg: &str) -> (r: Self)
        ensures
            r matches TsmError::Custom(m) && m@ == msg@,
    {
        TsmError::Custom(owned(msg))
    }

    /// Replaces the context of the errors that carry one (`IOError`,
    /// `BytesToStringError`, `StringToIntError`); the source is kept.
    /// Every other error is returned unchanged.
    pub fn context(self, ctx: &str) -> (r: Self)
        ensures
            match self {
                TsmError::IOError { source, .. } => r matches TsmError::IOError { context, source: s }
                    && context@ == ctx@ && s == source,
                TsmError::BytesToStringError { source, .. } => r matches TsmError::BytesToStringError {
                    context,
                    source: s,
                } && context@ == ctx@ && s == source,
                TsmError::StringToIntError { source, .. } => r matches TsmError::StringToIntError {
                    context,
                    source: s,
                } && context@ == ctx@ && s == source,
                _ => r == self,
            },
    {
        let context = owned(ctx);
        match self {
            TsmError::IOError { source, .. } => TsmError::IOError { context, source },
            TsmError::BytesToStringError { source, .. } => TsmError::BytesToStringError {
                context,
                source,
            },
            TsmError::StringToIntError { source, .. } => TsmError::StringToIntError {
                context,
                source,
            },
            other => other,
        }
    }

    /// The human-readable text of the error.
    pub fn to_string(&self) -> (r: String)
        ensures
            r@ == tsm_error_text(*self),
    {
        match self {
            TsmError::Unsupported => owned("TSM backend is unsupported"),
            TsmError::IOError { context, .. } => context.clone(),
            TsmError::GenerationError { exp, got } => {
                let mut s = owned("inblob write race detected: expected ");
                s.append(u32_to_decimal(*exp).as_str());
                s.append(" found ");
                s.append(u32_to_decimal(*got).as_str());
                s
            },
            TsmError::BytesToStringError { context, .. } => context.clone(),
            TsmError::StringToIntError { context, .. } => context.clone(),
            TsmError::Custom(m) => concat2("TSM error: ", m.as_str()),
        }
    }
}

impl From<std::io::Error> for TsmError {
    fn from(value: std::io::Error) -> (r: Self)
        ensures
            r matches TsmError::IOError { context, source } && context@ == "I/O failed"@
                && source == value,
    {
        TsmError::IOError { context: owned("I/O failed"), source: value }
    }
}

impl vstd::std_specs::convert::FromSpecImpl<std::io::Error> for TsmError {
    open spec fn obeys_from_spec() -> bool {
        false
    }

    open spec fn from_spec(v: std::io::Error) -> Self {
        TsmError::Unsupported
    }
}

impl From<std::string::FromUtf8Error> for TsmError {
    fn from(value: std::string::FromUtf8Error) -> (r: Self)
        ensures
            r matches TsmError::BytesToStringError { context, source }
                && context@ == "error converting bytes to string"@ && source == value,
    {
        TsmError::BytesToStringError {
            context: owned("error converting bytes to string"),
            source: value,
        }
    }
}

impl vstd::std_specs::convert::FromSpecImpl<std::string::FromUtf8Error> for TsmError {
    open spec fn obeys_from_spec() -> bool {
        false
    }

    open spec fn from_spec(v: std::string::FromUtf8Error) -> Self {
        TsmError::Unsupported
    }
}

impl From<std::num::ParseIntError> for TsmError {
    fn from(value: std::num::ParseIntError) -> (r: Self)
        ensures
            r matches TsmError::StringToIntError { context, source }
                && context@ == "error converting string to integer"@ && source == value,
    {
        TsmError::StringToIntError {
            context: owned("error converting string to integer"),
            source: value,
        }
    }
}

impl vstd::std_specs::convert::FromSpecImpl<std::num::ParseIntError> for TsmError {
    open spec fn obeys_from_spec() -> bool {
        false
    }

    open spec fn from_spec(v: std::num::ParseIntError) -> Self {
        TsmError::Unsupported
    }
}

} // verus!
