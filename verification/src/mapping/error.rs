//! Errors of the mapping subsystem.

use vstd::prelude::*;
use vstd::string::*;

verus! {

/// Errors of mapping configuration, strategy setup and engine operation.
#[derive(Clone, Debug, PartialEq, Eq)]
pub enum MappingError {
    ConfigError(String),
    InitializationError(String),
    ChannelError(String),
    ThreadError(String),
    StrategyError(String),
}

/// Text shown for an error: a category prefix, then the detail.
pub open spec fn mapping_error_text(e: MappingError) -> Seq<char> {
    match e {
        MappingError::ConfigError(m) => "Configuration error: "@ + m@,
        MappingError::InitializationError(m) => "Initialization error: "@ + m@,
        MappingError::ChannelError(m) => "Channel error: "@ + m@,
        MappingError::ThreadError(m) => "Thread error: "@ + m@,
        MappingError::StrategyError(m) => "Strategy error: "@ + m@,
    }
}

impl MappingError {
    /// Text shown for this error: a category prefix, then the detail.
    pub fn message(&self) -> (s: String)
        ensures
            s@ == mapping_error_text(*self),
    {
        let (prefix, detail) = match self {
            MappingError::ConfigError(m) => ("Configuration error: ", m),
            MappingError::InitializationError(m) => ("Initialization error: ", m),
            MappingError::ChannelError(m) => ("Channel error: ", m),
            MappingError::ThreadError(m) => ("Thread error: ", m),
            MappingError::StrategyError(m) => ("Strategy error: ", m),
        };
        let mut s = String::from_str(prefix);
        s.append(detail.as_str());
        s
    }
}

} // verus!
