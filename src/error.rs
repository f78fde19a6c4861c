use vstd::prelude::*;

verus! {

/// What can go wrong around the controller: reading files, parsing the
/// configuration, or installing the logger.
#[derive(Debug, Clone, Copy, PartialEq, Eq, Structural)]
pub enum FanshimError {
    IoError,
    ConfigParseError,
    SetLoggerError,
}

impl FanshimError {
    /// The variant's name, as it is shown to a user.
    pub fn name(&self) -> (r: &'static str)
        ensures
            *self == FanshimError::IoError ==> r@ == "IoError"@,
            *self == FanshimError::ConfigParseError ==> r@ == "ConfigParseError"@,
            *self == FanshimError::SetLoggerError ==> r@ == "SetLoggerError"@,
    {
        match self {
            FanshimError::IoError => "IoError",
            FanshimError::ConfigParseError => "ConfigParseError",
            FanshimError::SetLoggerError => "SetLoggerError",
        }
    }
}

} // verus!
