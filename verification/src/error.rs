use vstd::prelude::*;

verus! {

/// Error taxonomy of the tool. Every failing operation in the library
/// reports one of these kinds; none is retried automatically.
#[derive(Debug)]
pub enum BError {
    /// A named CLI argument or subcommand was not registered: a contract
    /// violation by the caller, treated as fatal.
    CliError(String),
    /// A closed enumeration (build variant, environment type) was given a
    /// string outside its set of accepted literals.
    InvalidEnumValue(String),
    /// The requested build configuration is not present in the workspace.
    UnsupportedConfig(String),
    /// A configuration template referenced a variable that the context
    /// does not define, or held an unterminated token.
    ContextExpansionError(String),
    /// The container engine binary is absent from the host.
    ContainerEngineMissing,
    /// A child process failed to spawn or exited with a non-zero status.
    ProcessExecutionError(String),
    /// A configuration document was malformed or missed a required field.
    ConfigParseError(String),
}

impl BError {
    /// A short, stable label for the error kind, usable in log lines.
    pub fn kind_str(&self) -> (r: &'static str)
        ensures
            r@ == self.spec_kind_str(),
    {
        match self {
            BError::CliError(_) => "cli-error",
            BError::InvalidEnumValue(_) => "invalid-enum-value",
            BError::UnsupportedConfig(_) => "unsupported-config",
            BError::ContextExpansionError(_) => "context-expansion-error",
            BError::ContainerEngineMissing => "container-engine-missing",
            BError::ProcessExecutionError(_) => "process-execution-error",
            BError::ConfigParseError(_) => "config-parse-error",
        }
    }

    pub open spec fn spec_kind_str(&self) -> Seq<char> {
        match self {
            BError::CliError(_) => "cli-error"@,
            BError::InvalidEnumValue(_) => "invalid-enum-value"@,
            BError::UnsupportedConfig(_) => "unsupported-config"@,
            BError::ContextExpansionError(_) => "context-expansion-error"@,
            BError::ContainerEngineMissing => "container-engine-missing"@,
            BError::ProcessExecutionError(_) => "process-execution-error"@,
            BError::ConfigParseError(_) => "config-parse-error"@,
        }
    }
}

} // verus!
