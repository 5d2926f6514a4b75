//! Start-up configuration: the values the surrounding process collects from
//! the command line or the environment, the credential check that decides
//! whether the process may proceed, and the default log-level choice.

use vstd::prelude::*;

verus! {

/// The bridge's start-up configuration. The surrounding process fills this
/// in from its command line and environment and hands it over once; it is
/// never mutated afterwards.
pub struct CommandlineOpts {
    /// Address of the pub/sub broker.
    pub mqtt_host: String,
    /// Broker username; empty means connect anonymously.
    pub mqtt_username: String,
    /// Broker secret; only attached when `mqtt_username` is non-empty.
    pub mqtt_password: String,
    /// Fully qualified chat account identifier (`@user:domain` form).
    pub matrix_username: String,
    /// Chat account secret.
    pub matrix_password: String,
    /// Ask for verbose log output.
    pub verbose: bool,
}

/// A configuration fault that must stop the process before anything
/// connects.
#[derive(PartialEq, Eq, Structural, Clone, Copy, Debug)]
pub enum ConfigError {
    /// The chat account identifier or secret is missing.
    MissingMatrixCredentials,
}

/// Both chat credentials are present (non-empty).
pub open spec fn has_matrix_credentials(opts: CommandlineOpts) -> bool {
    opts.matrix_username@.len() > 0 && opts.matrix_password@.len() > 0
}

impl CommandlineOpts {
    /// Decide whether the chat credentials allow start-up. Returns `Ok`
    /// exactly when both the account identifier and the secret are
    /// non-empty; otherwise the process must terminate with non-zero
    /// status before any connection is attempted.
    pub fn validate_matrix_credentials(&self) -> (r: Result<(), ConfigError>)
        ensures
            r is Ok <==> has_matrix_credentials(*self),
            !has_matrix_credentials(*self) ==> r == Result::<(), ConfigError>::Err(
                ConfigError::MissingMatrixCredentials,
            ),
    {
        if self.matrix_username.as_str().is_empty() || self.matrix_password.as_str().is_empty() {
            Err(ConfigError::MissingMatrixCredentials)
        } else {
            Ok(())
        }
    }

    /// The log level the process falls back to when its environment names
    /// none: verbose output asks for `debug`, otherwise `info`.
    pub fn default_log_level(&self) -> (r: &'static str)
        ensures
            self.verbose ==> r@ == "debug"@,
            !self.verbose ==> r@ == "info"@,
    {
        if self.verbose {
            "debug"
        } else {
            "info"
        }
    }
}

} // verus!
