//! The resolved arguments of one invocation, with their defaults applied and
//! the port configuration checked before any channel is opened.
use vstd::prelude::*;
use crate::config::{config_spec, parse_config, ConfigError, PortConfig, DEFAULT_CONFIG};

verus! {

/// How long to wait for a reply, in milliseconds, when none is given.
pub const DEFAULT_TIMEOUT_MS: u64 = 1000;

/// Everything an invocation needs, fully resolved.
#[derive(Clone, Debug)]
pub struct ToolArgs {
    /// Path of the serial device.
    pub port: String,
    pub baud: u32,
    pub config: PortConfig,
    /// Suppresses all trace output.
    pub quiet: bool,
    /// Also writes the received bytes, raw, to the standard output.
    pub stdout: bool,
    /// Read deadline in milliseconds.
    pub timeout_ms: u64,
}

/// Applies the defaults to the arguments as given and checks the
/// configuration string. The configuration is the one named by `cfg`, or
/// the default one; the timeout is `timeout_ms`, or the default one.
pub fn resolve_args(
    port: String,
    baud: u32,
    cfg: Option<&str>,
    quiet: bool,
    stdout: bool,
    timeout_ms: Option<u64>,
) -> (r: Result<ToolArgs, ConfigError>)
    ensures
        ({
            let text = match cfg {
                Some(c) => c@,
                None => DEFAULT_CONFIG@,
            };
            match config_spec(text) {
                Err(e) => r == Err::<ToolArgs, ConfigError>(e),
                Ok(c) => r is Ok && ({
                    let a = r->Ok_0;
                    &&& a.port@ == port@
                    &&& a.baud == baud
                    &&& a.config == c
                    &&& a.quiet == quiet
                    &&& a.stdout == stdout
                    &&& a.timeout_ms == match timeout_ms {
                        Some(t) => t,
                        None => DEFAULT_TIMEOUT_MS,
                    }
                }),
            }
        }),
{
    let text = match cfg {
        Some(c) => c,
        None => DEFAULT_CONFIG,
    };
    let config = match parse_config(text) {
        Ok(c) => c,
        Err(e) => return Err(e),
    };
    let timeout_ms = match timeout_ms {
        Some(t) => t,
        None => DEFAULT_TIMEOUT_MS,
    };
    Ok(ToolArgs { port, baud, config, quiet, stdout, timeout_ms })
}

} // verus!
