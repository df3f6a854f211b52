//! What the process reads from its configuration at start.

use crate::errors::prefixed;
use crate::text::{lowercase_of, lowercased, same_text, trimmed, trimmed_of};
use vstd::prelude::*;

verus! {

/// The port that the process listens on when none is configured.
pub const DEFAULT_PORT: &'static str = "3692";

/// How the process is deployed, which selects where the store is looked for.
#[derive(Clone, Copy, Debug, PartialEq, Eq, Structural)]
pub enum AppMode {
    Docker,
    Native,
}

/// The mode that a configured value names: `native`, in any mixture of cases
/// and with white space around it, is the native mode; every other value and
/// no value at all is the docker mode.
pub open spec fn mode_of(value: Option<Seq<char>>) -> AppMode {
    match value {
        Some(text) => if lowercase_of(trimmed_of(text)) == "native"@ {
            AppMode::Native
        } else {
            AppMode::Docker
        },
        None => AppMode::Docker,
    }
}

/// The mode that a value names once it is trimmed and in lower case:
/// `native` is the native mode, every other value is the docker mode.
pub fn mode_of_normalized(normalized: &str) -> (r: AppMode)
    ensures
        r == if normalized@ == "native"@ {
            AppMode::Native
        } else {
            AppMode::Docker
        },
{
    if same_text(normalized, "native") {
        AppMode::Native
    } else {
        AppMode::Docker
    }
}

/// The mode of the process, from the configured value if there is one.
pub fn get_app_mode(value: Option<&str>) -> (r: AppMode)
    ensures
        r == mode_of(
            match value {
                Some(text) => Some(text@),
                None => None,
            },
        ),
{
    match value {
        Some(text) => {
            let normalized: String = lowercased(trimmed(text));
            mode_of_normalized(normalized.as_str())
        },
        None => AppMode::Docker,
    }
}

/// The address to listen on: every interface, at the configured port or at
/// the default one.
pub fn listen_address(port: Option<&str>) -> (r: String)
    ensures
        r@ == "0.0.0.0:"@ + (match port {
            Some(text) => text@,
            None => DEFAULT_PORT@,
        }),
{
    match port {
        Some(text) => prefixed("0.0.0.0:", text),
        None => prefixed("0.0.0.0:", DEFAULT_PORT),
    }
}

} // verus!
