//! The options a view's update callback is registered with.

use vstd::prelude::*;
use crate::error::{engine_failure, into_pyerr, EngineError, HostError};

verus! {

/// How updates are reported to a callback.
#[derive(Clone, Copy, Debug, PartialEq, Eq, Structural)]
pub enum OnUpdateMode {
    /// Each update comes with the rows it changed, as a delta.
    Row,
}

/// The options an update callback is registered with.
#[derive(Clone, Copy, Debug, PartialEq, Eq, Structural)]
pub struct OnUpdateOptions {
    pub mode: Option<OnUpdateMode>,
}

/// The one name of a mode.
pub open spec fn row_mode_name() -> Seq<char> {
    "row"@
}

/// The text of the engine's failure for a name that stands for no mode.
pub open spec fn unknown_mode_text() -> Seq<char> {
    "Unwrapped option"@
}

/// Calls `FromStr` of `perspective_client::OnUpdateMode`, which gives the row
/// mode for `row` and fails with `ClientError::Option` on any other name;
/// that error is handed back as the text its `Display` gives.
#[verifier::external_body]
fn engine_parse_mode(name: &str) -> (res: Result<OnUpdateMode, EngineError>)
    ensures
        match res {
            Ok(mode) => name@ == row_mode_name(),
            Err(e) => name@ != row_mode_name() && e@ == unknown_mode_text(),
        },
{
    match <perspective_client::OnUpdateMode as std::str::FromStr>::from_str(name) {
        Ok(perspective_client::OnUpdateMode::Row) => Ok(OnUpdateMode::Row),
        Err(e) => Err(EngineError { message: format!("{}", e) }),
    }
}

impl OnUpdateOptions {
    /// The options for the mode of the given name.  No name means no mode.  A
    /// name that stands for no mode is refused with the engine's own failure.
    pub fn new(mode: Option<String>) -> (res: Result<OnUpdateOptions, HostError>)
        ensures
            match mode {
                None => res matches Ok(options) && options.mode is None,
                Some(name) => if name@ == row_mode_name() {
                    res matches Ok(options) && options.mode == Some(OnUpdateMode::Row)
                } else {
                    res matches Err(e) && e@ == engine_failure(unknown_mode_text())
                },
            },
    {
        match mode {
            None => Ok(OnUpdateOptions { mode: None }),
            Some(name) => match into_pyerr(engine_parse_mode(name.as_str())) {
                Ok(parsed) => Ok(OnUpdateOptions { mode: Some(parsed) }),
                Err(e) => Err(e),
            },
        }
    }
}

} // verus!
