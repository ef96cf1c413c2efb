use vstd::prelude::*;

verus! {

/// Errors surfaced by the library's own operations.
///
/// A settings write failure is recoverable: the caller logs it and proceeds;
/// in particular it never blocks the close of a window.
#[derive(Clone, Copy, Debug, PartialEq, Eq, Structural)]
pub enum Error {
    /// A write to the settings store failed because the store is unavailable.
    SettingsWrite,
}

} // verus!
