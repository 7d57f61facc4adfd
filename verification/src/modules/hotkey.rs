//! Global hotkeys.
use vstd::prelude::*;

use crate::error::VoxioError;

verus! {

/// Registers global hotkeys.
pub trait HotkeyManager {
    fn register(&mut self, accelerator: &str) -> Result<(), VoxioError>;

    fn unregister_all(&mut self) -> Result<(), VoxioError>;
}

/// A hotkey manager that accepts every registration and registers nothing.
pub struct NullHotkeyManager;

impl HotkeyManager for NullHotkeyManager {
    fn register(&mut self, accelerator: &str) -> (r: Result<(), VoxioError>)
        ensures
            r is Ok,
    {
        Ok(())
    }

    fn unregister_all(&mut self) -> (r: Result<(), VoxioError>)
        ensures
            r is Ok,
    {
        Ok(())
    }
}

} // verus!
