//! Putting text where the cursor is.
use vstd::prelude::*;

use crate::error::VoxioError;
use crate::text::{blank, is_blank};

verus! {

/// Whether an injection put any text in place.
#[derive(Clone, Copy, Debug)]
pub struct InjectResult {
    pub applied: bool,
}

/// A way to put text into the focused application.
pub trait TextInjector {
    fn inject(&self, text: &str) -> Result<InjectResult, VoxioError>;
}

/// An injector that places nothing, and reports text as applied when there is any.
pub struct NullInjector;

impl TextInjector for NullInjector {
    fn inject(&self, text: &str) -> (r: Result<InjectResult, VoxioError>)
        ensures
            r matches Ok(res) && res.applied == (text@.len() > 0),
    {
        let applied = text.unicode_len() != 0;
        Ok(InjectResult { applied })
    }
}

/// Whether the clipboard injector has anything to paste: text that is not blank.
pub fn has_injectable_text(text: &str) -> (r: bool)
    ensures
        r == !is_blank(text@),
{
    !blank(text)
}

} // verus!
