//! The extension's own state.
use vstd::prelude::*;

verus! {

/// What the extension keeps between two requests of the editor.
#[derive(Debug)]
pub struct OdinExtension {
    /// The language server binary that was found last, if any.
    pub cached_binary_path: Option<String>,
}

impl OdinExtension {
    /// An extension that has found nothing yet.
    pub fn new() -> (extension: Self)
        ensures
            extension.cached_binary_path is None,
    {
        OdinExtension { cached_binary_path: None }
    }
}

} // verus!
