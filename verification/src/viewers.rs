use vstd::prelude::*;

verus! {

/// What the user can do with a rendered markdown message.
#[derive(Clone, Debug)]
pub enum Interaction {
    /// Copy a link or a code block to the clipboard.
    Copy(String),
}

} // verus!
