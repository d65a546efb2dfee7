use vstd::prelude::*;

verus! {

/// What can go wrong during a render call.
#[derive(Clone, Copy, Debug, PartialEq, Eq)]
pub enum RenderError {
    /// A task's due field is present but is not a valid
    /// date-time-with-offset text.
    MalformedDueDate,
    /// The requested width is too small to fit the borders and at least
    /// one content column.
    InvalidWidth,
}

} // verus!
