use vstd::prelude::*;

verus! {

/// Errors surfaced to callers of the library.
#[derive(Clone, Copy, Debug, PartialEq, Eq, Structural)]
pub enum Error {
    /// Content, attachments and embeds are all absent or empty.
    EmptyMessage,
    /// Content and embed descriptions together exceed the length limit.
    PayloadTooLarge,
    /// A property holds a value that is not allowed.
    InvalidProperty,
    /// More replies than allowed.
    TooManyReplies { max: usize },
    /// More attachments than allowed.
    TooManyAttachments { max: usize },
    /// More embeds than allowed.
    TooManyEmbeds { max: usize },
    /// Duplicate nonce, or an operation the target does not support.
    InvalidOperation,
    /// A referenced message, role or attachment does not exist.
    NotFound,
    /// The target role ranks at or above the actor.
    NotElevated,
    /// The actor lacks a permission needed for the operation.
    Unauthorized,
}

} // verus!
