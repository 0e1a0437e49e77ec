use vstd::prelude::*;

verus! {

/// Where an uploaded attachment is in its life.
#[derive(Debug, Clone, Copy, PartialEq, Eq, Structural)]
pub enum AttachmentState {
    /// Uploaded, not yet held by any record.
    Pending,
    /// Held by a field of a record.
    Bound,
    /// Released; left for the storage reaper.
    MarkedForDeletion,
}

/// A reference to an attachment, as a record stores it.
#[derive(Debug, Clone)]
pub struct File {
    pub id: String,
}

/// An attachment known to the store, with its lifecycle state and owner.
#[derive(Debug, Clone)]
pub struct Attachment {
    pub id: String,
    pub state: AttachmentState,
    /// Identifier of the record that holds the attachment, once bound.
    pub bound_to: Option<String>,
}

} // verus!
