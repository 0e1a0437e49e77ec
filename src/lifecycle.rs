use vstd::prelude::*;

use crate::error::Error;
use crate::models::attachment::{Attachment, AttachmentState, File};

verus! {

/// The attachments known to the storage service, with their lifecycle states.
#[derive(Debug, Clone)]
pub struct AttachmentStore {
    pub files: Vec<Attachment>,
}

/// Attachment identifiers are distinct.
pub open spec fn files_unique(files: Seq<Attachment>) -> bool {
    forall|i: int, j: int|
        0 <= i < files.len() && 0 <= j < files.len() && #[trigger] files[i].id@
            == #[trigger] files[j].id@ ==> i == j
}

pub open spec fn has_file(files: Seq<Attachment>, id: Seq<char>) -> bool {
    exists|k: int| 0 <= k < files.len() && files[k].id@ == id
}

/// The position of the attachment with identifier `id`; meaningful when it exists.
pub open spec fn file_index(files: Seq<Attachment>, id: Seq<char>) -> int {
    choose|k: int| 0 <= k < files.len() && files[k].id@ == id
}

/// Whether the attachment exists and can be taken by a record: it is not released.
pub open spec fn bindable(files: Seq<Attachment>, id: Seq<char>) -> bool {
    has_file(files, id) && files[file_index(files, id)].state != AttachmentState::MarkedForDeletion
}

/// The store after the attachment `id` is bound to record `owner`.
pub open spec fn bound(files: Seq<Attachment>, id: Seq<char>, owner: String) -> Seq<Attachment> {
    let k = file_index(files, id);
    files.update(
        k,
        Attachment { id: files[k].id, state: AttachmentState::Bound, bound_to: Some(owner) },
    )
}

/// The store after the attachment `id`, if it exists, is marked for deletion.
pub open spec fn marked(files: Seq<Attachment>, id: Seq<char>) -> Seq<Attachment> {
    if has_file(files, id) {
        let k = file_index(files, id);
        files.update(
            k,
            Attachment {
                id: files[k].id,
                state: AttachmentState::MarkedForDeletion,
                bound_to: files[k].bound_to,
            },
        )
    } else {
        files
    }
}

impl AttachmentStore {
    pub open spec fn wf(&self) -> bool {
        files_unique(self.files@)
    }

    /// Whether the attachment identifiers are distinct, as the store's operations need.
    pub fn is_wf(&self) -> (r: bool)
        ensures
            r == self.wf(),
    {
        let mut j: usize = 0;
        while j < self.files.len()
            invariant
                j <= self.files@.len(),
                forall|a: int, b: int|
                    0 <= a < j && 0 <= b < j && #[trigger] self.files@[a].id@
                        == #[trigger] self.files@[b].id@ ==> a == b,
            decreases self.files.len() - j,
        {
            let mut i: usize = 0;
            while i < j
                invariant
                    i <= j < self.files@.len(),
                    forall|a: int| 0 <= a < i ==> #[trigger] self.files@[a].id@ != self.files@[j as int].id@,
                decreases j - i,
            {
                if self.files[i].id == self.files[j].id {
                    assert(self.files@[i as int].id@ == self.files@[j as int].id@);
                    return false;
                }
                i = i + 1;
            }
            j = j + 1;
        }
        true
    }

    /// The position of the attachment with identifier `id`, if it is known.
    pub fn find(&self, id: &String) -> (r: Option<usize>)
        requires
            self.wf(),
        ensures
            r matches Some(k) ==> has_file(self.files@, id@) && k == file_index(self.files@, id@),
            r is None ==> !has_file(self.files@, id@),
    {
        let mut k: usize = 0;
        while k < self.files.len()
            invariant
                k <= self.files@.len(),
                self.wf(),
                forall|j: int| 0 <= j < k ==> self.files@[j].id@ != id@,
            decreases self.files.len() - k,
        {
            if self.files[k].id == *id {
                proof {
                    assert(self.files@[k as int].id@ == id@);
                    assert(has_file(self.files@, id@));
                    let c = file_index(self.files@, id@);
                    assert(self.files@[c].id@ == self.files@[k as int].id@);
                }
                return Some(k);
            }
            k = k + 1;
        }
        None
    }

    /// Whether the attachment `id` exists and is not released.
    pub fn can_bind(&self, id: &String) -> (r: bool)
        requires
            self.wf(),
        ensures
            r == bindable(self.files@, id@),
    {
        match self.find(id) {
            Some(k) => !matches!(self.files[k].state, AttachmentState::MarkedForDeletion),
            None => false,
        }
    }

    /// Binds the attachment `id` to record `owner` and returns the reference to store.
    pub fn bind(&mut self, id: &String, owner: &String) -> (r: Result<File, Error>)
        requires
            old(self).wf(),
        ensures
            final(self).wf(),
            bindable(old(self).files@, id@) ==> (r matches Ok(f) && f.id@ == id@ && f.id
                == old(self).files@[file_index(old(self).files@, id@)].id && final(self).files@
                == bound(old(self).files@, id@, *owner)),
            !bindable(old(self).files@, id@) ==> r == Err::<File, Error>(Error::NotFound)
                && *final(self) == *old(self),
    {
        match self.find(id) {
            Some(k) => {
                if matches!(self.files[k].state, AttachmentState::MarkedForDeletion) {
                    return Err(Error::NotFound);
                }
                let fid = self.files[k].id.clone();
                let a = Attachment {
                    id: fid.clone(),
                    state: AttachmentState::Bound,
                    bound_to: Some(owner.clone()),
                };
                self.files.set(k, a);
                proof {
                    assert forall|i: int, j: int|
                        0 <= i < self.files@.len() && 0 <= j < self.files@.len()
                            && #[trigger] self.files@[i].id@ == #[trigger] self.files@[j].id@
                            implies i == j by {
                        assert(self.files@[i].id@ == old(self).files@[i].id@);
                        assert(self.files@[j].id@ == old(self).files@[j].id@);
                    }
                }
                Ok(File { id: fid })
            },
            None => Err(Error::NotFound),
        }
    }

    /// Releases the attachment `id`, if known, for the storage reaper.
    pub fn mark_for_deletion(&mut self, id: &String)
        requires
            old(self).wf(),
        ensures
            final(self).wf(),
            final(self).files@ == marked(old(self).files@, id@),
    {
        match self.find(id) {
            Some(k) => {
                let fid = self.files[k].id.clone();
                let owner = self.files[k].bound_to.clone();
                let a = Attachment { id: fid, state: AttachmentState::MarkedForDeletion, bound_to: owner };
                self.files.set(k, a);
                proof {
                    assert forall|i: int, j: int|
                        0 <= i < self.files@.len() && 0 <= j < self.files@.len()
                            && #[trigger] self.files@[i].id@ == #[trigger] self.files@[j].id@
                            implies i == j by {
                        assert(self.files@[i].id@ == old(self).files@[i].id@);
                        assert(self.files@[j].id@ == old(self).files@[j].id@);
                    }
                }
            },
            None => {},
        }
    }
}

} // verus!
