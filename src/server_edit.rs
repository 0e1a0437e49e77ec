use vstd::prelude::*;

use crate::error::Error;
use crate::lifecycle::{bindable, bound, file_index, files_unique, marked, AttachmentStore};
use crate::models::attachment::{Attachment, AttachmentState, File};
use crate::models::server::{Category, FieldsServer, Server};
use crate::mutation::{
    apply_plan, check_permissions, contains_field, conflicts, filtered_categories, flat, gate, has_conflict,
    has_duplicate, is_unchanged, request_valid, validate_request, merged, names_channel, reconcile_categories, removed, request_empty, routing_ok,
    validate_system_messages, DataEditServer, PartialServer,
};

verus! {

/// The error an edit ends with, checked in this order: a value out of range, a field both assigned and
/// removed, a missing right, a routing entry outside the server, a channel listed in
/// two places among the categories, an attachment that cannot be taken.
pub open spec fn edit_error(s: Server, files: Seq<Attachment>, d: DataEditServer, perms: u64, privileged: bool) -> Option<Error> {
    if !request_valid(d) {
        Some(Error::FailedValidation)
    } else if conflicts(d) {
        Some(Error::InvalidOperation)
    } else if gate(d, perms, privileged) is Some {
        gate(d, perms, privileged)
    } else if d.system_messages matches Some(sm) && !routing_ok(s.channels@, sm) {
        Some(Error::NotFound)
    } else if d.categories matches Some(c) && has_duplicate(flat(c@)) {
        Some(Error::InvalidOperation)
    } else if d.icon matches Some(id) && !bindable(files, id@) {
        Some(Error::NotFound)
    } else if d.banner matches Some(id) && !bindable(files, id@) {
        Some(Error::NotFound)
    } else {
        None
    }
}

/// The reference that binding attachment `id` yields.
pub open spec fn bound_file(files: Seq<Attachment>, id: String) -> File {
    File { id: files[file_index(files, id@)].id }
}

/// `assign` is what request `d` writes to server `s`.
pub open spec fn planned(assign: PartialServer, d: DataEditServer, s: Server, files: Seq<Attachment>) -> bool {
    &&& assign.name == d.name
    &&& assign.description == d.description
    &&& assign.system_messages == d.system_messages
    &&& assign.flags == d.flags
    &&& assign.discoverable == d.discoverable
    &&& assign.analytics == d.analytics
    &&& match d.categories {
        None => assign.categories is None,
        Some(c) => assign.categories matches Some(o) && filtered_categories(o@, c@, s.channels@),
    }
    &&& match d.icon {
        None => assign.icon is None,
        Some(id) => assign.icon == Some(bound_file(files, id)),
    }
    &&& match d.banner {
        None => assign.banner is None,
        Some(id) => assign.banner == Some(bound_file(files, id)),
    }
}

/// The fields that request `d` removes.
pub open spec fn clear_of(d: DataEditServer) -> Seq<FieldsServer> {
    match d.remove {
        Some(fs) => fs@,
        None => Seq::empty(),
    }
}

/// The attachments after an edit of `s` by `d`: new attachments bound to the server,
/// then the removed ones released.
pub open spec fn files_after(files: Seq<Attachment>, d: DataEditServer, s: Server) -> Seq<Attachment> {
    let f1 = match d.icon {
        Some(id) => bound(files, id@, s.id),
        None => files,
    };
    let f2 = match d.banner {
        Some(id) => bound(f1, id@, s.id),
        None => f1,
    };
    let f3 = if removed(d, FieldsServer::Icon) && s.icon is Some {
        marked(f2, s.icon->0.id@)
    } else {
        f2
    };
    if removed(d, FieldsServer::Banner) && s.banner is Some {
        marked(f3, s.banner->0.id@)
    } else {
        f3
    }
}

proof fn lemma_bound_keeps_bindable(files: Seq<Attachment>, a: Seq<char>, b: Seq<char>, owner: String)
    requires
        files_unique(files),
        bindable(files, a),
        bindable(files, b),
    ensures
        files_unique(bound(files, a, owner)),
        bindable(bound(files, a, owner), b),
        file_index(bound(files, a, owner), b) == file_index(files, b),
        bound(files, a, owner)[file_index(files, b)].id == files[file_index(files, b)].id,
{
    let g = bound(files, a, owner);
    let ka = file_index(files, a);
    let kb = file_index(files, b);
    assert forall|i: int| 0 <= i < g.len() implies #[trigger] g[i].id == files[i].id by {}
    assert(g[kb].id@ == b);
    let c = file_index(g, b);
    assert(files[c].id@ == files[kb].id@);
    assert(g[kb].state != AttachmentState::MarkedForDeletion);
}

/// Edits `server` as request `data` asks, for an actor holding `perms` in it and,
/// when `privileged`, the platform-wide privilege.
///
/// A request that asks for nothing changes nothing and is not checked against any
/// right. Otherwise the edit is refused, with nothing changed, on the first error
/// that `edit_error` names; else the plan is committed, new icon and banner
/// attachments are bound to the server, and removed ones are released after the
/// commit.
pub fn req(
    server: &mut Server,
    store: &mut AttachmentStore,
    data: DataEditServer,
    perms: u64,
    privileged: bool,
) -> (r: Result<(), Error>)
    requires
        old(store).wf(),
    ensures
        final(store).wf(),
        request_empty(data) ==> r is Ok && *final(server) == *old(server) && *final(store)
            == *old(store),
        !request_empty(data) && edit_error(*old(server), old(store).files@, data, perms, privileged)
            is Some ==> r == Err::<(), Error>(
            edit_error(*old(server), old(store).files@, data, perms, privileged)->0,
        ) && *final(server) == *old(server) && *final(store) == *old(store),
        !request_empty(data) && edit_error(*old(server), old(store).files@, data, perms, privileged)
            is None ==> r is Ok && (exists|assign: PartialServer|
            planned(assign, data, *old(server), old(store).files@) && *final(server) == merged(
                *old(server),
                assign,
                clear_of(data),
            )) && final(store).files@ == files_after(old(store).files@, data, *old(server)),
{
    if is_unchanged(&data) {
        return Ok(());
    }
    match validate_request(&data) {
        Ok(()) => {},
        Err(e) => {
            return Err(e);
        },
    }
    if has_conflict(&data) {
        return Err(Error::InvalidOperation);
    }
    match check_permissions(&data, perms, privileged) {
        Ok(()) => {},
        Err(e) => {
            return Err(e);
        },
    }
    if let Some(sm) = &data.system_messages {
        match validate_system_messages(&server.channels, sm) {
            Ok(()) => {},
            Err(e) => {
                return Err(e);
            },
        }
    }
    let categories = match &data.categories {
        Some(c) => match reconcile_categories(&server.channels, c) {
            Ok(out) => Some(out),
            Err(e) => {
                return Err(e);
            },
        },
        None => None,
    };
    if let Some(id) = &data.icon {
        if !store.can_bind(id) {
            return Err(Error::NotFound);
        }
    }
    if let Some(id) = &data.banner {
        if !store.can_bind(id) {
            return Err(Error::NotFound);
        }
    }
    let ghost s0 = *server;
    let ghost f0 = store.files@;
    let DataEditServer {
        name,
        description,
        icon,
        banner,
        categories: _,
        system_messages,
        flags,
        discoverable,
        analytics,
        remove,
    } = data;
    let icon_ref = match &icon {
        Some(id) => {
            proof {
                if banner is Some {
                    lemma_bound_keeps_bindable(f0, id@, banner->0@, s0.id);
                }
            }
            match store.bind(id, &server.id) {
                Ok(f) => Some(f),
                Err(e) => {
                    return Err(e);
                },
            }
        },
        None => None,
    };
    let banner_ref = match &banner {
        Some(id) => match store.bind(id, &server.id) {
            Ok(f) => Some(f),
            Err(e) => {
                return Err(e);
            },
        },
        None => None,
    };
    let assign = PartialServer {
        name,
        description,
        categories,
        system_messages,
        icon: icon_ref,
        banner: banner_ref,
        flags,
        discoverable,
        analytics,
    };
    assert(planned(assign, data, s0, f0));
    let ghost a = assign;
    let clear = match remove {
        Some(fs) => fs,
        None => Vec::new(),
    };
    assert(clear@ =~= clear_of(data));
    let ghost f2 = store.files@;
    assert(f2 == files_after(f0, DataEditServer { remove: None, ..data }, s0));
    let old_icon: Option<String> = match &server.icon {
        Some(f) => Some(f.id.clone()),
        None => None,
    };
    let old_banner: Option<String> = match &server.banner {
        Some(f) => Some(f.id.clone()),
        None => None,
    };
    apply_plan(server, assign, &clear);
    assert(*server == merged(s0, a, clear_of(data)));
    if contains_field(&clear, FieldsServer::Icon) {
        if let Some(id) = &old_icon {
            store.mark_for_deletion(id);
        }
    }
    if contains_field(&clear, FieldsServer::Banner) {
        if let Some(id) = &old_banner {
            store.mark_for_deletion(id);
        }
    }
    assert(store.files@ == files_after(f0, data, s0));
    Ok(())
}

/// Where of channel identifiers `flat` puts channel `b` of category `a`.
pub open spec fn flat_offset(cats: Seq<Category>, a: int) -> int {
    flat(cats.take(a)).len() as int
}

/// Channel `b` of category `a` stands in the flattened list at its offset.
pub proof fn lemma_flat_position(cats: Seq<Category>, a: int, b: int)
    requires
        0 <= a < cats.len(),
        0 <= b < cats[a].channels@.len(),
    ensures
        0 <= flat_offset(cats, a) + b < flat(cats).len(),
        flat(cats)[flat_offset(cats, a) + b] == cats[a].channels@[b],
    decreases cats.len(),
{
    let last = cats.len() - 1;
    if a == last {
        assert(cats.take(a) =~= cats.drop_last());
    } else {
        lemma_flat_position(cats.drop_last(), a, b);
        assert(cats.drop_last().take(a) =~= cats.take(a));
    }
}

/// A channel listed in two different categories is a duplicate of the flattened list.
pub proof fn lemma_collision_is_duplicate(cats: Seq<Category>, a1: int, b1: int, a2: int, b2: int)
    requires
        0 <= a1 < cats.len(),
        0 <= a2 < cats.len(),
        a1 != a2,
        0 <= b1 < cats[a1].channels@.len(),
        0 <= b2 < cats[a2].channels@.len(),
        cats[a1].channels@[b1]@ == cats[a2].channels@[b2]@,
    ensures
        has_duplicate(flat(cats)),
{
    let (x1, y1, x2, y2) = if a1 < a2 {
        (a1, b1, a2, b2)
    } else {
        (a2, b2, a1, b1)
    };
    lemma_flat_position(cats, x1, y1);
    lemma_flat_position(cats, x2, y2);
    let pre = cats.take(x2);
    lemma_flat_position(pre, x1, y1);
    assert(pre.take(x1) =~= cats.take(x1));
    let i = flat_offset(cats, x1) + y1;
    let j = flat_offset(cats, x2) + y2;
    assert(flat(cats)[i]@ == flat(cats)[j]@);
}

/// A well-formed request that both assigns and removes a field is refused as an
/// invalid operation, before any right is checked.
pub proof fn lemma_conflict_rejected(s: Server, files: Seq<Attachment>, d: DataEditServer, perms: u64, privileged: bool)
    requires
        request_valid(d),
        conflicts(d),
    ensures
        edit_error(s, files, d, perms, privileged) == Some(Error::InvalidOperation),
{
}

/// Where a channel is listed in two categories, an edit that the actor may make and
/// whose routing is sound is refused as an invalid operation.
pub proof fn lemma_category_collision_rejected(
    s: Server,
    files: Seq<Attachment>,
    d: DataEditServer,
    perms: u64,
    privileged: bool,
    a1: int,
    b1: int,
    a2: int,
    b2: int,
)
    requires
        request_valid(d),
        !conflicts(d),
        gate(d, perms, privileged) is None,
        d.system_messages matches Some(sm) ==> routing_ok(s.channels@, sm),
        d.categories matches Some(c) && 0 <= a1 < c@.len() && 0 <= a2 < c@.len() && a1 != a2
            && 0 <= b1 < c@[a1].channels@.len() && 0 <= b2 < c@[a2].channels@.len()
            && c@[a1].channels@[b1]@ == c@[a2].channels@[b2]@,
    ensures
        edit_error(s, files, d, perms, privileged) == Some(Error::InvalidOperation),
{
    lemma_collision_is_duplicate(d.categories->0@, a1, b1, a2, b2);
}

/// A routing entry naming a channel outside the server makes an edit that the actor
/// may make fail with `NotFound`.
pub proof fn lemma_unknown_route_rejected(
    s: Server,
    files: Seq<Attachment>,
    d: DataEditServer,
    perms: u64,
    privileged: bool,
    target: String,
)
    requires
        request_valid(d),
        !conflicts(d),
        gate(d, perms, privileged) is None,
        d.system_messages matches Some(sm) && (sm.user_joined == Some(target) || sm.user_left
            == Some(target) || sm.user_kicked == Some(target) || sm.user_banned == Some(target)),
        !names_channel(s.channels@, target@),
    ensures
        edit_error(s, files, d, perms, privileged) == Some(Error::NotFound),
{
}

} // verus!
