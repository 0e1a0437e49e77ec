use vstd::prelude::*;

use crate::error::Error;
use crate::models::attachment::File;
use crate::models::server::{
    Category, FieldsServer, Server, SystemMessageChannels,
};
use crate::permissions::{holds, has_spec, Permission, MANAGE_CHANNEL, MANAGE_SERVER};

verus! {

/// A request to edit a server: fields to assign and fields to remove.
#[derive(Debug, Clone, Default)]
pub struct DataEditServer {
    pub name: Option<String>,
    pub description: Option<String>,
    /// Identifier of an uploaded attachment to use as icon.
    pub icon: Option<String>,
    /// Identifier of an uploaded attachment to use as banner.
    pub banner: Option<String>,
    pub categories: Option<Vec<Category>>,
    pub system_messages: Option<SystemMessageChannels>,
    pub flags: Option<i32>,
    pub discoverable: Option<bool>,
    pub analytics: Option<bool>,
    pub remove: Option<Vec<FieldsServer>>,
}

/// The values that an edit assigns; fields left `None` are not touched.
#[derive(Debug, Clone, Default)]
pub struct PartialServer {
    pub name: Option<String>,
    pub description: Option<String>,
    pub categories: Option<Vec<Category>>,
    pub system_messages: Option<SystemMessageChannels>,
    pub icon: Option<File>,
    pub banner: Option<File>,
    pub flags: Option<i32>,
    pub discoverable: Option<bool>,
    pub analytics: Option<bool>,
}

pub open spec fn request_empty(d: DataEditServer) -> bool {
    d.name is None && d.description is None && d.icon is None && d.banner is None
        && d.system_messages is None && d.categories is None && d.flags is None
        && d.analytics is None && d.discoverable is None && d.remove is None
}

pub open spec fn removed(d: DataEditServer, f: FieldsServer) -> bool {
    d.remove matches Some(fs) && fs@.contains(f)
}

/// Some field is both assigned and removed.
pub open spec fn conflicts(d: DataEditServer) -> bool {
    (d.description is Some && removed(d, FieldsServer::Description)) || (d.categories is Some
        && removed(d, FieldsServer::Categories)) || (d.system_messages is Some && removed(
        d,
        FieldsServer::SystemMessages,
    )) || (d.icon is Some && removed(d, FieldsServer::Icon)) || (d.banner is Some && removed(
        d,
        FieldsServer::Banner,
    ))
}

/// The request touches a general attribute, which takes the right to manage the server.
pub open spec fn touches_general(d: DataEditServer) -> bool {
    d.name is Some || d.description is Some || d.icon is Some || d.banner is Some
        || d.system_messages is Some || d.analytics is Some || d.remove is Some
}

/// The request touches an attribute that takes the platform-wide privilege.
pub open spec fn touches_privileged(d: DataEditServer) -> bool {
    d.flags is Some || d.discoverable is Some
}

/// The first right the actor lacks for the request, group by group.
pub open spec fn gate(d: DataEditServer, perms: u64, privileged: bool) -> Option<Error> {
    if touches_general(d) && !has_spec(perms, MANAGE_SERVER) {
        Some(Error::MissingPermission { permission: Permission::ManageServer })
    } else if touches_privileged(d) && !privileged {
        Some(Error::NotPrivileged)
    } else if d.categories is Some && !has_spec(perms, MANAGE_CHANNEL) {
        Some(Error::MissingPermission { permission: Permission::ManageChannel })
    } else {
        None
    }
}

/// Whether some channel identifier of `chans` has the text `c`.
pub open spec fn names_channel(chans: Seq<String>, c: Seq<char>) -> bool {
    exists|k: int| 0 <= k < chans.len() && chans[k]@ == c
}

pub open spec fn route_ok(chans: Seq<String>, o: Option<String>) -> bool {
    match o {
        Some(c) => names_channel(chans, c@),
        None => true,
    }
}

/// Every channel that the routing table names is a channel of the server.
pub open spec fn routing_ok(chans: Seq<String>, s: SystemMessageChannels) -> bool {
    route_ok(chans, s.user_joined) && route_ok(chans, s.user_left) && route_ok(chans, s.user_kicked)
        && route_ok(chans, s.user_banned)
}

/// The channel identifiers of all categories, category by category.
pub open spec fn flat(cats: Seq<Category>) -> Seq<String>
    decreases cats.len(),
{
    if cats.len() == 0 {
        Seq::empty()
    } else {
        flat(cats.drop_last()) + cats.last().channels@
    }
}

/// Some channel identifier occurs twice among the categories.
pub open spec fn has_duplicate(s: Seq<String>) -> bool {
    exists|i: int, j: int| 0 <= i < j < s.len() && #[trigger] s[i]@ == #[trigger] s[j]@
}

/// Tells whether a channel identifier names a channel of `chans`.
pub open spec fn in_server(chans: Seq<String>) -> spec_fn(String) -> bool {
    |c: String| names_channel(chans, c@)
}

/// `out` is `cats` with each category's channels cut down to those of the server.
pub open spec fn filtered_categories(out: Seq<Category>, cats: Seq<Category>, chans: Seq<String>) -> bool {
    out.len() == cats.len() && forall|i: int|
        0 <= i < cats.len() ==> (#[trigger] out[i]).id == cats[i].id && out[i].title == cats[i].title
            && out[i].channels@ == cats[i].channels@.filter(in_server(chans))
}

/// The server with `assign` written over it and the fields of `clear` removed.
pub open spec fn merged(s: Server, assign: PartialServer, clear: Seq<FieldsServer>) -> Server {
    Server {
        id: s.id,
        owner: s.owner,
        name: match assign.name {
            Some(v) => v,
            None => s.name,
        },
        description: if assign.description is Some {
            assign.description
        } else if clear.contains(FieldsServer::Description) {
            None
        } else {
            s.description
        },
        channels: s.channels,
        categories: if assign.categories is Some {
            assign.categories
        } else if clear.contains(FieldsServer::Categories) {
            None
        } else {
            s.categories
        },
        system_messages: if assign.system_messages is Some {
            assign.system_messages
        } else if clear.contains(FieldsServer::SystemMessages) {
            None
        } else {
            s.system_messages
        },
        roles: s.roles,
        default_permissions: s.default_permissions,
        icon: if assign.icon is Some {
            assign.icon
        } else if clear.contains(FieldsServer::Icon) {
            None
        } else {
            s.icon
        },
        banner: if assign.banner is Some {
            assign.banner
        } else if clear.contains(FieldsServer::Banner) {
            None
        } else {
            s.banner
        },
        flags: if assign.flags is Some {
            assign.flags
        } else {
            s.flags
        },
        nsfw: s.nsfw,
        analytics: match assign.analytics {
            Some(v) => v,
            None => s.analytics,
        },
        discoverable: match assign.discoverable {
            Some(v) => v,
            None => s.discoverable,
        },
    }
}

/// Whether `fields` holds `f`.
pub fn contains_field(fields: &Vec<FieldsServer>, f: FieldsServer) -> (r: bool)
    ensures
        r == fields@.contains(f),
{
    let mut i: usize = 0;
    while i < fields.len()
        invariant
            i <= fields@.len(),
            forall|j: int| 0 <= j < i ==> fields@[j] != f,
        decreases fields.len() - i,
    {
        if fields[i] == f {
            assert(fields@[i as int] == f);
            return true;
        }
        i = i + 1;
    }
    false
}

fn removes(d: &DataEditServer, f: FieldsServer) -> (r: bool)
    ensures
        r == removed(*d, f),
{
    match &d.remove {
        Some(fs) => contains_field(fs, f),
        None => false,
    }
}

/// Whether the request asks for nothing at all.
pub fn is_unchanged(d: &DataEditServer) -> (r: bool)
    ensures
        r == request_empty(*d),
{
    d.name.is_none() && d.description.is_none() && d.icon.is_none() && d.banner.is_none()
        && d.system_messages.is_none() && d.categories.is_none() && d.flags.is_none()
        && d.analytics.is_none() && d.discoverable.is_none() && d.remove.is_none()
}

/// Whether the request both assigns and removes some field.
pub fn has_conflict(d: &DataEditServer) -> (r: bool)
    ensures
        r == conflicts(*d),
{
    (d.description.is_some() && removes(d, FieldsServer::Description)) || (d.categories.is_some()
        && removes(d, FieldsServer::Categories)) || (d.system_messages.is_some() && removes(
        d,
        FieldsServer::SystemMessages,
    )) || (d.icon.is_some() && removes(d, FieldsServer::Icon)) || (d.banner.is_some() && removes(
        d,
        FieldsServer::Banner,
    ))
}

/// Checks, group by group, that the actor holds what the request needs.
pub fn check_permissions(d: &DataEditServer, perms: u64, privileged: bool) -> (r: Result<(), Error>)
    ensures
        r is Ok <==> gate(*d, perms, privileged) is None,
        r matches Err(e) ==> gate(*d, perms, privileged) == Some(e),
{
    if (d.name.is_some() || d.description.is_some() || d.icon.is_some() || d.banner.is_some()
        || d.system_messages.is_some() || d.analytics.is_some() || d.remove.is_some()) && !holds(
        perms,
        MANAGE_SERVER,
    ) {
        return Err(Error::MissingPermission { permission: Permission::ManageServer });
    }
    if (d.flags.is_some() || d.discoverable.is_some()) && !privileged {
        return Err(Error::NotPrivileged);
    }
    if d.categories.is_some() && !holds(perms, MANAGE_CHANNEL) {
        return Err(Error::MissingPermission { permission: Permission::ManageChannel });
    }
    Ok(())
}

/// Whether some identifier of `chans` equals `c`.
pub fn channel_listed(chans: &Vec<String>, c: &String) -> (r: bool)
    ensures
        r == names_channel(chans@, c@),
{
    let mut k: usize = 0;
    while k < chans.len()
        invariant
            k <= chans@.len(),
            forall|j: int| 0 <= j < k ==> chans@[j]@ != c@,
        decreases chans.len() - k,
    {
        if chans[k] == *c {
            assert(chans@[k as int]@ == c@);
            return true;
        }
        k = k + 1;
    }
    false
}

fn check_route(chans: &Vec<String>, o: &Option<String>) -> (r: bool)
    ensures
        r == route_ok(chans@, *o),
{
    match o {
        Some(c) => channel_listed(chans, c),
        None => true,
    }
}

/// Checks that every channel the routing table names belongs to the server.
pub fn validate_system_messages(chans: &Vec<String>, s: &SystemMessageChannels) -> (r: Result<(), Error>)
    ensures
        r is Ok <==> routing_ok(chans@, *s),
        r is Err ==> r == Err::<(), Error>(Error::NotFound),
{
    if check_route(chans, &s.user_joined) && check_route(chans, &s.user_left) && check_route(
        chans,
        &s.user_kicked,
    ) && check_route(chans, &s.user_banned) {
        Ok(())
    } else {
        Err(Error::NotFound)
    }
}

/// The channel identifiers of all categories, category by category.
pub fn flatten_channels(cats: &Vec<Category>) -> (r: Vec<String>)
    ensures
        r@ == flat(cats@),
{
    let mut out: Vec<String> = Vec::new();
    let mut i: usize = 0;
    while i < cats.len()
        invariant
            i <= cats@.len(),
            out@ == flat(cats@.take(i as int)),
        decreases cats.len() - i,
    {
        let chans = &cats[i].channels;
        let mut j: usize = 0;
        while j < chans.len()
            invariant
                i < cats@.len(),
                *chans == cats@[i as int].channels,
                j <= chans@.len(),
                out@ == flat(cats@.take(i as int)) + chans@.take(j as int),
            decreases chans.len() - j,
        {
            out.push(chans[j].clone());
            assert(chans@.take(j + 1) =~= chans@.take(j as int).push(chans@[j as int]));
            assert(out@ =~= flat(cats@.take(i as int)) + chans@.take(j + 1));
            j = j + 1;
        }
        assert(chans@.take(j as int) =~= chans@);
        assert(cats@.take(i + 1).drop_last() =~= cats@.take(i as int));
        i = i + 1;
    }
    assert(cats@.take(i as int) =~= cats@);
    out
}

/// Whether some channel identifier occurs twice in `s`.
pub fn find_duplicate(s: &Vec<String>) -> (r: bool)
    ensures
        r == has_duplicate(s@),
{
    let mut j: usize = 0;
    while j < s.len()
        invariant
            j <= s@.len(),
            forall|a: int, b: int| 0 <= a < b < j ==> #[trigger] s@[a]@ != #[trigger] s@[b]@,
        decreases s.len() - j,
    {
        let mut i: usize = 0;
        while i < j
            invariant
                i <= j < s@.len(),
                forall|a: int| 0 <= a < i ==> #[trigger] s@[a]@ != s@[j as int]@,
            decreases j - i,
        {
            if s[i] == s[j] {
                assert(s@[i as int]@ == s@[j as int]@);
                return true;
            }
            i = i + 1;
        }
        j = j + 1;
    }
    false
}

/// The identifiers of `list` that name channels of `chans`, in order.
pub fn filter_channels(chans: &Vec<String>, list: &Vec<String>) -> (r: Vec<String>)
    ensures
        r@ == list@.filter(in_server(chans@)),
{
    let mut out: Vec<String> = Vec::new();
    let mut j: usize = 0;
    while j < list.len()
        invariant
            j <= list@.len(),
            out@ == list@.take(j as int).filter(in_server(chans@)),
        decreases list.len() - j,
    {
        let ghost next = list@.take(j + 1);
        assert(next.drop_last() =~= list@.take(j as int));
        assert(next.last() == list@[j as int]);
        reveal(Seq::filter);
        assert(next.filter(in_server(chans@)) == (if in_server(chans@)(next.last()) {
            next.drop_last().filter(in_server(chans@)).push(next.last())
        } else {
            next.drop_last().filter(in_server(chans@))
        }));
        if channel_listed(chans, &list[j]) {
            out.push(list[j].clone());
        }
        j = j + 1;
    }
    assert(list@.take(j as int) =~= list@);
    out
}

/// The categories with each one's channels cut down to those of the server, or
/// `InvalidOperation` where a channel is listed twice among them.
pub fn reconcile_categories(chans: &Vec<String>, cats: &Vec<Category>) -> (r: Result<
    Vec<Category>,
    Error,
>)
    ensures
        r is Err <==> has_duplicate(flat(cats@)),
        r is Err ==> r == Err::<Vec<Category>, Error>(Error::InvalidOperation),
        r matches Ok(out) ==> filtered_categories(out@, cats@, chans@),
{
    let all = flatten_channels(cats);
    if find_duplicate(&all) {
        return Err(Error::InvalidOperation);
    }
    let mut out: Vec<Category> = Vec::new();
    let mut i: usize = 0;
    while i < cats.len()
        invariant
            i <= cats@.len(),
            !has_duplicate(flat(cats@)),
            out@.len() == i,
            forall|k: int|
                0 <= k < i ==> (#[trigger] out@[k]).id == cats@[k].id && out@[k].title
                    == cats@[k].title && out@[k].channels@ == cats@[k].channels@.filter(
                    in_server(chans@),
                ),
        decreases cats.len() - i,
    {
        let c = &cats[i];
        let kept = filter_channels(chans, &c.channels);
        out.push(Category { id: c.id.clone(), title: c.title.clone(), channels: kept });
        i = i + 1;
    }
    Ok(out)
}

/// Writes `assign` over the server and removes the fields of `clear`, touching
/// nothing else.
pub fn apply_plan(server: &mut Server, assign: PartialServer, clear: &Vec<FieldsServer>)
    ensures
        *final(server) == merged(*old(server), assign, clear@),
{
    let PartialServer {
        name,
        description,
        categories,
        system_messages,
        icon,
        banner,
        flags,
        discoverable,
        analytics,
    } = assign;
    if let Some(v) = name {
        server.name = v;
    }
    if description.is_some() {
        server.description = description;
    } else if contains_field(clear, FieldsServer::Description) {
        server.description = None;
    }
    if categories.is_some() {
        server.categories = categories;
    } else if contains_field(clear, FieldsServer::Categories) {
        server.categories = None;
    }
    if system_messages.is_some() {
        server.system_messages = system_messages;
    } else if contains_field(clear, FieldsServer::SystemMessages) {
        server.system_messages = None;
    }
    if icon.is_some() {
        server.icon = icon;
    } else if contains_field(clear, FieldsServer::Icon) {
        server.icon = None;
    }
    if banner.is_some() {
        server.banner = banner;
    } else if contains_field(clear, FieldsServer::Banner) {
        server.banner = None;
    }
    if flags.is_some() {
        server.flags = flags;
    }
    if let Some(v) = analytics {
        server.analytics = v;
    }
    if let Some(v) = discoverable {
        server.discoverable = v;
    }
}

/// Committing the same plan a second time leaves the server as the first commit left it.
pub proof fn lemma_apply_plan_idempotent(s: Server, assign: PartialServer, clear: Seq<FieldsServer>)
    ensures
        merged(merged(s, assign, clear), assign, clear) == merged(s, assign, clear),
{
}

/// Longest name of a server, and of a category's identifier and title.
pub const NAME_MAX: u64 = 32;

/// Longest description of a server.
pub const DESCRIPTION_MAX: u64 = 1024;

/// Relies on validator::validate_length on a `&String`: it counts the string's
/// characters and tells whether the count lies within both bounds.
#[verifier::external_body]
fn length_within(s: &String, min: u64, max: u64) -> (r: bool)
    ensures
        r == (min <= s@.len() && s@.len() <= max),
{
    validator::validate_length(s, Some(min), Some(max), None)
}

pub open spec fn len_within(s: String, min: int, max: int) -> bool {
    min <= s@.len() <= max
}

pub open spec fn category_valid(c: Category) -> bool {
    len_within(c.id, 1, NAME_MAX as int) && len_within(c.title, 1, NAME_MAX as int)
}

/// The request's values are within their ranges: a name of 1 to 32 characters, a
/// description of at most 1024, category identifiers and titles of 1 to 32, and a
/// removal list that is not empty.
pub open spec fn request_valid(d: DataEditServer) -> bool {
    &&& (d.name matches Some(n) ==> len_within(n, 1, NAME_MAX as int))
    &&& (d.description matches Some(x) ==> len_within(x, 0, DESCRIPTION_MAX as int))
    &&& (d.categories matches Some(c) ==> forall|i: int|
        0 <= i < c@.len() ==> category_valid(#[trigger] c@[i]))
    &&& (d.remove matches Some(fs) ==> fs@.len() >= 1)
}

/// Checks the ranges of the request's values.
pub fn validate_request(d: &DataEditServer) -> (r: Result<(), Error>)
    ensures
        r is Ok <==> request_valid(*d),
        r is Err ==> r == Err::<(), Error>(Error::FailedValidation),
{
    if let Some(n) = &d.name {
        if !length_within(n, 1, NAME_MAX) {
            return Err(Error::FailedValidation);
        }
    }
    if let Some(x) = &d.description {
        if !length_within(x, 0, DESCRIPTION_MAX) {
            return Err(Error::FailedValidation);
        }
    }
    if let Some(cats) = &d.categories {
        let mut i: usize = 0;
        while i < cats.len()
            invariant
                i <= cats@.len(),
                d.categories == Some(*cats),
                forall|k: int| 0 <= k < i ==> category_valid(#[trigger] cats@[k]),
            decreases cats.len() - i,
        {
            if !length_within(&cats[i].id, 1, NAME_MAX) || !length_within(&cats[i].title, 1, NAME_MAX) {
                assert(!category_valid(cats@[i as int]));
                assert(d.categories == Some(*cats));
                assert(d.categories->0@[i as int] == cats@[i as int]);
                assert(!request_valid(*d));
                return Err(Error::FailedValidation);
            }
            i = i + 1;
        }
    }
    if let Some(fs) = &d.remove {
        if fs.len() == 0 {
            return Err(Error::FailedValidation);
        }
    }
    Ok(())
}

} // verus!
