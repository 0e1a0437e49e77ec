use vstd::prelude::*;

use super::attachment::File;
use crate::permissions::OverrideField;

verus! {

/// Tells whether a flag is unset; false flags are left out when a server is written out.
pub fn if_false(t: &bool) -> (r: bool)
    ensures
        r == !*t,
{
    !*t
}

/// A role of a server.
#[derive(Debug, Clone)]
pub struct Role {
    pub name: String,
    /// Override that the role applies to its members' permissions.
    pub permissions: OverrideField,
    pub colour: Option<String>,
    /// Whether members with this role are listed apart.
    pub hoist: bool,
    /// Precedence of the role: higher ranks are applied later and win.
    pub rank: i64,
}

/// A category grouping channels of a server.
#[derive(Debug, Clone)]
pub struct Category {
    pub id: String,
    pub title: String,
    pub channels: Vec<String>,
}

/// The channels that system event messages go to.
#[derive(Debug, Clone)]
pub struct SystemMessageChannels {
    pub user_joined: Option<String>,
    pub user_left: Option<String>,
    pub user_kicked: Option<String>,
    pub user_banned: Option<String>,
}

/// The channel identifiers that a routing table names, in field order.
pub open spec fn routing_ids(s: SystemMessageChannels) -> Seq<String> {
    opt_seq(s.user_joined) + opt_seq(s.user_left) + opt_seq(s.user_kicked) + opt_seq(
        s.user_banned,
    )
}

pub open spec fn opt_seq(o: Option<String>) -> Seq<String> {
    match o {
        Some(x) => seq![x],
        None => Seq::empty(),
    }
}

fn push_opt(v: &mut Vec<String>, o: Option<String>)
    ensures
        final(v)@ == old(v)@ + opt_seq(o),
{
    match o {
        Some(x) => {
            v.push(x);
        },
        None => {
            assert(old(v)@ + opt_seq(o) =~= old(v)@);
        },
    }
}

impl SystemMessageChannels {
    /// The channel identifiers that this table routes to, in field order.
    pub fn into_channel_ids(self) -> (r: Vec<String>)
        ensures
            r@ == routing_ids(self),
    {
        let mut ids: Vec<String> = Vec::new();
        push_opt(&mut ids, self.user_joined);
        push_opt(&mut ids, self.user_left);
        push_opt(&mut ids, self.user_kicked);
        push_opt(&mut ids, self.user_banned);
        assert(ids@ =~= routing_ids(self));
        ids
    }
}

/// Flag bits of a server.
#[derive(Debug, Clone, Copy, PartialEq, Eq, Structural)]
pub enum ServerFlags {
    Verified,
    Official,
}

pub open spec fn server_flag_value(f: ServerFlags) -> i32 {
    match f {
        ServerFlags::Verified => 1,
        ServerFlags::Official => 2,
    }
}

impl ServerFlags {
    /// The integer that stands for this flag.
    pub fn value(self) -> (r: i32)
        ensures
            r == server_flag_value(self),
    {
        match self {
            ServerFlags::Verified => 1,
            ServerFlags::Official => 2,
        }
    }

    /// The flag that an integer stands for, if any.
    pub fn from_value(v: i32) -> (r: Option<ServerFlags>)
        ensures
            r matches Some(f) ==> server_flag_value(f) == v,
            r is None ==> (forall|f: ServerFlags| server_flag_value(f) != v),
    {
        if v == 1 {
            Some(ServerFlags::Verified)
        } else if v == 2 {
            Some(ServerFlags::Official)
        } else {
            assert forall|f: ServerFlags| server_flag_value(f) != v by {
                match f {
                    _ => {},
                }
            }
            None
        }
    }
}

/// A server: the shared record that owns channels, categories and roles.
#[derive(Debug, Clone, Default)]
pub struct Server {
    pub id: String,
    pub owner: String,
    pub name: String,
    pub description: Option<String>,
    /// The channels of the server; the authority on membership.
    pub channels: Vec<String>,
    pub categories: Option<Vec<Category>>,
    pub system_messages: Option<SystemMessageChannels>,
    /// The role registry: role identifier and role.
    pub roles: Vec<(String, Role)>,
    pub default_permissions: u64,
    pub icon: Option<File>,
    pub banner: Option<File>,
    pub flags: Option<i32>,
    pub nsfw: bool,
    pub analytics: bool,
    pub discoverable: bool,
}

/// Optional fields of a server that an edit can remove.
#[derive(Debug, Clone, Copy, PartialEq, Eq, Structural)]
pub enum FieldsServer {
    Description,
    Categories,
    SystemMessages,
    Icon,
    Banner,
}

/// Optional fields of a role that an edit can remove.
#[derive(Debug, Clone, Copy, PartialEq, Eq, Structural)]
pub enum FieldsRole {
    Colour,
}

} // verus!
