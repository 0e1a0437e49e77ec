use vstd::prelude::*;

use super::attachment::File;

verus! {

/// Tells whether a flag is unset; false flags are left out when a user is written out.
pub fn if_false(t: &bool) -> (r: bool)
    ensures
        r == !*t,
{
    !*t
}

/// How a user stands towards another user (or themselves).
#[derive(Debug, Clone, Copy, PartialEq, Eq, Structural)]
pub enum RelationshipStatus {
    Unrelated,
    User,
    Friend,
    Outgoing,
    Incoming,
    Blocked,
    BlockedOther,
}

/// A relationship entry with another user.
#[derive(Debug, Clone)]
pub struct Relationship {
    pub id: String,
    pub status: RelationshipStatus,
}

/// Presence shown to other users.
#[derive(Debug, Clone, Copy, PartialEq, Eq, Structural)]
pub enum Presence {
    Online,
    Idle,
    Focus,
    Busy,
    Invisible,
}

/// A user's active status.
#[derive(Debug, Clone, Default)]
pub struct UserStatus {
    pub text: Option<String>,
    pub presence: Option<Presence>,
}

/// A user's profile page.
#[derive(Debug, Clone, Default)]
pub struct UserProfile {
    pub content: Option<String>,
    pub background: Option<File>,
}

/// Badge bits of a user.
#[derive(Debug, Clone, Copy, PartialEq, Eq, Structural)]
pub enum Badges {
    Developer,
    Translator,
    Supporter,
    Adelaide,
    ResponsibleDisclosure,
    Founder,
    PlatformModeration,
    ActiveSupporter,
    Paw,
    EarlyAdopter,
    ReservedRelevantJokeBadge1,
    ReservedRelevantJokeBadge2,
}

pub open spec fn badge_value(b: Badges) -> i32 {
    match b {
        Badges::Developer => 1,
        Badges::Translator => 2,
        Badges::Supporter => 4,
        Badges::Adelaide => 6,
        Badges::ResponsibleDisclosure => 8,
        Badges::Founder => 16,
        Badges::PlatformModeration => 32,
        Badges::ActiveSupporter => 64,
        Badges::Paw => 128,
        Badges::EarlyAdopter => 256,
        Badges::ReservedRelevantJokeBadge1 => 512,
        Badges::ReservedRelevantJokeBadge2 => 1024,
    }
}

impl Badges {
    /// The integer that stands for this badge.
    pub fn value(self) -> (r: i32)
        ensures
            r == badge_value(self),
    {
        match self {
            Badges::Developer => 1,
            Badges::Translator => 2,
            Badges::Supporter => 4,
            Badges::Adelaide => 6,
            Badges::ResponsibleDisclosure => 8,
            Badges::Founder => 16,
            Badges::PlatformModeration => 32,
            Badges::ActiveSupporter => 64,
            Badges::Paw => 128,
            Badges::EarlyAdopter => 256,
            Badges::ReservedRelevantJokeBadge1 => 512,
            Badges::ReservedRelevantJokeBadge2 => 1024,
        }
    }

    /// The badge that an integer stands for, if any.
    pub fn from_value(v: i32) -> (r: Option<Badges>)
        ensures
            r matches Some(b) ==> badge_value(b) == v,
            r is None ==> (forall|b: Badges| badge_value(b) != v),
    {
        let r = if v == 1 {
            Some(Badges::Developer)
        } else if v == 2 {
            Some(Badges::Translator)
        } else if v == 4 {
            Some(Badges::Supporter)
        } else if v == 6 {
            Some(Badges::Adelaide)
        } else if v == 8 {
            Some(Badges::ResponsibleDisclosure)
        } else if v == 16 {
            Some(Badges::Founder)
        } else if v == 32 {
            Some(Badges::PlatformModeration)
        } else if v == 64 {
            Some(Badges::ActiveSupporter)
        } else if v == 128 {
            Some(Badges::Paw)
        } else if v == 256 {
            Some(Badges::EarlyAdopter)
        } else if v == 512 {
            Some(Badges::ReservedRelevantJokeBadge1)
        } else if v == 1024 {
            Some(Badges::ReservedRelevantJokeBadge2)
        } else {
            None
        };
        proof {
            if r is None {
                assert forall|b: Badges| badge_value(b) != v by {
                    match b {
                        _ => {},
                    }
                }
            }
        }
        r
    }
}

/// Account flag bits of a user.
#[derive(Debug, Clone, Copy, PartialEq, Eq, Structural)]
pub enum Flags {
    Suspended,
    Deleted,
    Banned,
    Spam,
}

pub open spec fn flag_value(f: Flags) -> i32 {
    match f {
        Flags::Suspended => 1,
        Flags::Deleted => 2,
        Flags::Banned => 4,
        Flags::Spam => 8,
    }
}

impl Flags {
    /// The integer that stands for this flag.
    pub fn value(self) -> (r: i32)
        ensures
            r == flag_value(self),
    {
        match self {
            Flags::Suspended => 1,
            Flags::Deleted => 2,
            Flags::Banned => 4,
            Flags::Spam => 8,
        }
    }

    /// The flag that an integer stands for, if any.
    pub fn from_value(v: i32) -> (r: Option<Flags>)
        ensures
            r matches Some(f) ==> flag_value(f) == v,
            r is None ==> (forall|f: Flags| flag_value(f) != v),
    {
        if v == 1 {
            Some(Flags::Suspended)
        } else if v == 2 {
            Some(Flags::Deleted)
        } else if v == 4 {
            Some(Flags::Banned)
        } else if v == 8 {
            Some(Flags::Spam)
        } else {
            assert forall|f: Flags| flag_value(f) != v by {
                match f {
                    _ => {},
                }
            }
            None
        }
    }
}

/// Bot details of a user that is a bot.
#[derive(Debug, Clone)]
pub struct BotInformation {
    pub owner: String,
}

/// A user of the platform.
#[derive(Debug, Clone, Default)]
pub struct User {
    pub id: String,
    pub username: String,
    pub discriminator: String,
    pub display_name: Option<String>,
    pub avatar: Option<File>,
    pub relations: Option<Vec<Relationship>>,
    pub badges: Option<i32>,
    pub status: Option<UserStatus>,
    pub profile: Option<UserProfile>,
    pub flags: Option<i32>,
    /// Whether the user holds the platform-wide privilege.
    pub privileged: bool,
    pub bot: Option<BotInformation>,
    pub relationship: Option<RelationshipStatus>,
    pub online: Option<bool>,
}

/// Optional fields of a user that can be removed.
#[derive(Debug, Clone, Copy, PartialEq, Eq, Structural)]
pub enum FieldsUser {
    Avatar,
    StatusText,
    StatusPresence,
    ProfileContent,
    ProfileBackground,
    DisplayName,
}

/// Which kind of user a lookup should match.
pub enum UserHint {
    Any,
    Bot,
    User,
}

} // verus!
