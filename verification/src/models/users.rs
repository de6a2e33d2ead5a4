//! Users, their roles, and the stored records they are assembled from.

use crate::text::same_text;
use crate::time::Timestamp;
use vstd::prelude::*;

verus! {

/// A capability level. Levels are totally ordered:
/// `Developer` below `Moderator` below `Admin`.
#[derive(Clone, Copy, Debug, PartialEq, Eq, Structural)]
pub enum Role {
    Developer,
    Moderator,
    Admin,
}

impl Role {
    /// The position of a role in the order of capability.
    pub open spec fn rank(self) -> nat {
        match self {
            Role::Developer => 0,
            Role::Moderator => 1,
            Role::Admin => 2,
        }
    }

    /// `self` grants at least what `minimum` grants.
    pub open spec fn at_least(self, minimum: Role) -> bool {
        self.rank() >= minimum.rank()
    }

    /// The role that a stored name stands for. Any name other than the two
    /// privileged ones is an ordinary developer.
    pub open spec fn named(name: Seq<char>) -> Role {
        if name == "admin"@ {
            Role::Admin
        } else if name == "moderator"@ {
            Role::Moderator
        } else {
            Role::Developer
        }
    }

    /// The name under which a role is stored.
    pub open spec fn name(self) -> Seq<char> {
        match self {
            Role::Developer => "developer"@,
            Role::Moderator => "moderator"@,
            Role::Admin => "admin"@,
        }
    }

    /// The order of roles is total: any two roles compare, a role is at
    /// least itself, two roles that are each at least the other are the
    /// same, and what is at least a role is at least everything below it.
    pub proof fn lemma_order_is_total(self, other: Role, lowest: Role)
        ensures
            self.at_least(other) || other.at_least(self),
            self.at_least(self),
            self.at_least(other) && other.at_least(self) ==> self == other,
            self.at_least(other) && other.at_least(lowest) ==> self.at_least(lowest),
            self.at_least(Role::Developer),
            Role::Admin.at_least(self),
    {
    }

    pub fn from_string(string: &str) -> (role: Role)
        ensures
            role == Role::named(string@),
    {
        if same_text(string, "admin") {
            Role::Admin
        } else if same_text(string, "moderator") {
            Role::Moderator
        } else {
            Role::Developer
        }
    }

    pub fn as_str(&self) -> (text: &'static str)
        ensures
            text@ == self.name(),
    {
        match self {
            Role::Developer => "developer",
            Role::Moderator => "moderator",
            Role::Admin => "admin",
        }
    }

    pub fn is_at_least(&self, minimum: Role) -> (b: bool)
        ensures
            b == self.at_least(minimum),
    {
        match minimum {
            Role::Developer => true,
            Role::Moderator => match self {
                Role::Developer => false,
                _ => true,
            },
            Role::Admin => match self {
                Role::Admin => true,
                _ => false,
            },
        }
    }

    pub fn is_mod(&self) -> (b: bool)
        ensures
            b == self.at_least(Role::Moderator),
    {
        self.is_at_least(Role::Moderator)
    }

    pub fn is_admin(&self) -> (b: bool)
        ensures
            b == self.at_least(Role::Admin),
    {
        self.is_at_least(Role::Admin)
    }
}

/// A decimal amount of money: `mantissa` divided by ten to the power `scale`.
#[derive(Clone, Copy, Debug, PartialEq, Eq, Structural)]
pub struct Amount {
    pub mantissa: i128,
    pub scale: u32,
}

/// A user as the user store keeps it.
#[derive(Clone, Debug, PartialEq, Eq)]
pub struct UserRecord {
    pub id: i64,
    pub github_id: Option<i64>,
    pub username: String,
    pub name: Option<String>,
    pub email: Option<String>,
    pub avatar_url: Option<String>,
    pub bio: Option<String>,
    pub created: Timestamp,
    pub role: String,
    pub badges: u64,
    pub balance: Amount,
    pub payout_wallet: Option<String>,
    pub payout_wallet_type: Option<String>,
    pub payout_address: Option<String>,
}

/// What a user is owed and where it is paid out. Only the user's own view of
/// the account carries it.
#[derive(Clone, Debug, PartialEq, Eq)]
pub struct UserPayoutData {
    pub balance: Amount,
    pub payout_wallet: Option<String>,
    pub payout_wallet_type: Option<String>,
    pub payout_address: Option<String>,
}

/// The identity that authentication returns.
#[derive(Clone, Debug, PartialEq, Eq)]
pub struct User {
    pub id: i64,
    pub github_id: Option<i64>,
    pub username: String,
    pub name: Option<String>,
    pub email: Option<String>,
    pub avatar_url: Option<String>,
    pub bio: Option<String>,
    pub created: Timestamp,
    pub role: Role,
    pub badges: u64,
    pub payout_data: Option<UserPayoutData>,
}

impl User {
    /// The user that a stored record describes, seen by that user: every
    /// profile field is carried over, the role is read from its stored name,
    /// and the payout data is always present.
    pub open spec fn of_record(record: UserRecord) -> User {
        User {
            id: record.id,
            github_id: record.github_id,
            username: record.username,
            name: record.name,
            email: record.email,
            avatar_url: record.avatar_url,
            bio: record.bio,
            created: record.created,
            role: Role::named(record.role@),
            badges: record.badges,
            payout_data: Some(
                UserPayoutData {
                    balance: record.balance,
                    payout_wallet: record.payout_wallet,
                    payout_wallet_type: record.payout_wallet_type,
                    payout_address: record.payout_address,
                },
            ),
        }
    }

    /// Assembles the user from the stored record.
    pub fn from_record(record: UserRecord) -> (user: User)
        ensures
            user == User::of_record(record),
            user.payout_data is Some,
    {
        let role = Role::from_string(record.role.as_str());
        User {
            id: record.id,
            github_id: record.github_id,
            username: record.username,
            name: record.name,
            email: record.email,
            avatar_url: record.avatar_url,
            bio: record.bio,
            created: record.created,
            role,
            badges: record.badges,
            payout_data: Some(
                UserPayoutData {
                    balance: record.balance,
                    payout_wallet: record.payout_wallet,
                    payout_wallet_type: record.payout_wallet_type,
                    payout_address: record.payout_address,
                },
            ),
        }
    }
}

} // verus!
