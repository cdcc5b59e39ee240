use crate::error::{ServiceError, StoreFailure};
use crate::identifier::{
    canonical_text, fresh_identifier, identifier_text, is_issued_text, is_random_version,
    parse_identifier, parsed_identifier, Identifier,
};
use crate::timestamp::{current_time, NaiveTimestamp, Timestamp};
use vstd::prelude::*;

verus! {

/// The membership of a user in a family, with the user's role, as the
/// service hands it out.
#[derive(Debug, Clone, PartialEq, Eq)]
pub struct UserFamily {
    pub id: String,
    pub user_id: Identifier,
    pub family_id: Identifier,
    pub role: String,
    pub created_at: Timestamp,
}

/// A membership as the store keeps it. That the two references name stored
/// records is the store's to uphold.
#[derive(Debug, Clone, PartialEq, Eq)]
pub struct UserFamilyDB {
    pub id: Identifier,
    pub user_id: Identifier,
    pub family_id: Identifier,
    pub role: String,
    pub created_at: NaiveTimestamp,
}

/// A request to create a membership. The two references come as text; a
/// client may leave any field out.
#[derive(Debug, Clone, PartialEq, Eq)]
pub struct UserFamilyRequest {
    pub user_id: Option<String>,
    pub family_id: Option<String>,
    pub role: Option<String>,
}

/// What a `UserFamily` holds, as mathematical values.
pub struct UserFamilyView {
    pub id: Seq<char>,
    pub user_id: u128,
    pub family_id: u128,
    pub role: Seq<char>,
    pub created_at: Timestamp,
}

/// What a `UserFamilyDB` holds, as mathematical values.
pub struct UserFamilyDBView {
    pub id: u128,
    pub user_id: u128,
    pub family_id: u128,
    pub role: Seq<char>,
    pub created_at: NaiveTimestamp,
}

impl View for UserFamily {
    type V = UserFamilyView;

    open spec fn view(&self) -> UserFamilyView {
        UserFamilyView {
            id: self.id@,
            user_id: self.user_id.bits,
            family_id: self.family_id.bits,
            role: self.role@,
            created_at: self.created_at,
        }
    }
}

impl View for UserFamilyDB {
    type V = UserFamilyDBView;

    open spec fn view(&self) -> UserFamilyDBView {
        UserFamilyDBView {
            id: self.id.bits,
            user_id: self.user_id.bits,
            family_id: self.family_id.bits,
            role: self.role@,
            created_at: self.created_at,
        }
    }
}

impl UserFamilyView {
    /// The row that stores this membership under the identifier `id`: the
    /// references and the role copied, the time untagged. The membership's
    /// own identifier does not enter.
    pub open spec fn row_with(self, id: u128) -> UserFamilyDBView {
        UserFamilyDBView {
            id,
            user_id: self.user_id,
            family_id: self.family_id,
            role: self.role,
            created_at: self.created_at.spec_naive_utc(),
        }
    }
}

impl UserFamilyDBView {
    /// The membership that this row stands for: the identifier as canonical
    /// text, the references and the role copied, the time tagged as UTC.
    pub open spec fn to_user_family(self) -> UserFamilyView {
        UserFamilyView {
            id: canonical_text(self.id),
            user_id: self.user_id,
            family_id: self.family_id,
            role: self.role,
            created_at: self.created_at.spec_and_utc(),
        }
    }
}

impl UserFamily {
    /// A membership with the identity, the creation time and the two
    /// references given.
    pub fn with_identity(
        id: Identifier,
        created_at: Timestamp,
        user_id: Identifier,
        family_id: Identifier,
        role: String,
    ) -> (membership: UserFamily)
        ensures
            membership@ == (UserFamilyView {
                id: canonical_text(id.bits),
                user_id: user_id.bits,
                family_id: family_id.bits,
                role: role@,
                created_at,
            }),
            parsed_identifier(membership.id@) == Some(id.bits),
    {
        UserFamily { id: identifier_text(id), user_id, family_id, role, created_at }
    }

    /// A new membership: the two references read from their texts, the role
    /// as given, a fresh random identifier, and the clock's reading as
    /// creation time. Both texts must be ones that read as identifiers.
    pub fn new(user_id: String, family_id: String, role: String) -> (membership: UserFamily)
        requires
            parsed_identifier(user_id@) is Some,
            parsed_identifier(family_id@) is Some,
        ensures
            parsed_identifier(user_id@) == Some(membership.user_id.bits),
            parsed_identifier(family_id@) == Some(membership.family_id.bits),
            membership.role@ == role@,
            is_issued_text(membership.id@),
            parsed_identifier(membership.id@) is Some,
            membership.created_at.secs >= 0,
            membership.created_at.nanos < 1_000_000_000,
    {
        let user = parse_identifier(user_id.as_str()).unwrap();
        let family = parse_identifier(family_id.as_str()).unwrap();
        let id = fresh_identifier();
        let created_at = current_time();
        UserFamily::with_identity(id, created_at, user, family, role)
    }

    /// The row that stores this membership under the identifier given.
    pub fn to_user_family_db_with(&self, id: Identifier) -> (row: UserFamilyDB)
        ensures
            row@ == self@.row_with(id.bits),
    {
        UserFamilyDB {
            id,
            user_id: self.user_id,
            family_id: self.family_id,
            role: self.role.clone(),
            created_at: self.created_at.naive_utc(),
        }
    }

    /// The row that stores this membership. The row gets a fresh random
    /// identifier of its own: the one that the membership carries is not the
    /// one stored, and the membership read back from the row shows the row's.
    pub fn to_user_family_db(&self) -> (row: UserFamilyDB)
        ensures
            row@ == self@.row_with(row.id.bits),
            is_random_version(row.id.bits),
    {
        let id = fresh_identifier();
        self.to_user_family_db_with(id)
    }
}

impl UserFamilyDB {
    /// The membership that this row stands for.
    pub fn to_user_family(&self) -> (membership: UserFamily)
        ensures
            membership@ == self@.to_user_family(),
            parsed_identifier(membership.id@) == Some(self.id.bits),
    {
        UserFamily {
            id: identifier_text(self.id),
            user_id: self.user_id,
            family_id: self.family_id,
            role: self.role.clone(),
            created_at: Timestamp::from_utc_datetime(&self.created_at),
        }
    }
}

impl UserFamilyRequest {
    /// Whether the request names every field that a membership requires.
    pub open spec fn is_complete(&self) -> bool {
        self.user_id is Some && self.family_id is Some && self.role is Some
    }

    /// Whether both references of a complete request read as identifiers.
    pub open spec fn names_identifiers(&self) -> bool {
        parsed_identifier(self.user_id.unwrap()@) is Some && parsed_identifier(
            self.family_id.unwrap()@,
        ) is Some
    }

    /// The new membership that the request asks for; nothing for a request
    /// with a field missing, or with a reference that is no identifier.
    pub fn to_user_family(&self) -> (made: Option<UserFamily>)
        ensures
            made is Some <==> self.is_complete() && self.names_identifiers(),
            made matches Some(membership) ==> {
                &&& parsed_identifier(self.user_id.unwrap()@) == Some(membership.user_id.bits)
                &&& parsed_identifier(self.family_id.unwrap()@) == Some(membership.family_id.bits)
                &&& membership.role@ == self.role.unwrap()@
                &&& is_issued_text(membership.id@)
                &&& parsed_identifier(membership.id@) is Some
                &&& membership.created_at.secs >= 0
                &&& membership.created_at.nanos < 1_000_000_000
            },
    {
        match (&self.user_id, &self.family_id, &self.role) {
            (Some(user_id), Some(family_id), Some(role)) => {
                if parse_identifier(user_id.as_str()).is_some() && parse_identifier(
                    family_id.as_str(),
                ).is_some() {
                    Some(UserFamily::new(user_id.clone(), family_id.clone(), role.clone()))
                } else {
                    None
                }
            },
            _ => None,
        }
    }
}

/// The first step of a creation: checks the request and makes the row to
/// store. A request with a field missing fails validation; a complete one
/// with a reference that is no identifier is refused for that. Neither
/// yields a row.
pub fn create(request: &UserFamilyRequest) -> (r: Result<UserFamilyDB, ServiceError>)
    ensures
        r is Ok <==> request.is_complete() && request.names_identifiers(),
        r matches Err(e) ==> e == if request.is_complete() {
            ServiceError::InvalidIdentifier
        } else {
            ServiceError::ValidationFailed
        },
        r matches Ok(row) ==> {
            &&& parsed_identifier(request.user_id.unwrap()@) == Some(row.user_id.bits)
            &&& parsed_identifier(request.family_id.unwrap()@) == Some(row.family_id.bits)
            &&& row.role@ == request.role.unwrap()@
            &&& is_random_version(row.id.bits)
            &&& row.created_at.secs >= 0
            &&& row.created_at.nanos < 1_000_000_000
        },
{
    let complete = request.user_id.is_some() && request.family_id.is_some()
        && request.role.is_some();
    match request.to_user_family() {
        Some(membership) => Ok(membership.to_user_family_db()),
        None => if complete {
            Err(ServiceError::InvalidIdentifier)
        } else {
            Err(ServiceError::ValidationFailed)
        },
    }
}

/// The last step of a creation: given the row and what the store said of the
/// insert, the membership to answer with, or the store's failure as an error.
pub fn create_user_family(row: &UserFamilyDB, stored: Result<(), StoreFailure>) -> (r: Result<
    UserFamily,
    ServiceError,
>)
    ensures
        match stored {
            Ok(_) => r is Ok && r.unwrap()@ == row@.to_user_family() && parsed_identifier(
                r.unwrap().id@,
            ) == Some(row.id.bits),
            Err(failure) => r == Err::<UserFamily, ServiceError>(failure.spec_error()),
        },
{
    match stored {
        Ok(_) => Ok(row.to_user_family()),
        Err(failure) => Err(failure.error()),
    }
}

/// A membership stored and read back keeps its references, its role and its
/// creation time; its identifier becomes the canonical text of the row's
/// identifier, whatever identifier it carried before.
pub proof fn lemma_user_family_round_trip(membership: UserFamilyView, id: u128)
    ensures
        membership.row_with(id).to_user_family() == (UserFamilyView {
            id: canonical_text(id),
            user_id: membership.user_id,
            family_id: membership.family_id,
            role: membership.role,
            created_at: membership.created_at,
        }),
{
}

/// A row read and stored again under its own identifier is the same row.
pub proof fn lemma_user_family_row_round_trip(row: UserFamilyDBView)
    ensures
        row.to_user_family().row_with(row.id) == row,
{
}

} // verus!
