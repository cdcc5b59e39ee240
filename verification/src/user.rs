use crate::error::{ServiceError, StoreFailure};
use crate::identifier::{
    canonical_text, fresh_identifier, identifier_text, is_issued_text, is_random_version,
    parsed_identifier, read_identifier, Identifier,
};
use crate::timestamp::{current_time, NaiveTimestamp, Timestamp};
use vstd::prelude::*;

verus! {

/// A user as the service hands it out: the identifier as canonical text, the
/// creation time tagged as UTC.
#[derive(Debug, Clone, PartialEq, Eq)]
pub struct User {
    pub id: String,
    pub tel: String,
    pub nom: String,
    pub email: String,
    pub created_at: Timestamp,
}

/// A user as the store keeps it: the identifier as raw bits, the creation
/// time untagged.
#[derive(Debug, Clone, PartialEq, Eq)]
pub struct UserDB {
    pub id: Identifier,
    pub tel: String,
    pub nom: String,
    pub email: String,
    pub created_at: NaiveTimestamp,
}

/// A request to create a user. A client may leave any field out.
#[derive(Debug, Clone, PartialEq, Eq)]
pub struct UserRequest {
    pub tel: Option<String>,
    pub nom: Option<String>,
    pub email: Option<String>,
}

/// What a `User` holds, as mathematical values.
pub struct UserView {
    pub id: Seq<char>,
    pub tel: Seq<char>,
    pub nom: Seq<char>,
    pub email: Seq<char>,
    pub created_at: Timestamp,
}

/// What a `UserDB` holds, as mathematical values.
pub struct UserDBView {
    pub id: u128,
    pub tel: Seq<char>,
    pub nom: Seq<char>,
    pub email: Seq<char>,
    pub created_at: NaiveTimestamp,
}

impl View for User {
    type V = UserView;

    open spec fn view(&self) -> UserView {
        UserView {
            id: self.id@,
            tel: self.tel@,
            nom: self.nom@,
            email: self.email@,
            created_at: self.created_at,
        }
    }
}

impl View for UserDB {
    type V = UserDBView;

    open spec fn view(&self) -> UserDBView {
        UserDBView {
            id: self.id.bits,
            tel: self.tel@,
            nom: self.nom@,
            email: self.email@,
            created_at: self.created_at,
        }
    }
}

impl UserView {
    /// The row that stores this user under the identifier `id`: the fields
    /// copied, the time untagged. The user's own identifier does not enter.
    pub open spec fn row_with(self, id: u128) -> UserDBView {
        UserDBView {
            id,
            tel: self.tel,
            nom: self.nom,
            email: self.email,
            created_at: self.created_at.spec_naive_utc(),
        }
    }
}

impl UserDBView {
    /// The user that this row stands for: the identifier as canonical text,
    /// the fields copied, the time tagged as UTC.
    pub open spec fn to_user(self) -> UserView {
        UserView {
            id: canonical_text(self.id),
            tel: self.tel,
            nom: self.nom,
            email: self.email,
            created_at: self.created_at.spec_and_utc(),
        }
    }
}

impl User {
    /// A user with the identity and the creation time given.
    pub fn with_identity(
        id: Identifier,
        created_at: Timestamp,
        tel: String,
        nom: String,
        email: String,
    ) -> (user: User)
        ensures
            user@ == (UserView {
                id: canonical_text(id.bits),
                tel: tel@,
                nom: nom@,
                email: email@,
                created_at,
            }),
            parsed_identifier(user.id@) == Some(id.bits),
    {
        User { id: identifier_text(id), tel, nom, email, created_at }
    }

    /// A new user: the fields as given, a fresh random identifier, and the
    /// clock's reading as creation time.
    pub fn new(tel: String, nom: String, email: String) -> (user: User)
        ensures
            user.tel@ == tel@,
            user.nom@ == nom@,
            user.email@ == email@,
            is_issued_text(user.id@),
            parsed_identifier(user.id@) is Some,
            user.created_at.secs >= 0,
            user.created_at.nanos < 1_000_000_000,
    {
        let id = fresh_identifier();
        let created_at = current_time();
        User::with_identity(id, created_at, tel, nom, email)
    }

    /// The row that stores this user under the identifier given.
    pub fn to_user_db_with(&self, id: Identifier) -> (row: UserDB)
        ensures
            row@ == self@.row_with(id.bits),
    {
        UserDB {
            id,
            tel: self.tel.clone(),
            nom: self.nom.clone(),
            email: self.email.clone(),
            created_at: self.created_at.naive_utc(),
        }
    }

    /// The row that stores this user. The row gets a fresh random identifier
    /// of its own: the one that the user carries is not the one stored, and
    /// the user read back from the row shows the row's.
    pub fn to_user_db(&self) -> (row: UserDB)
        ensures
            row@ == self@.row_with(row.id.bits),
            is_random_version(row.id.bits),
    {
        let id = fresh_identifier();
        self.to_user_db_with(id)
    }
}

impl UserDB {
    /// The user that this row stands for.
    pub fn to_user(&self) -> (user: User)
        ensures
            user@ == self@.to_user(),
            parsed_identifier(user.id@) == Some(self.id.bits),
    {
        User {
            id: identifier_text(self.id),
            tel: self.tel.clone(),
            nom: self.nom.clone(),
            email: self.email.clone(),
            created_at: Timestamp::from_utc_datetime(&self.created_at),
        }
    }
}

impl UserRequest {
    /// Whether the request names every field that a user requires.
    pub open spec fn is_complete(&self) -> bool {
        self.tel is Some && self.nom is Some && self.email is Some
    }

    /// The new user that a complete request asks for; nothing for a request
    /// with a field missing.
    pub fn to_user(&self) -> (made: Option<User>)
        ensures
            made is Some <==> self.is_complete(),
            made matches Some(user) ==> {
                &&& user.tel@ == self.tel.unwrap()@
                &&& user.nom@ == self.nom.unwrap()@
                &&& user.email@ == self.email.unwrap()@
                &&& is_issued_text(user.id@)
                &&& parsed_identifier(user.id@) is Some
                &&& user.created_at.secs >= 0
                &&& user.created_at.nanos < 1_000_000_000
            },
    {
        match (&self.tel, &self.nom, &self.email) {
            (Some(tel), Some(nom), Some(email)) => Some(
                User::new(tel.clone(), nom.clone(), email.clone()),
            ),
            _ => None,
        }
    }
}

/// The first step of a creation: checks the request and makes the row to
/// store. A request with a field missing fails validation and yields no row.
pub fn create(request: &UserRequest) -> (r: Result<UserDB, ServiceError>)
    ensures
        r is Ok <==> request.is_complete(),
        r matches Err(e) ==> e == ServiceError::ValidationFailed,
        r matches Ok(row) ==> {
            &&& row.tel@ == request.tel.unwrap()@
            &&& row.nom@ == request.nom.unwrap()@
            &&& row.email@ == request.email.unwrap()@
            &&& is_random_version(row.id.bits)
            &&& row.created_at.secs >= 0
            &&& row.created_at.nanos < 1_000_000_000
        },
{
    match request.to_user() {
        Some(user) => Ok(user.to_user_db()),
        None => Err(ServiceError::ValidationFailed),
    }
}

/// The last step of a creation: given the row and what the store said of the
/// insert, the user to answer with, or the store's failure as an error.
pub fn create_user(row: &UserDB, stored: Result<(), StoreFailure>) -> (r: Result<
    User,
    ServiceError,
>)
    ensures
        match stored {
            Ok(_) => r is Ok && r.unwrap()@ == row@.to_user() && parsed_identifier(
                r.unwrap().id@,
            ) == Some(row.id.bits),
            Err(failure) => r == Err::<User, ServiceError>(failure.spec_error()),
        },
{
    match stored {
        Ok(_) => Ok(row.to_user()),
        Err(failure) => Err(failure.error()),
    }
}

/// The first step of a read: the identifier to look up, or an error for a
/// text that is no identifier.
pub fn get(id: &str) -> (r: Result<Identifier, ServiceError>)
    ensures
        match parsed_identifier(id@) {
            Some(bits) => r == Ok::<Identifier, ServiceError>(Identifier { bits }),
            None => r == Err::<Identifier, ServiceError>(ServiceError::InvalidIdentifier),
        },
{
    read_identifier(id)
}

/// The last step of a read: given what the store loaded for the identifier,
/// the user of the first row; `NotFound` where no row came, and the store's
/// failure as an error.
pub fn find_user(loaded: Result<Vec<UserDB>, StoreFailure>) -> (r: Result<User, ServiceError>)
    ensures
        match loaded {
            Ok(rows) => if rows.len() == 0 {
                r == Err::<User, ServiceError>(ServiceError::NotFound)
            } else {
                r is Ok && r.unwrap()@ == rows[0]@.to_user()
            },
            Err(failure) => r == Err::<User, ServiceError>(failure.spec_error()),
        },
{
    match loaded {
        Ok(rows) => {
            if rows.len() == 0 {
                Err(ServiceError::NotFound)
            } else {
                Ok(rows[0].to_user())
            }
        },
        Err(failure) => Err(failure.error()),
    }
}

/// A user stored and read back keeps its fields and its creation time; its
/// identifier becomes the canonical text of the row's identifier, whatever
/// identifier it carried before.
pub proof fn lemma_user_round_trip(user: UserView, id: u128)
    ensures
        user.row_with(id).to_user() == (UserView {
            id: canonical_text(id),
            tel: user.tel,
            nom: user.nom,
            email: user.email,
            created_at: user.created_at,
        }),
{
}

/// A row read and stored again under its own identifier is the same row.
pub proof fn lemma_user_row_round_trip(row: UserDBView)
    ensures
        row.to_user().row_with(row.id) == row,
{
}

} // verus!
