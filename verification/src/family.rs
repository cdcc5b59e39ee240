use crate::error::{ServiceError, StoreFailure};
use crate::identifier::{
    canonical_text, fresh_identifier, identifier_text, is_issued_text, is_random_version,
    parsed_identifier, read_identifier, Identifier,
};
use crate::timestamp::{current_time, NaiveTimestamp, Timestamp};
use vstd::prelude::*;

verus! {

/// A family as the service hands it out: the identifier as canonical text,
/// the creation time tagged as UTC.
#[derive(Debug, Clone, PartialEq, Eq)]
pub struct Family {
    pub id: String,
    pub nom: String,
    pub created_at: Timestamp,
}

/// A family as the store keeps it: the identifier as raw bits, the creation
/// time untagged.
#[derive(Debug, Clone, PartialEq, Eq)]
pub struct FamilyDB {
    pub id: Identifier,
    pub nom: String,
    pub created_at: NaiveTimestamp,
}

/// A request to create a family. A client may leave the name out.
#[derive(Debug, Clone, PartialEq, Eq)]
pub struct FamilyRequest {
    pub nom: Option<String>,
}

/// What a `Family` holds, as mathematical values.
pub struct FamilyView {
    pub id: Seq<char>,
    pub nom: Seq<char>,
    pub created_at: Timestamp,
}

/// What a `FamilyDB` holds, as mathematical values.
pub struct FamilyDBView {
    pub id: u128,
    pub nom: Seq<char>,
    pub created_at: NaiveTimestamp,
}

impl View for Family {
    type V = FamilyView;

    open spec fn view(&self) -> FamilyView {
        FamilyView { id: self.id@, nom: self.nom@, created_at: self.created_at }
    }
}

impl View for FamilyDB {
    type V = FamilyDBView;

    open spec fn view(&self) -> FamilyDBView {
        FamilyDBView { id: self.id.bits, nom: self.nom@, created_at: self.created_at }
    }
}

impl FamilyView {
    /// The row that stores this family under the identifier `id`: the name
    /// copied, the time untagged. The family's own identifier does not enter.
    pub open spec fn row_with(self, id: u128) -> FamilyDBView {
        FamilyDBView { id, nom: self.nom, created_at: self.created_at.spec_naive_utc() }
    }
}

impl FamilyDBView {
    /// The family that this row stands for: the identifier as canonical
    /// text, the name copied, the time tagged as UTC.
    pub open spec fn to_family(self) -> FamilyView {
        FamilyView {
            id: canonical_text(self.id),
            nom: self.nom,
            created_at: self.created_at.spec_and_utc(),
        }
    }
}

impl Family {
    /// A family with the identity and the creation time given.
    pub fn with_identity(id: Identifier, created_at: Timestamp, nom: String) -> (family: Family)
        ensures
            family@ == (FamilyView { id: canonical_text(id.bits), nom: nom@, created_at }),
            parsed_identifier(family.id@) == Some(id.bits),
    {
        Family { id: identifier_text(id), nom, created_at }
    }

    /// A new family: the name as given, a fresh random identifier, and the
    /// clock's reading as creation time.
    pub fn new(nom: String) -> (family: Family)
        ensures
            family.nom@ == nom@,
            is_issued_text(family.id@),
            parsed_identifier(family.id@) is Some,
            family.created_at.secs >= 0,
            family.created_at.nanos < 1_000_000_000,
    {
        let id = fresh_identifier();
        let created_at = current_time();
        Family::with_identity(id, created_at, nom)
    }

    /// The row that stores this family under the identifier given.
    pub fn to_family_db_with(&self, id: Identifier) -> (row: FamilyDB)
        ensures
            row@ == self@.row_with(id.bits),
    {
        FamilyDB { id, nom: self.nom.clone(), created_at: self.created_at.naive_utc() }
    }

    /// The row that stores this family. The row gets a fresh random
    /// identifier of its own: the one that the family carries is not the one
    /// stored, and the family read back from the row shows the row's.
    pub fn to_family_db(&self) -> (row: FamilyDB)
        ensures
            row@ == self@.row_with(row.id.bits),
            is_random_version(row.id.bits),
    {
        let id = fresh_identifier();
        self.to_family_db_with(id)
    }
}

impl FamilyDB {
    /// The family that this row stands for.
    pub fn to_family(&self) -> (family: Family)
        ensures
            family@ == self@.to_family(),
            parsed_identifier(family.id@) == Some(self.id.bits),
    {
        Family {
            id: identifier_text(self.id),
            nom: self.nom.clone(),
            created_at: Timestamp::from_utc_datetime(&self.created_at),
        }
    }
}

impl FamilyRequest {
    /// Whether the request names the family.
    pub open spec fn is_complete(&self) -> bool {
        self.nom is Some
    }

    /// The new family that a complete request asks for; nothing for a
    /// request without a name.
    pub fn to_family(&self) -> (made: Option<Family>)
        ensures
            made is Some <==> self.is_complete(),
            made matches Some(family) ==> {
                &&& family.nom@ == self.nom.unwrap()@
                &&& is_issued_text(family.id@)
                &&& parsed_identifier(family.id@) is Some
                &&& family.created_at.secs >= 0
                &&& family.created_at.nanos < 1_000_000_000
            },
    {
        match &self.nom {
            Some(nom) => Some(Family::new(nom.clone())),
            None => None,
        }
    }
}

/// The first step of a creation: checks the request and makes the row to
/// store. A request without a name fails validation and yields no row.
pub fn create(request: &FamilyRequest) -> (r: Result<FamilyDB, ServiceError>)
    ensures
        r is Ok <==> request.is_complete(),
        r matches Err(e) ==> e == ServiceError::ValidationFailed,
        r matches Ok(row) ==> {
            &&& row.nom@ == request.nom.unwrap()@
            &&& is_random_version(row.id.bits)
            &&& row.created_at.secs >= 0
            &&& row.created_at.nanos < 1_000_000_000
        },
{
    match request.to_family() {
        Some(family) => Ok(family.to_family_db()),
        None => Err(ServiceError::ValidationFailed),
    }
}

/// The last step of a creation: given the row and what the store said of the
/// insert, the family to answer with, or the store's failure as an error.
pub fn create_family(row: &FamilyDB, stored: Result<(), StoreFailure>) -> (r: Result<
    Family,
    ServiceError,
>)
    ensures
        match stored {
            Ok(_) => r is Ok && r.unwrap()@ == row@.to_family() && parsed_identifier(
                r.unwrap().id@,
            ) == Some(row.id.bits),
            Err(failure) => r == Err::<Family, ServiceError>(failure.spec_error()),
        },
{
    match stored {
        Ok(_) => Ok(row.to_family()),
        Err(failure) => Err(failure.error()),
    }
}

/// The first step of a read: the identifier to look up, or an error for a
/// text that is no identifier.
pub fn get(id: &str) -> (r: Result<Identifier, ServiceError>)
    ensures
        match parsed_identifier(id@) {
            Some(bits) => r == Ok::<Identifier, ServiceError>(Identifier { bits }),
            None => r == Err::<Identifier, ServiceError>(ServiceError::InvalidIdentifier),
        },
{
    read_identifier(id)
}

/// The last step of a read: given what the store loaded for the identifier,
/// the family of the first row; `NotFound` where no row came, and the
/// store's failure as an error.
pub fn find_family(loaded: Result<Vec<FamilyDB>, StoreFailure>) -> (r: Result<
    Family,
    ServiceError,
>)
    ensures
        match loaded {
            Ok(rows) => if rows.len() == 0 {
                r == Err::<Family, ServiceError>(ServiceError::NotFound)
            } else {
                r is Ok && r.unwrap()@ == rows[0]@.to_family()
            },
            Err(failure) => r == Err::<Family, ServiceError>(failure.spec_error()),
        },
{
    match loaded {
        Ok(rows) => {
            if rows.len() == 0 {
                Err(ServiceError::NotFound)
            } else {
                Ok(rows[0].to_family())
            }
        },
        Err(failure) => Err(failure.error()),
    }
}

/// A family stored and read back keeps its name and its creation time; its
/// identifier becomes the canonical text of the row's identifier, whatever
/// identifier it carried before.
pub proof fn lemma_family_round_trip(family: FamilyView, id: u128)
    ensures
        family.row_with(id).to_family() == (FamilyView {
            id: canonical_text(id),
            nom: family.nom,
            created_at: family.created_at,
        }),
{
}

/// A row read and stored again under its own identifier is the same row.
pub proof fn lemma_family_row_round_trip(row: FamilyDBView)
    ensures
        row.to_family().row_with(row.id) == row,
{
}

} // verus!
