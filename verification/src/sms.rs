use crate::code::{code_text, format_code, is_code, lemma_code_text_reads_back, random_between, CODE_LIMIT};
use crate::error::{ServiceError, StoreFailure};
use crate::identifier::{
    canonical_text, fresh_identifier, identifier_text, is_issued_text, is_random_version,
    parsed_identifier, read_identifier, Identifier,
};
use crate::response::JsonVal;
use crate::timestamp::{current_time, NaiveTimestamp, Timestamp};
use vstd::prelude::*;
use vstd::string::*;

verus! {

/// An issued verification code as the service hands it out on creation.
#[derive(Debug, Clone, PartialEq, Eq)]
pub struct Sms {
    pub id: String,
    pub tel: String,
    pub code: String,
    pub created_at: Timestamp,
}

/// An issued verification code as the store keeps it.
#[derive(Debug, Clone, PartialEq, Eq)]
pub struct SmsDB {
    pub id: Identifier,
    pub tel: String,
    pub code: String,
    pub created_at: NaiveTimestamp,
}

/// A request to issue a code for a phone number. The code is never part of
/// a request.
#[derive(Debug, Clone, PartialEq, Eq)]
pub struct SmsRequest {
    pub tel: Option<String>,
}

/// What an `Sms` holds, as mathematical values.
pub struct SmsView {
    pub id: Seq<char>,
    pub tel: Seq<char>,
    pub code: Seq<char>,
    pub created_at: Timestamp,
}

/// What an `SmsDB` holds, as mathematical values.
pub struct SmsDBView {
    pub id: u128,
    pub tel: Seq<char>,
    pub code: Seq<char>,
    pub created_at: NaiveTimestamp,
}

impl View for Sms {
    type V = SmsView;

    open spec fn view(&self) -> SmsView {
        SmsView { id: self.id@, tel: self.tel@, code: self.code@, created_at: self.created_at }
    }
}

impl View for SmsDB {
    type V = SmsDBView;

    open spec fn view(&self) -> SmsDBView {
        SmsDBView {
            id: self.id.bits,
            tel: self.tel@,
            code: self.code@,
            created_at: self.created_at,
        }
    }
}

impl SmsView {
    /// The row that stores this record under the identifier `id`: number and
    /// code copied, the time untagged. The record's own identifier does not
    /// enter.
    pub open spec fn row_with(self, id: u128) -> SmsDBView {
        SmsDBView {
            id,
            tel: self.tel,
            code: self.code,
            created_at: self.created_at.spec_naive_utc(),
        }
    }
}

impl SmsDBView {
    /// The record that this row stands for: the identifier as canonical
    /// text, number and code copied, the time tagged as UTC.
    pub open spec fn to_sms(self) -> SmsView {
        SmsView {
            id: canonical_text(self.id),
            tel: self.tel,
            code: self.code,
            created_at: self.created_at.spec_and_utc(),
        }
    }
}

impl Sms {
    /// The record for a phone number with the identity, the creation time
    /// and the code's number given.
    pub fn with_identity(id: Identifier, created_at: Timestamp, tel: String, number: u32) -> (sms:
        Sms)
        requires
            number < CODE_LIMIT,
        ensures
            sms@ == (SmsView {
                id: canonical_text(id.bits),
                tel: tel@,
                code: code_text(number as int),
                created_at,
            }),
            is_code(sms.code@),
            parsed_identifier(sms.id@) == Some(id.bits),
    {
        proof {
            lemma_code_text_reads_back(number as int);
        }
        Sms { id: identifier_text(id), tel, code: format_code(number), created_at }
    }

    /// Issues a code for a phone number: a number drawn from zero up to
    /// 999999 and written with six digits, a fresh random identifier, and the
    /// clock's reading as creation time.
    pub fn new(tel: String) -> (sms: Sms)
        ensures
            sms.tel@ == tel@,
            is_code(sms.code@),
            exists|n: int| 0 <= n < CODE_LIMIT && sms.code@ == #[trigger] code_text(n),
            is_issued_text(sms.id@),
            parsed_identifier(sms.id@) is Some,
            sms.created_at.secs >= 0,
            sms.created_at.nanos < 1_000_000_000,
    {
        let number = random_between(0, CODE_LIMIT);
        let id = fresh_identifier();
        let created_at = current_time();
        Sms::with_identity(id, created_at, tel, number)
    }

    /// The row that stores this record under the identifier given.
    pub fn to_sms_db_with(&self, id: Identifier) -> (row: SmsDB)
        ensures
            row@ == self@.row_with(id.bits),
    {
        SmsDB {
            id,
            tel: self.tel.clone(),
            code: self.code.clone(),
            created_at: self.created_at.naive_utc(),
        }
    }

    /// The row that stores this record. The row gets a fresh random
    /// identifier of its own: the one that the record carries is not the one
    /// stored, and the record read back from the row shows the row's.
    pub fn to_sms_db(&self) -> (row: SmsDB)
        ensures
            row@ == self@.row_with(row.id.bits),
            is_random_version(row.id.bits),
    {
        let id = fresh_identifier();
        self.to_sms_db_with(id)
    }

    /// Holds a supplied code against the issued one: success where the two
    /// texts are equal, character for character. The record is not changed.
    pub fn check(&self, supplied: &str) -> (verdict: JsonVal)
        ensures
            verdict.success == (supplied@ == self.code@),
    {
        let supplied = String::from_str(supplied);
        JsonVal { success: supplied == self.code }
    }
}

impl SmsDB {
    /// The record that this row stands for.
    pub fn to_sms(&self) -> (sms: Sms)
        ensures
            sms@ == self@.to_sms(),
            parsed_identifier(sms.id@) == Some(self.id.bits),
    {
        Sms {
            id: identifier_text(self.id),
            tel: self.tel.clone(),
            code: self.code.clone(),
            created_at: Timestamp::from_utc_datetime(&self.created_at),
        }
    }
}

impl SmsRequest {
    /// Whether the request names the phone number.
    pub open spec fn is_complete(&self) -> bool {
        self.tel is Some
    }

    /// The newly issued record that a complete request asks for; nothing for
    /// a request without a phone number.
    pub fn to_sms(&self) -> (made: Option<Sms>)
        ensures
            made is Some <==> self.is_complete(),
            made matches Some(sms) ==> {
                &&& sms.tel@ == self.tel.unwrap()@
                &&& is_code(sms.code@)
                &&& is_issued_text(sms.id@)
                &&& parsed_identifier(sms.id@) is Some
                &&& sms.created_at.secs >= 0
                &&& sms.created_at.nanos < 1_000_000_000
            },
    {
        match &self.tel {
            Some(tel) => Some(Sms::new(tel.clone())),
            None => None,
        }
    }
}

/// The first step of an issuance: checks the request and makes the row to
/// store. A request without a phone number fails validation and yields no
/// row.
pub fn create(request: &SmsRequest) -> (r: Result<SmsDB, ServiceError>)
    ensures
        r is Ok <==> request.is_complete(),
        r matches Err(e) ==> e == ServiceError::ValidationFailed,
        r matches Ok(row) ==> {
            &&& row.tel@ == request.tel.unwrap()@
            &&& is_code(row.code@)
            &&& is_random_version(row.id.bits)
            &&& row.created_at.secs >= 0
            &&& row.created_at.nanos < 1_000_000_000
        },
{
    match request.to_sms() {
        Some(sms) => Ok(sms.to_sms_db()),
        None => Err(ServiceError::ValidationFailed),
    }
}

/// The last step of an issuance: given the row and what the store said of
/// the insert, the record to answer with, or the store's failure as an error.
pub fn create_sms(row: &SmsDB, stored: Result<(), StoreFailure>) -> (r: Result<Sms, ServiceError>)
    ensures
        match stored {
            Ok(_) => r is Ok && r.unwrap()@ == row@.to_sms() && parsed_identifier(r.unwrap().id@)
                == Some(row.id.bits),
            Err(failure) => r == Err::<Sms, ServiceError>(failure.spec_error()),
        },
{
    match stored {
        Ok(_) => Ok(row.to_sms()),
        Err(failure) => Err(failure.error()),
    }
}

/// The first step of a verification: the identifier to look up, or an error
/// for a text that is no identifier.
pub fn get(id: &str) -> (r: Result<Identifier, ServiceError>)
    ensures
        match parsed_identifier(id@) {
            Some(bits) => r == Ok::<Identifier, ServiceError>(Identifier { bits }),
            None => r == Err::<Identifier, ServiceError>(ServiceError::InvalidIdentifier),
        },
{
    read_identifier(id)
}

/// Given what the store loaded for the identifier, the record of the first
/// row; `NotFound` where no row came, and the store's failure as an error.
pub fn find_sms(loaded: Result<Vec<SmsDB>, StoreFailure>) -> (r: Result<Sms, ServiceError>)
    ensures
        match loaded {
            Ok(rows) => if rows.len() == 0 {
                r == Err::<Sms, ServiceError>(ServiceError::NotFound)
            } else {
                r is Ok && r.unwrap()@ == rows[0]@.to_sms()
            },
            Err(failure) => r == Err::<Sms, ServiceError>(failure.spec_error()),
        },
{
    match loaded {
        Ok(rows) => {
            if rows.len() == 0 {
                Err(ServiceError::NotFound)
            } else {
                Ok(rows[0].to_sms())
            }
        },
        Err(failure) => Err(failure.error()),
    }
}

/// The answer to a verification, given what the store loaded for the
/// identifier and the code supplied: whether the supplied code is, character
/// for character, the code of the first row; `NotFound` where no row came;
/// the store's failure as an error.
pub open spec fn spec_verify(loaded: Result<Vec<SmsDB>, StoreFailure>, supplied: Seq<char>) -> Result<
    JsonVal,
    ServiceError,
> {
    match loaded {
        Ok(rows) => if rows.len() == 0 {
            Err(ServiceError::NotFound)
        } else {
            Ok(JsonVal { success: supplied == rows[0].code@ })
        },
        Err(failure) => Err(failure.spec_error()),
    }
}

/// The last step of a verification: given what the store loaded for the
/// identifier and the code supplied, whether the supplied code is the stored
/// one. An unknown identifier is `NotFound`, which is not a failed match; the
/// stored record itself is not handed out, and nothing is changed.
pub fn verify(loaded: Result<Vec<SmsDB>, StoreFailure>, supplied: &str) -> (r: Result<
    JsonVal,
    ServiceError,
>)
    ensures
        r == spec_verify(loaded, supplied@),
{
    match find_sms(loaded) {
        Ok(sms) => Ok(sms.check(supplied)),
        Err(e) => Err(e),
    }
}

/// Once a record is stored, under whatever identifier, a verification that
/// finds its row succeeds on the issued code and on no other text, however
/// often it is asked; and a verification that finds no row is `NotFound`
/// whatever code is supplied.
pub proof fn lemma_verify_after_issue(
    sms: SmsView,
    found: Vec<SmsDB>,
    none: Vec<SmsDB>,
    supplied: Seq<char>,
)
    requires
        found.len() > 0,
        found[0]@ == sms.row_with(found[0].id.bits),
        none.len() == 0,
    ensures
        spec_verify(Ok(found), sms.code) == Ok::<JsonVal, ServiceError>(JsonVal { success: true }),
        supplied != sms.code ==> spec_verify(Ok(found), supplied) == Ok::<JsonVal, ServiceError>(
            JsonVal { success: false },
        ),
        spec_verify(Ok(none), supplied) == Err::<JsonVal, ServiceError>(ServiceError::NotFound),
{
}

/// A record stored and read back keeps its phone number, its code and its
/// creation time; its identifier becomes the canonical text of the row's
/// identifier, whatever identifier it carried before.
pub proof fn lemma_sms_round_trip(sms: SmsView, id: u128)
    ensures
        sms.row_with(id).to_sms() == (SmsView {
            id: canonical_text(id),
            tel: sms.tel,
            code: sms.code,
            created_at: sms.created_at,
        }),
{
}

/// A row read and stored again under its own identifier is the same row.
pub proof fn lemma_sms_row_round_trip(row: SmsDBView)
    ensures
        row.to_sms().row_with(row.id) == row,
{
}

} // verus!
