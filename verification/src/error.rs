use vstd::prelude::*;

verus! {

/// The kind of failure an `AppError` reports; it decides the HTTP status.
#[derive(Clone, Copy, Debug, PartialEq, Eq, Structural)]
pub enum ErrorKind {
    BadRequest,
    Unauthorized,
    NotFound,
    Internal,
}

/// A refused or failed request, with the message shown to the client.
#[derive(Clone, Debug, PartialEq, Eq)]
pub enum AppError {
    BadRequest(String),
    Unauthorized(String),
    NotFound(String),
    Internal(String),
}

impl View for AppError {
    type V = (ErrorKind, Seq<char>);

    open spec fn view(&self) -> (ErrorKind, Seq<char>) {
        match self {
            AppError::BadRequest(m) => (ErrorKind::BadRequest, m@),
            AppError::Unauthorized(m) => (ErrorKind::Unauthorized, m@),
            AppError::NotFound(m) => (ErrorKind::NotFound, m@),
            AppError::Internal(m) => (ErrorKind::Internal, m@),
        }
    }
}

/// The HTTP status that answers an error of the given kind.
pub open spec fn spec_status(kind: ErrorKind) -> u16 {
    match kind {
        ErrorKind::BadRequest => 400,
        ErrorKind::Unauthorized => 401,
        ErrorKind::NotFound => 404,
        ErrorKind::Internal => 500,
    }
}

impl AppError {
    /// Builds an error of the given kind whose message is `text`.
    pub fn from_text(kind: ErrorKind, text: &str) -> (e: AppError)
        ensures
            e@ == (kind, text@),
    {
        let m = String::from_str(text);
        match kind {
            ErrorKind::BadRequest => AppError::BadRequest(m),
            ErrorKind::Unauthorized => AppError::Unauthorized(m),
            ErrorKind::NotFound => AppError::NotFound(m),
            ErrorKind::Internal => AppError::Internal(m),
        }
    }

    /// The kind of this error.
    pub fn kind(&self) -> (k: ErrorKind)
        ensures
            k == self@.0,
    {
        match self {
            AppError::BadRequest(_) => ErrorKind::BadRequest,
            AppError::Unauthorized(_) => ErrorKind::Unauthorized,
            AppError::NotFound(_) => ErrorKind::NotFound,
            AppError::Internal(_) => ErrorKind::Internal,
        }
    }

    /// The message shown to the client.
    pub fn message(&self) -> (m: &String)
        ensures
            m@ == self@.1,
    {
        match self {
            AppError::BadRequest(m) => m,
            AppError::Unauthorized(m) => m,
            AppError::NotFound(m) => m,
            AppError::Internal(m) => m,
        }
    }

    /// The HTTP status code of the response that reports this error.
    pub fn status_code(&self) -> (code: u16)
        ensures
            code == spec_status(self@.0),
    {
        match self {
            AppError::BadRequest(_) => 400,
            AppError::Unauthorized(_) => 401,
            AppError::NotFound(_) => 404,
            AppError::Internal(_) => 500,
        }
    }
}

/// The kinds of stored record a request may look up.
#[derive(Clone, Copy, Debug, PartialEq, Eq, Structural)]
pub enum Record {
    Branch,
    Category,
    Product,
    ProductPhoto,
    Voucher,
    ActiveVoucher,
    Order,
    User,
    Shift,
}

/// The message a request gets when the record it names does not exist.
pub open spec fn missing_text(what: Record) -> Seq<char> {
    match what {
        Record::Branch => "Cabang tidak ditemukan"@,
        Record::Category => "Kategori tidak ditemukan"@,
        Record::Product => "Produk tidak ditemukan"@,
        Record::ProductPhoto => "Foto produk tidak ditemukan"@,
        Record::Voucher => "Voucher tidak ditemukan"@,
        Record::ActiveVoucher => "Voucher tidak valid atau sudah tidak aktif"@,
        Record::Order => "Order tidak ditemukan"@,
        Record::User => "Pengguna tidak ditemukan"@,
        Record::Shift => "Shift tidak ditemukan"@,
    }
}

/// The not-found error for a missing record of the given kind.
pub fn missing(what: Record) -> (e: AppError)
    ensures
        e@ == (ErrorKind::NotFound, missing_text(what)),
{
    let text = match what {
        Record::Branch => "Cabang tidak ditemukan",
        Record::Category => "Kategori tidak ditemukan",
        Record::Product => "Produk tidak ditemukan",
        Record::ProductPhoto => "Foto produk tidak ditemukan",
        Record::Voucher => "Voucher tidak ditemukan",
        Record::ActiveVoucher => "Voucher tidak valid atau sudah tidak aktif",
        Record::Order => "Order tidak ditemukan",
        Record::User => "Pengguna tidak ditemukan",
        Record::Shift => "Shift tidak ditemukan",
    };
    AppError::from_text(ErrorKind::NotFound, text)
}

/// The record a lookup found, or the not-found error for its kind.
pub fn require_found<T>(row: Option<T>, what: Record) -> (r: Result<T, AppError>)
    ensures
        match row {
            Some(v) => r == Ok::<T, AppError>(v),
            None => r matches Err(e) && e@ == (ErrorKind::NotFound, missing_text(what)),
        },
{
    match row {
        Some(v) => Ok(v),
        None => Err(missing(what)),
    }
}

/// The answer to a delete: `true` when a row went away, the not-found error
/// for the record's kind when none did.
pub fn require_deleted(rows_affected: u64, what: Record) -> (r: Result<bool, AppError>)
    ensures
        rows_affected > 0 ==> r == Ok::<bool, AppError>(true),
        rows_affected == 0 ==> (r matches Err(e) && e@ == (ErrorKind::NotFound, missing_text(what))),
{
    if rows_affected == 0 {
        Err(missing(what))
    } else {
        Ok(true)
    }
}

} // verus!
