//! The error-aggregation facade: the `AppError` union, the `CustomError`
//! payload of its custom variant, and the `AppErrorCode` table that gives
//! each variant its stable wire-level integer code.

use crate::outside::{
    chrono_parse_error_text, chrono_parse_text, csv_text, io_text, join_text,
    parse_float_error_text, parse_float_text, parse_int_error_text, parse_int_text, redis_text,
    rsa_error_text, rsa_text, serde_json_text, signature_text, utf8_error_text, utf8_text,
    validation_text, zip_text,
};
use vstd::prelude::*;
use vstd::std_specs::convert::FromSpec;

verus! {

/// The result type that callers propagate: either a success value or one
/// `AppError`.
pub type AppResult<T> = Result<T, AppError>;

/// The error union: one variant per enabled external error kind, each
/// wrapping that kind's own error value unchanged, plus the always-enabled
/// custom variant carrying a free-form message.
#[derive(Debug)]
pub enum AppError {
    ParseIntError(std::num::ParseIntError),
    ParseFloatError(std::num::ParseFloatError),
    Utf8Error(std::str::Utf8Error),
    IoError(std::io::Error),
    SerdeJsonError(serde_json::Error),
    CsvError(csv::Error),
    ZipError(zip::result::ZipError),
    ChronoParseError(chrono::ParseError),
    ValidationError(validator::ValidationErrors),
    RedisError(r2d2_redis::redis::RedisError),
    TaskJoinError(tokio::task::JoinError),
    RsaError(rsa::errors::Error),
    SignatureError(ed25519_dalek::SignatureError),
    CustomError(String),
}

impl AppError {
    /// Whether this variant's description text can be pinned down as a
    /// function of the wrapped value alone. It cannot for the variants whose
    /// text may forward a wrapped `std::io::Error`'s platform message, walks
    /// a hash map whose order differs between runs, or carries a
    /// process-local task id.
    pub open spec fn text_known(self) -> bool {
        match self {
            AppError::IoError(_) => false,
            AppError::SerdeJsonError(_) => false,
            AppError::CsvError(_) => false,
            AppError::ZipError(_) => false,
            AppError::ValidationError(_) => false,
            AppError::RedisError(_) => false,
            AppError::TaskJoinError(_) => false,
            _ => true,
        }
    }

    /// The description text of this error, for the variants whose text is a
    /// function of the wrapped value: verbatim the wrapped value's own text,
    /// and for the custom variant the stored message itself.
    pub open spec fn known_text(self) -> Seq<char>
        recommends
            self.text_known(),
    {
        match self {
            AppError::ParseIntError(e) => parse_int_error_text(e),
            AppError::ParseFloatError(e) => parse_float_error_text(e),
            AppError::Utf8Error(e) => utf8_error_text(e),
            AppError::ChronoParseError(e) => chrono_parse_error_text(e),
            AppError::RsaError(e) => rsa_error_text(e),
            AppError::SignatureError(_) => "signature error"@,
            AppError::CustomError(m) => m@,
            _ => Seq::empty(),
        }
    }

    /// What `describe` may return for this error: wherever the text is a
    /// function of the wrapped value, exactly that text; elsewhere the text
    /// still comes verbatim from the wrapped value, but nothing portable can
    /// be stated of it.
    pub open spec fn described_as(self, t: Seq<char>) -> bool {
        self.text_known() ==> t == self.known_text()
    }

    /// The stable code of this error's variant.
    pub open spec fn code_spec(self) -> AppErrorCode {
        match self {
            AppError::ParseIntError(_) => AppErrorCode::ParseIntErrorCode,
            AppError::ParseFloatError(_) => AppErrorCode::ParseFloatErrorCode,
            AppError::Utf8Error(_) => AppErrorCode::Utf8ErrorCode,
            AppError::IoError(_) => AppErrorCode::IoErrorCode,
            AppError::SerdeJsonError(_) => AppErrorCode::SerdeJsonErrorCode,
            AppError::CsvError(_) => AppErrorCode::CsvErrorCode,
            AppError::ZipError(_) => AppErrorCode::ZipErrorCode,
            AppError::ChronoParseError(_) => AppErrorCode::ChronoParseErrorCode,
            AppError::ValidationError(_) => AppErrorCode::RequestErrorCode,
            AppError::RedisError(_) => AppErrorCode::RedisErrorCode,
            AppError::TaskJoinError(_) => AppErrorCode::TaskJoinErrorCode,
            AppError::RsaError(_) => AppErrorCode::RsaErrorCode,
            AppError::SignatureError(_) => AppErrorCode::SignatureErrorCode,
            AppError::CustomError(_) => AppErrorCode::CustomErrorCode,
        }
    }

    /// The human-readable message of this error: verbatim the wrapped
    /// value's own description, or the stored message for the custom
    /// variant. No prefixing and no reformatting.
    pub fn describe(&self) -> (r: String)
        ensures
            self.described_as(r@),
    {
        match self {
            AppError::ParseIntError(e) => parse_int_text(e),
            AppError::ParseFloatError(e) => parse_float_text(e),
            AppError::Utf8Error(e) => utf8_text(e),
            AppError::IoError(e) => io_text(e),
            AppError::SerdeJsonError(e) => serde_json_text(e),
            AppError::CsvError(e) => csv_text(e),
            AppError::ZipError(e) => zip_text(e),
            AppError::ChronoParseError(e) => chrono_parse_text(e),
            AppError::ValidationError(e) => validation_text(e),
            AppError::RedisError(e) => redis_text(e),
            AppError::TaskJoinError(e) => join_text(e),
            AppError::RsaError(e) => rsa_text(e),
            AppError::SignatureError(e) => signature_text(e),
            AppError::CustomError(m) => m.clone(),
        }
    }

    /// The synthetic cause of the custom variant: a `CustomError` built from
    /// the same message. Wrapping variants expose their wrapped value as the
    /// cause instead, so they yield nothing here.
    pub open spec fn custom_cause_spec(self) -> Option<CustomError> {
        match self {
            AppError::CustomError(m) => Some(CustomError { message: m }),
            _ => None,
        }
    }

    /// The degenerate cause that the custom variant reports: itself, one
    /// level deep, re-wrapped as a `CustomError` with the same message.
    pub fn custom_cause(&self) -> (r: Option<CustomError>)
        ensures
            r == self.custom_cause_spec(),
    {
        match self {
            AppError::CustomError(m) => Some(CustomError { message: m.clone() }),
            _ => None,
        }
    }

    /// The description of this error's direct cause. Every variant has one:
    /// a wrapping variant exposes the wrapped value, whose description is the
    /// variant's own text, and the custom variant exposes the synthetic cause
    /// carrying the same message.
    pub fn cause_description(&self) -> (r: Option<String>)
        ensures
            r matches Some(t) && self.described_as(t@),
    {
        Some(self.describe())
    }
}

/// Exhaustively translates an error to its wire-level pair: the variant's
/// stable code together with the error's own description text.
pub fn match_app_error(e: AppError) -> (r: (AppErrorCode, String))
    ensures
        r.0 == e.code_spec(),
        e.described_as(r.1@),
{
    match e {
        AppError::ParseIntError(e) => (AppErrorCode::ParseIntErrorCode, parse_int_text(&e)),
        AppError::ParseFloatError(e) => (AppErrorCode::ParseFloatErrorCode, parse_float_text(&e)),
        AppError::Utf8Error(e) => (AppErrorCode::Utf8ErrorCode, utf8_text(&e)),
        AppError::IoError(e) => (AppErrorCode::IoErrorCode, io_text(&e)),
        AppError::SerdeJsonError(e) => (AppErrorCode::SerdeJsonErrorCode, serde_json_text(&e)),
        AppError::CsvError(e) => (AppErrorCode::CsvErrorCode, csv_text(&e)),
        AppError::ZipError(e) => (AppErrorCode::ZipErrorCode, zip_text(&e)),
        AppError::ChronoParseError(e) => (AppErrorCode::ChronoParseErrorCode, chrono_parse_text(&e)),
        AppError::ValidationError(e) => (AppErrorCode::RequestErrorCode, validation_text(&e)),
        AppError::RedisError(e) => (AppErrorCode::RedisErrorCode, redis_text(&e)),
        AppError::TaskJoinError(e) => (AppErrorCode::TaskJoinErrorCode, join_text(&e)),
        AppError::RsaError(e) => (AppErrorCode::RsaErrorCode, rsa_text(&e)),
        AppError::SignatureError(e) => (AppErrorCode::SignatureErrorCode, signature_text(&e)),
        AppError::CustomError(m) => (AppErrorCode::CustomErrorCode, m),
    }
}

/// The fixed table of published code values. These are a wire contract:
/// clients store them, so no value may move to another variant.
pub open spec fn published_code_values() -> Set<int> {
    set![
        0int,
        402,
        404,
        405,
        500,
        510,
        511,
        512,
        513,
        514,
        515,
        516,
        517,
        518,
        519,
        520,
        521,
        522,
        523,
        524,
        525,
        526,
        527,
        528,
        529,
        530,
        531,
        532,
    ]
}

/// Every code's integer value is drawn from the fixed published table.
pub proof fn lemma_code_value_published(c: AppErrorCode)
    ensures
        published_code_values().contains(c.value_spec() as int),
{
}

/// The code mapping is total: every constructible error maps to a code, and
/// that code's value is drawn from the fixed published table.
pub proof fn lemma_code_total(e: AppError)
    ensures
        published_code_values().contains(e.code_spec().value_spec() as int),
{
    lemma_code_value_published(e.code_spec());
}

/// The wire message is non-empty exactly when the wrapped kind's own
/// description is, for every variant whose text is pinned down.
pub proof fn lemma_nonempty_message(e: AppError, t: Seq<char>)
    requires
        e.text_known(),
        e.described_as(t),
    ensures
        t.len() > 0 <==> e.known_text().len() > 0,
{
}

/// Conversion keeps the description: an integer-parse failure, wrapped, is
/// described by exactly its own text.
pub proof fn lemma_convert_keeps_parse_int_text(e: std::num::ParseIntError, t: Seq<char>)
    ensures
        <AppError as FromSpec<std::num::ParseIntError>>::from_spec(e).described_as(t) <==> t
            == parse_int_error_text(e),
{
}

/// Conversion keeps the description: a float-parse failure, wrapped, is
/// described by exactly its own text.
pub proof fn lemma_convert_keeps_parse_float_text(e: std::num::ParseFloatError, t: Seq<char>)
    ensures
        <AppError as FromSpec<std::num::ParseFloatError>>::from_spec(e).described_as(t) <==> t
            == parse_float_error_text(e),
{
}

/// Conversion keeps the description: a UTF-8 decode failure, wrapped, is
/// described by exactly its own text.
pub proof fn lemma_convert_keeps_utf8_text(e: std::str::Utf8Error, t: Seq<char>)
    ensures
        <AppError as FromSpec<std::str::Utf8Error>>::from_spec(e).described_as(t) <==> t
            == utf8_error_text(e),
{
}

/// Conversion keeps the description: a date/time-parse failure, wrapped, is
/// described by exactly its own text.
pub proof fn lemma_convert_keeps_chrono_text(e: chrono::ParseError, t: Seq<char>)
    ensures
        <AppError as FromSpec<chrono::ParseError>>::from_spec(e).described_as(t) <==> t
            == chrono_parse_error_text(e),
{
}

/// Conversion keeps the description: an RSA failure, wrapped, is described
/// by exactly its own text.
pub proof fn lemma_convert_keeps_rsa_text(e: rsa::errors::Error, t: Seq<char>)
    ensures
        <AppError as FromSpec<rsa::errors::Error>>::from_spec(e).described_as(t) <==> t
            == rsa_error_text(e),
{
}

/// Conversion keeps the description: a signature failure, wrapped, is
/// described by exactly its own (constant) text.
pub proof fn lemma_convert_keeps_signature_text(e: ed25519_dalek::SignatureError, t: Seq<char>)
    ensures
        <AppError as FromSpec<ed25519_dalek::SignatureError>>::from_spec(e).described_as(t) <==> t
            == "signature error"@,
{
}

/// The custom variant round-trips: an error built from message `m` is
/// described by exactly `m`.
pub proof fn lemma_custom_round_trip(m: String, t: Seq<char>)
    ensures
        AppError::CustomError(m).described_as(t) <==> t == m@,
{
}

/// Cause traversal below the custom variant is exactly one level, whatever
/// the message: the synthetic cause carries the same message and itself has
/// no further cause.
pub proof fn lemma_custom_cause_one_level(m: String)
    ensures
        AppError::CustomError(m).custom_cause_spec() matches Some(c) && c.message == m
            && c.cause_spec() is None,
{
}

/// The catch-all error of this system's own logic: a free-form message with
/// no further structure.
#[derive(Debug)]
pub struct CustomError {
    pub message: String,
}

impl CustomError {
    /// A custom error's cause chain ends here: it has no further cause.
    pub open spec fn cause_spec(self) -> Option<CustomError> {
        None
    }

    /// The description of a custom error is its stored message, unchanged.
    pub fn describe(&self) -> (r: String)
        ensures
            r@ == self.message@,
    {
        self.message.clone()
    }

    /// A custom error reports no cause of its own.
    pub fn cause(&self) -> (r: Option<CustomError>)
        ensures
            r == self.cause_spec(),
    {
        None
    }
}

impl Clone for CustomError {
    fn clone(&self) -> (r: Self)
        ensures
            r.message == self.message,
    {
        CustomError { message: self.message.clone() }
    }
}

impl Default for CustomError {
    fn default() -> (r: Self)
        ensures
            r.message@ == Seq::<char>::empty(),
    {
        CustomError { message: String::new() }
    }
}

impl From<String> for CustomError {
    fn from(message: String) -> (r: CustomError) {
        CustomError { message }
    }
}

impl vstd::std_specs::convert::FromSpecImpl<String> for CustomError {
    open spec fn obeys_from_spec() -> bool {
        true
    }

    open spec fn from_spec(message: String) -> CustomError {
        CustomError { message }
    }
}

impl From<std::num::ParseIntError> for AppError {
    fn from(e: std::num::ParseIntError) -> (r: AppError) {
        AppError::ParseIntError(e)
    }
}

impl vstd::std_specs::convert::FromSpecImpl<std::num::ParseIntError> for AppError {
    open spec fn obeys_from_spec() -> bool {
        true
    }

    open spec fn from_spec(e: std::num::ParseIntError) -> AppError {
        AppError::ParseIntError(e)
    }
}

impl From<std::num::ParseFloatError> for AppError {
    fn from(e: std::num::ParseFloatError) -> (r: AppError) {
        AppError::ParseFloatError(e)
    }
}

impl vstd::std_specs::convert::FromSpecImpl<std::num::ParseFloatError> for AppError {
    open spec fn obeys_from_spec() -> bool {
        true
    }

    open spec fn from_spec(e: std::num::ParseFloatError) -> AppError {
        AppError::ParseFloatError(e)
    }
}

impl From<std::str::Utf8Error> for AppError {
    fn from(e: std::str::Utf8Error) -> (r: AppError) {
        AppError::Utf8Error(e)
    }
}

impl vstd::std_specs::convert::FromSpecImpl<std::str::Utf8Error> for AppError {
    open spec fn obeys_from_spec() -> bool {
        true
    }

    open spec fn from_spec(e: std::str::Utf8Error) -> AppError {
        AppError::Utf8Error(e)
    }
}

impl From<std::io::Error> for AppError {
    fn from(e: std::io::Error) -> (r: AppError) {
        AppError::IoError(e)
    }
}

impl vstd::std_specs::convert::FromSpecImpl<std::io::Error> for AppError {
    open spec fn obeys_from_spec() -> bool {
        true
    }

    open spec fn from_spec(e: std::io::Error) -> AppError {
        AppError::IoError(e)
    }
}

impl From<serde_json::Error> for AppError {
    fn from(e: serde_json::Error) -> (r: AppError) {
        AppError::SerdeJsonError(e)
    }
}

impl vstd::std_specs::convert::FromSpecImpl<serde_json::Error> for AppError {
    open spec fn obeys_from_spec() -> bool {
        true
    }

    open spec fn from_spec(e: serde_json::Error) -> AppError {
        AppError::SerdeJsonError(e)
    }
}

impl From<csv::Error> for AppError {
    fn from(e: csv::Error) -> (r: AppError) {
        AppError::CsvError(e)
    }
}

impl vstd::std_specs::convert::FromSpecImpl<csv::Error> for AppError {
    open spec fn obeys_from_spec() -> bool {
        true
    }

    open spec fn from_spec(e: csv::Error) -> AppError {
        AppError::CsvError(e)
    }
}

impl From<zip::result::ZipError> for AppError {
    fn from(e: zip::result::ZipError) -> (r: AppError) {
        AppError::ZipError(e)
    }
}

impl vstd::std_specs::convert::FromSpecImpl<zip::result::ZipError> for AppError {
    open spec fn obeys_from_spec() -> bool {
        true
    }

    open spec fn from_spec(e: zip::result::ZipError) -> AppError {
        AppError::ZipError(e)
    }
}

impl From<chrono::ParseError> for AppError {
    fn from(e: chrono::ParseError) -> (r: AppError) {
        AppError::ChronoParseError(e)
    }
}

impl vstd::std_specs::convert::FromSpecImpl<chrono::ParseError> for AppError {
    open spec fn obeys_from_spec() -> bool {
        true
    }

    open spec fn from_spec(e: chrono::ParseError) -> AppError {
        AppError::ChronoParseError(e)
    }
}

impl From<validator::ValidationErrors> for AppError {
    fn from(e: validator::ValidationErrors) -> (r: AppError) {
        AppError::ValidationError(e)
    }
}

impl vstd::std_specs::convert::FromSpecImpl<validator::ValidationErrors> for AppError {
    open spec fn obeys_from_spec() -> bool {
        true
    }

    open spec fn from_spec(e: validator::ValidationErrors) -> AppError {
        AppError::ValidationError(e)
    }
}

impl From<r2d2_redis::redis::RedisError> for AppError {
    fn from(e: r2d2_redis::redis::RedisError) -> (r: AppError) {
        AppError::RedisError(e)
    }
}

impl vstd::std_specs::convert::FromSpecImpl<r2d2_redis::redis::RedisError> for AppError {
    open spec fn obeys_from_spec() -> bool {
        true
    }

    open spec fn from_spec(e: r2d2_redis::redis::RedisError) -> AppError {
        AppError::RedisError(e)
    }
}

impl From<tokio::task::JoinError> for AppError {
    fn from(e: tokio::task::JoinError) -> (r: AppError) {
        AppError::TaskJoinError(e)
    }
}

impl vstd::std_specs::convert::FromSpecImpl<tokio::task::JoinError> for AppError {
    open spec fn obeys_from_spec() -> bool {
        true
    }

    open spec fn from_spec(e: tokio::task::JoinError) -> AppError {
        AppError::TaskJoinError(e)
    }
}

impl From<rsa::errors::Error> for AppError {
    fn from(e: rsa::errors::Error) -> (r: AppError) {
        AppError::RsaError(e)
    }
}

impl vstd::std_specs::convert::FromSpecImpl<rsa::errors::Error> for AppError {
    open spec fn obeys_from_spec() -> bool {
        true
    }

    open spec fn from_spec(e: rsa::errors::Error) -> AppError {
        AppError::RsaError(e)
    }
}

impl From<ed25519_dalek::SignatureError> for AppError {
    fn from(e: ed25519_dalek::SignatureError) -> (r: AppError) {
        AppError::SignatureError(e)
    }
}

impl vstd::std_specs::convert::FromSpecImpl<ed25519_dalek::SignatureError> for AppError {
    open spec fn obeys_from_spec() -> bool {
        true
    }

    open spec fn from_spec(e: ed25519_dalek::SignatureError) -> AppError {
        AppError::SignatureError(e)
    }
}

/// The stable integer code attached to each error variant for wire-level
/// reporting. The numeric values are a published contract: they must not be
/// renumbered once clients store them.
#[derive(Clone, Copy, Debug, PartialEq, Eq, Structural)]
pub enum AppErrorCode {
    Zero,
    RequestErrorCode,
    NotFound,
    CustomErrorCode,
    SystemErrorCode,
    ParseIntErrorCode,
    ParseFloatErrorCode,
    Utf8ErrorCode,
    IoErrorCode,
    RbatisErrorCode,
    ReqwestErrorCode,
    SerdeJsonErrorCode,
    ClickHouseErrorCode,
    CsvErrorCode,
    CsvIntoInnerErrorCode,
    StdIntoInnerErrorCode,
    ZipErrorCode,
    ChronoParseErrorCode,
    RedisErrorCode,
    TaskJoinErrorCode,
    AddrParseErrorCode,
    SolanaClientErrorCode,
    SolanaProgramErrorCode,
    ParsePubkeyErrorCode,
    SqlxErrorCode,
    RsaErrorCode,
    BoxErrorCode,
    SignatureErrorCode,
}

impl AppErrorCode {
    /// The published integer value of this code.
    pub open spec fn value_spec(self) -> i64 {
        match self {
            AppErrorCode::Zero => 0,
            AppErrorCode::RequestErrorCode => 402,
            AppErrorCode::NotFound => 404,
            AppErrorCode::CustomErrorCode => 405,
            AppErrorCode::SystemErrorCode => 500,
            AppErrorCode::ParseIntErrorCode => 510,
            AppErrorCode::ParseFloatErrorCode => 511,
            AppErrorCode::Utf8ErrorCode => 512,
            AppErrorCode::IoErrorCode => 513,
            AppErrorCode::RbatisErrorCode => 514,
            AppErrorCode::ReqwestErrorCode => 515,
            AppErrorCode::SerdeJsonErrorCode => 516,
            AppErrorCode::ClickHouseErrorCode => 517,
            AppErrorCode::CsvErrorCode => 518,
            AppErrorCode::CsvIntoInnerErrorCode => 519,
            AppErrorCode::StdIntoInnerErrorCode => 520,
            AppErrorCode::ZipErrorCode => 521,
            AppErrorCode::ChronoParseErrorCode => 522,
            AppErrorCode::RedisErrorCode => 523,
            AppErrorCode::TaskJoinErrorCode => 524,
            AppErrorCode::AddrParseErrorCode => 525,
            AppErrorCode::SolanaClientErrorCode => 526,
            AppErrorCode::SolanaProgramErrorCode => 527,
            AppErrorCode::ParsePubkeyErrorCode => 528,
            AppErrorCode::SqlxErrorCode => 529,
            AppErrorCode::RsaErrorCode => 530,
            AppErrorCode::BoxErrorCode => 531,
            AppErrorCode::SignatureErrorCode => 532,
        }
    }

    /// The integer that a wire-level response body carries for this code.
    pub fn value(&self) -> (r: i64)
        ensures
            r == self.value_spec(),
    {
        match self {
            AppErrorCode::Zero => 0,
            AppErrorCode::RequestErrorCode => 402,
            AppErrorCode::NotFound => 404,
            AppErrorCode::CustomErrorCode => 405,
            AppErrorCode::SystemErrorCode => 500,
            AppErrorCode::ParseIntErrorCode => 510,
            AppErrorCode::ParseFloatErrorCode => 511,
            AppErrorCode::Utf8ErrorCode => 512,
            AppErrorCode::IoErrorCode => 513,
            AppErrorCode::RbatisErrorCode => 514,
            AppErrorCode::ReqwestErrorCode => 515,
            AppErrorCode::SerdeJsonErrorCode => 516,
            AppErrorCode::ClickHouseErrorCode => 517,
            AppErrorCode::CsvErrorCode => 518,
            AppErrorCode::CsvIntoInnerErrorCode => 519,
            AppErrorCode::StdIntoInnerErrorCode => 520,
            AppErrorCode::ZipErrorCode => 521,
            AppErrorCode::ChronoParseErrorCode => 522,
            AppErrorCode::RedisErrorCode => 523,
            AppErrorCode::TaskJoinErrorCode => 524,
            AppErrorCode::AddrParseErrorCode => 525,
            AppErrorCode::SolanaClientErrorCode => 526,
            AppErrorCode::SolanaProgramErrorCode => 527,
            AppErrorCode::ParsePubkeyErrorCode => 528,
            AppErrorCode::SqlxErrorCode => 529,
            AppErrorCode::RsaErrorCode => 530,
            AppErrorCode::BoxErrorCode => 531,
            AppErrorCode::SignatureErrorCode => 532,
        }
    }
}

/// Codes are pairwise distinct: two codes with the same published integer
/// value are the same code.
pub proof fn lemma_codes_pairwise_distinct(a: AppErrorCode, b: AppErrorCode)
    ensures
        a.value_spec() == b.value_spec() ==> a == b,
{
}

} // verus!
