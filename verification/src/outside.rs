//! Declarations of the wrapped error kinds that come from outside this
//! crate, and the trusted wrappers that read each kind's textual
//! description. Every wrapped payload is opaque here: the facade only ever
//! asks it for its description text.

use vstd::prelude::*;

verus! {

#[verifier::external_type_specification]
#[verifier::external_body]
pub struct ExParseIntError(std::num::ParseIntError);

#[verifier::external_type_specification]
#[verifier::external_body]
pub struct ExParseFloatError(std::num::ParseFloatError);

#[verifier::external_type_specification]
#[verifier::external_body]
pub struct ExUtf8Error(std::str::Utf8Error);

#[verifier::external_type_specification]
#[verifier::external_body]
pub struct ExIoError(std::io::Error);

#[verifier::external_type_specification]
#[verifier::external_body]
pub struct ExSerdeJsonError(serde_json::Error);

#[verifier::external_type_specification]
#[verifier::external_body]
pub struct ExCsvError(csv::Error);

#[verifier::external_type_specification]
#[verifier::external_body]
pub struct ExZipError(zip::result::ZipError);

#[verifier::external_type_specification]
#[verifier::external_body]
pub struct ExChronoParseError(chrono::ParseError);

#[verifier::external_type_specification]
#[verifier::external_body]
pub struct ExValidationErrors(validator::ValidationErrors);

#[verifier::external_type_specification]
#[verifier::external_body]
pub struct ExRedisError(r2d2_redis::redis::RedisError);

#[verifier::external_type_specification]
#[verifier::external_body]
pub struct ExJoinError(tokio::task::JoinError);

#[verifier::external_type_specification]
#[verifier::external_body]
pub struct ExRsaError(rsa::errors::Error);

#[verifier::external_type_specification]
#[verifier::external_body]
pub struct ExSignatureError(ed25519_dalek::SignatureError);

/// The description text of an integer-parse failure. The text is one of a
/// few fixed English sentences chosen by the error's internal kind, so it is
/// a function of the value alone.
pub uninterp spec fn parse_int_error_text(e: std::num::ParseIntError) -> Seq<char>;

/// The description text of a float-parse failure; a fixed English sentence,
/// a function of the value alone.
pub uninterp spec fn parse_float_error_text(e: std::num::ParseFloatError) -> Seq<char>;

/// The description text of a UTF-8 decode failure; built only from the
/// error's recorded positions, so a function of the value alone.
pub uninterp spec fn utf8_error_text(e: std::str::Utf8Error) -> Seq<char>;

/// The description text of a date/time-parse failure. `chrono` builds it
/// from a fixed English sentence per error kind, so it is a function of the
/// value alone.
pub uninterp spec fn chrono_parse_error_text(e: chrono::ParseError) -> Seq<char>;

/// The description text of an RSA failure. `rsa` builds it from a fixed
/// English sentence per error kind, or from a wrapped PKCS decoding error's
/// equally data-only text, so it is a function of the value alone.
pub uninterp spec fn rsa_error_text(e: rsa::errors::Error) -> Seq<char>;

/// Relies on the `Display` impl of `std::num::ParseIntError` (via
/// `ToString::to_string`): the text depends on the error value alone.
#[verifier::external_body]
pub(crate) fn parse_int_text(e: &std::num::ParseIntError) -> (r: String)
    ensures
        r@ == parse_int_error_text(*e),
{
    e.to_string()
}

/// Relies on the `Display` impl of `std::num::ParseFloatError` (via
/// `ToString::to_string`): the text depends on the error value alone.
#[verifier::external_body]
pub(crate) fn parse_float_text(e: &std::num::ParseFloatError) -> (r: String)
    ensures
        r@ == parse_float_error_text(*e),
{
    e.to_string()
}

/// Relies on the `Display` impl of `std::str::Utf8Error` (via
/// `ToString::to_string`): the text depends on the error value alone.
#[verifier::external_body]
pub(crate) fn utf8_text(e: &std::str::Utf8Error) -> (r: String)
    ensures
        r@ == utf8_error_text(*e),
{
    e.to_string()
}

/// Relies on the `Display` impl of `std::io::Error` (via
/// `ToString::to_string`). For raw OS errors the text comes from the
/// platform's message catalogue, so nothing is stated of it.
#[verifier::external_body]
pub(crate) fn io_text(e: &std::io::Error) -> (r: String) {
    e.to_string()
}

/// Relies on the `Display` impl of `serde_json::Error` (via
/// `ToString::to_string`). An error of I/O category forwards the text of a
/// wrapped `std::io::Error`, so nothing is stated of it.
#[verifier::external_body]
pub(crate) fn serde_json_text(e: &serde_json::Error) -> (r: String) {
    e.to_string()
}

/// Relies on the `Display` impl of `csv::Error` (via
/// `ToString::to_string`). An error of I/O kind forwards the text of a
/// wrapped `std::io::Error`, so nothing is stated of it.
#[verifier::external_body]
pub(crate) fn csv_text(e: &csv::Error) -> (r: String) {
    e.to_string()
}

/// Relies on the `Display` impl of `zip::result::ZipError` (via
/// `ToString::to_string`). Its `Io` variant forwards the text of a wrapped
/// `std::io::Error`, so nothing is stated of it.
#[verifier::external_body]
pub(crate) fn zip_text(e: &zip::result::ZipError) -> (r: String) {
    e.to_string()
}

/// Relies on the `Display` impl of `chrono::ParseError` (via
/// `ToString::to_string`): the text depends on the error value alone.
#[verifier::external_body]
pub(crate) fn chrono_parse_text(e: &chrono::ParseError) -> (r: String)
    ensures
        r@ == chrono_parse_error_text(*e),
{
    e.to_string()
}

/// Relies on the `Display` impl of `validator::ValidationErrors` (via
/// `ToString::to_string`). The text is assembled by walking a hash map, so
/// its order can differ between runs and nothing is stated of it.
#[verifier::external_body]
pub(crate) fn validation_text(e: &validator::ValidationErrors) -> (r: String) {
    e.to_string()
}

/// Relies on the `Display` impl of `r2d2_redis::redis::RedisError` (via
/// `ToString::to_string`). The error may forward the text of a wrapped
/// `std::io::Error`, so nothing is stated of it.
#[verifier::external_body]
pub(crate) fn redis_text(e: &r2d2_redis::redis::RedisError) -> (r: String) {
    e.to_string()
}

/// Relies on the `Display` impl of `tokio::task::JoinError` (via
/// `ToString::to_string`). The text carries a process-local task id, so
/// nothing is stated of it.
#[verifier::external_body]
pub(crate) fn join_text(e: &tokio::task::JoinError) -> (r: String) {
    e.to_string()
}

/// Relies on the `Display` impl of `rsa::errors::Error` (via
/// `ToString::to_string`): a fixed English sentence per error kind, possibly
/// forwarding a PKCS decoding error's equally data-only text, so the text
/// depends on the error value alone.
#[verifier::external_body]
pub(crate) fn rsa_text(e: &rsa::errors::Error) -> (r: String)
    ensures
        r@ == rsa_error_text(*e),
{
    e.to_string()
}

/// Relies on the `Display` impl of `ed25519_dalek::SignatureError` (the
/// `signature` crate's error, via `ToString::to_string`): the text is the
/// constant sentence stated below, whatever the error holds.
#[verifier::external_body]
pub(crate) fn signature_text(e: &ed25519_dalek::SignatureError) -> (r: String)
    ensures
        r@ == "signature error"@,
{
    e.to_string()
}

} // verus!
