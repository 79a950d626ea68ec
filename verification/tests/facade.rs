use whatever::result::{match_app_error, AppError, AppErrorCode, AppResult, CustomError};

fn parse_int_error() -> std::num::ParseIntError {
    "abc".parse::<i64>().expect_err("parsing should fail")
}

fn parse_float_error() -> std::num::ParseFloatError {
    "abc".parse::<f64>().expect_err("parsing should fail")
}

fn utf8_error() -> std::str::Utf8Error {
    std::str::from_utf8(&[0xC3, 0x28]).expect_err("decoding should fail")
}

fn io_error() -> std::io::Error {
    std::io::Error::new(std::io::ErrorKind::NotFound, "no such file")
}

fn serde_json_error() -> serde_json::Error {
    serde_json::from_str::<serde_json::Value>("{").expect_err("parsing should fail")
}

fn csv_error() -> csv::Error {
    let mut rdr = csv::ReaderBuilder::new()
        .has_headers(false)
        .from_reader("a,b\nc,d,e".as_bytes());
    let mut err = None;
    for rec in rdr.records() {
        if let Err(e) = rec {
            err = Some(e);
        }
    }
    err.expect("expected a csv error")
}

fn zip_error() -> zip::result::ZipError {
    zip::result::ZipError::FileNotFound
}

fn chrono_error() -> chrono::ParseError {
    chrono::NaiveDate::parse_from_str("nonsense", "%Y-%m-%d").expect_err("parsing should fail")
}

fn validation_errors() -> validator::ValidationErrors {
    let mut errs = validator::ValidationErrors::new();
    errs.add("name", validator::ValidationError::new("length"));
    errs
}

fn redis_error() -> r2d2_redis::redis::RedisError {
    r2d2_redis::redis::RedisError::from((
        r2d2_redis::redis::ErrorKind::ResponseError,
        "an error was signalled by the server",
    ))
}

fn join_error() -> tokio::task::JoinError {
    let rt = tokio::runtime::Builder::new_current_thread()
        .build()
        .expect("building a runtime should succeed");
    let handle = rt.spawn(std::future::pending::<()>());
    handle.abort();
    rt.block_on(handle).expect_err("the aborted task should fail to join")
}

fn rsa_error() -> rsa::errors::Error {
    rsa::errors::Error::Decryption
}

fn signature_error() -> ed25519_dalek::SignatureError {
    ed25519_dalek::SignatureError::new()
}

#[test]
fn convert_keeps_parse_int_description() {
    let e = parse_int_error();
    let expected = e.to_string();
    let app = AppError::from(e);
    assert_eq!(app.describe(), expected);
    assert_eq!(expected, "invalid digit found in string");
    let (code, msg) = match_app_error(app);
    assert_eq!(code, AppErrorCode::ParseIntErrorCode);
    assert_eq!(code.value(), 510);
    assert_eq!(msg, expected);
}

#[test]
fn convert_keeps_parse_float_description() {
    let e = parse_float_error();
    let expected = e.to_string();
    let app = AppError::from(e);
    assert_eq!(app.describe(), expected);
    assert_eq!(expected, "invalid float literal");
    let (code, msg) = match_app_error(app);
    assert_eq!(code, AppErrorCode::ParseFloatErrorCode);
    assert_eq!(code.value(), 511);
    assert_eq!(msg, expected);
}

#[test]
fn convert_keeps_utf8_description() {
    let e = utf8_error();
    let expected = e.to_string();
    let app = AppError::from(e);
    assert_eq!(app.describe(), expected);
    let (code, msg) = match_app_error(app);
    assert_eq!(code, AppErrorCode::Utf8ErrorCode);
    assert_eq!(code.value(), 512);
    assert_eq!(msg, expected);
}

#[test]
fn convert_keeps_io_description() {
    let e = io_error();
    let expected = e.to_string();
    let app = AppError::from(e);
    assert_eq!(app.describe(), expected);
    let (code, msg) = match_app_error(app);
    assert_eq!(code, AppErrorCode::IoErrorCode);
    assert_eq!(code.value(), 513);
    assert_eq!(msg, expected);
}

#[test]
fn convert_keeps_serde_json_description() {
    let e = serde_json_error();
    let expected = e.to_string();
    let app = AppError::from(e);
    assert_eq!(app.describe(), expected);
    let (code, msg) = match_app_error(app);
    assert_eq!(code, AppErrorCode::SerdeJsonErrorCode);
    assert_eq!(code.value(), 516);
    assert_eq!(msg, expected);
}

#[test]
fn convert_keeps_csv_description() {
    let e = csv_error();
    let expected = e.to_string();
    let app = AppError::from(e);
    assert_eq!(app.describe(), expected);
    let (code, msg) = match_app_error(app);
    assert_eq!(code, AppErrorCode::CsvErrorCode);
    assert_eq!(code.value(), 518);
    assert_eq!(msg, expected);
}

#[test]
fn convert_keeps_zip_description() {
    let e = zip_error();
    let expected = e.to_string();
    let app = AppError::from(e);
    assert_eq!(app.describe(), expected);
    assert_eq!(expected, "specified file not found in archive");
    let (code, msg) = match_app_error(app);
    assert_eq!(code, AppErrorCode::ZipErrorCode);
    assert_eq!(code.value(), 521);
    assert_eq!(msg, expected);
}

#[test]
fn convert_keeps_chrono_description() {
    let e = chrono_error();
    let expected = e.to_string();
    let app = AppError::from(e);
    assert_eq!(app.describe(), expected);
    assert_eq!(expected, "input contains invalid characters");
    let (code, msg) = match_app_error(app);
    assert_eq!(code, AppErrorCode::ChronoParseErrorCode);
    assert_eq!(code.value(), 522);
    assert_eq!(msg, expected);
}

#[test]
fn convert_keeps_validation_description() {
    let e = validation_errors();
    let expected = e.to_string();
    let app = AppError::from(e);
    assert_eq!(app.describe(), expected);
    let (code, msg) = match_app_error(app);
    assert_eq!(code, AppErrorCode::RequestErrorCode);
    assert_eq!(code.value(), 402);
    assert_eq!(msg, expected);
}

#[test]
fn convert_keeps_redis_description() {
    let e = redis_error();
    let expected = e.to_string();
    let app = AppError::from(e);
    assert_eq!(app.describe(), expected);
    let (code, msg) = match_app_error(app);
    assert_eq!(code, AppErrorCode::RedisErrorCode);
    assert_eq!(code.value(), 523);
    assert_eq!(msg, expected);
}

#[test]
fn convert_keeps_join_description() {
    let e = join_error();
    let expected = e.to_string();
    let app = AppError::from(e);
    assert_eq!(app.describe(), expected);
    assert!(expected.contains("cancelled"));
    let (code, msg) = match_app_error(app);
    assert_eq!(code, AppErrorCode::TaskJoinErrorCode);
    assert_eq!(code.value(), 524);
    assert_eq!(msg, expected);
}

#[test]
fn convert_keeps_rsa_description() {
    let e = rsa_error();
    let expected = e.to_string();
    let app = AppError::from(e);
    assert_eq!(app.describe(), expected);
    assert_eq!(expected, "decryption error");
    let (code, msg) = match_app_error(app);
    assert_eq!(code, AppErrorCode::RsaErrorCode);
    assert_eq!(code.value(), 530);
    assert_eq!(msg, expected);
}

#[test]
fn convert_keeps_signature_description() {
    let e = signature_error();
    let expected = e.to_string();
    let app = AppError::from(e);
    assert_eq!(app.describe(), expected);
    assert_eq!(expected, "signature error");
    let (code, msg) = match_app_error(app);
    assert_eq!(code, AppErrorCode::SignatureErrorCode);
    assert_eq!(code.value(), 532);
    assert_eq!(msg, expected);
}

fn parse_with_propagation(s: &str) -> AppResult<i64> {
    Ok(s.parse::<i64>()?)
}

#[test]
fn question_mark_converts_at_the_propagation_boundary() {
    assert_eq!(parse_with_propagation("42").unwrap(), 42);
    let err = parse_with_propagation("abc").expect_err("parsing should fail");
    assert!(matches!(err, AppError::ParseIntError(_)));
}

#[test]
fn code_values_are_exactly_the_published_table() {
    let table: [(AppErrorCode, i64); 28] = [
        (AppErrorCode::Zero, 0),
        (AppErrorCode::RequestErrorCode, 402),
        (AppErrorCode::NotFound, 404),
        (AppErrorCode::CustomErrorCode, 405),
        (AppErrorCode::SystemErrorCode, 500),
        (AppErrorCode::ParseIntErrorCode, 510),
        (AppErrorCode::ParseFloatErrorCode, 511),
        (AppErrorCode::Utf8ErrorCode, 512),
        (AppErrorCode::IoErrorCode, 513),
        (AppErrorCode::RbatisErrorCode, 514),
        (AppErrorCode::ReqwestErrorCode, 515),
        (AppErrorCode::SerdeJsonErrorCode, 516),
        (AppErrorCode::ClickHouseErrorCode, 517),
        (AppErrorCode::CsvErrorCode, 518),
        (AppErrorCode::CsvIntoInnerErrorCode, 519),
        (AppErrorCode::StdIntoInnerErrorCode, 520),
        (AppErrorCode::ZipErrorCode, 521),
        (AppErrorCode::ChronoParseErrorCode, 522),
        (AppErrorCode::RedisErrorCode, 523),
        (AppErrorCode::TaskJoinErrorCode, 524),
        (AppErrorCode::AddrParseErrorCode, 525),
        (AppErrorCode::SolanaClientErrorCode, 526),
        (AppErrorCode::SolanaProgramErrorCode, 527),
        (AppErrorCode::ParsePubkeyErrorCode, 528),
        (AppErrorCode::SqlxErrorCode, 529),
        (AppErrorCode::RsaErrorCode, 530),
        (AppErrorCode::BoxErrorCode, 531),
        (AppErrorCode::SignatureErrorCode, 532),
    ];
    for (code, expected) in table {
        assert_eq!(code.value(), expected);
    }
}

#[test]
fn code_values_are_pairwise_distinct() {
    let codes = [
        AppErrorCode::Zero,
        AppErrorCode::RequestErrorCode,
        AppErrorCode::NotFound,
        AppErrorCode::CustomErrorCode,
        AppErrorCode::SystemErrorCode,
        AppErrorCode::ParseIntErrorCode,
        AppErrorCode::ParseFloatErrorCode,
        AppErrorCode::Utf8ErrorCode,
        AppErrorCode::IoErrorCode,
        AppErrorCode::RbatisErrorCode,
        AppErrorCode::ReqwestErrorCode,
        AppErrorCode::SerdeJsonErrorCode,
        AppErrorCode::ClickHouseErrorCode,
        AppErrorCode::CsvErrorCode,
        AppErrorCode::CsvIntoInnerErrorCode,
        AppErrorCode::StdIntoInnerErrorCode,
        AppErrorCode::ZipErrorCode,
        AppErrorCode::ChronoParseErrorCode,
        AppErrorCode::RedisErrorCode,
        AppErrorCode::TaskJoinErrorCode,
        AppErrorCode::AddrParseErrorCode,
        AppErrorCode::SolanaClientErrorCode,
        AppErrorCode::SolanaProgramErrorCode,
        AppErrorCode::ParsePubkeyErrorCode,
        AppErrorCode::SqlxErrorCode,
        AppErrorCode::RsaErrorCode,
        AppErrorCode::BoxErrorCode,
        AppErrorCode::SignatureErrorCode,
    ];
    let mut values: Vec<i64> = codes.iter().map(|c| c.value()).collect();
    values.sort();
    values.dedup();
    assert_eq!(values.len(), codes.len());
}

#[test]
fn custom_round_trips() {
    let e = AppError::CustomError(String::from("x"));
    assert_eq!(e.describe(), "x");
}

#[test]
fn custom_with_empty_message_describes_empty() {
    let e = AppError::CustomError(String::new());
    assert_eq!(e.describe(), "");
}

#[test]
fn custom_cause_is_exactly_one_level() {
    let e = AppError::CustomError(String::from("anything at all"));
    let cause = e.custom_cause().expect("the custom variant has a synthetic cause");
    assert_eq!(cause.describe(), "anything at all");
    assert_eq!(cause.message, "anything at all");
    assert!(cause.cause().is_none());
    assert_eq!(e.cause_description().expect("every error has a cause"), "anything at all");
}

#[test]
fn wrapping_variants_have_no_synthetic_cause() {
    let e = AppError::from(zip_error());
    assert!(e.custom_cause().is_none());
    let cause = e.cause_description().expect("every error has a cause");
    assert_eq!(cause, "specified file not found in archive");
}

#[test]
fn io_not_found_scenario() {
    let e = io_error();
    let expected = e.to_string();
    let app = AppError::from(e);
    let described = app.describe();
    assert!(described.contains("no such file"));
    assert_eq!(described, expected);
    let (code, msg) = match_app_error(app);
    assert_eq!(code, AppErrorCode::IoErrorCode);
    assert_eq!(msg, expected);
}

#[test]
fn custom_scenario_123() {
    let e = AppError::CustomError(String::from("123"));
    let (code, msg) = match_app_error(e);
    assert_eq!(code, AppErrorCode::CustomErrorCode);
    assert_eq!(code.value(), 405);
    assert_eq!(msg, "123");
}

#[test]
fn custom_error_from_string() {
    let c = CustomError::from(String::from("abc"));
    assert_eq!(c.message, "abc");
    assert_eq!(c.describe(), "abc");
}

#[test]
fn custom_error_clone_keeps_the_message() {
    let c = CustomError::from(String::from("abc"));
    let d = c.clone();
    assert_eq!(d.message, c.message);
}

#[test]
fn custom_error_default_is_empty() {
    let c = CustomError::default();
    assert_eq!(c.message, "");
}
