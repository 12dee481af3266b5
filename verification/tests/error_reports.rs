use pgx_pg_sys::elog::PgLogLevel;
use pgx_pg_sys::errcodes::PgSqlErrorCode;
use pgx_pg_sys::fmt::u32_to_decimal;
use pgx_pg_sys::error_report::{
    downcast_panic_payload, hook_panic_location, run_guarded, take_panic_location, CaughtError,
    ErrorReport, ErrorReportLocation, ErrorReportWithLevel, GuardAction, PanicPayload,
    ReportAction,
};

#[test]
fn decimal_text() {
    assert_eq!(u32_to_decimal(0), "0");
    assert_eq!(u32_to_decimal(7), "7");
    assert_eq!(u32_to_decimal(10), "10");
    assert_eq!(u32_to_decimal(1234), "1234");
    assert_eq!(u32_to_decimal(u32::MAX), "4294967295");
}

#[test]
fn location_display() {
    assert_eq!(ErrorReportLocation::default().to_string(), "<unknown>:0:0");
    assert_eq!(ErrorReportLocation::at("src/lib.rs".to_string(), 10, 5).to_string(), "src/lib.rs:10:5");
}

fn sample_report() -> ErrorReport {
    ErrorReport::new(
        PgSqlErrorCode::ERRCODE_DIVISION_BY_ZERO,
        "division by zero".to_string(),
        "my_func",
        ErrorReportLocation::at("src/math.rs".to_string(), 42, 7),
    )
}

#[test]
fn error_report_builders() {
    let r = sample_report();
    assert_eq!(r.message(), "division by zero");
    assert_eq!(r.detail(), None);
    assert_eq!(r.hint(), None);
    let r = r.set_detail("the divisor was 0".to_string()).set_hint("check the input".to_string());
    assert_eq!(r.message(), "division by zero");
    assert_eq!(r.detail(), Some("the divisor was 0"));
    assert_eq!(r.hint(), Some("check the input"));
}

#[test]
fn error_report_with_level_getters() {
    let r = sample_report().set_hint("h".to_string());
    match r.report(PgLogLevel::WARNING) {
        ReportAction::Emit(w) => {
            assert_eq!(w.level(), PgLogLevel::WARNING);
            assert_eq!(w.sql_error_code(), PgSqlErrorCode::ERRCODE_DIVISION_BY_ZERO);
            assert_eq!(w.message(), "division by zero");
            assert_eq!(w.detail(), None);
            assert_eq!(w.hint(), Some("h"));
            assert_eq!(w.file(), "src/math.rs");
            assert_eq!(w.line_number(), 42);
            assert_eq!(w.function_name(), Some("my_func"));
            assert_eq!(w.context_message(), None);
        }
        ReportAction::Raise(_) => panic!("a WARNING is not raised"),
    }
}

#[test]
fn report_at_error_is_raised() {
    assert!(matches!(sample_report().report(PgLogLevel::ERROR), ReportAction::Raise(_)));
    assert!(matches!(sample_report().report(PgLogLevel::FATAL), ReportAction::Raise(_)));
    assert!(matches!(sample_report().report(PgLogLevel::NOTICE), ReportAction::Emit(_)));
}

#[test]
fn take_panic_location_defaults() {
    let l = take_panic_location(None);
    assert_eq!(l.to_string(), "<unknown>:0:0");
    let l = take_panic_location(Some(ErrorReportLocation::at("a.rs".to_string(), 1, 2)));
    assert_eq!(l.to_string(), "a.rs:1:2");
    let hooked = hook_panic_location(None).unwrap();
    assert_eq!(hooked.to_string(), "<unknown>:0:0");
}

fn level_of(report: ReportAction) -> ErrorReportWithLevel {
    match report {
        ReportAction::Raise(w) | ReportAction::Emit(w) => w,
    }
}

#[test]
fn downcast_string_panic() {
    let stored = Some(ErrorReportLocation::at("src/boom.rs".to_string(), 3, 9));
    let payload: PanicPayload<u8> = PanicPayload::Message("boom".to_string(), 17);
    assert!(payload.needs_location());
    match downcast_panic_payload(payload, stored) {
        CaughtError::RustPanic { ereport, payload } => {
            assert_eq!(payload, 17);
            assert_eq!(ereport.level(), PgLogLevel::ERROR);
            assert_eq!(ereport.sql_error_code(), PgSqlErrorCode::ERRCODE_INTERNAL_ERROR);
            assert_eq!(ereport.message(), "boom");
            assert_eq!(ereport.file(), "src/boom.rs");
            assert_eq!(ereport.line_number(), 3);
            assert_eq!(ereport.function_name(), None);
        }
        _ => panic!("a string panic is a RustPanic"),
    }
}

#[test]
fn downcast_unknown_panic() {
    let payload: PanicPayload<()> = PanicPayload::Unknown(());
    match downcast_panic_payload(payload, None) {
        CaughtError::RustPanic { ereport, .. } => {
            assert_eq!(ereport.message(), "Box<Any>");
            assert_eq!(ereport.file(), "<unknown>");
            assert_eq!(ereport.line_number(), 0);
        }
        _ => panic!("an unknown payload is a RustPanic"),
    }
}

#[test]
fn downcast_error_report_is_error_level() {
    let payload: PanicPayload<()> = PanicPayload::Report(sample_report());
    assert!(!payload.needs_location());
    match downcast_panic_payload(payload, None) {
        CaughtError::ErrorReport(w) => {
            assert_eq!(w.level(), PgLogLevel::ERROR);
            assert_eq!(w.message(), "division by zero");
            assert_eq!(w.file(), "src/math.rs");
        }
        _ => panic!("an ErrorReport payload is an ErrorReport"),
    }
}

#[test]
fn downcast_keeps_level_and_rethrown_errors() {
    let w = level_of(sample_report().report(PgLogLevel::FATAL));
    match downcast_panic_payload::<()>(PanicPayload::ReportWithLevel(w), None) {
        CaughtError::ErrorReport(w) => assert_eq!(w.level(), PgLogLevel::FATAL),
        _ => panic!("an ErrorReportWithLevel payload keeps its level"),
    }
    let pg = level_of(sample_report().report(PgLogLevel::ERROR));
    let caught: CaughtError<()> = CaughtError::PostgresError(pg);
    match downcast_panic_payload(PanicPayload::Caught(caught), None) {
        CaughtError::PostgresError(w) => assert_eq!(w.message(), "division by zero"),
        _ => panic!("a rethrown CaughtError comes back unchanged"),
    }
}

#[test]
fn guard_actions() {
    assert!(matches!(run_guarded::<i32, ()>(Ok(5)), GuardAction::Return(5)));
    let pg = level_of(sample_report().report(PgLogLevel::ERROR));
    assert!(matches!(
        run_guarded::<i32, ()>(Err(CaughtError::PostgresError(pg))),
        GuardAction::ReThrow
    ));
    let ereport = level_of(sample_report().report(PgLogLevel::ERROR));
    match run_guarded::<i32, ()>(Err(CaughtError::ErrorReport(ereport))) {
        GuardAction::Report(w) => assert_eq!(w.message(), "division by zero"),
        _ => panic!("an ErrorReport is reported"),
    }
}

#[test]
fn rust_panic_is_reported_as_error() {
    let caught = downcast_panic_payload(PanicPayload::Message("oops".to_string(), ()), None);
    match run_guarded::<(), ()>(Err(caught)) {
        GuardAction::Report(w) => {
            let call = w.into_ereport_call();
            assert_eq!(call.elevel, 20);
            assert_eq!(call.sqlerrcode, 2600);
            assert_eq!(call.message, "oops");
            assert_eq!(call.file, "<unknown>");
            assert!(!call.finishes);
        }
        _ => panic!("a Rust panic is reported"),
    }
}

#[test]
fn ereport_call_for_a_warning() {
    let w = level_of(sample_report().set_detail("d".to_string()).report(PgLogLevel::WARNING));
    let call = w.into_ereport_call();
    assert_eq!(call.elevel, 19);
    assert_eq!(call.sqlerrcode, PgSqlErrorCode::ERRCODE_DIVISION_BY_ZERO.code());
    assert_eq!(call.message, "division by zero");
    assert_eq!(call.detail.as_deref(), Some("d"));
    assert_eq!(call.hint, None);
    assert_eq!(call.context, None);
    assert_eq!(call.file, "src/math.rs");
    assert_eq!(call.funcname.as_deref(), Some("my_func"));
    assert_eq!(call.lineno, 42);
    assert!(call.finishes);
}

#[test]
fn report_from_error_data() {
    let w = ErrorReportWithLevel::from_error_data(
        20,
        PgSqlErrorCode::ERRCODE_UNIQUE_VIOLATION.code(),
        None,
        Some("Key (id)=(1) already exists.".to_string()),
        None,
        Some("_bt_check_unique".to_string()),
        None,
        664,
    );
    assert_eq!(w.level(), PgLogLevel::ERROR);
    assert_eq!(w.sql_error_code(), PgSqlErrorCode::ERRCODE_UNIQUE_VIOLATION);
    assert_eq!(w.message(), "<null error message>");
    assert_eq!(w.detail(), Some("Key (id)=(1) already exists."));
    assert_eq!(w.hint(), None);
    assert_eq!(w.file(), "<null filename>");
    assert_eq!(w.function_name(), Some("_bt_check_unique"));
    assert_eq!(w.line_number(), 664);
}

#[test]
fn report_from_error_data_unknown_level() {
    let w = ErrorReportWithLevel::from_error_data(
        99,
        12345,
        Some("m".to_string()),
        None,
        None,
        None,
        Some("f.c".to_string()),
        -1,
    );
    assert_eq!(w.level(), PgLogLevel::ERROR);
    assert_eq!(w.sql_error_code(), PgSqlErrorCode::Other(12345));
    assert_eq!(w.message(), "m");
    assert_eq!(w.file(), "f.c");
    assert_eq!(w.line_number(), u32::MAX);
}
