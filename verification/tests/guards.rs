use pgx_pg_sys::elog::PgLogLevel;
use pgx_pg_sys::errcodes::PgSqlErrorCode;
use pgx_pg_sys::guard::{self, GuardPayload, JumpContext, PanicLocation, PgxPanic, Rethrow};
use pgx_pg_sys::panic_handling::{
    self, catch_error_outcome, CatchErrorOutcome, PgErrorReport, PgErrorReportLocation,
    PgPanicPayload, PostgresError,
};
use pgx_pg_sys::pg_try::{try_cleanup, CatchHandlers, TryBlockEnd};
use pgx_pg_sys::thread_check::{check_active_thread, init_active_thread, ThreadCheck};

#[test]
fn pgx_panic_text() {
    let p = PgxPanic::new("boom", "src/x.rs", 3, 4);
    assert_eq!(p.message, "boom");
    assert_eq!(p.lineno, 3);
    assert_eq!(p.text(), "boom at src/x.rs:3:4");
}

#[test]
fn guard_downcast_err() {
    assert!(matches!(guard::downcast_err(GuardPayload::Jump(JumpContext {})), Err(_)));
    assert_eq!(guard::downcast_err(GuardPayload::Message("m".to_string())).unwrap(), "m");
    let p = PgxPanic::new("bad", "lib.rs", 10, 2);
    assert_eq!(guard::downcast_err(GuardPayload::Pgx(p)).unwrap(), "bad at lib.rs:10:2");
    assert_eq!(guard::downcast_err(GuardPayload::Unknown).unwrap(), "Box<Any>");
}

#[test]
fn guard_catch_guard() {
    let stored = Some(PanicLocation { file: "a.rs".to_string(), line: 5, col: 6 });
    match guard::catch_guard(Ok("msg".to_string()), stored) {
        Rethrow::Report { level, code, message, file, lineno, colno } => {
            assert_eq!(level, PgLogLevel::ERROR.value());
            assert_eq!(code, 2600);
            assert_eq!(message, "msg");
            assert_eq!(file, "a.rs");
            assert_eq!(lineno, 5);
            assert_eq!(colno, 6);
        }
        Rethrow::PgReThrow => panic!("a message is reported"),
    }
    match guard::catch_guard(Ok("m".to_string()), None) {
        Rethrow::Report { file, lineno, colno, .. } => {
            assert_eq!(file, "<unknown>");
            assert_eq!(lineno, 0);
            assert_eq!(colno, 0);
        }
        Rethrow::PgReThrow => panic!("a message is reported"),
    }
    assert!(matches!(guard::catch_guard(Err(JumpContext {}), None), Rethrow::PgReThrow));
}

#[test]
fn guard_panic_location_hook_keeps_first() {
    let first = PanicLocation { file: "first.rs".to_string(), line: 1, col: 1 };
    let second = PanicLocation { file: "second.rs".to_string(), line: 2, col: 2 };
    let kept = guard::hook_panic_location(Some(first), Some(second)).unwrap();
    assert_eq!(kept.file, "first.rs");
    let taken = guard::take_panic_location(None);
    assert_eq!(taken.file, "<unknown>");
}

fn sample() -> PgErrorReport {
    PgErrorReport::new(
        PgSqlErrorCode::ERRCODE_DATA_EXCEPTION,
        "bad data".to_string(),
        PgErrorReportLocation::at("src/data.rs".to_string(), 8, 12),
    )
}

#[test]
fn pg_error_report_call() {
    let call = sample().detail("more".to_string()).funcname("loader".to_string()).report(PgLogLevel::NOTICE);
    assert_eq!(call.level, 18);
    assert_eq!(call.code, PgSqlErrorCode::ERRCODE_DATA_EXCEPTION.code());
    assert_eq!(call.message, "bad data");
    assert_eq!(call.detail.as_deref(), Some("more"));
    assert_eq!(call.funcname.as_deref(), Some("loader"));
    assert_eq!(call.file, "src/data.rs");
    assert_eq!(call.lineno, 8);
    assert_eq!(call.colno, 12);
    assert!(call.finishes);
    assert!(!sample().report(PgLogLevel::ERROR).finishes);
}

#[test]
fn panic_handling_downcast_err() {
    assert!(matches!(
        panic_handling::downcast_err(PgPanicPayload::PostgresError(PostgresError {}), None),
        Err(_)
    ));
    let w = panic_handling::downcast_err(PgPanicPayload::Report(sample()), None).unwrap();
    let call = w.into_pgx_ereport_call();
    assert_eq!(call.level, 20);
    assert_eq!(call.message, "bad data");
    let stored = Some(PgErrorReportLocation::at("p.rs".to_string(), 4, 1));
    let call = panic_handling::downcast_err(PgPanicPayload::Message("x".to_string()), stored)
        .unwrap()
        .into_pgx_ereport_call();
    assert_eq!(call.code, 2600);
    assert_eq!(call.message, "x");
    assert_eq!(call.file, "p.rs");
    assert_eq!(call.funcname, None);
    let call = panic_handling::downcast_err(PgPanicPayload::Unknown, None).unwrap().into_pgx_ereport_call();
    assert_eq!(call.message, "Box<Any>");
    assert_eq!(call.file, "<unknown>");
}

#[test]
fn panic_handling_hook_and_location() {
    let first = PgErrorReportLocation::at("one.rs".to_string(), 1, 1);
    let second = PgErrorReportLocation::at("two.rs".to_string(), 2, 2);
    let kept = panic_handling::hook_panic_location(None, Some(second.clone()));
    let kept = panic_handling::hook_panic_location(kept, Some(first));
    let call = PgErrorReport::new(PgSqlErrorCode::ERRCODE_WARNING, "w".to_string(), kept.unwrap())
        .report(PgLogLevel::WARNING);
    assert_eq!(call.file, "two.rs");
    let unknown = PgErrorReportLocation::from_option(None);
    let call = PgErrorReport::with_location(PgSqlErrorCode::ERRCODE_WARNING, "w".to_string(), unknown)
        .report(PgLogLevel::INFO);
    assert_eq!(call.file, "<unknown>");
}

#[test]
fn unwrap_or_catch_error_outcomes() {
    let wanted = PgSqlErrorCode::ERRCODE_DIVISION_BY_ZERO;
    assert!(matches!(catch_error_outcome(None, wanted), CatchErrorOutcome::Value));
    assert!(matches!(catch_error_outcome(Some(wanted), wanted), CatchErrorOutcome::Caught));
    assert!(matches!(
        catch_error_outcome(Some(PgSqlErrorCode::ERRCODE_INTERNAL_ERROR), wanted),
        CatchErrorOutcome::Rethrow
    ));
}

#[test]
fn thread_checks() {
    assert!(matches!(check_active_thread(0, 5), ThreadCheck::Claim));
    assert!(matches!(check_active_thread(5, 5), ThreadCheck::Pass));
    assert!(matches!(check_active_thread(5, 6), ThreadCheck::Fail));
    assert!(init_active_thread(Ok(0)));
    assert!(!init_active_thread(Err(7)));
}

#[test]
fn catch_handlers_choice() {
    let div = PgSqlErrorCode::ERRCODE_DIVISION_BY_ZERO;
    let other = PgSqlErrorCode::ERRCODE_INTERNAL_ERROR;
    let h = || CatchHandlers::new().catch_when(div, "div").catch_others("others");
    assert_eq!(h().take_handler(div, false), Some("div"));
    assert_eq!(h().take_handler(other, false), Some("others"));
    assert_eq!(h().take_handler(other, true), Some("others"));
    let r = || CatchHandlers::new().catch_when(div, "div").catch_rust_panic("rust");
    assert_eq!(r().take_handler(other, true), Some("rust"));
    assert_eq!(r().take_handler(other, false), None);
    assert_eq!(r().take_handler(div, true), Some("div"));
    let none: CatchHandlers<&str> = CatchHandlers::new();
    assert_eq!(none.take_handler(div, true), None);
}

#[test]
fn catch_handlers_latest_registration_wins() {
    let div = PgSqlErrorCode::ERRCODE_DIVISION_BY_ZERO;
    let h = CatchHandlers::new().catch_when(div, 1).catch_when(PgSqlErrorCode::ERRCODE_WARNING, 2).catch_when(div, 3);
    assert_eq!(h.take_handler(div, false), Some(3));
}

#[test]
fn codes_compare_by_packed_form() {
    let internal = PgSqlErrorCode::ERRCODE_INTERNAL_ERROR;
    let same = PgSqlErrorCode::Other(2600);
    assert!(matches!(catch_error_outcome(Some(same), internal), CatchErrorOutcome::Caught));
    assert!(matches!(catch_error_outcome(Some(internal), same), CatchErrorOutcome::Caught));
    let h = CatchHandlers::new().catch_when(same, "internal");
    assert_eq!(h.take_handler(internal, false), Some("internal"));
}

#[test]
fn panic_handling_report_with_level_passes_unchanged() {
    let w = panic_handling::downcast_err(PgPanicPayload::Report(sample().detail("d".to_string())), None)
        .unwrap();
    let again = panic_handling::downcast_err(PgPanicPayload::ReportWithLevel(w.clone()), None).unwrap();
    let (a, b) = (w.into_pgx_ereport_call(), again.into_pgx_ereport_call());
    assert_eq!(a.level, b.level);
    assert_eq!(a.code, b.code);
    assert_eq!(a.message, b.message);
    assert_eq!(b.message, "bad data");
    assert_eq!(a.detail, b.detail);
    assert_eq!(a.funcname, b.funcname);
    assert_eq!(a.file, b.file);
    assert_eq!(b.file, "src/data.rs");
    assert_eq!((a.lineno, a.colno), (b.lineno, b.colno));
    let payload = PgPanicPayload::ReportWithLevel(
        panic_handling::downcast_err(PgPanicPayload::Unknown, None).unwrap(),
    );
    assert!(!payload.needs_location());
}

#[test]
fn try_block_cleanup() {
    let c = try_cleanup(TryBlockEnd::BodyReturned);
    assert!(c.run_finally && !c.flush_error_state && !c.resume_unwind);
    let c = try_cleanup(TryBlockEnd::HandlerReturned);
    assert!(c.run_finally && c.flush_error_state && !c.resume_unwind);
    let c = try_cleanup(TryBlockEnd::HandlerRaised);
    assert!(c.run_finally && !c.flush_error_state && c.resume_unwind);
}
