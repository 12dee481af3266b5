//! Error reports raised through `pgx_ereport()`, and what a caught panic becomes
//! before it is rethrown into Postgres.
use crate::elog::PgLogLevel;
use crate::errcodes::PgSqlErrorCode;
use crate::fmt::opt_string_view;
use vstd::prelude::*;

verus! {

/// Represents an `ERROR` that was caught from Postgres.
#[derive(Clone, Debug)]
pub struct PostgresError {}

/// A source location, as text and numbers.
pub struct PgLocationView {
    pub file: Seq<char>,
    pub line: u32,
    pub col: u32,
}

/// Where in the source an error report was created.
#[derive(Clone, Debug)]
pub struct PgErrorReportLocation {
    file: String,
    line: u32,
    col: u32,
}

impl View for PgErrorReportLocation {
    type V = PgLocationView;

    closed spec fn view(&self) -> PgLocationView {
        PgLocationView { file: self.file@, line: self.line, col: self.col }
    }
}

/// The location used when none is known: file `<unknown>`, line and column 0.
pub open spec fn unknown_location() -> PgLocationView {
    PgLocationView { file: "<unknown>"@, line: 0, col: 0 }
}

impl PgErrorReportLocation {
    /// The location `file:line:col`.
    pub fn at(file: String, line: u32, col: u32) -> (r: Self)
        ensures
            r@ == (PgLocationView { file: file@, line, col }),
    {
        Self { file, line, col }
    }

    /// The given location, or the unknown location when there is none.
    pub fn from_option(location: Option<PgErrorReportLocation>) -> (r: Self)
        ensures
            r@ == (match location {
                Some(l) => l@,
                None => unknown_location(),
            }),
    {
        match location {
            Some(l) => l,
            None => PgErrorReportLocation { file: "<unknown>".to_owned(), line: 0, col: 0 },
        }
    }
}

/// What an error report is made of.
pub struct PgReportView {
    pub errcode: PgSqlErrorCode,
    pub message: Seq<char>,
    pub detail: Option<Seq<char>>,
    pub funcname: Option<Seq<char>>,
    pub location: PgLocationView,
}

/// Represents the set of information necessary to promote a Rust `panic!()` to a Postgres
/// `ERROR` (or any [`PgLogLevel`] level)
#[derive(Clone, Debug)]
pub struct PgErrorReport {
    errcode: PgSqlErrorCode,
    message: String,
    detail: Option<String>,
    funcname: Option<String>,
    location: PgErrorReportLocation,
}

impl View for PgErrorReport {
    type V = PgReportView;

    closed spec fn view(&self) -> PgReportView {
        PgReportView {
            errcode: self.errcode,
            message: self.message@,
            detail: opt_string_view(self.detail),
            funcname: opt_string_view(self.funcname),
            location: self.location@,
        }
    }
}

/// An error report and the level it is reported at.
pub struct PgReportWithLevelView {
    pub level: PgLogLevel,
    pub panic: PgReportView,
}

/// A [`PgErrorReport`] and the level it is reported at.
#[derive(Clone, Debug)]
pub struct PgErrorReportWithLevel {
    level: PgLogLevel,
    panic: PgErrorReport,
}

impl View for PgErrorReportWithLevel {
    type V = PgReportWithLevelView;

    closed spec fn view(&self) -> PgReportWithLevelView {
        PgReportWithLevelView { level: self.level, panic: self.panic@ }
    }
}

/// The arguments of one call of `pgx_ereport(level, code, message, detail, funcname,
/// file, lineno, colno)`.
pub struct PgxEreportCall {
    pub level: i32,
    pub code: i32,
    pub message: String,
    pub detail: Option<String>,
    pub funcname: Option<String>,
    pub file: String,
    pub lineno: i32,
    pub colno: i32,
    /// False when the level is `ERROR` or above: then `pgx_ereport()` does not return.
    /// When it does, the caller frees its copies of `file` and `funcname` afterwards.
    pub finishes: bool,
}

impl PgErrorReportWithLevel {
    /// The `pgx_ereport()` call that reports this error.
    pub fn into_pgx_ereport_call(self) -> (r: PgxEreportCall)
        ensures
            r.level == self@.level.spec_value(),
            r.code == self@.panic.errcode.spec_code(),
            r.message@ == self@.panic.message,
            opt_string_view(r.detail) == self@.panic.detail,
            opt_string_view(r.funcname) == self@.panic.funcname,
            r.file@ == self@.panic.location.file,
            r.lineno == self@.panic.location.line as i32,
            r.colno == self@.panic.location.col as i32,
            r.finishes == !self@.level.spec_is_error(),
    {
        let level = self.level.value();
        let code = self.panic.errcode.code();
        let finishes = !self.level.is_error();
        let PgErrorReportWithLevel { panic, .. } = self;
        let PgErrorReport { message, detail, funcname, location, .. } = panic;
        let PgErrorReportLocation { file, line, col } = location;
        PgxEreportCall {
            level,
            code,
            message,
            detail,
            funcname,
            file,
            lineno: line as i32,
            colno: col as i32,
            finishes,
        }
    }
}

impl PgErrorReport {
    /// Create a [`PgErrorReport`] created at the caller's location `caller`, with no
    /// detail and no function name.
    pub fn new(errcode: PgSqlErrorCode, message: String, caller: PgErrorReportLocation) -> (r: Self)
        ensures
            r@ == (PgReportView {
                errcode,
                message: message@,
                detail: None,
                funcname: None,
                location: caller@,
            }),
    {
        Self { errcode, message, detail: None, funcname: None, location: caller }
    }

    /// Create a [`PgErrorReport`] at the given location, with no detail and no function name.
    pub fn with_location(
        errcode: PgSqlErrorCode,
        message: String,
        location: PgErrorReportLocation,
    ) -> (r: Self)
        ensures
            r@ == (PgReportView {
                errcode,
                message: message@,
                detail: None,
                funcname: None,
                location: location@,
            }),
    {
        Self { errcode, message, detail: None, funcname: None, location }
    }

    /// Set the `detail` property, whose default is `None`
    pub fn detail(self, detail: String) -> (r: Self)
        ensures
            r@ == (PgReportView { detail: Some(detail@), ..self@ }),
    {
        let mut s = self;
        s.detail = Some(detail);
        s
    }

    /// Set the `funcname` property, whose default is `None`
    pub fn funcname(self, funcname: String) -> (r: Self)
        ensures
            r@ == (PgReportView { funcname: Some(funcname@), ..self@ }),
    {
        let mut s = self;
        s.funcname = Some(funcname);
        s
    }

    /// Report this [`PgErrorReport`] at `level`.
    pub fn report(self, level: PgLogLevel) -> (r: PgxEreportCall)
        ensures
            r.level == level.spec_value(),
            r.code == self@.errcode.spec_code(),
            r.message@ == self@.message,
            opt_string_view(r.detail) == self@.detail,
            opt_string_view(r.funcname) == self@.funcname,
            r.file@ == self@.location.file,
            r.lineno == self@.location.line as i32,
            r.colno == self@.location.col as i32,
            r.finishes == !level.spec_is_error(),
    {
        PgErrorReportWithLevel { level, panic: self }.into_pgx_ereport_call()
    }
}

/// The location the panic hook records: the first one reported stays until it is taken.
pub fn hook_panic_location(
    existing: Option<PgErrorReportLocation>,
    reported: Option<PgErrorReportLocation>,
) -> (r: Option<PgErrorReportLocation>)
    ensures
        r == (if existing is None { reported } else { existing }),
{
    if existing.is_none() {
        reported
    } else {
        existing
    }
}

/// What a caught panic carried, sorted by the types that are understood.
pub enum PgPanicPayload {
    /// A Postgres `ERROR` caught at the FFI boundary.
    PostgresError(PostgresError),
    /// A report raised with its level (by a Rust panic or an error-raising `ereport`).
    ReportWithLevel(PgErrorReportWithLevel),
    /// Someone called `panic_any` with a [`PgErrorReport`].
    Report(PgErrorReport),
    /// A panic with a text message (a `&str` or a `String`).
    Message(String),
    /// A payload of any other type.
    Unknown,
}

impl PgPanicPayload {
    /// True when classifying this payload reads the location that the panic hook
    /// recorded: for plain Rust panics (a message or an unknown payload) only.
    pub fn needs_location(&self) -> (r: bool)
        ensures
            r == (self is Message || self is Unknown),
    {
        match self {
            PgPanicPayload::Message(_) | PgPanicPayload::Unknown => true,
            _ => false,
        }
    }
}

/// Convert a panic payload into either the report to raise (`Ok`) or the Postgres
/// error to rethrow (`Err`).  A report that carries its level is raised as it is; a
/// bare [`PgErrorReport`] is raised at `ERROR`; a text
/// message, or `Box<Any>` for an unknown payload, is raised at `ERROR` as an internal
/// error at the location the panic hook recorded (`stored`).
pub fn downcast_err(
    e: PgPanicPayload,
    stored: Option<PgErrorReportLocation>,
) -> (r: Result<PgErrorReportWithLevel, PostgresError>)
    ensures
        match e {
            PgPanicPayload::PostgresError(p) => r == Err::<PgErrorReportWithLevel, _>(p),
            PgPanicPayload::ReportWithLevel(w) => r == Ok::<_, PostgresError>(w),
            PgPanicPayload::Report(report) => r matches Ok(w) && w@ == (PgReportWithLevelView {
                level: PgLogLevel::ERROR,
                panic: report@,
            }),
            PgPanicPayload::Message(m) => r matches Ok(w) && w@ == internal_error_report(
                m@,
                stored,
            ),
            PgPanicPayload::Unknown => r matches Ok(w) && w@ == internal_error_report(
                "Box<Any>"@,
                stored,
            ),
        },
{
    match e {
        PgPanicPayload::PostgresError(p) => Err(p),
        PgPanicPayload::ReportWithLevel(w) => Ok(w),
        PgPanicPayload::Report(report) => Ok(
            PgErrorReportWithLevel { level: PgLogLevel::ERROR, panic: report },
        ),
        PgPanicPayload::Message(message) => Ok(
            PgErrorReportWithLevel {
                level: PgLogLevel::ERROR,
                panic: PgErrorReport::with_location(
                    PgSqlErrorCode::ERRCODE_INTERNAL_ERROR,
                    message,
                    PgErrorReportLocation::from_option(stored),
                ),
            },
        ),
        PgPanicPayload::Unknown => Ok(
            PgErrorReportWithLevel {
                level: PgLogLevel::ERROR,
                panic: PgErrorReport::with_location(
                    PgSqlErrorCode::ERRCODE_INTERNAL_ERROR,
                    "Box<Any>".to_owned(),
                    PgErrorReportLocation::from_option(stored),
                ),
            },
        ),
    }
}

/// The report of a plain Rust panic with message `message`: an internal error at level
/// `ERROR`, at the location the panic hook recorded.
pub open spec fn internal_error_report(
    message: Seq<char>,
    stored: Option<PgErrorReportLocation>,
) -> PgReportWithLevelView {
    PgReportWithLevelView {
        level: PgLogLevel::ERROR,
        panic: PgReportView {
            errcode: PgSqlErrorCode::ERRCODE_INTERNAL_ERROR,
            message,
            detail: None,
            funcname: None,
            location: match stored {
                Some(l) => l@,
                None => unknown_location(),
            },
        },
    }
}

/// A plain Rust panic (a text or unknown payload) is raised at level `ERROR` exactly:
/// an error level, so the transaction aborts and `pgx_ereport()` does not return, but
/// neither `FATAL` nor `PANIC`, so the process survives.  It is an internal error with
/// the panic's text, no detail and no function name, at the recorded location (or the
/// unknown one when none was recorded).
pub proof fn lemma_plain_panic_is_error(message: Seq<char>, stored: Option<PgErrorReportLocation>)
    ensures
        internal_error_report(message, stored).level == PgLogLevel::ERROR,
        internal_error_report(message, stored).level.spec_is_error(),
        internal_error_report(message, stored).level != PgLogLevel::FATAL,
        internal_error_report(message, stored).level != PgLogLevel::PANIC,
        internal_error_report(message, stored).panic.errcode == PgSqlErrorCode::ERRCODE_INTERNAL_ERROR,
        internal_error_report(message, stored).panic.message == message,
        internal_error_report(message, stored).panic.detail is None,
        internal_error_report(message, stored).panic.funcname is None,
        stored matches Some(l) ==> internal_error_report(message, stored).panic.location == l@,
        stored is None ==> internal_error_report(message, stored).panic.location.file == "<unknown>"@
            && internal_error_report(message, stored).panic.location.line == 0
            && internal_error_report(message, stored).panic.location.col == 0,
{
    crate::elog::lemma_levels();
}

/// What `unwrap_or_catch_error` does with the outcome of a try block.
pub enum CatchErrorOutcome {
    /// The block succeeded: return its value.
    Value,
    /// The block raised the awaited error: flush the error state and return it as `Err`.
    Caught,
    /// The block raised another error: rethrow it.
    Rethrow,
}

/// Decides `unwrap_or_catch_error` from the error code the block raised, if any.  Codes
/// are compared by their packed form, so `Other(c)` and the named code packed as `c`
/// are the same error.
pub fn catch_error_outcome(
    raised: Option<PgSqlErrorCode>,
    error_code: PgSqlErrorCode,
) -> (r: CatchErrorOutcome)
    ensures
        match raised {
            None => r is Value,
            Some(e) => if e.spec_code() == error_code.spec_code() {
                r is Caught
            } else {
                r is Rethrow
            },
        },
{
    match raised {
        None => CatchErrorOutcome::Value,
        Some(e) => if e.code() == error_code.code() {
            CatchErrorOutcome::Caught
        } else {
            CatchErrorOutcome::Rethrow
        },
    }
}

} // verus!
