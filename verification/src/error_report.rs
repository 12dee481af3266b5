//! Error reports that Rust code raises into Postgres, and the classification of
//! whatever a panic carried into one of the three kinds of caught error.
use crate::elog::PgLogLevel;
use crate::errcodes::PgSqlErrorCode;
use crate::fmt::{decimal, opt_as_str, opt_str_view, opt_string_view, push_char, push_decimal};
use vstd::prelude::*;

verus! {

/// What a location is made of, as text and numbers.
pub struct LocationView {
    pub file: Seq<char>,
    pub funcname: Option<Seq<char>>,
    pub line: u32,
    pub col: u32,
}

/// Where in the source an error report was raised.
#[derive(Clone, Debug)]
pub struct ErrorReportLocation {
    pub(crate) file: String,
    pub(crate) funcname: Option<String>,
    pub(crate) line: u32,
    pub(crate) col: u32,
}

impl View for ErrorReportLocation {
    type V = LocationView;

    closed spec fn view(&self) -> LocationView {
        LocationView {
            file: self.file@,
            funcname: opt_string_view(self.funcname),
            line: self.line,
            col: self.col,
        }
    }
}

/// The text `<unknown>`.
pub open spec fn unknown_file() -> Seq<char> {
    "<unknown>"@
}

/// `file:line:col`, preceded by `funcname, ` when the function is known.
pub open spec fn location_text(l: LocationView) -> Seq<char> {
    let tail = l.file + seq![':'] + decimal(l.line as nat) + seq![':'] + decimal(l.col as nat);
    match l.funcname {
        Some(f) => f + seq![',', ' '] + tail,
        None => tail,
    }
}

/// How a location is written.  Without a function name the text is the file, a colon,
/// the line in decimal, a colon and the column in decimal.  With a function name `f`
/// the text starts with `f`, then a comma and a space, and goes on with exactly the
/// text the location would have without a function name.
pub proof fn lemma_location_text_layout(l: LocationView)
    ensures
        ({
            let plain = location_text(LocationView { funcname: None, ..l });
            &&& plain.take(l.file.len() as int) == l.file
            &&& plain[l.file.len() as int] == ':'
            &&& plain.skip((l.file.len() + 1) as int).take(decimal(l.line as nat).len() as int) == decimal(
                l.line as nat,
            )
            &&& plain[(l.file.len() + 1 + decimal(l.line as nat).len()) as int] == ':'
            &&& plain.skip((l.file.len() + 2 + decimal(l.line as nat).len()) as int) == decimal(
                l.col as nat,
            )
        }),
        l.funcname is None ==> location_text(l) == location_text(LocationView { funcname: None, ..l }),
        l.funcname matches Some(f) ==> {
            &&& location_text(l).take(f.len() as int) == f
            &&& location_text(l)[f.len() as int] == ','
            &&& location_text(l)[(f.len() + 1) as int] == ' '
            &&& location_text(l).skip((f.len() + 2) as int) == location_text(
                LocationView { funcname: None, ..l },
            )
        },
{
    let plain = location_text(LocationView { funcname: None, ..l });
    let line = decimal(l.line as nat);
    let col = decimal(l.col as nat);
    assert(plain =~= l.file + seq![':'] + line + seq![':'] + col);
    assert(plain.take(l.file.len() as int) =~= l.file);
    assert(plain.skip((l.file.len() + 1) as int).take(line.len() as int) =~= line);
    assert(plain.skip((l.file.len() + 2 + line.len()) as int) =~= col);
    if let Some(f) = l.funcname {
        let t = location_text(l);
        assert(t =~= f + seq![',', ' '] + plain);
        assert(t.take(f.len() as int) =~= f);
        assert(t.skip((f.len() + 2) as int) =~= plain);
    }
}

impl Default for ErrorReportLocation {
    /// The location of a panic that reported none: file `<unknown>`, no function,
    /// line and column 0.
    fn default() -> (r: Self)
        ensures
            r@ == (LocationView { file: unknown_file(), funcname: None, line: 0, col: 0 }),
    {
        Self { file: "<unknown>".to_owned(), funcname: None, line: 0, col: 0 }
    }
}

impl ErrorReportLocation {
    /// A location in `file` at `line` and `col`, with no function name: what a
    /// source-code location reported by a panic becomes.
    pub fn at(file: String, line: u32, col: u32) -> (r: Self)
        ensures
            r@ == (LocationView { file: file@, funcname: None, line, col }),
    {
        Self { file, funcname: None, line, col }
    }

    /// `funcname, file:line:col`, or `file:line:col` when the function is not known.
    /// (This mimics Postgres' own output, and adds a column number.)
    pub fn to_string(&self) -> (r: String)
        ensures
            r@ == location_text(self@),
    {
        let mut r = match &self.funcname {
            Some(funcname) => {
                let mut r = funcname.clone();
                push_char(&mut r, ',');
                push_char(&mut r, ' ');
                r
            },
            None => String::new(),
        };
        let ghost head = r@;
        r.append(self.file.as_str());
        push_char(&mut r, ':');
        push_decimal(&mut r, self.line);
        push_char(&mut r, ':');
        push_decimal(&mut r, self.col);
        assert(r@ =~= head + (self.file@ + seq![':'] + decimal(self.line as nat) + seq![':']
            + decimal(self.col as nat)));
        assert(r@ =~= location_text(self@));
        r
    }
}

/// What an error report is made of.
pub struct ReportView {
    pub sqlerrcode: PgSqlErrorCode,
    pub message: Seq<char>,
    pub hint: Option<Seq<char>>,
    pub detail: Option<Seq<char>>,
    pub location: LocationView,
}

/// Represents the set of information necessary to promote a Rust `panic!()` to a Postgres
/// `ERROR` (or any [`PgLogLevel`] level).
#[derive(Clone, Debug)]
pub struct ErrorReport {
    pub(crate) sqlerrcode: PgSqlErrorCode,
    pub(crate) message: String,
    pub(crate) hint: Option<String>,
    pub(crate) detail: Option<String>,
    pub(crate) location: ErrorReportLocation,
}

impl View for ErrorReport {
    type V = ReportView;

    closed spec fn view(&self) -> ReportView {
        ReportView {
            sqlerrcode: self.sqlerrcode,
            message: self.message@,
            hint: opt_string_view(self.hint),
            detail: opt_string_view(self.detail),
            location: self.location@,
        }
    }
}

/// An error report together with the level it is to be reported at.
pub struct ReportWithLevelView {
    pub level: PgLogLevel,
    pub inner: ReportView,
}

/// An [`ErrorReport`] and the [`PgLogLevel`] it is reported at.
#[derive(Clone, Debug)]
pub struct ErrorReportWithLevel {
    pub(crate) level: PgLogLevel,
    pub(crate) inner: ErrorReport,
}

impl View for ErrorReportWithLevel {
    type V = ReportWithLevelView;

    closed spec fn view(&self) -> ReportWithLevelView {
        ReportWithLevelView { level: self.level, inner: self.inner@ }
    }
}

/// What reporting an error asks of Postgres.
pub enum ReportAction {
    /// The level is `ERROR` or above: raise the report as a Rust panic, so that the
    /// stack unwinds before Postgres aborts the transaction.
    Raise(ErrorReportWithLevel),
    /// A lesser level: just emit the message through `ereport()`; this is no panic.
    Emit(ErrorReportWithLevel),
}

impl ErrorReportWithLevel {
    /// Only if the log level is `ERROR` or above is the report raised as a panic;
    /// lesser levels (INFO, WARNING, LOG, ...) are emitted as messages.
    pub fn report(self) -> (r: ReportAction)
        ensures
            r == (if self@.level.spec_is_error() {
                ReportAction::Raise(self)
            } else {
                ReportAction::Emit(self)
            }),
    {
        if self.level.is_error() {
            ReportAction::Raise(self)
        } else {
            ReportAction::Emit(self)
        }
    }

    /// Returns the logging level of this error report
    pub fn level(&self) -> (r: PgLogLevel)
        ensures
            r == self@.level,
    {
        self.level
    }

    /// Returns the sql error code of this error report
    pub fn sql_error_code(&self) -> (r: PgSqlErrorCode)
        ensures
            r == self@.inner.sqlerrcode,
    {
        self.inner.sqlerrcode
    }

    /// Returns the error message of this error report
    pub fn message(&self) -> (r: &str)
        ensures
            r@ == self@.inner.message,
    {
        self.inner.message()
    }

    /// Returns the detail line of this error report, if there is one
    pub fn detail(&self) -> (r: Option<&str>)
        ensures
            opt_str_view(r) == self@.inner.detail,
    {
        self.inner.detail()
    }

    /// Returns the hint line of this error report, if there is one
    pub fn hint(&self) -> (r: Option<&str>)
        ensures
            opt_str_view(r) == self@.inner.hint,
    {
        self.inner.hint()
    }

    /// Returns the name of the source file that generated this error report
    pub fn file(&self) -> (r: &str)
        ensures
            r@ == self@.inner.location.file,
    {
        self.inner.location.file.as_str()
    }

    /// Returns the line number of the source file that generated this error report
    pub fn line_number(&self) -> (r: u32)
        ensures
            r == self@.inner.location.line,
    {
        self.inner.location.line
    }

    /// Returns the name of the function that generated this error report, if we were able to figure it out
    pub fn function_name(&self) -> (r: Option<&str>)
        ensures
            opt_str_view(r) == self@.inner.location.funcname,
    {
        opt_as_str(&self.inner.location.funcname)
    }

    /// Returns the context message of this error report, if any.  No report carries one yet.
    pub fn context_message(&self) -> (r: Option<String>)
        ensures
            r is None,
    {
        None
    }
}

impl ErrorReport {
    /// Create an [`ErrorReport`] raised from `funcname` at the caller's location `caller`;
    /// it has no detail and no hint.
    pub fn new(
        sqlerrcode: PgSqlErrorCode,
        message: String,
        funcname: &str,
        caller: ErrorReportLocation,
    ) -> (r: Self)
        ensures
            r@ == (ReportView {
                sqlerrcode,
                message: message@,
                hint: None,
                detail: None,
                location: LocationView { funcname: Some(funcname@), ..caller@ },
            }),
    {
        let mut location = caller;
        location.funcname = Some(funcname.to_owned());
        Self { sqlerrcode, message, hint: None, detail: None, location }
    }

    /// Create an [`ErrorReport`] at the given location, with no detail and no hint.
    pub fn with_location(
        sqlerrcode: PgSqlErrorCode,
        message: String,
        location: ErrorReportLocation,
    ) -> (r: Self)
        ensures
            r@ == (ReportView {
                sqlerrcode,
                message: message@,
                hint: None,
                detail: None,
                location: location@,
            }),
    {
        Self { sqlerrcode, message, hint: None, detail: None, location }
    }

    /// Set the `detail` property, whose default is `None`
    pub fn set_detail(self, detail: String) -> (r: Self)
        ensures
            r@ == (ReportView { detail: Some(detail@), ..self@ }),
    {
        let mut s = self;
        s.detail = Some(detail);
        s
    }

    /// Set the `hint` property, whose default is `None`
    pub fn set_hint(self, hint: String) -> (r: Self)
        ensures
            r@ == (ReportView { hint: Some(hint@), ..self@ }),
    {
        let mut s = self;
        s.hint = Some(hint);
        s
    }

    /// Returns the error message of this error report
    pub fn message(&self) -> (r: &str)
        ensures
            r@ == self@.message,
    {
        self.message.as_str()
    }

    /// Returns the detail message of this error report
    pub fn detail(&self) -> (r: Option<&str>)
        ensures
            opt_str_view(r) == self@.detail,
    {
        opt_as_str(&self.detail)
    }

    /// Returns the hint message of this error report
    pub fn hint(&self) -> (r: Option<&str>)
        ensures
            opt_str_view(r) == self@.hint,
    {
        opt_as_str(&self.hint)
    }

    /// Report this [`ErrorReport`] at `level`: at `ERROR` or above it is to be raised
    /// (and the reporting function does not return); below, it is emitted as a message.
    pub fn report(self, level: PgLogLevel) -> (r: ReportAction)
        ensures
            match r {
                ReportAction::Raise(e) => level.spec_is_error() && e@ == (ReportWithLevelView {
                    level,
                    inner: self@,
                }),
                ReportAction::Emit(e) => !level.spec_is_error() && e@ == (ReportWithLevelView {
                    level,
                    inner: self@,
                }),
            },
    {
        ErrorReportWithLevel { level, inner: self }.report()
    }
}

/// The location recorded by the panic hook, or the default location when the hook
/// recorded none.
pub open spec fn panic_location_view(stored: Option<ErrorReportLocation>) -> LocationView {
    match stored {
        Some(l) => l@,
        None => LocationView { file: unknown_file(), funcname: None, line: 0, col: 0 },
    }
}

/// Takes the location that the panic hook recorded for the panic being handled
/// (`stored`, which the caller has taken out of its slot), or the default location
/// when there is none.
pub fn take_panic_location(stored: Option<ErrorReportLocation>) -> (r: ErrorReportLocation)
    ensures
        r@ == panic_location_view(stored),
{
    match stored {
        Some(location) => location,
        None => ErrorReportLocation::default(),
    }
}

/// What kind of error was caught?  `P` is the type of a Rust panic's original payload.
pub enum CaughtError<P> {
    /// An error raised from within Postgres
    PostgresError(ErrorReportWithLevel),
    /// A `pgx::error!()` or `pgx::ereport!(ERROR, ...)` raised from within Rust
    ErrorReport(ErrorReportWithLevel),
    /// A Rust `panic!()` or `std::panic::panic_any()`
    RustPanic { ereport: ErrorReportWithLevel, payload: P },
}

/// What a caught panic carried, sorted by the types that are understood.
pub enum PanicPayload<P> {
    /// A previously caught error that is being rethrown.
    Caught(CaughtError<P>),
    /// Someone called `panic_any` with an [`ErrorReportWithLevel`].
    ReportWithLevel(ErrorReportWithLevel),
    /// Someone called `panic_any` with an [`ErrorReport`].
    Report(ErrorReport),
    /// A panic with a text message (a `&str` or a `String`): the text, and the payload.
    Message(String, P),
    /// A payload of any other type.
    Unknown(P),
}

impl<P> PanicPayload<P> {
    /// True when classifying this payload reads the location that the panic hook
    /// recorded: for plain Rust panics (a message or an unknown payload) only.
    pub open spec fn spec_needs_location(&self) -> bool {
        self is Message || self is Unknown
    }

    /// True when classifying this payload reads the recorded panic location.
    pub fn needs_location(&self) -> (r: bool)
        ensures
            r == self.spec_needs_location(),
    {
        match self {
            PanicPayload::Message(..) | PanicPayload::Unknown(..) => true,
            _ => false,
        }
    }
}

/// The message of a panic whose payload has a type that is not understood.
pub open spec fn unknown_payload_text() -> Seq<char> {
    "Box<Any>"@
}

/// A report of a plain Rust panic: raised at `ERROR` as an internal error, with the
/// message `message` and the location the panic hook recorded.
pub open spec fn rust_panic_report(message: Seq<char>, stored: Option<ErrorReportLocation>) -> ReportWithLevelView {
    ReportWithLevelView {
        level: PgLogLevel::ERROR,
        inner: ReportView {
            sqlerrcode: PgSqlErrorCode::ERRCODE_INTERNAL_ERROR,
            message,
            hint: None,
            detail: None,
            location: panic_location_view(stored),
        },
    }
}

/// A plain Rust panic is reported to Postgres as an internal error at level `ERROR`:
/// it aborts the transaction (its level is `ERROR` or above, so the report is raised
/// and `ereport()` does not return) but not the process (it is neither `FATAL` nor
/// `PANIC`).
pub proof fn lemma_rust_panic_aborts_transaction(
    message: Seq<char>,
    stored: Option<ErrorReportLocation>,
)
    ensures
        rust_panic_report(message, stored).level.spec_is_error(),
        rust_panic_report(message, stored).level != PgLogLevel::FATAL,
        rust_panic_report(message, stored).level != PgLogLevel::PANIC,
        rust_panic_report(message, stored).inner.sqlerrcode
            == PgSqlErrorCode::ERRCODE_INTERNAL_ERROR,
{
}

/// Convert a panic payload into the representative [`CaughtError`].
///
/// A rethrown `CaughtError` comes back as it was; an `ErrorReportWithLevel` is an
/// `ErrorReport`; a bare `ErrorReport` is one at level `ERROR`; anything else is a
/// `RustPanic` reported at `ERROR` as an internal error, with the panic's message (or
/// `Box<Any>` for a payload that is not text) and the location the panic hook
/// recorded (`stored`, read only for such payloads), keeping the original payload.
pub fn downcast_panic_payload<P>(
    e: PanicPayload<P>,
    stored: Option<ErrorReportLocation>,
) -> (r: CaughtError<P>)
    ensures
        match e {
            PanicPayload::Caught(c) => r == c,
            PanicPayload::ReportWithLevel(w) => r == CaughtError::<P>::ErrorReport(w),
            PanicPayload::Report(report) => r matches CaughtError::ErrorReport(w) && w@
                == (ReportWithLevelView { level: PgLogLevel::ERROR, inner: report@ }),
            PanicPayload::Message(message, payload) => r matches CaughtError::RustPanic {
                ereport,
                payload: p,
            } && p == payload && ereport@ == rust_panic_report(message@, stored),
            PanicPayload::Unknown(payload) => r matches CaughtError::RustPanic {
                ereport,
                payload: p,
            } && p == payload && ereport@ == rust_panic_report(unknown_payload_text(), stored),
        },
{
    match e {
        PanicPayload::Caught(caught) => caught,
        PanicPayload::ReportWithLevel(ereport) => CaughtError::ErrorReport(ereport),
        PanicPayload::Report(report) => CaughtError::ErrorReport(
            ErrorReportWithLevel { level: PgLogLevel::ERROR, inner: report },
        ),
        PanicPayload::Message(message, payload) => CaughtError::RustPanic {
            ereport: ErrorReportWithLevel {
                level: PgLogLevel::ERROR,
                inner: ErrorReport::with_location(
                    PgSqlErrorCode::ERRCODE_INTERNAL_ERROR,
                    message,
                    take_panic_location(stored),
                ),
            },
            payload,
        },
        PanicPayload::Unknown(payload) => CaughtError::RustPanic {
            ereport: ErrorReportWithLevel {
                level: PgLogLevel::ERROR,
                inner: ErrorReport::with_location(
                    PgSqlErrorCode::ERRCODE_INTERNAL_ERROR,
                    "Box<Any>".to_owned(),
                    take_panic_location(stored),
                ),
            },
            payload,
        },
    }
}

/// What a guarded `extern "C"` function does once its body has run.
pub enum GuardAction<R> {
    /// The body returned this value: return it.
    Return(R),
    /// The body raised a Postgres error: ask Postgres to rethrow it.
    ReThrow,
    /// The body raised a Rust error report or panicked: report this at its level.
    Report(ErrorReportWithLevel),
}

/// Decides what a guarded function does with the outcome of its body: a value is
/// returned, a Postgres error is rethrown by Postgres, and a Rust error report or
/// panic is reported.
pub fn run_guarded<R, P>(outcome: Result<R, CaughtError<P>>) -> (r: GuardAction<R>)
    ensures
        match outcome {
            Ok(v) => r == GuardAction::Return(v),
            Err(CaughtError::PostgresError(_)) => r is ReThrow,
            Err(CaughtError::ErrorReport(e)) => r == GuardAction::<R>::Report(e),
            Err(CaughtError::RustPanic { ereport, .. }) => r == GuardAction::<R>::Report(ereport),
        },
{
    match outcome {
        Ok(v) => GuardAction::Return(v),
        Err(e) => match e {
            CaughtError::PostgresError(_) => GuardAction::ReThrow,
            CaughtError::ErrorReport(ereport) | CaughtError::RustPanic { ereport, .. } => {
                GuardAction::Report(ereport)
            },
        },
    }
}

/// The arguments with which `ereport()` is driven for one report, in Postgres' terms:
/// `errstart(elevel)`, `errcode(sqlerrcode)`, then `errmsg`, `errdetail`, `errhint`
/// and `errcontext_msg` (each `"%s"` with its text, the last three only when present),
/// and `errfinish(file, lineno, funcname)`.
pub struct EreportCall {
    pub elevel: i32,
    pub sqlerrcode: i32,
    pub message: String,
    pub detail: Option<String>,
    pub hint: Option<String>,
    pub context: Option<String>,
    pub file: String,
    pub funcname: Option<String>,
    pub lineno: i32,
    /// False when the level is `ERROR` or above: then `errfinish()` does not return.
    /// When it does, the caller frees its copies of `file` and `funcname` afterwards.
    pub finishes: bool,
}

impl ErrorReportWithLevel {
    /// The `ereport()` call that reports this error (Postgres' `ereport` macro unrolled):
    /// the level's and error code's numbers, the message, the optional detail and hint,
    /// no context, and the source location.
    pub fn into_ereport_call(self) -> (r: EreportCall)
        ensures
            r.elevel == self@.level.spec_value(),
            r.sqlerrcode == self@.inner.sqlerrcode.spec_code(),
            r.message@ == self@.inner.message,
            opt_string_view(r.detail) == self@.inner.detail,
            opt_string_view(r.hint) == self@.inner.hint,
            r.context is None,
            r.file@ == self@.inner.location.file,
            opt_string_view(r.funcname) == self@.inner.location.funcname,
            r.lineno == self@.inner.location.line as i32,
            r.finishes == !self@.level.spec_is_error(),
    {
        let elevel = self.level.value();
        let sqlerrcode = self.inner.sqlerrcode.code();
        let lineno = self.inner.location.line as i32;
        let finishes = !self.level.is_error();
        let context = self.context_message();
        let ErrorReportWithLevel { inner, .. } = self;
        let ErrorReport { message, hint, detail, location, .. } = inner;
        let ErrorReportLocation { file, funcname, .. } = location;
        EreportCall {
            elevel,
            sqlerrcode,
            message,
            detail,
            hint,
            context,
            file,
            funcname,
            lineno,
            finishes,
        }
    }

    /// The report of an error that Postgres raised, rebuilt from the fields of its
    /// `ErrorData`: a missing message reads `<null error message>` and a missing file
    /// name `<null filename>`; the column is 0.  A level that is not one of Postgres'
    /// levels is taken as `ERROR`, since Postgres only hands an error back this way
    /// from `ERROR` on.
    pub fn from_error_data(
        elevel: i32,
        sqlerrcode: i32,
        message: Option<String>,
        detail: Option<String>,
        hint: Option<String>,
        funcname: Option<String>,
        filename: Option<String>,
        lineno: i32,
    ) -> (r: ErrorReportWithLevel)
        ensures
            (exists|l: PgLogLevel| #[trigger] l.spec_value() == elevel) ==> r@.level.spec_value()
                == elevel,
            (forall|l: PgLogLevel| #[trigger] l.spec_value() != elevel) ==> r@.level
                == PgLogLevel::ERROR,
            r@.inner.sqlerrcode.spec_code() == sqlerrcode,
            r@.inner.sqlerrcode.is_canonical(),
            r@.inner.message == (match message {
                Some(m) => m@,
                None => "<null error message>"@,
            }),
            r@.inner.detail == opt_string_view(detail),
            r@.inner.hint == opt_string_view(hint),
            r@.inner.location == (LocationView {
                file: match filename {
                    Some(f) => f@,
                    None => "<null filename>"@,
                },
                funcname: opt_string_view(funcname),
                line: lineno as u32,
                col: 0,
            }),
    {
        let level = match PgLogLevel::from_value(elevel) {
            Some(level) => level,
            None => PgLogLevel::ERROR,
        };
        let message = match message {
            Some(m) => m,
            None => "<null error message>".to_owned(),
        };
        let file = match filename {
            Some(f) => f,
            None => "<null filename>".to_owned(),
        };
        ErrorReportWithLevel {
            level,
            inner: ErrorReport {
                sqlerrcode: PgSqlErrorCode::from_code(sqlerrcode),
                message,
                detail,
                hint,
                location: ErrorReportLocation { file, funcname, line: lineno as u32, col: 0 },
            },
        }
    }
}

/// The location the panic hook records for a panic: the one the panic reported, or the
/// default location when it reported none.  Each panic replaces what was recorded.
pub fn hook_panic_location(reported: Option<ErrorReportLocation>) -> (r: Option<ErrorReportLocation>)
    ensures
        r matches Some(l) && l@ == panic_location_view(reported),
{
    Some(take_panic_location(reported))
}

} // verus!
