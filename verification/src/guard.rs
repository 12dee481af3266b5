//! The first generation of panic guarding: panics are turned into `ERROR`s with a
//! text message, and Postgres errors are rethrown by Postgres.
use crate::elog::PgLogLevel;
use crate::errcodes::PgSqlErrorCode;
use crate::fmt::{decimal, push_decimal};
use vstd::prelude::*;

verus! {

/// Marks a Postgres error that was caught by a long jump and is to be rethrown.
#[derive(Clone, Debug)]
pub struct JumpContext {}

/// A panic raised with its own message and source location.
#[derive(Debug, Clone, Copy)]
pub struct PgxPanic {
    pub message: &'static str,
    pub filename: &'static str,
    pub lineno: u32,
    pub colno: u32,
}

impl PgxPanic {
    pub fn new(message: &'static str, filename: &'static str, lineno: u32, colno: u32) -> (r: Self)
        ensures
            r == (PgxPanic { message, filename, lineno, colno }),
    {
        PgxPanic { message, filename, lineno, colno }
    }

    /// `message at filename:lineno:colno`.
    pub open spec fn spec_text(self) -> Seq<char> {
        self.message@ + " at "@ + self.filename@ + seq![':'] + decimal(self.lineno as nat) + seq![
            ':',
        ] + decimal(self.colno as nat)
    }

    /// `message at filename:lineno:colno`, as `format!("{message} at {filename}:{lineno}:{colno}")`
    /// writes it.
    pub fn text(&self) -> (r: String)
        ensures
            r@ == self.spec_text(),
    {
        let mut r = self.message.to_owned();
        r.append(" at ");
        r.append(self.filename);
        r.append(":");
        push_decimal(&mut r, self.lineno);
        r.append(":");
        push_decimal(&mut r, self.colno);
        proof {
            reveal_strlit(":");
        }
        assert(r@ =~= self.spec_text());
        r
    }
}

/// How a panic's text is laid out: the message, then ` at ` (a space, `a`, `t`, a
/// space), then the file name, a colon, the line in decimal, a colon and the column in
/// decimal, with nothing before or after.
pub proof fn lemma_panic_text_layout(p: PgxPanic)
    ensures
        ({
            let t = p.spec_text();
            let m = p.message@.len() as int;
            let f = p.filename@.len() as int;
            let line = decimal(p.lineno as nat);
            let ln = line.len() as int;
            let col = decimal(p.colno as nat);
            &&& t.len() == m + 4 + f + 1 + ln + 1 + col.len()
            &&& t.take(m) == p.message@
            &&& t.subrange(m, m + 4) == seq![' ', 'a', 't', ' ']
            &&& t.subrange(m + 4, m + 4 + f) == p.filename@
            &&& t[m + 4 + f] == ':'
            &&& t.subrange(m + 5 + f, m + 5 + f + ln) == line
            &&& t[m + 5 + f + ln] == ':'
            &&& t.skip(m + 6 + f + ln) == col
        }),
{
    reveal_strlit(" at ");
    let t = p.spec_text();
    let m = p.message@.len() as int;
    let f = p.filename@.len() as int;
    let line = decimal(p.lineno as nat);
    let ln = line.len() as int;
    let col = decimal(p.colno as nat);
    assert(t =~= p.message@ + seq![' ', 'a', 't', ' '] + p.filename@ + seq![':'] + line + seq![':']
        + col);
    assert(t.take(m) =~= p.message@);
    assert(t.subrange(m, m + 4) =~= seq![' ', 'a', 't', ' ']);
    assert(t.subrange(m + 4, m + 4 + f) =~= p.filename@);
    assert(t.subrange(m + 5 + f, m + 5 + f + ln) =~= line);
    assert(t.skip(m + 6 + f + ln) =~= col);
}

/// The source location of a panic.
pub struct PanicLocation {
    pub file: String,
    pub line: u32,
    pub col: u32,
}

/// The recorded location, or file `<unknown>` at line and column 0 when none was recorded.
pub fn take_panic_location(stored: Option<PanicLocation>) -> (r: PanicLocation)
    ensures
        match stored {
            Some(l) => r == l,
            None => r.file@ == "<unknown>"@ && r.line == 0 && r.col == 0,
        },
{
    match stored {
        Some(location) => location,
        None => PanicLocation { file: "<unknown>".to_owned(), line: 0, col: 0 },
    }
}

/// The location the panic hook records: the first one reported stays until it is taken.
pub fn hook_panic_location(existing: Option<PanicLocation>, reported: Option<PanicLocation>) -> (r:
    Option<PanicLocation>)
    ensures
        r == (if existing is None { reported } else { existing }),
{
    if existing.is_none() {
        reported
    } else {
        existing
    }
}

/// What a caught panic carried, sorted by the types that are understood.
pub enum GuardPayload {
    /// A Postgres error caught by a long jump.
    Jump(JumpContext),
    /// A panic with a text message (a `&str` or a `String`).
    Message(String),
    /// A [`PgxPanic`].
    Pgx(PgxPanic),
    /// A payload of any other type.
    Unknown,
}

/// Convert a panic payload into either the message of the `ERROR` to raise (`Ok`) or
/// the Postgres error to rethrow (`Err`): text is kept as it is, a [`PgxPanic`] reads
/// `message at filename:lineno:colno`, and any other payload `Box<Any>`.
pub fn downcast_err(e: GuardPayload) -> (r: Result<String, JumpContext>)
    ensures
        match e {
            GuardPayload::Jump(c) => r == Err::<String, _>(c),
            GuardPayload::Message(m) => r matches Ok(s) && s@ == m@,
            GuardPayload::Pgx(p) => r matches Ok(s) && s@ == p.spec_text(),
            GuardPayload::Unknown => r matches Ok(s) && s@ == "Box<Any>"@,
        },
{
    match e {
        GuardPayload::Jump(cxt) => Err(cxt),
        GuardPayload::Message(s) => Ok(s),
        GuardPayload::Pgx(p) => Ok(p.text()),
        GuardPayload::Unknown => Ok("Box<Any>".to_owned()),
    }
}

/// How a caught error is rethrown into Postgres.
pub enum Rethrow {
    /// Raise an `ERROR` through `pgx_ereport(level, code, message, file, lineno, colno)`.
    Report { level: i32, code: i32, message: String, file: String, lineno: i32, colno: i32 },
    /// Ask Postgres to rethrow its own error.
    PgReThrow,
}

/// How `catch_guard` rethrows a caught error: a panic message is raised as an internal
/// `ERROR` at the location the panic hook recorded (`stored`, read only in that case),
/// and a Postgres error is rethrown by Postgres.
pub fn catch_guard(error: Result<String, JumpContext>, stored: Option<PanicLocation>) -> (r: Rethrow)
    ensures
        match error {
            Ok(message) => r matches Rethrow::Report { level, code, message: m, file, lineno, colno }
                && level == PgLogLevel::ERROR.spec_value() && code
                == PgSqlErrorCode::ERRCODE_INTERNAL_ERROR.spec_code() && m@ == message@ && (
            match stored {
                Some(l) => file@ == l.file@ && lineno == l.line as i32 && colno == l.col as i32,
                None => file@ == "<unknown>"@ && lineno == 0 && colno == 0,
            }),
            Err(_) => r is PgReThrow,
        },
{
    match error {
        Ok(message) => {
            let location = take_panic_location(stored);
            Rethrow::Report {
                level: PgLogLevel::ERROR.value(),
                code: PgSqlErrorCode::ERRCODE_INTERNAL_ERROR.code(),
                message,
                file: location.file,
                lineno: location.line as i32,
                colno: location.col as i32,
            }
        },
        Err(_) => Rethrow::PgReThrow,
    }
}

} // verus!
