//! The catch handlers of a `PG_TRY`/`PG_CATCH`-style block, and which one handles a
//! caught error.
use crate::errcodes::PgSqlErrorCode;
use vstd::prelude::*;

verus! {

/// The handler registered for `code` in `by_code`: the latest registration wins.  Codes
/// are compared by their packed form, so `Other(c)` and the named code packed as `c`
/// are the same error.
pub open spec fn lookup<H>(by_code: Seq<(PgSqlErrorCode, H)>, code: PgSqlErrorCode) -> Option<H>
    decreases by_code.len(),
{
    if by_code.len() == 0 {
        None
    } else if by_code.last().0.spec_code() == code.spec_code() {
        Some(by_code.last().1)
    } else {
        lookup(by_code.drop_last(), code)
    }
}

/// What a set of catch handlers holds: the handlers by error code (in registration
/// order), the handler for any other error, and the handler for Rust panics.
pub struct CatchHandlersView<H> {
    pub by_code: Seq<(PgSqlErrorCode, H)>,
    pub others: Option<H>,
    pub rust: Option<H>,
}

/// The handler that takes a caught error with code `code`: the one registered for that
/// code; else the handler for other errors; else, for a Rust panic only, the panic
/// handler.  None means the error is rethrown.
pub open spec fn chosen_handler<H>(
    v: CatchHandlersView<H>,
    code: PgSqlErrorCode,
    is_rust_panic: bool,
) -> Option<H> {
    match lookup(v.by_code, code) {
        Some(h) => Some(h),
        None => match v.others {
            Some(h) => Some(h),
            None => if is_rust_panic {
                v.rust
            } else {
                None
            },
        },
    }
}

/// The catch handlers of a try block.
pub struct CatchHandlers<H> {
    by_code: Vec<(PgSqlErrorCode, H)>,
    others: Option<H>,
    rust: Option<H>,
}

impl<H> View for CatchHandlers<H> {
    type V = CatchHandlersView<H>;

    closed spec fn view(&self) -> CatchHandlersView<H> {
        CatchHandlersView { by_code: self.by_code@, others: self.others, rust: self.rust }
    }
}

impl<H> CatchHandlers<H> {
    /// No handlers: every error is rethrown.
    pub fn new() -> (r: Self)
        ensures
            r@.by_code == Seq::<(PgSqlErrorCode, H)>::empty(),
            r@.others is None,
            r@.rust is None,
    {
        CatchHandlers { by_code: Vec::new(), others: None, rust: None }
    }

    /// Handle errors with code `error` with `f` (replacing an earlier handler for it).
    pub fn catch_when(self, error: PgSqlErrorCode, f: H) -> (r: Self)
        ensures
            r@ == (CatchHandlersView { by_code: self@.by_code.push((error, f)), ..self@ }),
    {
        let mut s = self;
        s.by_code.push((error, f));
        s
    }

    /// Handle errors that no code-specific handler takes with `f`.
    pub fn catch_others(self, f: H) -> (r: Self)
        ensures
            r@ == (CatchHandlersView { others: Some(f), ..self@ }),
    {
        let mut s = self;
        s.others = Some(f);
        s
    }

    /// Handle Rust panics that no other handler takes with `f`.
    pub fn catch_rust_panic(self, f: H) -> (r: Self)
        ensures
            r@ == (CatchHandlersView { rust: Some(f), ..self@ }),
    {
        let mut s = self;
        s.rust = Some(f);
        s
    }

    /// Takes the handler for a caught error with code `code` (`is_rust_panic` by_code it
    /// is a Rust panic), or None by_code no handler takes it and it is to be rethrown.
    pub fn take_handler(self, code: PgSqlErrorCode, is_rust_panic: bool) -> (r: Option<H>)
        ensures
            r == chosen_handler(self@, code, is_rust_panic),
    {
        let CatchHandlers { mut by_code, others, rust } = self;
        let ghost all = by_code@;
        let mut i: usize = by_code.len();
        assert(all.take(i as int) =~= all);
        while i > 0
            invariant
                0 <= i <= by_code.len(),
                by_code@ == all,
                lookup(all, code) == lookup(all.take(i as int), code),
            ensures
                lookup(all, code) == lookup(all.take(i as int), code),
                i > 0 ==> by_code@[i - 1].0.spec_code() == code.spec_code(),
            decreases i,
        {
            if by_code[i - 1].0.code() == code.code() {
                break;
            }
            assert(all.take(i - 1) =~= all.take(i as int).drop_last());
            i = i - 1;
        }
        if i > 0 {
            assert(lookup(all.take(i as int), code) == Some(all[i - 1].1));
            let (_, h) = by_code.remove(i - 1);
            Some(h)
        } else {
            assert(all.take(0) =~= Seq::<(PgSqlErrorCode, H)>::empty());
            match others {
                Some(h) => Some(h),
                None => if is_rust_panic {
                    rust
                } else {
                    None
                },
            }
        }
    }
}

/// After `catch_when(code, f)`, an error with that code goes to `f`; errors with other
/// codes go where they went before.
pub proof fn lemma_catch_when_registers<H>(v: CatchHandlersView<H>, code: PgSqlErrorCode, f: H, other: PgSqlErrorCode, is_rust_panic: bool)
    ensures
        chosen_handler(CatchHandlersView { by_code: v.by_code.push((code, f)), ..v }, code, is_rust_panic) == Some(f),
        other.spec_code() != code.spec_code() ==> chosen_handler(CatchHandlersView { by_code: v.by_code.push((code, f)), ..v }, other, is_rust_panic)
            == chosen_handler(v, other, is_rust_panic),
{
    assert(v.by_code.push((code, f)).drop_last() =~= v.by_code);
}

/// With no registration for the code, `lookup` finds nothing.
proof fn lemma_lookup_unregistered<H>(by_code: Seq<(PgSqlErrorCode, H)>, code: PgSqlErrorCode)
    requires
        forall|j: int| 0 <= j < by_code.len() ==> (#[trigger] by_code[j]).0.spec_code() != code.spec_code(),
    ensures
        lookup(by_code, code) is None,
    decreases by_code.len(),
{
    if by_code.len() > 0 {
        assert(by_code.last() == by_code[by_code.len() - 1]);
        let rest = by_code.drop_last();
        assert forall|j: int| 0 <= j < rest.len() implies (#[trigger] rest[j]).0.spec_code()
            != code.spec_code() by {
            assert(rest[j] == by_code[j]);
        }
        lemma_lookup_unregistered(rest, code);
    }
}

/// `lookup` finds the handler of the latest registration for the code.
proof fn lemma_lookup_latest<H>(by_code: Seq<(PgSqlErrorCode, H)>, code: PgSqlErrorCode, i: int)
    requires
        0 <= i < by_code.len(),
        by_code[i].0.spec_code() == code.spec_code(),
        forall|j: int| i < j < by_code.len() ==> (#[trigger] by_code[j]).0.spec_code() != code.spec_code(),
    ensures
        lookup(by_code, code) == Some(by_code[i].1),
    decreases by_code.len(),
{
    assert(by_code.last() == by_code[by_code.len() - 1]);
    if i < by_code.len() - 1 {
        let rest = by_code.drop_last();
        assert(rest[i] == by_code[i]);
        assert forall|j: int| i < j < rest.len() implies (#[trigger] rest[j]).0.spec_code()
            != code.spec_code() by {
            assert(rest[j] == by_code[j]);
        }
        lemma_lookup_latest(rest, code, i);
    }
}

/// Which handler takes a caught error, in terms of what was registered.  When handlers
/// were registered for the error's code, the latest of them takes it, whatever else is
/// registered.  When none was, the `catch_others` handler takes it if there is one,
/// Rust panic or not; the Rust-panic handler takes it only when there is neither a
/// handler for the code nor a `catch_others` handler, and only if the error is a Rust
/// panic; otherwise no handler takes it and it is rethrown.
pub proof fn lemma_handler_priority<H>(
    v: CatchHandlersView<H>,
    code: PgSqlErrorCode,
    is_rust_panic: bool,
    i: int,
)
    ensures
        (0 <= i < v.by_code.len() && v.by_code[i].0.spec_code() == code.spec_code() && (forall|j: int|
            i < j < v.by_code.len() ==> (#[trigger] v.by_code[j]).0.spec_code() != code.spec_code()))
            ==> chosen_handler(v, code, is_rust_panic) == Some(v.by_code[i].1),
        (forall|j: int|
            0 <= j < v.by_code.len() ==> (#[trigger] v.by_code[j]).0.spec_code() != code.spec_code())
            ==> {
            &&& v.others is Some ==> chosen_handler(v, code, is_rust_panic) == v.others
            &&& (v.others is None && is_rust_panic) ==> chosen_handler(v, code, is_rust_panic)
                == v.rust
            &&& (v.others is None && !is_rust_panic) ==> chosen_handler(v, code, is_rust_panic)
                is None
        },
{
    if 0 <= i < v.by_code.len() && v.by_code[i].0.spec_code() == code.spec_code() && (forall|j: int|
        i < j < v.by_code.len() ==> (#[trigger] v.by_code[j]).0.spec_code() != code.spec_code()) {
        lemma_lookup_latest(v.by_code, code, i);
    }
    if forall|j: int|
        0 <= j < v.by_code.len() ==> (#[trigger] v.by_code[j]).0.spec_code() != code.spec_code() {
        lemma_lookup_unregistered(v.by_code, code);
    }
}

/// How a try block ended.
pub enum TryBlockEnd {
    /// The block returned a value.
    BodyReturned,
    /// The block raised an error and the handler chosen for it returned a value.
    HandlerReturned,
    /// The block raised an error, and the handler raised an error in turn, or no handler
    /// took the error and it was rethrown.
    HandlerRaised,
}

/// What is left to do once a try block has ended.
pub struct TryCleanup {
    /// Leave Postgres' error subsystem (`FlushErrorState`): the caught error was handled.
    pub flush_error_state: bool,
    /// Run the `finally` block.
    pub run_finally: bool,
    /// Resume unwinding with the error the handler raised, instead of returning.
    pub resume_unwind: bool,
}

/// The cleanup after a try block: the `finally` block runs exactly once however the
/// block ended; the error state is flushed only when a handler dealt with the error and
/// returned; and unwinding resumes only when the handler raised an error (or none took
/// it), after `finally` has run.
pub fn try_cleanup(end: TryBlockEnd) -> (r: TryCleanup)
    ensures
        r.run_finally,
        r.flush_error_state <==> end is HandlerReturned,
        r.resume_unwind <==> end is HandlerRaised,
{
    match end {
        TryBlockEnd::BodyReturned => TryCleanup {
            flush_error_state: false,
            run_finally: true,
            resume_unwind: false,
        },
        TryBlockEnd::HandlerReturned => TryCleanup {
            flush_error_state: true,
            run_finally: true,
            resume_unwind: false,
        },
        TryBlockEnd::HandlerRaised => TryCleanup {
            flush_error_state: false,
            run_finally: true,
            resume_unwind: true,
        },
    }
}

} // verus!
