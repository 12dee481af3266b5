//! Postgres message severity levels.
use vstd::prelude::*;

verus! {

/// The severity of a message reported through Postgres' `ereport()`.
#[derive(Copy, Clone, Eq, PartialEq, Structural, Hash, Debug)]
pub enum PgLogLevel {
    DEBUG5,
    DEBUG4,
    DEBUG3,
    DEBUG2,
    DEBUG1,
    LOG,
    LOG_SERVER_ONLY,
    INFO,
    NOTICE,
    WARNING,
    ERROR,
    FATAL,
    PANIC,
}

impl PgLogLevel {
    /// The number that Postgres uses for this level (`elog.h`, as of Postgres 12).
    pub open spec fn spec_value(self) -> i32 {
        match self {
            PgLogLevel::DEBUG5 => 10,
            PgLogLevel::DEBUG4 => 11,
            PgLogLevel::DEBUG3 => 12,
            PgLogLevel::DEBUG2 => 13,
            PgLogLevel::DEBUG1 => 14,
            PgLogLevel::LOG => 15,
            PgLogLevel::LOG_SERVER_ONLY => 16,
            PgLogLevel::INFO => 17,
            PgLogLevel::NOTICE => 18,
            PgLogLevel::WARNING => 19,
            PgLogLevel::ERROR => 20,
            PgLogLevel::FATAL => 21,
            PgLogLevel::PANIC => 22,
        }
    }

    /// The number that Postgres uses for this level.
    pub fn value(self) -> (r: i32)
        ensures
            r == self.spec_value(),
    {
        match self {
            PgLogLevel::DEBUG5 => 10,
            PgLogLevel::DEBUG4 => 11,
            PgLogLevel::DEBUG3 => 12,
            PgLogLevel::DEBUG2 => 13,
            PgLogLevel::DEBUG1 => 14,
            PgLogLevel::LOG => 15,
            PgLogLevel::LOG_SERVER_ONLY => 16,
            PgLogLevel::INFO => 17,
            PgLogLevel::NOTICE => 18,
            PgLogLevel::WARNING => 19,
            PgLogLevel::ERROR => 20,
            PgLogLevel::FATAL => 21,
            PgLogLevel::PANIC => 22,
        }
    }

    /// The level whose number is `level`, if there is one.
    pub fn from_value(level: i32) -> (r: Option<PgLogLevel>)
        ensures
            r matches Some(l) ==> l.spec_value() == level,
            r is None <==> (forall|l: PgLogLevel| #[trigger] l.spec_value() != level),
            forall|l: PgLogLevel| #[trigger] l.spec_value() == level ==> r == Some(l),
    {
        let r = match level {
            10 => Some(PgLogLevel::DEBUG5),
            11 => Some(PgLogLevel::DEBUG4),
            12 => Some(PgLogLevel::DEBUG3),
            13 => Some(PgLogLevel::DEBUG2),
            14 => Some(PgLogLevel::DEBUG1),
            15 => Some(PgLogLevel::LOG),
            16 => Some(PgLogLevel::LOG_SERVER_ONLY),
            17 => Some(PgLogLevel::INFO),
            18 => Some(PgLogLevel::NOTICE),
            19 => Some(PgLogLevel::WARNING),
            20 => Some(PgLogLevel::ERROR),
            21 => Some(PgLogLevel::FATAL),
            22 => Some(PgLogLevel::PANIC),
            _ => None,
        };
        proof {
            if let Some(l) = r {
                assert(l.spec_value() == level);
            }
        }
        r
    }

    /// True when a message at this level aborts the current transaction (or worse):
    /// `ERROR`, `FATAL` and `PANIC`.
    pub open spec fn spec_is_error(self) -> bool {
        self.spec_value() >= PgLogLevel::ERROR.spec_value()
    }

    /// True when this level is `ERROR` or above.
    pub fn is_error(self) -> (r: bool)
        ensures
            r == self.spec_is_error(),
    {
        self.value() >= PgLogLevel::ERROR.value()
    }
}

/// The numbers of the levels, as Postgres 12's `elog.h` defines them, in increasing
/// order of severity.
pub proof fn lemma_levels()
    ensures
        PgLogLevel::DEBUG5.spec_value() == 10,
        PgLogLevel::DEBUG4.spec_value() == 11,
        PgLogLevel::DEBUG3.spec_value() == 12,
        PgLogLevel::DEBUG2.spec_value() == 13,
        PgLogLevel::DEBUG1.spec_value() == 14,
        PgLogLevel::LOG.spec_value() == 15,
        PgLogLevel::LOG_SERVER_ONLY.spec_value() == 16,
        PgLogLevel::INFO.spec_value() == 17,
        PgLogLevel::NOTICE.spec_value() == 18,
        PgLogLevel::WARNING.spec_value() == 19,
        PgLogLevel::ERROR.spec_value() == 20,
        PgLogLevel::FATAL.spec_value() == 21,
        PgLogLevel::PANIC.spec_value() == 22,
        PgLogLevel::DEBUG5.spec_value() < PgLogLevel::DEBUG4.spec_value(),
        PgLogLevel::DEBUG4.spec_value() < PgLogLevel::DEBUG3.spec_value(),
        PgLogLevel::DEBUG3.spec_value() < PgLogLevel::DEBUG2.spec_value(),
        PgLogLevel::DEBUG2.spec_value() < PgLogLevel::DEBUG1.spec_value(),
        PgLogLevel::DEBUG1.spec_value() < PgLogLevel::LOG.spec_value(),
        PgLogLevel::LOG.spec_value() < PgLogLevel::LOG_SERVER_ONLY.spec_value(),
        PgLogLevel::LOG_SERVER_ONLY.spec_value() < PgLogLevel::INFO.spec_value(),
        PgLogLevel::INFO.spec_value() < PgLogLevel::NOTICE.spec_value(),
        PgLogLevel::NOTICE.spec_value() < PgLogLevel::WARNING.spec_value(),
        PgLogLevel::WARNING.spec_value() < PgLogLevel::ERROR.spec_value(),
        PgLogLevel::ERROR.spec_value() < PgLogLevel::FATAL.spec_value(),
        PgLogLevel::FATAL.spec_value() < PgLogLevel::PANIC.spec_value(),
{
}

/// The error levels are exactly `ERROR`, `FATAL` and `PANIC`: a report at any lesser
/// level (`INFO`, `NOTICE`, `WARNING`, `LOG`, the `DEBUG` levels) is only emitted, and
/// a level is an error level exactly when it is at least as severe as `ERROR`.
pub proof fn lemma_error_levels(l: PgLogLevel)
    ensures
        l.spec_is_error() <==> (l == PgLogLevel::ERROR || l == PgLogLevel::FATAL || l
            == PgLogLevel::PANIC),
        l.spec_is_error() <==> l.spec_value() >= PgLogLevel::ERROR.spec_value(),
        !PgLogLevel::INFO.spec_is_error(),
        !PgLogLevel::WARNING.spec_is_error(),
        !PgLogLevel::NOTICE.spec_is_error(),
        !PgLogLevel::LOG.spec_is_error(),
{
    lemma_levels();
}

} // verus!
