//! SQLSTATE error codes, packed the way Postgres' `MAKE_SQLSTATE` packs them.
use vstd::prelude::*;

verus! {

/// The six bits that `MAKE_SQLSTATE` keeps of one SQLSTATE character:
/// `(ch - '0') & 0x3F`, which is the same as taking the difference modulo 64.
pub open spec fn sixbit(ch: char) -> int {
    (ch as int - '0' as int) % 64
}

/// Postgres' `MAKE_SQLSTATE`: the five characters of a SQLSTATE, six bits each,
/// the first character in the lowest bits.
pub open spec fn make_sqlstate(s: Seq<char>) -> int {
    sixbit(s[0]) + sixbit(s[1]) * 64 + sixbit(s[2]) * 4096 + sixbit(s[3]) * 262144
        + sixbit(s[4]) * 16777216
}

/// A Postgres error code.  The named variants are the SQLSTATEs of `errcodes.txt` that
/// this library knows by name; `Other` holds any other packed code as it is.
#[derive(Copy, Clone, Eq, PartialEq, Structural, Hash, Debug)]
pub enum PgSqlErrorCode {
    ERRCODE_SUCCESSFUL_COMPLETION,
    ERRCODE_WARNING,
    ERRCODE_NO_DATA,
    ERRCODE_CONNECTION_EXCEPTION,
    ERRCODE_FEATURE_NOT_SUPPORTED,
    ERRCODE_CARDINALITY_VIOLATION,
    ERRCODE_DATA_EXCEPTION,
    ERRCODE_NUMERIC_VALUE_OUT_OF_RANGE,
    ERRCODE_NULL_VALUE_NOT_ALLOWED,
    ERRCODE_DIVISION_BY_ZERO,
    ERRCODE_INVALID_PARAMETER_VALUE,
    ERRCODE_INVALID_TEXT_REPRESENTATION,
    ERRCODE_INTEGRITY_CONSTRAINT_VIOLATION,
    ERRCODE_NOT_NULL_VIOLATION,
    ERRCODE_FOREIGN_KEY_VIOLATION,
    ERRCODE_UNIQUE_VIOLATION,
    ERRCODE_CHECK_VIOLATION,
    ERRCODE_INVALID_TRANSACTION_STATE,
    ERRCODE_INVALID_AUTHORIZATION_SPECIFICATION,
    ERRCODE_T_R_SERIALIZATION_FAILURE,
    ERRCODE_T_R_DEADLOCK_DETECTED,
    ERRCODE_SYNTAX_ERROR_OR_ACCESS_RULE_VIOLATION,
    ERRCODE_INSUFFICIENT_PRIVILEGE,
    ERRCODE_SYNTAX_ERROR,
    ERRCODE_UNDEFINED_COLUMN,
    ERRCODE_DATATYPE_MISMATCH,
    ERRCODE_UNDEFINED_FUNCTION,
    ERRCODE_UNDEFINED_TABLE,
    ERRCODE_INSUFFICIENT_RESOURCES,
    ERRCODE_OUT_OF_MEMORY,
    ERRCODE_PROGRAM_LIMIT_EXCEEDED,
    ERRCODE_OBJECT_NOT_IN_PREREQUISITE_STATE,
    ERRCODE_QUERY_CANCELED,
    ERRCODE_SYSTEM_ERROR,
    ERRCODE_RAISE_EXCEPTION,
    ERRCODE_INTERNAL_ERROR,
    ERRCODE_DATA_CORRUPTED,
    Other(i32),
}

impl PgSqlErrorCode {
    /// The five-character SQLSTATE of a named code.
    pub open spec fn spec_sqlstate(self) -> Seq<char> {
        match self {
            PgSqlErrorCode::ERRCODE_SUCCESSFUL_COMPLETION => seq!['0', '0', '0', '0', '0'],
            PgSqlErrorCode::ERRCODE_WARNING => seq!['0', '1', '0', '0', '0'],
            PgSqlErrorCode::ERRCODE_NO_DATA => seq!['0', '2', '0', '0', '0'],
            PgSqlErrorCode::ERRCODE_CONNECTION_EXCEPTION => seq!['0', '8', '0', '0', '0'],
            PgSqlErrorCode::ERRCODE_FEATURE_NOT_SUPPORTED => seq!['0', 'A', '0', '0', '0'],
            PgSqlErrorCode::ERRCODE_CARDINALITY_VIOLATION => seq!['2', '1', '0', '0', '0'],
            PgSqlErrorCode::ERRCODE_DATA_EXCEPTION => seq!['2', '2', '0', '0', '0'],
            PgSqlErrorCode::ERRCODE_NUMERIC_VALUE_OUT_OF_RANGE => seq!['2', '2', '0', '0', '3'],
            PgSqlErrorCode::ERRCODE_NULL_VALUE_NOT_ALLOWED => seq!['2', '2', '0', '0', '4'],
            PgSqlErrorCode::ERRCODE_DIVISION_BY_ZERO => seq!['2', '2', '0', '1', '2'],
            PgSqlErrorCode::ERRCODE_INVALID_PARAMETER_VALUE => seq!['2', '2', '0', '2', '3'],
            PgSqlErrorCode::ERRCODE_INVALID_TEXT_REPRESENTATION => seq!['2', '2', 'P', '0', '2'],
            PgSqlErrorCode::ERRCODE_INTEGRITY_CONSTRAINT_VIOLATION => seq!['2', '3', '0', '0', '0'],
            PgSqlErrorCode::ERRCODE_NOT_NULL_VIOLATION => seq!['2', '3', '5', '0', '2'],
            PgSqlErrorCode::ERRCODE_FOREIGN_KEY_VIOLATION => seq!['2', '3', '5', '0', '3'],
            PgSqlErrorCode::ERRCODE_UNIQUE_VIOLATION => seq!['2', '3', '5', '0', '5'],
            PgSqlErrorCode::ERRCODE_CHECK_VIOLATION => seq!['2', '3', '5', '1', '4'],
            PgSqlErrorCode::ERRCODE_INVALID_TRANSACTION_STATE => seq!['2', '5', '0', '0', '0'],
            PgSqlErrorCode::ERRCODE_INVALID_AUTHORIZATION_SPECIFICATION => seq!['2', '8', '0', '0', '0'],
            PgSqlErrorCode::ERRCODE_T_R_SERIALIZATION_FAILURE => seq!['4', '0', '0', '0', '1'],
            PgSqlErrorCode::ERRCODE_T_R_DEADLOCK_DETECTED => seq!['4', '0', 'P', '0', '1'],
            PgSqlErrorCode::ERRCODE_SYNTAX_ERROR_OR_ACCESS_RULE_VIOLATION => seq!['4', '2', '0', '0', '0'],
            PgSqlErrorCode::ERRCODE_INSUFFICIENT_PRIVILEGE => seq!['4', '2', '5', '0', '1'],
            PgSqlErrorCode::ERRCODE_SYNTAX_ERROR => seq!['4', '2', '6', '0', '1'],
            PgSqlErrorCode::ERRCODE_UNDEFINED_COLUMN => seq!['4', '2', '7', '0', '3'],
            PgSqlErrorCode::ERRCODE_DATATYPE_MISMATCH => seq!['4', '2', '8', '0', '4'],
            PgSqlErrorCode::ERRCODE_UNDEFINED_FUNCTION => seq!['4', '2', '8', '8', '3'],
            PgSqlErrorCode::ERRCODE_UNDEFINED_TABLE => seq!['4', '2', 'P', '0', '1'],
            PgSqlErrorCode::ERRCODE_INSUFFICIENT_RESOURCES => seq!['5', '3', '0', '0', '0'],
            PgSqlErrorCode::ERRCODE_OUT_OF_MEMORY => seq!['5', '3', '2', '0', '0'],
            PgSqlErrorCode::ERRCODE_PROGRAM_LIMIT_EXCEEDED => seq!['5', '4', '0', '0', '0'],
            PgSqlErrorCode::ERRCODE_OBJECT_NOT_IN_PREREQUISITE_STATE => seq!['5', '5', '0', '0', '0'],
            PgSqlErrorCode::ERRCODE_QUERY_CANCELED => seq!['5', '7', '0', '1', '4'],
            PgSqlErrorCode::ERRCODE_SYSTEM_ERROR => seq!['5', '8', '0', '0', '0'],
            PgSqlErrorCode::ERRCODE_RAISE_EXCEPTION => seq!['P', '0', '0', '0', '1'],
            PgSqlErrorCode::ERRCODE_INTERNAL_ERROR => seq!['X', 'X', '0', '0', '0'],
            PgSqlErrorCode::ERRCODE_DATA_CORRUPTED => seq!['X', 'X', '0', '0', '1'],
            PgSqlErrorCode::Other(_) => seq![],
        }
    }

    /// The packed code: `MAKE_SQLSTATE` of the SQLSTATE of a named variant, or the
    /// number that `Other` holds.
    pub open spec fn spec_code(self) -> i32 {
        match self {
            PgSqlErrorCode::Other(code) => code,
            _ => make_sqlstate(self.spec_sqlstate()) as i32,
        }
    }

    /// True when this value is in its one canonical form: `Other` never holds the code
    /// of a named variant.
    pub open spec fn is_canonical(self) -> bool {
        match self {
            PgSqlErrorCode::Other(code) => forall|e: PgSqlErrorCode|
                #![trigger e.spec_code()]
                !(e is Other) ==> e.spec_code() != code,
            _ => true,
        }
    }

    /// The packed code that Postgres stores in `ErrorData.sqlerrcode`.
    #[verifier::rlimit(50)]
    pub fn code(self) -> (r: i32)
        ensures
            r == self.spec_code(),
    {
        match self {
            PgSqlErrorCode::ERRCODE_SUCCESSFUL_COMPLETION => 0,
            PgSqlErrorCode::ERRCODE_WARNING => 64,
            PgSqlErrorCode::ERRCODE_NO_DATA => 128,
            PgSqlErrorCode::ERRCODE_CONNECTION_EXCEPTION => 512,
            PgSqlErrorCode::ERRCODE_FEATURE_NOT_SUPPORTED => 1088,
            PgSqlErrorCode::ERRCODE_CARDINALITY_VIOLATION => 66,
            PgSqlErrorCode::ERRCODE_DATA_EXCEPTION => 130,
            PgSqlErrorCode::ERRCODE_NUMERIC_VALUE_OUT_OF_RANGE => 50331778,
            PgSqlErrorCode::ERRCODE_NULL_VALUE_NOT_ALLOWED => 67108994,
            PgSqlErrorCode::ERRCODE_DIVISION_BY_ZERO => 33816706,
            PgSqlErrorCode::ERRCODE_INVALID_PARAMETER_VALUE => 50856066,
            PgSqlErrorCode::ERRCODE_INVALID_TEXT_REPRESENTATION => 33685634,
            PgSqlErrorCode::ERRCODE_INTEGRITY_CONSTRAINT_VIOLATION => 194,
            PgSqlErrorCode::ERRCODE_NOT_NULL_VIOLATION => 33575106,
            PgSqlErrorCode::ERRCODE_FOREIGN_KEY_VIOLATION => 50352322,
            PgSqlErrorCode::ERRCODE_UNIQUE_VIOLATION => 83906754,
            PgSqlErrorCode::ERRCODE_CHECK_VIOLATION => 67391682,
            PgSqlErrorCode::ERRCODE_INVALID_TRANSACTION_STATE => 322,
            PgSqlErrorCode::ERRCODE_INVALID_AUTHORIZATION_SPECIFICATION => 514,
            PgSqlErrorCode::ERRCODE_T_R_SERIALIZATION_FAILURE => 16777220,
            PgSqlErrorCode::ERRCODE_T_R_DEADLOCK_DETECTED => 16908292,
            PgSqlErrorCode::ERRCODE_SYNTAX_ERROR_OR_ACCESS_RULE_VIOLATION => 132,
            PgSqlErrorCode::ERRCODE_INSUFFICIENT_PRIVILEGE => 16797828,
            PgSqlErrorCode::ERRCODE_SYNTAX_ERROR => 16801924,
            PgSqlErrorCode::ERRCODE_UNDEFINED_COLUMN => 50360452,
            PgSqlErrorCode::ERRCODE_DATATYPE_MISMATCH => 67141764,
            PgSqlErrorCode::ERRCODE_UNDEFINED_FUNCTION => 52461700,
            PgSqlErrorCode::ERRCODE_UNDEFINED_TABLE => 16908420,
            PgSqlErrorCode::ERRCODE_INSUFFICIENT_RESOURCES => 197,
            PgSqlErrorCode::ERRCODE_OUT_OF_MEMORY => 8389,
            PgSqlErrorCode::ERRCODE_PROGRAM_LIMIT_EXCEEDED => 261,
            PgSqlErrorCode::ERRCODE_OBJECT_NOT_IN_PREREQUISITE_STATE => 325,
            PgSqlErrorCode::ERRCODE_QUERY_CANCELED => 67371461,
            PgSqlErrorCode::ERRCODE_SYSTEM_ERROR => 517,
            PgSqlErrorCode::ERRCODE_RAISE_EXCEPTION => 16777248,
            PgSqlErrorCode::ERRCODE_INTERNAL_ERROR => 2600,
            PgSqlErrorCode::ERRCODE_DATA_CORRUPTED => 16779816,
            PgSqlErrorCode::Other(code) => code,
        }
    }

    /// The error code whose packed form is `code`.
    #[verifier::rlimit(50)]
    pub fn from_code(code: i32) -> (r: PgSqlErrorCode)
        ensures
            r.spec_code() == code,
            r.is_canonical(),
    {
        let r = match code {
            0 => PgSqlErrorCode::ERRCODE_SUCCESSFUL_COMPLETION,
            64 => PgSqlErrorCode::ERRCODE_WARNING,
            128 => PgSqlErrorCode::ERRCODE_NO_DATA,
            512 => PgSqlErrorCode::ERRCODE_CONNECTION_EXCEPTION,
            1088 => PgSqlErrorCode::ERRCODE_FEATURE_NOT_SUPPORTED,
            66 => PgSqlErrorCode::ERRCODE_CARDINALITY_VIOLATION,
            130 => PgSqlErrorCode::ERRCODE_DATA_EXCEPTION,
            50331778 => PgSqlErrorCode::ERRCODE_NUMERIC_VALUE_OUT_OF_RANGE,
            67108994 => PgSqlErrorCode::ERRCODE_NULL_VALUE_NOT_ALLOWED,
            33816706 => PgSqlErrorCode::ERRCODE_DIVISION_BY_ZERO,
            50856066 => PgSqlErrorCode::ERRCODE_INVALID_PARAMETER_VALUE,
            33685634 => PgSqlErrorCode::ERRCODE_INVALID_TEXT_REPRESENTATION,
            194 => PgSqlErrorCode::ERRCODE_INTEGRITY_CONSTRAINT_VIOLATION,
            33575106 => PgSqlErrorCode::ERRCODE_NOT_NULL_VIOLATION,
            50352322 => PgSqlErrorCode::ERRCODE_FOREIGN_KEY_VIOLATION,
            83906754 => PgSqlErrorCode::ERRCODE_UNIQUE_VIOLATION,
            67391682 => PgSqlErrorCode::ERRCODE_CHECK_VIOLATION,
            322 => PgSqlErrorCode::ERRCODE_INVALID_TRANSACTION_STATE,
            514 => PgSqlErrorCode::ERRCODE_INVALID_AUTHORIZATION_SPECIFICATION,
            16777220 => PgSqlErrorCode::ERRCODE_T_R_SERIALIZATION_FAILURE,
            16908292 => PgSqlErrorCode::ERRCODE_T_R_DEADLOCK_DETECTED,
            132 => PgSqlErrorCode::ERRCODE_SYNTAX_ERROR_OR_ACCESS_RULE_VIOLATION,
            16797828 => PgSqlErrorCode::ERRCODE_INSUFFICIENT_PRIVILEGE,
            16801924 => PgSqlErrorCode::ERRCODE_SYNTAX_ERROR,
            50360452 => PgSqlErrorCode::ERRCODE_UNDEFINED_COLUMN,
            67141764 => PgSqlErrorCode::ERRCODE_DATATYPE_MISMATCH,
            52461700 => PgSqlErrorCode::ERRCODE_UNDEFINED_FUNCTION,
            16908420 => PgSqlErrorCode::ERRCODE_UNDEFINED_TABLE,
            197 => PgSqlErrorCode::ERRCODE_INSUFFICIENT_RESOURCES,
            8389 => PgSqlErrorCode::ERRCODE_OUT_OF_MEMORY,
            261 => PgSqlErrorCode::ERRCODE_PROGRAM_LIMIT_EXCEEDED,
            325 => PgSqlErrorCode::ERRCODE_OBJECT_NOT_IN_PREREQUISITE_STATE,
            67371461 => PgSqlErrorCode::ERRCODE_QUERY_CANCELED,
            517 => PgSqlErrorCode::ERRCODE_SYSTEM_ERROR,
            16777248 => PgSqlErrorCode::ERRCODE_RAISE_EXCEPTION,
            2600 => PgSqlErrorCode::ERRCODE_INTERNAL_ERROR,
            16779816 => PgSqlErrorCode::ERRCODE_DATA_CORRUPTED,
            _ => PgSqlErrorCode::Other(code),
        };
        r
    }
}

/// The named variant whose packed code is `code`, if there is one.
pub open spec fn named_from_code(code: i32) -> Option<PgSqlErrorCode> {
    match code {
        0 => Some(PgSqlErrorCode::ERRCODE_SUCCESSFUL_COMPLETION),
        64 => Some(PgSqlErrorCode::ERRCODE_WARNING),
        128 => Some(PgSqlErrorCode::ERRCODE_NO_DATA),
        512 => Some(PgSqlErrorCode::ERRCODE_CONNECTION_EXCEPTION),
        1088 => Some(PgSqlErrorCode::ERRCODE_FEATURE_NOT_SUPPORTED),
        66 => Some(PgSqlErrorCode::ERRCODE_CARDINALITY_VIOLATION),
        130 => Some(PgSqlErrorCode::ERRCODE_DATA_EXCEPTION),
        50331778 => Some(PgSqlErrorCode::ERRCODE_NUMERIC_VALUE_OUT_OF_RANGE),
        67108994 => Some(PgSqlErrorCode::ERRCODE_NULL_VALUE_NOT_ALLOWED),
        33816706 => Some(PgSqlErrorCode::ERRCODE_DIVISION_BY_ZERO),
        50856066 => Some(PgSqlErrorCode::ERRCODE_INVALID_PARAMETER_VALUE),
        33685634 => Some(PgSqlErrorCode::ERRCODE_INVALID_TEXT_REPRESENTATION),
        194 => Some(PgSqlErrorCode::ERRCODE_INTEGRITY_CONSTRAINT_VIOLATION),
        33575106 => Some(PgSqlErrorCode::ERRCODE_NOT_NULL_VIOLATION),
        50352322 => Some(PgSqlErrorCode::ERRCODE_FOREIGN_KEY_VIOLATION),
        83906754 => Some(PgSqlErrorCode::ERRCODE_UNIQUE_VIOLATION),
        67391682 => Some(PgSqlErrorCode::ERRCODE_CHECK_VIOLATION),
        322 => Some(PgSqlErrorCode::ERRCODE_INVALID_TRANSACTION_STATE),
        514 => Some(PgSqlErrorCode::ERRCODE_INVALID_AUTHORIZATION_SPECIFICATION),
        16777220 => Some(PgSqlErrorCode::ERRCODE_T_R_SERIALIZATION_FAILURE),
        16908292 => Some(PgSqlErrorCode::ERRCODE_T_R_DEADLOCK_DETECTED),
        132 => Some(PgSqlErrorCode::ERRCODE_SYNTAX_ERROR_OR_ACCESS_RULE_VIOLATION),
        16797828 => Some(PgSqlErrorCode::ERRCODE_INSUFFICIENT_PRIVILEGE),
        16801924 => Some(PgSqlErrorCode::ERRCODE_SYNTAX_ERROR),
        50360452 => Some(PgSqlErrorCode::ERRCODE_UNDEFINED_COLUMN),
        67141764 => Some(PgSqlErrorCode::ERRCODE_DATATYPE_MISMATCH),
        52461700 => Some(PgSqlErrorCode::ERRCODE_UNDEFINED_FUNCTION),
        16908420 => Some(PgSqlErrorCode::ERRCODE_UNDEFINED_TABLE),
        197 => Some(PgSqlErrorCode::ERRCODE_INSUFFICIENT_RESOURCES),
        8389 => Some(PgSqlErrorCode::ERRCODE_OUT_OF_MEMORY),
        261 => Some(PgSqlErrorCode::ERRCODE_PROGRAM_LIMIT_EXCEEDED),
        325 => Some(PgSqlErrorCode::ERRCODE_OBJECT_NOT_IN_PREREQUISITE_STATE),
        67371461 => Some(PgSqlErrorCode::ERRCODE_QUERY_CANCELED),
        517 => Some(PgSqlErrorCode::ERRCODE_SYSTEM_ERROR),
        16777248 => Some(PgSqlErrorCode::ERRCODE_RAISE_EXCEPTION),
        2600 => Some(PgSqlErrorCode::ERRCODE_INTERNAL_ERROR),
        16779816 => Some(PgSqlErrorCode::ERRCODE_DATA_CORRUPTED),
        _ => None,
    }
}

/// Each named variant is found again from its packed code.
proof fn lemma_named_from_code(e: PgSqlErrorCode)
    requires
        !(e is Other),
    ensures
        named_from_code(e.spec_code()) == Some(e),
{
    match e {
        PgSqlErrorCode::ERRCODE_SUCCESSFUL_COMPLETION => assert(PgSqlErrorCode::ERRCODE_SUCCESSFUL_COMPLETION.spec_code() == 0),
        PgSqlErrorCode::ERRCODE_WARNING => assert(PgSqlErrorCode::ERRCODE_WARNING.spec_code() == 64),
        PgSqlErrorCode::ERRCODE_NO_DATA => assert(PgSqlErrorCode::ERRCODE_NO_DATA.spec_code() == 128),
        PgSqlErrorCode::ERRCODE_CONNECTION_EXCEPTION => assert(PgSqlErrorCode::ERRCODE_CONNECTION_EXCEPTION.spec_code() == 512),
        PgSqlErrorCode::ERRCODE_FEATURE_NOT_SUPPORTED => assert(PgSqlErrorCode::ERRCODE_FEATURE_NOT_SUPPORTED.spec_code() == 1088),
        PgSqlErrorCode::ERRCODE_CARDINALITY_VIOLATION => assert(PgSqlErrorCode::ERRCODE_CARDINALITY_VIOLATION.spec_code() == 66),
        PgSqlErrorCode::ERRCODE_DATA_EXCEPTION => assert(PgSqlErrorCode::ERRCODE_DATA_EXCEPTION.spec_code() == 130),
        PgSqlErrorCode::ERRCODE_NUMERIC_VALUE_OUT_OF_RANGE => assert(PgSqlErrorCode::ERRCODE_NUMERIC_VALUE_OUT_OF_RANGE.spec_code() == 50331778),
        PgSqlErrorCode::ERRCODE_NULL_VALUE_NOT_ALLOWED => assert(PgSqlErrorCode::ERRCODE_NULL_VALUE_NOT_ALLOWED.spec_code() == 67108994),
        PgSqlErrorCode::ERRCODE_DIVISION_BY_ZERO => assert(PgSqlErrorCode::ERRCODE_DIVISION_BY_ZERO.spec_code() == 33816706),
        PgSqlErrorCode::ERRCODE_INVALID_PARAMETER_VALUE => assert(PgSqlErrorCode::ERRCODE_INVALID_PARAMETER_VALUE.spec_code() == 50856066),
        PgSqlErrorCode::ERRCODE_INVALID_TEXT_REPRESENTATION => assert(PgSqlErrorCode::ERRCODE_INVALID_TEXT_REPRESENTATION.spec_code() == 33685634),
        PgSqlErrorCode::ERRCODE_INTEGRITY_CONSTRAINT_VIOLATION => assert(PgSqlErrorCode::ERRCODE_INTEGRITY_CONSTRAINT_VIOLATION.spec_code() == 194),
        PgSqlErrorCode::ERRCODE_NOT_NULL_VIOLATION => assert(PgSqlErrorCode::ERRCODE_NOT_NULL_VIOLATION.spec_code() == 33575106),
        PgSqlErrorCode::ERRCODE_FOREIGN_KEY_VIOLATION => assert(PgSqlErrorCode::ERRCODE_FOREIGN_KEY_VIOLATION.spec_code() == 50352322),
        PgSqlErrorCode::ERRCODE_UNIQUE_VIOLATION => assert(PgSqlErrorCode::ERRCODE_UNIQUE_VIOLATION.spec_code() == 83906754),
        PgSqlErrorCode::ERRCODE_CHECK_VIOLATION => assert(PgSqlErrorCode::ERRCODE_CHECK_VIOLATION.spec_code() == 67391682),
        PgSqlErrorCode::ERRCODE_INVALID_TRANSACTION_STATE => assert(PgSqlErrorCode::ERRCODE_INVALID_TRANSACTION_STATE.spec_code() == 322),
        PgSqlErrorCode::ERRCODE_INVALID_AUTHORIZATION_SPECIFICATION => assert(PgSqlErrorCode::ERRCODE_INVALID_AUTHORIZATION_SPECIFICATION.spec_code() == 514),
        PgSqlErrorCode::ERRCODE_T_R_SERIALIZATION_FAILURE => assert(PgSqlErrorCode::ERRCODE_T_R_SERIALIZATION_FAILURE.spec_code() == 16777220),
        PgSqlErrorCode::ERRCODE_T_R_DEADLOCK_DETECTED => assert(PgSqlErrorCode::ERRCODE_T_R_DEADLOCK_DETECTED.spec_code() == 16908292),
        PgSqlErrorCode::ERRCODE_SYNTAX_ERROR_OR_ACCESS_RULE_VIOLATION => assert(PgSqlErrorCode::ERRCODE_SYNTAX_ERROR_OR_ACCESS_RULE_VIOLATION.spec_code() == 132),
        PgSqlErrorCode::ERRCODE_INSUFFICIENT_PRIVILEGE => assert(PgSqlErrorCode::ERRCODE_INSUFFICIENT_PRIVILEGE.spec_code() == 16797828),
        PgSqlErrorCode::ERRCODE_SYNTAX_ERROR => assert(PgSqlErrorCode::ERRCODE_SYNTAX_ERROR.spec_code() == 16801924),
        PgSqlErrorCode::ERRCODE_UNDEFINED_COLUMN => assert(PgSqlErrorCode::ERRCODE_UNDEFINED_COLUMN.spec_code() == 50360452),
        PgSqlErrorCode::ERRCODE_DATATYPE_MISMATCH => assert(PgSqlErrorCode::ERRCODE_DATATYPE_MISMATCH.spec_code() == 67141764),
        PgSqlErrorCode::ERRCODE_UNDEFINED_FUNCTION => assert(PgSqlErrorCode::ERRCODE_UNDEFINED_FUNCTION.spec_code() == 52461700),
        PgSqlErrorCode::ERRCODE_UNDEFINED_TABLE => assert(PgSqlErrorCode::ERRCODE_UNDEFINED_TABLE.spec_code() == 16908420),
        PgSqlErrorCode::ERRCODE_INSUFFICIENT_RESOURCES => assert(PgSqlErrorCode::ERRCODE_INSUFFICIENT_RESOURCES.spec_code() == 197),
        PgSqlErrorCode::ERRCODE_OUT_OF_MEMORY => assert(PgSqlErrorCode::ERRCODE_OUT_OF_MEMORY.spec_code() == 8389),
        PgSqlErrorCode::ERRCODE_PROGRAM_LIMIT_EXCEEDED => assert(PgSqlErrorCode::ERRCODE_PROGRAM_LIMIT_EXCEEDED.spec_code() == 261),
        PgSqlErrorCode::ERRCODE_OBJECT_NOT_IN_PREREQUISITE_STATE => assert(PgSqlErrorCode::ERRCODE_OBJECT_NOT_IN_PREREQUISITE_STATE.spec_code() == 325),
        PgSqlErrorCode::ERRCODE_QUERY_CANCELED => assert(PgSqlErrorCode::ERRCODE_QUERY_CANCELED.spec_code() == 67371461),
        PgSqlErrorCode::ERRCODE_SYSTEM_ERROR => assert(PgSqlErrorCode::ERRCODE_SYSTEM_ERROR.spec_code() == 517),
        PgSqlErrorCode::ERRCODE_RAISE_EXCEPTION => assert(PgSqlErrorCode::ERRCODE_RAISE_EXCEPTION.spec_code() == 16777248),
        PgSqlErrorCode::ERRCODE_INTERNAL_ERROR => assert(PgSqlErrorCode::ERRCODE_INTERNAL_ERROR.spec_code() == 2600),
        PgSqlErrorCode::ERRCODE_DATA_CORRUPTED => assert(PgSqlErrorCode::ERRCODE_DATA_CORRUPTED.spec_code() == 16779816),
        PgSqlErrorCode::Other(_) => {},
    }
}

/// Named variants have distinct codes: a canonical error code is the only canonical
/// value with its packed code.  So `from_code(e.code()) == e` for every canonical `e`
/// (and `from_code(c).code() == c` for every `c`).
pub proof fn lemma_code_injective(e: PgSqlErrorCode, f: PgSqlErrorCode)
    requires
        e.is_canonical(),
        f.is_canonical(),
        e.spec_code() == f.spec_code(),
    ensures
        e == f,
{
    if !(e is Other) && !(f is Other) {
        lemma_named_from_code(e);
        lemma_named_from_code(f);
    }
}

} // verus!
