use pgx_pg_sys::elog::PgLogLevel;
use pgx_pg_sys::errcodes::PgSqlErrorCode;
use pgx_pg_sys::oids::{InvalidOid, PgBuiltInOids, PgOid};

#[test]
fn pgoid_from_invalid() {
    assert_eq!(PgOid::from(InvalidOid), PgOid::InvalidOid);
    assert_eq!(PgOid::InvalidOid.value(), 0);
}

#[test]
fn pgoid_from_builtin() {
    assert_eq!(PgOid::from(23), PgOid::BuiltIn(PgBuiltInOids::INT4OID));
    assert_eq!(PgOid::from(16), PgOid::BuiltIn(PgBuiltInOids::BOOLOID));
    assert_eq!(PgOid::from(3802), PgOid::BuiltIn(PgBuiltInOids::JSONBOID));
}

#[test]
fn pgoid_from_custom() {
    assert_eq!(PgOid::from(99999), PgOid::Custom(99999));
    assert_eq!(PgOid::from(1), PgOid::Custom(1));
}

#[test]
fn pgoid_value_roundtrip() {
    for oid in [0u32, 1, 16, 25, 700, 2950, 16384, 99999, u32::MAX] {
        assert_eq!(PgOid::from(oid).value(), oid);
    }
}

#[test]
fn builtin_oid_values() {
    assert_eq!(PgBuiltInOids::BOOLOID.value(), 16);
    assert_eq!(PgBuiltInOids::TEXTOID.value(), 25);
    assert_eq!(PgBuiltInOids::FLOAT8OID.value(), 701);
    assert_eq!(PgBuiltInOids::UUIDOID.value(), 2950);
    assert_eq!(PgBuiltInOids::BOOLOID.oid(), PgOid::BuiltIn(PgBuiltInOids::BOOLOID));
}

#[test]
fn builtin_oid_lookup() {
    assert_eq!(PgBuiltInOids::from(25), Some(PgBuiltInOids::TEXTOID));
    assert_eq!(PgBuiltInOids::from(1184), Some(PgBuiltInOids::TIMESTAMPTZOID));
    assert_eq!(PgBuiltInOids::from(0), None);
    assert_eq!(PgBuiltInOids::from(12345), None);
    assert_eq!(PgBuiltInOids::from(PgBuiltInOids::INT8RANGEOID.value()), Some(PgBuiltInOids::INT8RANGEOID));
}

#[test]
fn sqlstate_codes_are_packed() {
    assert_eq!(PgSqlErrorCode::ERRCODE_SUCCESSFUL_COMPLETION.code(), 0);
    assert_eq!(PgSqlErrorCode::ERRCODE_INTERNAL_ERROR.code(), 2600);
    // '2','2','0','1','2' -> 2 + 2*64 + 0 + 1*64^3 + 2*64^4
    assert_eq!(PgSqlErrorCode::ERRCODE_DIVISION_BY_ZERO.code(), 2 + 2 * 64 + 262144 + 2 * 16777216);
    // 'P' - '0' = 32
    assert_eq!(PgSqlErrorCode::ERRCODE_RAISE_EXCEPTION.code(), 32 + 16777216);
}

#[test]
fn sqlstate_from_code() {
    assert_eq!(PgSqlErrorCode::from_code(2600), PgSqlErrorCode::ERRCODE_INTERNAL_ERROR);
    assert_eq!(PgSqlErrorCode::from_code(0), PgSqlErrorCode::ERRCODE_SUCCESSFUL_COMPLETION);
    assert_eq!(PgSqlErrorCode::from_code(12345), PgSqlErrorCode::Other(12345));
    let named = [
        PgSqlErrorCode::ERRCODE_UNIQUE_VIOLATION,
        PgSqlErrorCode::ERRCODE_T_R_DEADLOCK_DETECTED,
        PgSqlErrorCode::ERRCODE_QUERY_CANCELED,
        PgSqlErrorCode::ERRCODE_DATA_CORRUPTED,
    ];
    for e in named {
        assert_eq!(PgSqlErrorCode::from_code(e.code()), e);
    }
}

#[test]
fn log_levels() {
    assert_eq!(PgLogLevel::DEBUG5.value(), 10);
    assert_eq!(PgLogLevel::ERROR.value(), 20);
    assert_eq!(PgLogLevel::PANIC.value(), 22);
    assert!(!PgLogLevel::WARNING.is_error());
    assert!(!PgLogLevel::LOG.is_error());
    assert!(PgLogLevel::ERROR.is_error());
    assert!(PgLogLevel::FATAL.is_error());
    assert_eq!(PgLogLevel::from_value(19), Some(PgLogLevel::WARNING));
    assert_eq!(PgLogLevel::from_value(99), None);
}

#[test]
fn builtin_array_oids() {
    assert_eq!(PgOid::from(1000), PgOid::BuiltIn(PgBuiltInOids::BOOLARRAYOID));
    assert_eq!(PgOid::from(1007), PgOid::BuiltIn(PgBuiltInOids::INT4ARRAYOID));
    assert_eq!(PgBuiltInOids::JSONBARRAYOID.value(), 3807);
    assert_eq!(PgBuiltInOids::from(2287), Some(PgBuiltInOids::RECORDARRAYOID));
    assert_eq!(PgOid::from(3220), PgOid::BuiltIn(PgBuiltInOids::LSNOID));
}
