//! Object identifiers: the raw `Oid` word, the table of built-in type OIDs,
//! and `PgOid`, which tells the invalid, built-in and custom OIDs apart.
use vstd::prelude::*;

verus! {

/// A Postgres object identifier.
pub type Oid = u32;

/// The object identifier that names no object.
pub const InvalidOid: Oid = 0;

/// The built-in type OIDs of Postgres 12 (`pg_type.h`): each base and pseudo type,
/// and the array type of each.
#[derive(Copy, Clone, Eq, PartialEq, Structural, Hash, Ord, PartialOrd, Debug)]
pub enum PgBuiltInOids {
    BOOLOID,
    BYTEAOID,
    CHAROID,
    NAMEOID,
    INT8OID,
    INT2OID,
    INT2VECTOROID,
    INT4OID,
    REGPROCOID,
    TEXTOID,
    OIDOID,
    TIDOID,
    XIDOID,
    CIDOID,
    OIDVECTOROID,
    PGDDLCOMMANDOID,
    JSONOID,
    XMLOID,
    XMLARRAYOID,
    PGNODETREEOID,
    JSONARRAYOID,
    TABLE_AM_HANDLEROID,
    INDEX_AM_HANDLEROID,
    POINTOID,
    LSEGOID,
    PATHOID,
    BOXOID,
    POLYGONOID,
    LINEOID,
    LINEARRAYOID,
    CIDROID,
    CIDRARRAYOID,
    FLOAT4OID,
    FLOAT8OID,
    UNKNOWNOID,
    CIRCLEOID,
    CIRCLEARRAYOID,
    MACADDR8OID,
    MACADDR8ARRAYOID,
    CASHOID,
    CASHARRAYOID,
    MACADDROID,
    INETOID,
    BOOLARRAYOID,
    BYTEAARRAYOID,
    CHARARRAYOID,
    NAMEARRAYOID,
    INT2ARRAYOID,
    INT2VECTORARRAYOID,
    INT4ARRAYOID,
    REGPROCARRAYOID,
    TEXTARRAYOID,
    TIDARRAYOID,
    XIDARRAYOID,
    CIDARRAYOID,
    OIDVECTORARRAYOID,
    BPCHARARRAYOID,
    VARCHARARRAYOID,
    INT8ARRAYOID,
    POINTARRAYOID,
    LSEGARRAYOID,
    PATHARRAYOID,
    BOXARRAYOID,
    FLOAT4ARRAYOID,
    FLOAT8ARRAYOID,
    POLYGONARRAYOID,
    OIDARRAYOID,
    ACLITEMOID,
    ACLITEMARRAYOID,
    MACADDRARRAYOID,
    INETARRAYOID,
    BPCHAROID,
    VARCHAROID,
    DATEOID,
    TIMEOID,
    TIMESTAMPOID,
    TIMESTAMPARRAYOID,
    DATEARRAYOID,
    TIMEARRAYOID,
    TIMESTAMPTZOID,
    TIMESTAMPTZARRAYOID,
    INTERVALOID,
    INTERVALARRAYOID,
    NUMERICARRAYOID,
    CSTRINGARRAYOID,
    TIMETZOID,
    TIMETZARRAYOID,
    BITOID,
    BITARRAYOID,
    VARBITOID,
    VARBITARRAYOID,
    NUMERICOID,
    REFCURSOROID,
    REFCURSORARRAYOID,
    REGPROCEDUREOID,
    REGOPEROID,
    REGOPERATOROID,
    REGCLASSOID,
    REGTYPEOID,
    REGPROCEDUREARRAYOID,
    REGOPERARRAYOID,
    REGOPERATORARRAYOID,
    REGCLASSARRAYOID,
    REGTYPEARRAYOID,
    RECORDOID,
    CSTRINGOID,
    ANYOID,
    ANYARRAYOID,
    VOIDOID,
    TRIGGEROID,
    LANGUAGE_HANDLEROID,
    INTERNALOID,
    OPAQUEOID,
    ANYELEMENTOID,
    RECORDARRAYOID,
    ANYNONARRAYOID,
    TXID_SNAPSHOTARRAYOID,
    UUIDOID,
    UUIDARRAYOID,
    TXID_SNAPSHOTOID,
    FDW_HANDLEROID,
    LSNOID,
    LSNARRAYOID,
    TSM_HANDLEROID,
    PGNDISTINCTOID,
    PGDEPENDENCIESOID,
    ANYENUMOID,
    TSVECTOROID,
    TSQUERYOID,
    GTSVECTOROID,
    TSVECTORARRAYOID,
    GTSVECTORARRAYOID,
    TSQUERYARRAYOID,
    REGCONFIGOID,
    REGCONFIGARRAYOID,
    REGDICTIONARYOID,
    REGDICTIONARYARRAYOID,
    JSONBOID,
    JSONBARRAYOID,
    ANYRANGEOID,
    EVTTRIGGEROID,
    INT4RANGEOID,
    INT4RANGEARRAYOID,
    NUMRANGEOID,
    NUMRANGEARRAYOID,
    TSRANGEOID,
    TSRANGEARRAYOID,
    TSTZRANGEOID,
    TSTZRANGEARRAYOID,
    DATERANGEOID,
    DATERANGEARRAYOID,
    INT8RANGEOID,
    INT8RANGEARRAYOID,
    JSONPATHOID,
    JSONPATHARRAYOID,
    REGNAMESPACEOID,
    REGNAMESPACEARRAYOID,
    REGROLEOID,
    REGROLEARRAYOID,
    PGMCVLISTOID,
}

impl PgBuiltInOids {
    /// The OID that Postgres assigns to this built-in type.
    pub open spec fn spec_value(self) -> Oid {
        match self {
            PgBuiltInOids::BOOLOID => 16,
            PgBuiltInOids::BYTEAOID => 17,
            PgBuiltInOids::CHAROID => 18,
            PgBuiltInOids::NAMEOID => 19,
            PgBuiltInOids::INT8OID => 20,
            PgBuiltInOids::INT2OID => 21,
            PgBuiltInOids::INT2VECTOROID => 22,
            PgBuiltInOids::INT4OID => 23,
            PgBuiltInOids::REGPROCOID => 24,
            PgBuiltInOids::TEXTOID => 25,
            PgBuiltInOids::OIDOID => 26,
            PgBuiltInOids::TIDOID => 27,
            PgBuiltInOids::XIDOID => 28,
            PgBuiltInOids::CIDOID => 29,
            PgBuiltInOids::OIDVECTOROID => 30,
            PgBuiltInOids::PGDDLCOMMANDOID => 32,
            PgBuiltInOids::JSONOID => 114,
            PgBuiltInOids::XMLOID => 142,
            PgBuiltInOids::XMLARRAYOID => 143,
            PgBuiltInOids::PGNODETREEOID => 194,
            PgBuiltInOids::JSONARRAYOID => 199,
            PgBuiltInOids::TABLE_AM_HANDLEROID => 269,
            PgBuiltInOids::INDEX_AM_HANDLEROID => 325,
            PgBuiltInOids::POINTOID => 600,
            PgBuiltInOids::LSEGOID => 601,
            PgBuiltInOids::PATHOID => 602,
            PgBuiltInOids::BOXOID => 603,
            PgBuiltInOids::POLYGONOID => 604,
            PgBuiltInOids::LINEOID => 628,
            PgBuiltInOids::LINEARRAYOID => 629,
            PgBuiltInOids::CIDROID => 650,
            PgBuiltInOids::CIDRARRAYOID => 651,
            PgBuiltInOids::FLOAT4OID => 700,
            PgBuiltInOids::FLOAT8OID => 701,
            PgBuiltInOids::UNKNOWNOID => 705,
            PgBuiltInOids::CIRCLEOID => 718,
            PgBuiltInOids::CIRCLEARRAYOID => 719,
            PgBuiltInOids::MACADDR8OID => 774,
            PgBuiltInOids::MACADDR8ARRAYOID => 775,
            PgBuiltInOids::CASHOID => 790,
            PgBuiltInOids::CASHARRAYOID => 791,
            PgBuiltInOids::MACADDROID => 829,
            PgBuiltInOids::INETOID => 869,
            PgBuiltInOids::BOOLARRAYOID => 1000,
            PgBuiltInOids::BYTEAARRAYOID => 1001,
            PgBuiltInOids::CHARARRAYOID => 1002,
            PgBuiltInOids::NAMEARRAYOID => 1003,
            PgBuiltInOids::INT2ARRAYOID => 1005,
            PgBuiltInOids::INT2VECTORARRAYOID => 1006,
            PgBuiltInOids::INT4ARRAYOID => 1007,
            PgBuiltInOids::REGPROCARRAYOID => 1008,
            PgBuiltInOids::TEXTARRAYOID => 1009,
            PgBuiltInOids::TIDARRAYOID => 1010,
            PgBuiltInOids::XIDARRAYOID => 1011,
            PgBuiltInOids::CIDARRAYOID => 1012,
            PgBuiltInOids::OIDVECTORARRAYOID => 1013,
            PgBuiltInOids::BPCHARARRAYOID => 1014,
            PgBuiltInOids::VARCHARARRAYOID => 1015,
            PgBuiltInOids::INT8ARRAYOID => 1016,
            PgBuiltInOids::POINTARRAYOID => 1017,
            PgBuiltInOids::LSEGARRAYOID => 1018,
            PgBuiltInOids::PATHARRAYOID => 1019,
            PgBuiltInOids::BOXARRAYOID => 1020,
            PgBuiltInOids::FLOAT4ARRAYOID => 1021,
            PgBuiltInOids::FLOAT8ARRAYOID => 1022,
            PgBuiltInOids::POLYGONARRAYOID => 1027,
            PgBuiltInOids::OIDARRAYOID => 1028,
            PgBuiltInOids::ACLITEMOID => 1033,
            PgBuiltInOids::ACLITEMARRAYOID => 1034,
            PgBuiltInOids::MACADDRARRAYOID => 1040,
            PgBuiltInOids::INETARRAYOID => 1041,
            PgBuiltInOids::BPCHAROID => 1042,
            PgBuiltInOids::VARCHAROID => 1043,
            PgBuiltInOids::DATEOID => 1082,
            PgBuiltInOids::TIMEOID => 1083,
            PgBuiltInOids::TIMESTAMPOID => 1114,
            PgBuiltInOids::TIMESTAMPARRAYOID => 1115,
            PgBuiltInOids::DATEARRAYOID => 1182,
            PgBuiltInOids::TIMEARRAYOID => 1183,
            PgBuiltInOids::TIMESTAMPTZOID => 1184,
            PgBuiltInOids::TIMESTAMPTZARRAYOID => 1185,
            PgBuiltInOids::INTERVALOID => 1186,
            PgBuiltInOids::INTERVALARRAYOID => 1187,
            PgBuiltInOids::NUMERICARRAYOID => 1231,
            PgBuiltInOids::CSTRINGARRAYOID => 1263,
            PgBuiltInOids::TIMETZOID => 1266,
            PgBuiltInOids::TIMETZARRAYOID => 1270,
            PgBuiltInOids::BITOID => 1560,
            PgBuiltInOids::BITARRAYOID => 1561,
            PgBuiltInOids::VARBITOID => 1562,
            PgBuiltInOids::VARBITARRAYOID => 1563,
            PgBuiltInOids::NUMERICOID => 1700,
            PgBuiltInOids::REFCURSOROID => 1790,
            PgBuiltInOids::REFCURSORARRAYOID => 2201,
            PgBuiltInOids::REGPROCEDUREOID => 2202,
            PgBuiltInOids::REGOPEROID => 2203,
            PgBuiltInOids::REGOPERATOROID => 2204,
            PgBuiltInOids::REGCLASSOID => 2205,
            PgBuiltInOids::REGTYPEOID => 2206,
            PgBuiltInOids::REGPROCEDUREARRAYOID => 2207,
            PgBuiltInOids::REGOPERARRAYOID => 2208,
            PgBuiltInOids::REGOPERATORARRAYOID => 2209,
            PgBuiltInOids::REGCLASSARRAYOID => 2210,
            PgBuiltInOids::REGTYPEARRAYOID => 2211,
            PgBuiltInOids::RECORDOID => 2249,
            PgBuiltInOids::CSTRINGOID => 2275,
            PgBuiltInOids::ANYOID => 2276,
            PgBuiltInOids::ANYARRAYOID => 2277,
            PgBuiltInOids::VOIDOID => 2278,
            PgBuiltInOids::TRIGGEROID => 2279,
            PgBuiltInOids::LANGUAGE_HANDLEROID => 2280,
            PgBuiltInOids::INTERNALOID => 2281,
            PgBuiltInOids::OPAQUEOID => 2282,
            PgBuiltInOids::ANYELEMENTOID => 2283,
            PgBuiltInOids::RECORDARRAYOID => 2287,
            PgBuiltInOids::ANYNONARRAYOID => 2776,
            PgBuiltInOids::TXID_SNAPSHOTARRAYOID => 2949,
            PgBuiltInOids::UUIDOID => 2950,
            PgBuiltInOids::UUIDARRAYOID => 2951,
            PgBuiltInOids::TXID_SNAPSHOTOID => 2970,
            PgBuiltInOids::FDW_HANDLEROID => 3115,
            PgBuiltInOids::LSNOID => 3220,
            PgBuiltInOids::LSNARRAYOID => 3221,
            PgBuiltInOids::TSM_HANDLEROID => 3310,
            PgBuiltInOids::PGNDISTINCTOID => 3361,
            PgBuiltInOids::PGDEPENDENCIESOID => 3402,
            PgBuiltInOids::ANYENUMOID => 3500,
            PgBuiltInOids::TSVECTOROID => 3614,
            PgBuiltInOids::TSQUERYOID => 3615,
            PgBuiltInOids::GTSVECTOROID => 3642,
            PgBuiltInOids::TSVECTORARRAYOID => 3643,
            PgBuiltInOids::GTSVECTORARRAYOID => 3644,
            PgBuiltInOids::TSQUERYARRAYOID => 3645,
            PgBuiltInOids::REGCONFIGOID => 3734,
            PgBuiltInOids::REGCONFIGARRAYOID => 3735,
            PgBuiltInOids::REGDICTIONARYOID => 3769,
            PgBuiltInOids::REGDICTIONARYARRAYOID => 3770,
            PgBuiltInOids::JSONBOID => 3802,
            PgBuiltInOids::JSONBARRAYOID => 3807,
            PgBuiltInOids::ANYRANGEOID => 3831,
            PgBuiltInOids::EVTTRIGGEROID => 3838,
            PgBuiltInOids::INT4RANGEOID => 3904,
            PgBuiltInOids::INT4RANGEARRAYOID => 3905,
            PgBuiltInOids::NUMRANGEOID => 3906,
            PgBuiltInOids::NUMRANGEARRAYOID => 3907,
            PgBuiltInOids::TSRANGEOID => 3908,
            PgBuiltInOids::TSRANGEARRAYOID => 3909,
            PgBuiltInOids::TSTZRANGEOID => 3910,
            PgBuiltInOids::TSTZRANGEARRAYOID => 3911,
            PgBuiltInOids::DATERANGEOID => 3912,
            PgBuiltInOids::DATERANGEARRAYOID => 3913,
            PgBuiltInOids::INT8RANGEOID => 3926,
            PgBuiltInOids::INT8RANGEARRAYOID => 3927,
            PgBuiltInOids::JSONPATHOID => 4072,
            PgBuiltInOids::JSONPATHARRAYOID => 4073,
            PgBuiltInOids::REGNAMESPACEOID => 4089,
            PgBuiltInOids::REGNAMESPACEARRAYOID => 4090,
            PgBuiltInOids::REGROLEOID => 4096,
            PgBuiltInOids::REGROLEARRAYOID => 4097,
            PgBuiltInOids::PGMCVLISTOID => 5017,
        }
    }

    /// The OID of this built-in type.
    pub fn value(self) -> (r: Oid)
        ensures
            r == self.spec_value(),
    {
        match self {
            PgBuiltInOids::BOOLOID => 16,
            PgBuiltInOids::BYTEAOID => 17,
            PgBuiltInOids::CHAROID => 18,
            PgBuiltInOids::NAMEOID => 19,
            PgBuiltInOids::INT8OID => 20,
            PgBuiltInOids::INT2OID => 21,
            PgBuiltInOids::INT2VECTOROID => 22,
            PgBuiltInOids::INT4OID => 23,
            PgBuiltInOids::REGPROCOID => 24,
            PgBuiltInOids::TEXTOID => 25,
            PgBuiltInOids::OIDOID => 26,
            PgBuiltInOids::TIDOID => 27,
            PgBuiltInOids::XIDOID => 28,
            PgBuiltInOids::CIDOID => 29,
            PgBuiltInOids::OIDVECTOROID => 30,
            PgBuiltInOids::PGDDLCOMMANDOID => 32,
            PgBuiltInOids::JSONOID => 114,
            PgBuiltInOids::XMLOID => 142,
            PgBuiltInOids::XMLARRAYOID => 143,
            PgBuiltInOids::PGNODETREEOID => 194,
            PgBuiltInOids::JSONARRAYOID => 199,
            PgBuiltInOids::TABLE_AM_HANDLEROID => 269,
            PgBuiltInOids::INDEX_AM_HANDLEROID => 325,
            PgBuiltInOids::POINTOID => 600,
            PgBuiltInOids::LSEGOID => 601,
            PgBuiltInOids::PATHOID => 602,
            PgBuiltInOids::BOXOID => 603,
            PgBuiltInOids::POLYGONOID => 604,
            PgBuiltInOids::LINEOID => 628,
            PgBuiltInOids::LINEARRAYOID => 629,
            PgBuiltInOids::CIDROID => 650,
            PgBuiltInOids::CIDRARRAYOID => 651,
            PgBuiltInOids::FLOAT4OID => 700,
            PgBuiltInOids::FLOAT8OID => 701,
            PgBuiltInOids::UNKNOWNOID => 705,
            PgBuiltInOids::CIRCLEOID => 718,
            PgBuiltInOids::CIRCLEARRAYOID => 719,
            PgBuiltInOids::MACADDR8OID => 774,
            PgBuiltInOids::MACADDR8ARRAYOID => 775,
            PgBuiltInOids::CASHOID => 790,
            PgBuiltInOids::CASHARRAYOID => 791,
            PgBuiltInOids::MACADDROID => 829,
            PgBuiltInOids::INETOID => 869,
            PgBuiltInOids::BOOLARRAYOID => 1000,
            PgBuiltInOids::BYTEAARRAYOID => 1001,
            PgBuiltInOids::CHARARRAYOID => 1002,
            PgBuiltInOids::NAMEARRAYOID => 1003,
            PgBuiltInOids::INT2ARRAYOID => 1005,
            PgBuiltInOids::INT2VECTORARRAYOID => 1006,
            PgBuiltInOids::INT4ARRAYOID => 1007,
            PgBuiltInOids::REGPROCARRAYOID => 1008,
            PgBuiltInOids::TEXTARRAYOID => 1009,
            PgBuiltInOids::TIDARRAYOID => 1010,
            PgBuiltInOids::XIDARRAYOID => 1011,
            PgBuiltInOids::CIDARRAYOID => 1012,
            PgBuiltInOids::OIDVECTORARRAYOID => 1013,
            PgBuiltInOids::BPCHARARRAYOID => 1014,
            PgBuiltInOids::VARCHARARRAYOID => 1015,
            PgBuiltInOids::INT8ARRAYOID => 1016,
            PgBuiltInOids::POINTARRAYOID => 1017,
            PgBuiltInOids::LSEGARRAYOID => 1018,
            PgBuiltInOids::PATHARRAYOID => 1019,
            PgBuiltInOids::BOXARRAYOID => 1020,
            PgBuiltInOids::FLOAT4ARRAYOID => 1021,
            PgBuiltInOids::FLOAT8ARRAYOID => 1022,
            PgBuiltInOids::POLYGONARRAYOID => 1027,
            PgBuiltInOids::OIDARRAYOID => 1028,
            PgBuiltInOids::ACLITEMOID => 1033,
            PgBuiltInOids::ACLITEMARRAYOID => 1034,
            PgBuiltInOids::MACADDRARRAYOID => 1040,
            PgBuiltInOids::INETARRAYOID => 1041,
            PgBuiltInOids::BPCHAROID => 1042,
            PgBuiltInOids::VARCHAROID => 1043,
            PgBuiltInOids::DATEOID => 1082,
            PgBuiltInOids::TIMEOID => 1083,
            PgBuiltInOids::TIMESTAMPOID => 1114,
            PgBuiltInOids::TIMESTAMPARRAYOID => 1115,
            PgBuiltInOids::DATEARRAYOID => 1182,
            PgBuiltInOids::TIMEARRAYOID => 1183,
            PgBuiltInOids::TIMESTAMPTZOID => 1184,
            PgBuiltInOids::TIMESTAMPTZARRAYOID => 1185,
            PgBuiltInOids::INTERVALOID => 1186,
            PgBuiltInOids::INTERVALARRAYOID => 1187,
            PgBuiltInOids::NUMERICARRAYOID => 1231,
            PgBuiltInOids::CSTRINGARRAYOID => 1263,
            PgBuiltInOids::TIMETZOID => 1266,
            PgBuiltInOids::TIMETZARRAYOID => 1270,
            PgBuiltInOids::BITOID => 1560,
            PgBuiltInOids::BITARRAYOID => 1561,
            PgBuiltInOids::VARBITOID => 1562,
            PgBuiltInOids::VARBITARRAYOID => 1563,
            PgBuiltInOids::NUMERICOID => 1700,
            PgBuiltInOids::REFCURSOROID => 1790,
            PgBuiltInOids::REFCURSORARRAYOID => 2201,
            PgBuiltInOids::REGPROCEDUREOID => 2202,
            PgBuiltInOids::REGOPEROID => 2203,
            PgBuiltInOids::REGOPERATOROID => 2204,
            PgBuiltInOids::REGCLASSOID => 2205,
            PgBuiltInOids::REGTYPEOID => 2206,
            PgBuiltInOids::REGPROCEDUREARRAYOID => 2207,
            PgBuiltInOids::REGOPERARRAYOID => 2208,
            PgBuiltInOids::REGOPERATORARRAYOID => 2209,
            PgBuiltInOids::REGCLASSARRAYOID => 2210,
            PgBuiltInOids::REGTYPEARRAYOID => 2211,
            PgBuiltInOids::RECORDOID => 2249,
            PgBuiltInOids::CSTRINGOID => 2275,
            PgBuiltInOids::ANYOID => 2276,
            PgBuiltInOids::ANYARRAYOID => 2277,
            PgBuiltInOids::VOIDOID => 2278,
            PgBuiltInOids::TRIGGEROID => 2279,
            PgBuiltInOids::LANGUAGE_HANDLEROID => 2280,
            PgBuiltInOids::INTERNALOID => 2281,
            PgBuiltInOids::OPAQUEOID => 2282,
            PgBuiltInOids::ANYELEMENTOID => 2283,
            PgBuiltInOids::RECORDARRAYOID => 2287,
            PgBuiltInOids::ANYNONARRAYOID => 2776,
            PgBuiltInOids::TXID_SNAPSHOTARRAYOID => 2949,
            PgBuiltInOids::UUIDOID => 2950,
            PgBuiltInOids::UUIDARRAYOID => 2951,
            PgBuiltInOids::TXID_SNAPSHOTOID => 2970,
            PgBuiltInOids::FDW_HANDLEROID => 3115,
            PgBuiltInOids::LSNOID => 3220,
            PgBuiltInOids::LSNARRAYOID => 3221,
            PgBuiltInOids::TSM_HANDLEROID => 3310,
            PgBuiltInOids::PGNDISTINCTOID => 3361,
            PgBuiltInOids::PGDEPENDENCIESOID => 3402,
            PgBuiltInOids::ANYENUMOID => 3500,
            PgBuiltInOids::TSVECTOROID => 3614,
            PgBuiltInOids::TSQUERYOID => 3615,
            PgBuiltInOids::GTSVECTOROID => 3642,
            PgBuiltInOids::TSVECTORARRAYOID => 3643,
            PgBuiltInOids::GTSVECTORARRAYOID => 3644,
            PgBuiltInOids::TSQUERYARRAYOID => 3645,
            PgBuiltInOids::REGCONFIGOID => 3734,
            PgBuiltInOids::REGCONFIGARRAYOID => 3735,
            PgBuiltInOids::REGDICTIONARYOID => 3769,
            PgBuiltInOids::REGDICTIONARYARRAYOID => 3770,
            PgBuiltInOids::JSONBOID => 3802,
            PgBuiltInOids::JSONBARRAYOID => 3807,
            PgBuiltInOids::ANYRANGEOID => 3831,
            PgBuiltInOids::EVTTRIGGEROID => 3838,
            PgBuiltInOids::INT4RANGEOID => 3904,
            PgBuiltInOids::INT4RANGEARRAYOID => 3905,
            PgBuiltInOids::NUMRANGEOID => 3906,
            PgBuiltInOids::NUMRANGEARRAYOID => 3907,
            PgBuiltInOids::TSRANGEOID => 3908,
            PgBuiltInOids::TSRANGEARRAYOID => 3909,
            PgBuiltInOids::TSTZRANGEOID => 3910,
            PgBuiltInOids::TSTZRANGEARRAYOID => 3911,
            PgBuiltInOids::DATERANGEOID => 3912,
            PgBuiltInOids::DATERANGEARRAYOID => 3913,
            PgBuiltInOids::INT8RANGEOID => 3926,
            PgBuiltInOids::INT8RANGEARRAYOID => 3927,
            PgBuiltInOids::JSONPATHOID => 4072,
            PgBuiltInOids::JSONPATHARRAYOID => 4073,
            PgBuiltInOids::REGNAMESPACEOID => 4089,
            PgBuiltInOids::REGNAMESPACEARRAYOID => 4090,
            PgBuiltInOids::REGROLEOID => 4096,
            PgBuiltInOids::REGROLEARRAYOID => 4097,
            PgBuiltInOids::PGMCVLISTOID => 5017,
        }
    }

    /// The built-in type whose OID is `oid`, if there is one.
    pub open spec fn spec_from(oid: Oid) -> Option<PgBuiltInOids> {
        match oid {
            16 => Some(PgBuiltInOids::BOOLOID),
            17 => Some(PgBuiltInOids::BYTEAOID),
            18 => Some(PgBuiltInOids::CHAROID),
            19 => Some(PgBuiltInOids::NAMEOID),
            20 => Some(PgBuiltInOids::INT8OID),
            21 => Some(PgBuiltInOids::INT2OID),
            22 => Some(PgBuiltInOids::INT2VECTOROID),
            23 => Some(PgBuiltInOids::INT4OID),
            24 => Some(PgBuiltInOids::REGPROCOID),
            25 => Some(PgBuiltInOids::TEXTOID),
            26 => Some(PgBuiltInOids::OIDOID),
            27 => Some(PgBuiltInOids::TIDOID),
            28 => Some(PgBuiltInOids::XIDOID),
            29 => Some(PgBuiltInOids::CIDOID),
            30 => Some(PgBuiltInOids::OIDVECTOROID),
            32 => Some(PgBuiltInOids::PGDDLCOMMANDOID),
            114 => Some(PgBuiltInOids::JSONOID),
            142 => Some(PgBuiltInOids::XMLOID),
            143 => Some(PgBuiltInOids::XMLARRAYOID),
            194 => Some(PgBuiltInOids::PGNODETREEOID),
            199 => Some(PgBuiltInOids::JSONARRAYOID),
            269 => Some(PgBuiltInOids::TABLE_AM_HANDLEROID),
            325 => Some(PgBuiltInOids::INDEX_AM_HANDLEROID),
            600 => Some(PgBuiltInOids::POINTOID),
            601 => Some(PgBuiltInOids::LSEGOID),
            602 => Some(PgBuiltInOids::PATHOID),
            603 => Some(PgBuiltInOids::BOXOID),
            604 => Some(PgBuiltInOids::POLYGONOID),
            628 => Some(PgBuiltInOids::LINEOID),
            629 => Some(PgBuiltInOids::LINEARRAYOID),
            650 => Some(PgBuiltInOids::CIDROID),
            651 => Some(PgBuiltInOids::CIDRARRAYOID),
            700 => Some(PgBuiltInOids::FLOAT4OID),
            701 => Some(PgBuiltInOids::FLOAT8OID),
            705 => Some(PgBuiltInOids::UNKNOWNOID),
            718 => Some(PgBuiltInOids::CIRCLEOID),
            719 => Some(PgBuiltInOids::CIRCLEARRAYOID),
            774 => Some(PgBuiltInOids::MACADDR8OID),
            775 => Some(PgBuiltInOids::MACADDR8ARRAYOID),
            790 => Some(PgBuiltInOids::CASHOID),
            791 => Some(PgBuiltInOids::CASHARRAYOID),
            829 => Some(PgBuiltInOids::MACADDROID),
            869 => Some(PgBuiltInOids::INETOID),
            1000 => Some(PgBuiltInOids::BOOLARRAYOID),
            1001 => Some(PgBuiltInOids::BYTEAARRAYOID),
            1002 => Some(PgBuiltInOids::CHARARRAYOID),
            1003 => Some(PgBuiltInOids::NAMEARRAYOID),
            1005 => Some(PgBuiltInOids::INT2ARRAYOID),
            1006 => Some(PgBuiltInOids::INT2VECTORARRAYOID),
            1007 => Some(PgBuiltInOids::INT4ARRAYOID),
            1008 => Some(PgBuiltInOids::REGPROCARRAYOID),
            1009 => Some(PgBuiltInOids::TEXTARRAYOID),
            1010 => Some(PgBuiltInOids::TIDARRAYOID),
            1011 => Some(PgBuiltInOids::XIDARRAYOID),
            1012 => Some(PgBuiltInOids::CIDARRAYOID),
            1013 => Some(PgBuiltInOids::OIDVECTORARRAYOID),
            1014 => Some(PgBuiltInOids::BPCHARARRAYOID),
            1015 => Some(PgBuiltInOids::VARCHARARRAYOID),
            1016 => Some(PgBuiltInOids::INT8ARRAYOID),
            1017 => Some(PgBuiltInOids::POINTARRAYOID),
            1018 => Some(PgBuiltInOids::LSEGARRAYOID),
            1019 => Some(PgBuiltInOids::PATHARRAYOID),
            1020 => Some(PgBuiltInOids::BOXARRAYOID),
            1021 => Some(PgBuiltInOids::FLOAT4ARRAYOID),
            1022 => Some(PgBuiltInOids::FLOAT8ARRAYOID),
            1027 => Some(PgBuiltInOids::POLYGONARRAYOID),
            1028 => Some(PgBuiltInOids::OIDARRAYOID),
            1033 => Some(PgBuiltInOids::ACLITEMOID),
            1034 => Some(PgBuiltInOids::ACLITEMARRAYOID),
            1040 => Some(PgBuiltInOids::MACADDRARRAYOID),
            1041 => Some(PgBuiltInOids::INETARRAYOID),
            1042 => Some(PgBuiltInOids::BPCHAROID),
            1043 => Some(PgBuiltInOids::VARCHAROID),
            1082 => Some(PgBuiltInOids::DATEOID),
            1083 => Some(PgBuiltInOids::TIMEOID),
            1114 => Some(PgBuiltInOids::TIMESTAMPOID),
            1115 => Some(PgBuiltInOids::TIMESTAMPARRAYOID),
            1182 => Some(PgBuiltInOids::DATEARRAYOID),
            1183 => Some(PgBuiltInOids::TIMEARRAYOID),
            1184 => Some(PgBuiltInOids::TIMESTAMPTZOID),
            1185 => Some(PgBuiltInOids::TIMESTAMPTZARRAYOID),
            1186 => Some(PgBuiltInOids::INTERVALOID),
            1187 => Some(PgBuiltInOids::INTERVALARRAYOID),
            1231 => Some(PgBuiltInOids::NUMERICARRAYOID),
            1263 => Some(PgBuiltInOids::CSTRINGARRAYOID),
            1266 => Some(PgBuiltInOids::TIMETZOID),
            1270 => Some(PgBuiltInOids::TIMETZARRAYOID),
            1560 => Some(PgBuiltInOids::BITOID),
            1561 => Some(PgBuiltInOids::BITARRAYOID),
            1562 => Some(PgBuiltInOids::VARBITOID),
            1563 => Some(PgBuiltInOids::VARBITARRAYOID),
            1700 => Some(PgBuiltInOids::NUMERICOID),
            1790 => Some(PgBuiltInOids::REFCURSOROID),
            2201 => Some(PgBuiltInOids::REFCURSORARRAYOID),
            2202 => Some(PgBuiltInOids::REGPROCEDUREOID),
            2203 => Some(PgBuiltInOids::REGOPEROID),
            2204 => Some(PgBuiltInOids::REGOPERATOROID),
            2205 => Some(PgBuiltInOids::REGCLASSOID),
            2206 => Some(PgBuiltInOids::REGTYPEOID),
            2207 => Some(PgBuiltInOids::REGPROCEDUREARRAYOID),
            2208 => Some(PgBuiltInOids::REGOPERARRAYOID),
            2209 => Some(PgBuiltInOids::REGOPERATORARRAYOID),
            2210 => Some(PgBuiltInOids::REGCLASSARRAYOID),
            2211 => Some(PgBuiltInOids::REGTYPEARRAYOID),
            2249 => Some(PgBuiltInOids::RECORDOID),
            2275 => Some(PgBuiltInOids::CSTRINGOID),
            2276 => Some(PgBuiltInOids::ANYOID),
            2277 => Some(PgBuiltInOids::ANYARRAYOID),
            2278 => Some(PgBuiltInOids::VOIDOID),
            2279 => Some(PgBuiltInOids::TRIGGEROID),
            2280 => Some(PgBuiltInOids::LANGUAGE_HANDLEROID),
            2281 => Some(PgBuiltInOids::INTERNALOID),
            2282 => Some(PgBuiltInOids::OPAQUEOID),
            2283 => Some(PgBuiltInOids::ANYELEMENTOID),
            2287 => Some(PgBuiltInOids::RECORDARRAYOID),
            2776 => Some(PgBuiltInOids::ANYNONARRAYOID),
            2949 => Some(PgBuiltInOids::TXID_SNAPSHOTARRAYOID),
            2950 => Some(PgBuiltInOids::UUIDOID),
            2951 => Some(PgBuiltInOids::UUIDARRAYOID),
            2970 => Some(PgBuiltInOids::TXID_SNAPSHOTOID),
            3115 => Some(PgBuiltInOids::FDW_HANDLEROID),
            3220 => Some(PgBuiltInOids::LSNOID),
            3221 => Some(PgBuiltInOids::LSNARRAYOID),
            3310 => Some(PgBuiltInOids::TSM_HANDLEROID),
            3361 => Some(PgBuiltInOids::PGNDISTINCTOID),
            3402 => Some(PgBuiltInOids::PGDEPENDENCIESOID),
            3500 => Some(PgBuiltInOids::ANYENUMOID),
            3614 => Some(PgBuiltInOids::TSVECTOROID),
            3615 => Some(PgBuiltInOids::TSQUERYOID),
            3642 => Some(PgBuiltInOids::GTSVECTOROID),
            3643 => Some(PgBuiltInOids::TSVECTORARRAYOID),
            3644 => Some(PgBuiltInOids::GTSVECTORARRAYOID),
            3645 => Some(PgBuiltInOids::TSQUERYARRAYOID),
            3734 => Some(PgBuiltInOids::REGCONFIGOID),
            3735 => Some(PgBuiltInOids::REGCONFIGARRAYOID),
            3769 => Some(PgBuiltInOids::REGDICTIONARYOID),
            3770 => Some(PgBuiltInOids::REGDICTIONARYARRAYOID),
            3802 => Some(PgBuiltInOids::JSONBOID),
            3807 => Some(PgBuiltInOids::JSONBARRAYOID),
            3831 => Some(PgBuiltInOids::ANYRANGEOID),
            3838 => Some(PgBuiltInOids::EVTTRIGGEROID),
            3904 => Some(PgBuiltInOids::INT4RANGEOID),
            3905 => Some(PgBuiltInOids::INT4RANGEARRAYOID),
            3906 => Some(PgBuiltInOids::NUMRANGEOID),
            3907 => Some(PgBuiltInOids::NUMRANGEARRAYOID),
            3908 => Some(PgBuiltInOids::TSRANGEOID),
            3909 => Some(PgBuiltInOids::TSRANGEARRAYOID),
            3910 => Some(PgBuiltInOids::TSTZRANGEOID),
            3911 => Some(PgBuiltInOids::TSTZRANGEARRAYOID),
            3912 => Some(PgBuiltInOids::DATERANGEOID),
            3913 => Some(PgBuiltInOids::DATERANGEARRAYOID),
            3926 => Some(PgBuiltInOids::INT8RANGEOID),
            3927 => Some(PgBuiltInOids::INT8RANGEARRAYOID),
            4072 => Some(PgBuiltInOids::JSONPATHOID),
            4073 => Some(PgBuiltInOids::JSONPATHARRAYOID),
            4089 => Some(PgBuiltInOids::REGNAMESPACEOID),
            4090 => Some(PgBuiltInOids::REGNAMESPACEARRAYOID),
            4096 => Some(PgBuiltInOids::REGROLEOID),
            4097 => Some(PgBuiltInOids::REGROLEARRAYOID),
            5017 => Some(PgBuiltInOids::PGMCVLISTOID),
            _ => None,
        }
    }

    /// Looks `oid` up in the table of built-in types.
    pub fn from(oid: Oid) -> (r: Option<PgBuiltInOids>)
        ensures
            r == PgBuiltInOids::spec_from(oid),
            r matches Some(b) ==> b.spec_value() == oid,
            r is None <==> (forall|b: PgBuiltInOids| #[trigger] b.spec_value() != oid),
    {
        let r = match oid {
            16 => Some(PgBuiltInOids::BOOLOID),
            17 => Some(PgBuiltInOids::BYTEAOID),
            18 => Some(PgBuiltInOids::CHAROID),
            19 => Some(PgBuiltInOids::NAMEOID),
            20 => Some(PgBuiltInOids::INT8OID),
            21 => Some(PgBuiltInOids::INT2OID),
            22 => Some(PgBuiltInOids::INT2VECTOROID),
            23 => Some(PgBuiltInOids::INT4OID),
            24 => Some(PgBuiltInOids::REGPROCOID),
            25 => Some(PgBuiltInOids::TEXTOID),
            26 => Some(PgBuiltInOids::OIDOID),
            27 => Some(PgBuiltInOids::TIDOID),
            28 => Some(PgBuiltInOids::XIDOID),
            29 => Some(PgBuiltInOids::CIDOID),
            30 => Some(PgBuiltInOids::OIDVECTOROID),
            32 => Some(PgBuiltInOids::PGDDLCOMMANDOID),
            114 => Some(PgBuiltInOids::JSONOID),
            142 => Some(PgBuiltInOids::XMLOID),
            143 => Some(PgBuiltInOids::XMLARRAYOID),
            194 => Some(PgBuiltInOids::PGNODETREEOID),
            199 => Some(PgBuiltInOids::JSONARRAYOID),
            269 => Some(PgBuiltInOids::TABLE_AM_HANDLEROID),
            325 => Some(PgBuiltInOids::INDEX_AM_HANDLEROID),
            600 => Some(PgBuiltInOids::POINTOID),
            601 => Some(PgBuiltInOids::LSEGOID),
            602 => Some(PgBuiltInOids::PATHOID),
            603 => Some(PgBuiltInOids::BOXOID),
            604 => Some(PgBuiltInOids::POLYGONOID),
            628 => Some(PgBuiltInOids::LINEOID),
            629 => Some(PgBuiltInOids::LINEARRAYOID),
            650 => Some(PgBuiltInOids::CIDROID),
            651 => Some(PgBuiltInOids::CIDRARRAYOID),
            700 => Some(PgBuiltInOids::FLOAT4OID),
            701 => Some(PgBuiltInOids::FLOAT8OID),
            705 => Some(PgBuiltInOids::UNKNOWNOID),
            718 => Some(PgBuiltInOids::CIRCLEOID),
            719 => Some(PgBuiltInOids::CIRCLEARRAYOID),
            774 => Some(PgBuiltInOids::MACADDR8OID),
            775 => Some(PgBuiltInOids::MACADDR8ARRAYOID),
            790 => Some(PgBuiltInOids::CASHOID),
            791 => Some(PgBuiltInOids::CASHARRAYOID),
            829 => Some(PgBuiltInOids::MACADDROID),
            869 => Some(PgBuiltInOids::INETOID),
            1000 => Some(PgBuiltInOids::BOOLARRAYOID),
            1001 => Some(PgBuiltInOids::BYTEAARRAYOID),
            1002 => Some(PgBuiltInOids::CHARARRAYOID),
            1003 => Some(PgBuiltInOids::NAMEARRAYOID),
            1005 => Some(PgBuiltInOids::INT2ARRAYOID),
            1006 => Some(PgBuiltInOids::INT2VECTORARRAYOID),
            1007 => Some(PgBuiltInOids::INT4ARRAYOID),
            1008 => Some(PgBuiltInOids::REGPROCARRAYOID),
            1009 => Some(PgBuiltInOids::TEXTARRAYOID),
            1010 => Some(PgBuiltInOids::TIDARRAYOID),
            1011 => Some(PgBuiltInOids::XIDARRAYOID),
            1012 => Some(PgBuiltInOids::CIDARRAYOID),
            1013 => Some(PgBuiltInOids::OIDVECTORARRAYOID),
            1014 => Some(PgBuiltInOids::BPCHARARRAYOID),
            1015 => Some(PgBuiltInOids::VARCHARARRAYOID),
            1016 => Some(PgBuiltInOids::INT8ARRAYOID),
            1017 => Some(PgBuiltInOids::POINTARRAYOID),
            1018 => Some(PgBuiltInOids::LSEGARRAYOID),
            1019 => Some(PgBuiltInOids::PATHARRAYOID),
            1020 => Some(PgBuiltInOids::BOXARRAYOID),
            1021 => Some(PgBuiltInOids::FLOAT4ARRAYOID),
            1022 => Some(PgBuiltInOids::FLOAT8ARRAYOID),
            1027 => Some(PgBuiltInOids::POLYGONARRAYOID),
            1028 => Some(PgBuiltInOids::OIDARRAYOID),
            1033 => Some(PgBuiltInOids::ACLITEMOID),
            1034 => Some(PgBuiltInOids::ACLITEMARRAYOID),
            1040 => Some(PgBuiltInOids::MACADDRARRAYOID),
            1041 => Some(PgBuiltInOids::INETARRAYOID),
            1042 => Some(PgBuiltInOids::BPCHAROID),
            1043 => Some(PgBuiltInOids::VARCHAROID),
            1082 => Some(PgBuiltInOids::DATEOID),
            1083 => Some(PgBuiltInOids::TIMEOID),
            1114 => Some(PgBuiltInOids::TIMESTAMPOID),
            1115 => Some(PgBuiltInOids::TIMESTAMPARRAYOID),
            1182 => Some(PgBuiltInOids::DATEARRAYOID),
            1183 => Some(PgBuiltInOids::TIMEARRAYOID),
            1184 => Some(PgBuiltInOids::TIMESTAMPTZOID),
            1185 => Some(PgBuiltInOids::TIMESTAMPTZARRAYOID),
            1186 => Some(PgBuiltInOids::INTERVALOID),
            1187 => Some(PgBuiltInOids::INTERVALARRAYOID),
            1231 => Some(PgBuiltInOids::NUMERICARRAYOID),
            1263 => Some(PgBuiltInOids::CSTRINGARRAYOID),
            1266 => Some(PgBuiltInOids::TIMETZOID),
            1270 => Some(PgBuiltInOids::TIMETZARRAYOID),
            1560 => Some(PgBuiltInOids::BITOID),
            1561 => Some(PgBuiltInOids::BITARRAYOID),
            1562 => Some(PgBuiltInOids::VARBITOID),
            1563 => Some(PgBuiltInOids::VARBITARRAYOID),
            1700 => Some(PgBuiltInOids::NUMERICOID),
            1790 => Some(PgBuiltInOids::REFCURSOROID),
            2201 => Some(PgBuiltInOids::REFCURSORARRAYOID),
            2202 => Some(PgBuiltInOids::REGPROCEDUREOID),
            2203 => Some(PgBuiltInOids::REGOPEROID),
            2204 => Some(PgBuiltInOids::REGOPERATOROID),
            2205 => Some(PgBuiltInOids::REGCLASSOID),
            2206 => Some(PgBuiltInOids::REGTYPEOID),
            2207 => Some(PgBuiltInOids::REGPROCEDUREARRAYOID),
            2208 => Some(PgBuiltInOids::REGOPERARRAYOID),
            2209 => Some(PgBuiltInOids::REGOPERATORARRAYOID),
            2210 => Some(PgBuiltInOids::REGCLASSARRAYOID),
            2211 => Some(PgBuiltInOids::REGTYPEARRAYOID),
            2249 => Some(PgBuiltInOids::RECORDOID),
            2275 => Some(PgBuiltInOids::CSTRINGOID),
            2276 => Some(PgBuiltInOids::ANYOID),
            2277 => Some(PgBuiltInOids::ANYARRAYOID),
            2278 => Some(PgBuiltInOids::VOIDOID),
            2279 => Some(PgBuiltInOids::TRIGGEROID),
            2280 => Some(PgBuiltInOids::LANGUAGE_HANDLEROID),
            2281 => Some(PgBuiltInOids::INTERNALOID),
            2282 => Some(PgBuiltInOids::OPAQUEOID),
            2283 => Some(PgBuiltInOids::ANYELEMENTOID),
            2287 => Some(PgBuiltInOids::RECORDARRAYOID),
            2776 => Some(PgBuiltInOids::ANYNONARRAYOID),
            2949 => Some(PgBuiltInOids::TXID_SNAPSHOTARRAYOID),
            2950 => Some(PgBuiltInOids::UUIDOID),
            2951 => Some(PgBuiltInOids::UUIDARRAYOID),
            2970 => Some(PgBuiltInOids::TXID_SNAPSHOTOID),
            3115 => Some(PgBuiltInOids::FDW_HANDLEROID),
            3220 => Some(PgBuiltInOids::LSNOID),
            3221 => Some(PgBuiltInOids::LSNARRAYOID),
            3310 => Some(PgBuiltInOids::TSM_HANDLEROID),
            3361 => Some(PgBuiltInOids::PGNDISTINCTOID),
            3402 => Some(PgBuiltInOids::PGDEPENDENCIESOID),
            3500 => Some(PgBuiltInOids::ANYENUMOID),
            3614 => Some(PgBuiltInOids::TSVECTOROID),
            3615 => Some(PgBuiltInOids::TSQUERYOID),
            3642 => Some(PgBuiltInOids::GTSVECTOROID),
            3643 => Some(PgBuiltInOids::TSVECTORARRAYOID),
            3644 => Some(PgBuiltInOids::GTSVECTORARRAYOID),
            3645 => Some(PgBuiltInOids::TSQUERYARRAYOID),
            3734 => Some(PgBuiltInOids::REGCONFIGOID),
            3735 => Some(PgBuiltInOids::REGCONFIGARRAYOID),
            3769 => Some(PgBuiltInOids::REGDICTIONARYOID),
            3770 => Some(PgBuiltInOids::REGDICTIONARYARRAYOID),
            3802 => Some(PgBuiltInOids::JSONBOID),
            3807 => Some(PgBuiltInOids::JSONBARRAYOID),
            3831 => Some(PgBuiltInOids::ANYRANGEOID),
            3838 => Some(PgBuiltInOids::EVTTRIGGEROID),
            3904 => Some(PgBuiltInOids::INT4RANGEOID),
            3905 => Some(PgBuiltInOids::INT4RANGEARRAYOID),
            3906 => Some(PgBuiltInOids::NUMRANGEOID),
            3907 => Some(PgBuiltInOids::NUMRANGEARRAYOID),
            3908 => Some(PgBuiltInOids::TSRANGEOID),
            3909 => Some(PgBuiltInOids::TSRANGEARRAYOID),
            3910 => Some(PgBuiltInOids::TSTZRANGEOID),
            3911 => Some(PgBuiltInOids::TSTZRANGEARRAYOID),
            3912 => Some(PgBuiltInOids::DATERANGEOID),
            3913 => Some(PgBuiltInOids::DATERANGEARRAYOID),
            3926 => Some(PgBuiltInOids::INT8RANGEOID),
            3927 => Some(PgBuiltInOids::INT8RANGEARRAYOID),
            4072 => Some(PgBuiltInOids::JSONPATHOID),
            4073 => Some(PgBuiltInOids::JSONPATHARRAYOID),
            4089 => Some(PgBuiltInOids::REGNAMESPACEOID),
            4090 => Some(PgBuiltInOids::REGNAMESPACEARRAYOID),
            4096 => Some(PgBuiltInOids::REGROLEOID),
            4097 => Some(PgBuiltInOids::REGROLEARRAYOID),
            5017 => Some(PgBuiltInOids::PGMCVLISTOID),
            _ => None,
        };
        proof {
            if let Some(b) = r {
                lemma_builtin_found(b);
            } else {
                assert forall|b: PgBuiltInOids| #[trigger] b.spec_value() != oid by {
                    lemma_builtin_found(b);
                }
            }
        }
        r
    }

    /// This built-in type as a `PgOid`.
    pub fn oid(self) -> (r: PgOid)
        ensures
            r == PgOid::BuiltIn(self),
    {
        proof {
            lemma_builtin_found(self);
        }
        PgOid::from(self.value())
    }
}

/// Each built-in type is found again from its OID, which is not the invalid OID.
proof fn lemma_builtin_found(b: PgBuiltInOids)
    ensures
        PgBuiltInOids::spec_from(b.spec_value()) == Some(b),
        b.spec_value() != InvalidOid,
{
    match b {
        PgBuiltInOids::BOOLOID => {},
        PgBuiltInOids::BYTEAOID => {},
        PgBuiltInOids::CHAROID => {},
        PgBuiltInOids::NAMEOID => {},
        PgBuiltInOids::INT8OID => {},
        PgBuiltInOids::INT2OID => {},
        PgBuiltInOids::INT2VECTOROID => {},
        PgBuiltInOids::INT4OID => {},
        PgBuiltInOids::REGPROCOID => {},
        PgBuiltInOids::TEXTOID => {},
        PgBuiltInOids::OIDOID => {},
        PgBuiltInOids::TIDOID => {},
        PgBuiltInOids::XIDOID => {},
        PgBuiltInOids::CIDOID => {},
        PgBuiltInOids::OIDVECTOROID => {},
        PgBuiltInOids::PGDDLCOMMANDOID => {},
        PgBuiltInOids::JSONOID => {},
        PgBuiltInOids::XMLOID => {},
        PgBuiltInOids::XMLARRAYOID => {},
        PgBuiltInOids::PGNODETREEOID => {},
        PgBuiltInOids::JSONARRAYOID => {},
        PgBuiltInOids::TABLE_AM_HANDLEROID => {},
        PgBuiltInOids::INDEX_AM_HANDLEROID => {},
        PgBuiltInOids::POINTOID => {},
        PgBuiltInOids::LSEGOID => {},
        PgBuiltInOids::PATHOID => {},
        PgBuiltInOids::BOXOID => {},
        PgBuiltInOids::POLYGONOID => {},
        PgBuiltInOids::LINEOID => {},
        PgBuiltInOids::LINEARRAYOID => {},
        PgBuiltInOids::CIDROID => {},
        PgBuiltInOids::CIDRARRAYOID => {},
        PgBuiltInOids::FLOAT4OID => {},
        PgBuiltInOids::FLOAT8OID => {},
        PgBuiltInOids::UNKNOWNOID => {},
        PgBuiltInOids::CIRCLEOID => {},
        PgBuiltInOids::CIRCLEARRAYOID => {},
        PgBuiltInOids::MACADDR8OID => {},
        PgBuiltInOids::MACADDR8ARRAYOID => {},
        PgBuiltInOids::CASHOID => {},
        PgBuiltInOids::CASHARRAYOID => {},
        PgBuiltInOids::MACADDROID => {},
        PgBuiltInOids::INETOID => {},
        PgBuiltInOids::BOOLARRAYOID => {},
        PgBuiltInOids::BYTEAARRAYOID => {},
        PgBuiltInOids::CHARARRAYOID => {},
        PgBuiltInOids::NAMEARRAYOID => {},
        PgBuiltInOids::INT2ARRAYOID => {},
        PgBuiltInOids::INT2VECTORARRAYOID => {},
        PgBuiltInOids::INT4ARRAYOID => {},
        PgBuiltInOids::REGPROCARRAYOID => {},
        PgBuiltInOids::TEXTARRAYOID => {},
        PgBuiltInOids::TIDARRAYOID => {},
        PgBuiltInOids::XIDARRAYOID => {},
        PgBuiltInOids::CIDARRAYOID => {},
        PgBuiltInOids::OIDVECTORARRAYOID => {},
        PgBuiltInOids::BPCHARARRAYOID => {},
        PgBuiltInOids::VARCHARARRAYOID => {},
        PgBuiltInOids::INT8ARRAYOID => {},
        PgBuiltInOids::POINTARRAYOID => {},
        PgBuiltInOids::LSEGARRAYOID => {},
        PgBuiltInOids::PATHARRAYOID => {},
        PgBuiltInOids::BOXARRAYOID => {},
        PgBuiltInOids::FLOAT4ARRAYOID => {},
        PgBuiltInOids::FLOAT8ARRAYOID => {},
        PgBuiltInOids::POLYGONARRAYOID => {},
        PgBuiltInOids::OIDARRAYOID => {},
        PgBuiltInOids::ACLITEMOID => {},
        PgBuiltInOids::ACLITEMARRAYOID => {},
        PgBuiltInOids::MACADDRARRAYOID => {},
        PgBuiltInOids::INETARRAYOID => {},
        PgBuiltInOids::BPCHAROID => {},
        PgBuiltInOids::VARCHAROID => {},
        PgBuiltInOids::DATEOID => {},
        PgBuiltInOids::TIMEOID => {},
        PgBuiltInOids::TIMESTAMPOID => {},
        PgBuiltInOids::TIMESTAMPARRAYOID => {},
        PgBuiltInOids::DATEARRAYOID => {},
        PgBuiltInOids::TIMEARRAYOID => {},
        PgBuiltInOids::TIMESTAMPTZOID => {},
        PgBuiltInOids::TIMESTAMPTZARRAYOID => {},
        PgBuiltInOids::INTERVALOID => {},
        PgBuiltInOids::INTERVALARRAYOID => {},
        PgBuiltInOids::NUMERICARRAYOID => {},
        PgBuiltInOids::CSTRINGARRAYOID => {},
        PgBuiltInOids::TIMETZOID => {},
        PgBuiltInOids::TIMETZARRAYOID => {},
        PgBuiltInOids::BITOID => {},
        PgBuiltInOids::BITARRAYOID => {},
        PgBuiltInOids::VARBITOID => {},
        PgBuiltInOids::VARBITARRAYOID => {},
        PgBuiltInOids::NUMERICOID => {},
        PgBuiltInOids::REFCURSOROID => {},
        PgBuiltInOids::REFCURSORARRAYOID => {},
        PgBuiltInOids::REGPROCEDUREOID => {},
        PgBuiltInOids::REGOPEROID => {},
        PgBuiltInOids::REGOPERATOROID => {},
        PgBuiltInOids::REGCLASSOID => {},
        PgBuiltInOids::REGTYPEOID => {},
        PgBuiltInOids::REGPROCEDUREARRAYOID => {},
        PgBuiltInOids::REGOPERARRAYOID => {},
        PgBuiltInOids::REGOPERATORARRAYOID => {},
        PgBuiltInOids::REGCLASSARRAYOID => {},
        PgBuiltInOids::REGTYPEARRAYOID => {},
        PgBuiltInOids::RECORDOID => {},
        PgBuiltInOids::CSTRINGOID => {},
        PgBuiltInOids::ANYOID => {},
        PgBuiltInOids::ANYARRAYOID => {},
        PgBuiltInOids::VOIDOID => {},
        PgBuiltInOids::TRIGGEROID => {},
        PgBuiltInOids::LANGUAGE_HANDLEROID => {},
        PgBuiltInOids::INTERNALOID => {},
        PgBuiltInOids::OPAQUEOID => {},
        PgBuiltInOids::ANYELEMENTOID => {},
        PgBuiltInOids::RECORDARRAYOID => {},
        PgBuiltInOids::ANYNONARRAYOID => {},
        PgBuiltInOids::TXID_SNAPSHOTARRAYOID => {},
        PgBuiltInOids::UUIDOID => {},
        PgBuiltInOids::UUIDARRAYOID => {},
        PgBuiltInOids::TXID_SNAPSHOTOID => {},
        PgBuiltInOids::FDW_HANDLEROID => {},
        PgBuiltInOids::LSNOID => {},
        PgBuiltInOids::LSNARRAYOID => {},
        PgBuiltInOids::TSM_HANDLEROID => {},
        PgBuiltInOids::PGNDISTINCTOID => {},
        PgBuiltInOids::PGDEPENDENCIESOID => {},
        PgBuiltInOids::ANYENUMOID => {},
        PgBuiltInOids::TSVECTOROID => {},
        PgBuiltInOids::TSQUERYOID => {},
        PgBuiltInOids::GTSVECTOROID => {},
        PgBuiltInOids::TSVECTORARRAYOID => {},
        PgBuiltInOids::GTSVECTORARRAYOID => {},
        PgBuiltInOids::TSQUERYARRAYOID => {},
        PgBuiltInOids::REGCONFIGOID => {},
        PgBuiltInOids::REGCONFIGARRAYOID => {},
        PgBuiltInOids::REGDICTIONARYOID => {},
        PgBuiltInOids::REGDICTIONARYARRAYOID => {},
        PgBuiltInOids::JSONBOID => {},
        PgBuiltInOids::JSONBARRAYOID => {},
        PgBuiltInOids::ANYRANGEOID => {},
        PgBuiltInOids::EVTTRIGGEROID => {},
        PgBuiltInOids::INT4RANGEOID => {},
        PgBuiltInOids::INT4RANGEARRAYOID => {},
        PgBuiltInOids::NUMRANGEOID => {},
        PgBuiltInOids::NUMRANGEARRAYOID => {},
        PgBuiltInOids::TSRANGEOID => {},
        PgBuiltInOids::TSRANGEARRAYOID => {},
        PgBuiltInOids::TSTZRANGEOID => {},
        PgBuiltInOids::TSTZRANGEARRAYOID => {},
        PgBuiltInOids::DATERANGEOID => {},
        PgBuiltInOids::DATERANGEARRAYOID => {},
        PgBuiltInOids::INT8RANGEOID => {},
        PgBuiltInOids::INT8RANGEARRAYOID => {},
        PgBuiltInOids::JSONPATHOID => {},
        PgBuiltInOids::JSONPATHARRAYOID => {},
        PgBuiltInOids::REGNAMESPACEOID => {},
        PgBuiltInOids::REGNAMESPACEARRAYOID => {},
        PgBuiltInOids::REGROLEOID => {},
        PgBuiltInOids::REGROLEARRAYOID => {},
        PgBuiltInOids::PGMCVLISTOID => {},
    }
}

/// No built-in type has the invalid OID, and no two built-in types share one.
pub proof fn lemma_builtin_value_injective(b: PgBuiltInOids, c: PgBuiltInOids)
    ensures
        b.spec_value() != InvalidOid,
        c.spec_value() == b.spec_value() ==> c == b,
{
    lemma_builtin_found(b);
    lemma_builtin_found(c);
}

/// An OID, sorted by kind: the invalid OID, one of the built-in types, or any other.
#[derive(Copy, Clone, Eq, PartialEq, Structural, Hash, Ord, PartialOrd, Debug)]
pub enum PgOid {
    InvalidOid,
    Custom(Oid),
    BuiltIn(PgBuiltInOids),
}

impl PgOid {
    /// True when this value is the one that `PgOid::from` gives for its raw OID:
    /// `Custom` never holds the invalid OID or the OID of a built-in type.
    pub open spec fn is_canonical(self) -> bool {
        match self {
            PgOid::Custom(c) => c != InvalidOid && PgBuiltInOids::spec_from(c) is None,
            _ => true,
        }
    }

    /// The raw OID that this value stands for.
    pub open spec fn spec_value(self) -> Oid {
        match self {
            PgOid::InvalidOid => InvalidOid,
            PgOid::Custom(custom) => custom,
            PgOid::BuiltIn(builtin) => builtin.spec_value(),
        }
    }

    /// The kind of OID that `oid` is.
    pub open spec fn spec_from(oid: Oid) -> PgOid {
        if oid == InvalidOid {
            PgOid::InvalidOid
        } else {
            match PgBuiltInOids::spec_from(oid) {
                Some(b) => PgOid::BuiltIn(b),
                None => PgOid::Custom(oid),
            }
        }
    }

    /// Sorts `oid` by kind: `0` is the invalid OID, an OID from the built-in table is
    /// `BuiltIn`, and any other is `Custom`.
    pub fn from(oid: Oid) -> (r: PgOid)
        ensures
            r == PgOid::spec_from(oid),
    {
        if oid == InvalidOid {
            PgOid::InvalidOid
        } else {
            match PgBuiltInOids::from(oid) {
                Some(builtin) => PgOid::BuiltIn(builtin),
                None => PgOid::Custom(oid),
            }
        }
    }

    /// The raw OID of this value.
    pub fn value(self) -> (r: Oid)
        ensures
            r == self.spec_value(),
    {
        match self {
            PgOid::InvalidOid => InvalidOid,
            PgOid::Custom(custom) => custom,
            PgOid::BuiltIn(builtin) => builtin.value(),
        }
    }
}

/// Sorting an OID by kind loses nothing: the raw value of `PgOid::from(oid)` is `oid`,
/// and the result is canonical.
pub proof fn lemma_oid_roundtrip(oid: Oid)
    ensures
        PgOid::spec_from(oid).spec_value() == oid,
        PgOid::spec_from(oid).is_canonical(),
{
    if let Some(b) = PgBuiltInOids::spec_from(oid) {
        lemma_builtin_found(b);
    }
}

/// A canonical `PgOid` is recovered from its raw value: `PgOid::from(p.value()) == p`.
pub proof fn lemma_pgoid_roundtrip(p: PgOid)
    requires
        p.is_canonical(),
    ensures
        PgOid::spec_from(p.spec_value()) == p,
{
    if let PgOid::BuiltIn(b) = p {
        lemma_builtin_found(b);
    }
}

/// Every built-in type is found again from its OID, and its OID is sorted as built-in.
pub proof fn lemma_builtin_roundtrip(b: PgBuiltInOids)
    ensures
        PgBuiltInOids::spec_from(b.spec_value()) == Some(b),
        PgOid::spec_from(b.spec_value()) == PgOid::BuiltIn(b),
{
    lemma_builtin_found(b);
}

/// Each built-in type's OID is the constant that Postgres 12's `pg_type.h` defines for it.
pub proof fn lemma_builtin_oid_constants()
    ensures
        PgBuiltInOids::BOOLOID.spec_value() == 16,
        PgBuiltInOids::BYTEAOID.spec_value() == 17,
        PgBuiltInOids::CHAROID.spec_value() == 18,
        PgBuiltInOids::NAMEOID.spec_value() == 19,
        PgBuiltInOids::INT8OID.spec_value() == 20,
        PgBuiltInOids::INT2OID.spec_value() == 21,
        PgBuiltInOids::INT2VECTOROID.spec_value() == 22,
        PgBuiltInOids::INT4OID.spec_value() == 23,
        PgBuiltInOids::REGPROCOID.spec_value() == 24,
        PgBuiltInOids::TEXTOID.spec_value() == 25,
        PgBuiltInOids::OIDOID.spec_value() == 26,
        PgBuiltInOids::TIDOID.spec_value() == 27,
        PgBuiltInOids::XIDOID.spec_value() == 28,
        PgBuiltInOids::CIDOID.spec_value() == 29,
        PgBuiltInOids::OIDVECTOROID.spec_value() == 30,
        PgBuiltInOids::PGDDLCOMMANDOID.spec_value() == 32,
        PgBuiltInOids::JSONOID.spec_value() == 114,
        PgBuiltInOids::XMLOID.spec_value() == 142,
        PgBuiltInOids::XMLARRAYOID.spec_value() == 143,
        PgBuiltInOids::PGNODETREEOID.spec_value() == 194,
        PgBuiltInOids::JSONARRAYOID.spec_value() == 199,
        PgBuiltInOids::TABLE_AM_HANDLEROID.spec_value() == 269,
        PgBuiltInOids::INDEX_AM_HANDLEROID.spec_value() == 325,
        PgBuiltInOids::POINTOID.spec_value() == 600,
        PgBuiltInOids::LSEGOID.spec_value() == 601,
        PgBuiltInOids::PATHOID.spec_value() == 602,
        PgBuiltInOids::BOXOID.spec_value() == 603,
        PgBuiltInOids::POLYGONOID.spec_value() == 604,
        PgBuiltInOids::LINEOID.spec_value() == 628,
        PgBuiltInOids::LINEARRAYOID.spec_value() == 629,
        PgBuiltInOids::CIDROID.spec_value() == 650,
        PgBuiltInOids::CIDRARRAYOID.spec_value() == 651,
        PgBuiltInOids::FLOAT4OID.spec_value() == 700,
        PgBuiltInOids::FLOAT8OID.spec_value() == 701,
        PgBuiltInOids::UNKNOWNOID.spec_value() == 705,
        PgBuiltInOids::CIRCLEOID.spec_value() == 718,
        PgBuiltInOids::CIRCLEARRAYOID.spec_value() == 719,
        PgBuiltInOids::MACADDR8OID.spec_value() == 774,
        PgBuiltInOids::MACADDR8ARRAYOID.spec_value() == 775,
        PgBuiltInOids::CASHOID.spec_value() == 790,
        PgBuiltInOids::CASHARRAYOID.spec_value() == 791,
        PgBuiltInOids::MACADDROID.spec_value() == 829,
        PgBuiltInOids::INETOID.spec_value() == 869,
        PgBuiltInOids::BOOLARRAYOID.spec_value() == 1000,
        PgBuiltInOids::BYTEAARRAYOID.spec_value() == 1001,
        PgBuiltInOids::CHARARRAYOID.spec_value() == 1002,
        PgBuiltInOids::NAMEARRAYOID.spec_value() == 1003,
        PgBuiltInOids::INT2ARRAYOID.spec_value() == 1005,
        PgBuiltInOids::INT2VECTORARRAYOID.spec_value() == 1006,
        PgBuiltInOids::INT4ARRAYOID.spec_value() == 1007,
        PgBuiltInOids::REGPROCARRAYOID.spec_value() == 1008,
        PgBuiltInOids::TEXTARRAYOID.spec_value() == 1009,
        PgBuiltInOids::TIDARRAYOID.spec_value() == 1010,
        PgBuiltInOids::XIDARRAYOID.spec_value() == 1011,
        PgBuiltInOids::CIDARRAYOID.spec_value() == 1012,
        PgBuiltInOids::OIDVECTORARRAYOID.spec_value() == 1013,
        PgBuiltInOids::BPCHARARRAYOID.spec_value() == 1014,
        PgBuiltInOids::VARCHARARRAYOID.spec_value() == 1015,
        PgBuiltInOids::INT8ARRAYOID.spec_value() == 1016,
        PgBuiltInOids::POINTARRAYOID.spec_value() == 1017,
        PgBuiltInOids::LSEGARRAYOID.spec_value() == 1018,
        PgBuiltInOids::PATHARRAYOID.spec_value() == 1019,
        PgBuiltInOids::BOXARRAYOID.spec_value() == 1020,
        PgBuiltInOids::FLOAT4ARRAYOID.spec_value() == 1021,
        PgBuiltInOids::FLOAT8ARRAYOID.spec_value() == 1022,
        PgBuiltInOids::POLYGONARRAYOID.spec_value() == 1027,
        PgBuiltInOids::OIDARRAYOID.spec_value() == 1028,
        PgBuiltInOids::ACLITEMOID.spec_value() == 1033,
        PgBuiltInOids::ACLITEMARRAYOID.spec_value() == 1034,
        PgBuiltInOids::MACADDRARRAYOID.spec_value() == 1040,
        PgBuiltInOids::INETARRAYOID.spec_value() == 1041,
        PgBuiltInOids::BPCHAROID.spec_value() == 1042,
        PgBuiltInOids::VARCHAROID.spec_value() == 1043,
        PgBuiltInOids::DATEOID.spec_value() == 1082,
        PgBuiltInOids::TIMEOID.spec_value() == 1083,
        PgBuiltInOids::TIMESTAMPOID.spec_value() == 1114,
        PgBuiltInOids::TIMESTAMPARRAYOID.spec_value() == 1115,
        PgBuiltInOids::DATEARRAYOID.spec_value() == 1182,
        PgBuiltInOids::TIMEARRAYOID.spec_value() == 1183,
        PgBuiltInOids::TIMESTAMPTZOID.spec_value() == 1184,
        PgBuiltInOids::TIMESTAMPTZARRAYOID.spec_value() == 1185,
        PgBuiltInOids::INTERVALOID.spec_value() == 1186,
        PgBuiltInOids::INTERVALARRAYOID.spec_value() == 1187,
        PgBuiltInOids::NUMERICARRAYOID.spec_value() == 1231,
        PgBuiltInOids::CSTRINGARRAYOID.spec_value() == 1263,
        PgBuiltInOids::TIMETZOID.spec_value() == 1266,
        PgBuiltInOids::TIMETZARRAYOID.spec_value() == 1270,
        PgBuiltInOids::BITOID.spec_value() == 1560,
        PgBuiltInOids::BITARRAYOID.spec_value() == 1561,
        PgBuiltInOids::VARBITOID.spec_value() == 1562,
        PgBuiltInOids::VARBITARRAYOID.spec_value() == 1563,
        PgBuiltInOids::NUMERICOID.spec_value() == 1700,
        PgBuiltInOids::REFCURSOROID.spec_value() == 1790,
        PgBuiltInOids::REFCURSORARRAYOID.spec_value() == 2201,
        PgBuiltInOids::REGPROCEDUREOID.spec_value() == 2202,
        PgBuiltInOids::REGOPEROID.spec_value() == 2203,
        PgBuiltInOids::REGOPERATOROID.spec_value() == 2204,
        PgBuiltInOids::REGCLASSOID.spec_value() == 2205,
        PgBuiltInOids::REGTYPEOID.spec_value() == 2206,
        PgBuiltInOids::REGPROCEDUREARRAYOID.spec_value() == 2207,
        PgBuiltInOids::REGOPERARRAYOID.spec_value() == 2208,
        PgBuiltInOids::REGOPERATORARRAYOID.spec_value() == 2209,
        PgBuiltInOids::REGCLASSARRAYOID.spec_value() == 2210,
        PgBuiltInOids::REGTYPEARRAYOID.spec_value() == 2211,
        PgBuiltInOids::RECORDOID.spec_value() == 2249,
        PgBuiltInOids::CSTRINGOID.spec_value() == 2275,
        PgBuiltInOids::ANYOID.spec_value() == 2276,
        PgBuiltInOids::ANYARRAYOID.spec_value() == 2277,
        PgBuiltInOids::VOIDOID.spec_value() == 2278,
        PgBuiltInOids::TRIGGEROID.spec_value() == 2279,
        PgBuiltInOids::LANGUAGE_HANDLEROID.spec_value() == 2280,
        PgBuiltInOids::INTERNALOID.spec_value() == 2281,
        PgBuiltInOids::OPAQUEOID.spec_value() == 2282,
        PgBuiltInOids::ANYELEMENTOID.spec_value() == 2283,
        PgBuiltInOids::RECORDARRAYOID.spec_value() == 2287,
        PgBuiltInOids::ANYNONARRAYOID.spec_value() == 2776,
        PgBuiltInOids::TXID_SNAPSHOTARRAYOID.spec_value() == 2949,
        PgBuiltInOids::UUIDOID.spec_value() == 2950,
        PgBuiltInOids::UUIDARRAYOID.spec_value() == 2951,
        PgBuiltInOids::TXID_SNAPSHOTOID.spec_value() == 2970,
        PgBuiltInOids::FDW_HANDLEROID.spec_value() == 3115,
        PgBuiltInOids::LSNOID.spec_value() == 3220,
        PgBuiltInOids::LSNARRAYOID.spec_value() == 3221,
        PgBuiltInOids::TSM_HANDLEROID.spec_value() == 3310,
        PgBuiltInOids::PGNDISTINCTOID.spec_value() == 3361,
        PgBuiltInOids::PGDEPENDENCIESOID.spec_value() == 3402,
        PgBuiltInOids::ANYENUMOID.spec_value() == 3500,
        PgBuiltInOids::TSVECTOROID.spec_value() == 3614,
        PgBuiltInOids::TSQUERYOID.spec_value() == 3615,
        PgBuiltInOids::GTSVECTOROID.spec_value() == 3642,
        PgBuiltInOids::TSVECTORARRAYOID.spec_value() == 3643,
        PgBuiltInOids::GTSVECTORARRAYOID.spec_value() == 3644,
        PgBuiltInOids::TSQUERYARRAYOID.spec_value() == 3645,
        PgBuiltInOids::REGCONFIGOID.spec_value() == 3734,
        PgBuiltInOids::REGCONFIGARRAYOID.spec_value() == 3735,
        PgBuiltInOids::REGDICTIONARYOID.spec_value() == 3769,
        PgBuiltInOids::REGDICTIONARYARRAYOID.spec_value() == 3770,
        PgBuiltInOids::JSONBOID.spec_value() == 3802,
        PgBuiltInOids::JSONBARRAYOID.spec_value() == 3807,
        PgBuiltInOids::ANYRANGEOID.spec_value() == 3831,
        PgBuiltInOids::EVTTRIGGEROID.spec_value() == 3838,
        PgBuiltInOids::INT4RANGEOID.spec_value() == 3904,
        PgBuiltInOids::INT4RANGEARRAYOID.spec_value() == 3905,
        PgBuiltInOids::NUMRANGEOID.spec_value() == 3906,
        PgBuiltInOids::NUMRANGEARRAYOID.spec_value() == 3907,
        PgBuiltInOids::TSRANGEOID.spec_value() == 3908,
        PgBuiltInOids::TSRANGEARRAYOID.spec_value() == 3909,
        PgBuiltInOids::TSTZRANGEOID.spec_value() == 3910,
        PgBuiltInOids::TSTZRANGEARRAYOID.spec_value() == 3911,
        PgBuiltInOids::DATERANGEOID.spec_value() == 3912,
        PgBuiltInOids::DATERANGEARRAYOID.spec_value() == 3913,
        PgBuiltInOids::INT8RANGEOID.spec_value() == 3926,
        PgBuiltInOids::INT8RANGEARRAYOID.spec_value() == 3927,
        PgBuiltInOids::JSONPATHOID.spec_value() == 4072,
        PgBuiltInOids::JSONPATHARRAYOID.spec_value() == 4073,
        PgBuiltInOids::REGNAMESPACEOID.spec_value() == 4089,
        PgBuiltInOids::REGNAMESPACEARRAYOID.spec_value() == 4090,
        PgBuiltInOids::REGROLEOID.spec_value() == 4096,
        PgBuiltInOids::REGROLEARRAYOID.spec_value() == 4097,
        PgBuiltInOids::PGMCVLISTOID.spec_value() == 5017,
{
}

} // verus!
