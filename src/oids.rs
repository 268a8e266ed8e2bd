//! The catalog identifiers (OIDs) of the types and relations built into the database.
use vstd::prelude::*;

verus! {

/// Why a number is not the identifier of a builtin object.
#[derive(Clone, Copy, Debug, PartialEq, Eq, Hash)]
pub enum NotBuiltinOid {
    /// Zero, the invalid identifier.
    Invalid,
    /// A number that no builtin object has.
    Ambiguous,
}

/// A builtin type or relation, by the name of its catalog identifier.
#[allow(non_camel_case_types)]
#[derive(Clone, Copy, Debug, PartialEq, Eq, Hash, PartialOrd, Ord)]
pub enum BuiltinOid {
    ACLITEMARRAYOID,
    ACLITEMOID,
    ANYARRAYOID,
    ANYCOMPATIBLEARRAYOID,
    ANYCOMPATIBLENONARRAYOID,
    ANYCOMPATIBLEOID,
    ANYCOMPATIBLERANGEOID,
    ANYELEMENTOID,
    ANYENUMOID,
    ANYNONARRAYOID,
    ANYOID,
    ANYRANGEOID,
    AttributeRelationId,
    AuthIdRelationId,
    BITARRAYOID,
    BITOID,
    BOOLARRAYOID,
    BOOLOID,
    BOXARRAYOID,
    BOXOID,
    BPCHARARRAYOID,
    BPCHAROID,
    BYTEAARRAYOID,
    BYTEAOID,
    CASHOID,
    CHARARRAYOID,
    CHAROID,
    CIDARRAYOID,
    CIDOID,
    CIDRARRAYOID,
    CIDROID,
    CIRCLEARRAYOID,
    CIRCLEOID,
    CSTRINGARRAYOID,
    CSTRINGOID,
    DATEARRAYOID,
    DATEOID,
    DATERANGEARRAYOID,
    DATERANGEOID,
    DEFAULTTABLESPACE_OID,
    DatabaseRelationId,
    EVTTRIGGEROID,
    EnumRelationId,
    EventTriggerRelationId,
    ExtensionRelationId,
    FDW_HANDLEROID,
    FLOAT4ARRAYOID,
    FLOAT4OID,
    FLOAT8ARRAYOID,
    FLOAT8OID,
    GLOBALTABLESPACE_OID,
    GTSVECTORARRAYOID,
    GTSVECTOROID,
    HEAP_TABLE_AM_HANDLER_OID,
    INDEX_AM_HANDLEROID,
    INETARRAYOID,
    INETOID,
    INT2ARRAYOID,
    INT2OID,
    INT2VECTORARRAYOID,
    INT2VECTOROID,
    INT4ARRAYOID,
    INT4OID,
    INT4RANGEARRAYOID,
    INT4RANGEOID,
    INT8ARRAYOID,
    INT8OID,
    INT8RANGEARRAYOID,
    INT8RANGEOID,
    INTERNALOID,
    INTERVALARRAYOID,
    INTERVALOID,
    IndexRelationId,
    JSONARRAYOID,
    JSONBARRAYOID,
    JSONBOID,
    JSONOID,
    JSONPATHARRAYOID,
    JSONPATHOID,
    LANGUAGE_HANDLEROID,
    LINEARRAYOID,
    LINEOID,
    LSEGARRAYOID,
    LSEGOID,
    LSNOID,
    MACADDR8ARRAYOID,
    MACADDR8OID,
    MACADDRARRAYOID,
    MACADDROID,
    MONEYARRAYOID,
    NAMEARRAYOID,
    NAMEOID,
    NUMERICARRAYOID,
    NUMERICOID,
    NUMRANGEARRAYOID,
    NUMRANGEOID,
    NamespaceRelationId,
    OIDARRAYOID,
    OIDOID,
    OIDVECTORARRAYOID,
    OIDVECTOROID,
    OperatorRelationId,
    PATHARRAYOID,
    PATHOID,
    PGDDLCOMMANDOID,
    PGDEPENDENCIESOID,
    PGMCVLISTOID,
    PGNDISTINCTOID,
    PGNODETREEOID,
    PG_LSNARRAYOID,
    PG_SNAPSHOTARRAYOID,
    PG_SNAPSHOTOID,
    POINTARRAYOID,
    POINTOID,
    POLYGONARRAYOID,
    POLYGONOID,
    ProcedureRelationId,
    PublicationRelationId,
    RECORDARRAYOID,
    RECORDOID,
    REFCURSORARRAYOID,
    REFCURSOROID,
    REGCLASSARRAYOID,
    REGCLASSOID,
    REGCOLLATIONARRAYOID,
    REGCOLLATIONOID,
    REGCONFIGARRAYOID,
    REGCONFIGOID,
    REGDICTIONARYARRAYOID,
    REGDICTIONARYOID,
    REGNAMESPACEARRAYOID,
    REGNAMESPACEOID,
    REGOPERARRAYOID,
    REGOPERATORARRAYOID,
    REGOPERATOROID,
    REGOPEROID,
    REGPROCARRAYOID,
    REGPROCEDUREARRAYOID,
    REGPROCEDUREOID,
    REGPROCOID,
    REGROLEARRAYOID,
    REGROLEOID,
    REGTYPEARRAYOID,
    REGTYPEOID,
    RelationRelationId,
    StatisticRelationId,
    TABLE_AM_HANDLEROID,
    TEXTARRAYOID,
    TEXTOID,
    TIDARRAYOID,
    TIDOID,
    TIMEARRAYOID,
    TIMEOID,
    TIMESTAMPARRAYOID,
    TIMESTAMPOID,
    TIMESTAMPTZARRAYOID,
    TIMESTAMPTZOID,
    TIMETZARRAYOID,
    TIMETZOID,
    TRIGGEROID,
    TSM_HANDLEROID,
    TSQUERYARRAYOID,
    TSQUERYOID,
    TSRANGEARRAYOID,
    TSRANGEOID,
    TSTZRANGEARRAYOID,
    TSTZRANGEOID,
    TSVECTORARRAYOID,
    TSVECTOROID,
    TXID_SNAPSHOTARRAYOID,
    TXID_SNAPSHOTOID,
    TableSpaceRelationId,
    TemplateDbOid,
    TriggerRelationId,
    TypeRelationId,
    UNKNOWNOID,
    UUIDARRAYOID,
    UUIDOID,
    VARBITARRAYOID,
    VARBITOID,
    VARCHARARRAYOID,
    VARCHAROID,
    VOIDOID,
    XID8ARRAYOID,
    XID8OID,
    XIDARRAYOID,
    XIDOID,
    XMLARRAYOID,
    XMLOID,
}

/// The catalog identifier of a builtin object.
pub open spec fn oid_value(b: BuiltinOid) -> u32 {
    match b {
        BuiltinOid::ACLITEMARRAYOID => 1034,
        BuiltinOid::ACLITEMOID => 1033,
        BuiltinOid::ANYARRAYOID => 2277,
        BuiltinOid::ANYCOMPATIBLEARRAYOID => 5078,
        BuiltinOid::ANYCOMPATIBLENONARRAYOID => 5079,
        BuiltinOid::ANYCOMPATIBLEOID => 5077,
        BuiltinOid::ANYCOMPATIBLERANGEOID => 5080,
        BuiltinOid::ANYELEMENTOID => 2283,
        BuiltinOid::ANYENUMOID => 3500,
        BuiltinOid::ANYNONARRAYOID => 2776,
        BuiltinOid::ANYOID => 2276,
        BuiltinOid::ANYRANGEOID => 3831,
        BuiltinOid::AttributeRelationId => 1249,
        BuiltinOid::AuthIdRelationId => 1260,
        BuiltinOid::BITARRAYOID => 1561,
        BuiltinOid::BITOID => 1560,
        BuiltinOid::BOOLARRAYOID => 1000,
        BuiltinOid::BOOLOID => 16,
        BuiltinOid::BOXARRAYOID => 1020,
        BuiltinOid::BOXOID => 603,
        BuiltinOid::BPCHARARRAYOID => 1014,
        BuiltinOid::BPCHAROID => 1042,
        BuiltinOid::BYTEAARRAYOID => 1001,
        BuiltinOid::BYTEAOID => 17,
        BuiltinOid::CASHOID => 790,
        BuiltinOid::CHARARRAYOID => 1002,
        BuiltinOid::CHAROID => 18,
        BuiltinOid::CIDARRAYOID => 1012,
        BuiltinOid::CIDOID => 29,
        BuiltinOid::CIDRARRAYOID => 651,
        BuiltinOid::CIDROID => 650,
        BuiltinOid::CIRCLEARRAYOID => 719,
        BuiltinOid::CIRCLEOID => 718,
        BuiltinOid::CSTRINGARRAYOID => 1263,
        BuiltinOid::CSTRINGOID => 2275,
        BuiltinOid::DATEARRAYOID => 1182,
        BuiltinOid::DATEOID => 1082,
        BuiltinOid::DATERANGEARRAYOID => 3913,
        BuiltinOid::DATERANGEOID => 3912,
        BuiltinOid::DEFAULTTABLESPACE_OID => 1663,
        BuiltinOid::DatabaseRelationId => 1262,
        BuiltinOid::EVTTRIGGEROID => 3838,
        BuiltinOid::EnumRelationId => 3501,
        BuiltinOid::EventTriggerRelationId => 3466,
        BuiltinOid::ExtensionRelationId => 3079,
        BuiltinOid::FDW_HANDLEROID => 3115,
        BuiltinOid::FLOAT4ARRAYOID => 1021,
        BuiltinOid::FLOAT4OID => 700,
        BuiltinOid::FLOAT8ARRAYOID => 1022,
        BuiltinOid::FLOAT8OID => 701,
        BuiltinOid::GLOBALTABLESPACE_OID => 1664,
        BuiltinOid::GTSVECTORARRAYOID => 3644,
        BuiltinOid::GTSVECTOROID => 3642,
        BuiltinOid::HEAP_TABLE_AM_HANDLER_OID => 3,
        BuiltinOid::INDEX_AM_HANDLEROID => 325,
        BuiltinOid::INETARRAYOID => 1041,
        BuiltinOid::INETOID => 869,
        BuiltinOid::INT2ARRAYOID => 1005,
        BuiltinOid::INT2OID => 21,
        BuiltinOid::INT2VECTORARRAYOID => 1006,
        BuiltinOid::INT2VECTOROID => 22,
        BuiltinOid::INT4ARRAYOID => 1007,
        BuiltinOid::INT4OID => 23,
        BuiltinOid::INT4RANGEARRAYOID => 3905,
        BuiltinOid::INT4RANGEOID => 3904,
        BuiltinOid::INT8ARRAYOID => 1016,
        BuiltinOid::INT8OID => 20,
        BuiltinOid::INT8RANGEARRAYOID => 3927,
        BuiltinOid::INT8RANGEOID => 3926,
        BuiltinOid::INTERNALOID => 2281,
        BuiltinOid::INTERVALARRAYOID => 1187,
        BuiltinOid::INTERVALOID => 1186,
        BuiltinOid::IndexRelationId => 2610,
        BuiltinOid::JSONARRAYOID => 199,
        BuiltinOid::JSONBARRAYOID => 3807,
        BuiltinOid::JSONBOID => 3802,
        BuiltinOid::JSONOID => 114,
        BuiltinOid::JSONPATHARRAYOID => 4073,
        BuiltinOid::JSONPATHOID => 4072,
        BuiltinOid::LANGUAGE_HANDLEROID => 2280,
        BuiltinOid::LINEARRAYOID => 629,
        BuiltinOid::LINEOID => 628,
        BuiltinOid::LSEGARRAYOID => 1018,
        BuiltinOid::LSEGOID => 601,
        BuiltinOid::LSNOID => 3220,
        BuiltinOid::MACADDR8ARRAYOID => 775,
        BuiltinOid::MACADDR8OID => 774,
        BuiltinOid::MACADDRARRAYOID => 1040,
        BuiltinOid::MACADDROID => 829,
        BuiltinOid::MONEYARRAYOID => 791,
        BuiltinOid::NAMEARRAYOID => 1003,
        BuiltinOid::NAMEOID => 19,
        BuiltinOid::NUMERICARRAYOID => 1231,
        BuiltinOid::NUMERICOID => 1700,
        BuiltinOid::NUMRANGEARRAYOID => 3907,
        BuiltinOid::NUMRANGEOID => 3906,
        BuiltinOid::NamespaceRelationId => 2615,
        BuiltinOid::OIDARRAYOID => 1028,
        BuiltinOid::OIDOID => 26,
        BuiltinOid::OIDVECTORARRAYOID => 1013,
        BuiltinOid::OIDVECTOROID => 30,
        BuiltinOid::OperatorRelationId => 2617,
        BuiltinOid::PATHARRAYOID => 1019,
        BuiltinOid::PATHOID => 602,
        BuiltinOid::PGDDLCOMMANDOID => 32,
        BuiltinOid::PGDEPENDENCIESOID => 3402,
        BuiltinOid::PGMCVLISTOID => 5017,
        BuiltinOid::PGNDISTINCTOID => 3361,
        BuiltinOid::PGNODETREEOID => 194,
        BuiltinOid::PG_LSNARRAYOID => 3221,
        BuiltinOid::PG_SNAPSHOTARRAYOID => 5039,
        BuiltinOid::PG_SNAPSHOTOID => 5038,
        BuiltinOid::POINTARRAYOID => 1017,
        BuiltinOid::POINTOID => 600,
        BuiltinOid::POLYGONARRAYOID => 1027,
        BuiltinOid::POLYGONOID => 604,
        BuiltinOid::ProcedureRelationId => 1255,
        BuiltinOid::PublicationRelationId => 6104,
        BuiltinOid::RECORDARRAYOID => 2287,
        BuiltinOid::RECORDOID => 2249,
        BuiltinOid::REFCURSORARRAYOID => 2201,
        BuiltinOid::REFCURSOROID => 1790,
        BuiltinOid::REGCLASSARRAYOID => 2210,
        BuiltinOid::REGCLASSOID => 2205,
        BuiltinOid::REGCOLLATIONARRAYOID => 4192,
        BuiltinOid::REGCOLLATIONOID => 4191,
        BuiltinOid::REGCONFIGARRAYOID => 3735,
        BuiltinOid::REGCONFIGOID => 3734,
        BuiltinOid::REGDICTIONARYARRAYOID => 3770,
        BuiltinOid::REGDICTIONARYOID => 3769,
        BuiltinOid::REGNAMESPACEARRAYOID => 4090,
        BuiltinOid::REGNAMESPACEOID => 4089,
        BuiltinOid::REGOPERARRAYOID => 2208,
        BuiltinOid::REGOPERATORARRAYOID => 2209,
        BuiltinOid::REGOPERATOROID => 2204,
        BuiltinOid::REGOPEROID => 2203,
        BuiltinOid::REGPROCARRAYOID => 1008,
        BuiltinOid::REGPROCEDUREARRAYOID => 2207,
        BuiltinOid::REGPROCEDUREOID => 2202,
        BuiltinOid::REGPROCOID => 24,
        BuiltinOid::REGROLEARRAYOID => 4097,
        BuiltinOid::REGROLEOID => 4096,
        BuiltinOid::REGTYPEARRAYOID => 2211,
        BuiltinOid::REGTYPEOID => 2206,
        BuiltinOid::RelationRelationId => 1259,
        BuiltinOid::StatisticRelationId => 2619,
        BuiltinOid::TABLE_AM_HANDLEROID => 269,
        BuiltinOid::TEXTARRAYOID => 1009,
        BuiltinOid::TEXTOID => 25,
        BuiltinOid::TIDARRAYOID => 1010,
        BuiltinOid::TIDOID => 27,
        BuiltinOid::TIMEARRAYOID => 1183,
        BuiltinOid::TIMEOID => 1083,
        BuiltinOid::TIMESTAMPARRAYOID => 1115,
        BuiltinOid::TIMESTAMPOID => 1114,
        BuiltinOid::TIMESTAMPTZARRAYOID => 1185,
        BuiltinOid::TIMESTAMPTZOID => 1184,
        BuiltinOid::TIMETZARRAYOID => 1270,
        BuiltinOid::TIMETZOID => 1266,
        BuiltinOid::TRIGGEROID => 2279,
        BuiltinOid::TSM_HANDLEROID => 3310,
        BuiltinOid::TSQUERYARRAYOID => 3645,
        BuiltinOid::TSQUERYOID => 3615,
        BuiltinOid::TSRANGEARRAYOID => 3909,
        BuiltinOid::TSRANGEOID => 3908,
        BuiltinOid::TSTZRANGEARRAYOID => 3911,
        BuiltinOid::TSTZRANGEOID => 3910,
        BuiltinOid::TSVECTORARRAYOID => 3643,
        BuiltinOid::TSVECTOROID => 3614,
        BuiltinOid::TXID_SNAPSHOTARRAYOID => 2949,
        BuiltinOid::TXID_SNAPSHOTOID => 2970,
        BuiltinOid::TableSpaceRelationId => 1213,
        BuiltinOid::TemplateDbOid => 1,
        BuiltinOid::TriggerRelationId => 2620,
        BuiltinOid::TypeRelationId => 1247,
        BuiltinOid::UNKNOWNOID => 705,
        BuiltinOid::UUIDARRAYOID => 2951,
        BuiltinOid::UUIDOID => 2950,
        BuiltinOid::VARBITARRAYOID => 1563,
        BuiltinOid::VARBITOID => 1562,
        BuiltinOid::VARCHARARRAYOID => 1015,
        BuiltinOid::VARCHAROID => 1043,
        BuiltinOid::VOIDOID => 2278,
        BuiltinOid::XID8ARRAYOID => 271,
        BuiltinOid::XID8OID => 5069,
        BuiltinOid::XIDARRAYOID => 1011,
        BuiltinOid::XIDOID => 28,
        BuiltinOid::XMLARRAYOID => 143,
        BuiltinOid::XMLOID => 142,
    }
}

impl BuiltinOid {
    /// The catalog identifier of the object.
    pub fn value(self) -> (r: u32)
        ensures
            r == oid_value(self),
    {
        match self {
            BuiltinOid::ACLITEMARRAYOID => 1034,
            BuiltinOid::ACLITEMOID => 1033,
            BuiltinOid::ANYARRAYOID => 2277,
            BuiltinOid::ANYCOMPATIBLEARRAYOID => 5078,
            BuiltinOid::ANYCOMPATIBLENONARRAYOID => 5079,
            BuiltinOid::ANYCOMPATIBLEOID => 5077,
            BuiltinOid::ANYCOMPATIBLERANGEOID => 5080,
            BuiltinOid::ANYELEMENTOID => 2283,
            BuiltinOid::ANYENUMOID => 3500,
            BuiltinOid::ANYNONARRAYOID => 2776,
            BuiltinOid::ANYOID => 2276,
            BuiltinOid::ANYRANGEOID => 3831,
            BuiltinOid::AttributeRelationId => 1249,
            BuiltinOid::AuthIdRelationId => 1260,
            BuiltinOid::BITARRAYOID => 1561,
            BuiltinOid::BITOID => 1560,
            BuiltinOid::BOOLARRAYOID => 1000,
            BuiltinOid::BOOLOID => 16,
            BuiltinOid::BOXARRAYOID => 1020,
            BuiltinOid::BOXOID => 603,
            BuiltinOid::BPCHARARRAYOID => 1014,
            BuiltinOid::BPCHAROID => 1042,
            BuiltinOid::BYTEAARRAYOID => 1001,
            BuiltinOid::BYTEAOID => 17,
            BuiltinOid::CASHOID => 790,
            BuiltinOid::CHARARRAYOID => 1002,
            BuiltinOid::CHAROID => 18,
            BuiltinOid::CIDARRAYOID => 1012,
            BuiltinOid::CIDOID => 29,
            BuiltinOid::CIDRARRAYOID => 651,
            BuiltinOid::CIDROID => 650,
            BuiltinOid::CIRCLEARRAYOID => 719,
            BuiltinOid::CIRCLEOID => 718,
            BuiltinOid::CSTRINGARRAYOID => 1263,
            BuiltinOid::CSTRINGOID => 2275,
            BuiltinOid::DATEARRAYOID => 1182,
            BuiltinOid::DATEOID => 1082,
            BuiltinOid::DATERANGEARRAYOID => 3913,
            BuiltinOid::DATERANGEOID => 3912,
            BuiltinOid::DEFAULTTABLESPACE_OID => 1663,
            BuiltinOid::DatabaseRelationId => 1262,
            BuiltinOid::EVTTRIGGEROID => 3838,
            BuiltinOid::EnumRelationId => 3501,
            BuiltinOid::EventTriggerRelationId => 3466,
            BuiltinOid::ExtensionRelationId => 3079,
            BuiltinOid::FDW_HANDLEROID => 3115,
            BuiltinOid::FLOAT4ARRAYOID => 1021,
            BuiltinOid::FLOAT4OID => 700,
            BuiltinOid::FLOAT8ARRAYOID => 1022,
            BuiltinOid::FLOAT8OID => 701,
            BuiltinOid::GLOBALTABLESPACE_OID => 1664,
            BuiltinOid::GTSVECTORARRAYOID => 3644,
            BuiltinOid::GTSVECTOROID => 3642,
            BuiltinOid::HEAP_TABLE_AM_HANDLER_OID => 3,
            BuiltinOid::INDEX_AM_HANDLEROID => 325,
            BuiltinOid::INETARRAYOID => 1041,
            BuiltinOid::INETOID => 869,
            BuiltinOid::INT2ARRAYOID => 1005,
            BuiltinOid::INT2OID => 21,
            BuiltinOid::INT2VECTORARRAYOID => 1006,
            BuiltinOid::INT2VECTOROID => 22,
            BuiltinOid::INT4ARRAYOID => 1007,
            BuiltinOid::INT4OID => 23,
            BuiltinOid::INT4RANGEARRAYOID => 3905,
            BuiltinOid::INT4RANGEOID => 3904,
            BuiltinOid::INT8ARRAYOID => 1016,
            BuiltinOid::INT8OID => 20,
            BuiltinOid::INT8RANGEARRAYOID => 3927,
            BuiltinOid::INT8RANGEOID => 3926,
            BuiltinOid::INTERNALOID => 2281,
            BuiltinOid::INTERVALARRAYOID => 1187,
            BuiltinOid::INTERVALOID => 1186,
            BuiltinOid::IndexRelationId => 2610,
            BuiltinOid::JSONARRAYOID => 199,
            BuiltinOid::JSONBARRAYOID => 3807,
            BuiltinOid::JSONBOID => 3802,
            BuiltinOid::JSONOID => 114,
            BuiltinOid::JSONPATHARRAYOID => 4073,
            BuiltinOid::JSONPATHOID => 4072,
            BuiltinOid::LANGUAGE_HANDLEROID => 2280,
            BuiltinOid::LINEARRAYOID => 629,
            BuiltinOid::LINEOID => 628,
            BuiltinOid::LSEGARRAYOID => 1018,
            BuiltinOid::LSEGOID => 601,
            BuiltinOid::LSNOID => 3220,
            BuiltinOid::MACADDR8ARRAYOID => 775,
            BuiltinOid::MACADDR8OID => 774,
            BuiltinOid::MACADDRARRAYOID => 1040,
            BuiltinOid::MACADDROID => 829,
            BuiltinOid::MONEYARRAYOID => 791,
            BuiltinOid::NAMEARRAYOID => 1003,
            BuiltinOid::NAMEOID => 19,
            BuiltinOid::NUMERICARRAYOID => 1231,
            BuiltinOid::NUMERICOID => 1700,
            BuiltinOid::NUMRANGEARRAYOID => 3907,
            BuiltinOid::NUMRANGEOID => 3906,
            BuiltinOid::NamespaceRelationId => 2615,
            BuiltinOid::OIDARRAYOID => 1028,
            BuiltinOid::OIDOID => 26,
            BuiltinOid::OIDVECTORARRAYOID => 1013,
            BuiltinOid::OIDVECTOROID => 30,
            BuiltinOid::OperatorRelationId => 2617,
            BuiltinOid::PATHARRAYOID => 1019,
            BuiltinOid::PATHOID => 602,
            BuiltinOid::PGDDLCOMMANDOID => 32,
            BuiltinOid::PGDEPENDENCIESOID => 3402,
            BuiltinOid::PGMCVLISTOID => 5017,
            BuiltinOid::PGNDISTINCTOID => 3361,
            BuiltinOid::PGNODETREEOID => 194,
            BuiltinOid::PG_LSNARRAYOID => 3221,
            BuiltinOid::PG_SNAPSHOTARRAYOID => 5039,
            BuiltinOid::PG_SNAPSHOTOID => 5038,
            BuiltinOid::POINTARRAYOID => 1017,
            BuiltinOid::POINTOID => 600,
            BuiltinOid::POLYGONARRAYOID => 1027,
            BuiltinOid::POLYGONOID => 604,
            BuiltinOid::ProcedureRelationId => 1255,
            BuiltinOid::PublicationRelationId => 6104,
            BuiltinOid::RECORDARRAYOID => 2287,
            BuiltinOid::RECORDOID => 2249,
            BuiltinOid::REFCURSORARRAYOID => 2201,
            BuiltinOid::REFCURSOROID => 1790,
            BuiltinOid::REGCLASSARRAYOID => 2210,
            BuiltinOid::REGCLASSOID => 2205,
            BuiltinOid::REGCOLLATIONARRAYOID => 4192,
            BuiltinOid::REGCOLLATIONOID => 4191,
            BuiltinOid::REGCONFIGARRAYOID => 3735,
            BuiltinOid::REGCONFIGOID => 3734,
            BuiltinOid::REGDICTIONARYARRAYOID => 3770,
            BuiltinOid::REGDICTIONARYOID => 3769,
            BuiltinOid::REGNAMESPACEARRAYOID => 4090,
            BuiltinOid::REGNAMESPACEOID => 4089,
            BuiltinOid::REGOPERARRAYOID => 2208,
            BuiltinOid::REGOPERATORARRAYOID => 2209,
            BuiltinOid::REGOPERATOROID => 2204,
            BuiltinOid::REGOPEROID => 2203,
            BuiltinOid::REGPROCARRAYOID => 1008,
            BuiltinOid::REGPROCEDUREARRAYOID => 2207,
            BuiltinOid::REGPROCEDUREOID => 2202,
            BuiltinOid::REGPROCOID => 24,
            BuiltinOid::REGROLEARRAYOID => 4097,
            BuiltinOid::REGROLEOID => 4096,
            BuiltinOid::REGTYPEARRAYOID => 2211,
            BuiltinOid::REGTYPEOID => 2206,
            BuiltinOid::RelationRelationId => 1259,
            BuiltinOid::StatisticRelationId => 2619,
            BuiltinOid::TABLE_AM_HANDLEROID => 269,
            BuiltinOid::TEXTARRAYOID => 1009,
            BuiltinOid::TEXTOID => 25,
            BuiltinOid::TIDARRAYOID => 1010,
            BuiltinOid::TIDOID => 27,
            BuiltinOid::TIMEARRAYOID => 1183,
            BuiltinOid::TIMEOID => 1083,
            BuiltinOid::TIMESTAMPARRAYOID => 1115,
            BuiltinOid::TIMESTAMPOID => 1114,
            BuiltinOid::TIMESTAMPTZARRAYOID => 1185,
            BuiltinOid::TIMESTAMPTZOID => 1184,
            BuiltinOid::TIMETZARRAYOID => 1270,
            BuiltinOid::TIMETZOID => 1266,
            BuiltinOid::TRIGGEROID => 2279,
            BuiltinOid::TSM_HANDLEROID => 3310,
            BuiltinOid::TSQUERYARRAYOID => 3645,
            BuiltinOid::TSQUERYOID => 3615,
            BuiltinOid::TSRANGEARRAYOID => 3909,
            BuiltinOid::TSRANGEOID => 3908,
            BuiltinOid::TSTZRANGEARRAYOID => 3911,
            BuiltinOid::TSTZRANGEOID => 3910,
            BuiltinOid::TSVECTORARRAYOID => 3643,
            BuiltinOid::TSVECTOROID => 3614,
            BuiltinOid::TXID_SNAPSHOTARRAYOID => 2949,
            BuiltinOid::TXID_SNAPSHOTOID => 2970,
            BuiltinOid::TableSpaceRelationId => 1213,
            BuiltinOid::TemplateDbOid => 1,
            BuiltinOid::TriggerRelationId => 2620,
            BuiltinOid::TypeRelationId => 1247,
            BuiltinOid::UNKNOWNOID => 705,
            BuiltinOid::UUIDARRAYOID => 2951,
            BuiltinOid::UUIDOID => 2950,
            BuiltinOid::VARBITARRAYOID => 1563,
            BuiltinOid::VARBITOID => 1562,
            BuiltinOid::VARCHARARRAYOID => 1015,
            BuiltinOid::VARCHAROID => 1043,
            BuiltinOid::VOIDOID => 2278,
            BuiltinOid::XID8ARRAYOID => 271,
            BuiltinOid::XID8OID => 5069,
            BuiltinOid::XIDARRAYOID => 1011,
            BuiltinOid::XIDOID => 28,
            BuiltinOid::XMLARRAYOID => 143,
            BuiltinOid::XMLOID => 142,
        }
    }

    /// The builtin object with catalog identifier `uint`: `Invalid` for zero, `Ambiguous` for a
    /// number that no builtin object has.
    pub fn from_u32(uint: u32) -> (r: Result<BuiltinOid, NotBuiltinOid>)
        ensures
            r matches Ok(b) ==> oid_value(b) == uint,
            r == Err::<BuiltinOid, NotBuiltinOid>(NotBuiltinOid::Invalid) <==> uint == 0,
            r == Err::<BuiltinOid, NotBuiltinOid>(NotBuiltinOid::Ambiguous) <==> (uint != 0 && forall|b: BuiltinOid|
                oid_value(b) != uint),
    {
        let r = match uint {
            0 => Err(NotBuiltinOid::Invalid),
            1034 => Ok(BuiltinOid::ACLITEMARRAYOID),
            1033 => Ok(BuiltinOid::ACLITEMOID),
            2277 => Ok(BuiltinOid::ANYARRAYOID),
            5078 => Ok(BuiltinOid::ANYCOMPATIBLEARRAYOID),
            5079 => Ok(BuiltinOid::ANYCOMPATIBLENONARRAYOID),
            5077 => Ok(BuiltinOid::ANYCOMPATIBLEOID),
            5080 => Ok(BuiltinOid::ANYCOMPATIBLERANGEOID),
            2283 => Ok(BuiltinOid::ANYELEMENTOID),
            3500 => Ok(BuiltinOid::ANYENUMOID),
            2776 => Ok(BuiltinOid::ANYNONARRAYOID),
            2276 => Ok(BuiltinOid::ANYOID),
            3831 => Ok(BuiltinOid::ANYRANGEOID),
            1249 => Ok(BuiltinOid::AttributeRelationId),
            1260 => Ok(BuiltinOid::AuthIdRelationId),
            1561 => Ok(BuiltinOid::BITARRAYOID),
            1560 => Ok(BuiltinOid::BITOID),
            1000 => Ok(BuiltinOid::BOOLARRAYOID),
            16 => Ok(BuiltinOid::BOOLOID),
            1020 => Ok(BuiltinOid::BOXARRAYOID),
            603 => Ok(BuiltinOid::BOXOID),
            1014 => Ok(BuiltinOid::BPCHARARRAYOID),
            1042 => Ok(BuiltinOid::BPCHAROID),
            1001 => Ok(BuiltinOid::BYTEAARRAYOID),
            17 => Ok(BuiltinOid::BYTEAOID),
            790 => Ok(BuiltinOid::CASHOID),
            1002 => Ok(BuiltinOid::CHARARRAYOID),
            18 => Ok(BuiltinOid::CHAROID),
            1012 => Ok(BuiltinOid::CIDARRAYOID),
            29 => Ok(BuiltinOid::CIDOID),
            651 => Ok(BuiltinOid::CIDRARRAYOID),
            650 => Ok(BuiltinOid::CIDROID),
            719 => Ok(BuiltinOid::CIRCLEARRAYOID),
            718 => Ok(BuiltinOid::CIRCLEOID),
            1263 => Ok(BuiltinOid::CSTRINGARRAYOID),
            2275 => Ok(BuiltinOid::CSTRINGOID),
            1182 => Ok(BuiltinOid::DATEARRAYOID),
            1082 => Ok(BuiltinOid::DATEOID),
            3913 => Ok(BuiltinOid::DATERANGEARRAYOID),
            3912 => Ok(BuiltinOid::DATERANGEOID),
            1663 => Ok(BuiltinOid::DEFAULTTABLESPACE_OID),
            1262 => Ok(BuiltinOid::DatabaseRelationId),
            3838 => Ok(BuiltinOid::EVTTRIGGEROID),
            3501 => Ok(BuiltinOid::EnumRelationId),
            3466 => Ok(BuiltinOid::EventTriggerRelationId),
            3079 => Ok(BuiltinOid::ExtensionRelationId),
            3115 => Ok(BuiltinOid::FDW_HANDLEROID),
            1021 => Ok(BuiltinOid::FLOAT4ARRAYOID),
            700 => Ok(BuiltinOid::FLOAT4OID),
            1022 => Ok(BuiltinOid::FLOAT8ARRAYOID),
            701 => Ok(BuiltinOid::FLOAT8OID),
            1664 => Ok(BuiltinOid::GLOBALTABLESPACE_OID),
            3644 => Ok(BuiltinOid::GTSVECTORARRAYOID),
            3642 => Ok(BuiltinOid::GTSVECTOROID),
            3 => Ok(BuiltinOid::HEAP_TABLE_AM_HANDLER_OID),
            325 => Ok(BuiltinOid::INDEX_AM_HANDLEROID),
            1041 => Ok(BuiltinOid::INETARRAYOID),
            869 => Ok(BuiltinOid::INETOID),
            1005 => Ok(BuiltinOid::INT2ARRAYOID),
            21 => Ok(BuiltinOid::INT2OID),
            1006 => Ok(BuiltinOid::INT2VECTORARRAYOID),
            22 => Ok(BuiltinOid::INT2VECTOROID),
            1007 => Ok(BuiltinOid::INT4ARRAYOID),
            23 => Ok(BuiltinOid::INT4OID),
            3905 => Ok(BuiltinOid::INT4RANGEARRAYOID),
            3904 => Ok(BuiltinOid::INT4RANGEOID),
            1016 => Ok(BuiltinOid::INT8ARRAYOID),
            20 => Ok(BuiltinOid::INT8OID),
            3927 => Ok(BuiltinOid::INT8RANGEARRAYOID),
            3926 => Ok(BuiltinOid::INT8RANGEOID),
            2281 => Ok(BuiltinOid::INTERNALOID),
            1187 => Ok(BuiltinOid::INTERVALARRAYOID),
            1186 => Ok(BuiltinOid::INTERVALOID),
            2610 => Ok(BuiltinOid::IndexRelationId),
            199 => Ok(BuiltinOid::JSONARRAYOID),
            3807 => Ok(BuiltinOid::JSONBARRAYOID),
            3802 => Ok(BuiltinOid::JSONBOID),
            114 => Ok(BuiltinOid::JSONOID),
            4073 => Ok(BuiltinOid::JSONPATHARRAYOID),
            4072 => Ok(BuiltinOid::JSONPATHOID),
            2280 => Ok(BuiltinOid::LANGUAGE_HANDLEROID),
            629 => Ok(BuiltinOid::LINEARRAYOID),
            628 => Ok(BuiltinOid::LINEOID),
            1018 => Ok(BuiltinOid::LSEGARRAYOID),
            601 => Ok(BuiltinOid::LSEGOID),
            3220 => Ok(BuiltinOid::LSNOID),
            775 => Ok(BuiltinOid::MACADDR8ARRAYOID),
            774 => Ok(BuiltinOid::MACADDR8OID),
            1040 => Ok(BuiltinOid::MACADDRARRAYOID),
            829 => Ok(BuiltinOid::MACADDROID),
            791 => Ok(BuiltinOid::MONEYARRAYOID),
            1003 => Ok(BuiltinOid::NAMEARRAYOID),
            19 => Ok(BuiltinOid::NAMEOID),
            1231 => Ok(BuiltinOid::NUMERICARRAYOID),
            1700 => Ok(BuiltinOid::NUMERICOID),
            3907 => Ok(BuiltinOid::NUMRANGEARRAYOID),
            3906 => Ok(BuiltinOid::NUMRANGEOID),
            2615 => Ok(BuiltinOid::NamespaceRelationId),
            1028 => Ok(BuiltinOid::OIDARRAYOID),
            26 => Ok(BuiltinOid::OIDOID),
            1013 => Ok(BuiltinOid::OIDVECTORARRAYOID),
            30 => Ok(BuiltinOid::OIDVECTOROID),
            2617 => Ok(BuiltinOid::OperatorRelationId),
            1019 => Ok(BuiltinOid::PATHARRAYOID),
            602 => Ok(BuiltinOid::PATHOID),
            32 => Ok(BuiltinOid::PGDDLCOMMANDOID),
            3402 => Ok(BuiltinOid::PGDEPENDENCIESOID),
            5017 => Ok(BuiltinOid::PGMCVLISTOID),
            3361 => Ok(BuiltinOid::PGNDISTINCTOID),
            194 => Ok(BuiltinOid::PGNODETREEOID),
            3221 => Ok(BuiltinOid::PG_LSNARRAYOID),
            5039 => Ok(BuiltinOid::PG_SNAPSHOTARRAYOID),
            5038 => Ok(BuiltinOid::PG_SNAPSHOTOID),
            1017 => Ok(BuiltinOid::POINTARRAYOID),
            600 => Ok(BuiltinOid::POINTOID),
            1027 => Ok(BuiltinOid::POLYGONARRAYOID),
            604 => Ok(BuiltinOid::POLYGONOID),
            1255 => Ok(BuiltinOid::ProcedureRelationId),
            6104 => Ok(BuiltinOid::PublicationRelationId),
            2287 => Ok(BuiltinOid::RECORDARRAYOID),
            2249 => Ok(BuiltinOid::RECORDOID),
            2201 => Ok(BuiltinOid::REFCURSORARRAYOID),
            1790 => Ok(BuiltinOid::REFCURSOROID),
            2210 => Ok(BuiltinOid::REGCLASSARRAYOID),
            2205 => Ok(BuiltinOid::REGCLASSOID),
            4192 => Ok(BuiltinOid::REGCOLLATIONARRAYOID),
            4191 => Ok(BuiltinOid::REGCOLLATIONOID),
            3735 => Ok(BuiltinOid::REGCONFIGARRAYOID),
            3734 => Ok(BuiltinOid::REGCONFIGOID),
            3770 => Ok(BuiltinOid::REGDICTIONARYARRAYOID),
            3769 => Ok(BuiltinOid::REGDICTIONARYOID),
            4090 => Ok(BuiltinOid::REGNAMESPACEARRAYOID),
            4089 => Ok(BuiltinOid::REGNAMESPACEOID),
            2208 => Ok(BuiltinOid::REGOPERARRAYOID),
            2209 => Ok(BuiltinOid::REGOPERATORARRAYOID),
            2204 => Ok(BuiltinOid::REGOPERATOROID),
            2203 => Ok(BuiltinOid::REGOPEROID),
            1008 => Ok(BuiltinOid::REGPROCARRAYOID),
            2207 => Ok(BuiltinOid::REGPROCEDUREARRAYOID),
            2202 => Ok(BuiltinOid::REGPROCEDUREOID),
            24 => Ok(BuiltinOid::REGPROCOID),
            4097 => Ok(BuiltinOid::REGROLEARRAYOID),
            4096 => Ok(BuiltinOid::REGROLEOID),
            2211 => Ok(BuiltinOid::REGTYPEARRAYOID),
            2206 => Ok(BuiltinOid::REGTYPEOID),
            1259 => Ok(BuiltinOid::RelationRelationId),
            2619 => Ok(BuiltinOid::StatisticRelationId),
            269 => Ok(BuiltinOid::TABLE_AM_HANDLEROID),
            1009 => Ok(BuiltinOid::TEXTARRAYOID),
            25 => Ok(BuiltinOid::TEXTOID),
            1010 => Ok(BuiltinOid::TIDARRAYOID),
            27 => Ok(BuiltinOid::TIDOID),
            1183 => Ok(BuiltinOid::TIMEARRAYOID),
            1083 => Ok(BuiltinOid::TIMEOID),
            1115 => Ok(BuiltinOid::TIMESTAMPARRAYOID),
            1114 => Ok(BuiltinOid::TIMESTAMPOID),
            1185 => Ok(BuiltinOid::TIMESTAMPTZARRAYOID),
            1184 => Ok(BuiltinOid::TIMESTAMPTZOID),
            1270 => Ok(BuiltinOid::TIMETZARRAYOID),
            1266 => Ok(BuiltinOid::TIMETZOID),
            2279 => Ok(BuiltinOid::TRIGGEROID),
            3310 => Ok(BuiltinOid::TSM_HANDLEROID),
            3645 => Ok(BuiltinOid::TSQUERYARRAYOID),
            3615 => Ok(BuiltinOid::TSQUERYOID),
            3909 => Ok(BuiltinOid::TSRANGEARRAYOID),
            3908 => Ok(BuiltinOid::TSRANGEOID),
            3911 => Ok(BuiltinOid::TSTZRANGEARRAYOID),
            3910 => Ok(BuiltinOid::TSTZRANGEOID),
            3643 => Ok(BuiltinOid::TSVECTORARRAYOID),
            3614 => Ok(BuiltinOid::TSVECTOROID),
            2949 => Ok(BuiltinOid::TXID_SNAPSHOTARRAYOID),
            2970 => Ok(BuiltinOid::TXID_SNAPSHOTOID),
            1213 => Ok(BuiltinOid::TableSpaceRelationId),
            1 => Ok(BuiltinOid::TemplateDbOid),
            2620 => Ok(BuiltinOid::TriggerRelationId),
            1247 => Ok(BuiltinOid::TypeRelationId),
            705 => Ok(BuiltinOid::UNKNOWNOID),
            2951 => Ok(BuiltinOid::UUIDARRAYOID),
            2950 => Ok(BuiltinOid::UUIDOID),
            1563 => Ok(BuiltinOid::VARBITARRAYOID),
            1562 => Ok(BuiltinOid::VARBITOID),
            1015 => Ok(BuiltinOid::VARCHARARRAYOID),
            1043 => Ok(BuiltinOid::VARCHAROID),
            2278 => Ok(BuiltinOid::VOIDOID),
            271 => Ok(BuiltinOid::XID8ARRAYOID),
            5069 => Ok(BuiltinOid::XID8OID),
            1011 => Ok(BuiltinOid::XIDARRAYOID),
            28 => Ok(BuiltinOid::XIDOID),
            143 => Ok(BuiltinOid::XMLARRAYOID),
            142 => Ok(BuiltinOid::XMLOID),
            _ => {
                assert forall|b: BuiltinOid| oid_value(b) != uint by {}
                Err(NotBuiltinOid::Ambiguous)
            },
        };
        proof {
            if let Ok(b) = r {
                assert(oid_value(b) == uint);
                assert(!(forall|b2: BuiltinOid| oid_value(b2) != uint));
            }
        }
        r
    }
}

} // verus!
