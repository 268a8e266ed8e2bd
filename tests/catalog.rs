use sql_entity_graph::oids::{BuiltinOid, NotBuiltinOid};

#[test]
fn builtin_oids() {
    assert_eq!(BuiltinOid::from_u32(0), Err(NotBuiltinOid::Invalid));
    assert_eq!(BuiltinOid::from_u32(16), Ok(BuiltinOid::BOOLOID));
    assert_eq!(BuiltinOid::from_u32(2950), Ok(BuiltinOid::UUIDOID));
    assert_eq!(BuiltinOid::from_u32(142), Ok(BuiltinOid::XMLOID));
    assert_eq!(BuiltinOid::from_u32(4), Err(NotBuiltinOid::Ambiguous));
    assert_eq!(BuiltinOid::from_u32(u32::MAX), Err(NotBuiltinOid::Ambiguous));
    assert_eq!(BuiltinOid::VARCHAROID.value(), 1043);
    assert_eq!(BuiltinOid::from_u32(BuiltinOid::CIDROID.value()), Ok(BuiltinOid::CIDROID));
}
