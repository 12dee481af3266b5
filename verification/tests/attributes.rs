use pgx_pg_sys::oids::{PgBuiltInOids, PgOid};
use pgx_pg_sys::tupdesc::{name_data_to_str, FormData_pg_attribute, NameData, NAMEDATALEN};

fn name(text: &str) -> NameData {
    let mut data = [0u8; NAMEDATALEN];
    data[..text.len()].copy_from_slice(text.as_bytes());
    NameData { data }
}

#[test]
fn name_data_text() {
    assert_eq!(name_data_to_str(&name("relname")), "relname");
    assert_eq!(name_data_to_str(&name("")), "");
    assert_eq!(name_data_to_str(&name("größe")), "größe");
}

#[test]
fn name_data_stops_at_first_nul() {
    let mut n = name("ab");
    n.data[3] = b'z';
    assert_eq!(name_data_to_str(&n), "ab");
}

#[test]
fn attribute_accessors() {
    let att = FormData_pg_attribute {
        attrelid: 16384,
        attname: name("id"),
        atttypid: 23,
        atttypmod: -1,
        attnum: 1,
        attisdropped: false,
    };
    assert_eq!(att.name(), "id");
    assert_eq!(att.type_oid(), PgOid::BuiltIn(PgBuiltInOids::INT4OID));
    assert_eq!(att.type_mod(), -1);
    assert_eq!(att.num(), 1);
    assert!(!att.is_dropped());
    assert_eq!(att.rel_id(), 16384);
}
