//! Helper accessors for the attribute rows of a tuple descriptor, and the text of a
//! Postgres `NameData`.
use crate::oids::{Oid, PgOid};
use vstd::prelude::*;
use vstd::string::StringSliceAdditionalSpecFns;
use vstd::utf8::{decode_utf8, valid_utf8};

verus! {

/// The size of a Postgres `NameData` buffer, its terminating NUL included.
pub const NAMEDATALEN: usize = 64;

/// A fixed-size, NUL-terminated name (Postgres' `NameData`), as bytes.
#[derive(Copy, Clone, Debug)]
pub struct NameData {
    pub data: [u8; NAMEDATALEN],
}

/// True when `n` is the index of the first NUL byte in `s`.
pub open spec fn is_first_nul(s: Seq<u8>, n: int) -> bool {
    0 <= n < s.len() && s[n] == 0 && forall|i: int| 0 <= i < n ==> s[i] != 0
}

/// True when `s` holds a NUL byte.
pub open spec fn has_nul(s: Seq<u8>) -> bool {
    exists|n: int| is_first_nul(s, n)
}

/// The bytes of `s` before its first NUL byte.
pub open spec fn cstr_bytes(s: Seq<u8>) -> Seq<u8> {
    s.take(choose|n: int| is_first_nul(s, n))
}

/// The first NUL byte is unique.
proof fn lemma_first_nul_unique(s: Seq<u8>, n: int, m: int)
    requires
        is_first_nul(s, n),
        is_first_nul(s, m),
    ensures
        n == m,
{
    if n < m {
        assert(s[n] != 0);
    } else if m < n {
        assert(s[m] != 0);
    }
}

/// `std::str::from_utf8`: the bytes as a string exactly when they are valid UTF-8, and
/// then the string whose encoding they are.
#[verifier::external_body]
fn str_from_utf8(v: &[u8]) -> (r: Option<&str>)
    ensures
        r is Some <==> valid_utf8(v@),
        r matches Some(s) ==> s.spec_bytes() == v@,
{
    std::str::from_utf8(v).ok()
}

/// The text of a name: the bytes before the first NUL, decoded as UTF-8.  The name
/// must be NUL-terminated within its buffer, and its text must be valid UTF-8.
pub fn name_data_to_str(name_data: &NameData) -> (r: &str)
    requires
        has_nul(name_data.data@),
        valid_utf8(cstr_bytes(name_data.data@)),
    ensures
        r.spec_bytes() == cstr_bytes(name_data.data@),
        r@ == decode_utf8(cstr_bytes(name_data.data@)),
{
    let bytes = name_data.data.as_slice();
    let ghost s = name_data.data@;
    let mut n: usize = 0;
    while n < NAMEDATALEN
        invariant
            bytes@ == s,
            s.len() == NAMEDATALEN,
            has_nul(s),
            0 <= n <= NAMEDATALEN,
            forall|i: int| 0 <= i < n ==> s[i] != 0,
        ensures
            n == NAMEDATALEN || s[n as int] == 0,
        decreases NAMEDATALEN - n,
    {
        if bytes[n] == 0 {
            break;
        }
        n = n + 1;
    }
    proof {
        let k = choose|k: int| is_first_nul(s, k);
        if n == NAMEDATALEN {
            assert(s[k] != 0);
        }
        lemma_first_nul_unique(s, k, n as int);
    }
    let (prefix, _) = bytes.split_at(n);
    assert(prefix@ =~= cstr_bytes(s));
    let t = str_from_utf8(prefix).unwrap();
    proof {
        vstd::utf8::encode_utf8_decode_utf8(t@);
    }
    t
}

/// The fields of an attribute row (`pg_attribute`) that the accessors below read.
#[derive(Copy, Clone, Debug)]
pub struct FormData_pg_attribute {
    pub attrelid: Oid,
    pub attname: NameData,
    pub atttypid: Oid,
    pub atttypmod: i32,
    pub attnum: i16,
    pub attisdropped: bool,
}

impl FormData_pg_attribute {
    /// The attribute's name.
    pub fn name(&self) -> (r: &str)
        requires
            has_nul(self.attname.data@),
            valid_utf8(cstr_bytes(self.attname.data@)),
        ensures
            r@ == decode_utf8(cstr_bytes(self.attname.data@)),
    {
        name_data_to_str(&self.attname)
    }

    /// The attribute's type, sorted by kind.
    pub fn type_oid(&self) -> (r: PgOid)
        ensures
            r == PgOid::spec_from(self.atttypid),
    {
        PgOid::from(self.atttypid)
    }

    /// The attribute's type modifier.
    pub fn type_mod(&self) -> (r: i32)
        ensures
            r == self.atttypmod,
    {
        self.atttypmod
    }

    /// The attribute's number.
    pub fn num(&self) -> (r: i16)
        ensures
            r == self.attnum,
    {
        self.attnum
    }

    /// Whether the attribute has been dropped.
    pub fn is_dropped(&self) -> (r: bool)
        ensures
            r == self.attisdropped,
    {
        self.attisdropped
    }

    /// The OID of the relation the attribute belongs to.
    pub fn rel_id(&self) -> (r: Oid)
        ensures
            r == self.attrelid,
    {
        self.attrelid
    }
}

} // verus!
