//! The mapper: turns one raw column declaration `(key, type)` into a
//! destination-language field name and scalar type.  The mapping is a pure
//! function of the raw pair, stated by [`field_name_of`] and [`go_value_of`].

use crate::casing::{pascal_of, replace_id_of};
use vstd::prelude::*;

verus! {

/// One column of a table: the raw declaration and, once mapped, the
/// destination-language field name and scalar type.
pub struct Pair {
    pub key: String,
    pub value: String,
    pub gokey: String,
    pub govalue: String,
}

/// The mathematical value of a [`Pair`]: its four strings as char sequences.
#[verifier::ext_equal]
pub ghost struct PairV {
    pub key: Seq<char>,
    pub value: Seq<char>,
    pub gokey: Seq<char>,
    pub govalue: Seq<char>,
}

impl View for Pair {
    type V = PairV;

    open spec fn view(&self) -> PairV {
        PairV {
            key: self.key@,
            value: self.value@,
            gokey: self.gokey@,
            govalue: self.govalue@,
        }
    }
}

impl Clone for Pair {
    fn clone(&self) -> (r: Self)
        ensures
            r@ == self@,
    {
        Pair {
            key: self.key.clone(),
            value: self.value.clone(),
            gokey: self.gokey.clone(),
            govalue: self.govalue.clone(),
        }
    }
}

/// The destination field name for a raw column name: the identifier column
/// keeps a dedicated full-uppercase spelling; any other name takes its
/// capitalized-word form with every literal `"Id"` substring rewritten to
/// `"ID"` (a blunt replacement, not bounded to word ends).
pub open spec fn field_name_of(key: Seq<char>) -> Seq<char> {
    if key == "id"@ {
        "ID"@
    } else {
        replace_id_of(pascal_of(key))
    }
}

/// The destination scalar type for a raw column type token.  Unrecognized
/// tokens pass through unchanged; this lookup never fails.
pub open spec fn go_value_of(value: Seq<char>) -> Seq<char> {
    if value == "bigserial"@ {
        "int64"@
    } else if value == "bigint"@ {
        "int64"@
    } else if value == "int"@ {
        "int32"@
    } else if value == "text"@ {
        "string"@
    } else if value == "timestamp(0)"@ {
        "time.Time"@
    } else if value == "uuid"@ {
        "pgxuuid.uuid"@
    } else if value == "float"@ {
        "float32"@
    } else {
        value
    }
}

/// A raw pair with both mapped fields filled in.
pub open spec fn mapped_pair(p: PairV) -> PairV {
    PairV { key: p.key, value: p.value, gokey: field_name_of(p.key), govalue: go_value_of(p.value) }
}

impl Pair {
    /// Fills in the mapped field name and scalar type from the raw pair.
    /// The raw pair itself is left unchanged.
    pub fn to_godb(&mut self)
        ensures
            final(self)@ == mapped_pair(old(self)@),
    {
        if crate::text::str_eq(self.key.as_str(), "id") {
            self.gokey = "ID".to_owned();
        } else {
            let p = crate::casing::to_pascal(self.key.as_str());
            self.gokey = crate::casing::replace_id(p.as_str());
        }
        if crate::text::str_eq(self.value.as_str(), "bigserial") {
            self.govalue = "int64".to_owned();
        } else if crate::text::str_eq(self.value.as_str(), "bigint") {
            self.govalue = "int64".to_owned();
        } else if crate::text::str_eq(self.value.as_str(), "int") {
            self.govalue = "int32".to_owned();
        } else if crate::text::str_eq(self.value.as_str(), "text") {
            self.govalue = "string".to_owned();
        } else if crate::text::str_eq(self.value.as_str(), "timestamp(0)") {
            self.govalue = "time.Time".to_owned();
        } else if crate::text::str_eq(self.value.as_str(), "uuid") {
            self.govalue = "pgxuuid.uuid".to_owned();
        } else if crate::text::str_eq(self.value.as_str(), "float") {
            self.govalue = "float32".to_owned();
        } else {
            self.govalue = self.value.clone();
        }
    }
}

/// Law: the mapper is deterministic.  Two raw pairs with the same raw name
/// and raw type map to the same field name and the same scalar type.
pub proof fn lemma_mapper_deterministic(p1: PairV, p2: PairV)
    requires
        p1.key == p2.key,
        p1.value == p2.value,
    ensures
        mapped_pair(p1).gokey == mapped_pair(p2).gokey,
        mapped_pair(p1).govalue == mapped_pair(p2).govalue,
{
}

} // verus!
