//! The schema model: a table-level aggregate of mapped columns, the reserved
//! bookkeeping-column test, the identifier-type lookup, and the constructor
//! that builds the model from a raw table name and its raw column pairs.

use crate::casing::type_name_of;
use crate::mapper::{mapped_pair, Pair, PairV};
use crate::text::str_eq;
use vstd::prelude::*;

verus! {

/// The model of one table block: the source table name, the generated type
/// name, and the mapped columns in declaration order.
pub struct GoStruct {
    pub sql_type_name: String,
    pub go_type_name: String,
    pub members: Vec<Pair>,
}

/// The mathematical value of a [`GoStruct`].
#[verifier::ext_equal]
pub ghost struct GoStructV {
    pub sql_type_name: Seq<char>,
    pub go_type_name: Seq<char>,
    pub members: Seq<PairV>,
}

/// The views of a sequence of pairs.
pub open spec fn views_of_pairs(ps: Seq<Pair>) -> Seq<PairV> {
    ps.map_values(|p: Pair| p@)
}

impl View for GoStruct {
    type V = GoStructV;

    open spec fn view(&self) -> GoStructV {
        GoStructV {
            sql_type_name: self.sql_type_name@,
            go_type_name: self.go_type_name@,
            members: views_of_pairs(self.members@),
        }
    }
}

/// Whether a column name takes part in insert and update statements: the
/// bookkeeping columns (identifier, version, creation time, edit time) are
/// excluded, in both their raw snake-case and their mapped capitalized
/// spelling, by a case-sensitive match against this fixed set.
pub open spec fn should_create_spec(s: Seq<char>) -> bool {
    !(s == "id"@ || s == "ID"@ || s == "version"@ || s == "Version"@ || s == "create_time"@ || s
        == "CreateTime"@ || s == "edit_time"@ || s == "EditTime"@)
}

/// Decides [`should_create_spec`] for a column-name spelling.
pub fn should_create(s: &str) -> (r: bool)
    ensures
        r == should_create_spec(s@),
{
    !(str_eq(s, "id") || str_eq(s, "ID") || str_eq(s, "version") || str_eq(s, "Version") || str_eq(
        s,
        "create_time",
    ) || str_eq(s, "CreateTime") || str_eq(s, "edit_time") || str_eq(s, "EditTime"))
}

/// Whether a mapped column takes part in insert and update statements:
/// neither its raw nor its mapped spelling may be a reserved name.
pub open spec fn included(p: PairV) -> bool {
    should_create_spec(p.key) && should_create_spec(p.gokey)
}

/// The identifier column's mapped scalar type: the scalar type of the first
/// member whose field name is the full-uppercase identifier marker, or the
/// empty string if no such member exists.
pub open spec fn id_type_of(ms: Seq<PairV>) -> Seq<char>
    decreases ms.len(),
{
    if ms.len() == 0 {
        Seq::<char>::empty()
    } else if ms[0].gokey == "ID"@ {
        ms[0].govalue
    } else {
        id_type_of(ms.skip(1))
    }
}

/// The model built from a raw table name and raw column pairs: the table
/// name kept verbatim, the type name derived from it, and every pair mapped,
/// in declaration order.
pub open spec fn built_model(table: Seq<char>, pairs: Seq<PairV>) -> GoStructV {
    GoStructV {
        sql_type_name: table,
        go_type_name: type_name_of(table),
        members: pairs.map_values(|p: PairV| mapped_pair(p)),
    }
}

/// Runs every raw pair through the mapper, in declaration order.
pub fn map_pairs(pairs: Vec<Pair>) -> (out: Vec<Pair>)
    ensures
        views_of_pairs(out@) == views_of_pairs(pairs@).map_values(|p: PairV| mapped_pair(p)),
{
    let mut members: Vec<Pair> = Vec::new();
    let mut i: usize = 0;
    while i < pairs.len()
        invariant
            i <= pairs.len(),
            views_of_pairs(members@) =~= views_of_pairs(pairs@).take(i as int).map_values(
                |p: PairV| mapped_pair(p),
            ),
        decreases pairs.len() - i,
    {
        let ghost prev = members@;
        let mut p = pairs[i].clone();
        p.to_godb();
        proof {
            assert(p@ == mapped_pair(pairs@[i as int]@));
        }
        members.push(p);
        proof {
            assert(views_of_pairs(members@) =~= views_of_pairs(prev).push(
                mapped_pair(pairs@[i as int]@),
            ));
            assert(views_of_pairs(pairs@).take(i as int + 1).map_values(
                |q: PairV| mapped_pair(q),
            ) =~= views_of_pairs(pairs@).take(i as int).map_values(
                |q: PairV| mapped_pair(q),
            ).push(mapped_pair(pairs@[i as int]@)));
        }
        i = i + 1;
    }
    proof {
        assert(views_of_pairs(pairs@).take(pairs@.len() as int) =~= views_of_pairs(pairs@));
        assert(views_of_pairs(members@) =~= views_of_pairs(pairs@).map_values(
            |p: PairV| mapped_pair(p),
        ));
    }
    members
}

impl GoStruct {
    /// Builds the model of one table block: keeps the raw table name, derives
    /// the generated type name (trailing plural stripped, capitalized-word
    /// form), and runs every raw pair through the mapper in order.
    pub fn build(raw_table_name: &str, pairs: Vec<Pair>) -> (g: GoStruct)
        ensures
            g@ == built_model(raw_table_name@, views_of_pairs(pairs@)),
    {
        let go_type_name = crate::casing::to_type_name(raw_table_name);
        let members = map_pairs(pairs);
        let g = GoStruct { sql_type_name: raw_table_name.to_owned(), go_type_name, members };
        proof {
            assert(g@ =~= built_model(raw_table_name@, views_of_pairs(pairs@)));
        }
        g
    }

    /// Looks up the identifier column's mapped scalar type; the empty string
    /// if the table has no identifier-named column.
    pub fn id_type(&self) -> (r: String)
        ensures
            r@ == id_type_of(self@.members),
    {
        let mut i: usize = 0;
        proof {
            assert(self@.members.skip(0) =~= self@.members);
        }
        while i < self.members.len()
            invariant
                i <= self.members.len(),
                id_type_of(self@.members) == id_type_of(self@.members.skip(i as int)),
                forall|j: int| 0 <= j < i ==> self@.members[j].gokey != "ID"@,
            decreases self.members.len() - i,
        {
            proof {
                assert(self@.members.skip(i as int)[0] == self@.members[i as int]);
                assert(self@.members.skip(i as int).skip(1) =~= self@.members.skip(i as int + 1));
            }
            if str_eq(self.members[i].gokey.as_str(), "ID") {
                return self.members[i].govalue.clone();
            }
            i = i + 1;
        }
        proof {
            assert(self@.members.skip(self.members@.len() as int) =~= Seq::<PairV>::empty());
        }
        let r = String::new();
        proof {
            assert(r@ =~= id_type_of(self@.members));
        }
        r
    }
}

} // verus!
