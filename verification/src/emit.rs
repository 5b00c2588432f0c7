//! The emitters: five pure functions from the schema model to text — type
//! definition, create, get, update, delete.  Each template is stated as a
//! spec function over the model's view, and each emitter is proved to return
//! exactly that text.

use crate::casing::camel_of;
use crate::mapper::PairV;
use crate::schema::{
    id_type_of, included, should_create, views_of_pairs, GoStruct, GoStructV,
};
use crate::text::{dec_str, num_to_string};
use vstd::prelude::*;

verus! {

/// One field line of the type definition per member, in declaration order,
/// each tagged with the raw column name for round-trip mapping.
pub open spec fn member_lines(ms: Seq<PairV>) -> Seq<char>
    decreases ms.len(),
{
    if ms.len() == 0 {
        Seq::<char>::empty()
    } else {
        "\t"@ + ms[0].gokey + " "@ + ms[0].govalue + " `db:\""@ + ms[0].key + "\"`\n"@
            + member_lines(ms.skip(1))
    }
}

/// The comma-separated raw column names of the non-reserved members, in
/// declaration order.
pub open spec fn create_cols(ms: Seq<PairV>, first: bool) -> Seq<char>
    decreases ms.len(),
{
    if ms.len() == 0 {
        Seq::<char>::empty()
    } else if !included(ms[0]) {
        create_cols(ms.skip(1), first)
    } else {
        (if first {
            Seq::<char>::empty()
        } else {
            ", "@
        }) + ms[0].key + create_cols(ms.skip(1), false)
    }
}

/// The comma-separated positional placeholders `$next, $next+1, ...`, one
/// per non-reserved member.
pub open spec fn placeholders(ms: Seq<PairV>, next: nat, first: bool) -> Seq<char>
    decreases ms.len(),
{
    if ms.len() == 0 {
        Seq::<char>::empty()
    } else if !included(ms[0]) {
        placeholders(ms.skip(1), next, first)
    } else {
        (if first {
            Seq::<char>::empty()
        } else {
            ", "@
        }) + "$"@ + dec_str(next) + placeholders(ms.skip(1), next + 1, false)
    }
}

/// The comma-separated field-value arguments `camel.FieldName`, one per
/// non-reserved member.
pub open spec fn call_args(ms: Seq<PairV>, camel: Seq<char>, first: bool) -> Seq<char>
    decreases ms.len(),
{
    if ms.len() == 0 {
        Seq::<char>::empty()
    } else if !included(ms[0]) {
        call_args(ms.skip(1), camel, first)
    } else {
        (if first {
            Seq::<char>::empty()
        } else {
            ", "@
        }) + camel + "."@ + ms[0].gokey + call_args(ms.skip(1), camel, false)
    }
}

/// The SET-clause assignments `col = $next, `, one per non-reserved member,
/// each with its own trailing separator.
pub open spec fn update_set(ms: Seq<PairV>, next: nat) -> Seq<char>
    decreases ms.len(),
{
    if ms.len() == 0 {
        Seq::<char>::empty()
    } else if !included(ms[0]) {
        update_set(ms.skip(1), next)
    } else {
        ms[0].key + " = $"@ + dec_str(next) + ", "@ + update_set(ms.skip(1), next + 1)
    }
}

/// How many members take part in insert and update statements.
pub open spec fn included_count(ms: Seq<PairV>) -> nat
    decreases ms.len(),
{
    if ms.len() == 0 {
        0
    } else {
        (if included(ms[0]) {
            1nat
        } else {
            0nat
        }) + included_count(ms.skip(1))
    }
}

/// The first WHERE-clause placeholder number of the update statement: the
/// SET-clause numbering continues sequentially, so with `N >= 1` non-reserved
/// members the identifier comparison takes `$N+1` (and the expected version
/// `$N+2`); with none it starts from `$2`.
pub open spec fn update_where_base(ms: Seq<PairV>) -> nat {
    if included_count(ms) == 0 {
        2
    } else {
        included_count(ms) + 1
    }
}

/// The members that survive the reserved-column filter, in declaration
/// order.
pub open spec fn non_reserved(ms: Seq<PairV>) -> Seq<PairV>
    decreases ms.len(),
{
    if ms.len() == 0 {
        Seq::<PairV>::empty()
    } else if included(ms[0]) {
        seq![ms[0]] + non_reserved(ms.skip(1))
    } else {
        non_reserved(ms.skip(1))
    }
}

/// Every member of the filtered list is non-reserved: neither its raw nor
/// its mapped spelling is a bookkeeping name.
pub proof fn lemma_non_reserved_only_included(ms: Seq<PairV>)
    ensures
        forall|j: int| 0 <= j < non_reserved(ms).len() ==> included(#[trigger] non_reserved(ms)[j]),
    decreases ms.len(),
{
    if ms.len() > 0 {
        lemma_non_reserved_only_included(ms.skip(1));
        if included(ms[0]) {
            assert forall|j: int| 0 <= j < non_reserved(ms).len() implies included(
                non_reserved(ms)[j],
            ) by {
                if j > 0 {
                    assert(non_reserved(ms)[j] == non_reserved(ms.skip(1))[j - 1]);
                }
            }
        }
    }
}

/// Law: reserved columns never appear as insert columns.  The rendered
/// column list of a member list equals that of the list with the reserved
/// members removed, so only non-reserved columns contribute to it.
pub proof fn lemma_create_cols_reserved_excluded(ms: Seq<PairV>, first: bool)
    ensures
        create_cols(ms, first) == create_cols(non_reserved(ms), first),
    decreases ms.len(),
{
    if ms.len() == 0 {
    } else if !included(ms[0]) {
        lemma_create_cols_reserved_excluded(ms.skip(1), first);
    } else {
        lemma_create_cols_reserved_excluded(ms.skip(1), false);
        let nr = non_reserved(ms);
        assert(nr[0] == ms[0]);
        assert(nr.skip(1) =~= non_reserved(ms.skip(1)));
        assert(create_cols(ms, first) =~= create_cols(nr, first));
    }
}

/// Law: reserved columns never appear as SET-targets.  The rendered
/// SET clause of a member list equals that of the list with the reserved
/// members removed.
pub proof fn lemma_update_set_reserved_excluded(ms: Seq<PairV>, next: nat)
    ensures
        update_set(ms, next) == update_set(non_reserved(ms), next),
    decreases ms.len(),
{
    if ms.len() == 0 {
    } else if !included(ms[0]) {
        lemma_update_set_reserved_excluded(ms.skip(1), next);
    } else {
        lemma_update_set_reserved_excluded(ms.skip(1), next + 1);
        let nr = non_reserved(ms);
        assert(nr[0] == ms[0]);
        assert(nr.skip(1) =~= non_reserved(ms.skip(1)));
        assert(update_set(ms, next) =~= update_set(nr, next));
    }
}

/// Law: reserved columns never appear as bound field-value arguments.  The
/// rendered argument list of a member list equals that of the list with the
/// reserved members removed.
pub proof fn lemma_call_args_reserved_excluded(ms: Seq<PairV>, camel: Seq<char>, first: bool)
    ensures
        call_args(ms, camel, first) == call_args(non_reserved(ms), camel, first),
    decreases ms.len(),
{
    if ms.len() == 0 {
    } else if !included(ms[0]) {
        lemma_call_args_reserved_excluded(ms.skip(1), camel, first);
    } else {
        lemma_call_args_reserved_excluded(ms.skip(1), camel, false);
        let nr = non_reserved(ms);
        assert(nr[0] == ms[0]);
        assert(nr.skip(1) =~= non_reserved(ms.skip(1)));
        assert(call_args(ms, camel, first) =~= call_args(nr, camel, first));
    }
}

/// The bounded-duration scoped acquisition and release wrapped around every
/// emitted database call.
pub open spec fn timeout_text() -> Seq<char> {
    "\tctx, cancel := context.WithTimeout(context.Background(), time.Second*3)\n\tdefer cancel()\n\n"@
}

/// The uniform error propagation and successful return of the emitted
/// routines.
pub open spec fn err_return_text() -> Seq<char> {
    "\tif err != nil {\n\t\treturn err\n\t}\n\n\treturn nil\n}\n"@
}

/// The field-tagged record type definition for a table.
pub open spec fn go_type_text(g: GoStructV) -> Seq<char> {
    "type "@ + g.go_type_name + " struct {\n"@ + member_lines(g.members) + "}\n"@
}

/// The insert routine: non-reserved columns and their positional
/// placeholders in declaration order, returning identifier and version.
/// The insert statement names the fixed table word `users`, whatever the
/// model's source table name.
pub open spec fn create_text(g: GoStructV) -> Seq<char> {
    "func Create"@ + g.go_type_name + "("@ + camel_of(g.go_type_name) + " *"@ + g.go_type_name
        + ", db DB) error {\n"@ + "\tq := `INSERT INTO users ("@ + create_cols(g.members, true)
        + ")\nVALUES ("@ + placeholders(g.members, 1, true) + ")\nRETURNING id, version`\n\n"@
        + timeout_text() + "\terr := db.QueryRow(ctx, q, "@ + call_args(
        g.members,
        camel_of(g.go_type_name),
        true,
    ) + ").Scan(&"@ + camel_of(g.go_type_name) + ".ID, &"@ + camel_of(g.go_type_name)
        + ".Version)\n\n"@ + err_return_text()
}

/// The fetch-by-identifier routine: select-all filtered by identifier
/// equality, parameterized over the identifier's mapped scalar type.
pub open spec fn get_text(g: GoStructV) -> Seq<char> {
    "func Get"@ + g.go_type_name + "(id "@ + id_type_of(g.members) + ", db DB) (*"@
        + g.go_type_name + ", error) {\n"@ + "\tq := `SELECT * FROM "@ + g.sql_type_name
        + " WHERE id = $1`\n\n"@
        + "\tctx, cancel := context.WithTimeout(context.Background(), time.Second*3)\n\tdefer cancel()\n\n\trows, err := db.Query(ctx, q, id)\n\tif err != nil {\n\t\treturn nil, err\n\t}\n\n"@
        + "\t"@ + camel_of(g.go_type_name) + ", err := pgx.CollectOneRow(rows, pgx.RowToStructByName["@
        + g.go_type_name + "])\n"@ + "\tif err != nil {\n\t\treturn nil, err\n\t}\n\n"@
        + "\treturn &"@ + camel_of(g.go_type_name) + ", nil\n}\n"@
}

/// The optimistic-concurrency update routine: every non-reserved column set
/// to a fresh placeholder, the version unconditionally incremented, the WHERE
/// clause requiring identifier and expected-version equality on the two
/// placeholders past the SET clause, and the new version returned.
pub open spec fn update_text(g: GoStructV) -> Seq<char> {
    "func Update"@ + g.go_type_name + "("@ + camel_of(g.go_type_name) + " *"@ + g.go_type_name
        + ", db DB) error {\n"@ + "\tq := `UPDATE "@ + g.sql_type_name + "\nSET "@ + update_set(
        g.members,
        1,
    ) + "version = version + 1\nWHERE id = $"@ + dec_str(update_where_base(g.members))
        + " AND version = $"@ + dec_str(update_where_base(g.members) + 1)
        + "\nRETURNING version`\n\n"@ + timeout_text() + "\terr := db.QueryRow(ctx, q, "@
        + call_args(g.members, camel_of(g.go_type_name), true) + ", "@ + camel_of(g.go_type_name)
        + ".ID, "@ + camel_of(g.go_type_name) + ".Version).Scan(&"@ + camel_of(g.go_type_name)
        + ".Version)\n\n"@ + err_return_text()
}

/// The delete-by-identifier routine, reporting zero affected rows as a
/// dedicated not-found condition rather than silent success.
pub open spec fn delete_text(g: GoStructV) -> Seq<char> {
    "func Delete"@ + g.go_type_name + "(id "@ + id_type_of(g.members) + ", db DB) error {\n"@
        + "\tq := `DELETE FROM "@ + g.sql_type_name + " WHERE id = $1`\n\n"@ + timeout_text()
        + "\tresult, err := db.Exec(ctx, q, id)\n\tif err != nil {\n\t\treturn err\n\t}\n\n\trowsAffected := result.RowsAffected()\n\n\tif rowsAffected == 0 {\n\t\treturn pgx.ErrNoRows\n\t}\n\n\treturn nil\n}\n"@
}

/// Appends one type-definition field line per member.
fn append_member_lines(out: &mut String, ms: &Vec<crate::mapper::Pair>)
    ensures
        final(out)@ == old(out)@ + member_lines(views_of_pairs(ms@)),
{
    let ghost v = views_of_pairs(ms@);
    let ghost orig = out@;
    let mut i: usize = 0;
    proof {
        assert(v.skip(0) =~= v);
        assert(orig + member_lines(v) =~= orig + member_lines(v.skip(0)));
    }
    while i < ms.len()
        invariant
            i <= ms.len(),
            v == views_of_pairs(ms@),
            orig + member_lines(v) == out@ + member_lines(v.skip(i as int)),
        decreases ms.len() - i,
    {
        proof {
            assert(v.skip(i as int)[0] == v[i as int]);
            assert(v.skip(i as int).skip(1) =~= v.skip(i as int + 1));
        }
        out.append("\t");
        out.append(ms[i].gokey.as_str());
        out.append(" ");
        out.append(ms[i].govalue.as_str());
        out.append(" `db:\"");
        out.append(ms[i].key.as_str());
        out.append("\"`\n");
        proof {
            assert(orig + member_lines(v) =~= out@ + member_lines(v.skip(i as int + 1)));
        }
        i = i + 1;
    }
    proof {
        assert(v.skip(ms@.len() as int) =~= Seq::<PairV>::empty());
        assert(out@ =~= orig + member_lines(v));
    }
}

/// Appends the comma-separated non-reserved raw column names.
fn append_create_cols(out: &mut String, ms: &Vec<crate::mapper::Pair>)
    ensures
        final(out)@ == old(out)@ + create_cols(views_of_pairs(ms@), true),
{
    let ghost v = views_of_pairs(ms@);
    let ghost orig = out@;
    let mut first = true;
    let mut i: usize = 0;
    proof {
        assert(v.skip(0) =~= v);
        assert(orig + create_cols(v, true) =~= orig + create_cols(v.skip(0), true));
    }
    while i < ms.len()
        invariant
            i <= ms.len(),
            v == views_of_pairs(ms@),
            orig + create_cols(v, true) == out@ + create_cols(v.skip(i as int), first),
        decreases ms.len() - i,
    {
        proof {
            assert(v.skip(i as int)[0] == v[i as int]);
            assert(v.skip(i as int).skip(1) =~= v.skip(i as int + 1));
        }
        if should_create(ms[i].key.as_str()) && should_create(ms[i].gokey.as_str()) {
            if !first {
                out.append(", ");
            }
            out.append(ms[i].key.as_str());
            first = false;
        }
        proof {
            assert(orig + create_cols(v, true) =~= out@ + create_cols(v.skip(i as int + 1), first));
        }
        i = i + 1;
    }
    proof {
        assert(v.skip(ms@.len() as int) =~= Seq::<PairV>::empty());
        assert(out@ =~= orig + create_cols(v, true));
    }
}

/// Appends the comma-separated positional placeholders, numbered from one.
fn append_placeholders(out: &mut String, ms: &Vec<crate::mapper::Pair>)
    requires
        ms@.len() + 1 <= usize::MAX,
    ensures
        final(out)@ == old(out)@ + placeholders(views_of_pairs(ms@), 1, true),
{
    let ghost v = views_of_pairs(ms@);
    let ghost orig = out@;
    let mut first = true;
    let mut next: usize = 1;
    let mut i: usize = 0;
    proof {
        assert(v.skip(0) =~= v);
        assert(orig + placeholders(v, 1, true) =~= orig + placeholders(v.skip(0), 1, true));
    }
    while i < ms.len()
        invariant
            i <= ms.len(),
            ms@.len() + 1 <= usize::MAX,
            next <= i + 1,
            v == views_of_pairs(ms@),
            orig + placeholders(v, 1, true) == out@ + placeholders(
                v.skip(i as int),
                next as nat,
                first,
            ),
        decreases ms.len() - i,
    {
        proof {
            assert(v.skip(i as int)[0] == v[i as int]);
            assert(v.skip(i as int).skip(1) =~= v.skip(i as int + 1));
        }
        if should_create(ms[i].key.as_str()) && should_create(ms[i].gokey.as_str()) {
            if !first {
                out.append(", ");
            }
            out.append("$");
            let n = num_to_string(next);
            out.append(n.as_str());
            first = false;
            next = next + 1;
        }
        proof {
            assert(orig + placeholders(v, 1, true) =~= out@ + placeholders(
                v.skip(i as int + 1),
                next as nat,
                first,
            ));
        }
        i = i + 1;
    }
    proof {
        assert(v.skip(ms@.len() as int) =~= Seq::<PairV>::empty());
        assert(out@ =~= orig + placeholders(v, 1, true));
    }
}

/// Appends the comma-separated field-value arguments `camel.FieldName`.
fn append_call_args(out: &mut String, ms: &Vec<crate::mapper::Pair>, camel: &str)
    ensures
        final(out)@ == old(out)@ + call_args(views_of_pairs(ms@), camel@, true),
{
    let ghost v = views_of_pairs(ms@);
    let ghost orig = out@;
    let mut first = true;
    let mut i: usize = 0;
    proof {
        assert(v.skip(0) =~= v);
        assert(orig + call_args(v, camel@, true) =~= orig + call_args(v.skip(0), camel@, true));
    }
    while i < ms.len()
        invariant
            i <= ms.len(),
            v == views_of_pairs(ms@),
            orig + call_args(v, camel@, true) == out@ + call_args(
                v.skip(i as int),
                camel@,
                first,
            ),
        decreases ms.len() - i,
    {
        proof {
            assert(v.skip(i as int)[0] == v[i as int]);
            assert(v.skip(i as int).skip(1) =~= v.skip(i as int + 1));
        }
        if should_create(ms[i].key.as_str()) && should_create(ms[i].gokey.as_str()) {
            if !first {
                out.append(", ");
            }
            out.append(camel);
            out.append(".");
            out.append(ms[i].gokey.as_str());
            first = false;
        }
        proof {
            assert(orig + call_args(v, camel@, true) =~= out@ + call_args(
                v.skip(i as int + 1),
                camel@,
                first,
            ));
        }
        i = i + 1;
    }
    proof {
        assert(v.skip(ms@.len() as int) =~= Seq::<PairV>::empty());
        assert(out@ =~= orig + call_args(v, camel@, true));
    }
}

/// Appends the SET-clause assignments, numbered from one.
fn append_update_set(out: &mut String, ms: &Vec<crate::mapper::Pair>)
    requires
        ms@.len() + 1 <= usize::MAX,
    ensures
        final(out)@ == old(out)@ + update_set(views_of_pairs(ms@), 1),
{
    let ghost v = views_of_pairs(ms@);
    let ghost orig = out@;
    let mut next: usize = 1;
    let mut i: usize = 0;
    proof {
        assert(v.skip(0) =~= v);
        assert(orig + update_set(v, 1) =~= orig + update_set(v.skip(0), 1));
    }
    while i < ms.len()
        invariant
            i <= ms.len(),
            ms@.len() + 1 <= usize::MAX,
            next <= i + 1,
            v == views_of_pairs(ms@),
            orig + update_set(v, 1) == out@ + update_set(v.skip(i as int), next as nat),
        decreases ms.len() - i,
    {
        proof {
            assert(v.skip(i as int)[0] == v[i as int]);
            assert(v.skip(i as int).skip(1) =~= v.skip(i as int + 1));
        }
        if should_create(ms[i].key.as_str()) && should_create(ms[i].gokey.as_str()) {
            out.append(ms[i].key.as_str());
            out.append(" = $");
            let n = num_to_string(next);
            out.append(n.as_str());
            out.append(", ");
            next = next + 1;
        }
        proof {
            assert(orig + update_set(v, 1) =~= out@ + update_set(
                v.skip(i as int + 1),
                next as nat,
            ));
        }
        i = i + 1;
    }
    proof {
        assert(v.skip(ms@.len() as int) =~= Seq::<PairV>::empty());
        assert(out@ =~= orig + update_set(v, 1));
    }
}

/// Counts the members that take part in insert and update statements.
fn count_included(ms: &Vec<crate::mapper::Pair>) -> (n: usize)
    ensures
        n == included_count(views_of_pairs(ms@)),
        n <= ms@.len(),
{
    let ghost v = views_of_pairs(ms@);
    let mut n: usize = 0;
    let mut i: usize = 0;
    proof {
        assert(v.skip(0) =~= v);
    }
    while i < ms.len()
        invariant
            i <= ms.len(),
            n <= i,
            v == views_of_pairs(ms@),
            included_count(v) == n + included_count(v.skip(i as int)),
        decreases ms.len() - i,
    {
        proof {
            assert(v.skip(i as int)[0] == v[i as int]);
            assert(v.skip(i as int).skip(1) =~= v.skip(i as int + 1));
        }
        if should_create(ms[i].key.as_str()) && should_create(ms[i].gokey.as_str()) {
            n = n + 1;
        }
        i = i + 1;
    }
    proof {
        assert(v.skip(ms@.len() as int) =~= Seq::<PairV>::empty());
    }
    n
}

/// Law: update parameter numbering.  For a model with `N >= 1` non-reserved
/// members, the update statement's WHERE clause references placeholders
/// `$N+1` (identifier) and `$N+2` (expected version), and its RETURNING
/// clause is the version column only.
pub proof fn lemma_update_parameter_numbering(g: GoStructV)
    requires
        included_count(g.members) >= 1,
    ensures
        ({
            let n = included_count(g.members);
            update_text(g) == "func Update"@ + g.go_type_name + "("@ + camel_of(g.go_type_name)
                + " *"@ + g.go_type_name + ", db DB) error {\n"@ + "\tq := `UPDATE "@
                + g.sql_type_name + "\nSET "@ + update_set(g.members, 1)
                + "version = version + 1\nWHERE id = $"@ + dec_str(n + 1) + " AND version = $"@
                + dec_str(n + 2) + "\nRETURNING version`\n\n"@ + timeout_text()
                + "\terr := db.QueryRow(ctx, q, "@ + call_args(
                g.members,
                camel_of(g.go_type_name),
                true,
            ) + ", "@ + camel_of(g.go_type_name) + ".ID, "@ + camel_of(g.go_type_name)
                + ".Version).Scan(&"@ + camel_of(g.go_type_name) + ".Version)\n\n"@
                + err_return_text()
        }),
{
    assert(update_where_base(g.members) == included_count(g.members) + 1);
}

impl GoStruct {
    /// Renders the field-tagged record type definition.
    pub fn make_go_type(&self) -> (r: String)
        ensures
            r@ == go_type_text(self@),
    {
        let mut s = "type ".to_owned();
        s.append(self.go_type_name.as_str());
        s.append(" struct {\n");
        append_member_lines(&mut s, &self.members);
        s.append("}\n");
        proof {
            assert(s@ =~= go_type_text(self@));
        }
        s
    }

    /// Renders the insert routine.
    pub fn make_go_create(&self) -> (r: String)
        requires
            self@.members.len() + 1 <= usize::MAX,
        ensures
            r@ == create_text(self@),
    {
        let camel = crate::casing::to_camel(self.go_type_name.as_str());
        let mut s = "func Create".to_owned();
        s.append(self.go_type_name.as_str());
        s.append("(");
        s.append(camel.as_str());
        s.append(" *");
        s.append(self.go_type_name.as_str());
        s.append(", db DB) error {\n");
        s.append("\tq := `INSERT INTO users (");
        append_create_cols(&mut s, &self.members);
        s.append(")\nVALUES (");
        append_placeholders(&mut s, &self.members);
        s.append(")\nRETURNING id, version`\n\n");
        s.append(
            "\tctx, cancel := context.WithTimeout(context.Background(), time.Second*3)\n\tdefer cancel()\n\n",
        );
        s.append("\terr := db.QueryRow(ctx, q, ");
        append_call_args(&mut s, &self.members, camel.as_str());
        s.append(").Scan(&");
        s.append(camel.as_str());
        s.append(".ID, &");
        s.append(camel.as_str());
        s.append(".Version)\n\n");
        s.append("\tif err != nil {\n\t\treturn err\n\t}\n\n\treturn nil\n}\n");
        proof {
            assert(s@ =~= create_text(self@));
        }
        s
    }

    /// Renders the fetch-by-identifier routine.
    pub fn make_go_get(&self) -> (r: String)
        ensures
            r@ == get_text(self@),
    {
        let camel = crate::casing::to_camel(self.go_type_name.as_str());
        let idt = self.id_type();
        let mut s = "func Get".to_owned();
        s.append(self.go_type_name.as_str());
        s.append("(id ");
        s.append(idt.as_str());
        s.append(", db DB) (*");
        s.append(self.go_type_name.as_str());
        s.append(", error) {\n");
        s.append("\tq := `SELECT * FROM ");
        s.append(self.sql_type_name.as_str());
        s.append(" WHERE id = $1`\n\n");
        s.append(
            "\tctx, cancel := context.WithTimeout(context.Background(), time.Second*3)\n\tdefer cancel()\n\n\trows, err := db.Query(ctx, q, id)\n\tif err != nil {\n\t\treturn nil, err\n\t}\n\n",
        );
        s.append("\t");
        s.append(camel.as_str());
        s.append(", err := pgx.CollectOneRow(rows, pgx.RowToStructByName[");
        s.append(self.go_type_name.as_str());
        s.append("])\n");
        s.append("\tif err != nil {\n\t\treturn nil, err\n\t}\n\n");
        s.append("\treturn &");
        s.append(camel.as_str());
        s.append(", nil\n}\n");
        proof {
            assert(s@ =~= get_text(self@));
        }
        s
    }

    /// Renders the optimistic-concurrency update routine.
    pub fn make_go_update(&self) -> (r: String)
        requires
            self@.members.len() + 2 <= usize::MAX,
        ensures
            r@ == update_text(self@),
    {
        let camel = crate::casing::to_camel(self.go_type_name.as_str());
        let n = count_included(&self.members);
        let base: usize = if n == 0 {
            2
        } else {
            n + 1
        };
        let mut s = "func Update".to_owned();
        s.append(self.go_type_name.as_str());
        s.append("(");
        s.append(camel.as_str());
        s.append(" *");
        s.append(self.go_type_name.as_str());
        s.append(", db DB) error {\n");
        s.append("\tq := `UPDATE ");
        s.append(self.sql_type_name.as_str());
        s.append("\nSET ");
        append_update_set(&mut s, &self.members);
        s.append("version = version + 1\nWHERE id = $");
        let b1 = num_to_string(base);
        s.append(b1.as_str());
        s.append(" AND version = $");
        let b2 = num_to_string(base + 1);
        s.append(b2.as_str());
        s.append("\nRETURNING version`\n\n");
        s.append(
            "\tctx, cancel := context.WithTimeout(context.Background(), time.Second*3)\n\tdefer cancel()\n\n",
        );
        s.append("\terr := db.QueryRow(ctx, q, ");
        append_call_args(&mut s, &self.members, camel.as_str());
        s.append(", ");
        s.append(camel.as_str());
        s.append(".ID, ");
        s.append(camel.as_str());
        s.append(".Version).Scan(&");
        s.append(camel.as_str());
        s.append(".Version)\n\n");
        s.append("\tif err != nil {\n\t\treturn err\n\t}\n\n\treturn nil\n}\n");
        proof {
            assert(base as nat == update_where_base(self@.members));
            assert(s@ =~= update_text(self@));
        }
        s
    }

    /// Renders the delete-by-identifier routine.
    pub fn make_go_delete(&self) -> (r: String)
        ensures
            r@ == delete_text(self@),
    {
        let idt = self.id_type();
        let mut s = "func Delete".to_owned();
        s.append(self.go_type_name.as_str());
        s.append("(id ");
        s.append(idt.as_str());
        s.append(", db DB) error {\n");
        s.append("\tq := `DELETE FROM ");
        s.append(self.sql_type_name.as_str());
        s.append(" WHERE id = $1`\n\n");
        s.append(
            "\tctx, cancel := context.WithTimeout(context.Background(), time.Second*3)\n\tdefer cancel()\n\n",
        );
        s.append(
            "\tresult, err := db.Exec(ctx, q, id)\n\tif err != nil {\n\t\treturn err\n\t}\n\n\trowsAffected := result.RowsAffected()\n\n\tif rowsAffected == 0 {\n\t\treturn pgx.ErrNoRows\n\t}\n\n\treturn nil\n}\n",
        );
        proof {
            assert(s@ =~= delete_text(self@));
        }
        s
    }
}

} // verus!
