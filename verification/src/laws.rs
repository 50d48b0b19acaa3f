//! What holds of every validation, stated over the plain model.

use vstd::prelude::*;
use crate::header::canonical_all;
use crate::record::{lemma_record_keys, record_of};
use crate::schema::{required_within, MatchPolicy, SchemaView};
use crate::validate::{
    header_matches, incomplete_rows, is_incomplete, lacks_value, validated, Failure, ReportView,
};

verus! {

/// A row index is reported exactly when it is the index of an incomplete record.
pub proof fn lemma_reported_rows(
    records: Seq<Map<Seq<char>, Seq<char>>>,
    required: Seq<Seq<char>>,
    x: int,
)
    ensures
        incomplete_rows(records, required).contains(x) <==> (0 <= x < records.len()
            && is_incomplete(records[x], required)),
    decreases records.len(),
{
    if records.len() > 0 {
        let rest = incomplete_rows(records.drop_last(), required);
        lemma_reported_rows(records.drop_last(), required, x);
        if x < records.len() - 1 && 0 <= x {
            assert(records.drop_last()[x] == records[x]);
        }
        if is_incomplete(records.last(), required) {
            let all = rest.push(records.len() - 1);
            assert(all[rest.len() as int] == records.len() - 1);
            if rest.contains(x) {
                let k = choose|k: int| 0 <= k < rest.len() && rest[k] == x;
                assert(all[k] == x);
            }
            if all.contains(x) {
                let k = choose|k: int| 0 <= k < all.len() && all[k] == x;
                if k < rest.len() {
                    assert(rest[k] == x);
                }
            }
        }
    }
}

/// The reported row indices rise strictly, so none is reported twice.
pub proof fn lemma_reported_rows_rise(
    records: Seq<Map<Seq<char>, Seq<char>>>,
    required: Seq<Seq<char>>,
)
    ensures
        ({
            let rows = incomplete_rows(records, required);
            &&& forall|a: int, b: int| 0 <= a < b < rows.len() ==> rows[a] < rows[b]
            &&& forall|a: int| 0 <= a < rows.len() ==> 0 <= #[trigger] rows[a] < records.len()
        }),
    decreases records.len(),
{
    if records.len() > 0 {
        lemma_reported_rows_rise(records.drop_last(), required);
        let rest = incomplete_rows(records.drop_last(), required);
        let rows = incomplete_rows(records, required);
        assert forall|a: int| 0 <= a < rows.len() implies 0 <= #[trigger] rows[a] < records.len() by {
            if a < rest.len() {
                assert(rows[a] == rest[a]);
            }
        }
        assert forall|a: int, b: int| 0 <= a < b < rows.len() implies rows[a] < rows[b] by {
            assert(rows[a] == rest[a]);
            if b < rest.len() {
                assert(rows[b] == rest[b]);
            }
        }
    }
}

/// A table whose header matches the schema and that has data rows gives a
/// report: one record for every data row, each keyed by exactly the schema's
/// fields, and no row reported exactly when every required field has a
/// non-empty value in every record.
pub proof fn lemma_report_of_matching_table(table: Seq<Seq<Seq<char>>>, schema: SchemaView)
    requires
        table.len() >= 2,
        header_matches(schema.policy, canonical_all(table[0]), schema.fields),
        required_within(schema.required, schema.fields),
    ensures
        validated(table, schema) matches Ok(report) && {
            &&& report.data.len() == table.len() - 1
            &&& forall|i: int|
                0 <= i < report.data.len() ==> (#[trigger] report.data[i]).dom()
                    == schema.fields.to_set()
            &&& (report.errors.len() == 0 <==> forall|i: int, j: int|
                0 <= i < report.data.len() && 0 <= j < schema.required.len() ==> (
                #[trigger] report.data[i])[#[trigger] schema.required[j]].len() > 0)
        },
{
    let ids = canonical_all(table[0]);
    let required = schema.required;
    let report = validated(table, schema)->Ok_0;
    assert(ids.to_set() == schema.fields.to_set());
    assert forall|i: int| 0 <= i < report.data.len() implies (#[trigger] report.data[i]).dom()
        == schema.fields.to_set() by {
        lemma_record_keys(ids, table[i + 1]);
    }
    assert forall|i: int, j: int|
        0 <= i < report.data.len() && 0 <= j < required.len() implies (
    #[trigger] report.data[i]).contains_key(#[trigger] required[j]) by {
        assert(schema.fields.contains(required[j]));
        assert(schema.fields.to_set().contains(required[j]));
    }
    if report.errors.len() == 0 {
        assert forall|i: int, j: int|
            0 <= i < report.data.len() && 0 <= j < required.len() implies (
        #[trigger] report.data[i])[#[trigger] required[j]].len() > 0 by {
            lemma_reported_rows(report.data, required, i);
            if lacks_value(report.data[i], required[j]) {
                assert(is_incomplete(report.data[i], required));
                assert(report.errors.contains(i));
            }
        }
    } else {
        let x = report.errors[0];
        assert(report.errors.contains(x));
        lemma_reported_rows(report.data, required, x);
        let j = choose|j: int|
            0 <= j < required.len() && lacks_value(report.data[x], #[trigger] required[j]);
        assert(report.data[x].contains_key(required[j]));
        assert(report.data[x][required[j]].len() == 0);
    }
}

/// Rows in another order: where every data row of `moved` is a data row of
/// `table`, row `i` being row `from[i]` there, under the same header, the two
/// validations fail alike or both report; every record is the record of the row
/// it came from, and a row is reported exactly when the row it came from is.
pub proof fn lemma_report_follows_rows(
    table: Seq<Seq<Seq<char>>>,
    moved: Seq<Seq<Seq<char>>>,
    from: Seq<int>,
    schema: SchemaView,
)
    requires
        table.len() == moved.len(),
        table.len() > 0,
        moved[0] == table[0],
        from.len() == table.len() - 1,
        forall|i: int|
            0 <= i < from.len() ==> 0 <= #[trigger] from[i] < from.len() && moved[i + 1]
                == table[from[i] + 1],
    ensures
        match validated(table, schema) {
            Err(e) => validated(moved, schema) == Err::<ReportView, Failure>(e),
            Ok(report) => validated(moved, schema) matches Ok(other) && {
                &&& other.data.len() == report.data.len()
                &&& forall|i: int|
                    0 <= i < from.len() ==> other.data[i] == report.data[#[trigger] from[i]]
                &&& forall|i: int|
                    0 <= i < from.len() ==> (other.errors.contains(i) <==> report.errors.contains(
                        #[trigger] from[i],
                    ))
            },
        },
{
    if let Ok(report) = validated(table, schema) {
        let other = validated(moved, schema)->Ok_0;
        assert forall|i: int| 0 <= i < from.len() implies (other.errors.contains(i)
            <==> report.errors.contains(#[trigger] from[i])) by {
            lemma_reported_rows(other.data, schema.required, i);
            lemma_reported_rows(report.data, schema.required, from[i]);
        }
    }
}

/// The records that a report flags, whatever their place.
pub open spec fn reported_records(report: ReportView) -> Set<Map<Seq<char>, Seq<char>>> {
    Set::new(
        |m: Map<Seq<char>, Seq<char>>|
            exists|i: int|
                0 <= i < report.data.len() && report.errors.contains(i) && #[trigger] report.data[i]
                    == m,
    )
}

/// The same rows in another order are flagged alike: where the data rows of
/// `moved` are those of `table`, each of them taken, row `i` being row
/// `from[i]` there, the two reports flag the same records. The indices reported
/// move with the rows.
pub proof fn lemma_reported_records_stay(
    table: Seq<Seq<Seq<char>>>,
    moved: Seq<Seq<Seq<char>>>,
    from: Seq<int>,
    schema: SchemaView,
)
    requires
        table.len() == moved.len(),
        table.len() > 0,
        moved[0] == table[0],
        from.len() == table.len() - 1,
        forall|i: int|
            0 <= i < from.len() ==> 0 <= #[trigger] from[i] < from.len() && moved[i + 1]
                == table[from[i] + 1],
        forall|j: int| 0 <= j < from.len() ==> from.contains(j),
        validated(table, schema) is Ok,
    ensures
        validated(moved, schema) is Ok,
        reported_records(validated(moved, schema)->Ok_0) == reported_records(
            validated(table, schema)->Ok_0,
        ),
{
    lemma_report_follows_rows(table, moved, from, schema);
    let report = validated(table, schema)->Ok_0;
    let other = validated(moved, schema)->Ok_0;
    assert forall|m: Map<Seq<char>, Seq<char>>| reported_records(other).contains(m)
        <==> reported_records(report).contains(m) by {
        if reported_records(other).contains(m) {
            let i = choose|i: int|
                0 <= i < other.data.len() && other.errors.contains(i) && #[trigger] other.data[i]
                    == m;
            assert(report.errors.contains(from[i]));
            assert(report.data[from[i]] == m);
        }
        if reported_records(report).contains(m) {
            let j = choose|j: int|
                0 <= j < report.data.len() && report.errors.contains(j) && #[trigger] report.data[j]
                    == m;
            assert(from.contains(j));
            let i = choose|i: int| 0 <= i < from.len() && from[i] == j;
            assert(other.errors.contains(i));
            assert(other.data[i] == m);
        }
    }
    assert(reported_records(other) =~= reported_records(report));
}

/// A header that does not match the schema fails as a mismatch that names the
/// schema's fields and the header's identifiers, whatever the data rows hold
/// and however many there are.
pub proof fn lemma_mismatch_whatever_the_rows(table: Seq<Seq<Seq<char>>>, schema: SchemaView)
    requires
        table.len() > 0,
        !header_matches(schema.policy, canonical_all(table[0]), schema.fields),
    ensures
        validated(table, schema) == Err::<ReportView, Failure>(
            Failure::SchemaMismatch { expected: schema.fields, actual: canonical_all(table[0]) },
        ),
{
}

/// A header with one column more than the schema does not match. Where the
/// header is matched as a set, this holds of a column whose name the schema
/// does not have.
pub proof fn lemma_extra_column_is_mismatch(
    policy: MatchPolicy,
    fields: Seq<Seq<char>>,
    extra: Seq<char>,
    at: int,
)
    requires
        0 <= at <= fields.len(),
        policy == MatchPolicy::SameSet ==> !fields.contains(extra),
    ensures
        !header_matches(policy, fields.insert(at, extra), fields),
{
    let ids = fields.insert(at, extra);
    assert(ids.len() == fields.len() + 1);
    if policy == MatchPolicy::SameSet {
        assert(ids[at] == extra);
        assert(ids.to_set().contains(extra));
        assert(!fields.to_set().contains(extra));
    }
}

/// A header that lacks one column of the schema does not match. Where the
/// header is matched as a set, this holds of a schema without repeated fields.
pub proof fn lemma_missing_column_is_mismatch(policy: MatchPolicy, fields: Seq<Seq<char>>, at: int)
    requires
        0 <= at < fields.len(),
        policy == MatchPolicy::SameSet ==> fields.no_duplicates(),
    ensures
        !header_matches(policy, fields.remove(at), fields),
{
    let ids = fields.remove(at);
    assert(ids.len() == fields.len() - 1);
    if policy == MatchPolicy::SameSet {
        let gone = fields[at];
        assert(fields.to_set().contains(gone));
        if ids.contains(gone) {
            let k = choose|k: int| 0 <= k < ids.len() && ids[k] == gone;
            if k < at {
                assert(fields[k] == gone);
            } else {
                assert(fields[k + 1] == gone);
            }
        }
        assert(!ids.to_set().contains(gone));
    }
}

/// A header in which one column bears another name than the schema's does not
/// match. Where the header is matched as a set, this holds of a name that the
/// schema does not have.
pub proof fn lemma_misspelled_column_is_mismatch(
    policy: MatchPolicy,
    fields: Seq<Seq<char>>,
    at: int,
    wrong: Seq<char>,
)
    requires
        0 <= at < fields.len(),
        wrong != fields[at],
        policy == MatchPolicy::SameSet ==> !fields.contains(wrong),
    ensures
        !header_matches(policy, fields.update(at, wrong), fields),
{
    let ids = fields.update(at, wrong);
    assert(ids[at] == wrong);
    if policy == MatchPolicy::SameSet {
        assert(ids.to_set().contains(wrong));
        assert(!fields.to_set().contains(wrong));
    }
}

/// A table of a matching header row alone has no data.
pub proof fn lemma_header_alone_is_no_data(table: Seq<Seq<Seq<char>>>, schema: SchemaView)
    requires
        table.len() == 1,
        header_matches(schema.policy, canonical_all(table[0]), schema.fields),
    ensures
        validated(table, schema) == Err::<ReportView, Failure>(Failure::NoData),
{
}

} // verus!
