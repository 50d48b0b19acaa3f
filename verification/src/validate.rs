//! Header matching, row extraction, the required-field scan and the report.
//!
//! A header row is matched against a schema by the schema's policy; the
//! schemas of the three record kinds ask for the same set of fields. Violations
//! are reported by row: the report lists, in rising order, the index of every
//! data row in which a required field has no value.

use vstd::prelude::*;
use vstd::string::*;
use crate::header::{canonical_all, normalize_headers, texts};
use crate::reader::{read_table, table_in, table_texts, FirstSheet, ReadError};
use crate::record::{cells_under, record_of, Record};
use crate::schema::{built_in, schema_for, MatchPolicy, RecordKind, Schema, SchemaView};

verus! {

/// Why a validation gave no report, over plain texts.
pub enum Failure {
    /// The bytes are no readable workbook.
    Decode,
    /// The sheet has no header row.
    EmptySheet,
    /// The header row does not name the schema's fields.
    SchemaMismatch { expected: Seq<Seq<char>>, actual: Seq<Seq<char>> },
    /// The sheet has a matching header row and no data row.
    NoData,
}

/// Why a validation gave no report.
#[derive(Debug)]
pub enum ValidationError {
    /// The bytes are no readable workbook.
    Decode,
    /// The sheet has no header row.
    EmptySheet,
    /// The header row does not name the schema's fields: `expected` holds the
    /// schema's fields, `actual` the identifiers of the header row.
    SchemaMismatch { expected: Vec<String>, actual: Vec<String> },
    /// The sheet has a matching header row and no data row.
    NoData,
}

impl View for ValidationError {
    type V = Failure;

    open spec fn view(&self) -> Failure {
        match self {
            ValidationError::Decode => Failure::Decode,
            ValidationError::EmptySheet => Failure::EmptySheet,
            ValidationError::SchemaMismatch { expected, actual } => Failure::SchemaMismatch {
                expected: texts(expected@),
                actual: texts(actual@),
            },
            ValidationError::NoData => Failure::NoData,
        }
    }
}

/// The short code by which a host tells the failures apart.
pub open spec fn code_of(failure: Failure) -> Seq<char> {
    match failure {
        Failure::Decode => "XLSX_ERROR"@,
        Failure::EmptySheet => "EMPTY_SHEET"@,
        Failure::SchemaMismatch { .. } => "INVALID_HEADERS"@,
        Failure::NoData => "EMPTY_ROWS"@,
    }
}

impl ValidationError {
    /// The short code of the failure.
    pub fn code(&self) -> (r: &'static str)
        ensures
            r@ == code_of(self@),
    {
        match self {
            ValidationError::Decode => "XLSX_ERROR",
            ValidationError::EmptySheet => "EMPTY_SHEET",
            ValidationError::SchemaMismatch { .. } => "INVALID_HEADERS",
            ValidationError::NoData => "EMPTY_ROWS",
        }
    }
}

/// A report over plain values: the record of every data row, in the rows'
/// order, and the indices of the rows that lack a required value.
pub struct ReportView {
    pub data: Seq<Map<Seq<char>, Seq<char>>>,
    pub errors: Seq<int>,
}

/// What a validation returns: every record, whether flagged or not, and the
/// indices into `data` of the records in which a required field has no value.
/// Empty `errors` mean that the submission is valid.
#[derive(Debug)]
pub struct ValidationReport {
    pub data: Vec<Record>,
    pub errors: Vec<usize>,
}

/// The records of a sequence, each by its view.
pub open spec fn record_views(records: Seq<Record>) -> Seq<Map<Seq<char>, Seq<char>>> {
    Seq::new(records.len(), |i: int| records[i]@)
}

/// Row indices as mathematical integers.
pub open spec fn indices(v: Seq<usize>) -> Seq<int> {
    Seq::new(v.len(), |i: int| v[i] as int)
}

impl View for ValidationReport {
    type V = ReportView;

    open spec fn view(&self) -> ReportView {
        ReportView { data: record_views(self.data@), errors: indices(self.errors@) }
    }
}

/// The header names the schema's fields: column by column, or as a set.
pub open spec fn header_matches(policy: MatchPolicy, ids: Seq<Seq<char>>, fields: Seq<Seq<char>>) -> bool {
    match policy {
        MatchPolicy::ExactOrder => ids == fields,
        MatchPolicy::SameSet => ids.to_set() == fields.to_set(),
    }
}

/// The record has no value for the field: it lacks the field or holds the empty text.
pub open spec fn lacks_value(record: Map<Seq<char>, Seq<char>>, field: Seq<char>) -> bool {
    !record.contains_key(field) || record[field].len() == 0
}

/// The record has no value for at least one required field.
pub open spec fn is_incomplete(record: Map<Seq<char>, Seq<char>>, required: Seq<Seq<char>>) -> bool {
    exists|j: int| 0 <= j < required.len() && lacks_value(record, #[trigger] required[j])
}

/// The indices of the incomplete records, in rising order, each once.
pub open spec fn incomplete_rows(
    records: Seq<Map<Seq<char>, Seq<char>>>,
    required: Seq<Seq<char>>,
) -> Seq<int>
    decreases records.len(),
{
    if records.len() == 0 {
        Seq::empty()
    } else if is_incomplete(records.last(), required) {
        incomplete_rows(records.drop_last(), required).push(records.len() - 1)
    } else {
        incomplete_rows(records.drop_last(), required)
    }
}

/// The records of the rows under a header of identifiers `ids`. The first row of
/// `table` is the header as it was read; the others are the data rows. A header
/// that does not match fails whatever the rows hold; a table without data rows
/// has no data.
pub open spec fn extracted_under(
    ids: Seq<Seq<char>>,
    table: Seq<Seq<Seq<char>>>,
    schema: SchemaView,
) -> Result<Seq<Map<Seq<char>, Seq<char>>>, Failure> {
    if !header_matches(schema.policy, ids, schema.fields) {
        Err(Failure::SchemaMismatch { expected: schema.fields, actual: ids })
    } else if table.len() <= 1 {
        Err(Failure::NoData)
    } else {
        Ok(Seq::new((table.len() - 1) as nat, |i: int| record_of(ids, table[i + 1])))
    }
}

/// The records of a table whose first row is the header: a table without rows
/// has no header; any other is read under the canonical identifiers of its
/// first row.
pub open spec fn extracted(table: Seq<Seq<Seq<char>>>, schema: SchemaView) -> Result<
    Seq<Map<Seq<char>, Seq<char>>>,
    Failure,
> {
    if table.len() == 0 {
        Err(Failure::EmptySheet)
    } else {
        extracted_under(canonical_all(table[0]), table, schema)
    }
}

/// The report on records: all of them, and the rows among them that are incomplete.
pub open spec fn report_on(records: Seq<Map<Seq<char>, Seq<char>>>, required: Seq<Seq<char>>) -> ReportView {
    ReportView { data: records, errors: incomplete_rows(records, required) }
}

/// The report on a table.
pub open spec fn validated(table: Seq<Seq<Seq<char>>>, schema: SchemaView) -> Result<
    ReportView,
    Failure,
> {
    match extracted(table, schema) {
        Err(e) => Err(e),
        Ok(records) => Ok(report_on(records, schema.required)),
    }
}

/// The failure that stands for a reading error.
pub open spec fn read_failure(e: ReadError) -> Failure {
    match e {
        ReadError::Decode => Failure::Decode,
        ReadError::EmptySheet => Failure::EmptySheet,
    }
}

/// The records of the workbook whose first sheet was read.
pub open spec fn extracted_from(sheet: FirstSheet, schema: SchemaView) -> Result<
    Seq<Map<Seq<char>, Seq<char>>>,
    Failure,
> {
    match table_in(sheet) {
        Err(e) => Err(read_failure(e)),
        Ok(table) => extracted(table, schema),
    }
}

/// The report on the workbook whose first sheet was read.
pub open spec fn validated_from(sheet: FirstSheet, schema: SchemaView) -> Result<ReportView, Failure> {
    match table_in(sheet) {
        Err(e) => Err(read_failure(e)),
        Ok(table) => validated(table, schema),
    }
}

/// Every record holds the identifiers `ids` as its fields and, as its values,
/// the cells of its row under them: record `k` is made of row `k + 1` of the
/// table, cut or filled with empty cells to the header's width.
pub open spec fn rows_under(
    records: Seq<Record>,
    ids: Seq<Seq<char>>,
    table: Seq<Seq<Seq<char>>>,
) -> bool {
    forall|k: int|
        0 <= k < records.len() ==> {
            &&& texts((#[trigger] records[k]).fields@) == ids
            &&& texts(records[k].values@) == cells_under(table[k + 1], ids.len())
        }
}

/// Every record is laid out under the canonical identifiers of the table's
/// first row.
pub open spec fn laid_out(records: Seq<Record>, table: Seq<Seq<Seq<char>>>) -> bool {
    rows_under(records, canonical_all(table[0]), table)
}

/// The views of a result of records.
pub open spec fn records_result(r: Result<Vec<Record>, ValidationError>) -> Result<
    Seq<Map<Seq<char>, Seq<char>>>,
    Failure,
> {
    match r {
        Ok(records) => Ok(record_views(records@)),
        Err(e) => Err(e@),
    }
}

/// The view of a validation's result.
pub open spec fn report_result(r: Result<ValidationReport, ValidationError>) -> Result<
    ReportView,
    Failure,
> {
    match r {
        Ok(report) => Ok(report@),
        Err(e) => Err(e@),
    }
}

/// Whether a text is among the texts of a list.
pub fn contains_text(list: &Vec<String>, text: &String) -> (b: bool)
    ensures
        b == texts(list@).contains(text@),
{
    let mut i: usize = 0;
    while i < list.len()
        invariant
            i <= list.len(),
            forall|k: int| 0 <= k < i ==> texts(list@)[k] != text@,
        decreases list.len() - i,
    {
        if list[i] == *text {
            assert(texts(list@)[i as int] == text@);
            return true;
        }
        i += 1;
    }
    false
}

/// Whether every text of `inner` is among the texts of `outer`.
pub fn all_within(inner: &Vec<String>, outer: &Vec<String>) -> (b: bool)
    ensures
        b == texts(inner@).to_set().subset_of(texts(outer@).to_set()),
{
    let mut i: usize = 0;
    while i < inner.len()
        invariant
            i <= inner.len(),
            forall|k: int| 0 <= k < i ==> texts(outer@).contains(#[trigger] texts(inner@)[k]),
        decreases inner.len() - i,
    {
        if !contains_text(outer, &inner[i]) {
            assert(texts(inner@)[i as int] == inner@[i as int]@);
            assert(texts(inner@).contains(texts(inner@)[i as int]));
            assert(texts(inner@).to_set().contains(texts(inner@)[i as int]));
            return false;
        }
        assert(texts(inner@)[i as int] == inner@[i as int]@);
        i += 1;
    }
    assert forall|t: Seq<char>| texts(inner@).to_set().contains(t) implies texts(
        outer@,
    ).to_set().contains(t) by {
        let k = choose|k: int| 0 <= k < texts(inner@).len() && texts(inner@)[k] == t;
        assert(texts(outer@).contains(texts(inner@)[k]));
    }
    true
}

/// Whether two lists hold the same texts in the same order.
pub fn same_texts(a: &Vec<String>, b: &Vec<String>) -> (same: bool)
    ensures
        same == (texts(a@) == texts(b@)),
{
    if a.len() != b.len() {
        assert(texts(a@).len() != texts(b@).len());
        return false;
    }
    let mut i: usize = 0;
    while i < a.len()
        invariant
            i <= a.len(),
            a.len() == b.len(),
            forall|k: int| 0 <= k < i ==> texts(a@)[k] == texts(b@)[k],
        decreases a.len() - i,
    {
        if a[i] != b[i] {
            assert(texts(a@)[i as int] != texts(b@)[i as int]);
            return false;
        }
        i += 1;
    }
    assert(texts(a@) =~= texts(b@));
    true
}

/// Whether a header row's identifiers match the schema's fields by its policy.
pub fn matches_schema(ids: &Vec<String>, schema: &Schema) -> (b: bool)
    ensures
        b == header_matches(schema@.policy, texts(ids@), schema@.fields),
{
    match schema.policy {
        MatchPolicy::ExactOrder => same_texts(ids, &schema.fields),
        MatchPolicy::SameSet => {
            let b = all_within(ids, &schema.fields) && all_within(&schema.fields, ids);
            proof {
                if b {
                    assert(texts(ids@).to_set() =~= schema@.fields.to_set());
                }
            }
            b
        },
    }
}

/// A copy of a list of strings.
fn clone_texts(list: &Vec<String>) -> (r: Vec<String>)
    ensures
        texts(r@) == texts(list@),
{
    let mut out: Vec<String> = Vec::new();
    let mut i: usize = 0;
    while i < list.len()
        invariant
            i <= list.len(),
            out.len() == i,
            forall|k: int| 0 <= k < i ==> #[trigger] out@[k]@ == list@[k]@,
        decreases list.len() - i,
    {
        out.push(list[i].clone());
        i += 1;
    }
    assert(texts(out@) =~= texts(list@));
    out
}

/// Turns the data rows of a table into records under a header that is already
/// normalized: matches the header against the schema and zips every row after
/// the first with it, in the rows' order.
pub fn extract_under_header(ids: Vec<String>, table: &Vec<Vec<String>>, schema: &Schema) -> (r: Result<
    Vec<Record>,
    ValidationError,
>)
    ensures
        records_result(r) == extracted_under(texts(ids@), table_texts(table@), schema@),
        r matches Ok(records) ==> rows_under(records@, texts(ids@), table_texts(table@)),
{
    if !matches_schema(&ids, schema) {
        let expected = clone_texts(&schema.fields);
        return Err(ValidationError::SchemaMismatch { expected, actual: ids });
    }
    if table.len() <= 1 {
        return Err(ValidationError::NoData);
    }
    let mut records: Vec<Record> = Vec::new();
    let mut i: usize = 1;
    while i < table.len()
        invariant
            1 <= i <= table.len(),
            records.len() == i - 1,
            forall|k: int|
                0 <= k < i - 1 ==> #[trigger] records@[k]@ == record_of(
                    texts(ids@),
                    texts(table@[k + 1]@),
                ),
            forall|k: int|
                0 <= k < i - 1 ==> {
                    &&& texts((#[trigger] records@[k]).fields@) == texts(ids@)
                    &&& texts(records@[k].values@) == cells_under(
                        texts(table@[k + 1]@),
                        texts(ids@).len(),
                    )
                },
        decreases table.len() - i,
    {
        records.push(Record::from_row(&ids, &table[i]));
        i += 1;
    }
    proof {
        let t = table_texts(table@);
        let want = Seq::new((t.len() - 1) as nat, |i: int| record_of(texts(ids@), t[i + 1]));
        assert forall|k: int| 0 <= k < want.len() implies record_views(records@)[k] == want[k] by {
            assert(t[k + 1] == texts(table@[k + 1]@));
        }
        assert(record_views(records@) =~= want);
        assert forall|k: int| 0 <= k < records@.len() implies {
            &&& texts((#[trigger] records@[k]).fields@) == texts(ids@)
            &&& texts(records@[k].values@) == cells_under(t[k + 1], texts(ids@).len())
        } by {
            assert(t[k + 1] == texts(table@[k + 1]@));
        }
    }
    Ok(records)
}

/// Turns a table into records: normalizes the header row, matches it against
/// the schema and zips every data row with the header, in the rows' order.
pub fn extract_records(table: &Vec<Vec<String>>, schema: &Schema) -> (r: Result<
    Vec<Record>,
    ValidationError,
>)
    ensures
        records_result(r) == extracted(table_texts(table@), schema@),
        r matches Ok(records) ==> laid_out(records@, table_texts(table@)),
{
    if table.len() == 0 {
        return Err(ValidationError::EmptySheet);
    }
    let ids = normalize_headers(&table[0]);
    assert(table_texts(table@)[0] == texts(table@[0]@));
    extract_under_header(ids, table, schema)
}

impl Record {
    /// Whether the record has no value for at least one of the required fields.
    pub fn is_incomplete(&self, required: &Vec<String>) -> (b: bool)
        ensures
            b == is_incomplete(self@, texts(required@)),
    {
        let mut j: usize = 0;
        while j < required.len()
            invariant
                j <= required.len(),
                forall|k: int| 0 <= k < j ==> !lacks_value(self@, #[trigger] texts(required@)[k]),
            decreases required.len() - j,
        {
            assert(texts(required@)[j as int] == required@[j as int]@);
            let empty = match self.get(required[j].as_str()) {
                None => true,
                Some(v) => v.as_str().is_empty(),
            };
            if empty {
                assert(lacks_value(self@, texts(required@)[j as int]));
                return true;
            }
            j += 1;
        }
        false
    }
}

/// Scans the records for required fields without a value and lists the indices
/// of the records that have one, in rising order, each once.
pub fn find_incomplete_rows(records: &Vec<Record>, required: &Vec<String>) -> (errors: Vec<usize>)
    ensures
        indices(errors@) == incomplete_rows(record_views(records@), texts(required@)),
{
    let mut errors: Vec<usize> = Vec::new();
    let mut i: usize = 0;
    assert(record_views(records@).subrange(0, 0) =~= Seq::empty());
    assert(indices(errors@) =~= Seq::empty());
    while i < records.len()
        invariant
            i <= records.len(),
            indices(errors@) == incomplete_rows(
                record_views(records@).subrange(0, i as int),
                texts(required@),
            ),
        decreases records.len() - i,
    {
        proof {
            let next = record_views(records@).subrange(0, i + 1);
            assert(next.drop_last() =~= record_views(records@).subrange(0, i as int));
            assert(next.last() == records@[i as int]@);
        }
        let ghost before = indices(errors@);
        if records[i].is_incomplete(required) {
            errors.push(i);
            assert(indices(errors@) =~= before.push(i as int));
        }
        i += 1;
    }
    assert(record_views(records@).subrange(0, records.len() as int) =~= record_views(records@));
    errors
}

/// Scans the records and puts the report together: every record stays in it,
/// whether reported or not.
pub fn report_of(data: Vec<Record>, required: &Vec<String>) -> (report: ValidationReport)
    ensures
        report@ == report_on(record_views(data@), texts(required@)),
        report.data == data,
{
    let errors = find_incomplete_rows(&data, required);
    ValidationReport { data, errors }
}

/// Validates a table against a schema: the records of its data rows and the
/// rows that lack a required value, or the reason why there is no report.
pub fn validate_table(table: &Vec<Vec<String>>, schema: &Schema) -> (r: Result<
    ValidationReport,
    ValidationError,
>)
    ensures
        report_result(r) == validated(table_texts(table@), schema@),
        r matches Ok(report) ==> laid_out(report.data@, table_texts(table@)),
{
    match extract_records(table, schema) {
        Err(e) => Err(e),
        Ok(data) => Ok(report_of(data, &schema.required)),
    }
}

/// Turns the first sheet that was read into records.
pub fn read_excel_file(sheet: &FirstSheet, schema: &Schema) -> (r: Result<Vec<Record>, ValidationError>)
    ensures
        records_result(r) == extracted_from(*sheet, schema@),
        r matches Ok(records) ==> laid_out(records@, table_in(*sheet)->Ok_0),
{
    match read_table(sheet) {
        Err(ReadError::Decode) => Err(ValidationError::Decode),
        Err(ReadError::EmptySheet) => Err(ValidationError::EmptySheet),
        Ok(table) => extract_records(&table, schema),
    }
}

/// Validates the first sheet that was read against a schema.
pub fn validate_from_schema(sheet: &FirstSheet, schema: &Schema) -> (r: Result<
    ValidationReport,
    ValidationError,
>)
    ensures
        report_result(r) == validated_from(*sheet, schema@),
        r matches Ok(report) ==> laid_out(report.data@, table_in(*sheet)->Ok_0),
{
    match read_excel_file(sheet, schema) {
        Err(e) => Err(e),
        Ok(data) => Ok(report_of(data, &schema.required)),
    }
}

/// Validates the first sheet that was read as a sheet of the given record kind.
pub fn validate(sheet: &FirstSheet, kind: RecordKind) -> (r: Result<ValidationReport, ValidationError>)
    ensures
        report_result(r) == validated_from(*sheet, built_in(kind)),
        r matches Ok(report) ==> laid_out(report.data@, table_in(*sheet)->Ok_0),
{
    let schema = schema_for(kind);
    validate_from_schema(sheet, &schema)
}

/// Validates a workbook of museological records.
pub fn validate_museologico(sheet: &FirstSheet) -> (r: Result<ValidationReport, ValidationError>)
    ensures
        report_result(r) == validated_from(*sheet, built_in(RecordKind::Museological)),
        r matches Ok(report) ==> laid_out(report.data@, table_in(*sheet)->Ok_0),
{
    validate(sheet, RecordKind::Museological)
}

/// Validates a workbook of bibliographic records.
pub fn validate_bibliografico(sheet: &FirstSheet) -> (r: Result<ValidationReport, ValidationError>)
    ensures
        report_result(r) == validated_from(*sheet, built_in(RecordKind::Bibliographic)),
        r matches Ok(report) ==> laid_out(report.data@, table_in(*sheet)->Ok_0),
{
    validate(sheet, RecordKind::Bibliographic)
}

/// Validates a workbook of archival records.
pub fn validate_arquivistico(sheet: &FirstSheet) -> (r: Result<ValidationReport, ValidationError>)
    ensures
        report_result(r) == validated_from(*sheet, built_in(RecordKind::Archival)),
        r matches Ok(report) ==> laid_out(report.data@, table_in(*sheet)->Ok_0),
{
    validate(sheet, RecordKind::Archival)
}

} // verus!
