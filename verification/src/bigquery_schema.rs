use vstd::prelude::*;

use crate::errors::CoreError;
use crate::locator::{
    Features, IfExistsFeatures, OperationSet, PathOrStdio, parse_path_or_stdio,
};
use crate::schema::{Column, ColumnModel, DataType, Table, names_unique};
use crate::text::{str_concat, str_eq};

verus! {

/// One column descriptor of a schema-interchange document: the column's
/// name, its native type tag, its nullability mode (absent means
/// nullable), and an optional description.
#[derive(Clone, Debug)]
pub struct BqColumnRecord {
    pub name: String,
    pub bq_type: String,
    pub mode: Option<String>,
    pub description: Option<String>,
}

/// The mathematical value of a `BqColumnRecord`.
pub struct BqColumnRecordModel {
    pub name: Seq<char>,
    pub bq_type: Seq<char>,
    pub mode: Option<Seq<char>>,
    pub description: Option<Seq<char>>,
}

impl View for BqColumnRecord {
    type V = BqColumnRecordModel;

    open spec fn view(&self) -> BqColumnRecordModel {
        BqColumnRecordModel {
            name: self.name@,
            bq_type: self.bq_type@,
            mode: match self.mode {
                Some(m) => Some(m@),
                None => None,
            },
            description: match self.description {
                Some(d) => Some(d@),
                None => None,
            },
        }
    }
}

impl DeepView for BqColumnRecord {
    type V = BqColumnRecordModel;

    open spec fn deep_view(&self) -> BqColumnRecordModel {
        self@
    }
}

/// The native type tag written for each portable column kind; kinds the
/// interchange vocabulary lacks are written as the nearest wider tag.
pub open spec fn spec_bq_type(dt: DataType) -> Seq<char> {
    match dt {
        DataType::Bool => "BOOL"@,
        DataType::Date => "DATE"@,
        DataType::Decimal => "NUMERIC"@,
        DataType::Float32 => "FLOAT64"@,
        DataType::Float64 => "FLOAT64"@,
        DataType::Int16 => "INT64"@,
        DataType::Int32 => "INT64"@,
        DataType::Int64 => "INT64"@,
        DataType::Json => "STRING"@,
        DataType::Text => "STRING"@,
        DataType::TimestampWithoutTimeZone => "DATETIME"@,
        DataType::TimestampWithTimeZone => "TIMESTAMP"@,
    }
}

/// The portable kind a native type tag reads back as, if it is known.
pub open spec fn spec_data_type_of(t: Seq<char>) -> Option<DataType> {
    if t == "BOOL"@ || t == "BOOLEAN"@ {
        Some(DataType::Bool)
    } else if t == "DATE"@ {
        Some(DataType::Date)
    } else if t == "NUMERIC"@ {
        Some(DataType::Decimal)
    } else if t == "FLOAT64"@ || t == "FLOAT"@ {
        Some(DataType::Float64)
    } else if t == "INT64"@ || t == "INTEGER"@ {
        Some(DataType::Int64)
    } else if t == "STRING"@ {
        Some(DataType::Text)
    } else if t == "DATETIME"@ {
        Some(DataType::TimestampWithoutTimeZone)
    } else if t == "TIMESTAMP"@ {
        Some(DataType::TimestampWithTimeZone)
    } else {
        None
    }
}

/// The kinds that survive the trip through the interchange vocabulary
/// unchanged. The others are widened on the way out (for example, 32-bit
/// floats come back as 64-bit floats).
pub open spec fn bq_lossless(dt: DataType) -> bool {
    match dt {
        DataType::Bool => true,
        DataType::Date => true,
        DataType::Decimal => true,
        DataType::Float64 => true,
        DataType::Int64 => true,
        DataType::Text => true,
        DataType::TimestampWithoutTimeZone => true,
        DataType::TimestampWithTimeZone => true,
        _ => false,
    }
}

/// Write one portable kind as its native type tag.
pub fn bq_type_of(dt: DataType) -> (t: String)
    ensures
        t@ == spec_bq_type(dt),
{
    match dt {
        DataType::Bool => String::from_str("BOOL"),
        DataType::Date => String::from_str("DATE"),
        DataType::Decimal => String::from_str("NUMERIC"),
        DataType::Float32 => String::from_str("FLOAT64"),
        DataType::Float64 => String::from_str("FLOAT64"),
        DataType::Int16 => String::from_str("INT64"),
        DataType::Int32 => String::from_str("INT64"),
        DataType::Int64 => String::from_str("INT64"),
        DataType::Json => String::from_str("STRING"),
        DataType::Text => String::from_str("STRING"),
        DataType::TimestampWithoutTimeZone => String::from_str("DATETIME"),
        DataType::TimestampWithTimeZone => String::from_str("TIMESTAMP"),
    }
}

/// Read a native type tag back as a portable kind; an unknown tag is a
/// structural error naming the tag.
pub fn data_type_of_bq(t: &str) -> (r: Result<DataType, CoreError>)
    ensures
        r is Ok <==> spec_data_type_of(t@) is Some,
        r is Ok ==> Some(r->Ok_0) == spec_data_type_of(t@),
        r is Err ==> r->Err_0 is UnexpectedContent,
{
    if str_eq(t, "BOOL") || str_eq(t, "BOOLEAN") {
        Ok(DataType::Bool)
    } else if str_eq(t, "DATE") {
        Ok(DataType::Date)
    } else if str_eq(t, "NUMERIC") {
        Ok(DataType::Decimal)
    } else if str_eq(t, "FLOAT64") || str_eq(t, "FLOAT") {
        Ok(DataType::Float64)
    } else if str_eq(t, "INT64") || str_eq(t, "INTEGER") {
        Ok(DataType::Int64)
    } else if str_eq(t, "STRING") {
        Ok(DataType::Text)
    } else if str_eq(t, "DATETIME") {
        Ok(DataType::TimestampWithoutTimeZone)
    } else if str_eq(t, "TIMESTAMP") {
        Ok(DataType::TimestampWithTimeZone)
    } else {
        Err(CoreError::UnexpectedContent {
            message: str_concat("unsupported BigQuery column type: ", t),
        })
    }
}

/// Nullability read from a descriptor's mode: absent or `NULLABLE` means
/// nullable, `REQUIRED` means not; any other mode (such as `REPEATED`) is
/// outside this core's vocabulary.
pub open spec fn spec_nullable_of_mode(mode: Option<Seq<char>>) -> Option<bool> {
    match mode {
        None => Some(true),
        Some(m) => if m == "NULLABLE"@ {
            Some(true)
        } else if m == "REQUIRED"@ {
            Some(false)
        } else {
            None
        },
    }
}

/// Read a descriptor's mode; an unsupported mode is a structural error.
pub fn nullable_of_mode(mode: &Option<String>) -> (r: Result<bool, CoreError>)
    ensures
        r is Ok <==> spec_nullable_of_mode(deep_view_of_mode(*mode)) is Some,
        r is Ok ==> Some(r->Ok_0) == spec_nullable_of_mode(deep_view_of_mode(*mode)),
        r is Err ==> r->Err_0 is UnexpectedContent,
{
    match mode {
        None => Ok(true),
        Some(m) => {
            if str_eq(m.as_str(), "NULLABLE") {
                Ok(true)
            } else if str_eq(m.as_str(), "REQUIRED") {
                Ok(false)
            } else {
                Err(CoreError::UnexpectedContent {
                    message: str_concat("unsupported BigQuery column mode: ", m.as_str()),
                })
            }
        },
    }
}

/// The view of an optional string.
pub open spec fn deep_view_of_mode(mode: Option<String>) -> Option<Seq<char>> {
    match mode {
        Some(m) => Some(m@),
        None => None,
    }
}

/// The descriptor written for one column.
pub open spec fn spec_record_of_column(c: ColumnModel) -> BqColumnRecordModel {
    BqColumnRecordModel {
        name: c.name,
        bq_type: spec_bq_type(c.data_type),
        mode: Some(if c.is_nullable { "NULLABLE"@ } else { "REQUIRED"@ }),
        description: c.comment,
    }
}

/// The column one descriptor reads back as, if its type tag and mode are
/// within the vocabulary.
pub open spec fn spec_column_of_record(r: BqColumnRecordModel) -> Option<ColumnModel> {
    match spec_data_type_of(r.bq_type) {
        None => None,
        Some(dt) => match spec_nullable_of_mode(r.mode) {
            None => None,
            Some(nullable) => Some(
                ColumnModel {
                    name: r.name,
                    data_type: dt,
                    is_nullable: nullable,
                    comment: r.description,
                },
            ),
        },
    }
}

/// Every descriptor of the document reads back as a column.
pub open spec fn records_ok(recs: Seq<BqColumnRecordModel>) -> bool {
    forall|i: int| 0 <= i < recs.len() ==> spec_column_of_record(recs[i]) is Some
}

/// The columns a document reads back as, assuming `records_ok`.
pub open spec fn columns_of_records(recs: Seq<BqColumnRecordModel>) -> Seq<ColumnModel> {
    recs.map_values(|r: BqColumnRecordModel| spec_column_of_record(r)->Some_0)
}

/// Read one descriptor back as a column.
pub fn record_to_column(rec: &BqColumnRecord) -> (r: Result<Column, CoreError>)
    ensures
        r is Ok <==> spec_column_of_record(rec@) is Some,
        r is Ok ==> Some(r->Ok_0@) == spec_column_of_record(rec@),
        r is Err ==> r->Err_0 is UnexpectedContent,
{
    let data_type = data_type_of_bq(rec.bq_type.as_str())?;
    let is_nullable = nullable_of_mode(&rec.mode)?;
    let comment = match &rec.description {
        Some(d) => Some(d.clone()),
        None => None,
    };
    Ok(Column { name: rec.name.clone(), data_type, is_nullable, comment })
}

/// Read a whole schema-interchange document into a generic table. The
/// document carries no table identity, so the table gets the fixed
/// placeholder name `unnamed`. A descriptor outside the vocabulary is a
/// structural error; a duplicate column name breaks the table invariant
/// and is a validation error.
pub fn records_to_table(records: &Vec<BqColumnRecord>) -> (r: Result<Table, CoreError>)
    ensures
        r is Ok <==> records_ok(records.deep_view()) && names_unique(
            columns_of_records(records.deep_view()),
        ),
        r is Ok ==> r->Ok_0@.name == "unnamed"@ && r->Ok_0@.columns == columns_of_records(
            records.deep_view(),
        ) && r->Ok_0.wf(),
        !records_ok(records.deep_view()) ==> r is Err && r->Err_0 is UnexpectedContent,
{
    let ghost recs = records.deep_view();
    let mut columns: Vec<Column> = Vec::new();
    let n = records.len();
    let mut i: usize = 0;
    while i < n
        invariant
            i <= n,
            n == records.len(),
            recs == records.deep_view(),
            records_ok(recs.take(i as int)),
            columns.deep_view() =~= columns_of_records(recs.take(i as int)),
        decreases n - i,
    {
        match record_to_column(&records[i]) {
            Ok(c) => {
                let ghost prev = columns.deep_view();
                let ghost cm = c@;
                proof {
                    assert(Some(cm) == spec_column_of_record(recs[i as int]));
                }
                columns.push(c);
                proof {
                    assert(columns.deep_view() =~= prev.push(cm));
                    assert(columns_of_records(recs.take(i + 1)) =~= columns_of_records(
                        recs.take(i as int),
                    ).push(spec_column_of_record(recs[i as int])->Some_0));
                    assert(columns.deep_view() =~= columns_of_records(recs.take(i + 1)));
                }
            },
            Err(e) => {
                proof {
                    assert(spec_column_of_record(recs[i as int]) is None);
                }
                return Err(e);
            },
        }
        i += 1;
    }
    proof {
        assert(recs.take(n as int) =~= recs);
    }
    let name = String::from_str("unnamed");
    Table::new(name, columns)
}

/// Write a table's columns as a schema-interchange document. The table's
/// own name is discarded: the document format carries no table identity.
pub fn table_to_records(table: &Table) -> (r: Vec<BqColumnRecord>)
    ensures
        r.deep_view() == table@.columns.map_values(
            |c: ColumnModel| spec_record_of_column(c),
        ),
{
    let ghost cols = table@.columns;
    let mut records: Vec<BqColumnRecord> = Vec::new();
    let n = table.columns.len();
    let mut i: usize = 0;
    while i < n
        invariant
            i <= n,
            n == table.columns.len(),
            cols == table@.columns,
            records.deep_view() =~= cols.take(i as int).map_values(
                |c: ColumnModel| spec_record_of_column(c),
            ),
        decreases n - i,
    {
        let col = &table.columns[i];
        let mode = if col.is_nullable {
            String::from_str("NULLABLE")
        } else {
            String::from_str("REQUIRED")
        };
        let description = match &col.comment {
            Some(d) => Some(d.clone()),
            None => None,
        };
        let rec = BqColumnRecord {
            name: col.name.clone(),
            bq_type: bq_type_of(col.data_type),
            mode: Some(mode),
            description,
        };
        let ghost prev = records.deep_view();
        let ghost rm = rec@;
        proof {
            assert(rm == spec_record_of_column(cols[i as int]));
        }
        records.push(rec);
        proof {
            assert(records.deep_view() =~= prev.push(rm));
            assert(cols.take(i + 1).map_values(|c: ColumnModel| spec_record_of_column(c)) =~= cols
                .take(i as int).map_values(|c: ColumnModel| spec_record_of_column(c)).push(
                spec_record_of_column(cols[i as int]),
            ));
            assert(records.deep_view() =~= cols.take(i + 1).map_values(
                |c: ColumnModel| spec_record_of_column(c),
            ));
        }
        i += 1;
    }
    proof {
        assert(cols.take(n as int) =~= cols);
        assert(records.deep_view() =~= cols.map_values(|c: ColumnModel| spec_record_of_column(c)));
    }
    records
}

/// A kind that survives the interchange vocabulary reads back unchanged.
pub proof fn lemma_type_round_trip(dt: DataType)
    requires
        bq_lossless(dt),
    ensures
        spec_data_type_of(spec_bq_type(dt)) == Some(dt),
{
    reveal_strlit("BOOL");
    reveal_strlit("BOOLEAN");
    reveal_strlit("DATE");
    reveal_strlit("NUMERIC");
    reveal_strlit("FLOAT64");
    reveal_strlit("FLOAT");
    reveal_strlit("INT64");
    reveal_strlit("INTEGER");
    reveal_strlit("STRING");
    reveal_strlit("DATETIME");
    reveal_strlit("TIMESTAMP");
    assert("BOOL"@[0] == 'B' && "BOOL"@.len() == 4);
    assert("BOOLEAN"@[0] == 'B' && "BOOLEAN"@.len() == 7);
    assert("DATE"@[0] == 'D' && "DATE"@.len() == 4);
    assert("NUMERIC"@[0] == 'N' && "NUMERIC"@.len() == 7);
    assert("FLOAT64"@[0] == 'F' && "FLOAT64"@.len() == 7);
    assert("FLOAT"@[0] == 'F' && "FLOAT"@.len() == 5);
    assert("INT64"@[0] == 'I' && "INT64"@.len() == 5);
    assert("INTEGER"@[0] == 'I' && "INTEGER"@.len() == 7);
    assert("STRING"@[0] == 'S' && "STRING"@.len() == 6);
    assert("DATETIME"@[0] == 'D' && "DATETIME"@.len() == 8);
    assert("TIMESTAMP"@[0] == 'T' && "TIMESTAMP"@.len() == 9);
}

/// Law: a table written through the schema-interchange adapter and read
/// back keeps its columns — names, types, nullability and comments — as
/// long as every column type is within the interchange vocabulary
/// (`bq_lossless`); the table name does not round-trip and becomes the
/// fixed placeholder.
pub proof fn lemma_schema_round_trip(t: crate::schema::TableModel)
    requires
        names_unique(t.columns),
        forall|i: int| 0 <= i < t.columns.len() ==> bq_lossless(#[trigger] t.columns[i].data_type),
    ensures
        records_ok(t.columns.map_values(|c: ColumnModel| spec_record_of_column(c))),
        columns_of_records(t.columns.map_values(|c: ColumnModel| spec_record_of_column(c)))
            == t.columns,
{
    let recs = t.columns.map_values(|c: ColumnModel| spec_record_of_column(c));
    reveal_strlit("NULLABLE");
    reveal_strlit("REQUIRED");
    assert("NULLABLE"@[0] == 'N');
    assert("REQUIRED"@[0] == 'R');
    assert("NULLABLE"@ != "REQUIRED"@);
    assert forall|i: int| 0 <= i < recs.len() implies spec_column_of_record(recs[i]) == Some(
        t.columns[i],
    ) by {
        lemma_type_round_trip(t.columns[i].data_type);
        assert("NULLABLE"@ != "REQUIRED"@);
    }
    assert(columns_of_records(recs) =~= t.columns);
}

/// A locator holding a schema-interchange document: a JSON file of column
/// descriptors, or stdio.
#[derive(Clone, Debug)]
pub struct BigQuerySchemaLocator {
    path: PathOrStdio,
}

impl BigQuerySchemaLocator {
    /// The location this locator points at.
    pub fn location(&self) -> (p: &PathOrStdio)
        ensures
            p == self.location_spec(),
    {
        &self.path
    }

    /// The spec-level location.
    pub closed spec fn location_spec(&self) -> PathOrStdio {
        self.path
    }

    /// The scheme prefix this adapter recognizes.
    pub fn scheme() -> (s: &'static str)
        ensures
            s@ == "bigquery-schema:"@,
    {
        "bigquery-schema:"
    }

    /// Parse a `bigquery-schema:` locator string.
    pub fn from_str(s: &str) -> (r: Result<Self, CoreError>)
        ensures
            r is Ok <==> crate::text::is_prefix_of("bigquery-schema:"@, s@),
            r is Ok ==> r->Ok_0.location_spec()@ == crate::locator::spec_path_or_stdio(
                "bigquery-schema:"@,
                s@,
            ),
            r is Err ==> r->Err_0 is Validation,
    {
        let path = parse_path_or_stdio(Self::scheme(), s)?;
        Ok(BigQuerySchemaLocator { path })
    }

    /// Render this locator back into a locator string.
    pub fn to_locator_string(&self) -> (r: String)
        ensures
            self.location_spec() is Stdio ==> r@ == "bigquery-schema:"@ + "-"@,
            self.location_spec() matches PathOrStdio::Path(p) ==> r@ == "bigquery-schema:"@ + p@,
    {
        self.path.to_locator_string(Self::scheme())
    }

    /// The capability set this adapter advertises: schema read and write,
    /// nothing else; schema writes never support append, since interchange
    /// documents are replaced wholesale or rejected.
    pub open spec fn features_spec() -> Features {
        Features {
            operations: OperationSet {
                schema: true,
                write_schema: true,
                local_data: false,
                write_local_data: false,
            },
            write_schema_if_exists: IfExistsFeatures {
                error: true,
                overwrite: true,
                append: false,
                overwrite_or_create: true,
            },
            source_args: false,
            dest_args: false,
            dest_if_exists: IfExistsFeatures {
                error: false,
                overwrite: false,
                append: false,
                overwrite_or_create: false,
            },
        }
    }

    /// Runtime copy of `features_spec`.
    pub fn features() -> (f: Features)
        ensures
            f == Self::features_spec(),
    {
        Features {
            operations: OperationSet {
                schema: true,
                write_schema: true,
                local_data: false,
                write_local_data: false,
            },
            write_schema_if_exists: IfExistsFeatures::no_append(),
            source_args: false,
            dest_args: false,
            dest_if_exists: IfExistsFeatures::none(),
        }
    }
}

} // verus!
