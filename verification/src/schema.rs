use vstd::prelude::*;

use crate::errors::CoreError;

verus! {

/// Portable column kinds. Adapters map their native types onto and from
/// this closed set, lossily where a native vocabulary is coarser.
#[derive(Clone, Copy, PartialEq, Eq, Structural, Debug)]
pub enum DataType {
    Bool,
    Date,
    Decimal,
    Float32,
    Float64,
    Int16,
    Int32,
    Int64,
    Json,
    Text,
    TimestampWithoutTimeZone,
    TimestampWithTimeZone,
}

/// One column of a table.
#[derive(Clone, Debug)]
pub struct Column {
    pub name: String,
    pub data_type: DataType,
    pub is_nullable: bool,
    pub comment: Option<String>,
}

/// The mathematical value of a `Column`.
pub struct ColumnModel {
    pub name: Seq<char>,
    pub data_type: DataType,
    pub is_nullable: bool,
    pub comment: Option<Seq<char>>,
}

impl View for Column {
    type V = ColumnModel;

    open spec fn view(&self) -> ColumnModel {
        ColumnModel {
            name: self.name@,
            data_type: self.data_type,
            is_nullable: self.is_nullable,
            comment: match self.comment {
                Some(c) => Some(c@),
                None => None,
            },
        }
    }
}

impl DeepView for Column {
    type V = ColumnModel;

    open spec fn deep_view(&self) -> ColumnModel {
        self@
    }
}

/// The mathematical value of a `Table`.
pub struct TableModel {
    pub name: Seq<char>,
    pub columns: Seq<ColumnModel>,
}

/// Column names are pairwise distinct.
pub open spec fn names_unique(columns: Seq<ColumnModel>) -> bool {
    forall|i: int, j: int|
        0 <= i < j < columns.len() ==> columns[i].name != columns[j].name
}

/// A table's schema: a name and an ordered sequence of columns whose names
/// are unique within the table.
#[derive(Clone, Debug)]
pub struct Table {
    pub name: String,
    pub columns: Vec<Column>,
}

impl View for Table {
    type V = TableModel;

    open spec fn view(&self) -> TableModel {
        TableModel { name: self.name@, columns: self.columns.deep_view() }
    }
}

impl Table {
    /// The table invariant: column names are unique.
    pub open spec fn wf(&self) -> bool {
        names_unique(self@.columns)
    }

    /// Build a table after checking the column-name invariant; a duplicate
    /// name is a validation error.
    pub fn new(name: String, columns: Vec<Column>) -> (r: Result<Table, CoreError>)
        ensures
            r is Ok <==> names_unique(columns.deep_view()),
            r is Ok ==> r->Ok_0@ == (TableModel { name: name@, columns: columns.deep_view() })
                && r->Ok_0.wf(),
            r is Err ==> r->Err_0 is Validation,
    {
        if column_names_unique(&columns) {
            let t = Table { name, columns };
            Ok(t)
        } else {
            Err(CoreError::Validation {
                message: String::from_str("duplicate column name in table"),
            })
        }
    }
}

/// Check that no two columns share a name.
pub fn column_names_unique(columns: &Vec<Column>) -> (r: bool)
    ensures
        r == names_unique(columns.deep_view()),
{
    let n = columns.len();
    let mut i: usize = 0;
    while i < n
        invariant
            i <= n,
            n == columns.len(),
            forall|p: int, q: int|
                0 <= p < q < columns.len() && p < i ==> columns.deep_view()[p].name
                    != columns.deep_view()[q].name,
        decreases n - i,
    {
        let mut j: usize = i + 1;
        while j < n
            invariant
                i < j <= n,
                n == columns.len(),
                forall|q: int| i < q < j ==> columns.deep_view()[i as int].name
                    != columns.deep_view()[q].name,
            decreases n - j,
        {
            if crate::text::str_eq(columns[i].name.as_str(), columns[j].name.as_str()) {
                assert(columns.deep_view()[i as int].name == columns.deep_view()[j as int].name);
                return false;
            }
            j += 1;
        }
        i += 1;
    }
    true
}

} // verus!
