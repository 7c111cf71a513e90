use vstd::prelude::*;

use crate::csv_stream::CsvStream;
use crate::errors::CoreError;
use crate::locator::{
    Features, IfExistsFeatures, OperationSet, PathOrStdio, parse_path_or_stdio,
};
use crate::schema::{Column, ColumnModel, DataType, Table, names_unique};
use crate::text::{
    is_prefix_of, is_suffix_of, str_between, str_concat, str_concat3, str_ends_with, str_eq,
    str_rfind, str_starts_with,
};

verus! {

/// A flat file holding data rows, or a directory of such files, or stdio.
#[derive(Clone, Debug)]
pub struct CsvLocator {
    path: PathOrStdio,
}

impl CsvLocator {
    /// The location this locator points at.
    pub fn location(&self) -> (p: &PathOrStdio)
        ensures
            p == self.location_spec(),
    {
        &self.path
    }

    /// The spec-level location.
    pub closed spec fn location_spec(&self) -> PathOrStdio {
        self.path
    }

    /// The scheme prefix this adapter recognizes.
    pub fn scheme() -> (s: &'static str)
        ensures
            s@ == "csv:"@,
    {
        "csv:"
    }

    /// Parse a `csv:` locator string.
    pub fn from_str(s: &str) -> (r: Result<Self, CoreError>)
        ensures
            r is Ok <==> is_prefix_of("csv:"@, s@),
            r is Ok ==> r->Ok_0.location_spec()@ == crate::locator::spec_path_or_stdio(
                "csv:"@,
                s@,
            ),
            r is Err ==> r->Err_0 is Validation,
    {
        let path = parse_path_or_stdio(Self::scheme(), s)?;
        Ok(CsvLocator { path })
    }

    /// Render this locator back into a locator string.
    pub fn to_locator_string(&self) -> (r: String)
        ensures
            self.location_spec() is Stdio ==> r@ == "csv:"@ + "-"@,
            self.location_spec() matches PathOrStdio::Path(p) ==> r@ == "csv:"@ + p@,
    {
        self.path.to_locator_string(Self::scheme())
    }

    /// Where the schema must be read from. Reading a schema from standard
    /// input is unsupported — it would need the input buffered for a
    /// second pass — and is reported as an explicit error.
    pub fn schema_source(&self) -> (r: Result<&String, CoreError>)
        ensures
            self.location_spec() is Stdio ==> r is Err && r->Err_0 is Validation
                && r->Err_0.message_view() == "cannot yet read CSV schema from stdin"@,
            self.location_spec() matches PathOrStdio::Path(p) ==> r is Ok && r->Ok_0 == p,
    {
        match &self.path {
            PathOrStdio::Stdio => Err(CoreError::Validation {
                message: String::from_str("cannot yet read CSV schema from stdin"),
            }),
            PathOrStdio::Path(p) => Ok(p),
        }
    }

    /// The capability set this adapter advertises: schema read, data read
    /// and data write; appending to an existing file is not honored.
    pub open spec fn features_spec() -> Features {
        Features {
            operations: OperationSet {
                schema: true,
                write_schema: false,
                local_data: true,
                write_local_data: true,
            },
            write_schema_if_exists: IfExistsFeatures {
                error: false,
                overwrite: false,
                append: false,
                overwrite_or_create: false,
            },
            source_args: false,
            dest_args: false,
            dest_if_exists: IfExistsFeatures {
                error: true,
                overwrite: true,
                append: false,
                overwrite_or_create: true,
            },
        }
    }

    /// Runtime copy of `features_spec`.
    pub fn features() -> (f: Features)
        ensures
            f == Self::features_spec(),
    {
        Features {
            operations: OperationSet {
                schema: true,
                write_schema: false,
                local_data: true,
                write_local_data: true,
            },
            write_schema_if_exists: IfExistsFeatures::none(),
            source_args: false,
            dest_args: false,
            dest_if_exists: IfExistsFeatures::no_append(),
        }
    }
}

/// This adapter honors no source-side query and no extra driver
/// arguments: a request carrying either is rejected before any data is
/// read.
pub fn check_csv_source_request(has_query: bool, has_args: bool) -> (r: Result<(), CoreError>)
    ensures
        r is Ok <==> !has_query && !has_args,
        r is Err ==> r->Err_0 is Validation,
{
    if has_query {
        Err(CoreError::Validation {
            message: String::from_str("this adapter does not support queries"),
        })
    } else if has_args {
        Err(CoreError::Validation {
            message: String::from_str("this adapter does not support driver arguments"),
        })
    } else {
        Ok(())
    }
}

/// The one partition a stdio source yields: the raw input's rows under
/// the fixed partition name for single-stream cases.
pub fn stdin_csv_stream(rows: Vec<Vec<u8>>) -> (s: CsvStream)
    ensures
        s@.name == "data"@,
        s@.rows == rows.deep_view(),
{
    CsvStream { name: String::from_str("data"), rows }
}

/// What an uninterpreted CSV header read yields on given bytes: the
/// fields of the first record, or nothing when the bytes' first record is
/// not readable.
pub uninterp spec fn csv_header_of(data: Seq<u8>) -> Option<Seq<Seq<char>>>;

/// Relies on `csv::Reader::headers` (csv 1.4.0): with the default reader
/// configuration, the first record parsed from a byte slice — and whether
/// parsing it fails, which happens exactly when that record is not valid
/// UTF-8 — is a function of the bytes alone.
#[verifier::external_body]
fn read_csv_header(data: &[u8]) -> (r: Result<Vec<String>, String>)
    ensures
        r is Ok <==> csv_header_of(data@) is Some,
        r is Ok ==> r->Ok_0.deep_view() == csv_header_of(data@)->Some_0,
{
    let mut rdr = csv::Reader::from_reader(data);
    match rdr.headers() {
        Ok(h) => Ok(h.iter().map(|f| f.to_string()).collect()),
        Err(e) => Err(format!("{}", e)),
    }
}

/// The columns a header row describes: one per field, in order, each
/// nullable text — the flat-file format carries no type information.
pub open spec fn spec_text_columns(fields: Seq<Seq<char>>) -> Seq<ColumnModel> {
    fields.map_values(
        |f: Seq<char>|
            ColumnModel { name: f, data_type: DataType::Text, is_nullable: true, comment: None },
    )
}

/// Read a flat file's schema from its bytes: the header row's fields
/// become the columns of a table named `name`, every column nullable
/// text. An unreadable header is a structural error; a duplicated header
/// field breaks the table invariant and is a validation error.
pub fn csv_table_from_bytes(name: &str, data: &[u8]) -> (r: Result<Table, CoreError>)
    ensures
        r is Ok <==> csv_header_of(data@) is Some && names_unique(
            spec_text_columns(csv_header_of(data@)->Some_0),
        ),
        r is Ok ==> r->Ok_0@.name == name@ && r->Ok_0@.columns == spec_text_columns(
            csv_header_of(data@)->Some_0,
        ) && r->Ok_0.wf(),
        r is Err ==> r->Err_0 is UnexpectedContent || r->Err_0 is Validation,
{
    match read_csv_header(data) {
        Err(e) => Err(CoreError::UnexpectedContent {
            message: str_concat("invalid CSV header: ", e.as_str()),
        }),
        Ok(fields) => table_from_header_fields(name, &fields),
    }
}

/// The schema a given header row describes: one nullable text column per
/// field, in order, in a table named `name`; a duplicated field breaks
/// the table invariant and is a validation error.
pub fn table_from_header_fields(name: &str, fields: &Vec<String>) -> (r: Result<Table, CoreError>)
    ensures
        r is Ok <==> names_unique(spec_text_columns(fields.deep_view())),
        r is Ok ==> r->Ok_0@.name == name@ && r->Ok_0@.columns == spec_text_columns(
            fields.deep_view(),
        ) && r->Ok_0.wf(),
        r is Err ==> r->Err_0 is Validation,
{
    let ghost fv = fields.deep_view();
    let mut columns: Vec<Column> = Vec::new();
    let n = fields.len();
    let mut i: usize = 0;
    while i < n
        invariant
            i <= n,
            n == fields.len(),
            fv == fields.deep_view(),
            columns.deep_view() =~= spec_text_columns(fv.take(i as int)),
        decreases n - i,
    {
        let col = Column {
            name: fields[i].clone(),
            data_type: DataType::Text,
            is_nullable: true,
            comment: None,
        };
        let ghost prev = columns.deep_view();
        let ghost cm = col@;
        columns.push(col);
        proof {
            assert(columns.deep_view() =~= prev.push(cm));
            assert(spec_text_columns(fv.take(i + 1)) =~= spec_text_columns(fv.take(i as int)).push(
                cm,
            ));
            assert(columns.deep_view() =~= spec_text_columns(fv.take(i + 1)));
        }
        i += 1;
    }
    proof {
        assert(fv.take(n as int) =~= fv);
    }
    Table::new(name.to_owned(), columns)
}

/// The last path component of `p`: everything after the final separator,
/// or all of `p` if it has none.
pub open spec fn spec_basename(p: Seq<char>) -> Seq<char> {
    match p.index_of_last('/') {
        Some(i) => p.skip(i + 1),
        None => p,
    }
}

/// A last occurrence found by scanning is the `index_of_last`.
proof fn lemma_index_of_last_agrees(s: Seq<char>, c: char, i: int)
    requires
        0 <= i < s.len(),
        s[i] == c,
        forall|j: int| i < j < s.len() ==> s[j] != c,
    ensures
        s.index_of_last(c) == Some(i),
{
    s.index_of_last_ensures(c);
    assert(s.contains(c)) by {
        assert(0 <= i < s.len() && s[i] == c);
    }
    let k = s.index_of_last(c)->Some_0;
    if k < i {
        assert(s[i] != c);
        assert(false);
    }
    if k > i {
        assert(s[k] != c);
        assert(false);
    }
}

/// If no position holds `c`, `index_of_last` finds none.
proof fn lemma_index_of_last_absent(s: Seq<char>, c: char)
    requires
        forall|j: int| 0 <= j < s.len() ==> s[j] != c,
    ensures
        s.index_of_last(c) is None,
{
    s.index_of_last_ensures(c);
    if s.index_of_last(c) is Some {
        let k = choose|k: int| 0 <= k < s.len() && s[k] == c;
        assert(false);
    }
}

/// The last path component of `p`, owned.
pub fn basename_of(p: &str) -> (r: String)
    ensures
        r@ == spec_basename(p@),
{
    let n = p.unicode_len();
    match str_rfind(p, '/') {
        Some(i) => {
            proof {
                lemma_index_of_last_agrees(p@, '/', i as int);
            }
            let out = str_between(p, i + 1, n);
            proof {
                assert(out@ =~= p@.skip(i + 1));
            }
            out
        },
        None => {
            proof {
                lemma_index_of_last_absent(p@, '/');
            }
            p.to_owned()
        },
    }
}

/// The table name a flat file implies: its base name without the final
/// extension, or `data` when nothing usable is left.
pub open spec fn spec_file_stem(p: Seq<char>) -> Seq<char> {
    let b = spec_basename(p);
    let s = match b.index_of_last('.') {
        Some(i) => if i > 0 {
            b.take(i)
        } else {
            b
        },
        None => b,
    };
    if s.len() == 0 {
        "data"@
    } else {
        s
    }
}

/// Compute `spec_file_stem` at runtime.
pub fn file_stem_name(p: &str) -> (r: String)
    ensures
        r@ == spec_file_stem(p@),
{
    let base = basename_of(p);
    let stem = match str_rfind(base.as_str(), '.') {
        Some(i) => {
            proof {
                lemma_index_of_last_agrees(base@, '.', i as int);
            }
            if i > 0 {
                let out = str_between(base.as_str(), 0, i);
                proof {
                    assert(out@ =~= base@.take(i as int));
                }
                out
            } else {
                base
            }
        },
        None => {
            proof {
                lemma_index_of_last_absent(base@, '.');
            }
            base
        },
    };
    if stem.as_str().unicode_len() == 0 {
        String::from_str("data")
    } else {
        stem
    }
}

/// What a directory walk reports for one entry.
#[derive(Clone, Copy, PartialEq, Eq, Structural, Debug)]
pub enum FsEntryKind {
    Directory,
    File,
    Other,
}

/// One entry met while walking a directory tree (links already followed
/// by the walker).
#[derive(Clone, Debug)]
pub struct FsEntry {
    pub path: String,
    pub kind: FsEntryKind,
}

/// The mathematical value of an `FsEntry`.
pub struct FsEntryModel {
    pub path: Seq<char>,
    pub kind: FsEntryKind,
}

impl View for FsEntry {
    type V = FsEntryModel;

    open spec fn view(&self) -> FsEntryModel {
        FsEntryModel { path: self.path@, kind: self.kind }
    }
}

impl DeepView for FsEntry {
    type V = FsEntryModel;

    open spec fn deep_view(&self) -> FsEntryModel {
        self@
    }
}

/// One planned partition of a flat-file read: the partition's name and
/// the file it comes from.
#[derive(Clone, Debug)]
pub struct PartitionPlan {
    pub name: String,
    pub path: String,
}

/// The mathematical value of a `PartitionPlan`.
pub struct PartitionPlanModel {
    pub name: Seq<char>,
    pub path: Seq<char>,
}

impl View for PartitionPlan {
    type V = PartitionPlanModel;

    open spec fn view(&self) -> PartitionPlanModel {
        PartitionPlanModel { name: self.name@, path: self.path@ }
    }
}

impl DeepView for PartitionPlan {
    type V = PartitionPlanModel;

    open spec fn deep_view(&self) -> PartitionPlanModel {
        self@
    }
}

/// The file's path relative to the walk root: the root's base name when
/// the file is the root itself, else the remainder after the root prefix,
/// without a leading separator.
pub open spec fn spec_rel_part(base: Seq<char>, p: Seq<char>) -> Seq<char> {
    if p == base {
        spec_basename(p)
    } else {
        let r = p.skip(base.len() as int);
        if r.len() > 0 && r[0] == '/' {
            r.skip(1)
        } else {
            r
        }
    }
}

/// The relative part ends in the flat-file extension, in either of its
/// two case variants.
pub open spec fn csv_ext_ok(rel: Seq<char>) -> bool {
    is_suffix_of(".csv"@, rel) || is_suffix_of(".CSV"@, rel)
}

/// A partition's name: the relative path with the four-character
/// extension stripped.
pub open spec fn spec_partition_name(base: Seq<char>, p: Seq<char>) -> Seq<char> {
    let r = spec_rel_part(base, p);
    r.take(r.len() - 4)
}

/// A walked entry the flat-file read accepts: directories are traversed
/// but yield nothing; a file must lie under the root and carry the
/// extension; anything else fails the read.
pub open spec fn spec_entry_ok(base: Seq<char>, e: FsEntryModel) -> bool {
    match e.kind {
        FsEntryKind::Directory => true,
        FsEntryKind::File => is_prefix_of(base, e.path) && csv_ext_ok(spec_rel_part(base, e.path)),
        FsEntryKind::Other => false,
    }
}

/// The error one unacceptable walked entry produces: its kind and its
/// message, which names the offending place.
pub open spec fn spec_entry_error(base: Seq<char>, e: FsEntryModel, err: CoreError) -> bool {
    match e.kind {
        FsEntryKind::Directory => false,
        FsEntryKind::Other => err is UnexpectedContent && err.message_view() == "not a file: "@
            + e.path,
        FsEntryKind::File => if !is_prefix_of(base, e.path) {
            err is Validation && err.message_view() == "file is not under the walk root: "@
                + e.path
        } else {
            err is UnexpectedContent && err.message_view() == e.path
                + " must end in *.csv or *.CSV"@
        },
    }
}

/// The first walked entry the read rejects, if any.
pub open spec fn first_bad_entry(base: Seq<char>, entries: Seq<FsEntryModel>) -> Option<
    FsEntryModel,
>
    decreases entries.len(),
{
    if entries.len() == 0 {
        None
    } else if !spec_entry_ok(base, entries[0]) {
        Some(entries[0])
    } else {
        first_bad_entry(base, entries.subrange(1, entries.len() as int))
    }
}

/// A rejected entry preceded by accepted ones is the first rejected one.
proof fn lemma_first_bad_entry(base: Seq<char>, entries: Seq<FsEntryModel>, i: int)
    requires
        0 <= i < entries.len(),
        !spec_entry_ok(base, entries[i]),
        forall|j: int| 0 <= j < i ==> spec_entry_ok(base, #[trigger] entries[j]),
    ensures
        first_bad_entry(base, entries) == Some(entries[i]),
    decreases entries.len(),
{
    if i > 0 {
        lemma_first_bad_entry(base, entries.subrange(1, entries.len() as int), i - 1);
    }
}

/// The partitions a walked tree yields: one per file, in walk order,
/// named by relative path without the extension; directories yield none.
pub open spec fn spec_partitions(base: Seq<char>, entries: Seq<FsEntryModel>) -> Seq<
    PartitionPlanModel,
>
    decreases entries.len(),
{
    if entries.len() == 0 {
        Seq::empty()
    } else {
        let prev = spec_partitions(base, entries.drop_last());
        let e = entries.last();
        if e.kind is File {
            prev.push(PartitionPlanModel { name: spec_partition_name(base, e.path), path: e.path })
        } else {
            prev
        }
    }
}

/// The file's path relative to the walk root, owned.
pub fn rel_part_of(base: &str, p: &str) -> (r: String)
    requires
        is_prefix_of(base@, p@),
    ensures
        r@ == spec_rel_part(base@, p@),
{
    if str_eq(p, base) {
        basename_of(p)
    } else {
        let bl = base.unicode_len();
        let pl = p.unicode_len();
        let r0 = str_between(p, bl, pl);
        proof {
            assert(r0@ =~= p@.skip(base@.len() as int));
        }
        if r0.as_str().unicode_len() > 0 && r0.as_str().get_char(0) == '/' {
            let out = str_between(r0.as_str(), 1, r0.as_str().unicode_len());
            proof {
                assert(out@ =~= r0@.skip(1));
            }
            out
        } else {
            r0
        }
    }
}

/// Plan a flat-file directory read from the walked entries under `base`,
/// in walk order: every file becomes exactly one partition, named by its
/// path relative to `base` with the extension stripped; directories are
/// traversed but become no partition; a file with any other extension, or
/// an entry that is neither file nor directory, fails the whole read
/// before any data is opened.
pub fn plan_csv_local_data(base: &str, entries: &Vec<FsEntry>) -> (r: Result<
    Vec<PartitionPlan>,
    CoreError,
>)
    ensures
        r is Ok <==> (forall|i: int|
            0 <= i < entries.deep_view().len() ==> spec_entry_ok(
                base@,
                #[trigger] entries.deep_view()[i],
            )),
        r is Ok ==> r->Ok_0.deep_view() == spec_partitions(base@, entries.deep_view()),
        r is Err ==> r->Err_0 is UnexpectedContent || r->Err_0 is Validation,
        r is Err ==> first_bad_entry(base@, entries.deep_view()) is Some && spec_entry_error(
            base@,
            first_bad_entry(base@, entries.deep_view())->Some_0,
            r->Err_0,
        ),
{
    let ghost ev = entries.deep_view();
    let mut plans: Vec<PartitionPlan> = Vec::new();
    let n = entries.len();
    let mut i: usize = 0;
    while i < n
        invariant
            i <= n,
            n == entries.len(),
            ev == entries.deep_view(),
            forall|j: int| 0 <= j < i ==> spec_entry_ok(base@, #[trigger] ev[j]),
            plans.deep_view() =~= spec_partitions(base@, ev.take(i as int)),
        decreases n - i,
    {
        let entry = &entries[i];
        proof {
            assert(entry@ == ev[i as int]);
            assert(ev.take(i + 1).drop_last() =~= ev.take(i as int));
        }
        match entry.kind {
            FsEntryKind::Directory => {
                proof {
                    assert(spec_partitions(base@, ev.take(i + 1)) =~= spec_partitions(
                        base@,
                        ev.take(i as int),
                    ));
                }
            },
            FsEntryKind::Other => {
                let err = CoreError::UnexpectedContent {
                    message: str_concat("not a file: ", entry.path.as_str()),
                };
                proof {
                    assert(!spec_entry_ok(base@, ev[i as int]));
                    lemma_first_bad_entry(base@, ev, i as int);
                    assert(spec_entry_error(base@, ev[i as int], err));
                }
                return Err(err);
            },
            FsEntryKind::File => {
                if !str_starts_with(entry.path.as_str(), base) {
                    let err = CoreError::Validation {
                        message: str_concat(
                            "file is not under the walk root: ",
                            entry.path.as_str(),
                        ),
                    };
                    proof {
                        assert(!spec_entry_ok(base@, ev[i as int]));
                        lemma_first_bad_entry(base@, ev, i as int);
                        assert(spec_entry_error(base@, ev[i as int], err));
                    }
                    return Err(err);
                }
                let rel = rel_part_of(base, entry.path.as_str());
                let lower = str_ends_with(rel.as_str(), ".csv");
                let upper = str_ends_with(rel.as_str(), ".CSV");
                if !lower && !upper {
                    let err = CoreError::UnexpectedContent {
                        message: str_concat(entry.path.as_str(), " must end in *.csv or *.CSV"),
                    };
                    proof {
                        assert(!spec_entry_ok(base@, ev[i as int]));
                        lemma_first_bad_entry(base@, ev, i as int);
                        assert(spec_entry_error(base@, ev[i as int], err));
                    }
                    return Err(err);
                }
                proof {
                    reveal_strlit(".csv");
                    reveal_strlit(".CSV");
                    assert(rel@.len() >= 4);
                }
                let rl = rel.as_str().unicode_len();
                let name = str_between(rel.as_str(), 0, rl - 4);
                proof {
                    assert(name@ =~= spec_partition_name(base@, ev[i as int].path));
                }
                let plan = PartitionPlan { name, path: entry.path.clone() };
                let ghost prev = plans.deep_view();
                let ghost pm = plan@;
                plans.push(plan);
                proof {
                    assert(pm == (PartitionPlanModel {
                        name: spec_partition_name(base@, ev[i as int].path),
                        path: ev[i as int].path,
                    }));
                    assert(plans.deep_view() =~= prev.push(pm));
                    assert(spec_partitions(base@, ev.take(i + 1)) =~= spec_partitions(
                        base@,
                        ev.take(i as int),
                    ).push(pm));
                }
            },
        }
        i += 1;
    }
    proof {
        assert(ev.take(n as int) =~= ev);
    }
    Ok(plans)
}

/// Law: the partitions planned for a walked tree are exactly the file
/// entries, one partition per file in walk order, each named by its
/// relative path without the extension; no directory contributes one.
pub proof fn lemma_one_partition_per_file(base: Seq<char>, entries: Seq<FsEntryModel>)
    ensures
        spec_partitions(base, entries) == entries.filter(|e: FsEntryModel| e.kind is File)
            .map_values(
            |e: FsEntryModel|
                PartitionPlanModel { name: spec_partition_name(base, e.path), path: e.path },
        ),
    decreases entries.len(),
{
    reveal(Seq::filter);
    let pred = |e: FsEntryModel| e.kind is File;
    let f = |e: FsEntryModel|
        PartitionPlanModel { name: spec_partition_name(base, e.path), path: e.path };
    if entries.len() == 0 {
        assert(entries.filter(pred) =~= Seq::<FsEntryModel>::empty());
        assert(spec_partitions(base, entries) =~= entries.filter(pred).map_values(f));
    } else {
        lemma_one_partition_per_file(base, entries.drop_last());
        let sub = entries.drop_last();
        if pred(entries.last()) {
            assert(entries.filter(pred) == sub.filter(pred).push(entries.last()));
            assert(sub.filter(pred).push(entries.last()).map_values(f) =~= sub.filter(
                pred,
            ).map_values(f).push(f(entries.last())));
            assert(spec_partitions(base, entries) =~= entries.filter(pred).map_values(f));
        } else {
            assert(entries.filter(pred) == sub.filter(pred));
            assert(spec_partitions(base, entries) =~= entries.filter(pred).map_values(f));
        }
    }
}

/// Where a flat-file write sends its partitions.
#[derive(Clone, Debug)]
pub enum CsvWriteTarget {
    /// Concatenate every partition into standard output.
    Stdout,
    /// One file per partition under this directory.
    Directory { dir: String },
    /// Concatenate every partition into this one file.
    SingleFile { path: String },
}

/// A path that names a directory: it ends with the separator.
pub open spec fn spec_is_dir_path(p: Seq<char>) -> bool {
    p.len() > 0 && p[p.len() - 1] == '/'
}

/// Decide where a flat-file write goes: stdio concatenates to standard
/// output; a destination ending in the separator takes one file per
/// partition; any other path takes the whole concatenation as one file.
pub fn plan_csv_write_target(dest: &PathOrStdio) -> (t: CsvWriteTarget)
    ensures
        dest@ is Stdio ==> t is Stdout,
        dest@ matches crate::locator::PathOrStdioModel::Path(p) ==> if spec_is_dir_path(p) {
            t matches CsvWriteTarget::Directory { dir } && dir@ == p
        } else {
            t matches CsvWriteTarget::SingleFile { path } && path@ == p
        },
{
    match dest {
        PathOrStdio::Stdio => CsvWriteTarget::Stdout,
        PathOrStdio::Path(p) => {
            let slash = str_ends_with(p.as_str(), "/");
            proof {
                reveal_strlit("/");
                if slash {
                    assert(p@.subrange(p@.len() - 1, p@.len() as int)[0] == p@[p@.len() - 1]);
                } else {
                    if spec_is_dir_path(p@) {
                        assert(p@.subrange(p@.len() - 1, p@.len() as int) =~= "/"@);
                    }
                }
            }
            if slash {
                CsvWriteTarget::Directory { dir: p.clone() }
            } else {
                CsvWriteTarget::SingleFile { path: p.clone() }
            }
        },
    }
}

/// The file a partition is written to under a directory destination:
/// `<dir><name>.csv`.
pub fn partition_file_path(dir: &str, name: &str) -> (r: String)
    ensures
        r@ == dir@ + name@ + ".csv"@,
{
    str_concat3(dir, name, ".csv")
}

/// The files a directory destination receives: exactly one per incoming
/// partition, in order, each named `<dir><partition>.csv`.
pub fn partition_file_paths(dir: &str, names: &Vec<String>) -> (r: Vec<String>)
    ensures
        r.deep_view().len() == names.deep_view().len(),
        forall|i: int|
            0 <= i < names.deep_view().len() ==> #[trigger] r.deep_view()[i] == dir@
                + names.deep_view()[i] + ".csv"@,
{
    let ghost nv = names.deep_view();
    let mut out: Vec<String> = Vec::new();
    let n = names.len();
    let mut i: usize = 0;
    while i < n
        invariant
            i <= n,
            n == names.len(),
            nv == names.deep_view(),
            out.deep_view().len() == i,
            forall|j: int| 0 <= j < i ==> #[trigger] out.deep_view()[j] == dir@ + nv[j] + ".csv"@,
        decreases n - i,
    {
        let p = partition_file_path(dir, names[i].as_str());
        let ghost pv = p@;
        let ghost prev = out.deep_view();
        out.push(p);
        proof {
            assert(out.deep_view() =~= prev.push(pv));
        }
        i += 1;
    }
    out
}

} // verus!
