use dbcrossbar_core::csv_driver::{
    basename_of, csv_table_from_bytes, file_stem_name, partition_file_path, partition_file_paths,
    plan_csv_local_data, plan_csv_write_target, rel_part_of, CsvLocator, CsvWriteTarget, FsEntry,
    FsEntryKind,
};
use dbcrossbar_core::csv_stream::{concatenate_csv_streams, CsvStream};
use dbcrossbar_core::errors::CoreError;
use dbcrossbar_core::locator::PathOrStdio;
use dbcrossbar_core::schema::DataType;

fn entry(path: &str, kind: FsEntryKind) -> FsEntry {
    FsEntry {
        path: path.to_string(),
        kind,
    }
}

#[test]
fn schema_from_header_row_is_all_nullable_text() {
    let data = b"id,name,city\n1,alice,berlin\n2,bob,paris\n";
    let t = csv_table_from_bytes("people", data).unwrap();
    assert_eq!(t.name, "people");
    let names: Vec<&str> = t.columns.iter().map(|c| c.name.as_str()).collect();
    assert_eq!(names, vec!["id", "name", "city"]);
    for c in &t.columns {
        assert_eq!(c.data_type, DataType::Text);
        assert!(c.is_nullable);
        assert!(c.comment.is_none());
    }
}

#[test]
fn schema_with_duplicate_header_fields_is_rejected() {
    let data = b"a,b,a\n1,2,3\n";
    match csv_table_from_bytes("dup", data) {
        Err(CoreError::Validation { .. }) => {}
        other => panic!("expected a validation error, got {:?}", other),
    }
}

#[test]
fn schema_from_invalid_utf8_header_is_a_structural_error() {
    let data: Vec<u8> = vec![0xff, 0xfe, b'a', b',', b'b', b'\n'];
    match csv_table_from_bytes("bad", &data) {
        Err(CoreError::UnexpectedContent { message }) => {
            assert!(message.starts_with("invalid CSV header:"))
        }
        other => panic!("expected a structural error, got {:?}", other),
    }
}

#[test]
fn one_partition_per_file_named_by_relative_path() {
    let entries = vec![
        entry("root", FsEntryKind::Directory),
        entry("root/a.csv", FsEntryKind::File),
        entry("root/b.csv", FsEntryKind::File),
        entry("root/sub", FsEntryKind::Directory),
        entry("root/sub/c.CSV", FsEntryKind::File),
    ];
    let plans = plan_csv_local_data("root", &entries).unwrap();
    let got: Vec<(&str, &str)> = plans
        .iter()
        .map(|p| (p.name.as_str(), p.path.as_str()))
        .collect();
    assert_eq!(
        got,
        vec![
            ("a", "root/a.csv"),
            ("b", "root/b.csv"),
            ("sub/c", "root/sub/c.CSV"),
        ]
    );
}

#[test]
fn a_non_matching_extension_fails_the_whole_read() {
    let entries = vec![
        entry("root/a.csv", FsEntryKind::File),
        entry("root/notes.txt", FsEntryKind::File),
    ];
    match plan_csv_local_data("root", &entries) {
        Err(CoreError::UnexpectedContent { message }) => {
            assert_eq!(message, "root/notes.txt must end in *.csv or *.CSV")
        }
        other => panic!("expected a structural error, got {:?}", other),
    }
}

#[test]
fn an_entry_that_is_no_file_fails_the_read() {
    let entries = vec![entry("root/pipe", FsEntryKind::Other)];
    match plan_csv_local_data("root", &entries) {
        Err(CoreError::UnexpectedContent { message }) => {
            assert_eq!(message, "not a file: root/pipe")
        }
        other => panic!("expected a structural error, got {:?}", other),
    }
}

#[test]
fn the_walk_root_itself_becomes_one_partition() {
    let entries = vec![entry("/data/table.csv", FsEntryKind::File)];
    let plans = plan_csv_local_data("/data/table.csv", &entries).unwrap();
    assert_eq!(plans.len(), 1);
    assert_eq!(plans[0].name, "table");
}

#[test]
fn a_root_with_a_trailing_separator_still_names_partitions() {
    let entries = vec![entry("root/a.csv", FsEntryKind::File)];
    let plans = plan_csv_local_data("root/", &entries).unwrap();
    assert_eq!(plans[0].name, "a");
}

#[test]
fn an_empty_walk_yields_zero_partitions() {
    let plans = plan_csv_local_data("root", &vec![]).unwrap();
    assert!(plans.is_empty());
}

#[test]
fn a_directory_destination_takes_one_file_per_partition() {
    let target = plan_csv_write_target(&PathOrStdio::Path("out/".to_string()));
    match target {
        CsvWriteTarget::Directory { dir } => assert_eq!(dir, "out/"),
        other => panic!("expected a directory target, got {:?}", other),
    }
    let names = vec!["a".to_string(), "b".to_string(), "sub/c".to_string()];
    let paths = partition_file_paths("out/", &names);
    assert_eq!(paths, vec!["out/a.csv", "out/b.csv", "out/sub/c.csv"]);
}

#[test]
fn a_plain_path_destination_takes_one_concatenated_file() {
    let target = plan_csv_write_target(&PathOrStdio::Path("out.csv".to_string()));
    match target {
        CsvWriteTarget::SingleFile { path } => assert_eq!(path, "out.csv"),
        other => panic!("expected a single-file target, got {:?}", other),
    }
}

#[test]
fn stdio_destination_concatenates_to_stdout() {
    let target = plan_csv_write_target(&PathOrStdio::Stdio);
    assert!(matches!(target, CsvWriteTarget::Stdout));
}

#[test]
fn concatenation_keeps_one_header_and_all_rows_in_order() {
    let a = CsvStream {
        name: "a".to_string(),
        rows: vec![b"h1,h2".to_vec(), b"1,2".to_vec(), b"3,4".to_vec()],
    };
    let b = CsvStream {
        name: "b".to_string(),
        rows: vec![b"h1,h2".to_vec(), b"5,6".to_vec()],
    };
    let c = CsvStream {
        name: "c".to_string(),
        rows: vec![b"h1,h2".to_vec()],
    };
    let merged = concatenate_csv_streams(vec![a, b, c]);
    let rows: Vec<&[u8]> = merged.rows.iter().map(|r| r.as_slice()).collect();
    assert_eq!(
        rows,
        vec![
            b"h1,h2".as_slice(),
            b"1,2".as_slice(),
            b"3,4".as_slice(),
            b"5,6".as_slice(),
        ]
    );
}

#[test]
fn concatenating_nothing_yields_an_empty_stream() {
    let merged = concatenate_csv_streams(vec![]);
    assert!(merged.rows.is_empty());
}

#[test]
fn partition_file_path_joins_name_and_extension() {
    assert_eq!(partition_file_path("out/", "a"), "out/a.csv");
}

#[test]
fn file_stems_fall_back_to_a_fixed_name() {
    assert_eq!(file_stem_name("/a/b/people.csv"), "people");
    assert_eq!(file_stem_name("people.csv"), "people");
    assert_eq!(file_stem_name("plain"), "plain");
    assert_eq!(file_stem_name("/a/b/"), "data");
    assert_eq!(file_stem_name(".csv"), ".csv");
}

#[test]
fn basenames_and_relative_parts() {
    assert_eq!(basename_of("/a/b/c.csv"), "c.csv");
    assert_eq!(basename_of("c.csv"), "c.csv");
    assert_eq!(rel_part_of("root", "root/a.csv"), "a.csv");
    assert_eq!(rel_part_of("root/", "root/a.csv"), "a.csv");
    assert_eq!(rel_part_of("/d/x.csv", "/d/x.csv"), "x.csv");
}

#[test]
fn csv_locator_parses_and_prints() {
    let l = CsvLocator::from_str("csv:data/").unwrap();
    match l.location() {
        PathOrStdio::Path(p) => assert_eq!(p.as_str(), "data/"),
        other => panic!("expected a path, got {:?}", other),
    }
    assert_eq!(l.to_locator_string(), "csv:data/");
    let l = CsvLocator::from_str("csv:-").unwrap();
    assert!(matches!(l.location(), PathOrStdio::Stdio));
}

#[test]
fn schema_cannot_be_read_from_stdin() {
    let l = CsvLocator::from_str("csv:-").unwrap();
    match l.schema_source() {
        Err(CoreError::Validation { message }) => {
            assert_eq!(message, "cannot yet read CSV schema from stdin")
        }
        other => panic!("expected a validation error, got {:?}", other),
    }
    let l = CsvLocator::from_str("csv:data.csv").unwrap();
    assert_eq!(l.schema_source().unwrap().as_str(), "data.csv");
}

#[test]
fn header_fields_become_nullable_text_columns() {
    let fields = vec!["x".to_string(), "y".to_string()];
    let t = dbcrossbar_core::csv_driver::table_from_header_fields("pts", &fields).unwrap();
    assert_eq!(t.name, "pts");
    assert_eq!(t.columns.len(), 2);
    assert_eq!(t.columns[0].name, "x");
    assert_eq!(t.columns[1].name, "y");
    assert!(t.columns.iter().all(|c| c.data_type == DataType::Text && c.is_nullable));
    let dup = vec!["x".to_string(), "x".to_string()];
    assert!(matches!(
        dbcrossbar_core::csv_driver::table_from_header_fields("pts", &dup),
        Err(CoreError::Validation { .. })
    ));
}

#[test]
fn the_stdin_partition_carries_the_fixed_name() {
    let rows = vec![b"h".to_vec(), b"1".to_vec()];
    let s = dbcrossbar_core::csv_driver::stdin_csv_stream(rows.clone());
    assert_eq!(s.name, "data");
    assert_eq!(s.rows, rows);
}
