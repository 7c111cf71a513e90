use dbcrossbar_core::csv_driver::CsvLocator;
use dbcrossbar_core::errors::CoreError;
use dbcrossbar_core::locator::IfExists;
use dbcrossbar_core::csv_driver::check_csv_source_request;
use dbcrossbar_core::s3::{RedshiftLocator, S3Locator};

#[test]
fn a_valid_object_storage_locator_parses() {
    let l = S3Locator::from_str("s3://bucket/nested/prefix/").unwrap();
    assert_eq!(l.as_url().as_str(), "s3://bucket/nested/prefix/");
    assert_eq!(l.to_locator_string(), "s3://bucket/nested/prefix/");
}

#[test]
fn an_object_storage_locator_must_end_with_a_separator() {
    match S3Locator::from_str("s3://bucket/prefix") {
        Err(CoreError::Validation { message }) => {
            assert_eq!(message, "s3://bucket/prefix must end with a '/'")
        }
        other => panic!("expected a validation error, got {:?}", other),
    }
}

#[test]
fn an_object_storage_locator_must_carry_its_scheme() {
    match S3Locator::from_str("http://bucket/prefix/") {
        Err(CoreError::Validation { message }) => {
            assert_eq!(
                message,
                "http://bucket/prefix/ was expected to begin with s3://"
            )
        }
        other => panic!("expected a validation error, got {:?}", other),
    }
}

#[test]
fn a_bare_scheme_is_no_bucket_prefix() {
    match S3Locator::from_str("s3://") {
        Err(CoreError::Validation { message }) => {
            assert_eq!(message, "s3:// must name a bucket prefix")
        }
        other => panic!("expected a validation error, got {:?}", other),
    }
}

#[test]
fn a_warehouse_locator_needs_only_its_scheme() {
    let l = RedshiftLocator::from_str("redshift://cluster/database").unwrap();
    assert_eq!(l.as_url().as_str(), "redshift://cluster/database");
    match RedshiftLocator::from_str("postgres://cluster/database") {
        Err(CoreError::Validation { .. }) => {}
        other => panic!("expected a validation error, got {:?}", other),
    }
}

#[test]
fn advertised_features_match_the_adapters() {
    let csv = CsvLocator::features();
    assert!(csv.operations.schema);
    assert!(!csv.operations.write_schema);
    assert!(csv.operations.local_data);
    assert!(csv.operations.write_local_data);
    assert!(!csv.dest_if_exists.supports(IfExists::Append));
    assert!(csv.dest_if_exists.supports(IfExists::Overwrite));
    assert!(csv.dest_if_exists.supports(IfExists::Error));

    let s3 = S3Locator::features();
    assert!(!s3.operations.schema);
    assert!(s3.operations.local_data);
    assert!(s3.operations.write_local_data);
    assert!(s3.dest_if_exists.supports(IfExists::Overwrite));
    assert!(!s3.dest_if_exists.supports(IfExists::Error));

    let bq = dbcrossbar_core::bigquery_schema::BigQuerySchemaLocator::features();
    assert!(bq.operations.schema);
    assert!(bq.operations.write_schema);
    assert!(!bq.operations.local_data);
    assert!(!bq.operations.write_local_data);
    assert!(!bq.write_schema_if_exists.supports(IfExists::Append));
    assert!(bq.write_schema_if_exists.supports(IfExists::Overwrite));
}

#[test]
fn csv_source_requests_reject_queries_and_arguments() {
    assert!(check_csv_source_request(false, false).is_ok());
    assert!(matches!(
        check_csv_source_request(true, false),
        Err(CoreError::Validation { .. })
    ));
    assert!(matches!(
        check_csv_source_request(false, true),
        Err(CoreError::Validation { .. })
    ));
}
