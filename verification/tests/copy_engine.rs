use dbcrossbar_core::copy::{negotiate, plan_copy, CopyPlan, CopyRequest, Locator};
use dbcrossbar_core::errors::CoreError;
use dbcrossbar_core::locator::{access_mode_no_append, AccessMode, IfExists};

fn req(copy_schema: bool, dest_if_exists: IfExists) -> CopyRequest {
    CopyRequest {
        copy_schema,
        dest_if_exists,
        has_source_args: false,
        has_dest_args: false,
    }
}

fn csv_src() -> Locator {
    Locator::parse("csv:data/").unwrap()
}

fn s3_dest() -> Locator {
    Locator::parse("s3://bucket/prefix/").unwrap()
}

fn redshift_src() -> Locator {
    Locator::parse("redshift://cluster/db").unwrap()
}

fn bq_schema() -> Locator {
    Locator::parse("bigquery-schema:/tmp/schema.json").unwrap()
}

#[test]
fn an_unsupported_policy_fails_before_any_data_is_read() {
    // The object-storage destination advertises only the overwrite policy.
    match plan_copy(&csv_src(), &s3_dest(), &req(false, IfExists::Append)) {
        Err(CoreError::Validation { message }) => assert_eq!(
            message,
            "the requested if-exists policy is not supported by the destination"
        ),
        other => panic!("expected a validation error, got {:?}", other),
    }
    match plan_copy(&csv_src(), &s3_dest(), &req(false, IfExists::Error)) {
        Err(CoreError::Validation { .. }) => {}
        other => panic!("expected a validation error, got {:?}", other),
    }
}

#[test]
fn a_direct_capable_pair_takes_the_direct_route() {
    let plan = plan_copy(&redshift_src(), &s3_dest(), &req(false, IfExists::Overwrite)).unwrap();
    assert_eq!(plan, CopyPlan::Direct);
}

#[test]
fn a_pair_without_direct_support_streams_unconditionally() {
    let plan = plan_copy(&csv_src(), &s3_dest(), &req(false, IfExists::Overwrite)).unwrap();
    assert_eq!(
        plan,
        CopyPlan::Stream {
            copy_schema: false,
            move_data: true
        }
    );
}

#[test]
fn direct_support_is_not_symmetric() {
    // The warehouse is only a direct source, never a direct destination,
    // and the flat-file adapter takes part in no direct pair at all.
    assert!(s3_dest().supports_write_remote_data(&redshift_src()));
    assert!(!redshift_src().supports_write_remote_data(&s3_dest()));
    assert!(!s3_dest().supports_write_remote_data(&csv_src()));
}

#[test]
fn schema_propagation_needs_both_capabilities() {
    // The object-storage destination cannot write a schema.
    match plan_copy(&csv_src(), &s3_dest(), &req(true, IfExists::Overwrite)) {
        Err(CoreError::Validation { message }) => assert_eq!(
            message,
            "schema propagation was requested but is not supported"
        ),
        other => panic!("expected a validation error, got {:?}", other),
    }
}

#[test]
fn a_schema_only_transfer_plans_with_no_data_movement() {
    // Schema-interchange to schema-interchange: no partitions exist, and
    // moving the schema alone is a valid transfer.
    let plan = plan_copy(&bq_schema(), &bq_schema(), &req(true, IfExists::Overwrite)).unwrap();
    assert_eq!(
        plan,
        CopyPlan::Stream {
            copy_schema: true,
            move_data: false
        }
    );
}

#[test]
fn schema_writes_honor_their_own_policy_set() {
    // Interchange documents are replaced wholesale or rejected: append is
    // not in the schema-write feature set.
    match plan_copy(&bq_schema(), &bq_schema(), &req(true, IfExists::Append)) {
        Err(CoreError::Validation { message }) => assert_eq!(
            message,
            "the requested if-exists policy is not supported for schema writes"
        ),
        other => panic!("expected a validation error, got {:?}", other),
    }
}

#[test]
fn a_transfer_with_nothing_to_do_is_rejected() {
    // A schema-only source with no schema requested plans nothing.
    match plan_copy(&bq_schema(), &s3_dest(), &req(false, IfExists::Overwrite)) {
        Err(CoreError::Validation { message }) => {
            assert_eq!(message, "this source cannot be streamed into this destination")
        }
        other => panic!("expected a validation error, got {:?}", other),
    }
}

#[test]
fn driver_arguments_must_be_advertised() {
    let r = CopyRequest {
        copy_schema: false,
        dest_if_exists: IfExists::Overwrite,
        has_source_args: true,
        has_dest_args: false,
    };
    let src = csv_src().features();
    let dst = s3_dest().features();
    match negotiate(&src, &dst, &r) {
        Err(CoreError::Validation { message }) => {
            assert_eq!(message, "the source does not accept driver arguments")
        }
        other => panic!("expected a validation error, got {:?}", other),
    }
}

#[test]
fn unknown_schemes_are_rejected() {
    match Locator::parse("gopher://old/") {
        Err(CoreError::Validation { message }) => {
            assert_eq!(message, "unknown locator scheme: gopher://old/")
        }
        other => panic!("expected a validation error, got {:?}", other),
    }
}

#[test]
fn parsing_dispatches_on_the_scheme() {
    assert!(matches!(Locator::parse("csv:-").unwrap(), Locator::Csv(_)));
    assert!(matches!(
        Locator::parse("s3://b/p/").unwrap(),
        Locator::S3(_)
    ));
    assert!(matches!(
        Locator::parse("bigquery-schema:-").unwrap(),
        Locator::BigQuerySchema(_)
    ));
    assert!(matches!(
        Locator::parse("redshift://c/d").unwrap(),
        Locator::Redshift(_)
    ));
}

#[test]
fn access_modes_follow_the_policy() {
    assert_eq!(
        access_mode_no_append(IfExists::Error).unwrap(),
        AccessMode::Exclusive
    );
    assert_eq!(
        access_mode_no_append(IfExists::Overwrite).unwrap(),
        AccessMode::Truncate
    );
    assert_eq!(
        access_mode_no_append(IfExists::OverwriteOrCreate).unwrap(),
        AccessMode::Truncate
    );
    match access_mode_no_append(IfExists::Append) {
        Err(CoreError::Validation { .. }) => {}
        other => panic!("expected a validation error, got {:?}", other),
    }
}

#[test]
fn parsing_keeps_each_adapter_location() {
    match Locator::parse("csv:data/").unwrap() {
        Locator::Csv(c) => match c.location() {
            dbcrossbar_core::locator::PathOrStdio::Path(p) => assert_eq!(p.as_str(), "data/"),
            other => panic!("expected a path, got {:?}", other),
        },
        other => panic!("expected the flat-file adapter, got {:?}", other),
    }
    match Locator::parse("s3://b/p/").unwrap() {
        Locator::S3(l) => assert_eq!(l.as_url().as_str(), "s3://b/p/"),
        other => panic!("expected the object-storage adapter, got {:?}", other),
    }
    match Locator::parse("s3://b/p") {
        Err(CoreError::Validation { .. }) => {}
        other => panic!("expected a validation error, got {:?}", other),
    }
}
