use vstd::prelude::*;

use crate::bigquery_schema::BigQuerySchemaLocator;
use crate::csv_driver::CsvLocator;
use crate::errors::CoreError;
use crate::locator::{Features, IfExists};
use crate::s3::{RedshiftLocator, S3Locator};
use crate::text::{is_prefix_of, str_concat, str_starts_with};

verus! {

/// A parsed endpoint of a transfer: one of the adapters this core ships.
/// Every adapter recognizes one scheme prefix and advertises a static
/// capability set; the copy engine composes any source with any
/// destination through this one type.
#[derive(Clone, Debug)]
pub enum Locator {
    Csv(CsvLocator),
    S3(S3Locator),
    BigQuerySchema(BigQuerySchemaLocator),
    Redshift(RedshiftLocator),
}

/// Only the object-storage destination can take data straight from a
/// source, and only when that source is the warehouse-style adapter: the
/// warehouse's native bulk unload writes the objects itself, with no
/// local staging.
pub open spec fn spec_supports_direct(dest: Locator, source: Locator) -> bool {
    dest is S3 && source is Redshift
}

impl Locator {
    /// The capability set this endpoint advertises.
    pub open spec fn features_spec(&self) -> Features {
        match self {
            Locator::Csv(_) => CsvLocator::features_spec(),
            Locator::S3(_) => S3Locator::features_spec(),
            Locator::BigQuerySchema(_) => BigQuerySchemaLocator::features_spec(),
            Locator::Redshift(_) => RedshiftLocator::features_spec(),
        }
    }

    /// Runtime copy of `features_spec`.
    pub fn features(&self) -> (f: Features)
        ensures
            f == self.features_spec(),
    {
        match self {
            Locator::Csv(_) => CsvLocator::features(),
            Locator::S3(_) => S3Locator::features(),
            Locator::BigQuerySchema(_) => BigQuerySchemaLocator::features(),
            Locator::Redshift(_) => RedshiftLocator::features(),
        }
    }

    /// Can this destination transfer directly from `source`, without
    /// staging partitions locally?
    pub fn supports_write_remote_data(&self, source: &Locator) -> (r: bool)
        ensures
            r == spec_supports_direct(*self, *source),
    {
        match (self, source) {
            (Locator::S3(_), Locator::Redshift(_)) => true,
            _ => false,
        }
    }

    /// Parse a locator string by its scheme prefix, handing it to the one
    /// adapter that recognizes it; an unknown scheme is a validation
    /// error.
    pub fn parse(s: &str) -> (r: Result<Locator, CoreError>)
        ensures
            is_prefix_of("csv:"@, s@) ==> (r matches Ok(Locator::Csv(c))
                && c.location_spec()@ == crate::locator::spec_path_or_stdio("csv:"@, s@)),
            is_prefix_of("bigquery-schema:"@, s@) ==> (r matches Ok(Locator::BigQuerySchema(b))
                && b.location_spec()@ == crate::locator::spec_path_or_stdio(
                    "bigquery-schema:"@,
                    s@,
                )),
            is_prefix_of("s3:"@, s@) ==> if crate::s3::spec_s3_url_valid(s@) {
                r matches Ok(Locator::S3(l)) && l.url_spec() == s@
            } else {
                r is Err
            },
            is_prefix_of("redshift:"@, s@) ==> (r matches Ok(Locator::Redshift(l))
                && l.url_spec() == s@),
            r is Err ==> r->Err_0 is Validation,
    {
        proof {
            reveal_strlit("csv:");
            reveal_strlit("s3:");
            reveal_strlit("bigquery-schema:");
            reveal_strlit("redshift:");
        }
        if str_starts_with(s, "csv:") {
            proof {
                lemma_distinct_schemes(s@);
            }
            match CsvLocator::from_str(s) {
                Ok(l) => Ok(Locator::Csv(l)),
                Err(e) => Err(e),
            }
        } else if str_starts_with(s, "s3:") {
            proof {
                lemma_distinct_schemes(s@);
            }
            match S3Locator::from_str(s) {
                Ok(l) => Ok(Locator::S3(l)),
                Err(e) => Err(e),
            }
        } else if str_starts_with(s, "bigquery-schema:") {
            proof {
                lemma_distinct_schemes(s@);
            }
            match BigQuerySchemaLocator::from_str(s) {
                Ok(l) => Ok(Locator::BigQuerySchema(l)),
                Err(e) => Err(e),
            }
        } else if str_starts_with(s, "redshift:") {
            proof {
                lemma_distinct_schemes(s@);
            }
            match RedshiftLocator::from_str(s) {
                Ok(l) => Ok(Locator::Redshift(l)),
                Err(e) => Err(e),
            }
        } else {
            Err(CoreError::Validation { message: str_concat("unknown locator scheme: ", s) })
        }
    }
}

/// No locator string carries two of the scheme prefixes at once.
proof fn lemma_distinct_schemes(s: Seq<char>)
    ensures
        is_prefix_of("csv:"@, s) ==> !is_prefix_of("s3:"@, s) && !is_prefix_of(
            "bigquery-schema:"@,
            s,
        ) && !is_prefix_of("redshift:"@, s),
        is_prefix_of("s3:"@, s) ==> !is_prefix_of("bigquery-schema:"@, s) && !is_prefix_of(
            "redshift:"@,
            s,
        ),
        is_prefix_of("bigquery-schema:"@, s) ==> !is_prefix_of("redshift:"@, s),
{
    reveal_strlit("csv:");
    reveal_strlit("s3:");
    reveal_strlit("bigquery-schema:");
    reveal_strlit("redshift:");
    if s.len() > 0 {
        assert(is_prefix_of("csv:"@, s) ==> s.subrange(0, 4)[0] == s[0]);
        assert(is_prefix_of("s3:"@, s) ==> s.subrange(0, 3)[0] == s[0]);
        assert(is_prefix_of("bigquery-schema:"@, s) ==> s.subrange(0, 16)[0] == s[0]);
        assert(is_prefix_of("redshift:"@, s) ==> s.subrange(0, 9)[0] == s[0]);
    }
}

/// What a caller asks of one transfer: whether to propagate the schema,
/// the destination conflict policy, and whether extra driver-specific
/// arguments ride along.
#[derive(Clone, Copy, PartialEq, Eq, Structural, Debug)]
pub struct CopyRequest {
    pub copy_schema: bool,
    pub dest_if_exists: IfExists,
    pub has_source_args: bool,
    pub has_dest_args: bool,
}

/// The route one transfer takes. A `Direct` plan holds no read of the
/// source's partitions at all: the destination pulls from the source by
/// itself. A `Stream` plan reads the source's partition sequence and
/// writes each partition to the destination under the shared supervision
/// context.
#[derive(Clone, Copy, PartialEq, Eq, Structural, Debug)]
pub enum CopyPlan {
    Direct,
    Stream { copy_schema: bool, move_data: bool },
}

/// Negotiation: every requested policy and argument must lie within both
/// endpoints' advertised features, checked before any data is touched.
/// The data-write policy matters only where the destination writes data;
/// a schema write must honor the policy under the destination's
/// schema-write feature set.
pub open spec fn spec_negotiation_ok(src: Features, dst: Features, req: CopyRequest) -> bool {
    &&& (dst.operations.write_local_data ==> dst.dest_if_exists.supports_spec(req.dest_if_exists))
    &&& (req.has_source_args ==> src.source_args)
    &&& (req.has_dest_args ==> dst.dest_args)
    &&& (req.copy_schema ==> src.operations.schema && dst.operations.write_schema
        && dst.write_schema_if_exists.supports_spec(req.dest_if_exists))
}

/// The plan a transfer gets, if any: nothing on a negotiation failure;
/// the direct route whenever the destination supports it for this source
/// (strictly preferred, as it avoids local staging); otherwise the
/// stream-and-write route. Data moves where the source reads data and
/// the destination writes it; a schema-only source yields zero
/// partitions, which is a valid transfer of schema alone.
pub open spec fn spec_plan_copy(source: Locator, dest: Locator, req: CopyRequest) -> Option<
    CopyPlan,
> {
    if !spec_negotiation_ok(source.features_spec(), dest.features_spec(), req) {
        None
    } else if spec_supports_direct(dest, source) {
        Some(CopyPlan::Direct)
    } else if source.features_spec().operations.local_data
        && dest.features_spec().operations.write_local_data {
        Some(CopyPlan::Stream { copy_schema: req.copy_schema, move_data: true })
    } else if !source.features_spec().operations.local_data && req.copy_schema {
        Some(CopyPlan::Stream { copy_schema: true, move_data: false })
    } else {
        None
    }
}

/// Validate a request against both endpoints' features. Fails — before
/// any data is read — exactly when the request asks for a policy,
/// argument or schema operation outside the advertised sets.
pub fn negotiate(src: &Features, dst: &Features, req: &CopyRequest) -> (r: Result<(), CoreError>)
    ensures
        r is Ok <==> spec_negotiation_ok(*src, *dst, *req),
        r is Err ==> r->Err_0 is Validation,
{
    if dst.operations.write_local_data && !dst.dest_if_exists.supports(req.dest_if_exists) {
        return Err(CoreError::Validation {
            message: String::from_str(
                "the requested if-exists policy is not supported by the destination",
            ),
        });
    }
    if req.has_source_args && !src.source_args {
        return Err(CoreError::Validation {
            message: String::from_str("the source does not accept driver arguments"),
        });
    }
    if req.has_dest_args && !dst.dest_args {
        return Err(CoreError::Validation {
            message: String::from_str("the destination does not accept driver arguments"),
        });
    }
    if req.copy_schema && !(src.operations.schema && dst.operations.write_schema) {
        return Err(CoreError::Validation {
            message: String::from_str("schema propagation was requested but is not supported"),
        });
    }
    if req.copy_schema && !dst.write_schema_if_exists.supports(req.dest_if_exists) {
        return Err(CoreError::Validation {
            message: String::from_str(
                "the requested if-exists policy is not supported for schema writes",
            ),
        });
    }
    Ok(())
}

/// The copy engine's first two phases: negotiate, then route. The
/// returned plan is all that later phases execute, so a validation
/// failure here means no source or destination operation ever runs.
pub fn plan_copy(source: &Locator, dest: &Locator, req: &CopyRequest) -> (r: Result<
    CopyPlan,
    CoreError,
>)
    ensures
        r is Ok <==> spec_plan_copy(*source, *dest, *req) is Some,
        r is Ok ==> Some(r->Ok_0) == spec_plan_copy(*source, *dest, *req),
        r is Err ==> r->Err_0 is Validation,
{
    let src_features = source.features();
    let dst_features = dest.features();
    negotiate(&src_features, &dst_features, req)?;
    if dest.supports_write_remote_data(source) {
        Ok(CopyPlan::Direct)
    } else if src_features.operations.local_data && dst_features.operations.write_local_data {
        Ok(CopyPlan::Stream { copy_schema: req.copy_schema, move_data: true })
    } else if !src_features.operations.local_data && req.copy_schema {
        Ok(CopyPlan::Stream { copy_schema: true, move_data: false })
    } else {
        Err(CoreError::Validation {
            message: String::from_str(
                "this source cannot be streamed into this destination",
            ),
        })
    }
}

/// Law: a request whose if-exists policy lies outside the destination's
/// advertised features gets no plan, so nothing is ever read from the
/// source — negotiation fails on the features and the request alone,
/// before any data exists to touch.
pub proof fn lemma_unsupported_policy_never_plans(source: Locator, dest: Locator, req: CopyRequest)
    requires
        dest.features_spec().operations.write_local_data,
        !dest.features_spec().dest_if_exists.supports_spec(req.dest_if_exists),
    ensures
        spec_plan_copy(source, dest, req) is None,
{
}

/// Law: routing is decided by `spec_supports_direct` alone. When the
/// destination supports a direct transfer from this source, the plan is
/// the direct route, which holds no read of the source's partitions;
/// when it does not, any plan is the stream-and-write route.
pub proof fn lemma_direct_routing(source: Locator, dest: Locator, req: CopyRequest)
    requires
        spec_negotiation_ok(source.features_spec(), dest.features_spec(), req),
    ensures
        spec_supports_direct(dest, source) ==> spec_plan_copy(source, dest, req) == Some(
            CopyPlan::Direct,
        ),
        !spec_supports_direct(dest, source) ==> (spec_plan_copy(source, dest, req) is Some
            ==> spec_plan_copy(source, dest, req)->Some_0 is Stream),
{
}

} // verus!
