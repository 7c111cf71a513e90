use vstd::prelude::*;

use crate::errors::CoreError;
use crate::locator::{Features, IfExistsFeatures, OperationSet};
use crate::text::{is_prefix_of, str_concat, str_ends_with, str_starts_with};

verus! {

/// A valid object-storage location: it carries the scheme, has something
/// after it, and ends with the separator — it always names a prefix
/// ("directory") of objects, never a single object.
pub open spec fn spec_s3_url_valid(s: Seq<char>) -> bool {
    &&& is_prefix_of("s3://"@, s)
    &&& s.len() > "s3://"@.len()
    &&& s[s.len() - 1] == '/'
}

/// An object-storage endpoint: a bucket prefix under which partitions are
/// stored as objects. Listing, reading and writing the objects is done by
/// an external storage client outside this core.
#[derive(Clone, Debug)]
pub struct S3Locator {
    url: String,
}

impl S3Locator {
    /// The spec-level URL.
    pub closed spec fn url_spec(&self) -> Seq<char> {
        self.url@
    }

    /// Access the object-storage URL in this locator.
    pub fn as_url(&self) -> (u: &String)
        ensures
            u@ == self.url_spec(),
    {
        &self.url
    }

    /// The scheme prefix this adapter recognizes.
    pub fn scheme() -> (s: &'static str)
        ensures
            s@ == "s3:"@,
    {
        "s3:"
    }

    /// Parse an object-storage locator string. The location must carry
    /// the scheme, name a bucket prefix and end with a separator; any
    /// violation is a validation error found before any I/O.
    pub fn from_str(s: &str) -> (r: Result<Self, CoreError>)
        ensures
            r is Ok <==> spec_s3_url_valid(s@),
            r is Ok ==> r->Ok_0.url_spec() == s@,
            r is Err ==> r->Err_0 is Validation,
    {
        if !str_starts_with(s, "s3://") {
            return Err(CoreError::Validation {
                message: str_concat(s, " was expected to begin with s3://"),
            });
        }
        let n = s.unicode_len();
        if n <= 5 {
            proof {
                reveal_strlit("s3://");
            }
            return Err(CoreError::Validation {
                message: str_concat(s, " must name a bucket prefix"),
            });
        }
        if !str_ends_with(s, "/") {
            proof {
                reveal_strlit("/");
                if spec_s3_url_valid(s@) {
                    assert(s@.subrange(s@.len() - 1, s@.len() as int) =~= "/"@);
                }
            }
            return Err(CoreError::Validation { message: str_concat(s, " must end with a '/'") });
        }
        proof {
            reveal_strlit("s3://");
            reveal_strlit("/");
            assert(s@.subrange(s@.len() - 1, s@.len() as int)[0] == s@[s@.len() - 1]);
        }
        Ok(S3Locator { url: s.to_owned() })
    }

    /// Render this locator back into a locator string: the URL itself.
    pub fn to_locator_string(&self) -> (r: String)
        ensures
            r@ == self.url_spec(),
    {
        self.url.clone()
    }

    /// The capability set this adapter advertises: data read and data
    /// write only; object stores replace objects, so only the overwrite
    /// policy is honored.
    pub open spec fn features_spec() -> Features {
        Features {
            operations: OperationSet {
                schema: false,
                write_schema: false,
                local_data: true,
                write_local_data: true,
            },
            write_schema_if_exists: IfExistsFeatures {
                error: false,
                overwrite: false,
                append: false,
                overwrite_or_create: false,
            },
            source_args: false,
            dest_args: false,
            dest_if_exists: IfExistsFeatures {
                error: false,
                overwrite: true,
                append: false,
                overwrite_or_create: false,
            },
        }
    }

    /// Runtime copy of `features_spec`.
    pub fn features() -> (f: Features)
        ensures
            f == Self::features_spec(),
    {
        Features {
            operations: OperationSet {
                schema: false,
                write_schema: false,
                local_data: true,
                write_local_data: true,
            },
            write_schema_if_exists: IfExistsFeatures::none(),
            source_args: false,
            dest_args: false,
            dest_if_exists: IfExistsFeatures::overwrite_only(),
        }
    }
}

/// A warehouse-style endpoint, present here only as the source type the
/// object-storage adapter can transfer from directly (a native bulk
/// unload). Its own data operations live outside this core.
#[derive(Clone, Debug)]
pub struct RedshiftLocator {
    url: String,
}

impl RedshiftLocator {
    /// The spec-level URL.
    pub closed spec fn url_spec(&self) -> Seq<char> {
        self.url@
    }

    /// Access the URL in this locator.
    pub fn as_url(&self) -> (u: &String)
        ensures
            u@ == self.url_spec(),
    {
        &self.url
    }

    /// The scheme prefix this adapter recognizes.
    pub fn scheme() -> (s: &'static str)
        ensures
            s@ == "redshift:"@,
    {
        "redshift:"
    }

    /// Parse a warehouse locator string: only the scheme is checked here;
    /// everything behind it belongs to the external client.
    pub fn from_str(s: &str) -> (r: Result<Self, CoreError>)
        ensures
            r is Ok <==> is_prefix_of("redshift:"@, s@),
            r is Ok ==> r->Ok_0.url_spec() == s@,
            r is Err ==> r->Err_0 is Validation,
    {
        if !str_starts_with(s, "redshift:") {
            return Err(CoreError::Validation {
                message: str_concat(s, " was expected to begin with redshift:"),
            });
        }
        Ok(RedshiftLocator { url: s.to_owned() })
    }

    /// The capability set advertised here: none of the core operations —
    /// the warehouse's own reads and writes are outside this core's
    /// scope; it takes part only as the source of a direct transfer.
    pub open spec fn features_spec() -> Features {
        Features {
            operations: OperationSet {
                schema: false,
                write_schema: false,
                local_data: false,
                write_local_data: false,
            },
            write_schema_if_exists: IfExistsFeatures {
                error: false,
                overwrite: false,
                append: false,
                overwrite_or_create: false,
            },
            source_args: false,
            dest_args: false,
            dest_if_exists: IfExistsFeatures {
                error: false,
                overwrite: false,
                append: false,
                overwrite_or_create: false,
            },
        }
    }

    /// Runtime copy of `features_spec`.
    pub fn features() -> (f: Features)
        ensures
            f == Self::features_spec(),
    {
        Features {
            operations: OperationSet {
                schema: false,
                write_schema: false,
                local_data: false,
                write_local_data: false,
            },
            write_schema_if_exists: IfExistsFeatures::none(),
            source_args: false,
            dest_args: false,
            dest_if_exists: IfExistsFeatures::none(),
        }
    }
}

} // verus!
