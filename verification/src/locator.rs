use vstd::prelude::*;

use crate::errors::CoreError;
use crate::text::{is_prefix_of, str_between, str_concat, str_eq, str_starts_with};

verus! {

/// Destination-write conflict-resolution policy.
#[derive(Clone, Copy, PartialEq, Eq, Structural, Debug)]
pub enum IfExists {
    /// Fail if the destination already exists.
    Error,
    /// Replace the destination if it exists.
    Overwrite,
    /// Add to the destination if it exists.
    Append,
    /// Replace the destination, creating it if needed.
    OverwriteOrCreate,
}

/// The subset of `IfExists` policies an endpoint honors for a given kind of
/// write.
#[derive(Clone, Copy, PartialEq, Eq, Structural, Debug)]
pub struct IfExistsFeatures {
    pub error: bool,
    pub overwrite: bool,
    pub append: bool,
    pub overwrite_or_create: bool,
}

impl IfExistsFeatures {
    /// Does this feature set honor `policy`?
    pub open spec fn supports_spec(&self, policy: IfExists) -> bool {
        match policy {
            IfExists::Error => self.error,
            IfExists::Overwrite => self.overwrite,
            IfExists::Append => self.append,
            IfExists::OverwriteOrCreate => self.overwrite_or_create,
        }
    }

    /// Runtime check of `supports_spec`.
    pub fn supports(&self, policy: IfExists) -> (r: bool)
        ensures
            r == self.supports_spec(policy),
    {
        match policy {
            IfExists::Error => self.error,
            IfExists::Overwrite => self.overwrite,
            IfExists::Append => self.append,
            IfExists::OverwriteOrCreate => self.overwrite_or_create,
        }
    }

    /// No policy at all (the endpoint does not write this way).
    pub fn none() -> (r: Self)
        ensures
            r == (IfExistsFeatures {
                error: false,
                overwrite: false,
                append: false,
                overwrite_or_create: false,
            }),
    {
        IfExistsFeatures { error: false, overwrite: false, append: false, overwrite_or_create: false }
    }

    /// Every policy except append, for destinations that are replaced
    /// wholesale or rejected.
    pub fn no_append() -> (r: Self)
        ensures
            r == (IfExistsFeatures {
                error: true,
                overwrite: true,
                append: false,
                overwrite_or_create: true,
            }),
    {
        IfExistsFeatures { error: true, overwrite: true, append: false, overwrite_or_create: true }
    }

    /// Overwrite only.
    pub fn overwrite_only() -> (r: Self)
        ensures
            r == (IfExistsFeatures {
                error: false,
                overwrite: true,
                append: false,
                overwrite_or_create: false,
            }),
    {
        IfExistsFeatures { error: false, overwrite: true, append: false, overwrite_or_create: false }
    }
}

/// Which of the core operations an endpoint implements.
#[derive(Clone, Copy, PartialEq, Eq, Structural, Debug)]
pub struct OperationSet {
    pub schema: bool,
    pub write_schema: bool,
    pub local_data: bool,
    pub write_local_data: bool,
}

/// The static capability descriptor an endpoint advertises. The advertised
/// set must exactly match the implemented behavior: calling an operation
/// outside it is a caller error, caught at negotiation.
#[derive(Clone, Copy, PartialEq, Eq, Structural, Debug)]
pub struct Features {
    pub operations: OperationSet,
    pub write_schema_if_exists: IfExistsFeatures,
    /// Accepts extra driver-specific source arguments.
    pub source_args: bool,
    /// Accepts extra driver-specific destination arguments.
    pub dest_args: bool,
    pub dest_if_exists: IfExistsFeatures,
}

/// The per-format file access mode derived from an `IfExists` policy.
#[derive(Clone, Copy, PartialEq, Eq, Structural, Debug)]
pub enum AccessMode {
    /// Open for write, failing if the file already exists.
    Exclusive,
    /// Open for write, creating the file or truncating what is there.
    Truncate,
}

/// Map an `IfExists` policy to the access mode for a format that cannot
/// append; the append policy is a validation error.
pub fn access_mode_no_append(policy: IfExists) -> (r: Result<AccessMode, CoreError>)
    ensures
        match policy {
            IfExists::Error => r == Ok::<AccessMode, CoreError>(AccessMode::Exclusive),
            IfExists::Overwrite => r == Ok::<AccessMode, CoreError>(AccessMode::Truncate),
            IfExists::OverwriteOrCreate => r == Ok::<AccessMode, CoreError>(AccessMode::Truncate),
            IfExists::Append => r is Err && r->Err_0 is Validation,
        },
{
    match policy {
        IfExists::Error => Ok(AccessMode::Exclusive),
        IfExists::Overwrite => Ok(AccessMode::Truncate),
        IfExists::OverwriteOrCreate => Ok(AccessMode::Truncate),
        IfExists::Append => Err(CoreError::Validation {
            message: String::from_str("append is not supported by this destination"),
        }),
    }
}

/// A scheme-specific location that is either a real path or the process's
/// standard input/output.
#[derive(Clone, Debug)]
pub enum PathOrStdio {
    Stdio,
    Path(String),
}

/// The mathematical value of a `PathOrStdio`.
pub enum PathOrStdioModel {
    Stdio,
    Path(Seq<char>),
}

impl View for PathOrStdio {
    type V = PathOrStdioModel;

    open spec fn view(&self) -> PathOrStdioModel {
        match self {
            PathOrStdio::Stdio => PathOrStdioModel::Stdio,
            PathOrStdio::Path(p) => PathOrStdioModel::Path(p@),
        }
    }
}

/// What `parse_path_or_stdio` yields for a locator string that carries the
/// given scheme: the remainder is a path, except that `-` means stdio.
pub open spec fn spec_path_or_stdio(scheme: Seq<char>, s: Seq<char>) -> PathOrStdioModel {
    let rest = s.skip(scheme.len() as int);
    if rest == "-"@ {
        PathOrStdioModel::Stdio
    } else {
        PathOrStdioModel::Path(rest)
    }
}

/// Parse the location part of a locator string: the string must begin with
/// the adapter's scheme; what follows is a path, or `-` for stdio.
pub fn parse_path_or_stdio(scheme: &str, s: &str) -> (r: Result<PathOrStdio, CoreError>)
    ensures
        r is Ok <==> is_prefix_of(scheme@, s@),
        r is Ok ==> r->Ok_0@ == spec_path_or_stdio(scheme@, s@),
        r is Err ==> r->Err_0 is Validation,
{
    if !str_starts_with(s, scheme) {
        let mut m = str_concat("expected a locator starting with ", scheme);
        m.append(": ");
        m.append(s);
        return Err(CoreError::Validation { message: m });
    }
    let rest = str_between(s, scheme.unicode_len(), s.unicode_len());
    proof {
        assert(rest@ =~= s@.skip(scheme@.len() as int));
    }
    if str_eq(rest.as_str(), "-") {
        Ok(PathOrStdio::Stdio)
    } else {
        Ok(PathOrStdio::Path(rest))
    }
}

impl PathOrStdio {
    /// Render this location back into a locator string under `scheme`.
    pub fn to_locator_string(&self, scheme: &str) -> (r: String)
        ensures
            self is Stdio ==> r@ == scheme@ + "-"@,
            self matches PathOrStdio::Path(p) ==> r@ == scheme@ + p@,
    {
        match self {
            PathOrStdio::Stdio => str_concat(scheme, "-"),
            PathOrStdio::Path(p) => str_concat(scheme, p.as_str()),
        }
    }
}

} // verus!
