use vstd::prelude::*;

use crate::text::{
    ascii_lower_char, ascii_upper_char, is_ascii_seq, lower_of, str_eq, to_lower, to_upper,
    upper_of,
};

verus! {

/// Failures of the mount layer. Every one is reported at once, with nothing
/// changed before it.
#[derive(Debug, Clone, Copy, PartialEq, Eq, Structural)]
pub enum MountError {
    /// A string names none of the variants of a policy enum.
    InvalidEnumValue,
    /// A backend path carries no `scheme://` part.
    MissingScheme,
    /// No resolution rule knows the scheme.
    UnsupportedScheme,
    /// The selected backend family is not available in this deployment.
    ProviderUnavailable,
    /// An explicit provider cannot serve the scheme.
    ProviderSchemeMismatch,
    /// The `provider` property holds an unknown value.
    InvalidProviderConfig,
    /// Automatic resolution for `oss` found no usable backend family.
    NoProviderAvailable,
    /// A path is not in the namespace that the conversion reads from.
    PathDirectionError,
    /// A path string cannot name anything (it is empty).
    InvalidPath,
}

/// How a mount relates the cache namespace to its backend.
#[derive(Debug, Clone, Copy, PartialEq, Eq, Hash, Structural)]
pub enum MountType {
    Cst,
    Orch,
}

/// How cached state is reconciled with the backend.
#[derive(Debug, Clone, Copy, PartialEq, Eq, Hash, Structural)]
pub enum ConsistencyStrategy {
    /// Cached state is never reconciled (named `NONE` in text).
    Never,
    Always,
}

/// Which backend client family serves a scheme.
#[derive(Debug, Clone, Copy, PartialEq, Eq, Hash, Structural)]
pub enum Provider {
    Auto,
    OssHdfs,
    Opendal,
}

/// Where a write goes: the cache layer, the backend, or both.
///
/// - `Cache`: only the cache layer; the backend is never touched.
/// - `Through`: only the backend; the cache layer is bypassed.
/// - `AsyncThrough`: the cache layer at once, the backend later in the background.
/// - `CacheThrough`: both, synchronously, before the write is acknowledged.
#[derive(Debug, Clone, Copy, PartialEq, Eq, Hash, Structural)]
pub enum WriteType {
    Cache,
    Through,
    AsyncThrough,
    CacheThrough,
}

/// What happens to cached data once its time to live has run out.
#[derive(Debug, Clone, Copy, PartialEq, Eq, Hash, Structural)]
pub enum TtlAction {
    /// Nothing is done (named `NONE` in text).
    NoAction,
    Delete,
}

/// The storage medium that a block is placed on.
#[derive(Debug, Clone, Copy, PartialEq, Eq, Hash, Structural)]
pub enum StorageType {
    Mem,
    Ssd,
    Hdd,
    Ufs,
    Disk,
}

/// The mount type named by an upper-cased string.
pub open spec fn mount_type_from_upper(u: Seq<char>) -> Result<MountType, MountError> {
    if u == "CST"@ {
        Ok(MountType::Cst)
    } else if u == "ORCH"@ {
        Ok(MountType::Orch)
    } else {
        Err(MountError::InvalidEnumValue)
    }
}

/// The consistency strategy named by an upper-cased string.
pub open spec fn strategy_from_upper(u: Seq<char>) -> Result<ConsistencyStrategy, MountError> {
    if u == "NONE"@ {
        Ok(ConsistencyStrategy::Never)
    } else if u == "ALWAYS"@ {
        Ok(ConsistencyStrategy::Always)
    } else {
        Err(MountError::InvalidEnumValue)
    }
}

/// The provider named by a lower-cased string.
pub open spec fn provider_from_lower(l: Seq<char>) -> Result<Provider, MountError> {
    if l == "auto"@ {
        Ok(Provider::Auto)
    } else if l == "oss-hdfs"@ {
        Ok(Provider::OssHdfs)
    } else if l == "opendal"@ {
        Ok(Provider::Opendal)
    } else {
        Err(MountError::InvalidEnumValue)
    }
}

/// The write type named by a lower-cased string.
pub open spec fn write_type_from_lower(l: Seq<char>) -> Result<WriteType, MountError> {
    if l == "cache"@ {
        Ok(WriteType::Cache)
    } else if l == "through"@ {
        Ok(WriteType::Through)
    } else if l == "async_through"@ {
        Ok(WriteType::AsyncThrough)
    } else if l == "cache_through"@ {
        Ok(WriteType::CacheThrough)
    } else {
        Err(MountError::InvalidEnumValue)
    }
}

pub open spec fn ascii_upper(s: Seq<char>) -> Seq<char> {
    s.map_values(|c: char| ascii_upper_char(c))
}

pub open spec fn ascii_lower(s: Seq<char>) -> Seq<char> {
    s.map_values(|c: char| ascii_lower_char(c))
}

impl MountType {
    /// Parses an upper-cased name: `CST` or `ORCH`.
    pub fn from_upper(u: &str) -> (r: Result<MountType, MountError>)
        ensures
            r == mount_type_from_upper(u@),
    {
        if str_eq(u, "CST") {
            Ok(MountType::Cst)
        } else if str_eq(u, "ORCH") {
            Ok(MountType::Orch)
        } else {
            Err(MountError::InvalidEnumValue)
        }
    }

    /// Parses a name in any letter case.
    pub fn try_from(value: &str) -> (r: Result<MountType, MountError>)
        ensures
            r == mount_type_from_upper(upper_of(value@)),
            is_ascii_seq(value@) ==> r == mount_type_from_upper(ascii_upper(value@)),
    {
        let u = to_upper(value);
        MountType::from_upper(u.as_str())
    }
}

impl ConsistencyStrategy {
    /// Parses an upper-cased name: `NONE` or `ALWAYS`.
    pub fn from_upper(u: &str) -> (r: Result<ConsistencyStrategy, MountError>)
        ensures
            r == strategy_from_upper(u@),
    {
        if str_eq(u, "NONE") {
            Ok(ConsistencyStrategy::Never)
        } else if str_eq(u, "ALWAYS") {
            Ok(ConsistencyStrategy::Always)
        } else {
            Err(MountError::InvalidEnumValue)
        }
    }

    /// Parses a name in any letter case.
    pub fn try_from(value: &str) -> (r: Result<ConsistencyStrategy, MountError>)
        ensures
            r == strategy_from_upper(upper_of(value@)),
            is_ascii_seq(value@) ==> r == strategy_from_upper(ascii_upper(value@)),
    {
        let u = to_upper(value);
        ConsistencyStrategy::from_upper(u.as_str())
    }
}

impl Provider {
    /// Parses a lower-cased name: `auto`, `oss-hdfs` or `opendal`.
    pub fn from_lower(l: &str) -> (r: Result<Provider, MountError>)
        ensures
            r == provider_from_lower(l@),
    {
        if str_eq(l, "auto") {
            Ok(Provider::Auto)
        } else if str_eq(l, "oss-hdfs") {
            Ok(Provider::OssHdfs)
        } else if str_eq(l, "opendal") {
            Ok(Provider::Opendal)
        } else {
            Err(MountError::InvalidEnumValue)
        }
    }

    /// Parses a name in any letter case.
    pub fn try_from(value: &str) -> (r: Result<Provider, MountError>)
        ensures
            r == provider_from_lower(lower_of(value@)),
            is_ascii_seq(value@) ==> r == provider_from_lower(ascii_lower(value@)),
    {
        let l = to_lower(value);
        Provider::from_lower(l.as_str())
    }
}

impl WriteType {
    /// Parses a lower-cased name: `cache`, `through`, `async_through` or
    /// `cache_through`.
    pub fn from_lower(l: &str) -> (r: Result<WriteType, MountError>)
        ensures
            r == write_type_from_lower(l@),
    {
        if str_eq(l, "cache") {
            Ok(WriteType::Cache)
        } else if str_eq(l, "through") {
            Ok(WriteType::Through)
        } else if str_eq(l, "async_through") {
            Ok(WriteType::AsyncThrough)
        } else if str_eq(l, "cache_through") {
            Ok(WriteType::CacheThrough)
        } else {
            Err(MountError::InvalidEnumValue)
        }
    }

    /// Parses a name in any letter case.
    pub fn try_from(value: &str) -> (r: Result<WriteType, MountError>)
        ensures
            r == write_type_from_lower(lower_of(value@)),
            is_ascii_seq(value@) ==> r == write_type_from_lower(ascii_lower(value@)),
    {
        let l = to_lower(value);
        WriteType::from_lower(l.as_str())
    }
}

/// Two ASCII strings that differ in letter case alone.
pub open spec fn same_ignoring_case(a: Seq<char>, b: Seq<char>) -> bool {
    is_ascii_seq(a) && is_ascii_seq(b) && ascii_lower(a) == ascii_lower(b)
}

proof fn lemma_case_fold_agrees(a: Seq<char>, b: Seq<char>)
    requires
        same_ignoring_case(a, b),
    ensures
        ascii_upper(a) == ascii_upper(b),
{
    assert(a.len() == ascii_lower(a).len());
    assert forall|i: int| 0 <= i < a.len() implies ascii_upper(a)[i] == ascii_upper(b)[i] by {
        assert(ascii_lower(a)[i] == ascii_lower(b)[i]);
        assert((a[i] as u32) < 128);
        assert((b[i] as u32) < 128);
    }
    assert(ascii_upper(a) =~= ascii_upper(b));
}

/// Parsing ignores letter case: two ASCII strings that differ in case alone
/// give the same variant of each policy enum, or are both refused; and a
/// string that names no variant is refused, never read as a default.
pub proof fn lemma_enum_parsing(a: Seq<char>, b: Seq<char>)
    requires
        same_ignoring_case(a, b),
    ensures
        mount_type_from_upper(ascii_upper(a)) == mount_type_from_upper(ascii_upper(b)),
        strategy_from_upper(ascii_upper(a)) == strategy_from_upper(ascii_upper(b)),
        provider_from_lower(ascii_lower(a)) == provider_from_lower(ascii_lower(b)),
        write_type_from_lower(ascii_lower(a)) == write_type_from_lower(ascii_lower(b)),
        mount_type_from_upper(ascii_upper(a)) is Err <==> (ascii_upper(a) != "CST"@
            && ascii_upper(a) != "ORCH"@),
        strategy_from_upper(ascii_upper(a)) is Err <==> (ascii_upper(a) != "NONE"@
            && ascii_upper(a) != "ALWAYS"@),
        provider_from_lower(ascii_lower(a)) is Err <==> (ascii_lower(a) != "auto"@
            && ascii_lower(a) != "oss-hdfs"@ && ascii_lower(a) != "opendal"@),
        write_type_from_lower(ascii_lower(a)) is Err <==> (ascii_lower(a) != "cache"@
            && ascii_lower(a) != "through"@ && ascii_lower(a) != "async_through"@
            && ascii_lower(a) != "cache_through"@),
{
    lemma_case_fold_agrees(a, b);
}

impl Default for MountType {
    fn default() -> (r: MountType)
        ensures
            r == MountType::Cst,
    {
        MountType::Cst
    }
}

impl Default for ConsistencyStrategy {
    fn default() -> (r: ConsistencyStrategy)
        ensures
            r == ConsistencyStrategy::Never,
    {
        ConsistencyStrategy::Never
    }
}

impl Default for Provider {
    fn default() -> (r: Provider)
        ensures
            r == Provider::Auto,
    {
        Provider::Auto
    }
}

impl Default for WriteType {
    fn default() -> (r: WriteType)
        ensures
            r == WriteType::AsyncThrough,
    {
        WriteType::AsyncThrough
    }
}

impl Default for TtlAction {
    fn default() -> (r: TtlAction)
        ensures
            r == TtlAction::NoAction,
    {
        TtlAction::NoAction
    }
}

impl Default for StorageType {
    fn default() -> (r: StorageType)
        ensures
            r == StorageType::Disk,
    {
        StorageType::Disk
    }
}

} // verus!
