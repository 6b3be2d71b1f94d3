use vstd::prelude::*;

use crate::path::{
    has_prefix, is_cv_path, lemma_no_sep_from, lemma_sep_survives_append, sep_at, Path,
};
use crate::policy::{
    ConsistencyStrategy, MountError, MountType, Provider, StorageType, TtlAction, WriteType,
};
use crate::props::Properties;

verus! {

/// A mount: the cache-namespace prefix `cv_path`, the backend prefix
/// `ufs_path`, and the caching, write and time-to-live policy of the files
/// under them.
#[derive(Debug, Clone)]
pub struct MountInfo {
    pub cv_path: String,
    pub ufs_path: String,
    pub mount_id: u32,
    pub properties: Properties,
    pub ttl_ms: i64,
    pub ttl_action: TtlAction,
    pub consistency_strategy: ConsistencyStrategy,
    pub storage_type: Option<StorageType>,
    pub block_size: Option<i64>,
    pub replicas: Option<i32>,
    pub mount_type: MountType,
    pub write_type: WriteType,
    pub provider: Option<Provider>,
}

/// The client-side defaults that a mount's own settings override.
#[derive(Debug, Clone, Copy, PartialEq, Eq, Structural)]
pub struct ClientConf {
    pub replicas: i32,
    pub block_size: i64,
    pub storage_type: StorageType,
    pub ttl_ms: i64,
    pub ttl_action: TtlAction,
}

/// How a file is created under a mount.
#[derive(Debug, Clone, Copy, PartialEq, Eq, Structural)]
pub struct CreateFileOpts {
    pub create_parent: bool,
    pub replicas: i32,
    pub block_size: i64,
    pub storage_type: StorageType,
    pub ttl_ms: i64,
    pub ttl_action: TtlAction,
}

/// One day in milliseconds.
pub const DAY_MS: i64 = 86_400_000;

/// The time to live that a new set of mount options starts with.
pub const DEFAULT_TTL_MS: i64 = 7 * DAY_MS;

/// What is left of `rest` once one leading `/` is dropped.
pub open spec fn strip_sep(rest: Seq<char>) -> Seq<char> {
    if rest.len() > 0 && rest[0] == '/' {
        rest.drop_first()
    } else {
        rest
    }
}

/// The sub-path of `p` below the prefix `from`: `p` with `from` stripped
/// once from the left where it starts with it, then one leading `/` dropped.
pub open spec fn sub_path(p: Seq<char>, from: Seq<char>) -> Seq<char> {
    if from.is_prefix_of(p) {
        strip_sep(p.subrange(from.len() as int, p.len() as int))
    } else {
        strip_sep(p)
    }
}

/// `p` with the prefix `from` replaced by `to`, joined by one `/`.
pub open spec fn translate_spec(p: Seq<char>, from: Seq<char>, to: Seq<char>) -> Seq<char> {
    to + seq!['/'] + sub_path(p, from)
}

/// The backend path of the cache path `p` under the mount `cv` -> `ufs`.
pub open spec fn to_ufs_spec(cv: Seq<char>, ufs: Seq<char>, p: Seq<char>) -> Result<
    Seq<char>,
    MountError,
> {
    if !is_cv_path(p) {
        Err(MountError::PathDirectionError)
    } else {
        Ok(translate_spec(p, cv, ufs))
    }
}

/// The cache path of the backend path `p` under the mount `cv` -> `ufs`.
pub open spec fn to_cv_spec(cv: Seq<char>, ufs: Seq<char>, p: Seq<char>) -> Result<
    Seq<char>,
    MountError,
> {
    if is_cv_path(p) {
        Err(MountError::PathDirectionError)
    } else {
        Ok(translate_spec(p, ufs, cv))
    }
}

/// The path in the other namespace.
pub open spec fn toggle_spec(cv: Seq<char>, ufs: Seq<char>, p: Seq<char>) -> Result<
    Seq<char>,
    MountError,
> {
    if is_cv_path(p) {
        to_ufs_spec(cv, ufs, p)
    } else {
        to_cv_spec(cv, ufs, p)
    }
}

/// The text of a path result.
pub open spec fn path_result(r: Result<Path, MountError>) -> Result<Seq<char>, MountError> {
    match r {
        Ok(p) => Ok(p@),
        Err(e) => Err(e),
    }
}

/// A path lies under the mount: a backend path below `ufs` whose sub-path
/// holds no `://`, or a cache path below `cv`.
pub open spec fn under_mount(cv: Seq<char>, ufs: Seq<char>, p: Seq<char>) -> bool {
    ||| (!is_cv_path(p) && (ufs + seq!['/']).is_prefix_of(p) && is_cv_path(
        p.subrange(ufs.len() as int + 1, p.len() as int),
    ))
    ||| (is_cv_path(p) && (cv + seq!['/']).is_prefix_of(p))
}

/// Rounds a number of milliseconds towards zero to whole seconds.
pub open spec fn whole_seconds(ms: int) -> int {
    if ms >= 0 {
        ms / 1000
    } else {
        -((-ms) / 1000)
    }
}

/// The decimal digit for `d < 10`.
pub open spec fn digit_char(d: int) -> char {
    (d + 48) as char
}

/// The decimal digits of `n`.
pub open spec fn nat_decimal(n: nat) -> Seq<char>
    decreases n,
{
    if n < 10 {
        seq![digit_char(n as int)]
    } else {
        nat_decimal(n / 10).push(digit_char((n % 10) as int))
    }
}

/// The decimal text of `n`, with a leading `-` when it is negative.
pub open spec fn int_decimal(n: int) -> Seq<char> {
    if n < 0 {
        seq!['-'] + nat_decimal((-n) as nat)
    } else {
        nat_decimal(n as nat)
    }
}

/// Relies on the `Display` of `i64` (through `to_string`): decimal digits,
/// led by `-` for a negative number.
#[verifier::external_body]
fn i64_text(n: i64) -> (r: String)
    ensures
        r@ == int_decimal(n as int),
{
    n.to_string()
}

/// `p` with the prefix `from` replaced by `to`.
fn translate(p: &str, from: &str, to: &str) -> (r: String)
    ensures
        r@ == translate_spec(p@, from@, to@),
{
    let n = p.unicode_len();
    let m = if has_prefix(p, from) {
        from.unicode_len()
    } else {
        0
    };
    let rest = p.substring_char(m, n);
    assert(rest@ == if from@.is_prefix_of(p@) {
        p@.subrange(from@.len() as int, p@.len() as int)
    } else {
        p@
    }) by {
        if !from@.is_prefix_of(p@) {
            assert(p@.subrange(0, n as int) =~= p@);
        }
    }
    let k = rest.unicode_len();
    let sub = if k > 0 && rest.get_char(0) == '/' {
        rest.substring_char(1, k)
    } else {
        rest
    };
    assert(sub@ == strip_sep(rest@)) by {
        if k > 0 && rest@[0] == '/' {
            assert(rest@.subrange(1, k as int) =~= rest@.drop_first());
        }
    }
    let mut out = String::from_str(to);
    proof {
        reveal_strlit("/");
    }
    out.append("/");
    out.append(sub);
    assert(out@ =~= to@ + seq!['/'] + sub_path(p@, from@));
    out
}

impl MountInfo {
    /// The prefixes are fit for translation: `cv_path` is a cache path and
    /// `ufs_path` a backend path.
    pub open spec fn paths_valid(&self) -> bool {
        is_cv_path(self.cv_path@) && !is_cv_path(self.ufs_path@)
    }

    /// The prefixes are valid and the cache prefix is a plain directory
    /// name: not empty, and ending neither in `/` nor in `:`.
    pub open spec fn prefixes_normal(&self) -> bool {
        &&& self.paths_valid()
        &&& self.cv_path@.len() > 0
        &&& self.cv_path@.last() != '/'
        &&& self.cv_path@.last() != ':'
    }

    /// Files under the mount are cached on their own: the time to live is
    /// positive.
    pub fn auto_cache(&self) -> (r: bool)
        ensures
            r == (self.ttl_ms > 0),
    {
        self.ttl_ms > 0
    }

    /// The time to live in whole seconds as text (`"3s"`), where the mount
    /// does not cache on its own; nothing where it does.
    pub fn get_ttl(&self) -> (r: Option<String>)
        ensures
            match r {
                Some(t) => self.ttl_ms <= 0 && t@ == int_decimal(whole_seconds(self.ttl_ms as int))
                    + seq!['s'],
                None => self.ttl_ms > 0,
            },
    {
        if self.auto_cache() {
            None
        } else {
            let neg: i128 = -(self.ttl_ms as i128);
            let secs: i64 = -((neg / 1000) as i64);
            let mut t = i64_text(secs);
            proof {
                reveal_strlit("s");
            }
            t.append("s");
            Some(t)
        }
    }

    /// The backend path of a cache path under this mount.
    pub fn get_ufs_path(&self, path: &Path) -> (r: Result<Path, MountError>)
        ensures
            path_result(r) == to_ufs_spec(self.cv_path@, self.ufs_path@, path@),
    {
        if !path.is_cv() {
            return Err(MountError::PathDirectionError);
        }
        let q = translate(path.full_path(), self.cv_path.as_str(), self.ufs_path.as_str());
        Path::from_str(q.as_str())
    }

    /// The cache path of a backend path under this mount.
    pub fn get_cv_path(&self, path: &Path) -> (r: Result<Path, MountError>)
        ensures
            path_result(r) == to_cv_spec(self.cv_path@, self.ufs_path@, path@),
    {
        if path.is_cv() {
            return Err(MountError::PathDirectionError);
        }
        let q = translate(path.full_path(), self.ufs_path.as_str(), self.cv_path.as_str());
        Path::from_str(q.as_str())
    }

    /// The path in the other namespace: backend for a cache path, cache for
    /// a backend path.
    pub fn toggle_path(&self, path: &Path) -> (r: Result<Path, MountError>)
        ensures
            path_result(r) == toggle_spec(self.cv_path@, self.ufs_path@, path@),
            r is Ok,
    {
        if path.is_cv() {
            self.get_ufs_path(path)
        } else {
            self.get_cv_path(path)
        }
    }

    /// How files are created under this mount: the mount's own replicas,
    /// block size and storage type where it has them, else the client's.
    pub fn get_create_opts(&self, conf: &ClientConf) -> (r: CreateFileOpts)
        ensures
            r.create_parent,
            r.replicas == match self.replicas {
                Some(v) => v,
                None => conf.replicas,
            },
            r.block_size == match self.block_size {
                Some(v) => v,
                None => conf.block_size,
            },
            r.storage_type == match self.storage_type {
                Some(v) => v,
                None => conf.storage_type,
            },
            r.ttl_ms == self.ttl_ms,
            r.ttl_action == self.ttl_action,
    {
        CreateFileOpts {
            create_parent: true,
            replicas: match self.replicas {
                Some(v) => v,
                None => conf.replicas,
            },
            block_size: match self.block_size {
                Some(v) => v,
                None => conf.block_size,
            },
            storage_type: match self.storage_type {
                Some(v) => v,
                None => conf.storage_type,
            },
            ttl_ms: self.ttl_ms,
            ttl_action: self.ttl_action,
        }
    }
}

impl Default for MountInfo {
    fn default() -> (r: MountInfo)
        ensures
            r.cv_path@ == Seq::<char>::empty(),
            r.ufs_path@ == Seq::<char>::empty(),
            r.mount_id == 0,
            r.properties@ == Map::<Seq<char>, Seq<char>>::empty(),
            r.ttl_ms == 0,
            r.ttl_action == TtlAction::NoAction,
            r.consistency_strategy == ConsistencyStrategy::Never,
            r.storage_type is None,
            r.block_size is None,
            r.replicas is None,
            r.mount_type == MountType::Cst,
            r.write_type == WriteType::AsyncThrough,
            r.provider is None,
    {
        MountInfo {
            cv_path: String::new(),
            ufs_path: String::new(),
            mount_id: 0,
            properties: Properties::new(),
            ttl_ms: 0,
            ttl_action: TtlAction::NoAction,
            consistency_strategy: ConsistencyStrategy::Never,
            storage_type: None,
            block_size: None,
            replicas: None,
            mount_type: MountType::Cst,
            write_type: WriteType::AsyncThrough,
            provider: None,
        }
    }
}

/// A backend path below the backend prefix becomes the cache path with the
/// same sub-path, and a cache path below the cache prefix becomes the backend
/// path with the same sub-path.
pub proof fn lemma_translation_round_trip(info: MountInfo, s: Seq<char>)
    requires
        info.paths_valid(),
    ensures
        to_cv_spec(info.cv_path@, info.ufs_path@, info.ufs_path@ + seq!['/'] + s) == Ok::<
            Seq<char>,
            MountError,
        >(info.cv_path@ + seq!['/'] + s),
        is_cv_path(info.cv_path@ + seq!['/'] + s) ==> to_ufs_spec(
            info.cv_path@,
            info.ufs_path@,
            info.cv_path@ + seq!['/'] + s,
        ) == Ok::<Seq<char>, MountError>(info.ufs_path@ + seq!['/'] + s),
{
    let cv = info.cv_path@;
    let ufs = info.ufs_path@;
    lemma_sub_path(ufs, s);
    lemma_sub_path(cv, s);
    let u = ufs + seq!['/'] + s;
    assert(u =~= ufs + (seq!['/'] + s));
    lemma_sep_survives_append(ufs, seq!['/'] + s, 0);
}

proof fn lemma_sub_path(pre: Seq<char>, s: Seq<char>)
    ensures
        pre.is_prefix_of(pre + seq!['/'] + s),
        strip_sep((pre + seq!['/'] + s).subrange(pre.len() as int, (pre + seq!['/'] + s).len() as int))
            == s,
{
    let p = pre + seq!['/'] + s;
    assert(p.subrange(0, pre.len() as int) =~= pre);
    let rest = p.subrange(pre.len() as int, p.len() as int);
    assert(rest =~= seq!['/'] + s);
    assert(rest.drop_first() =~= s);
}

/// A plain cache prefix joined to a sub-path without `://` is a cache path.
proof fn lemma_cv_join(cv: Seq<char>, s: Seq<char>)
    requires
        is_cv_path(cv),
        is_cv_path(s),
        cv.len() > 0,
        cv.last() != '/',
        cv.last() != ':',
    ensures
        is_cv_path(cv + seq!['/'] + s),
{
    let t = cv + seq!['/'] + s;
    let n = cv.len() as int;
    lemma_no_sep_from(cv, 0);
    lemma_no_sep_from(s, 0);
    lemma_no_sep_from(t, 0);
    assert forall|j: int| 0 <= j implies !#[trigger] sep_at(t, j) by {
        if sep_at(t, j) {
            if j + 3 <= n {
                assert(sep_at(cv, j));
            } else if j == n - 2 {
                assert(t[j + 1] == cv.last());
            } else if j == n - 1 {
                assert(t[j] == cv.last());
            } else if j == n {
                assert(t[j] == '/');
            } else {
                assert(t[j] == s[j - n - 1]);
                assert(t[j + 1] == s[j - n]);
                assert(t[j + 2] == s[j - n + 1]);
                assert(sep_at(s, j - n - 1));
            }
        }
    }
}

/// Toggling a path under the mount twice gives the path back, and the first
/// toggle lands in the other namespace.
pub proof fn lemma_toggle_involution(info: MountInfo, p: Seq<char>)
    requires
        info.prefixes_normal(),
        under_mount(info.cv_path@, info.ufs_path@, p),
    ensures
        toggle_spec(info.cv_path@, info.ufs_path@, p) is Ok,
        is_cv_path(toggle_spec(info.cv_path@, info.ufs_path@, p)->Ok_0) == !is_cv_path(p),
        toggle_spec(
            info.cv_path@,
            info.ufs_path@,
            toggle_spec(info.cv_path@, info.ufs_path@, p)->Ok_0,
        ) == Ok::<Seq<char>, MountError>(p),
{
    let cv = info.cv_path@;
    let ufs = info.ufs_path@;
    if is_cv_path(p) {
        let s = p.subrange(cv.len() as int + 1, p.len() as int);
        assert(p =~= cv + seq!['/'] + s);
        lemma_translation_round_trip(info, s);
        let q = ufs + seq!['/'] + s;
        assert(q =~= ufs + (seq!['/'] + s));
        lemma_sep_survives_append(ufs, seq!['/'] + s, 0);
    } else {
        let s = p.subrange(ufs.len() as int + 1, p.len() as int);
        assert(p =~= ufs + seq!['/'] + s);
        lemma_cv_join(cv, s);
        lemma_translation_round_trip(info, s);
    }
}

} // verus!
