use vstd::prelude::*;

use crate::path::{scheme_of, Path};
use crate::policy::{MountError, Provider};
use crate::props::Properties;
use crate::text::str_eq;

verus! {

/// The backend client families that this deployment carries.
#[derive(Debug, Clone, Copy, PartialEq, Eq, Structural)]
pub struct Capabilities {
    pub oss_hdfs: bool,
    pub opendal: bool,
}

/// The backend client family chosen for a mount.
#[derive(Debug, Clone, Copy, PartialEq, Eq, Hash, Structural)]
pub enum BackendKind {
    OssHdfs,
    Opendal,
}

/// The schemes that the Opendal family serves.
pub open spec fn opendal_scheme(s: Seq<char>) -> bool {
    s == "s3"@ || s == "oss"@ || s == "cos"@ || s == "gcs"@ || s == "azure"@ || s == "azblob"@
        || s == "hdfs"@ || s == "webhdfs"@
}

/// The kind itself where the deployment carries it, else an error.
pub open spec fn select_spec(kind: BackendKind, available: Capabilities) -> Result<
    BackendKind,
    MountError,
> {
    let present = match kind {
        BackendKind::OssHdfs => available.oss_hdfs,
        BackendKind::Opendal => available.opendal,
    };
    if present {
        Ok(kind)
    } else {
        Err(MountError::ProviderUnavailable)
    }
}

/// The backend for a scheme, in the order of precedence of the rules:
/// an explicit provider must suit the scheme; `Auto` on `oss` reads the
/// `provider` property and otherwise prefers OssHdfs to Opendal; `Auto` on
/// any other known scheme takes Opendal.
pub open spec fn resolve_spec(
    preferred: Provider,
    scheme: Option<Seq<char>>,
    config_provider: Option<Seq<char>>,
    available: Capabilities,
) -> Result<BackendKind, MountError> {
    match scheme {
        None => Err(MountError::MissingScheme),
        Some(s) => match preferred {
            Provider::OssHdfs => if s == "oss"@ {
                select_spec(BackendKind::OssHdfs, available)
            } else {
                Err(MountError::ProviderSchemeMismatch)
            },
            Provider::Opendal => if opendal_scheme(s) {
                select_spec(BackendKind::Opendal, available)
            } else {
                Err(MountError::ProviderSchemeMismatch)
            },
            Provider::Auto => if s == "oss"@ {
                match config_provider {
                    Some(v) => if v == "oss-hdfs"@ {
                        select_spec(BackendKind::OssHdfs, available)
                    } else if v == "opendal"@ {
                        select_spec(BackendKind::Opendal, available)
                    } else {
                        Err(MountError::InvalidProviderConfig)
                    },
                    None => if available.oss_hdfs {
                        Ok(BackendKind::OssHdfs)
                    } else if available.opendal {
                        Ok(BackendKind::Opendal)
                    } else {
                        Err(MountError::NoProviderAvailable)
                    },
                }
            } else if opendal_scheme(s) {
                select_spec(BackendKind::Opendal, available)
            } else {
                Err(MountError::UnsupportedScheme)
            },
        },
    }
}

fn is_opendal_scheme(s: &str) -> (r: bool)
    ensures
        r == opendal_scheme(s@),
{
    str_eq(s, "s3") || str_eq(s, "oss") || str_eq(s, "cos") || str_eq(s, "gcs") || str_eq(
        s,
        "azure",
    ) || str_eq(s, "azblob") || str_eq(s, "hdfs") || str_eq(s, "webhdfs")
}

fn select(kind: BackendKind, available: Capabilities) -> (r: Result<BackendKind, MountError>)
    ensures
        r == select_spec(kind, available),
{
    let present = match kind {
        BackendKind::OssHdfs => available.oss_hdfs,
        BackendKind::Opendal => available.opendal,
    };
    if present {
        Ok(kind)
    } else {
        Err(MountError::ProviderUnavailable)
    }
}

/// Picks the backend family for a scheme; `config_provider` is the value of
/// the mount's `provider` property, if it is set.
fn decide(
    preferred: Provider,
    scheme: Option<&str>,
    config_provider: Option<&str>,
    available: Capabilities,
) -> (r: Result<BackendKind, MountError>)
    ensures
        r == resolve_spec(
            preferred,
            match scheme {
                Some(s) => Some(s@),
                None => None,
            },
            match config_provider {
                Some(v) => Some(v@),
                None => None,
            },
            available,
        ),
{
    let s = match scheme {
        None => return Err(MountError::MissingScheme),
        Some(s) => s,
    };
    match preferred {
        Provider::OssHdfs => {
            if str_eq(s, "oss") {
                select(BackendKind::OssHdfs, available)
            } else {
                Err(MountError::ProviderSchemeMismatch)
            }
        },
        Provider::Opendal => {
            if is_opendal_scheme(s) {
                select(BackendKind::Opendal, available)
            } else {
                Err(MountError::ProviderSchemeMismatch)
            }
        },
        Provider::Auto => {
            if str_eq(s, "oss") {
                match config_provider {
                    Some(v) => {
                        if str_eq(v, "oss-hdfs") {
                            select(BackendKind::OssHdfs, available)
                        } else if str_eq(v, "opendal") {
                            select(BackendKind::Opendal, available)
                        } else {
                            Err(MountError::InvalidProviderConfig)
                        }
                    },
                    None => {
                        if available.oss_hdfs {
                            Ok(BackendKind::OssHdfs)
                        } else if available.opendal {
                            Ok(BackendKind::Opendal)
                        } else {
                            Err(MountError::NoProviderAvailable)
                        }
                    },
                }
            } else if is_opendal_scheme(s) {
                select(BackendKind::Opendal, available)
            } else {
                Err(MountError::UnsupportedScheme)
            }
        },
    }
}

/// The value of the `provider` property, if it is set.
pub open spec fn configured_provider(config: Map<Seq<char>, Seq<char>>) -> Option<Seq<char>> {
    if config.contains_key("provider"@) {
        Some(config["provider"@])
    } else {
        None
    }
}

/// Picks the backend family for a scheme from the preferred provider, the
/// mount's properties and what the deployment carries.
pub fn resolve(
    preferred: Provider,
    scheme: Option<&str>,
    config: &Properties,
    available: Capabilities,
) -> (r: Result<BackendKind, MountError>)
    ensures
        r == resolve_spec(
            preferred,
            match scheme {
                Some(s) => Some(s@),
                None => None,
            },
            configured_provider(config@),
            available,
        ),
{
    let configured = config.get("provider");
    decide(
        preferred,
        scheme,
        match &configured {
            Some(v) => Some(v.as_str()),
            None => None,
        },
        available,
    )
}

/// Two resolutions of the same inputs agree: the same backend or the same
/// error.
pub proof fn lemma_resolution_deterministic(
    preferred: Provider,
    scheme: Option<Seq<char>>,
    config_provider: Option<Seq<char>>,
    available: Capabilities,
    preferred2: Provider,
    scheme2: Option<Seq<char>>,
    config_provider2: Option<Seq<char>>,
    available2: Capabilities,
)
    requires
        preferred == preferred2,
        scheme == scheme2,
        config_provider == config_provider2,
        available == available2,
    ensures
        resolve_spec(preferred, scheme, config_provider, available) == resolve_spec(
            preferred2,
            scheme2,
            config_provider2,
            available2,
        ),
{
}

/// The backend of a mount: which client family serves it, the backend path
/// it was resolved for, and the configuration that the client is built from.
#[derive(Debug)]
pub struct UfsTarget {
    pub path: Path,
    pub conf: Properties,
}

/// A mount's backend file system, one variant per client family. Every
/// operation on it is handled by the family that the variant names.
#[derive(Debug)]
pub enum UfsFileSystem {
    Opendal(UfsTarget),
    OssHdfs(UfsTarget),
}

impl UfsFileSystem {
    pub open spec fn kind(&self) -> BackendKind {
        match self {
            UfsFileSystem::Opendal(_) => BackendKind::Opendal,
            UfsFileSystem::OssHdfs(_) => BackendKind::OssHdfs,
        }
    }

    pub open spec fn target(&self) -> &UfsTarget {
        match self {
            UfsFileSystem::Opendal(t) => t,
            UfsFileSystem::OssHdfs(t) => t,
        }
    }

    /// Resolves the backend family for `path` and binds it to the path and
    /// configuration. A missing `provider` argument means `Auto`.
    pub fn new(
        path: &Path,
        conf: Properties,
        provider: Option<Provider>,
        available: Capabilities,
    ) -> (r: Result<UfsFileSystem, MountError>)
        ensures
            ({
                let want = resolve_spec(
                    match provider {
                        Some(p) => p,
                        None => Provider::Auto,
                    },
                    scheme_of(path@),
                    configured_provider(conf@),
                    available,
                );
                match r {
                    Ok(fs) => want == Ok::<BackendKind, MountError>(fs.kind()) && fs.target().path@
                        == path@ && fs.target().conf@ == conf@,
                    Err(e) => want == Err::<BackendKind, MountError>(e),
                }
            }),
    {
        let provider = match provider {
            Some(p) => p,
            None => Provider::Auto,
        };
        let scheme = path.scheme();
        let kind = resolve(
            provider,
            match &scheme {
                Some(s) => Some(s.as_str()),
                None => None,
            },
            &conf,
            available,
        )?;
        let target = UfsTarget { path: path.duplicate(), conf };
        match kind {
            BackendKind::Opendal => Ok(UfsFileSystem::Opendal(target)),
            BackendKind::OssHdfs => Ok(UfsFileSystem::OssHdfs(target)),
        }
    }
}

} // verus!
