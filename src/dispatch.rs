use vstd::prelude::*;

use crate::mount::MountInfo;
use crate::path::{scheme_of, Path};
use crate::policy::{MountError, Provider, WriteType};
use crate::resolve::{
    configured_provider, resolve_spec, BackendKind, Capabilities, UfsFileSystem,
};

verus! {

/// Which layers a write touches, and whether the backend is written after
/// the write has been acknowledged.
#[derive(Debug, Clone, Copy, PartialEq, Eq, Structural)]
pub struct WritePlan {
    pub to_cache: bool,
    pub to_ufs: bool,
    pub ufs_in_background: bool,
}

/// The layers of each write type: `Cache` the cache alone, `Through` the
/// backend alone, `AsyncThrough` the cache now and the backend later,
/// `CacheThrough` both before the acknowledgement.
pub open spec fn write_plan_spec(write_type: WriteType) -> WritePlan {
    match write_type {
        WriteType::Cache => WritePlan { to_cache: true, to_ufs: false, ufs_in_background: false },
        WriteType::Through => WritePlan { to_cache: false, to_ufs: true, ufs_in_background: false },
        WriteType::AsyncThrough => WritePlan {
            to_cache: true,
            to_ufs: true,
            ufs_in_background: true,
        },
        WriteType::CacheThrough => WritePlan {
            to_cache: true,
            to_ufs: true,
            ufs_in_background: false,
        },
    }
}

/// The writer that serves a write, one variant per kind: the cache file
/// system's own writer, the overlay that writes cache and backend together,
/// or a backend family's writer.
#[derive(Debug, Clone, Copy, PartialEq, Eq, Structural)]
pub enum UnifiedWriter {
    Cv,
    CacheSync,
    Opendal,
    OssHdfs,
}

/// The reader that serves a read, one variant per kind, as for writers.
#[derive(Debug, Clone, Copy, PartialEq, Eq, Structural)]
pub enum UnifiedReader {
    Cv,
    CacheSync,
    Opendal,
    OssHdfs,
}

/// The writer of a backend family.
pub open spec fn backend_writer(backend: BackendKind) -> UnifiedWriter {
    match backend {
        BackendKind::Opendal => UnifiedWriter::Opendal,
        BackendKind::OssHdfs => UnifiedWriter::OssHdfs,
    }
}

/// The writer for a write type: the cache writer where only the cache is
/// written at once, the backend's writer where only the backend is, and the
/// overlay where both are written before the acknowledgement.
pub open spec fn writer_for_spec(write_type: WriteType, backend: BackendKind) -> UnifiedWriter {
    let plan = write_plan_spec(write_type);
    if plan.to_cache && plan.to_ufs && !plan.ufs_in_background {
        UnifiedWriter::CacheSync
    } else if plan.to_cache {
        UnifiedWriter::Cv
    } else {
        backend_writer(backend)
    }
}

/// The layers that a write of this type touches.
pub fn write_plan(write_type: WriteType) -> (r: WritePlan)
    ensures
        r == write_plan_spec(write_type),
{
    match write_type {
        WriteType::Cache => WritePlan { to_cache: true, to_ufs: false, ufs_in_background: false },
        WriteType::Through => WritePlan { to_cache: false, to_ufs: true, ufs_in_background: false },
        WriteType::AsyncThrough => WritePlan {
            to_cache: true,
            to_ufs: true,
            ufs_in_background: true,
        },
        WriteType::CacheThrough => WritePlan {
            to_cache: true,
            to_ufs: true,
            ufs_in_background: false,
        },
    }
}

impl UnifiedWriter {
    /// The writer that a file opened for writing under a mount with this
    /// write type and backend family gets.
    pub fn for_write(write_type: WriteType, backend: BackendKind) -> (r: UnifiedWriter)
        ensures
            r == writer_for_spec(write_type, backend),
    {
        let plan = write_plan(write_type);
        if plan.to_cache && plan.to_ufs && !plan.ufs_in_background {
            UnifiedWriter::CacheSync
        } else if plan.to_cache {
            UnifiedWriter::Cv
        } else {
            match backend {
                BackendKind::Opendal => UnifiedWriter::Opendal,
                BackendKind::OssHdfs => UnifiedWriter::OssHdfs,
            }
        }
    }
}

impl UfsFileSystem {
    /// The backend file system of a mount: its backend prefix, properties
    /// and provider.
    pub fn with_mount(mnt: &MountInfo, available: Capabilities) -> (r: Result<
        UfsFileSystem,
        MountError,
    >)
        ensures
            ({
                let want = resolve_spec(
                    match mnt.provider {
                        Some(p) => p,
                        None => Provider::Auto,
                    },
                    scheme_of(mnt.ufs_path@),
                    configured_provider(mnt.properties@),
                    available,
                );
                match r {
                    Ok(fs) => mnt.ufs_path@.len() > 0 && want == Ok::<BackendKind, MountError>(
                        fs.kind(),
                    ) && fs.target().path@ == mnt.ufs_path@ && fs.target().conf@
                        == mnt.properties@,
                    Err(e) => (mnt.ufs_path@.len() == 0 && e == MountError::InvalidPath) || (
                    mnt.ufs_path@.len() > 0 && want == Err::<BackendKind, MountError>(e)),
                }
            }),
    {
        let path = Path::from_str(mnt.ufs_path.as_str())?;
        UfsFileSystem::new(&path, mnt.properties.duplicate(), mnt.provider, available)
    }
}

} // verus!
