use curvine_mount::{
    resolve, BackendKind, Capabilities, MountError, MountInfo, Path, Properties, Provider,
    UfsFileSystem,
};

const BOTH: Capabilities = Capabilities { oss_hdfs: true, opendal: true };
const NONE_AVAILABLE: Capabilities = Capabilities { oss_hdfs: false, opendal: false };
const ONLY_OPENDAL: Capabilities = Capabilities { oss_hdfs: false, opendal: true };
const ONLY_OSS_HDFS: Capabilities = Capabilities { oss_hdfs: true, opendal: false };

fn props(provider: Option<&str>) -> Properties {
    let mut p = Properties::new();
    p.insert("region".to_string(), "cn".to_string());
    if let Some(v) = provider {
        p.insert("provider".to_string(), v.to_string());
    }
    p
}

#[test]
fn auto_s3_selects_opendal() {
    assert_eq!(resolve(Provider::Auto, Some("s3"), &props(None), BOTH), Ok(BackendKind::Opendal));
    assert_eq!(
        resolve(Provider::Auto, Some("s3"), &props(None), ONLY_OSS_HDFS),
        Err(MountError::ProviderUnavailable)
    );
}

#[test]
fn auto_oss_defaults_to_oss_hdfs() {
    assert_eq!(resolve(Provider::Auto, Some("oss"), &props(None), BOTH), Ok(BackendKind::OssHdfs));
    assert_eq!(
        resolve(Provider::Auto, Some("oss"), &props(None), ONLY_OPENDAL),
        Ok(BackendKind::Opendal)
    );
    assert_eq!(
        resolve(Provider::Auto, Some("oss"), &props(None), NONE_AVAILABLE),
        Err(MountError::NoProviderAvailable)
    );
}

#[test]
fn auto_oss_follows_config() {
    assert_eq!(
        resolve(Provider::Auto, Some("oss"), &props(Some("opendal")), BOTH),
        Ok(BackendKind::Opendal)
    );
    assert_eq!(
        resolve(Provider::Auto, Some("oss"), &props(Some("oss-hdfs")), ONLY_OPENDAL),
        Err(MountError::ProviderUnavailable)
    );
    assert_eq!(
        resolve(Provider::Auto, Some("oss"), &props(Some("bogus")), BOTH),
        Err(MountError::InvalidProviderConfig)
    );
}

#[test]
fn explicit_provider_must_suit_scheme() {
    assert_eq!(
        resolve(Provider::OssHdfs, Some("s3"), &props(None), BOTH),
        Err(MountError::ProviderSchemeMismatch)
    );
    assert_eq!(resolve(Provider::OssHdfs, Some("oss"), &props(None), BOTH), Ok(BackendKind::OssHdfs));
    assert_eq!(
        resolve(Provider::OssHdfs, Some("oss"), &props(None), ONLY_OPENDAL),
        Err(MountError::ProviderUnavailable)
    );
    assert_eq!(resolve(Provider::Opendal, Some("webhdfs"), &props(None), BOTH), Ok(BackendKind::Opendal));
    assert_eq!(
        resolve(Provider::Opendal, Some("ftp"), &props(None), BOTH),
        Err(MountError::ProviderSchemeMismatch)
    );
}

#[test]
fn unknown_or_missing_scheme() {
    assert_eq!(
        resolve(Provider::Auto, Some("ftp"), &props(None), BOTH),
        Err(MountError::UnsupportedScheme)
    );
    assert_eq!(resolve(Provider::Auto, None, &props(None), BOTH), Err(MountError::MissingScheme));
    assert_eq!(resolve(Provider::Opendal, None, &props(None), BOTH), Err(MountError::MissingScheme));
}

#[test]
fn resolution_is_deterministic() {
    for scheme in [Some("oss"), Some("s3"), Some("ftp"), None] {
        for provider in [Provider::Auto, Provider::OssHdfs, Provider::Opendal] {
            let a = resolve(provider, scheme, &props(Some("opendal")), ONLY_OSS_HDFS);
            let b = resolve(provider, scheme, &props(Some("opendal")), ONLY_OSS_HDFS);
            assert_eq!(a, b);
        }
    }
}

#[test]
fn path_without_scheme_is_missing_scheme() {
    let path = Path::from_str("bucket/key").unwrap();
    let err = UfsFileSystem::new(&path, Properties::new(), None, BOTH).unwrap_err();
    assert_eq!(err, MountError::MissingScheme);
}

#[test]
fn file_system_reads_provider_property() {
    let path = Path::from_str("oss://bucket/dir").unwrap();
    let mut conf = Properties::new();
    conf.insert("provider".to_string(), "opendal".to_string());
    let fs = UfsFileSystem::new(&path, conf, None, BOTH).unwrap();
    match fs {
        UfsFileSystem::Opendal(t) => {
            assert_eq!(t.path.full_path(), "oss://bucket/dir");
            assert_eq!(t.conf.get("provider").as_deref(), Some("opendal"));
        }
        UfsFileSystem::OssHdfs(_) => panic!("expected the opendal family"),
    }
}

#[test]
fn file_system_of_mount() {
    let mut info = MountInfo {
        ufs_path: "oss://bucket/dir".to_string(),
        cv_path: "/oss".to_string(),
        ..Default::default()
    };
    let fs = UfsFileSystem::with_mount(&info, BOTH).unwrap();
    assert!(matches!(fs, UfsFileSystem::OssHdfs(_)));
    info.provider = Some(Provider::Opendal);
    let fs = UfsFileSystem::with_mount(&info, BOTH).unwrap();
    assert!(matches!(fs, UfsFileSystem::Opendal(_)));
    info.ufs_path = String::new();
    assert_eq!(
        UfsFileSystem::with_mount(&info, BOTH).unwrap_err(),
        MountError::InvalidPath
    );
}

#[test]
fn properties_keep_last_value() {
    let mut p = Properties::new();
    assert_eq!(p.get("k"), None);
    p.insert("k".to_string(), "1".to_string());
    p.insert("j".to_string(), "2".to_string());
    p.insert("k".to_string(), "3".to_string());
    assert_eq!(p.get("k").as_deref(), Some("3"));
    assert_eq!(p.get("j").as_deref(), Some("2"));
    let d = p.duplicate();
    assert_eq!(d.get("k").as_deref(), Some("3"));
}

#[test]
fn properties_as_pairs() {
    let mut p = Properties::new();
    p.insert("a".to_string(), "1".to_string());
    p.insert("a".to_string(), "2".to_string());
    let pairs = p.to_pairs();
    assert_eq!(pairs.last(), Some(&("a".to_string(), "2".to_string())));
    let c = p.clone();
    assert_eq!(c.get("a").as_deref(), Some("2"));
}
