use curvine_mount::{
    write_plan, BackendKind, ClientConf, ConsistencyStrategy, MountError, MountInfo,
    MountOptions, MountOptionsBuilder, MountType, Provider, StorageType, TtlAction,
    UnifiedWriter, WriteType, DEFAULT_TTL_MS,
};

#[test]
fn mount_type_parsing_ignores_case() {
    assert_eq!(MountType::try_from("cst"), Ok(MountType::Cst));
    assert_eq!(MountType::try_from("CST"), Ok(MountType::Cst));
    assert_eq!(MountType::try_from("oRcH"), Ok(MountType::Orch));
    assert_eq!(MountType::try_from("bogus"), Err(MountError::InvalidEnumValue));
    assert_eq!(MountType::try_from(""), Err(MountError::InvalidEnumValue));
}

#[test]
fn strategy_parsing_ignores_case() {
    assert_eq!(ConsistencyStrategy::try_from("none"), Ok(ConsistencyStrategy::Never));
    assert_eq!(ConsistencyStrategy::try_from("Always"), Ok(ConsistencyStrategy::Always));
    assert_eq!(ConsistencyStrategy::try_from("sometimes"), Err(MountError::InvalidEnumValue));
}

#[test]
fn provider_parsing_ignores_case() {
    assert_eq!(Provider::try_from("AUTO"), Ok(Provider::Auto));
    assert_eq!(Provider::try_from("Oss-Hdfs"), Ok(Provider::OssHdfs));
    assert_eq!(Provider::try_from("OPENDAL"), Ok(Provider::Opendal));
    assert_eq!(Provider::try_from("oss_hdfs"), Err(MountError::InvalidEnumValue));
}

#[test]
fn write_type_parsing_ignores_case() {
    assert_eq!(WriteType::try_from("cache"), Ok(WriteType::Cache));
    assert_eq!(WriteType::try_from("THROUGH"), Ok(WriteType::Through));
    assert_eq!(WriteType::try_from("Async_Through"), Ok(WriteType::AsyncThrough));
    assert_eq!(WriteType::try_from("cache_through"), Ok(WriteType::CacheThrough));
    assert_eq!(WriteType::try_from("async-through"), Err(MountError::InvalidEnumValue));
}

#[test]
fn parsing_of_folded_names() {
    assert_eq!(MountType::from_upper("ORCH"), Ok(MountType::Orch));
    assert_eq!(MountType::from_upper("orch"), Err(MountError::InvalidEnumValue));
    assert_eq!(Provider::from_lower("opendal"), Ok(Provider::Opendal));
    assert_eq!(Provider::from_lower("Opendal"), Err(MountError::InvalidEnumValue));
}

#[test]
fn builder_defaults() {
    let opts = MountOptions::builder().build();
    assert_eq!(opts.write_type, WriteType::AsyncThrough);
    assert_eq!(opts.ttl_ms, Some(7 * 24 * 3600 * 1000));
    assert_eq!(opts.ttl_ms, Some(DEFAULT_TTL_MS));
    assert_eq!(opts.ttl_action, Some(TtlAction::Delete));
    assert!(!opts.update);
    assert_eq!(opts.provider, None);
    assert_eq!(opts.mount_type, MountType::Cst);
}

#[test]
fn builder_setters_and_to_info() {
    let opts = MountOptionsBuilder::new()
        .update(true)
        .ttl_ms(5000)
        .ttl_action(TtlAction::NoAction)
        .consistency_strategy(ConsistencyStrategy::Always)
        .storage_type(StorageType::Ssd)
        .block_size(64)
        .replicas(3)
        .mount_type(MountType::Orch)
        .write_type(WriteType::Through)
        .provider(Provider::Opendal)
        .add_property("a", "1")
        .add_property("a", "2")
        .remove_property("b")
        .build();
    assert!(opts.update);
    assert_eq!(opts.remove_properties, vec!["b".to_string()]);
    let info = opts.to_info(9, "/c", "s3://u");
    assert_eq!(info.mount_id, 9);
    assert_eq!(info.cv_path, "/c");
    assert_eq!(info.ufs_path, "s3://u");
    assert_eq!(info.ttl_ms, 5000);
    assert_eq!(info.ttl_action, TtlAction::NoAction);
    assert_eq!(info.consistency_strategy, ConsistencyStrategy::Always);
    assert_eq!(info.storage_type, Some(StorageType::Ssd));
    assert_eq!(info.block_size, Some(64));
    assert_eq!(info.replicas, Some(3));
    assert_eq!(info.mount_type, MountType::Orch);
    assert_eq!(info.write_type, WriteType::Through);
    assert_eq!(info.provider, Some(Provider::Opendal));
    assert_eq!(info.properties.get("a").as_deref(), Some("2"));
}

#[test]
fn to_info_fills_unset_settings() {
    let mut opts = MountOptions::builder().build();
    opts.ttl_ms = None;
    opts.ttl_action = None;
    let info = opts.to_info(1, "/x", "s3://x");
    assert_eq!(info.ttl_ms, 0);
    assert_eq!(info.ttl_action, TtlAction::NoAction);
    assert_eq!(info.consistency_strategy, ConsistencyStrategy::Never);
}

fn conf() -> ClientConf {
    ClientConf {
        replicas: 2,
        block_size: 128,
        storage_type: StorageType::Disk,
        ttl_ms: 1000,
        ttl_action: TtlAction::NoAction,
    }
}

#[test]
fn with_conf_uses_client_ttl_for_new_mounts() {
    let b = MountOptionsBuilder::with_conf(&conf(), false).build();
    assert_eq!(b.ttl_ms, Some(1000));
    assert_eq!(b.ttl_action, Some(TtlAction::NoAction));
    let u = MountOptionsBuilder::with_conf(&conf(), true).build();
    assert_eq!(u.ttl_ms, Some(DEFAULT_TTL_MS));
    assert_eq!(u.ttl_action, Some(TtlAction::Delete));
}

#[test]
fn ttl_text() {
    let mut info = MountInfo::default();
    info.ttl_ms = 5000;
    assert!(info.auto_cache());
    assert_eq!(info.get_ttl(), None);
    info.ttl_ms = 0;
    assert!(!info.auto_cache());
    assert_eq!(info.get_ttl().as_deref(), Some("0s"));
    info.ttl_ms = -12_345;
    assert_eq!(info.get_ttl().as_deref(), Some("-12s"));
    info.ttl_ms = i64::MIN;
    assert_eq!(info.get_ttl().as_deref(), Some("-9223372036854775s"));
}

#[test]
fn create_opts_prefer_mount_settings() {
    let mut info = MountInfo::default();
    info.ttl_ms = 77;
    let o = info.get_create_opts(&conf());
    assert!(o.create_parent);
    assert_eq!(o.replicas, 2);
    assert_eq!(o.block_size, 128);
    assert_eq!(o.storage_type, StorageType::Disk);
    assert_eq!(o.ttl_ms, 77);
    info.replicas = Some(5);
    info.block_size = Some(1);
    info.storage_type = Some(StorageType::Mem);
    let o = info.get_create_opts(&conf());
    assert_eq!(o.replicas, 5);
    assert_eq!(o.block_size, 1);
    assert_eq!(o.storage_type, StorageType::Mem);
}

#[test]
fn write_policy_layers() {
    let p = write_plan(WriteType::Cache);
    assert!(p.to_cache && !p.to_ufs);
    let p = write_plan(WriteType::Through);
    assert!(!p.to_cache && p.to_ufs);
    let p = write_plan(WriteType::AsyncThrough);
    assert!(p.to_cache && p.to_ufs && p.ufs_in_background);
    let p = write_plan(WriteType::CacheThrough);
    assert!(p.to_cache && p.to_ufs && !p.ufs_in_background);
}

#[test]
fn writer_per_policy() {
    assert_eq!(UnifiedWriter::for_write(WriteType::Cache, BackendKind::Opendal), UnifiedWriter::Cv);
    assert_eq!(
        UnifiedWriter::for_write(WriteType::AsyncThrough, BackendKind::Opendal),
        UnifiedWriter::Cv
    );
    assert_eq!(
        UnifiedWriter::for_write(WriteType::Through, BackendKind::OssHdfs),
        UnifiedWriter::OssHdfs
    );
    assert_eq!(
        UnifiedWriter::for_write(WriteType::Through, BackendKind::Opendal),
        UnifiedWriter::Opendal
    );
    assert_eq!(
        UnifiedWriter::for_write(WriteType::CacheThrough, BackendKind::Opendal),
        UnifiedWriter::CacheSync
    );
}
