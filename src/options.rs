use vstd::prelude::*;

use crate::mount::{ClientConf, MountInfo, DEFAULT_TTL_MS};
use crate::policy::{ConsistencyStrategy, MountType, Provider, StorageType, TtlAction, WriteType};
use crate::props::Properties;

verus! {

/// The settings of a mount request, before the mount has an id and paths.
#[derive(Debug, Clone)]
pub struct MountOptions {
    pub update: bool,
    pub add_properties: Properties,
    pub ttl_ms: Option<i64>,
    pub ttl_action: Option<TtlAction>,
    pub consistency_strategy: Option<ConsistencyStrategy>,
    pub storage_type: Option<StorageType>,
    pub block_size: Option<i64>,
    pub replicas: Option<i32>,
    pub mount_type: MountType,
    pub remove_properties: Vec<String>,
    pub write_type: WriteType,
    pub provider: Option<Provider>,
}

/// Fluent construction of [`MountOptions`]; each setter hands back the
/// builder with one setting changed.
#[derive(Debug)]
pub struct MountOptionsBuilder {
    update: bool,
    add_properties: Properties,
    ttl_ms: Option<i64>,
    ttl_action: Option<TtlAction>,
    consistency_strategy: Option<ConsistencyStrategy>,
    storage_type: Option<StorageType>,
    block_size: Option<i64>,
    replicas: Option<i32>,
    mount_type: MountType,
    remove_properties: Vec<String>,
    write_type: WriteType,
    provider: Option<Provider>,
}

/// The settings of a mount request as values.
pub struct OptionsModel {
    pub update: bool,
    pub add_properties: Map<Seq<char>, Seq<char>>,
    pub ttl_ms: Option<i64>,
    pub ttl_action: Option<TtlAction>,
    pub consistency_strategy: Option<ConsistencyStrategy>,
    pub storage_type: Option<StorageType>,
    pub block_size: Option<i64>,
    pub replicas: Option<i32>,
    pub mount_type: MountType,
    pub remove_properties: Seq<Seq<char>>,
    pub write_type: WriteType,
    pub provider: Option<Provider>,
}

/// The settings of a new mount: asynchronous write-through, a time to live
/// of seven days with deletion after it, nothing else set.
pub open spec fn fresh_model() -> OptionsModel {
    OptionsModel {
        update: false,
        add_properties: Map::empty(),
        ttl_ms: Some(DEFAULT_TTL_MS),
        ttl_action: Some(TtlAction::Delete),
        consistency_strategy: None,
        storage_type: None,
        block_size: None,
        replicas: None,
        mount_type: MountType::Cst,
        remove_properties: Seq::empty(),
        write_type: WriteType::AsyncThrough,
        provider: None,
    }
}

impl View for MountOptions {
    type V = OptionsModel;

    open spec fn view(&self) -> OptionsModel {
        OptionsModel {
            update: self.update,
            add_properties: self.add_properties@,
            ttl_ms: self.ttl_ms,
            ttl_action: self.ttl_action,
            consistency_strategy: self.consistency_strategy,
            storage_type: self.storage_type,
            block_size: self.block_size,
            replicas: self.replicas,
            mount_type: self.mount_type,
            remove_properties: self.remove_properties@.map_values(|s: String| s@),
            write_type: self.write_type,
            provider: self.provider,
        }
    }
}

impl View for MountOptionsBuilder {
    type V = OptionsModel;

    closed spec fn view(&self) -> OptionsModel {
        OptionsModel {
            update: self.update,
            add_properties: self.add_properties@,
            ttl_ms: self.ttl_ms,
            ttl_action: self.ttl_action,
            consistency_strategy: self.consistency_strategy,
            storage_type: self.storage_type,
            block_size: self.block_size,
            replicas: self.replicas,
            mount_type: self.mount_type,
            remove_properties: self.remove_properties@.map_values(|s: String| s@),
            write_type: self.write_type,
            provider: self.provider,
        }
    }
}

impl MountOptions {
    /// A builder with the settings of a new mount.
    pub fn builder() -> (r: MountOptionsBuilder)
        ensures
            r@ == fresh_model(),
    {
        MountOptionsBuilder::new()
    }

    /// The mount record for these settings, with its id and its two prefixes.
    /// An unset time to live is 0, an unset action `NoAction`, an unset
    /// consistency strategy `Never`.
    pub fn to_info(self, mount_id: u32, cv_path: &str, ufs_path: &str) -> (r: MountInfo)
        ensures
            r.cv_path@ == cv_path@,
            r.ufs_path@ == ufs_path@,
            r.mount_id == mount_id,
            r.properties@ == self@.add_properties,
            r.ttl_ms == match self.ttl_ms {
                Some(v) => v,
                None => 0,
            },
            r.ttl_action == match self.ttl_action {
                Some(v) => v,
                None => TtlAction::NoAction,
            },
            r.consistency_strategy == match self.consistency_strategy {
                Some(v) => v,
                None => ConsistencyStrategy::Never,
            },
            r.storage_type == self.storage_type,
            r.block_size == self.block_size,
            r.replicas == self.replicas,
            r.mount_type == self.mount_type,
            r.write_type == self.write_type,
            r.provider == self.provider,
    {
        MountInfo {
            cv_path: String::from_str(cv_path),
            ufs_path: String::from_str(ufs_path),
            mount_id,
            properties: self.add_properties,
            ttl_ms: match self.ttl_ms {
                Some(v) => v,
                None => 0,
            },
            ttl_action: match self.ttl_action {
                Some(v) => v,
                None => TtlAction::NoAction,
            },
            consistency_strategy: match self.consistency_strategy {
                Some(v) => v,
                None => ConsistencyStrategy::Never,
            },
            storage_type: self.storage_type,
            block_size: self.block_size,
            replicas: self.replicas,
            mount_type: self.mount_type,
            write_type: self.write_type,
            provider: self.provider,
        }
    }
}

impl MountOptionsBuilder {
    /// A builder with the settings of a new mount.
    pub fn new() -> (r: MountOptionsBuilder)
        ensures
            r@ == fresh_model(),
    {
        let r = MountOptionsBuilder {
            update: false,
            add_properties: Properties::new(),
            ttl_ms: Some(DEFAULT_TTL_MS),
            ttl_action: Some(TtlAction::Delete),
            consistency_strategy: None,
            storage_type: None,
            block_size: None,
            replicas: None,
            mount_type: MountType::Cst,
            remove_properties: Vec::new(),
            write_type: WriteType::AsyncThrough,
            provider: None,
        };
        assert(r@.remove_properties =~= Seq::<Seq<char>>::empty());
        r
    }

    /// The settings of a new mount; for a new mount (not an update) with the
    /// client's time to live and action in place of the built-in ones.
    pub fn with_conf(conf: &ClientConf, update: bool) -> (r: MountOptionsBuilder)
        ensures
            r@ == (if update {
                fresh_model()
            } else {
                OptionsModel {
                    ttl_ms: Some(conf.ttl_ms),
                    ttl_action: Some(conf.ttl_action),
                    ..fresh_model()
                }
            }),
    {
        let builder = MountOptionsBuilder::new();
        if update {
            return builder;
        }
        builder.ttl_ms(conf.ttl_ms).ttl_action(conf.ttl_action)
    }

    /// Sets whether the request updates an existing mount.
    pub fn update(self, update: bool) -> (r: MountOptionsBuilder)
        ensures
            r@ == (OptionsModel { update: update, ..self@ }),
    {
        MountOptionsBuilder { update: update, ..self }
    }

    /// Sets the time to live in milliseconds.
    pub fn ttl_ms(self, ttl_ms: i64) -> (r: MountOptionsBuilder)
        ensures
            r@ == (OptionsModel { ttl_ms: Some(ttl_ms), ..self@ }),
    {
        MountOptionsBuilder { ttl_ms: Some(ttl_ms), ..self }
    }

    /// Sets what happens once the time to live has run out.
    pub fn ttl_action(self, ttl_action: TtlAction) -> (r: MountOptionsBuilder)
        ensures
            r@ == (OptionsModel { ttl_action: Some(ttl_action), ..self@ }),
    {
        MountOptionsBuilder { ttl_action: Some(ttl_action), ..self }
    }

    /// Sets the consistency strategy.
    pub fn consistency_strategy(self, consistency_strategy: ConsistencyStrategy) -> (r: MountOptionsBuilder)
        ensures
            r@ == (OptionsModel { consistency_strategy: Some(consistency_strategy), ..self@ }),
    {
        MountOptionsBuilder { consistency_strategy: Some(consistency_strategy), ..self }
    }

    /// Sets the storage medium.
    pub fn storage_type(self, storage_type: StorageType) -> (r: MountOptionsBuilder)
        ensures
            r@ == (OptionsModel { storage_type: Some(storage_type), ..self@ }),
    {
        MountOptionsBuilder { storage_type: Some(storage_type), ..self }
    }

    /// Sets the block size.
    pub fn block_size(self, block_size: i64) -> (r: MountOptionsBuilder)
        ensures
            r@ == (OptionsModel { block_size: Some(block_size), ..self@ }),
    {
        MountOptionsBuilder { block_size: Some(block_size), ..self }
    }

    /// Sets the number of replicas.
    pub fn replicas(self, replicas: i32) -> (r: MountOptionsBuilder)
        ensures
            r@ == (OptionsModel { replicas: Some(replicas), ..self@ }),
    {
        MountOptionsBuilder { replicas: Some(replicas), ..self }
    }

    /// Sets the mount type.
    pub fn mount_type(self, mount_type: MountType) -> (r: MountOptionsBuilder)
        ensures
            r@ == (OptionsModel { mount_type: mount_type, ..self@ }),
    {
        MountOptionsBuilder { mount_type: mount_type, ..self }
    }

    /// Sets the write type.
    pub fn write_type(self, write_type: WriteType) -> (r: MountOptionsBuilder)
        ensures
            r@ == (OptionsModel { write_type: write_type, ..self@ }),
    {
        MountOptionsBuilder { write_type: write_type, ..self }
    }

    /// Sets the backend provider.
    pub fn provider(self, provider: Provider) -> (r: MountOptionsBuilder)
        ensures
            r@ == (OptionsModel { provider: Some(provider), ..self@ }),
    {
        MountOptionsBuilder { provider: Some(provider), ..self }
    }

    /// Adds a property, replacing an earlier value of the same key.
    pub fn add_property(self, key: &str, value: &str) -> (r: MountOptionsBuilder)
        ensures
            r@ == (OptionsModel {
                add_properties: self@.add_properties.insert(key@, value@),
                ..self@
            }),
    {
        let mut b = self;
        b.add_properties.insert(String::from_str(key), String::from_str(value));
        b
    }

    /// Replaces every property.
    pub fn set_properties(self, props: Properties) -> (r: MountOptionsBuilder)
        ensures
            r@ == (OptionsModel { add_properties: props@, ..self@ }),
    {
        MountOptionsBuilder { add_properties: props, ..self }
    }

    /// Names a property that the mount is to lose.
    pub fn remove_property(self, property: &str) -> (r: MountOptionsBuilder)
        ensures
            r@ == (OptionsModel {
                remove_properties: self@.remove_properties.push(property@),
                ..self@
            }),
    {
        let mut b = self;
        let ghost before = b.remove_properties@;
        b.remove_properties.push(String::from_str(property));
        assert(b.remove_properties@.map_values(|s: String| s@) =~= before.map_values(
            |s: String| s@,
        ).push(property@));
        b
    }

    /// The options, with every setting as the builder holds it.
    pub fn build(self) -> (r: MountOptions)
        ensures
            r@ == self@,
    {
        MountOptions {
            update: self.update,
            add_properties: self.add_properties,
            ttl_ms: self.ttl_ms,
            ttl_action: self.ttl_action,
            consistency_strategy: self.consistency_strategy,
            storage_type: self.storage_type,
            block_size: self.block_size,
            replicas: self.replicas,
            mount_type: self.mount_type,
            remove_properties: self.remove_properties,
            write_type: self.write_type,
            provider: self.provider,
        }
    }
}

} // verus!
