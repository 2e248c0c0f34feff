//! Plugin descriptors and the plugin registry.
//!
//! The registry keeps two copies of a name-to-descriptor snapshot behind a
//! left-right handle: one writer appends changes and publishes them, and any
//! number of readers look descriptors up without blocking the writer.
use vstd::prelude::*;

use crate::config::{unique_names, AbiEntry, PluginAbi, PluginAbiFunction, PluginAbiResult, PluginConfig};
use crate::wasm::{wasm_compiles, WasmPlugin};

verus! {

/// The plugin metadata shown to users.
#[derive(Clone, Default, Debug)]
pub struct PluginMetadata {
    pub name: String,
    pub version: String,
}

/// Failure to build a plugin.
#[derive(Clone, Debug)]
pub enum PluginError {
    Build(String),
}

/// A loadable plugin: its description and how to build a runnable `T` from it.
pub trait Plugin<T> {
    /// Metadata of the plugin.
    fn metadata(&self) -> PluginMetadata;

    /// The declared ABI of the plugin.
    fn abi(&self) -> PluginAbi;

    /// The module bytes of the plugin.
    fn source(&self) -> Vec<u8>;

    /// Builds a runnable plugin.
    fn build(&self) -> Result<T, PluginError>;

    /// Permissions the plugin requires.
    fn permissions(&self) -> Vec<String>;

    /// Functions of the plugin that are offered as routes.
    fn routers(&self) -> Vec<String>;
}

/// What a plugin descriptor is: name, version, ABI and module bytes.
pub struct PluginView {
    pub name: Seq<char>,
    pub version: Seq<char>,
    pub abi: Seq<AbiEntry>,
    pub source: Seq<u8>,
}

/// Copy of a byte sequence.
pub fn copy_bytes(b: &Vec<u8>) -> (r: Vec<u8>)
    ensures
        r@ == b@,
{
    let mut r: Vec<u8> = Vec::new();
    let mut i: usize = 0;
    while i < b.len()
        invariant
            0 <= i <= b@.len(),
            r@ == b@.subrange(0, i as int),
        decreases b@.len() - i,
    {
        r.push(b[i]);
        i = i + 1;
        assert(r@ =~= b@.subrange(0, i as int));
    }
    assert(b@.subrange(0, b@.len() as int) =~= b@);
    r
}

impl PluginMetadata {
    /// A field-by-field copy.
    pub fn duplicate(&self) -> (r: Self)
        ensures
            r.name@ == self.name@,
            r.version@ == self.version@,
    {
        PluginMetadata { name: self.name.clone(), version: self.version.clone() }
    }
}

impl PluginAbiFunction {
    /// A field-by-field copy.
    pub fn duplicate(&self) -> (r: Self)
        ensures
            r@ == self@,
    {
        PluginAbiFunction { name: self.name.clone(), result: PluginAbiResult { ty: self.result.ty } }
    }
}

impl PluginAbi {
    /// A copy of every declared function, in order.
    pub fn duplicate(&self) -> (r: Self)
        ensures
            r@ == self@,
    {
        let mut functions: Vec<PluginAbiFunction> = Vec::new();
        let mut i: usize = 0;
        while i < self.functions.len()
            invariant
                0 <= i <= self.functions@.len(),
                functions@.len() == i,
                forall|k: int| 0 <= k < i ==> #[trigger] functions@[k]@ == self.functions@[k]@,
            decreases self.functions@.len() - i,
        {
            functions.push(self.functions[i].duplicate());
            i = i + 1;
        }
        let r = PluginAbi { functions };
        assert(r@ =~= self@);
        r
    }
}

/// Builds plugins from a configuration and the module bytes.
#[derive(Clone, Default, Debug)]
pub struct PluginBuilder {
    config: PluginConfig<PluginMetadata>,
    source: Vec<u8>,
}

impl View for PluginBuilder {
    type V = PluginView;

    closed spec fn view(&self) -> PluginView {
        PluginView {
            name: self.config.metadata.name@,
            version: self.config.metadata.version@,
            abi: self.config.abi@,
            source: self.source@,
        }
    }
}

impl PluginBuilder {
    /// Creates a new PluginBuilder.
    pub fn new(config: PluginConfig<PluginMetadata>, source: Vec<u8>) -> (r: Self)
        ensures
            r@ == (PluginView {
                name: config.metadata.name@,
                version: config.metadata.version@,
                abi: config.abi@,
                source: source@,
            }),
    {
        PluginBuilder { config, source }
    }

    /// The plugin's name.
    pub fn name(&self) -> (r: String)
        ensures
            r@ == self@.name,
    {
        self.config.metadata.name.clone()
    }

    /// The declared ABI, by reference.
    pub fn abi_ref(&self) -> (r: &PluginAbi)
        ensures
            r@ == self@.abi,
    {
        &self.config.abi
    }

    /// The module bytes, by reference.
    pub fn source_ref(&self) -> (r: &Vec<u8>)
        ensures
            r@ == self@.source,
    {
        &self.source
    }

    /// A copy with the same metadata, ABI and module bytes.
    pub fn duplicate(&self) -> (r: Self)
        ensures
            r@ == self@,
    {
        PluginBuilder {
            config: PluginConfig { metadata: self.config.metadata.duplicate(), abi: self.config.abi.duplicate() },
            source: copy_bytes(&self.source),
        }
    }
}

impl Plugin<WasmPlugin> for PluginBuilder {
    fn metadata(&self) -> (r: PluginMetadata)
        ensures
            r.name@ == self@.name,
            r.version@ == self@.version,
    {
        self.config.metadata.duplicate()
    }

    fn abi(&self) -> (r: PluginAbi)
        ensures
            r@ == self@.abi,
    {
        self.config.abi.duplicate()
    }

    fn source(&self) -> (r: Vec<u8>)
        ensures
            r@ == self@.source,
    {
        copy_bytes(&self.source)
    }

    /// Compiles the module bytes with a fresh store.
    fn build(&self) -> (r: Result<WasmPlugin, PluginError>)
        ensures
            r is Ok <==> wasm_compiles(self@.source),
            match r {
                Ok(w) => w.source_view() == self@.source && w.compiled() && !w.instantiated(),
                Err(_) => true,
            },
    {
        let mut wasm_plugin = WasmPlugin::new(self.source());
        match wasm_plugin.compile() {
            Ok(()) => Ok(wasm_plugin),
            Err(_) => Err(PluginError::Build("the module does not compile".to_string())),
        }
    }

    fn permissions(&self) -> (r: Vec<String>)
        ensures
            r@.len() == 0,
    {
        Vec::new()
    }

    fn routers(&self) -> (r: Vec<String>)
        ensures
            r@.len() == 0,
    {
        Vec::new()
    }
}

/// An error the plugin manager may return when loading a plugin.
#[derive(Clone, Debug)]
pub enum ManagerError {
    /// The module bytes do not compile.
    Source(String),
    /// The configuration is malformed.
    Config(String),
}

/// A change to the registry, queued by the writer.
#[derive(Debug)]
pub enum SystemOp {
    New(String, PluginBuilder),
    Remove(String),
}

/// A registry change over descriptor values.
pub enum RegistryChange {
    Insert(Seq<char>, PluginView),
    Delete(Seq<char>),
}

impl RegistryChange {
    /// The name the change is about.
    pub open spec fn key(self) -> Seq<char> {
        match self {
            RegistryChange::Insert(k, _) => k,
            RegistryChange::Delete(k) => k,
        }
    }
}

impl View for SystemOp {
    type V = RegistryChange;

    open spec fn view(&self) -> RegistryChange {
        match self {
            SystemOp::New(name, p) => RegistryChange::Insert(name@, p@),
            SystemOp::Remove(name) => RegistryChange::Delete(name@),
        }
    }
}

/// A snapshot as a map from plugin name to descriptor.
pub type Snapshot = Map<Seq<char>, PluginView>;

/// One change applied to a snapshot: an insertion replaces, a removal forgets.
pub open spec fn apply_change(m: Snapshot, c: RegistryChange) -> Snapshot {
    match c {
        RegistryChange::Insert(k, d) => m.insert(k, d),
        RegistryChange::Delete(k) => m.remove(k),
    }
}

/// A batch of changes applied in order.
pub open spec fn apply_changes(m: Snapshot, cs: Seq<RegistryChange>) -> Snapshot
    decreases cs.len(),
{
    if cs.len() == 0 {
        m
    } else {
        apply_change(apply_changes(m, cs.drop_last()), cs.last())
    }
}

/// Entry names are distinct.
spec fn keys_distinct(plugins: Seq<(String, PluginBuilder)>) -> bool {
    forall|i: int, j: int| 0 <= i < j < plugins.len() ==> #[trigger] plugins[i].0@ != #[trigger] plugins[j].0@
}

/// Every entry is in the index, with its descriptor.
spec fn entries_indexed(plugins: Seq<(String, PluginBuilder)>, index: Snapshot) -> bool {
    forall|i: int| 0 <= i < plugins.len() ==> #[trigger] index.contains_key(plugins[i].0@) && index[plugins[i].0@] == plugins[i].1@
}

/// Every indexed name has an entry.
spec fn index_covered(plugins: Seq<(String, PluginBuilder)>, index: Snapshot) -> bool {
    forall|k: Seq<char>| #[trigger] index.contains_key(k) ==> exists|i: int| 0 <= i < plugins.len() && #[trigger] plugins[i].0@ == k
}

spec fn entries_valid(plugins: Seq<(String, PluginBuilder)>, index: Snapshot) -> bool {
    &&& keys_distinct(plugins)
    &&& entries_indexed(plugins, index)
    &&& index_covered(plugins, index)
}

/// One snapshot of the registry: plugins by name.
pub struct PluginSystem {
    plugins: Vec<(String, PluginBuilder)>,
    index: Ghost<Snapshot>,
}

impl PluginSystem {
    #[verifier::type_invariant]
    spec fn inv(self) -> bool {
        entries_valid(self.plugins@, self.index@)
    }

    /// The snapshot's content.
    pub closed spec fn view(&self) -> Snapshot {
        self.index@
    }

    /// An empty snapshot.
    pub fn empty() -> (r: Self)
        ensures
            r.view() == Snapshot::empty(),
    {
        PluginSystem { plugins: Vec::new(), index: Ghost(Map::empty()) }
    }

    /// Position of `name` among the entries.
    fn position(&self, name: &String) -> (r: Option<usize>)
        ensures
            match r {
                Some(i) => i < self.plugins@.len() && self.plugins@[i as int].0@ == name@,
                None => !self.view().contains_key(name@),
            },
    {
        proof {
            use_type_invariant(self);
        }
        let mut i: usize = 0;
        while i < self.plugins.len()
            invariant
                0 <= i <= self.plugins@.len(),
                forall|k: int| 0 <= k < i ==> #[trigger] self.plugins@[k].0@ != name@,
            decreases self.plugins@.len() - i,
        {
            if self.plugins[i].0 == *name {
                return Some(i);
            }
            i = i + 1;
        }
        None
    }

    /// The descriptor registered under `name`, copied.
    pub fn get(&self, name: &String) -> (r: Option<PluginBuilder>)
        ensures
            match r {
                Some(p) => self.view().contains_key(name@) && p@ == self.view()[name@],
                None => !self.view().contains_key(name@),
            },
    {
        proof {
            use_type_invariant(self);
        }
        match self.position(name) {
            Some(i) => Some(self.plugins[i].1.duplicate()),
            None => None,
        }
    }

    /// Applies one change.
    pub fn apply(&mut self, op: &SystemOp)
        ensures
            final(self).view() == apply_change(old(self).view(), op@),
    {
        proof {
            use_type_invariant(&*self);
        }
        match op {
            SystemOp::New(name, plugin) => {
                let entry = (name.clone(), plugin.duplicate());
                let ghost m = self.index@.insert(name@, plugin@);
                match self.position(name) {
                    Some(i) => {
                        let ghost old_plugins = self.plugins@;
                        let ghost old_index = self.index@;
                        let mut plugins = self.take_entries();
                        plugins.set(i, entry);
                        proof {
                            assert forall|a: int| 0 <= a < plugins@.len() implies #[trigger] plugins@[a].0@ == old_plugins[a].0@ by {}
                            assert forall|a: int, b: int|
                                0 <= a < b < plugins@.len() implies #[trigger] plugins@[a].0@ != #[trigger] plugins@[b].0@ by {
                                assert(old_plugins[a].0@ != old_plugins[b].0@);
                            }
                            assert forall|a: int| 0 <= a < plugins@.len() implies #[trigger] m.contains_key(plugins@[a].0@)
                                && m[plugins@[a].0@] == plugins@[a].1@ by {
                                if a != i {
                                    assert(old_plugins[a].0@ != old_plugins[i as int].0@);
                                    assert(old_index.contains_key(old_plugins[a].0@));
                                }
                            }
                            assert forall|k: Seq<char>| #[trigger] m.contains_key(k) implies exists|j: int|
                                0 <= j < plugins@.len() && #[trigger] plugins@[j].0@ == k by {
                                if k != name@ {
                                    let j = choose|j: int| 0 <= j < old_plugins.len() && #[trigger] old_plugins[j].0@ == k;
                                    assert(plugins@[j].0@ == k);
                                } else {
                                    assert(plugins@[i as int].0@ == k);
                                }
                            }
                        }
                        assert(keys_distinct(plugins@));
                        assert(entries_indexed(plugins@, m));
                        assert(index_covered(plugins@, m));
                        *self = PluginSystem { plugins, index: Ghost(m) };
                    },
                    None => {
                        let ghost old_plugins = self.plugins@;
                        let ghost old_index = self.index@;
                        let mut plugins = self.take_entries();
                        plugins.push(entry);
                        proof {
                            assert forall|a: int| 0 <= a < old_plugins.len() implies #[trigger] old_plugins[a].0@ != name@ by {
                                assert(old_index.contains_key(old_plugins[a].0@));
                            }
                            assert forall|a: int, b: int|
                                0 <= a < b < plugins@.len() implies #[trigger] plugins@[a].0@ != #[trigger] plugins@[b].0@ by {
                                if b < old_plugins.len() {
                                    assert(old_plugins[a].0@ != old_plugins[b].0@);
                                } else {
                                    assert(plugins@[a] == old_plugins[a]);
                                }
                            }
                            assert forall|a: int| 0 <= a < plugins@.len() implies #[trigger] m.contains_key(plugins@[a].0@)
                                && m[plugins@[a].0@] == plugins@[a].1@ by {
                                if a < old_plugins.len() {
                                    assert(plugins@[a] == old_plugins[a]);
                                    assert(old_index.contains_key(old_plugins[a].0@));
                                }
                            }
                            assert forall|k: Seq<char>| #[trigger] m.contains_key(k) implies exists|j: int|
                                0 <= j < plugins@.len() && #[trigger] plugins@[j].0@ == k by {
                                if k != name@ {
                                    let j = choose|j: int| 0 <= j < old_plugins.len() && #[trigger] old_plugins[j].0@ == k;
                                    assert(plugins@[j] == old_plugins[j]);
                                } else {
                                    assert(plugins@[old_plugins.len() as int].0@ == k);
                                }
                            }
                        }
                        assert(keys_distinct(plugins@));
                        assert(entries_indexed(plugins@, m));
                        assert(index_covered(plugins@, m));
                        *self = PluginSystem { plugins, index: Ghost(m) };
                    },
                }
            },
            SystemOp::Remove(name) => {
                let ghost m = self.index@.remove(name@);
                match self.position(name) {
                    Some(i) => {
                        let ghost old_plugins = self.plugins@;
                        let ghost old_index = self.index@;
                        let mut plugins = self.take_entries();
                        plugins.remove(i);
                        proof {
                            assert forall|a: int, b: int|
                                0 <= a < b < plugins@.len() implies #[trigger] plugins@[a].0@ != #[trigger] plugins@[b].0@ by {
                                let a0 = if a < i { a } else { a + 1 };
                                let b0 = if b < i { b } else { b + 1 };
                                assert(plugins@[a] == old_plugins[a0]);
                                assert(plugins@[b] == old_plugins[b0]);
                            }
                            assert forall|a: int| 0 <= a < plugins@.len() implies #[trigger] m.contains_key(plugins@[a].0@)
                                && m[plugins@[a].0@] == plugins@[a].1@ by {
                                let a0 = if a < i { a } else { a + 1 };
                                assert(plugins@[a] == old_plugins[a0]);
                                assert(old_plugins[a0].0@ != old_plugins[i as int].0@);
                                assert(old_index.contains_key(old_plugins[a0].0@));
                            }
                            assert forall|k: Seq<char>| #[trigger] m.contains_key(k) implies exists|j: int|
                                0 <= j < plugins@.len() && #[trigger] plugins@[j].0@ == k by {
                                let j = choose|j: int| 0 <= j < old_plugins.len() && #[trigger] old_plugins[j].0@ == k;
                                assert(j != i);
                                let j1 = if j < i { j } else { j - 1 };
                                assert(plugins@[j1] == old_plugins[j]);
                            }
                        }
                        assert(keys_distinct(plugins@));
                        assert(entries_indexed(plugins@, m));
                        assert(index_covered(plugins@, m));
                        *self = PluginSystem { plugins, index: Ghost(m) };
                    },
                    None => {
                        assert(m =~= self.index@);
                    },
                }
            },
        }
    }

    /// Moves the entries out, leaving the snapshot empty.
    fn take_entries(&mut self) -> (r: Vec<(String, PluginBuilder)>)
        ensures
            r@ == old(self).plugins@,
            final(self).view() == Snapshot::empty(),
    {
        let mut current = PluginSystem::empty();
        std::mem::swap(self, &mut current);
        let PluginSystem { plugins, index: _ } = current;
        plugins
    }

    /// A copy of every entry.
    pub fn duplicate(&self) -> (r: Self)
        ensures
            r.view() == self.view(),
    {
        proof {
            use_type_invariant(self);
        }
        let mut plugins: Vec<(String, PluginBuilder)> = Vec::new();
        let mut i: usize = 0;
        while i < self.plugins.len()
            invariant
                0 <= i <= self.plugins@.len(),
                plugins@.len() == i,
                forall|k: int| 0 <= k < i ==> #[trigger] plugins@[k].0@ == self.plugins@[k].0@
                    && plugins@[k].1@ == self.plugins@[k].1@,
            decreases self.plugins@.len() - i,
        {
            plugins.push((self.plugins[i].0.clone(), self.plugins[i].1.duplicate()));
            i = i + 1;
        }
        proof {
            assert forall|a: int, b: int|
                0 <= a < b < plugins@.len() implies #[trigger] plugins@[a].0@ != #[trigger] plugins@[b].0@ by {
                assert(self.plugins@[a].0@ != self.plugins@[b].0@);
            }
            assert forall|a: int| 0 <= a < plugins@.len() implies #[trigger] self.index@.contains_key(plugins@[a].0@)
                && self.index@[plugins@[a].0@] == plugins@[a].1@ by {
                assert(self.index@.contains_key(self.plugins@[a].0@));
            }
            assert forall|k: Seq<char>| #[trigger] self.index@.contains_key(k) implies exists|j: int|
                0 <= j < plugins@.len() && #[trigger] plugins@[j].0@ == k by {
                let j = choose|j: int| 0 <= j < self.plugins@.len() && #[trigger] self.plugins@[j].0@ == k;
                assert(plugins@[j].0@ == k);
            }
        }
        assert(keys_distinct(plugins@));
        assert(entries_indexed(plugins@, self.index@));
        assert(index_covered(plugins@, self.index@));
        PluginSystem { plugins, index: Ghost(self.index@) }
    }
}

impl Default for PluginSystem {
    fn default() -> (r: Self)
        ensures
            r.view() == Snapshot::empty(),
    {
        PluginSystem::empty()
    }
}

impl left_right::Absorb<SystemOp> for PluginSystem {
    fn absorb_first(&mut self, operation: &mut SystemOp, _other: &Self)
        ensures
            final(self).view() == apply_change(old(self).view(), old(operation)@),
            *final(operation) == *old(operation),
    {
        self.apply(operation);
    }

    fn sync_with(&mut self, first: &Self)
        ensures
            final(self).view() == first.view(),
    {
        *self = first.duplicate();
    }
}

#[verifier::external_type_specification]
#[verifier::external_body]
#[verifier::reject_recursive_types(T)]
pub struct ExReadHandle<T>(left_right::ReadHandle<T>);

#[verifier::external_type_specification]
#[verifier::external_body]
#[verifier::reject_recursive_types(T)]
pub struct ExReadHandleFactory<T>(left_right::ReadHandleFactory<T>);

/// The writer's side of the left-right pair: the operation log and the
/// snapshot copies it maintains.
#[verifier::external_body]
pub struct PluginLog {
    handle: left_right::WriteHandle<PluginSystem, SystemOp>,
}

/// The snapshot that readers currently see.
pub uninterp spec fn log_published(log: PluginLog) -> Snapshot;

/// The changes appended since the last publish, oldest first.
pub uninterp spec fn log_pending(log: PluginLog) -> Seq<RegistryChange>;

/// A fresh log with the first reader of its copies.
type LogAndReader = (PluginLog, left_right::ReadHandle<PluginSystem>);

/// Relies on `left_right::new`: both copies start as `PluginSystem::default()`,
/// which is empty, and the operation log starts empty.
#[verifier::external_body]
fn new_log() -> (r: LogAndReader)
    ensures
        log_published(r.0) == Snapshot::empty(),
        log_pending(r.0) == Seq::<RegistryChange>::empty(),
{
    let (handle, reader) = left_right::new::<PluginSystem, SystemOp>();
    (PluginLog { handle }, reader)
}

/// Relies on `left_right::ReadHandle::factory`: a shareable source of readers
/// of the same pair of copies.
#[verifier::external_body]
fn reader_factory(reader: &left_right::ReadHandle<PluginSystem>) -> (r: left_right::ReadHandleFactory<PluginSystem>) {
    reader.factory()
}

/// Relies on `left_right::WriteHandle::append`: the operation joins the end of
/// the log and stays invisible to readers until the next publish.
#[verifier::external_body]
fn log_append(log: &mut PluginLog, op: SystemOp)
    ensures
        log_published(*final(log)) == log_published(*old(log)),
        log_pending(*final(log)) == log_pending(*old(log)).push(op@),
{
    log.handle.append(op);
}

/// Relies on `left_right::WriteHandle::publish`: readers are switched to the
/// copy that has absorbed every logged operation in order, each through
/// `Absorb::absorb_first`, which is `PluginSystem::apply`.
#[verifier::external_body]
fn log_publish(log: &mut PluginLog)
    ensures
        log_published(*final(log)) == apply_changes(log_published(*old(log)), log_pending(*old(log))),
        log_pending(*final(log)) == Seq::<RegistryChange>::empty(),
{
    log.handle.publish();
}

/// Relies on the write handle's `Deref` to its `ReadHandle` and on
/// `ReadHandle::enter`: a read through the writer sees the published copy,
/// and `enter` fails only once the writer is gone. The lookup in the copy is
/// `PluginSystem::get`.
#[verifier::external_body]
fn log_get(log: &PluginLog, name: &String) -> (r: Option<PluginBuilder>)
    ensures
        match r {
            Some(p) => log_published(*log).contains_key(name@) && p@ == log_published(*log)[name@],
            None => !log_published(*log).contains_key(name@),
        },
{
    log.handle.enter().and_then(|snapshot| snapshot.get(name))
}

/// Relies on `left_right::ReadHandleFactory::handle` and `ReadHandle::enter`:
/// a fresh reader of whichever copy is published at the moment of the read.
#[verifier::external_body]
fn reader_get(factory: &left_right::ReadHandleFactory<PluginSystem>, name: &String) -> (r: Option<PluginBuilder>) {
    factory.handle().enter().and_then(|snapshot| snapshot.get(name))
}

/// The writer and the reader factory of one registry.
pub type RegistryHandles = (PluginSystemWriter, PluginSystemReader);

impl PluginSystem {
    /// Creates a registry: its only writer and a factory of readers.
    pub fn get_left_right() -> (r: RegistryHandles)
        ensures
            r.0.published() == Snapshot::empty(),
            r.0.pending() == Seq::<RegistryChange>::empty(),
    {
        let (log, reader) = new_log();
        let factory = reader_factory(&reader);
        (PluginSystemWriter(log), PluginSystemReader(factory))
    }
}

/// The single writer of the registry.
pub struct PluginSystemWriter(pub PluginLog);

impl PluginSystemWriter {
    /// What readers see.
    pub open spec fn published(&self) -> Snapshot {
        log_published(self.0)
    }

    /// Changes appended and not yet published.
    pub open spec fn pending(&self) -> Seq<RegistryChange> {
        log_pending(self.0)
    }

    /// Queues the plugin's registration under its own name.
    pub fn add(&mut self, plugin: PluginBuilder) -> (r: &Self)
        ensures
            final(self).published() == old(self).published(),
            final(self).pending() == old(self).pending().push(RegistryChange::Insert(plugin@.name, plugin@)),
            r.published() == final(self).published(),
            r.pending() == final(self).pending(),
    {
        let name = plugin.name();
        log_append(&mut self.0, SystemOp::New(name, plugin));
        self
    }

    /// Queues the removal of the plugin's name.
    pub fn remove(&mut self, plugin: PluginBuilder) -> (r: &Self)
        ensures
            final(self).published() == old(self).published(),
            final(self).pending() == old(self).pending().push(RegistryChange::Delete(plugin@.name)),
            r.published() == final(self).published(),
            r.pending() == final(self).pending(),
    {
        let name = plugin.name();
        log_append(&mut self.0, SystemOp::Remove(name));
        self
    }

    /// Queues any change.
    pub fn append(&mut self, op: SystemOp)
        ensures
            final(self).published() == old(self).published(),
            final(self).pending() == old(self).pending().push(op@),
    {
        log_append(&mut self.0, op);
    }

    /// Makes every queued change visible to readers, in order.
    pub fn publish(&mut self) -> (r: &Self)
        ensures
            final(self).published() == apply_changes(old(self).published(), old(self).pending()),
            final(self).pending() == Seq::<RegistryChange>::empty(),
            r.published() == final(self).published(),
            r.pending() == final(self).pending(),
    {
        log_publish(&mut self.0);
        self
    }

    /// Checks a plugin's configuration and module and queues its registration.
    /// Declared function names must be distinct and the module must compile;
    /// otherwise nothing is queued.
    pub fn add_from_config(&mut self, wasm_as_bytes: Vec<u8>, config: PluginConfig<PluginMetadata>) -> (r: Result<(), ManagerError>)
        ensures
            final(self).published() == old(self).published(),
            r matches Err(ManagerError::Config(_)) <==> !unique_names(config.abi@),
            r matches Err(ManagerError::Source(_)) <==> unique_names(config.abi@) && !wasm_compiles(wasm_as_bytes@),
            r is Ok ==> final(self).pending() == old(self).pending().push(RegistryChange::Insert(
                config.metadata.name@,
                PluginView {
                    name: config.metadata.name@,
                    version: config.metadata.version@,
                    abi: config.abi@,
                    source: wasm_as_bytes@,
                },
            )),
            r is Err ==> final(self).pending() == old(self).pending(),
    {
        if !config.abi.has_unique_names() {
            return Err(ManagerError::Config("two declared functions share a name".to_string()));
        }
        let new_plugin = PluginBuilder::new(config, wasm_as_bytes);
        match new_plugin.build() {
            Ok(_) => {
                self.add(new_plugin);
                Ok(())
            },
            Err(_) => Err(ManagerError::Source("the module does not compile".to_string())),
        }
    }

    /// The published descriptor for `name`, as any reader sees it.
    pub fn get(&self, name: &String) -> (r: Option<PluginBuilder>)
        ensures
            match r {
                Some(p) => self.published().contains_key(name@) && p@ == self.published()[name@],
                None => !self.published().contains_key(name@),
            },
    {
        log_get(&self.0, name)
    }
}

/// A shareable source of registry readers; each lookup uses a fresh reader.
pub struct PluginSystemReader(pub left_right::ReadHandleFactory<PluginSystem>);

impl PluginSystemReader {
    /// The descriptor for `name` in the snapshot published at the time of the call.
    pub fn get(&self, name: &String) -> (r: Option<PluginBuilder>) {
        reader_get(&self.0, name)
    }
}

/// A changed name keeps what it had when a change is about another name.
proof fn lemma_other_change(m: Snapshot, c: RegistryChange, name: Seq<char>)
    requires
        c.key() != name,
    ensures
        apply_change(m, c).contains_key(name) == m.contains_key(name),
        m.contains_key(name) ==> apply_change(m, c)[name] == m[name],
{
}

/// After a publish, a name whose last change in the batch inserted a
/// descriptor maps to exactly that descriptor.
pub proof fn lemma_publish_exposes_insert(base: Snapshot, cs: Seq<RegistryChange>, i: int, name: Seq<char>, d: PluginView)
    requires
        0 <= i < cs.len(),
        cs[i] == RegistryChange::Insert(name, d),
        forall|j: int| i < j < cs.len() ==> (#[trigger] cs[j]).key() != name,
    ensures
        apply_changes(base, cs).contains_key(name),
        apply_changes(base, cs)[name] == d,
    decreases cs.len(),
{
    if i < cs.len() - 1 {
        let rest = cs.drop_last();
        assert forall|j: int| i < j < rest.len() implies (#[trigger] rest[j]).key() != name by {
            assert(rest[j] == cs[j]);
        }
        lemma_publish_exposes_insert(base, rest, i, name, d);
        lemma_other_change(apply_changes(base, rest), cs.last(), name);
    }
}

/// After a publish, a name whose last change in the batch removed it is absent.
pub proof fn lemma_publish_hides_removed(base: Snapshot, cs: Seq<RegistryChange>, i: int, name: Seq<char>)
    requires
        0 <= i < cs.len(),
        cs[i] == RegistryChange::Delete(name),
        forall|j: int| i < j < cs.len() ==> (#[trigger] cs[j]).key() != name,
    ensures
        !apply_changes(base, cs).contains_key(name),
    decreases cs.len(),
{
    if i < cs.len() - 1 {
        let rest = cs.drop_last();
        assert forall|j: int| i < j < rest.len() implies (#[trigger] rest[j]).key() != name by {
            assert(rest[j] == cs[j]);
        }
        lemma_publish_hides_removed(base, rest, i, name);
        lemma_other_change(apply_changes(base, rest), cs.last(), name);
    }
}

/// Two insertions under one name in one batch: the later descriptor wins, with
/// nothing merged from the earlier one.
pub proof fn lemma_last_insert_wins(base: Snapshot, name: Seq<char>, d1: PluginView, d2: PluginView)
    ensures
        apply_changes(base, seq![RegistryChange::Insert(name, d1), RegistryChange::Insert(name, d2)]).contains_key(name),
        apply_changes(base, seq![RegistryChange::Insert(name, d1), RegistryChange::Insert(name, d2)])[name] == d2,
{
    let cs = seq![RegistryChange::Insert(name, d1), RegistryChange::Insert(name, d2)];
    lemma_publish_exposes_insert(base, cs, 1, name, d2);
}

} // verus!
