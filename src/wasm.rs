//! The module execution adapter: one compiled WebAssembly module, its store and
//! its instance, owned by the single call that created them.
use vstd::prelude::*;

verus! {

#[verifier::external_type_specification]
#[verifier::external_body]
pub struct ExStore(wasmer::Store);

#[verifier::external_type_specification]
#[verifier::external_body]
pub struct ExModule(wasmer::Module);

#[verifier::external_type_specification]
#[verifier::external_body]
pub struct ExInstance(wasmer::Instance);

#[verifier::external_type_specification]
#[verifier::external_body]
pub struct ExCompileError(wasmer::CompileError);

#[verifier::external_type_specification]
#[verifier::external_body]
pub struct ExInstantiationError(wasmer::InstantiationError);

#[verifier::external_type_specification]
#[verifier::external_body]
pub struct ExExportError(wasmer::ExportError);

#[verifier::external_type_specification]
#[verifier::external_body]
pub struct ExRuntimeError(wasmer::RuntimeError);

/// A value returned by an exported function.
#[derive(Clone, Copy, Debug, PartialEq, Eq, Structural)]
pub enum WasmValue {
    I32(i32),
    I64(i64),
    /// A floating-point or reference value.
    Other,
}

/// One call made on an instance: the function's name and its arguments.
pub type CallRecord = (Seq<char>, Seq<i32>);

/// Whether the engine of `new_store` accepts these bytes as a module, in
/// binary or text form. That engine's target and features are fixed, so the
/// answer does not depend on the machine's CPU.
pub uninterp spec fn wasm_compiles(bytes: Seq<u8>) -> bool;

/// Whether the module compiled from these bytes instantiates in a fresh store
/// whose only import is a host function `ns`.`name` without parameters or
/// results; instantiation runs the module's start function. The engine
/// canonicalises NaNs, so no float bit pattern depends on the machine;
/// exhausting memory or stack is left aside.
pub uninterp spec fn wasm_links(bytes: Seq<u8>, ns: Seq<char>, name: Seq<char>) -> bool;

/// The exports of an instance of the module, in the module's order, each with
/// whether it is a function.
pub uninterp spec fn wasm_exports(bytes: Seq<u8>) -> Seq<(Seq<char>, bool)>;

/// The results of calling the exported function `name` with `args` on an
/// instance of the module that has seen exactly the calls of `history`, or
/// `None` when the call traps. With NaNs canonicalised by the engine, this
/// does not depend on the machine; exhausting memory or stack is left aside.
pub uninterp spec fn wasm_call(bytes: Seq<u8>, history: Seq<CallRecord>, name: Seq<char>, args: Seq<i32>) -> Option<Seq<WasmValue>>;

/// The contents of the exported memory `name` of an instance of the module
/// that has seen exactly the calls of `history`, or `None` when there is no
/// such memory or it cannot be read. With NaNs canonicalised by the engine,
/// this does not depend on the machine; exhausting memory or stack is left
/// aside.
pub uninterp spec fn wasm_memory(bytes: Seq<u8>, history: Seq<CallRecord>, name: Seq<char>) -> Option<Seq<u8>>;

/// The names of the function exports, in order.
pub open spec fn callable_names(exports: Seq<(Seq<char>, bool)>) -> Seq<Seq<char>>
    decreases exports.len(),
{
    if exports.len() == 0 {
        Seq::empty()
    } else if exports.last().1 {
        callable_names(exports.drop_last()).push(exports.last().0)
    } else {
        callable_names(exports.drop_last())
    }
}

/// Whether `name` is exactly one of `names`.
pub open spec fn is_listed(names: Seq<Seq<char>>, name: Seq<char>) -> bool {
    exists|i: int| 0 <= i < names.len() && names[i] == name
}

/// The host import offered to every module: a logging call `cms.log`.
pub const HOST_NAMESPACE: &'static str = "cms";

/// Name of the host logging call.
pub const HOST_LOG: &'static str = "log";

/// Name of the exported memory that text results point into.
pub const MEMORY_EXPORT: &'static str = "memory";

/// Whether these bytes compile and link against the host import.
pub open spec fn wasm_instantiates(bytes: Seq<u8>) -> bool {
    wasm_compiles(bytes) && wasm_links(bytes, HOST_NAMESPACE@, HOST_LOG@)
}

/// Relies on `wasmer::sys::Cranelift` with `canonicalize_nans(true)`,
/// `wasmer::sys::Target::new` with the build's own triple and the x86-64
/// baseline CPU features (SSE2 alone), `EngineBuilder` with that target and
/// the default wasm features, `Engine::set_tunables` with `BaseTunables`, and
/// `wasmer::Store::new`: a fresh store whose engine compiles the same way on
/// every machine and places linear memories by the given bounds.
#[verifier::external_body]
fn new_store(static_bound_pages: u32, static_guard_bytes: u64, dynamic_guard_bytes: u64) -> (r: wasmer::Store) {
    let mut compiler = wasmer::sys::Cranelift::new();
    compiler.canonicalize_nans(true);
    let mut cpu = wasmer::sys::CpuFeature::set();
    cpu.insert(wasmer::sys::CpuFeature::SSE2);
    let target = wasmer::sys::Target::new(wasmer::sys::Triple::host(), cpu);
    let builder = wasmer::sys::EngineBuilder::new(compiler).set_target(Some(target));
    let mut engine = builder.set_features(Some(wasmer::sys::Features::new())).engine();
    engine.set_tunables(wasmer::sys::BaseTunables {
        static_memory_bound: wasmer::Pages(static_bound_pages),
        static_memory_offset_guard_size: static_guard_bytes,
        dynamic_memory_offset_guard_size: dynamic_guard_bytes,
    });
    wasmer::Store::new(engine)
}

/// Largest memory, in 64 KiB pages, placed statically. A static memory
/// reserves its whole bound plus guard up front, so none is placed that way.
pub const STATIC_MEMORY_BOUND_PAGES: u32 = 0;

/// Guard region after a statically placed memory, in bytes.
pub const STATIC_MEMORY_GUARD_BYTES: u64 = 0;

/// Guard region after a dynamically placed memory, in bytes: one page.
pub const DYNAMIC_MEMORY_GUARD_BYTES: u64 = 65536;

/// The host's logging call offered to modules; it records nothing.
pub fn host_log() {
}

/// Errors of the execution adapter.
#[derive(Debug)]
pub enum WasmError {
    /// The bytes are not a module the engine accepts.
    Compile(String),
    /// The module could not be linked or started.
    Instance(String),
    /// No export of the requested name and kind.
    Export(String),
    /// The module trapped.
    Runtime(String),
}

/// A module being run: its bytes, its own store, and once built, the compiled
/// module and the live instance. The module and the instance are only ever
/// made from these bytes in this store.
pub struct WasmPlugin {
    source: Vec<u8>,
    store: wasmer::Store,
    module: Option<wasmer::Module>,
    instance: Option<wasmer::Instance>,
    calls: Ghost<Seq<CallRecord>>,
}

impl WasmPlugin {
    /// The module bytes.
    pub closed spec fn source_view(&self) -> Seq<u8> {
        self.source@
    }

    /// Whether the bytes have been compiled.
    pub closed spec fn compiled(&self) -> bool {
        self.module is Some
    }

    /// Whether there is a live instance.
    pub closed spec fn instantiated(&self) -> bool {
        self.instance is Some
    }

    /// The calls made on the live instance since it was made, oldest first.
    pub closed spec fn history(&self) -> Seq<CallRecord> {
        self.calls@
    }

    /// Relies on `wasmer::Module::new` with this plugin's store, whose engine
    /// is the one `new_store` builds.
    #[verifier::external_body]
    fn compile_source(&self) -> (r: Result<wasmer::Module, wasmer::CompileError>)
        ensures
            r is Ok <==> wasm_compiles(self.source_view()),
    {
        wasmer::Module::new(&self.store, &self.source)
    }

    /// Relies on `wasmer::Imports::new`, `Imports::define`,
    /// `wasmer::Function::new_typed` (a host function calling `host_log`) and
    /// `wasmer::Instance::new`: the compiled module, made from this plugin's
    /// bytes, is instantiated in this plugin's store with `ns`.`name` as its
    /// only import.
    #[verifier::external_body]
    fn link(&mut self, ns: &str, name: &str) -> (r: Result<wasmer::Instance, wasmer::InstantiationError>)
        requires
            old(self).compiled(),
        ensures
            r is Ok <==> wasm_links(old(self).source_view(), ns@, name@),
            final(self).source_view() == old(self).source_view(),
            final(self).compiled(),
            final(self).instantiated() == old(self).instantiated(),
            final(self).history() == old(self).history(),
    {
        let mut imports = wasmer::Imports::new();
        imports.define(ns, name, wasmer::Function::new_typed(&mut self.store, || host_log()));
        wasmer::Instance::new(&mut self.store, self.module.as_ref().unwrap(), &imports)
    }

    /// Relies on `wasmer::Exports::iter` of the live instance: every export
    /// in the module's order, told apart into functions and the rest.
    #[verifier::external_body]
    fn export_list(&self) -> (r: Vec<(String, bool)>)
        requires
            self.instantiated(),
        ensures
            r@.map_values(|e: (String, bool)| (e.0@, e.1)) == wasm_exports(self.source_view()),
    {
        self.instance.as_ref().unwrap().exports.iter().map(|(n, e)| {
            (n.clone(), match e {
                wasmer::Extern::Function(_) => true,
                _ => false,
            })
        }).collect()
    }

    /// Relies on `wasmer::Exports::get_function` of the live instance and
    /// `wasmer::Function::call` in this plugin's store, with 32-bit integer
    /// arguments; a trap comes back as an error.
    #[verifier::external_body]
    fn call_export(&mut self, name: &str, args: &Vec<i32>) -> (r: Result<Result<Vec<WasmValue>, wasmer::RuntimeError>, wasmer::ExportError>)
        requires
            old(self).instantiated(),
        ensures
            r is Err <==> !is_listed(callable_names(wasm_exports(old(self).source_view())), name@),
            r matches Ok(Ok(vs)) ==> wasm_call(old(self).source_view(), old(self).history(), name@, args@) == Some(vs@),
            r matches Ok(Err(_)) ==> wasm_call(old(self).source_view(), old(self).history(), name@, args@) is None,
            final(self).source_view() == old(self).source_view(),
            final(self).compiled() == old(self).compiled(),
            final(self).instantiated(),
            final(self).history() == old(self).history(),
    {
        let params: Vec<wasmer::Value> = args.iter().map(|a| wasmer::Value::I32(*a)).collect();
        let function = self.instance.as_ref().unwrap().exports.get_function(name)?.clone();
        Ok(function.call(&mut self.store, &params).map(|results| {
            results.iter().map(|v| match v {
                wasmer::Value::I32(n) => WasmValue::I32(*n),
                wasmer::Value::I64(n) => WasmValue::I64(*n),
                _ => WasmValue::Other,
            }).collect()
        }))
    }

    /// Relies on `wasmer::Exports::get_memory` of the live instance,
    /// `Memory::view` in this plugin's store and `MemoryView::copy_to_vec`.
    #[verifier::external_body]
    fn memory_copy(&self, name: &str) -> (r: Option<Vec<u8>>)
        requires
            self.instantiated(),
        ensures
            match r {
                Some(b) => wasm_memory(self.source_view(), self.history(), name@) == Some(b@),
                None => wasm_memory(self.source_view(), self.history(), name@) is None,
            },
    {
        let memory = self.instance.as_ref().unwrap().exports.get_memory(name).ok()?;
        memory.view(&self.store).copy_to_vec().ok()
    }

    /// Creates a plugin with a fresh store; nothing is compiled yet.
    pub fn new(source: Vec<u8>) -> (r: Self)
        ensures
            r.source_view() == source@,
            !r.compiled(),
            !r.instantiated(),
    {
        WasmPlugin {
            source,
            store: new_store(STATIC_MEMORY_BOUND_PAGES, STATIC_MEMORY_GUARD_BYTES, DYNAMIC_MEMORY_GUARD_BYTES),
            module: None,
            instance: None,
            calls: Ghost(Seq::empty()),
        }
    }

    /// The module bytes.
    pub fn source(&self) -> (r: &Vec<u8>)
        ensures
            r@ == self.source_view(),
    {
        &self.source
    }

    /// Whether the bytes have been compiled.
    pub fn is_compiled(&self) -> (r: bool)
        ensures
            r == self.compiled(),
    {
        self.module.is_some()
    }

    /// Whether there is a live instance.
    pub fn is_instantiated(&self) -> (r: bool)
        ensures
            r == self.instantiated(),
    {
        self.instance.is_some()
    }

    /// Compiles the bytes into a module.
    pub fn compile(&mut self) -> (r: Result<(), WasmError>)
        ensures
            final(self).source_view() == old(self).source_view(),
            final(self).instantiated() == old(self).instantiated(),
            final(self).history() == old(self).history(),
            r is Ok <==> wasm_compiles(old(self).source_view()),
            r is Ok ==> final(self).compiled(),
            r is Err ==> (r matches Err(WasmError::Compile(_))) && final(self).compiled() == old(self).compiled(),
    {
        match self.compile_source() {
            Ok(module) => {
                self.module = Some(module);
                Ok(())
            },
            Err(_) => Err(WasmError::Compile("the module does not compile".to_string())),
        }
    }

    /// Compiles the bytes and links them against the host import `cms.log`
    /// into a new live instance, which has seen no call yet. On failure the
    /// previous instance, if any, stays.
    pub fn init_instance(&mut self) -> (r: Result<(), WasmError>)
        ensures
            final(self).source_view() == old(self).source_view(),
            r is Ok <==> wasm_instantiates(old(self).source_view()),
            r matches Err(WasmError::Compile(_)) <==> !wasm_compiles(old(self).source_view()),
            r matches Err(WasmError::Instance(_)) <==> wasm_compiles(old(self).source_view())
                && !wasm_links(old(self).source_view(), HOST_NAMESPACE@, HOST_LOG@),
            r is Ok ==> final(self).instantiated() && final(self).history() == Seq::<CallRecord>::empty(),
            r is Err ==> final(self).instantiated() == old(self).instantiated()
                && final(self).history() == old(self).history(),
    {
        match self.compile() {
            Ok(()) => {},
            Err(e) => { return Err(e); },
        }
        match self.link(HOST_NAMESPACE, HOST_LOG) {
            Ok(instance) => {
                self.instance = Some(instance);
                self.calls = Ghost(Seq::empty());
                Ok(())
            },
            Err(_) => Err(WasmError::Instance("the module could not be instantiated".to_string())),
        }
    }

    /// The names of the callable exports, in the module's order; empty before
    /// instantiation.
    pub fn export_names(&self) -> (r: Vec<String>)
        ensures
            !self.instantiated() ==> r@.len() == 0,
            self.instantiated() ==> r@.map_values(|s: String| s@) == callable_names(wasm_exports(self.source_view())),
    {
        if self.instance.is_none() {
            return Vec::new();
        }
        let all = self.export_list();
        let ghost exports = wasm_exports(self.source_view());
        let mut names: Vec<String> = Vec::new();
        let mut i: usize = 0;
        while i < all.len()
            invariant
                self.instantiated(),
                0 <= i <= all@.len(),
                all@.len() == exports.len(),
                forall|k: int| 0 <= k < all@.len() ==> (#[trigger] all@[k]).0@ == exports[k].0 && all@[k].1 == exports[k].1,
                names@.map_values(|s: String| s@) == callable_names(exports.subrange(0, i as int)),
            decreases all@.len() - i,
        {
            proof {
                assert(exports.subrange(0, i + 1).drop_last() =~= exports.subrange(0, i as int));
                assert(exports.subrange(0, i + 1).last() == exports[i as int]);
            }
            if all[i].1 {
                let ghost before = names@;
                names.push(all[i].0.clone());
                assert(names@.map_values(|s: String| s@) =~= before.map_values(|s: String| s@).push(all@[i as int].0@));
            }
            i = i + 1;
        }
        assert(exports.subrange(0, all@.len() as int) =~= exports);
        names
    }

    /// Calls the exported function `name` with 32-bit integer arguments.
    pub fn call(&mut self, name: &str, args: &Vec<i32>) -> (r: Result<Vec<WasmValue>, WasmError>)
        ensures
            final(self).source_view() == old(self).source_view(),
            final(self).instantiated() == old(self).instantiated(),
            !old(self).instantiated() ==> (r matches Err(WasmError::Export(_))) && final(self).history() == old(self).history(),
            old(self).instantiated() ==> {
                let exported = is_listed(callable_names(wasm_exports(old(self).source_view())), name@);
                let outcome = wasm_call(old(self).source_view(), old(self).history(), name@, args@);
                &&& (!exported ==> (r matches Err(WasmError::Export(_))) && final(self).history() == old(self).history())
                &&& (exported ==> final(self).history() == old(self).history().push((name@, args@)))
                &&& (exported && outcome is None ==> r matches Err(WasmError::Runtime(_)))
                &&& (exported && outcome is Some ==> (r matches Ok(vs) && vs@ == outcome->0))
            },
    {
        if self.instance.is_none() {
            return Err(WasmError::Export("the module is not instantiated".to_string()));
        }
        let ghost before = self.calls@;
        match self.call_export(name, args) {
            Ok(outcome) => {
                self.calls = Ghost(before.push((name@, args@)));
                match outcome {
                    Ok(values) => Ok(values),
                    Err(_) => Err(WasmError::Runtime("the function trapped".to_string())),
                }
            },
            Err(_) => Err(WasmError::Export("no exported function of that name".to_string())),
        }
    }

    /// A copy of the exported linear memory called `memory`, as the calls so
    /// far have left it.
    pub fn read_linear_memory(&self) -> (r: Result<Vec<u8>, WasmError>)
        ensures
            !self.instantiated() ==> r matches Err(WasmError::Export(_)),
            self.instantiated() ==> match wasm_memory(self.source_view(), self.history(), MEMORY_EXPORT@) {
                Some(m) => (r matches Ok(b) && b@ == m),
                None => r matches Err(WasmError::Export(_)),
            },
    {
        if self.instance.is_none() {
            return Err(WasmError::Export("the module is not instantiated".to_string()));
        }
        match self.memory_copy(MEMORY_EXPORT) {
            Some(bytes) => Ok(bytes),
            None => Err(WasmError::Export("no readable exported memory".to_string())),
        }
    }
}

} // verus!
