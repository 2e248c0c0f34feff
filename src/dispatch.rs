//! The dispatcher: resolves a (plugin, function) request, runs the function
//! in a freshly built instance and renders its result as text.
use vstd::prelude::*;
use vstd::string::*;

use crate::config::{abi_kind, AbiEntry, PluginAbi, PluginAbiParamType};
use crate::manager::PluginView;
use crate::manager::{Plugin, PluginBuilder, PluginSystemReader, PluginSystemWriter};
use crate::wasm::{
    callable_names, is_listed, wasm_call, wasm_compiles, wasm_exports, wasm_instantiates, wasm_links, wasm_memory,
    CallRecord, WasmError, WasmValue, HOST_LOG, HOST_NAMESPACE, MEMORY_EXPORT,
};

verus! {

/// A request to run a plugin's function.
#[derive(Clone, Debug)]
pub struct PluginCall {
    /// Name of the plugin.
    pub name: String,
    /// Name of the function to run.
    pub function_name: String,
}

/// Why a dispatch failed.
#[derive(Clone, Copy, Debug, PartialEq, Eq, Structural)]
pub enum DispatchError {
    PluginNotFound,
    BuildFailed,
    LinkFailed,
    FunctionNotFound,
    AbiMismatch,
    RuntimeTrap,
    InvalidUtf8,
    OffsetOutOfRange,
}

/// The text form of each name.
pub open spec fn names_of(v: Seq<String>) -> Seq<Seq<char>> {
    v.map_values(|s: String| s@)
}

/// How a requested function resolves against the exports and the ABI.
pub open spec fn resolution(exports: Seq<Seq<char>>, abi: Seq<AbiEntry>, name: Seq<char>) -> Result<PluginAbiParamType, DispatchError> {
    if !is_listed(exports, name) {
        Err(DispatchError::FunctionNotFound)
    } else {
        match abi_kind(abi, name) {
            Some(k) => Ok(k),
            None => Err(DispatchError::AbiMismatch),
        }
    }
}

/// Whether `name` equals one of `exports`, character for character.
pub fn has_export(exports: &Vec<String>, name: &String) -> (r: bool)
    ensures
        r == is_listed(names_of(exports@), name@),
{
    let mut i: usize = 0;
    while i < exports.len()
        invariant
            0 <= i <= exports@.len(),
            forall|k: int| 0 <= k < i ==> names_of(exports@)[k] != name@,
        decreases exports@.len() - i,
    {
        if exports[i] == *name {
            assert(names_of(exports@)[i as int] == name@);
            return true;
        }
        i = i + 1;
    }
    false
}

/// Resolves the requested function: it must be exported under exactly that
/// name and declared in the ABI, whose declaration gives the result kind.
pub fn resolve_function(exports: &Vec<String>, abi: &PluginAbi, function_name: &String) -> (r: Result<PluginAbiParamType, DispatchError>)
    ensures
        r == resolution(names_of(exports@), abi@, function_name@),
{
    if !has_export(exports, function_name) {
        return Err(DispatchError::FunctionNotFound);
    }
    match abi.kind_of(function_name) {
        Some(k) => Ok(k),
        None => Err(DispatchError::AbiMismatch),
    }
}

/// A module with no exports has no function to run, whatever the name and
/// whatever the ABI declares.
pub proof fn lemma_no_exports_no_function(abi: Seq<AbiEntry>, name: Seq<char>)
    ensures
        resolution(Seq::empty(), abi, name) == Err::<PluginAbiParamType, DispatchError>(DispatchError::FunctionNotFound),
{
}

/// Only an exact export name resolves: a name that differs from every export
/// in any character, a prefix of an export included, is not found.
pub proof fn lemma_only_exact_names_resolve(exports: Seq<Seq<char>>, abi: Seq<AbiEntry>, name: Seq<char>)
    ensures
        resolution(exports, abi, name) is Ok ==> exists|i: int| 0 <= i < exports.len() && #[trigger] exports[i] == name,
        (forall|i: int| 0 <= i < exports.len() ==> #[trigger] exports[i] != name)
            ==> resolution(exports, abi, name) == Err::<PluginAbiParamType, DispatchError>(DispatchError::FunctionNotFound),
{
}

/// The character of a decimal digit.
pub open spec fn digit_char(d: nat) -> char {
    if d == 0 { '0' }
    else if d == 1 { '1' }
    else if d == 2 { '2' }
    else if d == 3 { '3' }
    else if d == 4 { '4' }
    else if d == 5 { '5' }
    else if d == 6 { '6' }
    else if d == 7 { '7' }
    else if d == 8 { '8' }
    else { '9' }
}

/// The decimal digits of `n`, most significant first, without leading zeros.
pub open spec fn digits_of(n: nat) -> Seq<char>
    decreases n,
{
    if n < 10 {
        seq![digit_char(n)]
    } else {
        digits_of(n / 10) + seq![digit_char(n % 10)]
    }
}

/// `n` in decimal, with a leading minus sign when negative.
pub open spec fn decimal(n: int) -> Seq<char> {
    if n < 0 {
        seq!['-'] + digits_of((-n) as nat)
    } else {
        digits_of(n as nat)
    }
}

fn digit_str(d: u64) -> (r: &'static str)
    requires
        d < 10,
    ensures
        r@ == seq![digit_char(d as nat)],
{
    proof {
        reveal_strlit("0");
        reveal_strlit("1");
        reveal_strlit("2");
        reveal_strlit("3");
        reveal_strlit("4");
        reveal_strlit("5");
        reveal_strlit("6");
        reveal_strlit("7");
        reveal_strlit("8");
        reveal_strlit("9");
    }
    if d == 0 { "0" }
    else if d == 1 { "1" }
    else if d == 2 { "2" }
    else if d == 3 { "3" }
    else if d == 4 { "4" }
    else if d == 5 { "5" }
    else if d == 6 { "6" }
    else if d == 7 { "7" }
    else if d == 8 { "8" }
    else { "9" }
}

fn push_digits(s: &mut String, n: u64)
    ensures
        final(s)@ == old(s)@ + digits_of(n as nat),
    decreases n,
{
    if n >= 10 {
        push_digits(s, n / 10);
    }
    s.append(digit_str(n % 10));
    assert(final(s)@ =~= old(s)@ + digits_of(n as nat));
}

/// `n` rendered in decimal.
pub fn decimal_text(n: i64) -> (r: String)
    ensures
        r@ == decimal(n as int),
{
    let mut s = String::new();
    if n < 0 {
        proof {
            reveal_strlit("-");
        }
        s.append("-");
        let magnitude: u64 = if n == i64::MIN { 9223372036854775808u64 } else { (-n) as u64 };
        push_digits(&mut s, magnitude);
        assert(s@ =~= decimal(n as int));
    } else {
        push_digits(&mut s, n as u64);
        assert(s@ =~= decimal(n as int));
    }
    s
}

/// What a text result is, or why it failed.
pub open spec fn text_outcome(r: Result<String, DispatchError>) -> Result<Seq<char>, DispatchError> {
    match r {
        Ok(s) => Ok(s@),
        Err(e) => Err(e),
    }
}

/// A numeric result rendered as text.
pub open spec fn number_result(v: WasmValue) -> Result<Seq<char>, DispatchError> {
    match v {
        WasmValue::I32(n) => Ok(decimal(n as int)),
        WasmValue::I64(n) => Ok(decimal(n as int)),
        WasmValue::Other => Err(DispatchError::AbiMismatch),
    }
}

/// Renders a `Number` result: the integer in decimal.
pub fn marshal_number(v: WasmValue) -> (r: Result<String, DispatchError>)
    ensures
        text_outcome(r) == number_result(v),
{
    match v {
        WasmValue::I32(n) => Ok(decimal_text(n as i64)),
        WasmValue::I64(n) => Ok(decimal_text(n)),
        WasmValue::Other => Err(DispatchError::AbiMismatch),
    }
}

/// Where the zero-terminated string that starts at `i` ends: the first zero
/// byte at or after `i`, or the end of memory.
pub open spec fn text_end(mem: Seq<u8>, i: int) -> int
    decreases mem.len() - i,
{
    if i < 0 || i >= mem.len() || mem[i] == 0 {
        i
    } else {
        text_end(mem, i + 1)
    }
}

/// The bytes of the zero-terminated string at `offset`, terminator excluded.
pub open spec fn c_string_at(mem: Seq<u8>, offset: int) -> Seq<u8> {
    mem.subrange(offset, text_end(mem, offset))
}

/// The bytes from `offset` up to the first zero byte or the end of memory.
pub fn c_string_bytes(memory: &Vec<u8>, offset: usize) -> (r: Vec<u8>)
    requires
        offset <= memory@.len(),
    ensures
        r@ == c_string_at(memory@, offset as int),
{
    let mut end: usize = offset;
    while end < memory.len() && memory[end] != 0
        invariant
            offset <= end <= memory@.len(),
            text_end(memory@, offset as int) == text_end(memory@, end as int),
            forall|k: int| offset <= k < end ==> memory@[k] != 0,
        decreases memory@.len() - end,
    {
        end = end + 1;
    }
    let mut r: Vec<u8> = Vec::new();
    let mut i: usize = offset;
    while i < end
        invariant
            offset <= i <= end <= memory@.len(),
            text_end(memory@, offset as int) == end as int,
            r@ == memory@.subrange(offset as int, i as int),
        decreases end - i,
    {
        r.push(memory[i]);
        i = i + 1;
        assert(r@ =~= memory@.subrange(offset as int, i as int));
    }
    r
}

/// The text that UTF-8 decoding gives for these bytes, if they are valid.
pub uninterp spec fn utf8_decoded(bytes: Seq<u8>) -> Option<Seq<char>>;

/// Relies on `String::from_utf8`: the bytes decoded as UTF-8, or an error when
/// they are not valid UTF-8.
#[verifier::external_body]
fn decode_utf8(bytes: Vec<u8>) -> (r: Option<String>)
    ensures
        match r {
            Some(s) => utf8_decoded(bytes@) == Some(s@),
            None => utf8_decoded(bytes@) is None,
        },
{
    String::from_utf8(bytes).ok()
}

/// A 32-bit value read as an unsigned memory offset.
pub open spec fn offset_of(p: i32) -> int {
    if p >= 0 { p as int } else { p as int + 0x1_0000_0000 }
}

/// A text result: the value is the offset of a zero-terminated UTF-8 string
/// in the linear memory.
pub open spec fn text_result(v: WasmValue, mem: Seq<u8>) -> Result<Seq<char>, DispatchError> {
    match v {
        WasmValue::I32(p) => if offset_of(p) > mem.len() {
            Err(DispatchError::OffsetOutOfRange)
        } else {
            match utf8_decoded(c_string_at(mem, offset_of(p))) {
                Some(s) => Ok(s),
                None => Err(DispatchError::InvalidUtf8),
            }
        },
        _ => Err(DispatchError::AbiMismatch),
    }
}

/// Renders a `String` result: reads the zero-terminated string at the
/// returned offset and decodes it as UTF-8.
pub fn marshal_text(v: WasmValue, memory: &Vec<u8>) -> (r: Result<String, DispatchError>)
    ensures
        text_outcome(r) == text_result(v, memory@),
{
    match v {
        WasmValue::I32(p) => {
            let offset: u64 = if p >= 0 { p as u64 } else { (p as i64 + 0x1_0000_0000i64) as u64 };
            if offset > memory.len() as u64 {
                return Err(DispatchError::OffsetOutOfRange);
            }
            let bytes = c_string_bytes(memory, offset as usize);
            match decode_utf8(bytes) {
                Some(s) => Ok(s),
                None => Err(DispatchError::InvalidUtf8),
            }
        },
        _ => Err(DispatchError::AbiMismatch),
    }
}

/// The rendered result of a call, given its results and, for text, the
/// memory it left. Text from a module without a readable `memory` export is
/// out of range of any offset.
pub open spec fn marshal_result(kind: PluginAbiParamType, results: Seq<WasmValue>, mem: Option<Seq<u8>>) -> Result<Seq<char>, DispatchError> {
    if results.len() == 0 {
        Err(DispatchError::AbiMismatch)
    } else {
        match kind {
            PluginAbiParamType::Number => number_result(results[0]),
            PluginAbiParamType::String => match mem {
                Some(m) => text_result(results[0], m),
                None => Err(DispatchError::OffsetOutOfRange),
            },
        }
    }
}

/// The one call a dispatch makes: the function, with no arguments.
pub open spec fn only_call(name: Seq<char>) -> Seq<CallRecord> {
    seq![(name, Seq::<i32>::empty())]
}

/// What dispatching `name` to the descriptor `d` gives. Each dispatch builds
/// a fresh instance, so the call sees the module's freshly initialised state
/// (an empty history) and the memory read after it has seen that call alone.
pub open spec fn expected_dispatch(d: PluginView, name: Seq<char>) -> Result<Seq<char>, DispatchError> {
    let src = d.source;
    if !wasm_compiles(src) {
        Err(DispatchError::BuildFailed)
    } else if !wasm_links(src, HOST_NAMESPACE@, HOST_LOG@) {
        Err(DispatchError::LinkFailed)
    } else {
        match resolution(callable_names(wasm_exports(src)), d.abi, name) {
            Err(e) => Err(e),
            Ok(kind) => match wasm_call(src, Seq::empty(), name, Seq::empty()) {
                None => Err(DispatchError::RuntimeTrap),
                Some(values) => marshal_result(kind, values, wasm_memory(src, only_call(name), MEMORY_EXPORT@)),
            },
        }
    }
}

/// What a dispatch over the looked-up descriptor `found` gives.
pub open spec fn dispatch_outcome(found: Option<PluginBuilder>, function_name: Seq<char>, r: Result<String, DispatchError>) -> bool {
    match found {
        None => r == Err::<String, DispatchError>(DispatchError::PluginNotFound),
        Some(d) => text_outcome(r) == expected_dispatch(d@, function_name),
    }
}

/// A result that a dispatch of `function_name` gives for some descriptor, or
/// for none.
pub open spec fn possible_dispatch(function_name: Seq<char>, r: Result<String, DispatchError>) -> bool {
    exists|found: Option<PluginBuilder>| #[trigger] dispatch_outcome(found, function_name, r)
}

/// Runs `function_name` of the descriptor `found`, if any, in a freshly
/// built instance, with no arguments, and renders its result.
pub fn run_descriptor(found: Option<PluginBuilder>, function_name: &String) -> (r: Result<String, DispatchError>)
    ensures
        dispatch_outcome(found, function_name@, r),
{
    let plugin = match found {
        Some(p) => p,
        None => { return Err(DispatchError::PluginNotFound); },
    };
    let ghost d = plugin@;
    let mut wasm = match plugin.build() {
        Ok(w) => w,
        Err(_) => { return Err(DispatchError::BuildFailed); },
    };
    match wasm.init_instance() {
        Ok(()) => {},
        Err(_) => { return Err(DispatchError::LinkFailed); },
    }
    let exports = wasm.export_names();
    assert(names_of(exports@) == exports@.map_values(|s: String| s@));
    let kind = match resolve_function(&exports, plugin.abi_ref(), function_name) {
        Ok(k) => k,
        Err(e) => { return Err(e); },
    };
    proof {
        assert(is_listed(names_of(exports@), function_name@));
        let i = choose|i: int| 0 <= i < names_of(exports@).len() && names_of(exports@)[i] == function_name@;
        assert(is_listed(callable_names(wasm_exports(d.source)), function_name@)) by {
            assert(callable_names(wasm_exports(d.source))[i] == function_name@);
        }
    }
    let args: Vec<i32> = Vec::new();
    assert(args@ =~= Seq::<i32>::empty());
    let results = match wasm.call(function_name.as_str(), &args) {
        Ok(values) => values,
        Err(_) => { return Err(DispatchError::RuntimeTrap); },
    };
    assert(wasm.history() =~= only_call(function_name@));
    if results.len() == 0 {
        return Err(DispatchError::AbiMismatch);
    }
    match kind {
        PluginAbiParamType::Number => marshal_number(results[0]),
        PluginAbiParamType::String => {
            match wasm.read_linear_memory() {
                Ok(memory) => marshal_text(results[0], &memory),
                Err(_) => Err(DispatchError::OffsetOutOfRange),
            }
        },
    }
}

/// Looks `plugin_name` up in the registry snapshot published at the time of
/// the call, then runs `function_name` as `run_descriptor` does.
pub fn dispatch(reader: &PluginSystemReader, plugin_name: &String, function_name: &String) -> (r: Result<String, DispatchError>)
    ensures
        possible_dispatch(function_name@, r),
{
    let found = reader.get(plugin_name);
    run_descriptor(found, function_name)
}

/// Dispatches through the writer's view of the registry: the descriptor
/// published under `plugin_name`, as every reader sees it.
pub fn dispatch_published(writer: &PluginSystemWriter, plugin_name: &String, function_name: &String) -> (r: Result<String, DispatchError>)
    ensures
        writer.published().contains_key(plugin_name@) ==> text_outcome(r) == expected_dispatch(
            writer.published()[plugin_name@],
            function_name@,
        ),
        !writer.published().contains_key(plugin_name@) ==> r == Err::<String, DispatchError>(DispatchError::PluginNotFound),
{
    let found = writer.get(plugin_name);
    run_descriptor(found, function_name)
}

/// A module that instantiates but exports no function answers every name with
/// `FunctionNotFound`, whatever its ABI declares.
pub proof fn lemma_dispatch_without_exports(d: PluginView, name: Seq<char>)
    requires
        wasm_instantiates(d.source),
        callable_names(wasm_exports(d.source)).len() == 0,
    ensures
        expected_dispatch(d, name) == Err::<Seq<char>, DispatchError>(DispatchError::FunctionNotFound),
{
}

/// For a module that instantiates, a dispatch answers `FunctionNotFound`
/// exactly when no callable export is equal to the requested name; a prefix
/// or any other near match does not count.
pub proof fn lemma_dispatch_exact_names(d: PluginView, name: Seq<char>)
    requires
        wasm_instantiates(d.source),
    ensures
        expected_dispatch(d, name) == Err::<Seq<char>, DispatchError>(DispatchError::FunctionNotFound)
            <==> !is_listed(callable_names(wasm_exports(d.source)), name),
{
}

/// Dispatches never share an instance: two dispatches of one descriptor and
/// one name give the same result, the one a freshly initialised instance
/// gives, whatever ran before.
pub proof fn lemma_dispatches_are_independent(found: Option<PluginBuilder>, name: Seq<char>, r1: Result<String, DispatchError>, r2: Result<String, DispatchError>)
    requires
        dispatch_outcome(found, name, r1),
        dispatch_outcome(found, name, r2),
    ensures
        text_outcome(r1) == text_outcome(r2),
{
}

} // verus!
