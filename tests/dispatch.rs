use plugin_host::config::{PluginAbi, PluginAbiFunction, PluginAbiParamType, PluginAbiResult, PluginConfig};
use plugin_host::dispatch::{
    c_string_bytes, decimal_text, dispatch, dispatch_published, marshal_number, marshal_text, resolve_function, run_descriptor,
    DispatchError, PluginCall,
};
use plugin_host::manager::{Plugin, PluginBuilder, PluginMetadata, PluginSystem, PluginSystemReader};
use plugin_host::router_error::{run_plugin_function, run_published_function, RouterError};
use plugin_host::wasm::{WasmError, WasmPlugin, WasmValue};

const ECHO: &str = r#"(module
  (memory (export "memory") 1)
  (data (i32.const 16) "hi\00")
  (func (export "get_msg") (result i32)
    i32.const 16))"#;

const COUNTER: &str = r#"(module
  (memory (export "memory") 1)
  (func (export "count") (result i32)
    (i32.store (i32.const 0) (i32.add (i32.load (i32.const 0)) (i32.const 1)))
    (i32.load (i32.const 0))))"#;

const ANSWER: &str = r#"(module
  (import "cms" "log" (func $log))
  (func (export "answer") (result i32)
    call $log
    i32.const 42))"#;

fn abi(functions: &[(&str, PluginAbiParamType)]) -> PluginAbi {
    PluginAbi {
        functions: functions
            .iter()
            .map(|(name, ty)| PluginAbiFunction { name: name.to_string(), result: PluginAbiResult { ty: *ty } })
            .collect(),
    }
}

fn config(name: &str, functions: &[(&str, PluginAbiParamType)]) -> PluginConfig<PluginMetadata> {
    PluginConfig {
        metadata: PluginMetadata { name: name.to_string(), version: "1.0".to_string() },
        abi: abi(functions),
    }
}

fn builder(name: &str, wat: &str, functions: &[(&str, PluginAbiParamType)]) -> PluginBuilder {
    PluginBuilder::new(config(name, functions), wat.as_bytes().to_vec())
}

fn run(name: &str, wat: &str, functions: &[(&str, PluginAbiParamType)], function: &str) -> Result<String, DispatchError> {
    run_descriptor(Some(builder(name, wat, functions)), &function.to_string())
}

#[test]
fn test_wasm_plugin() {
    let source = r#"(module
      (type $t0 (func (param i32) (result i32)))
      (func $add_one (export "add_one") (type $t0) (param $p0 i32) (result i32)
        local.get $p0
        i32.const 1
        i32.add))"#
        .to_string();

    let mut wasm_plugin = WasmPlugin::new(source.as_bytes().to_vec());
    wasm_plugin.init_instance().unwrap();

    assert_eq!(wasm_plugin.export_names(), vec!["add_one"]);

    let result = wasm_plugin.call("add_one", &vec![1]).unwrap();

    assert_eq!(result.get(0).unwrap(), &WasmValue::I32(2));
}

#[test]
fn plugin_test() {
    let plugin = PluginBuilder::new(
        PluginConfig { metadata: PluginMetadata { ..Default::default() }, abi: PluginAbi::default() },
        ECHO.as_bytes().to_vec(),
    );

    let mut wasm = plugin.build().unwrap();
    wasm.init_instance().unwrap();

    let mut buf: Vec<u8> = wasm.read_linear_memory().unwrap();
    buf.retain(|i| i != &0u8);

    let _res = match wasm.call("get_msg", &vec![]).unwrap().get(0).unwrap() {
        WasmValue::I32(n) => *n,
        _ => panic!("Expected i32"),
    };

    let mut string = buf.into_iter();
    while let Some(data) = string.next() {
        println!("{}", char::from(data));
    }
}

#[test]
fn echo_plugin_returns_its_text() {
    let (mut writer, reader) = PluginSystem::get_left_right();
    writer
        .add_from_config(ECHO.as_bytes().to_vec(), config("echo", &[("get_msg", PluginAbiParamType::String)]))
        .unwrap();
    writer.publish();
    assert_eq!(dispatch(&reader, &"echo".to_string(), &"get_msg".to_string()), Ok("hi".to_string()));
}

#[test]
fn module_without_exports_has_no_function() {
    let empty = "(module)";
    for name in ["get_msg", "memory", "", "anything"] {
        assert_eq!(run("empty", empty, &[(name, PluginAbiParamType::Number)], name), Err(DispatchError::FunctionNotFound));
    }
    assert_eq!(resolve_function(&vec![], &abi(&[("f", PluginAbiParamType::Number)]), &"f".to_string()), Err(DispatchError::FunctionNotFound));
}

#[test]
fn prefix_of_an_export_is_not_found() {
    let functions = [("get", PluginAbiParamType::String), ("get_msg", PluginAbiParamType::String)];
    assert_eq!(run("echo", ECHO, &functions, "get"), Err(DispatchError::FunctionNotFound));
    assert_eq!(
        resolve_function(&vec!["get_msg".to_string()], &abi(&functions), &"get".to_string()),
        Err(DispatchError::FunctionNotFound)
    );
    assert_eq!(
        resolve_function(&vec!["get_msg".to_string()], &abi(&functions), &"get_msg".to_string()),
        Ok(PluginAbiParamType::String)
    );
}

#[test]
fn each_dispatch_gets_a_fresh_instance() {
    let (mut writer, reader) = PluginSystem::get_left_right();
    writer.add_from_config(COUNTER.as_bytes().to_vec(), config("p", &[("count", PluginAbiParamType::Number)])).unwrap();
    writer.publish();
    for _ in 0..4 {
        assert_eq!(dispatch(&reader, &"p".to_string(), &"count".to_string()), Ok("1".to_string()));
    }
    let callers: Vec<PluginSystemReader> = (0..4).map(|_| PluginSystemReader(reader.0.clone())).collect();
    for caller in &callers {
        assert_eq!(dispatch(caller, &"p".to_string(), &"count".to_string()), Ok("1".to_string()));
    }
}

#[test]
fn number_result_renders_in_decimal() {
    assert_eq!(marshal_number(WasmValue::I32(42)), Ok("42".to_string()));
    assert_eq!(run("answer", ANSWER, &[("answer", PluginAbiParamType::Number)], "answer"), Ok("42".to_string()));
}

#[test]
fn decimal_text_edge_values() {
    assert_eq!(decimal_text(0), "0");
    assert_eq!(decimal_text(7), "7");
    assert_eq!(decimal_text(10), "10");
    assert_eq!(decimal_text(-5), "-5");
    assert_eq!(decimal_text(-120), "-120");
    assert_eq!(decimal_text(i64::MAX), "9223372036854775807");
    assert_eq!(decimal_text(i64::MIN), "-9223372036854775808");
    assert_eq!(marshal_number(WasmValue::I32(-1)), Ok("-1".to_string()));
    assert_eq!(marshal_number(WasmValue::I64(1 << 40)), Ok("1099511627776".to_string()));
    assert_eq!(marshal_number(WasmValue::Other), Err(DispatchError::AbiMismatch));
}

#[test]
fn text_is_read_up_to_the_terminator() {
    let memory = vec![b'a', b'b', 0, b'c', b'd'];
    assert_eq!(c_string_bytes(&memory, 0), vec![b'a', b'b']);
    assert_eq!(c_string_bytes(&memory, 2), Vec::<u8>::new());
    assert_eq!(c_string_bytes(&memory, 3), vec![b'c', b'd']);
    assert_eq!(c_string_bytes(&memory, 5), Vec::<u8>::new());
    assert_eq!(marshal_text(WasmValue::I32(3), &memory), Ok("cd".to_string()));
    assert_eq!(marshal_text(WasmValue::I32(5), &memory), Ok(String::new()));
    assert_eq!(marshal_text(WasmValue::I32(6), &memory), Err(DispatchError::OffsetOutOfRange));
    assert_eq!(marshal_text(WasmValue::I32(-1), &memory), Err(DispatchError::OffsetOutOfRange));
    assert_eq!(marshal_text(WasmValue::I64(0), &memory), Err(DispatchError::AbiMismatch));
}

#[test]
fn text_must_be_utf8() {
    let memory = vec![0xc3, 0xa9, 0, 0xff, 0xfe, 0];
    assert_eq!(marshal_text(WasmValue::I32(0), &memory), Ok("é".to_string()));
    assert_eq!(marshal_text(WasmValue::I32(3), &memory), Err(DispatchError::InvalidUtf8));
}

#[test]
fn dispatch_failures_have_their_kind() {
    assert_eq!(run_descriptor(None, &"f".to_string()), Err(DispatchError::PluginNotFound));
    assert_eq!(run("bad", "not a module", &[("f", PluginAbiParamType::Number)], "f"), Err(DispatchError::BuildFailed));
    let missing_import = r#"(module (import "env" "missing" (func)) (func (export "f") (result i32) i32.const 1))"#;
    assert_eq!(run("link", missing_import, &[("f", PluginAbiParamType::Number)], "f"), Err(DispatchError::LinkFailed));
    assert_eq!(run("echo", ECHO, &[], "get_msg"), Err(DispatchError::AbiMismatch));
    let trap = r#"(module (func (export "f") (result i32) unreachable))"#;
    assert_eq!(run("trap", trap, &[("f", PluginAbiParamType::Number)], "f"), Err(DispatchError::RuntimeTrap));
    let bad_text = r#"(module (memory (export "memory") 1) (data (i32.const 0) "\ff\00") (func (export "f") (result i32) i32.const 0))"#;
    assert_eq!(run("utf", bad_text, &[("f", PluginAbiParamType::String)], "f"), Err(DispatchError::InvalidUtf8));
    let far = r#"(module (memory (export "memory") 1) (func (export "f") (result i32) i32.const 70000))"#;
    assert_eq!(run("far", far, &[("f", PluginAbiParamType::String)], "f"), Err(DispatchError::OffsetOutOfRange));
    let nothing = r#"(module (func (export "f")))"#;
    assert_eq!(run("void", nothing, &[("f", PluginAbiParamType::Number)], "f"), Err(DispatchError::AbiMismatch));
}

#[test]
fn adapter_reports_its_errors() {
    let mut bad = WasmPlugin::new(b"not a module".to_vec());
    assert!(matches!(bad.compile(), Err(WasmError::Compile(_))));
    let mut fresh = WasmPlugin::new(ECHO.as_bytes().to_vec());
    assert!(fresh.export_names().is_empty());
    assert!(matches!(fresh.call("get_msg", &vec![]), Err(WasmError::Export(_))));
    fresh.init_instance().unwrap();
    let mut names = fresh.export_names();
    names.sort();
    assert_eq!(names, vec!["get_msg".to_string()]);
    assert!(matches!(fresh.call("nope", &vec![]), Err(WasmError::Export(_))));
    assert_eq!(fresh.read_linear_memory().unwrap().len(), 65536);
}

#[test]
fn router_errors_map_status_and_text() {
    let (mut writer, reader) = PluginSystem::get_left_right();
    writer.add_from_config(ECHO.as_bytes().to_vec(), config("echo", &[("get_msg", PluginAbiParamType::String)])).unwrap();
    writer.publish();
    let call = |name: &str, function: &str| PluginCall { name: name.to_string(), function_name: function.to_string() };

    assert_eq!(run_plugin_function(&reader, &call("echo", "get_msg")).unwrap(), "hi");

    let e = run_plugin_function(&reader, &call("nope", "get_msg")).unwrap_err();
    assert_eq!(e.status_code(), 404);
    assert_eq!(e.message(), "Plugin name nope not found!");

    let e = run_plugin_function(&reader, &call("echo", "get")).unwrap_err();
    assert_eq!(e.status_code(), 404);
    assert_eq!(e.message(), "Function name get not found!");

    let e = RouterError::from_dispatch(DispatchError::RuntimeTrap, &call("echo", "get_msg"));
    assert_eq!(e.status_code(), 500);
    assert_eq!(e.message(), "InternalError");
    assert_eq!(RouterError::Auth("a".to_string()).status_code(), 401);
    assert_eq!(RouterError::Expired("gone".to_string()).status_code(), 410);
    assert_eq!(RouterError::Expired("gone".to_string()).message(), "gone");
}


#[test]
fn dispatch_through_the_writer_view() {
    let (mut writer, _reader) = PluginSystem::get_left_right();
    writer.add_from_config(ECHO.as_bytes().to_vec(), config("echo", &[("get_msg", PluginAbiParamType::String)])).unwrap();
    assert_eq!(dispatch_published(&writer, &"echo".to_string(), &"get_msg".to_string()), Err(DispatchError::PluginNotFound));
    writer.publish();
    assert_eq!(dispatch_published(&writer, &"echo".to_string(), &"get_msg".to_string()), Ok("hi".to_string()));
    assert_eq!(dispatch_published(&writer, &"echo".to_string(), &"get".to_string()), Err(DispatchError::FunctionNotFound));
}

#[test]
fn separately_built_plugins_have_their_own_memory() {
    let plugin = builder("p", COUNTER, &[("count", PluginAbiParamType::Number)]);
    let mut first = plugin.build().unwrap();
    let mut second = plugin.build().unwrap();
    first.init_instance().unwrap();
    second.init_instance().unwrap();
    assert_eq!(first.call("count", &vec![]).unwrap(), vec![WasmValue::I32(1)]);
    assert_eq!(first.call("count", &vec![]).unwrap(), vec![WasmValue::I32(2)]);
    assert_eq!(first.read_linear_memory().unwrap()[0], 2);
    assert_eq!(second.read_linear_memory().unwrap()[0], 0);
    assert_eq!(second.call("count", &vec![]).unwrap(), vec![WasmValue::I32(1)]);
}

#[test]
fn missing_import_is_an_instance_error() {
    let missing_import = r#"(module (import "env" "missing" (func)) (func (export "f") (result i32) i32.const 1))"#;
    let mut w = WasmPlugin::new(missing_import.as_bytes().to_vec());
    assert!(matches!(w.init_instance(), Err(WasmError::Instance(_))));
    assert!(!w.is_instantiated());
    let mut bad = WasmPlugin::new(b"(module".to_vec());
    assert!(matches!(bad.init_instance(), Err(WasmError::Compile(_))));
    assert!(!bad.is_compiled());
    let mut host = WasmPlugin::new(ANSWER.as_bytes().to_vec());
    host.init_instance().unwrap();
    assert_eq!(host.export_names(), vec!["answer".to_string()]);
    assert!(matches!(host.read_linear_memory(), Err(WasmError::Export(_))));
}

#[test]
fn published_requests_are_answered_from_the_writer_view() {
    let (mut writer, _reader) = PluginSystem::get_left_right();
    writer.add_from_config(ECHO.as_bytes().to_vec(), config("echo", &[("get_msg", PluginAbiParamType::String)])).unwrap();
    writer.add_from_config("(module)".as_bytes().to_vec(), config("empty", &[("f", PluginAbiParamType::Number)])).unwrap();
    writer.publish();
    let call = |name: &str, function: &str| PluginCall { name: name.to_string(), function_name: function.to_string() };
    assert_eq!(run_published_function(&writer, &call("echo", "get_msg")).unwrap(), "hi");
    let e = run_published_function(&writer, &call("empty", "f")).unwrap_err();
    assert_eq!(e.status_code(), 404);
    assert_eq!(e.message(), "Function name f not found!");
    let e = run_published_function(&writer, &call("echo", "get")).unwrap_err();
    assert_eq!(e.message(), "Function name get not found!");
    let e = run_published_function(&writer, &call("none", "get_msg")).unwrap_err();
    assert_eq!(e.message(), "Plugin name none not found!");
}
