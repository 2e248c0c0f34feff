use plugin_host::config::{PluginAbi, PluginAbiFunction, PluginAbiParamType, PluginAbiResult, PluginConfig};
use plugin_host::manager::{ManagerError, Plugin, PluginBuilder, PluginMetadata, PluginSystem, SystemOp};

const MODULE: &str = r#"(module (func (export "f") (result i32) i32.const 1))"#;

fn named(name: &str, version: &str) -> PluginBuilder {
    PluginBuilder::new(
        PluginConfig {
            metadata: PluginMetadata { name: name.to_string(), version: version.to_string() },
            abi: PluginAbi {
                functions: vec![PluginAbiFunction {
                    name: "f".to_string(),
                    result: PluginAbiResult { ty: PluginAbiParamType::Number },
                }],
            },
        },
        MODULE.as_bytes().to_vec(),
    )
}

fn version_of(p: Option<PluginBuilder>) -> Option<String> {
    p.map(|p| p.metadata().version)
}

#[test]
fn published_registration_is_seen_by_every_reader() {
    let (mut writer, reader) = PluginSystem::get_left_right();
    let early = PluginSystem::get_left_right().1;
    drop(early);
    let before = reader.0.clone();
    writer.add(named("a", "1.0"));
    writer.add(named("b", "2.0"));
    writer.publish();
    let after = reader.0.clone();

    for factory in [before, after] {
        let r = plugin_host::manager::PluginSystemReader(factory);
        let a = r.get(&"a".to_string()).unwrap();
        assert_eq!(a.metadata().name, "a");
        assert_eq!(a.metadata().version, "1.0");
        assert_eq!(a.source(), MODULE.as_bytes().to_vec());
        assert_eq!(a.abi().functions[0].name, "f");
        assert_eq!(version_of(r.get(&"b".to_string())), Some("2.0".to_string()));
    }
    assert_eq!(version_of(writer.get(&"a".to_string())), Some("1.0".to_string()));
}

#[test]
fn appended_changes_are_invisible_until_publish() {
    let (mut writer, reader) = PluginSystem::get_left_right();
    writer.add(named("a", "1.0"));
    assert!(reader.get(&"a".to_string()).is_none());
    assert!(writer.get(&"a".to_string()).is_none());
    writer.publish();
    assert!(reader.get(&"a".to_string()).is_some());
    writer.add(named("c", "1.0"));
    assert!(reader.get(&"c".to_string()).is_none());
    writer.publish();
    assert!(reader.get(&"c".to_string()).is_some());
}

#[test]
fn removed_plugin_is_gone_after_publish() {
    let (mut writer, reader) = PluginSystem::get_left_right();
    writer.add(named("a", "1.0"));
    writer.add(named("b", "1.0"));
    writer.publish();
    writer.remove(named("a", "1.0"));
    assert!(reader.get(&"a".to_string()).is_some());
    writer.publish();
    assert!(reader.get(&"a".to_string()).is_none());
    assert!(writer.get(&"a".to_string()).is_none());
    assert!(reader.get(&"b".to_string()).is_some());
    writer.publish();
    assert!(reader.get(&"a".to_string()).is_none());
}

#[test]
fn last_insert_wins() {
    let (mut writer, reader) = PluginSystem::get_left_right();
    writer.append(SystemOp::New("A".to_string(), named("A", "d1")));
    writer.append(SystemOp::New("A".to_string(), named("A", "d2")));
    writer.publish();
    assert_eq!(version_of(reader.get(&"A".to_string())), Some("d2".to_string()));
    writer.append(SystemOp::New("A".to_string(), named("A", "d3")));
    writer.publish();
    writer.publish();
    assert_eq!(version_of(reader.get(&"A".to_string())), Some("d3".to_string()));
    assert_eq!(version_of(writer.get(&"A".to_string())), Some("d3".to_string()));
}

#[test]
fn unknown_name_is_a_miss() {
    let (mut writer, reader) = PluginSystem::get_left_right();
    assert!(reader.get(&"x".to_string()).is_none());
    writer.append(SystemOp::Remove("x".to_string()));
    writer.publish();
    assert!(reader.get(&"x".to_string()).is_none());
}

#[test]
fn malformed_plugins_are_not_registered() {
    let (mut writer, reader) = PluginSystem::get_left_right();
    let twice = PluginConfig {
        metadata: PluginMetadata { name: "dup".to_string(), version: "1".to_string() },
        abi: PluginAbi {
            functions: vec![
                PluginAbiFunction { name: "f".to_string(), result: PluginAbiResult { ty: PluginAbiParamType::Number } },
                PluginAbiFunction { name: "f".to_string(), result: PluginAbiResult { ty: PluginAbiParamType::String } },
            ],
        },
    };
    assert!(matches!(writer.add_from_config(MODULE.as_bytes().to_vec(), twice), Err(ManagerError::Config(_))));
    let plain = PluginConfig {
        metadata: PluginMetadata { name: "bad".to_string(), version: "1".to_string() },
        abi: PluginAbi::default(),
    };
    assert!(matches!(writer.add_from_config(b"\0asm garbage".to_vec(), plain.clone()), Err(ManagerError::Source(_))));
    assert!(writer.add_from_config(MODULE.as_bytes().to_vec(), plain).is_ok());
    writer.publish();
    assert!(reader.get(&"dup".to_string()).is_none());
    assert_eq!(version_of(reader.get(&"bad".to_string())), Some("1".to_string()));
}

#[test]
fn builder_describes_its_plugin() {
    let p = named("a", "1.0");
    assert_eq!(p.metadata().name, "a");
    assert_eq!(p.abi().functions.len(), 1);
    assert!(p.permissions().is_empty());
    assert!(p.routers().is_empty());
    let built = p.build().unwrap();
    assert_eq!(built.source(), &MODULE.as_bytes().to_vec());
    assert!(built.is_compiled());
    assert!(!built.is_instantiated());
    assert!(named_bad().build().is_err());
}

fn named_bad() -> PluginBuilder {
    PluginBuilder::new(PluginConfig::default(), vec![1, 2, 3])
}
