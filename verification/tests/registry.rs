use pe_vm::registry::key::RegistryKey;
use pe_vm::registry::reg_file::parse::merge_reg_str;
use pe_vm::registry::store::{Registry, RegistryMergeMode};
use pe_vm::registry::value::RegistryValue;
use pe_vm::registry::yaml::{load_from_yml, YamlNode, YamlNumber};
use pe_vm::registry::{load_from_registry, try_load_from_registry};

fn s(text: &str) -> RegistryValue {
    RegistryValue::String(text.to_string())
}

#[test]
fn set_then_get_returns_value() {
    let mut reg = Registry::new();
    reg.set("HKLM\\Software\\Test@Version", s("1.0")).unwrap();
    assert_eq!(reg.get("HKLM\\Software\\Test@Version").unwrap(), Some(&s("1.0")));
    assert_eq!(reg.get("HKLM\\Software\\Test@Other").unwrap(), None);
}

#[test]
fn lookup_ignores_ascii_case() {
    let mut reg = Registry::new();
    reg.set("HKCU\\Software\\MyApp@Name", RegistryValue::Dword(7)).unwrap();
    assert_eq!(reg.get("hkcu\\SOFTWARE\\myapp@NAME").unwrap(), Some(&RegistryValue::Dword(7)));
}

#[test]
fn set_overwrites_and_append_keeps() {
    let mut reg = Registry::new();
    assert!(reg.append("HKLM\\Software\\A@x", RegistryValue::Dword(1)).unwrap());
    assert!(!reg.append("HKLM\\Software\\A@x", RegistryValue::Dword(2)).unwrap());
    assert_eq!(reg.get("HKLM\\Software\\A@x").unwrap(), Some(&RegistryValue::Dword(1)));
    reg.set("HKLM\\Software\\A@x", RegistryValue::Dword(3)).unwrap();
    assert_eq!(reg.get("HKLM\\Software\\A@x").unwrap(), Some(&RegistryValue::Dword(3)));
}

#[test]
fn set_creates_ancestors_and_lists_subkeys() {
    let mut reg = Registry::new();
    reg.set("HKLM\\Software\\Vendor\\Product\\Sub@v", RegistryValue::Dword(1)).unwrap();
    reg.set("HKLM\\Software\\Vendor\\Alpha@v", RegistryValue::Dword(1)).unwrap();
    assert_eq!(reg.subkeys("HKLM\\Software\\Vendor").unwrap(), vec!["ALPHA".to_string(), "PRODUCT".to_string()]);
    assert!(reg.stats("HKLM\\Software\\Vendor\\Product", false).is_ok());
    assert!(reg.stats("HKLM\\Software\\Missing", false).is_err());
}

#[test]
fn defaults_hold_software_classes() {
    let reg = Registry::with_defaults();
    assert_eq!(reg.subkeys("HKLM\\Software").unwrap(), vec!["CLASSES".to_string()]);
    assert_eq!(reg.subkeys("HKCU\\Software").unwrap(), vec!["CLASSES".to_string()]);
    assert!(reg.subkeys("HKCR").unwrap().is_empty());
}

#[test]
fn stats_count_values_and_lengths() {
    let mut reg = Registry::new();
    reg.set("HKLM\\Software\\S@name", s("abc")).unwrap();
    reg.set("HKLM\\Software\\S@", RegistryValue::Binary(vec![1, 2, 3, 4, 5])).unwrap();
    reg.set("HKLM\\Software\\S\\Child@x", RegistryValue::Dword(0)).unwrap();
    let st = reg.stats("HKLM\\Software\\S", false).unwrap();
    assert_eq!(st.subkey_count, 1);
    assert_eq!(st.max_subkey_len, 5);
    assert_eq!(st.value_count, 2);
    assert_eq!(st.max_value_name_len, 4);
    assert_eq!(st.max_value_len, 5);
    let wide = reg.stats("HKLM\\Software\\S", true).unwrap();
    assert_eq!(wide.max_value_len, 8);
}

#[test]
fn reg_file_values() {
    let mut reg = Registry::new();
    let text = "REGEDIT4\n\n[HKEY_LOCAL_MACHINE\\Software\\Demo]\n@=\"default\"\n\"Count\"=dword:0000002a\n\"Bytes\"=hex:01,02,ff\n\"Multi\"=hex(7):61,00,00,00,62,00,00,00,00,00\n";
    merge_reg_str(&mut reg, text, RegistryMergeMode::Overwrite).unwrap();
    assert_eq!(reg.get("HKLM\\Software\\Demo").unwrap(), Some(&s("default")));
    assert_eq!(reg.get("HKLM\\Software\\Demo@Count").unwrap(), Some(&RegistryValue::Dword(42)));
    assert_eq!(reg.get("HKLM\\Software\\Demo@Bytes").unwrap(), Some(&RegistryValue::Binary(vec![1, 2, 0xff])));
    assert_eq!(
        reg.get("HKLM\\Software\\Demo@Multi").unwrap(),
        Some(&RegistryValue::MultiString(vec!["a".to_string(), "b".to_string()]))
    );
}

#[test]
fn reg_file_append_mode_keeps_existing() {
    let mut reg = Registry::new();
    reg.set("HKLM\\Software\\Demo@Count", RegistryValue::Dword(1)).unwrap();
    let text = "[HKEY_LOCAL_MACHINE\\Software\\Demo]\n\"Count\"=dword:00000002\n";
    merge_reg_str(&mut reg, text, RegistryMergeMode::Append).unwrap();
    assert_eq!(reg.get("HKLM\\Software\\Demo@Count").unwrap(), Some(&RegistryValue::Dword(1)));
}

#[test]
fn reg_file_bad_dword_is_an_error() {
    let mut reg = Registry::new();
    let text = "[HKEY_LOCAL_MACHINE\\Software\\Demo]\n\"Count\"=dword:zz\n";
    assert!(merge_reg_str(&mut reg, text, RegistryMergeMode::Overwrite).is_err());
}

#[test]
fn load_from_registry_utf16() {
    let text = "Windows Registry Editor Version 5.00\r\n[HKEY_CURRENT_USER\\Software\\W]\r\n\"Name\"=\"wide\"\r\n";
    let mut bytes = vec![0xFF, 0xFE];
    for unit in text.encode_utf16() {
        bytes.extend_from_slice(&unit.to_le_bytes());
    }
    let reg = load_from_registry(&bytes).unwrap();
    assert_eq!(reg.get("HKCU\\Software\\W@Name").unwrap(), Some(&s("wide")));
    assert_eq!(reg.subkeys("HKLM\\Software").unwrap(), vec!["CLASSES".to_string()]);
}

#[test]
fn load_from_registry_lone_quote_is_refused() {
    let text = "[HKEY_CURRENT_USER\\Software\\W]\n\"a\"=\"\n";
    assert!(try_load_from_registry(text.as_bytes()).is_none());
}

#[test]
fn key_parse_strips_value_after_at() {
    let key = RegistryKey::parse("HKCR\\CLSID\\{X}@InprocServer32").unwrap();
    assert_eq!(key.path, vec!["CLSID", "{X}"]);
}

fn map(entries: Vec<(&str, YamlNode)>) -> YamlNode {
    YamlNode::Mapping(entries.into_iter().map(|(k, v)| (YamlNode::String(k.to_string()), v)).collect())
}

#[test]
fn yaml_document_loads() {
    let doc = map(vec![(
        "HKLM",
        map(vec![(
            "Software",
            map(vec![(
                "Demo",
                map(vec![
                    ("@", YamlNode::String("default".to_string())),
                    ("Count", YamlNode::Number(YamlNumber { as_u64: Some(5), as_i64: Some(5) })),
                ]),
            )]),
        )]),
    )]);
    let reg = load_from_yml(&doc).unwrap();
    assert_eq!(reg.get("HKLM\\Software\\Demo").unwrap(), Some(&s("default")));
    assert_eq!(reg.get("HKLM\\Software\\Demo@Count").unwrap(), Some(&RegistryValue::Dword(5)));
}

#[test]
fn yaml_unknown_hive_is_an_error() {
    let doc = map(vec![("HKXX", map(vec![]))]);
    assert!(load_from_yml(&doc).is_err());
    assert!(load_from_yml(&YamlNode::Null).is_err());
}

#[test]
fn yaml_merge_append_keeps_existing() {
    let mut reg = Registry::new();
    reg.set("HKCU\\Software\\A@v", RegistryValue::Dword(1)).unwrap();
    let doc = map(vec![("HKCU", map(vec![("Software", map(vec![("A", map(vec![("v", YamlNode::String("x".to_string()))]))]))]))]);
    reg.merge_yaml_value(&doc, RegistryMergeMode::Append).unwrap();
    assert_eq!(reg.get("HKCU\\Software\\A@v").unwrap(), Some(&RegistryValue::Dword(1)));
    reg.merge_yaml_value(&doc, RegistryMergeMode::Overwrite).unwrap();
    assert_eq!(reg.get("HKCU\\Software\\A@v").unwrap(), Some(&s("x")));
}

#[test]
fn append_of_an_existing_value_changes_nothing() {
    let mut reg = Registry::new();
    reg.set("HKLM\\Software\\Vendor\\Name", s("first")).unwrap();
    assert_eq!(reg.append("hklm\\software\\vendor\\name", s("second")).unwrap(), false);
    assert_eq!(reg.get("HKLM\\Software\\Vendor\\Name").unwrap(), Some(&s("first")));
    assert_eq!(reg.subkeys("HKLM\\Software").unwrap(), vec!["CLASSES".to_string(), "VENDOR".to_string()]);
}

#[test]
fn subkeys_are_upper_case_and_empty_for_a_missing_key() {
    let mut reg = Registry::new();
    reg.set("HKCU\\Software\\lower\\Case\\v", s("x")).unwrap();
    assert_eq!(reg.subkeys("HKCU\\Software\\Lower").unwrap(), vec!["CASE".to_string()]);
    assert!(reg.subkeys("HKCU\\Software\\Missing").unwrap().is_empty());
}

#[test]
fn yaml_text_merges_into_the_registry() {
    let text = "HKLM:\n  Software:\n    Demo:\n      \"@\": default\n      Count: 5\n      Names: [a, b]\n";
    let reg = pe_vm::registry::load_from_yml(text).unwrap();
    assert_eq!(reg.get("HKLM\\Software\\Demo").unwrap(), Some(&s("default")));
    assert_eq!(reg.get("HKLM\\Software\\Demo@Count").unwrap(), Some(&RegistryValue::Dword(5)));
    assert_eq!(
        reg.get("HKLM\\Software\\Demo@Names").unwrap(),
        Some(&RegistryValue::MultiString(vec!["a".to_string(), "b".to_string()]))
    );
    let mut other = Registry::new();
    other.merge_yaml_str("HKCU:\n  Software:\n    A:\n      v: x\n", RegistryMergeMode::Overwrite).unwrap();
    assert_eq!(other.get("HKCU\\Software\\A@v").unwrap(), Some(&s("x")));
}

#[test]
fn yaml_text_that_does_not_parse_is_a_yaml_error() {
    let mut reg = Registry::new();
    let r = reg.merge_yaml_str("HKLM: [unclosed", RegistryMergeMode::Overwrite);
    assert!(matches!(r, Err(pe_vm::registry::error::RegistryError::Yaml(_))));
    assert!(matches!(pe_vm::registry::load_from_yml("HKLM: [unclosed"), Err(pe_vm::registry::error::RegistryError::Yaml(_))));
    assert!(reg.subkeys("HKLM\\Software").unwrap() == vec!["CLASSES".to_string()]);
}
