use pe_vm::registry::error::RegistryError;
use pe_vm::registry::value::RegistryValue;
use pe_vm::registry::yaml::{YamlNode, YamlNumber};

fn number(as_u64: Option<u64>, as_i64: Option<i64>) -> YamlNode {
    YamlNode::Number(YamlNumber { as_u64, as_i64 })
}

#[test]
fn test_registry_value_string() {
    let value = RegistryValue::String("test".to_string());
    if let RegistryValue::String(s) = value {
        assert_eq!(s, "test");
    } else {
        panic!("Expected String");
    }
}

#[test]
fn test_registry_value_dword() {
    let value = RegistryValue::Dword(42);
    if let RegistryValue::Dword(d) = value {
        assert_eq!(d, 42);
    } else {
        panic!("Expected Dword");
    }
}

#[test]
fn test_registry_value_multistring() {
    let value = RegistryValue::MultiString(vec!["one".to_string(), "two".to_string()]);
    if let RegistryValue::MultiString(v) = value {
        assert_eq!(v.len(), 2);
        assert_eq!(v[0], "one");
        assert_eq!(v[1], "two");
    } else {
        panic!("Expected MultiString");
    }
}

#[test]
fn test_registry_value_binary() {
    let value = RegistryValue::Binary(vec![0x01, 0x02, 0x03]);
    if let RegistryValue::Binary(b) = value {
        assert_eq!(b, vec![0x01, 0x02, 0x03]);
    } else {
        panic!("Expected Binary");
    }
}

#[test]
fn test_registry_value_from_yaml_string() {
    let yaml = YamlNode::String("hello".to_string());
    let value = RegistryValue::from_yaml(&yaml).unwrap();
    assert_eq!(value, RegistryValue::String("hello".to_string()));
}

#[test]
fn test_registry_value_from_yaml_number() {
    let yaml = number(Some(123), Some(123));
    let value = RegistryValue::from_yaml(&yaml).unwrap();
    assert_eq!(value, RegistryValue::Dword(123));
}

#[test]
fn test_registry_value_from_yaml_string_sequence() {
    let yaml = YamlNode::Sequence(vec![YamlNode::String("a".to_string()), YamlNode::String("b".to_string())]);
    let value = RegistryValue::from_yaml(&yaml).unwrap();
    assert_eq!(value, RegistryValue::MultiString(vec!["a".to_string(), "b".to_string()]));
}

#[test]
fn test_registry_value_from_yaml_binary_sequence() {
    let yaml = YamlNode::Sequence(vec![number(Some(1), Some(1)), number(Some(2), Some(2)), number(Some(255), Some(255))]);
    let value = RegistryValue::from_yaml(&yaml).unwrap();
    assert_eq!(value, RegistryValue::Binary(vec![1, 2, 255]));
}

#[test]
fn test_registry_value_from_yaml_invalid_binary() {
    let yaml = YamlNode::Sequence(vec![number(Some(256), Some(256))]);
    let result = RegistryValue::from_yaml(&yaml);
    assert!(result.is_err());
}

#[test]
fn test_registry_value_from_yaml_unsupported() {
    let yaml = YamlNode::Bool(true);
    let result = RegistryValue::from_yaml(&yaml);
    assert!(result.is_err());
}

#[test]
fn yaml_number_is_kept_in_32_bits() {
    let yaml = number(Some(0x1_0000_0005), Some(0x1_0000_0005));
    assert_eq!(RegistryValue::from_yaml(&yaml).unwrap(), RegistryValue::Dword(5));
}

#[test]
fn yaml_negative_number_is_invalid() {
    let yaml = number(None, Some(-1));
    match RegistryValue::from_yaml(&yaml) {
        Err(RegistryError::InvalidValue(msg)) => assert_eq!(msg, "invalid number"),
        other => panic!("unexpected {:?}", other),
    }
}

#[test]
fn yaml_mixed_sequence_is_unsupported() {
    let yaml = YamlNode::Sequence(vec![YamlNode::String("a".to_string()), number(Some(1), Some(1))]);
    match RegistryValue::from_yaml(&yaml) {
        Err(RegistryError::InvalidValue(msg)) => assert_eq!(msg, "unsupported sequence value"),
        other => panic!("unexpected {:?}", other),
    }
}

#[test]
fn yaml_tagged_strings_count_in_sequences() {
    let yaml = YamlNode::Sequence(vec![YamlNode::Tagged(Box::new(YamlNode::String("x".to_string())))]);
    assert_eq!(RegistryValue::from_yaml(&yaml).unwrap(), RegistryValue::MultiString(vec!["x".to_string()]));
}
