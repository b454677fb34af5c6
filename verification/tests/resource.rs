use etw_trace::span::{AttrValue, ResourceAttributes};

fn text_pair(k: &str, v: &str) -> (String, AttrValue) {
    (k.to_string(), AttrValue::Text(v.to_string()))
}

#[test]
fn test_resource_attributes_extraction() {
    let pairs = vec![
        text_pair("service.name", "test_service"),
        text_pair("service.namespace", "test_namespace"),
        text_pair("service.instance.id", "test_instance"),
        text_pair("service.version", "1.0.0"),
        text_pair("custom.attribute", "custom_value"),
    ];
    let resource_attrs = ResourceAttributes::from_resource(pairs);

    assert_eq!(resource_attrs.service_name(), "test_service");
    assert_eq!(resource_attrs.service_namespace(), Some("test_namespace"));
    assert_eq!(resource_attrs.service_instance_id(), Some("test_instance"));
    assert_eq!(resource_attrs.service_version(), Some("1.0.0"));

    let custom_attr = resource_attrs.attribute("custom.attribute");
    assert!(custom_attr.is_some());
    assert_eq!(
        custom_attr.unwrap(),
        &AttrValue::Text("custom_value".to_string())
    );
}

#[test]
fn test_resource_service_name_default() {
    let empty = ResourceAttributes::from_resource(Vec::new());
    assert_eq!(empty.service_name(), "unknown_service");
    assert_eq!(empty.service_version(), None);
    assert_eq!(empty.service_version_or_empty(), "");

    let named = ResourceAttributes::from_resource(vec![text_pair("service.name", "orders")]);
    assert_eq!(named.service_name(), "orders");
    assert_eq!(named.service_version_or_empty(), "");
}

#[test]
fn test_resource_last_write_wins() {
    let pairs = vec![
        text_pair("service.name", "first"),
        text_pair("region", "eu"),
        text_pair("service.name", "second"),
        text_pair("region", "us"),
    ];
    let resource_attrs = ResourceAttributes::from_resource(pairs);
    assert_eq!(resource_attrs.service_name(), "second");
    assert_eq!(
        resource_attrs.attribute("region"),
        Some(&AttrValue::Text("us".to_string()))
    );
    assert_eq!(resource_attrs.attributes().len(), 1);
}

#[test]
fn test_resource_non_text_service_value_ignored() {
    let pairs = vec![("service.name".to_string(), AttrValue::Int(7))];
    let resource_attrs = ResourceAttributes::from_resource(pairs);
    assert_eq!(resource_attrs.service_name(), "unknown_service");
    assert!(resource_attrs.attribute("service.name").is_none());
}
