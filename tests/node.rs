use echonet_sensehat::adapter::{
    Adapter, DeviceClass, DisplayCommand, Step, AIR_PRESSURE_CODE, HUMIDITY_CODE, MONO_LIGHT_CODE,
    TEMPERATURE_CODE,
};
use echonet_sensehat::encoding::Sensor;
use echonet_sensehat::node::Node;
use echonet_sensehat::request::RequestKind;

#[test]
fn node_holds_four_objects() {
    let node = Node::new();
    let codes: Vec<u32> = node.devices().iter().map(|d| d.code).collect();
    assert_eq!(codes, vec![AIR_PRESSURE_CODE, TEMPERATURE_CODE, HUMIDITY_CODE, MONO_LIGHT_CODE]);
    assert_eq!(node.find(HUMIDITY_CODE), Some(2));
    assert_eq!(node.find(0x0EF001), None);
}

#[test]
fn node_routes_by_object_code() {
    let node = Node::new();
    assert_eq!(node.handle(HUMIDITY_CODE, RequestKind::Read, 0xE0, &vec![]), Step::Read(Sensor::Humidity));
    assert_eq!(node.handle(AIR_PRESSURE_CODE, RequestKind::Read, 0xE0, &vec![]), Step::Read(Sensor::Pressure));
    assert_eq!(
        node.handle(MONO_LIGHT_CODE, RequestKind::Write, 0x80, &vec![0x31]),
        Step::Display(DisplayCommand::Clear)
    );
    assert_eq!(node.handle(TEMPERATURE_CODE, RequestKind::Write, 0x80, &vec![0x31]), Step::Done(false));
}

#[test]
fn node_rejects_unknown_object() {
    let node = Node::new();
    assert_eq!(node.handle(0x0EF001, RequestKind::Read, 0x80, &vec![]), Step::Done(false));
    assert_eq!(Node::empty().handle(HUMIDITY_CODE, RequestKind::Read, 0x80, &vec![]), Step::Done(false));
}

#[test]
fn node_refuses_taken_code() {
    let mut node = Node::empty();
    assert!(node.register(Adapter::new(DeviceClass::Humidity)));
    assert!(!node.register(Adapter::new(DeviceClass::Humidity)));
    assert!(!node.register(Adapter { class: DeviceClass::Temperature, code: HUMIDITY_CODE }));
    assert!(node.register(Adapter::new(DeviceClass::Temperature)));
    assert_eq!(node.devices().len(), 2);
}
