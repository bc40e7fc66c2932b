//! Tests of named ports, of the hub that provides them and of the stores.

use std::f64::consts::PI;

use dataport::bind::port_value::Content;
use dataport::collections::port_vec::finish_remove;
use dataport::port_array::PortArray;
use dataport::port_list::PortList;
use dataport::traits::decide_binding;
use dataport::{
    Error, Port, PortAccessors, PortBase, PortCommons, PortDataBase, PortHub, PortProvider,
    PortVariant,
};

fn is_normal<T: Sized + Send + Sync>() {}

const CONST_NAME: &str = "p2";
static STATIC_NAME: &str = "p3";

struct MyStruct {
    _f1: i32,
    _f2: f64,
    _f3: String,
    _f4: Vec<f64>,
}

#[test]
fn port_normal_types() {
    is_normal::<&Port>();
    is_normal::<Port>();
}

#[test]
fn port_hub_normal_types() {
    is_normal::<&PortHub>();
    is_normal::<PortHub>();
}

#[test]
fn port_base_normal_types() {
    is_normal::<PortBase>();
}

#[test]
fn port_data_base_normal_types() {
    is_normal::<PortDataBase>();
}

fn check_casting<
    T1: Send + Sync + 'static,
    T2: Send + Sync + 'static,
>(
    name: &str,
) {
    // create with T1
    let p1 = Port::create_in_port::<T1>(name);
    assert!(p1.as_in_value::<T1>().is_some());
    assert!(p1.as_in_value::<T2>().is_none());
    assert!(p1.as_out_value::<T1>().is_none());
    assert!(p1.as_out_value::<T2>().is_none());
    assert_eq!(p1.name(), name);

    let p2 = Port::create_out_port::<T1>(name);
    assert!(p2.as_in_value::<T1>().is_none());
    assert!(p2.as_in_value::<T2>().is_none());
    assert!(p2.as_out_value::<T1>().is_some());
    assert!(p2.as_out_value::<T2>().is_none());
    assert_eq!(p2.name(), name);

    let p3 = Port::create_inout_port::<T1>(name);
    assert!(p3.as_in_value::<T1>().is_some());
    assert!(p3.as_in_value::<T2>().is_none());
    assert!(p3.as_out_value::<T1>().is_some());
    assert!(p3.as_out_value::<T2>().is_none());
    assert!(p3.as_in_out_port::<T1>().is_some());
    assert!(p3.as_in_out_port::<T2>().is_none());
    assert!(p3.as_value::<T1>().is_some());
    assert!(p3.as_value::<T2>().is_none());
    assert_eq!(p3.name(), name);

    // create with T2
    let p1 = Port::create_in_port::<T2>(name);
    assert!(p1.as_in_value::<T2>().is_some());
    assert!(p1.as_in_value::<T1>().is_none());
    assert!(p1.as_out_value::<T2>().is_none());
    assert!(p1.as_out_value::<T1>().is_none());
    assert!(p1.as_in_out_port::<T2>().is_none());
    assert_eq!(p1.name(), name);

    let p2 = Port::create_out_port::<T2>(name);
    assert!(p2.as_in_value::<T2>().is_none());
    assert!(p2.as_in_value::<T1>().is_none());
    assert!(p2.as_out_value::<T2>().is_some());
    assert!(p2.as_out_value::<T1>().is_none());
    assert_eq!(p2.name(), name);

    let p3 = Port::create_inout_port::<T2>(name);
    assert!(p3.as_in_value::<T2>().is_some());
    assert!(p3.as_in_value::<T1>().is_none());
    assert!(p3.as_out_value::<T2>().is_some());
    assert!(p3.as_out_value::<T1>().is_none());
    assert_eq!(p3.name(), name);
}

// check casting.
#[test]
fn casting() {
    let p4_name = String::from("{p4}");
    check_casting::<i32, f64>("p1");
    check_casting::<String, MyStruct>(CONST_NAME);
    check_casting::<&str, String>(STATIC_NAME);
    check_casting::<Vec<Vec<String>>, Vec<String>>(p4_name.as_str());
}

// test constructors.
#[test]
fn port_hub_constructors() {
    let _s0 = PortHub::new(vec![]);
    let _s1 = PortHub::new(vec![Port::create_in_port::<i32>("p1")]);
    let _s2 = PortHub::new(vec![
        Port::create_in_port::<i32>("p1"),
        Port::create_in_port::<f64>(CONST_NAME),
    ]);
    let s3 = PortHub::new(vec![
        Port::create_in_port::<i32>("p1"),
        Port::create_in_port::<f64>(CONST_NAME),
        Port::create_in_port::<String>(STATIC_NAME),
    ]);
    assert_eq!(s3.len(), 3);
    assert!(PortHub::default().is_empty());
}

#[test]
fn port_hub_find() {
    let s = PortHub::new(vec![
        Port::create_in_port::<i32>("p1"),
        Port::create_in_port::<f64>(CONST_NAME),
        Port::create_in_port::<String>(STATIC_NAME),
    ]);

    assert!(s.find("p1").is_some());
    assert!(s.find(CONST_NAME).is_some());
    assert!(s.find("p2").is_some());
    assert_eq!(s.find("p2"), s.find(CONST_NAME));
    assert!(s.find(STATIC_NAME).is_some());
    assert!(s.find("p3").is_some());
    assert_eq!(s.find("p3"), s.find(STATIC_NAME));
    assert!(s.find("p_non_existent").is_none());
}

struct DynamicStruct {
    _other_field: i32,
    ports: PortHub,
}

/// Communication hubs need to 'provide' ports dynamically.
#[test]
fn port_hub_provisioning() {
    let mut s1 = DynamicStruct { _other_field: 1, ports: PortHub::default() };
    assert!(s1.ports.find("p1").is_none());
    assert!(s1.ports.find(CONST_NAME).is_none());
    assert!(s1.ports.find(STATIC_NAME).is_none());

    s1.ports.add(Port::create_in_port::<i32>("p1"));
    s1.ports.add(Port::create_inout_port::<f64>(CONST_NAME));
    s1.ports.add(Port::create_out_port::<String>(STATIC_NAME));

    let s2 = DynamicStruct {
        _other_field: 1,
        ports: PortHub::new(vec![
            Port::create_out_port::<String>(STATIC_NAME),
            Port::create_inout_port::<f64>(CONST_NAME),
            Port::create_in_port::<i32>("p1"),
        ]),
    };

    assert_eq!(s1.ports.find("p1"), s2.ports.find("p1"));
    assert_eq!(s1.ports.find("p2"), s2.ports.find("p2"));
    assert_eq!(s1.ports.find("p2"), s2.ports.find(CONST_NAME));
    assert_eq!(s1.ports.find("p3"), s2.ports.find("p3"));
    assert_eq!(s1.ports.find("p3"), s2.ports.find(STATIC_NAME));
    assert_ne!(s1.ports.find("p1"), s2.ports.find("p3"));

    let removed = s1.ports.remove("p2").unwrap();
    assert_eq!(removed.name(), "p2");
    assert!(s1.ports.find("p2").is_none());
    assert!(s1.ports.remove("p2").is_none());
    assert_eq!(s1.ports.len(), 2);
}

#[test]
fn port_hub_bind_get_and_set() {
    let portlist1 = PortHub::new(vec![
        Port::create_out_port::<i32>("p1a"),
        Port::create_out_port::<String>("p1b"),
        Port::create_out_port::<f64>("p1c"),
        Port::create_inout_port::<f64>("p1d"),
    ]);

    let mut portlist2 = PortHub::new(vec![
        Port::create_in_port::<i32>("p2a"),
        Port::create_in_port::<String>("p2b"),
        Port::create_inout_port::<f64>("p2c"),
        Port::create_in_port::<f64>("p2d"),
    ]);

    let res = portlist2.bind_to::<i32, PortHub>("p2a", &portlist1, "p1a");
    assert!(res.is_ok());

    assert!(portlist1.set::<i32>("p1a", 42).is_ok());
    assert_eq!(portlist2.get::<i32>("p2a").unwrap().unwrap(), 42);

    assert!(portlist1.set::<String>("p1b", String::from("hello world")).is_ok());

    assert!(portlist1.set::<f64>("p1c", PI).is_ok());
    assert!(portlist2.get::<f64>("p2c").unwrap().is_none());
    assert!(portlist1.get::<f64>("p1d").unwrap().is_none());

    assert!(portlist2.bind_to::<String, PortHub>("p2b", &portlist1, "p1b").is_ok());
    assert_eq!(portlist2.get::<String>("p2b").unwrap().unwrap(), String::from("hello world"));
    assert!(portlist2.bind_to::<f64, PortHub>("p2c", &portlist1, "p1c").is_ok());
    assert_eq!(portlist2.get::<f64>("p2c").unwrap().unwrap(), PI);
    assert_eq!(portlist2.sequence_number("p2c"), Ok(1));
}

#[test]
fn binding_by_names_says_what_is_wrong() {
    let sources = PortHub::new(vec![
        Port::create_out_port::<i32>("out"),
        Port::create_in_port::<i32>("in"),
    ]);
    let mut destinations = PortHub::new(vec![
        Port::create_in_port::<i32>("in"),
        Port::create_out_port::<i32>("out"),
        Port::create_in_port::<String>("text"),
    ]);
    assert_eq!(
        destinations.bind_to::<i32, PortHub>("in", &sources, "missing"),
        Err(Error::OtherNotFound)
    );
    assert_eq!(
        destinations.bind_to::<i32, PortHub>("in", &sources, "in"),
        Err(Error::WrongPortType)
    );
    assert_eq!(
        destinations.bind_to::<String, PortHub>("in", &sources, "out"),
        Err(Error::WrongDataType)
    );
    assert_eq!(
        destinations.bind_to::<i32, PortHub>("missing", &sources, "out"),
        Err(Error::NotFound)
    );
    assert_eq!(
        destinations.bind_to::<i32, PortHub>("out", &sources, "out"),
        Err(Error::WrongPortType)
    );
    assert_eq!(
        destinations.bind_to::<i32, PortHub>("text", &sources, "out"),
        Err(Error::WrongDataType)
    );
    assert_eq!(destinations.bind_to::<i32, PortHub>("in", &sources, "out"), Ok(()));
    assert!(sources.set("out", 7_i32).is_ok());
    assert_eq!(destinations.get::<i32>("in"), Ok(Some(7)));
    assert_eq!(destinations.take::<i32>("in"), Ok(Some(7)));
    assert_eq!(sources.replace("out", 8_i32), Ok(None));
    assert_eq!(destinations.read::<i32>("in").unwrap().value(), Some(&8));
    assert_eq!(destinations.get::<String>("in"), Err(Error::WrongDataType));
    assert_eq!(destinations.get::<i32>("nothing"), Err(Error::NotFound));
    assert_eq!(destinations.sequence_number("nothing"), Err(Error::NotFound));
}

/// Ports are partial equal, if their name & type is equal.
#[test]
fn concept_port_equality() {
    let p1a = Port::create_in_port::<i32>("p1");
    let p1b = Port::create_in_port::<i32>("p1");
    let p1c = Port::create_in_port::<f64>("p1");
    let p2a = Port::create_in_port::<i32>("p2");
    let p2b = Port::create_in_port::<i32>("p2");
    let p2c = Port::create_in_port::<f64>("p2");

    assert_eq!(p1a, p1b);
    assert_ne!(p1a, p1c);
    assert_ne!(p1a, p2a);
    assert_ne!(p1a, p2b);
    assert_ne!(p1a, p2c);
    assert_eq!(p2a, p2b);
    assert_ne!(p2a, p2c);
}

fn check_equality<T1: Send + Sync + 'static, T2: Send + Sync + 'static>(name1: &str, name2: &str) {
    // equal port type, equal data type and equal name
    assert_eq!(Port::create_in_port::<T1>(name1), Port::create_in_port::<T1>(name1));
    assert_eq!(Port::create_in_port::<T2>(name2), Port::create_in_port::<T2>(name2));
    assert_eq!(Port::create_inout_port::<T1>(name1), Port::create_inout_port::<T1>(name1));
    assert_eq!(Port::create_inout_port::<T2>(name2), Port::create_inout_port::<T2>(name2));
    assert_eq!(Port::create_out_port::<T1>(name1), Port::create_out_port::<T1>(name1));
    assert_eq!(Port::create_out_port::<T2>(name2), Port::create_out_port::<T2>(name2));
    // equal port type, equal data type and different name
    assert_ne!(Port::create_in_port::<T1>(name1), Port::create_in_port::<T1>(name2));
    assert_ne!(Port::create_inout_port::<T1>(name1), Port::create_inout_port::<T1>(name2));
    assert_ne!(Port::create_out_port::<T1>(name1), Port::create_out_port::<T1>(name2));
    // equal port type, different data type and equal name
    assert_ne!(Port::create_in_port::<T1>(name1), Port::create_in_port::<T2>(name1));
    // equal port type, different data type and different name
    assert_ne!(Port::create_in_port::<T1>(name1), Port::create_in_port::<T2>(name2));
    // different port type, equal data type and equal name
    assert_ne!(Port::create_in_port::<T1>(name1), Port::create_inout_port::<T1>(name1));
    assert_ne!(Port::create_in_port::<T1>(name1), Port::create_out_port::<T1>(name1));
    assert_ne!(Port::create_inout_port::<T1>(name1), Port::create_out_port::<T1>(name1));
    // different port type, different data type and equal name
    assert_ne!(Port::create_in_port::<T1>(name1), Port::create_out_port::<T2>(name1));
    assert_ne!(Port::create_inout_port::<T1>(name1), Port::create_out_port::<T2>(name1));
    // different port type, different data type and different name
    assert_ne!(Port::create_in_port::<T1>(name1), Port::create_inout_port::<T2>(name2));
    assert_ne!(Port::create_in_port::<T1>(name1), Port::create_out_port::<T2>(name2));
    assert_ne!(Port::create_inout_port::<T1>(name1), Port::create_out_port::<T2>(name2));
}

#[test]
fn port_port_equality() {
    let p4_name: &str = "p4";
    check_equality::<i32, f64>("p1", "p2");
    check_equality::<String, &str>("p1", CONST_NAME);
    check_equality::<MyStruct, Vec<i32>>("p1", STATIC_NAME);
    check_equality::<Vec<String>, Vec<Vec<String>>>("p1", p4_name);
}

#[test]
fn access() {
    let mut pb = PortDataBase::default();
    assert!(!pb.contains_key("test"));
    assert!(pb.port("test").is_err());
    assert!(!pb.contains::<i32>("test").unwrap());
    assert!(pb.get::<i32>("test").is_err());
    assert!(pb.read::<i32>("test").is_err());
    assert!(pb.try_read::<i32>("test").is_err());
    assert!(pb.sequence_number("test").is_err());
    assert!(pb.update::<i32>("test", 42).is_err());
    assert!(pb.write::<i32>("test").is_err());
    assert!(pb.try_write::<i32>("test").is_err());
    assert!(pb.delete::<i32>("test").is_err());

    assert!(pb.create::<i32>("test", 42).is_ok());
    assert!(pb.contains_key("test"));
    assert!(pb.port("test").is_ok());
    assert!(pb.contains::<i32>("test").unwrap());
    assert_eq!(pb.get::<i32>("test").unwrap().unwrap(), 42);
    assert_eq!(pb.read::<i32>("test").unwrap().value(), Some(&42));
    assert_eq!(pb.try_read::<i32>("test").unwrap().value(), Some(&42));
    assert_eq!(pb.sequence_number("test").unwrap(), 1);

    assert!(pb.update::<i32>("test", 24).is_ok());
    assert_eq!(pb.get::<i32>("test").unwrap().unwrap(), 24);
    assert_eq!(pb.sequence_number("test").unwrap(), 2);

    {
        let _guard = pb.read::<i32>("test").unwrap();
        assert!(pb.read::<i32>("test").is_ok());
        assert!(pb.try_read::<i32>("test").is_ok());
        assert!(pb.try_write::<i32>("test").is_err());
    }
    {
        let mut guard = pb.write("test").unwrap();
        *guard.value_mut().unwrap() = 42;
        assert!(pb.try_read::<i32>("test").is_err());
        assert!(pb.try_write::<i32>("test").is_err());
    }

    assert_eq!(pb.get::<i32>("test").unwrap().unwrap(), 42);
    assert_eq!(pb.sequence_number("test").unwrap(), 3);

    assert!(pb.delete::<i32>("test").is_ok());
    assert!(!pb.contains_key("test"));
    assert_eq!(pb.len(), 0);
}

#[test]
fn store_says_what_is_wrong() {
    let mut store = PortBase::default();
    assert_eq!(store.create("a", 1_i32), Ok(()));
    assert_eq!(store.create("a", 2_i32), Err(Error::AlreadyInCollection));
    assert_eq!(store.create("text", String::from("t")), Ok(()));
    assert!(store.contains_key("a"));
    assert!(!store.contains_key("b"));
    assert_eq!(store.contains::<i32>("a"), Ok(true));
    assert_eq!(store.contains::<i32>("b"), Ok(false));
    assert_eq!(store.contains::<String>("a"), Err(Error::WrongDataType));
    assert_eq!(store.get::<i32>("a"), Ok(Some(1)));
    assert_eq!(store.get::<i32>("b"), Err(Error::NotFound));
    assert_eq!(store.get::<String>("a"), Err(Error::WrongDataType));
    assert_eq!(store.update("a", 5_i32), Ok(Some(1)));
    assert_eq!(store.update("b", 5_i32), Err(Error::NotFound));
    assert_eq!(store.update("a", String::new()), Err(Error::WrongDataType));
    assert_eq!(store.sequence_number("a"), Ok(2));
    assert_eq!(store.sequence_number("b"), Err(Error::NotFound));
    assert_eq!(store.read::<i32>("a").unwrap().value(), Some(&5));
    assert_eq!(store.read::<i32>("b").err(), Some(Error::NotFound));
    assert_eq!(store.try_read::<String>("a").err(), Some(Error::WrongDataType));
    {
        let mut guard = store.write::<i32>("a").unwrap();
        assert_eq!(store.try_write::<i32>("a").err(), Some(Error::IsLocked));
        assert_eq!(store.try_read::<i32>("a").err(), Some(Error::IsLocked));
        *guard.value_mut().unwrap() = 6;
    }
    assert_eq!(store.sequence_number("a"), Ok(3));
    assert!(store.try_write::<i32>("a").is_ok());
    let shared = store.port("a").unwrap();
    assert_eq!(shared.name(), "a");
    assert_eq!(shared.get::<i32>(), Some(6));
    assert_eq!(store.port("b").err(), Some(Error::NotFound));
    assert_eq!(store.delete::<String>("a"), Err(Error::WrongDataType));
    assert!(store.contains_key("a"));
    assert_eq!(store.delete::<i32>("b"), Err(Error::NotFound));
    assert_eq!(store.delete::<i32>("a"), Ok(6));
    assert!(!store.contains_key("a"));
    assert_eq!(shared.get::<i32>(), None);
    assert_eq!(store.delete::<String>("text"), Ok(String::from("t")));
}

#[test]
fn deleting_an_empty_value_deletes_the_port() {
    let mut store = PortBase::new();
    assert_eq!(store.create("a", 1_i32), Ok(()));
    let shared = store.port("a").unwrap();
    assert_eq!(shared.port().cell_ref().take::<i32>(), Ok(Some(1)));
    assert_eq!(store.delete::<i32>("a"), Err(Error::NoValueSet));
    assert!(!store.contains_key("a"));
}

/// Databases, blackboards and other communication hubs need to 'provide'
/// ports dynamically.
#[test]
fn dynamic_provisioning() {
    let mut s1 = DynamicStruct { _other_field: 1, ports: PortHub::default() };
    assert!(s1.ports.find("p1").is_none());
    assert!(s1.ports.find(CONST_NAME).is_none());
    assert!(s1.ports.find(STATIC_NAME).is_none());

    s1.ports.add(Port::create_in_port::<i32>("p1"));
    s1.ports.add(Port::create_inout_port::<f64>(CONST_NAME));
    s1.ports.add(Port::create_out_port::<String>(STATIC_NAME));

    let s2 = DynamicStruct {
        _other_field: 1,
        ports: PortHub::new(vec![
            Port::create_out_port::<String>(STATIC_NAME),
            Port::create_inout_port::<f64>(CONST_NAME),
            Port::create_in_port::<i32>("p1"),
        ]),
    };

    assert_eq!(s1.ports.find("p1"), s2.ports.find("p1"));
    assert_eq!(s1.ports.find("p2"), s2.ports.find("p2"));
    assert_eq!(s1.ports.find("p2"), s2.ports.find(CONST_NAME));
    assert_eq!(s1.ports.find("p3"), s2.ports.find("p3"));
    assert_eq!(s1.ports.find("p3"), s2.ports.find(STATIC_NAME));
    assert_ne!(s1.ports.find("p1"), s2.ports.find("p3"));
}

// test constructors.
#[test]
fn port_array_constructors() {
    let _s0 = PortArray::new([]);
    let _s1 = PortArray::new([Port::create_in_port::<i32>("p1")]);
    let _s2 = PortArray::new([
        Port::create_in_port::<i32>("p1"),
        Port::create_in_port::<f64>(CONST_NAME),
    ]);
    let s3 = PortArray::new([
        Port::create_in_port::<i32>("p1"),
        Port::create_in_port::<f64>(CONST_NAME),
        Port::create_in_port::<String>(STATIC_NAME),
    ]);
    assert_eq!(s3.len(), 3);
    assert!(!s3.is_empty());
}

#[test]
fn port_array_find() {
    let s = PortArray::new([
        Port::create_in_port::<i32>("p1"),
        Port::create_in_port::<f64>(CONST_NAME),
        Port::create_in_port::<String>(STATIC_NAME),
    ]);

    assert!(s.find("p1").is_some());
    assert!(s.find(CONST_NAME).is_some());
    assert!(s.find("p2").is_some());
    assert_eq!(s.find("p2"), s.find(CONST_NAME));
    assert!(s.find(STATIC_NAME).is_some());
    assert!(s.find("p3").is_some());
    assert_eq!(s.find("p3"), s.find(STATIC_NAME));
    assert!(s.find("p_non_existent").is_none());
}

struct BasicStruct {
    _other_field: i32,
    ports: PortArray<3>,
}

/// Things that have ports 'declare' their ports statically.
#[test]
fn static_declaration() {
    let s1 = BasicStruct {
        _other_field: 1,
        ports: PortArray::new([
            Port::create_in_port::<i32>("p1"),
            Port::create_inout_port::<f64>(CONST_NAME),
            Port::create_out_port::<String>(STATIC_NAME),
        ]),
    };

    let s2 = BasicStruct {
        _other_field: 2,
        ports: PortArray::new([
            Port::create_out_port::<String>(STATIC_NAME),
            Port::create_inout_port::<f64>(CONST_NAME),
            Port::create_in_port::<i32>("p1"),
        ]),
    };

    assert_eq!(s1.ports.find("p1"), s2.ports.find("p1"));
    assert_eq!(s1.ports.find("p2"), s2.ports.find("p2"));
    assert_eq!(s1.ports.find("p2"), s2.ports.find(CONST_NAME));
    assert_eq!(s1.ports.find("p3"), s2.ports.find("p3"));
    assert_eq!(s1.ports.find("p3"), s2.ports.find(STATIC_NAME));
    assert_ne!(s1.ports.find("p1"), s2.ports.find("p3"));
}

// test constructors.
#[test]
fn port_list_constructors() {
    let _s0 = PortList::new(vec![]);
    let _s1 = PortList::new(vec![Port::create_in_port::<i32>("p1")]);
    let _s2 = PortList::new(vec![
        Port::create_in_port::<i32>("p1"),
        Port::create_in_port::<f64>(CONST_NAME),
    ]);
    let s3 = PortList::new(vec![
        Port::create_in_port::<i32>("p1"),
        Port::create_in_port::<f64>(CONST_NAME),
        Port::create_in_port::<String>(STATIC_NAME),
    ]);
    assert_eq!(s3.len(), 3);
}

#[test]
fn port_list_find() {
    let s = PortList::new(vec![
        Port::create_in_port::<i32>("p1"),
        Port::create_in_port::<f64>(CONST_NAME),
        Port::create_in_port::<String>(STATIC_NAME),
    ]);

    assert!(s.find("p1").is_some());
    assert!(s.find(CONST_NAME).is_some());
    assert!(s.find("p2").is_some());
    assert_eq!(s.find("p2"), s.find(CONST_NAME));
    assert!(s.find(STATIC_NAME).is_some());
    assert!(s.find("p3").is_some());
    assert_eq!(s.find("p3"), s.find(STATIC_NAME));
    assert!(s.find("p_non_existent").is_none());
}

struct ListStruct {
    _other_field: i32,
    ports: PortList,
}

/// Communication hubs need to 'provide' ports dynamically.
#[test]
fn port_list_provisioning() {
    let mut s1 = ListStruct { _other_field: 1, ports: PortList::default() };
    assert!(s1.ports.find("p1").is_none());
    assert!(s1.ports.find(CONST_NAME).is_none());
    assert!(s1.ports.find(STATIC_NAME).is_none());

    s1.ports.add(Port::create_in_port::<i32>("p1"));
    s1.ports.add(Port::create_inout_port::<f64>(CONST_NAME));
    s1.ports.add(Port::create_out_port::<String>(STATIC_NAME));

    let s2 = ListStruct {
        _other_field: 1,
        ports: PortList::new(vec![
            Port::create_out_port::<String>(STATIC_NAME),
            Port::create_inout_port::<f64>(CONST_NAME),
            Port::create_in_port::<i32>("p1"),
        ]),
    };

    assert_eq!(s1.ports.find("p1"), s2.ports.find("p1"));
    assert_eq!(s1.ports.find("p2"), s2.ports.find("p2"));
    assert_eq!(s1.ports.find("p2"), s2.ports.find(CONST_NAME));
    assert_eq!(s1.ports.find("p3"), s2.ports.find("p3"));
    assert_eq!(s1.ports.find("p3"), s2.ports.find(STATIC_NAME));
    assert_ne!(s1.ports.find("p1"), s2.ports.find("p3"));
}

#[test]
fn port_list_bind_get_and_set() {
    let portlist1 = PortList::new(vec![
        Port::create_out_port::<i32>("p1a"),
        Port::create_out_port::<String>("p1b"),
        Port::create_out_port::<f64>("p1c"),
        Port::create_inout_port::<f64>("p1d"),
    ]);

    let mut portlist2 = PortList::new(vec![
        Port::create_in_port::<i32>("p2a"),
        Port::create_in_port::<String>("p2b"),
        Port::create_inout_port::<f64>("p2c"),
        Port::create_in_port::<f64>("p2d"),
    ]);

    assert!(portlist1.set::<i32>("p1a", 10).is_ok());
    let res = portlist2.bind_to::<i32, PortList>("p2a", &portlist1, "p1a");
    assert_eq!(res, Ok(()));
    assert_eq!(portlist2.get::<i32>("p2a"), Ok(Some(10)));
    assert_eq!(portlist2.sequence_number("p2a"), Ok(1));
    assert!(portlist1.set::<i32>("p1a", 20).is_ok());
    assert_eq!(portlist2.get::<i32>("p2a"), Ok(Some(20)));
    assert_eq!(portlist2.sequence_number("p2a"), Ok(2));

    assert!(portlist1.set::<String>("p1b", String::from("hello world")).is_ok());
    assert!(portlist1.set::<f64>("p1c", PI).is_ok());
    assert!(portlist2.get::<f64>("p2c").unwrap().is_none());
    assert!(portlist1.get::<f64>("p1d").unwrap().is_none());
}

#[test]
fn binding_by_names_keeps_both_ports_on_an_error() {
    let sources = PortList::new(vec![Port::create_out_port::<f64>("out")]);
    let mut destinations = PortList::new(vec![Port::create_in_port::<i32>("in")]);
    assert!(sources.set::<f64>("out", 1.5).is_ok());
    assert_eq!(
        destinations.bind_to::<i32, PortList>("in", &sources, "out"),
        Err(Error::WrongDataType)
    );
    assert_eq!(
        destinations.bind_to::<f64, PortList>("in", &sources, "out"),
        Err(Error::WrongDataType)
    );
    assert_eq!(destinations.get::<i32>("in"), Ok(None));
    assert_eq!(destinations.sequence_number("in"), Ok(0));
    assert_eq!(sources.sequence_number("out"), Ok(1));
    assert!(sources.set::<f64>("out", 2.5).is_ok());
    assert_eq!(destinations.get::<i32>("in"), Ok(None));
    assert_eq!(
        destinations.bind_to::<i32, PortList>("in", &sources, "nothing"),
        Err(Error::OtherNotFound)
    );
    assert_eq!(
        destinations.bind_to::<f64, PortList>("nothing", &sources, "out"),
        Err(Error::NotFound)
    );
}

#[test]
fn decision_on_a_binding_by_names() {
    let out = PortVariant::create_outbound(1_i32);
    let input = PortVariant::create_inbound(2_i32);
    let text = PortVariant::create_inbound(String::new());
    assert_eq!(decide_binding(None, true, Some(&input), true), Err(Error::OtherNotFound));
    assert_eq!(decide_binding(Some(&input), true, Some(&input), true), Err(Error::WrongPortType));
    assert_eq!(decide_binding(Some(&out), false, None, true), Err(Error::WrongDataType));
    assert_eq!(decide_binding(Some(&out), true, None, true), Err(Error::NotFound));
    assert_eq!(decide_binding(Some(&out), true, Some(&out), true), Err(Error::WrongPortType));
    assert_eq!(decide_binding(Some(&out), true, Some(&input), false), Err(Error::WrongDataType));
    assert_eq!(decide_binding(Some(&out), true, Some(&text), true), Err(Error::WrongDataType));
    assert_eq!(decide_binding(Some(&out), true, Some(&input), true), Ok(()));
}

#[test]
fn end_of_a_removal() {
    let mut items: Vec<(String, PortVariant)> = vec![
        ("a".into(), PortVariant::create_inbound(1_i32)),
        ("b".into(), PortVariant::create_inbound(2_i32)),
    ];
    assert_eq!(
        finish_remove::<i32>(&mut items, 0, Err(Error::WrongDataType)),
        Err(Error::WrongDataType)
    );
    assert_eq!(items.len(), 2);
    assert_eq!(finish_remove(&mut items, 0, Ok(Some(1_i32))), Ok(Some(1)));
    assert_eq!(items.len(), 1);
    assert_eq!(items[0].0, "b");
    assert_eq!(finish_remove::<i32>(&mut items, 5, Ok(None)), Ok(None));
    assert_eq!(items.len(), 1);
    assert_eq!(finish_remove::<i32>(&mut items, 0, Ok(None)), Ok(None));
    assert!(items.is_empty());
}

#[test]
fn end_of_a_deletion() {
    let mut store = PortDataBase::default();
    assert!(store.create("a", 1_i32).is_ok());
    assert!(store.create("b", 2_i32).is_ok());
    assert!(store.create("c", 3_i32).is_ok());
    assert_eq!(
        store.finish_delete::<i32>(0, Err(Error::WrongDataType)),
        Err(Error::WrongDataType)
    );
    assert_eq!(store.len(), 3);
    assert_eq!(store.finish_delete(0, Ok(Some(7_i32))), Ok(7));
    assert!(!store.contains_key("a"));
    assert_eq!(store.finish_delete::<i32>(0, Ok(None)), Err(Error::NoValueSet));
    assert!(!store.contains_key("b"));
    assert_eq!(store.finish_delete(9, Ok(Some(8_i32))), Ok(8));
    assert!(store.contains_key("c"));
    assert_eq!(store.len(), 1);
}

#[test]
fn decision_on_an_attempt_to_get_a_guard() {
    assert_eq!(dataport::bind::port_value::access(false, Content::Filled), Err(Error::IsLocked));
    assert_eq!(dataport::bind::port_value::access(false, Content::Empty), Err(Error::IsLocked));
    assert_eq!(dataport::bind::port_value::access(false, Content::OtherType), Err(Error::IsLocked));
    assert_eq!(dataport::bind::port_value::access(true, Content::OtherType), Err(Error::WrongDataType));
    assert_eq!(dataport::bind::port_value::access(true, Content::Empty), Err(Error::NoValueSet));
    assert_eq!(dataport::bind::port_value::access(true, Content::Filled), Ok(()));
}
