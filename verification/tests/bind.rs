//! Tests of the bound ports and their binding.

use std::f64::consts::PI;
use std::fmt::Debug;

use dataport::bind::port_value::{
    replace_typed, set_typed, take_typed, PortValueReadGuard, PortValueWriteGuard,
};
use dataport::sequence_number::SequenceNumber;
use dataport::{
    AnyPortValue, BindCommons, BindIn, BindInOut, BindOut, BoundInOutPort, BoundInPort,
    BoundOutPort, Error, PortCollectionAccessors, PortCollectionAccessorsMut, PortVariant,
    PortVec,
};

#[test]
fn into_inner() {
    let port = BoundInPort::new::<i32>();
    assert_eq!(port.into_inner::<f64>(), Err(Error::WrongDataType));
}

#[test]
fn into_inner_hands_out_the_value() {
    let port = BoundInPort::with_value(42);
    assert_eq!(port.into_inner::<i32>(), Ok(Some(42)));
    let port = BoundOutPort::new::<i32>();
    assert_eq!(port.into_inner::<i32>(), Ok(None));
    let port = BoundInOutPort::with_value(String::from("x"));
    assert_eq!(port.into_inner::<String>(), Ok(Some(String::from("x"))));
}

fn check_binding<T: AnyPortValue + Clone + PartialEq + Debug>(value: T) {
    let mut op = PortVariant::OutBound(BoundOutPort::new::<T>());
    let mut iop = PortVariant::InOutBound(BoundInOutPort::new::<T>());
    let mut ip = PortVariant::InBound(BoundInPort::new::<T>());

    assert!(iop.use_from_variant(&op).is_ok());
    assert!(op.use_from_variant(&iop).is_ok());
    assert!(op.use_from_variant(&ip).is_ok());
    assert!(iop.use_from_variant(&ip).is_ok());
    assert!(ip.use_from_variant(&iop).is_ok());
    assert!(ip.use_from_variant(&op).is_ok());

    assert!(op.set(value.clone()).is_ok());
    assert_eq!(iop.get().unwrap(), Some(value.clone()));
    assert_eq!(ip.get().unwrap(), Some(value));
}

#[test]
fn binding_binding() {
    check_binding::<bool>(true);
    check_binding::<i32>(42);
    check_binding::<f64>(PI);
    check_binding::<&str>("str");
    check_binding::<String>(String::from("string"));
    check_binding::<Vec<i32>>(vec![1, 2, 3]);
    check_binding::<Vec<&str>>(vec!["1", "2", "3"]);
    check_binding::<Vec<String>>(vec![String::from("1"), String::from("2"), String::from("3")]);
    check_binding::<Vec<Vec<f64>>>(vec![vec![1.0, 2.0, 3.0], vec![4.0, 5.0, 6.0]]);
}

#[derive(Clone, Debug, Default, PartialEq)]
struct MyStruct {
    _f1: i32,
    _f2: f64,
    _f3: String,
    _f4: Vec<f64>,
}

fn check_bound_ports<T: AnyPortValue + Clone + PartialEq + Debug>(value: T) {
    {
        let ip = BoundInPort::new::<T>();
        assert_eq!(ip.sequence_number(), 0);
        assert!(BindIn::<T>::read(&ip).is_err());
        assert!(BindIn::<T>::get(&ip).unwrap().is_none());
        assert_eq!(ip.sequence_number(), 0);
    }
    {
        let op = BoundOutPort::with_value(value.clone());
        let mut ip = BoundInPort::new::<T>();
        assert!(ip.use_from_bound(&op).is_ok());
        assert_eq!(ip.sequence_number(), 1);
        assert_eq!(BindIn::<T>::read(&ip).unwrap().value(), Some(&value));
        assert_eq!(BindIn::<T>::get(&ip).unwrap().unwrap(), value);
        assert_eq!(ip.sequence_number(), 1);
    }
    {
        let iop = BoundInOutPort::with_value(value.clone());
        let mut ip = BoundInPort::new::<T>();
        assert!(ip.use_from_bound(&iop).is_ok());
        assert_eq!(ip.sequence_number(), 1);
        assert_eq!(BindIn::<T>::read(&ip).unwrap().value(), Some(&value));
        assert_eq!(BindIn::<T>::get(&ip).unwrap().unwrap(), value);
        assert_eq!(ip.sequence_number(), 1);
    }
    {
        let iop1 = BoundInOutPort::with_value(value.clone());
        let mut iop2 = BoundInOutPort::new::<T>();
        assert!(iop2.use_from_bound(&iop1).is_ok());
        assert_eq!(iop2.sequence_number(), 1);
        assert_eq!(BindIn::<T>::read(&iop2).unwrap().value(), Some(&value));
        assert_eq!(BindIn::<T>::get(&iop2).unwrap().unwrap(), value);
        assert_eq!(iop2.sequence_number(), 1);
    }
}

#[test]
fn bindings_binding() {
    check_bound_ports::<i32>(42);
    check_bound_ports::<f64>(PI);
    check_bound_ports::<String>(String::from("hello world"));
    check_bound_ports::<MyStruct>(MyStruct::default());
    check_bound_ports::<Vec<i32>>(vec![1, 2, 3]);
}

#[test]
fn sequence_number() {
    let inbound = PortVariant::create_inbound(42);
    assert_eq!(inbound.sequence_number(), 1);
    let mut inoutbound = PortVariant::create_inoutbound(41);
    assert_eq!(inoutbound.sequence_number(), 1);
    assert!(inoutbound.set(42).is_ok());
    assert_eq!(inoutbound.sequence_number(), 2);
    let mut outbound = PortVariant::create_outbound(40);
    assert_eq!(outbound.sequence_number(), 1);
    assert!(outbound.set(41).is_ok());
    assert_eq!(outbound.sequence_number(), 2);
}

#[test]
fn binding_with_another_type_fails_and_changes_nothing() {
    let mut a = PortVariant::create_inoutbound(1_i32);
    let b = PortVariant::create_inoutbound(String::from("b"));
    assert_eq!(a.bind_to(&b), Err(Error::WrongDataType));
    assert_eq!(a.get::<i32>(), Ok(Some(1)));
    assert_eq!(b.get::<String>(), Ok(Some(String::from("b"))));
    assert_eq!(a.sequence_number(), 1);
    assert_eq!(b.sequence_number(), 1);
    assert!(a.set(2_i32).is_ok());
    assert_eq!(b.get::<String>(), Ok(Some(String::from("b"))));
}

#[test]
fn bound_ports_share_their_value() {
    let mut a = PortVariant::InOutBound(BoundInOutPort::new::<i32>());
    let mut b = PortVariant::create_inoutbound(5_i32);
    assert!(a.bind_to(&b).is_ok());
    assert_eq!(a.get::<i32>(), b.get::<i32>());
    assert!(b.set(6).is_ok());
    assert_eq!(a.get::<i32>(), Ok(Some(6)));
    assert!(a.set(7).is_ok());
    assert_eq!(b.get::<i32>(), Ok(Some(7)));
    assert_eq!(a.sequence_number(), b.sequence_number());
    assert_eq!(a.sequence_number(), 3);
}

#[test]
fn rebinding_leaves_the_old_cell_to_its_other_holders() {
    let first = PortVariant::create_inoutbound(1_i32);
    let second = PortVariant::create_inoutbound(2_i32);
    let mut port = PortVariant::InBound(BoundInPort::new::<i32>());
    assert!(port.bind_to(&first).is_ok());
    assert_eq!(port.get::<i32>(), Ok(Some(1)));
    assert!(port.bind_to(&second).is_ok());
    assert_eq!(port.get::<i32>(), Ok(Some(2)));
    assert_eq!(first.get::<i32>(), Ok(Some(1)));
}

#[test]
fn write_only_port_feeds_a_bound_read_only_port() {
    let mut writer = PortVariant::OutBound(BoundOutPort::new::<i32>());
    let mut reader = PortVariant::InBound(BoundInPort::new::<i32>());
    assert!(reader.bind_to(&writer).is_ok());
    assert_eq!(reader.read::<i32>().err(), Some(Error::NoValueSet));
    assert!(writer.set(42).is_ok());
    assert_eq!(reader.get::<i32>(), Ok(Some(42)));
    assert_eq!(reader.sequence_number(), 1);
}

#[test]
fn a_chain_of_three_ports_shares_one_value() {
    let mut a = PortVariant::create_outbound(10_i32);
    let mut b = PortVariant::InOutBound(BoundInOutPort::new::<i32>());
    let mut c = PortVariant::InBound(BoundInPort::new::<i32>());
    assert!(b.bind_to(&a).is_ok());
    assert!(c.bind_to(&b).is_ok());
    assert!(a.set(20).is_ok());
    assert_eq!(c.get::<i32>(), Ok(Some(20)));
}

#[test]
fn variants_refuse_what_their_kind_does_not_offer() {
    let mut inbound = PortVariant::create_inbound(1_i32);
    let mut outbound = PortVariant::create_outbound(1_i32);
    let mut inoutbound = PortVariant::create_inoutbound(1_i32);
    assert_eq!(outbound.get::<i32>(), Err(Error::WrongPortType));
    assert_eq!(outbound.read::<i32>().err(), Some(Error::WrongPortType));
    assert_eq!(outbound.try_read::<i32>().err(), Some(Error::WrongPortType));
    assert_eq!(inbound.set(2), Err(Error::WrongPortType));
    assert_eq!(inbound.write::<i32>().err(), Some(Error::WrongPortType));
    assert_eq!(inbound.try_write::<i32>().err(), Some(Error::WrongPortType));
    assert_eq!(inbound.replace(2), Err(Error::WrongPortType));
    assert_eq!(outbound.replace(2), Err(Error::WrongPortType));
    assert_eq!(inbound.take::<i32>(), Err(Error::WrongPortType));
    assert_eq!(outbound.take::<i32>(), Err(Error::WrongPortType));
    assert_eq!(inoutbound.replace(2), Ok(Some(1)));
    assert_eq!(inoutbound.take::<i32>(), Ok(Some(2)));
    assert_eq!(inoutbound.get::<i32>(), Ok(None));
    assert_eq!(inoutbound.sequence_number(), 3);
    assert_eq!(inoutbound.get::<u8>(), Err(Error::WrongDataType));
    assert!(inoutbound.is::<i32>());
    assert!(!inoutbound.is::<u8>());
}

#[test]
fn guards_lock_and_count_one_change() {
    let port = PortVariant::create_inoutbound(1_i32);
    {
        let reader = port.read::<i32>().unwrap();
        assert_eq!(reader.value(), Some(&1));
        assert_eq!(reader.sequence_number(), 1);
        assert!(port.try_read::<i32>().is_ok());
        assert_eq!(port.try_write::<i32>().err(), Some(Error::IsLocked));
    }
    {
        let mut writer = port.try_write::<i32>().unwrap();
        assert!(!writer.is_modified());
        assert_eq!(port.try_read::<i32>().err(), Some(Error::IsLocked));
        assert_eq!(port.try_write::<i32>().err(), Some(Error::IsLocked));
        *writer.value_mut().unwrap() = 2;
        *writer.value_mut().unwrap() = 3;
        assert!(writer.is_modified());
        assert_eq!(writer.value(), Some(&3));
    }
    assert_eq!(port.sequence_number(), 2);
    assert_eq!(port.get::<i32>(), Ok(Some(3)));
    {
        let writer = port.write::<i32>().unwrap();
        assert_eq!(writer.value(), Some(&3));
    }
    assert_eq!(port.sequence_number(), 2);
    assert!(port.try_read::<i32>().is_ok());
    assert!(port.try_write::<i32>().is_ok());
    assert_eq!(port.try_write::<u8>().err(), Some(Error::WrongDataType));
    let empty = PortVariant::InOutBound(BoundInOutPort::new::<i32>());
    assert_eq!(empty.try_write::<i32>().err(), Some(Error::NoValueSet));
    assert_eq!(empty.read::<i32>().err(), Some(Error::NoValueSet));
}

#[test]
fn traits_of_the_bound_ports() {
    let mut port = BoundInOutPort::new::<i32>();
    assert_eq!(BindOut::<i32>::set(&mut port, 1), Ok(()));
    assert_eq!(BindInOut::<i32>::replace(&mut port, 2), Ok(Some(1)));
    assert_eq!(BindIn::<i32>::get(&port), Ok(Some(2)));
    assert_eq!(BindInOut::<i32>::take(&mut port), Ok(Some(2)));
    assert_eq!(BindIn::<i32>::get(&port), Ok(None));
    assert_eq!(BindCommons::sequence_number(&port), 3);
    let other = port.clone();
    assert_eq!(BindOut::<i32>::set(&mut port, 9), Ok(()));
    assert_eq!(BindIn::<i32>::get(&other), Ok(Some(9)));
}

#[test]
fn port_round_trip_of_set_and_take() {
    let mut port = PortVariant::InOutBound(BoundInOutPort::new::<String>());
    assert_eq!(port.set(String::from("v")), Ok(()));
    assert_eq!(port.take::<String>(), Ok(Some(String::from("v"))));
    assert_eq!(port.get::<String>(), Ok(None));
    assert_eq!(port.sequence_number(), 2);
}

#[test]
fn collections_bind_to_and_from_bound_ports() {
    let mut list = PortVec::from_array([
        ("in".into(), PortVariant::InBound(BoundInPort::new::<i32>())),
        ("out".into(), PortVariant::create_outbound(5_i32)),
    ]);
    let source = BoundOutPort::with_value(9_i32);
    assert_eq!(list.use_from_bound("in", &source), Ok(()));
    assert_eq!(list.get::<i32>("in"), Ok(Some(9)));
    assert_eq!(list.use_from_bound("missing", &source), Err(Error::NotFound));
    let text = BoundOutPort::with_value(String::from("t"));
    assert_eq!(list.use_from_bound("in", &text), Err(Error::WrongDataType));
    assert_eq!(list.get::<i32>("in"), Ok(Some(9)));

    let mut taker = BoundInPort::new::<i32>();
    assert_eq!(list.give_to_bound("out", &mut taker), Ok(()));
    assert_eq!(BindIn::<i32>::get(&taker), Ok(Some(5)));
    assert_eq!(list.give_to_bound("missing", &mut taker), Err(Error::NotFound));
    let mut text_taker = BoundInPort::new::<String>();
    assert_eq!(list.give_to_bound("out", &mut text_taker), Err(Error::WrongDataType));
    assert_eq!(BindIn::<String>::get(&text_taker), Ok(None));
}

#[test]
fn writes_into_a_typed_look_at_a_slot() {
    let mut count = SequenceNumber::new();
    let mut place: Option<i32> = None;
    assert_eq!(set_typed::<i32>(None, &mut count, 1), Err(Error::WrongDataType));
    assert_eq!(count.value(), 0);
    assert_eq!(set_typed(Some(&mut place), &mut count, 1), Ok(()));
    assert_eq!(place, Some(1));
    assert_eq!(count.value(), 1);
    assert_eq!(replace_typed::<i32>(None, &mut count, 2), Err(Error::WrongDataType));
    assert_eq!(count.value(), 1);
    assert_eq!(replace_typed(Some(&mut place), &mut count, 2), Ok(Some(1)));
    assert_eq!(place, Some(2));
    assert_eq!(count.value(), 2);
    assert_eq!(take_typed::<i32>(None, &mut count), Err(Error::WrongDataType));
    assert_eq!(count.value(), 2);
    assert_eq!(take_typed(Some(&mut place), &mut count), Ok(Some(2)));
    assert_eq!(place, None);
    assert_eq!(take_typed(Some(&mut place), &mut count), Ok(None));
    assert_eq!(count.value(), 4);
}

#[test]
fn an_attempt_that_got_no_lock_is_locked() {
    assert_eq!(PortValueReadGuard::<i32>::from_attempt(None).err(), Some(Error::IsLocked));
    assert_eq!(PortValueWriteGuard::<i32>::from_attempt(None).err(), Some(Error::IsLocked));
    assert_eq!(
        dataport::PortReadGuard::<i32>::from_attempt(None).err(),
        Some(Error::IsLocked)
    );
    assert_eq!(
        dataport::PortWriteGuard::<i32>::from_attempt(None).err(),
        Some(Error::IsLocked)
    );
}
