//! Typed, named ports for wiring values between independent components.
//!
//! A component exposes slots for input, output or both. Slots are bound to
//! each other, so that what is written into the storage of one of them is
//! seen through every slot that is bound to the same storage.
//!
//! - [`SequenceNumber`] counts the changes of a value; it starts at `0` and
//!   wraps around to `1`.
//! - [`port_value::PortValue`] is the unit of storage: an optional value
//!   with its count of changes.
//! - [`bind::port_value::SharedCell`] is such a unit behind a reader-writer
//!   lock, with the type of the value hidden; ports share it by reference
//!   count, and guards give scoped access to it.
//! - [`BoundInPort`], [`BoundOutPort`] and [`BoundInOutPort`] are the three
//!   kinds of ports on a shared cell, and [`PortVariant`] is any of them.
//! - [`PortArray`], [`PortList`], [`PortVec`] and [`PortMap`] hold ports by
//!   name; [`PortHub`], [`port_array::PortArray`], [`port_list::PortList`],
//!   [`PortDataBase`] and [`PortBase`] provide named ports.
//! - [`InputPort`], [`OutputPort`] and [`InputOutputPort`] are ports whose
//!   type of value is fixed at compile time.
//!
//! The lock is `spin`'s. What it protects is shared between threads, and the
//! type of a value is only known at run time. So the contracts of the
//! operations that go through the lock or ask for a type say which errors may
//! come back and which port holds which cell afterwards. What is decided
//! once the lock and the test of the type have answered is stated where the
//! answer is at hand: for [`port_value::PortValue`], for
//! [`bind::port_value::Slot`] and the functions on a typed look at it, for
//! [`bind::port_value::access`], [`traits::decide_binding`],
//! [`collections::port_vec::finish_remove`] and
//! [`PortDataBase::finish_delete`].

pub mod any_port_value;
pub mod bind;
pub mod collections;
pub mod error;
pub mod guards;
pub mod in_out_port;
pub mod in_port;
mod names;
pub mod out_port;
pub mod port;
pub mod port_array;
pub mod port_base;
pub mod port_data;
pub mod port_data_base;
pub mod port_hub;
pub mod port_list;
pub mod port_value;
pub mod port_variant;
pub mod prelude;
pub mod sequence_number;
mod sync;
pub mod traits;

pub use any_port_value::AnyPortValue;
pub use bind::in_out_port::BoundInOutPort;
pub use bind::in_port::BoundInPort;
pub use bind::out_port::BoundOutPort;
pub use bind::port_value::{PortValuePtr, PortValueReadGuard, PortValueWriteGuard};
pub use bind::{BindCommons, BindIn, BindInOut, BindOut};
pub use collections::port_array::PortArray;
pub use collections::port_list::PortList;
pub use collections::port_map::PortMap;
pub use collections::port_vec::PortVec;
pub use collections::{
    PortCollection, PortCollectionAccessors, PortCollectionAccessorsCommon,
    PortCollectionAccessorsMut, PortCollectionMut, PortCollectionProvider,
    PortCollectionProviderMut,
};
pub use error::Error;
pub use guards::{PortReadGuard, PortWriteGuard};
pub use in_out_port::InputOutputPort;
pub use in_port::InputPort;
pub use out_port::OutputPort;
pub use port::Port;
pub use port_base::PortBase;
pub use port_data_base::PortDataBase;
pub use port_hub::PortHub;
pub use port_variant::PortVariant;
pub use sequence_number::SequenceNumber;
pub use traits::{InOutPort, InPort, OutPort, PortAccessors, PortCommons, PortProvider};
