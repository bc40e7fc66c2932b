//! The most commonly used items of the crate.
//!
//! Typically it is sufficient to include the prelude with
//! `use dataport::prelude::*;`.

pub use crate::{
    PortArray, PortCollection, PortCollectionAccessors, PortCollectionAccessorsCommon,
    PortCollectionAccessorsMut, PortCollectionMut, PortList, PortMap, PortVariant, PortVec,
};
