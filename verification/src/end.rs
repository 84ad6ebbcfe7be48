//! Terminator node types.
//!
//! A terminator carries no payload: it is a bare header whose type tag is
//! [`DeviceType::END`] and whose subtype says whether one instance or the
//! entire path ends here.

use vstd::prelude::*;

use crate::device_path::{
    DevicePathHeader, DevicePathNode, DeviceSubType, DeviceType, NodeConversionError,
};

verus! {

/// Node that ends one device path instance; more instances follow.
#[derive(Clone, Copy, Debug)]
pub struct Instance {
    /// The node's header.
    pub header: DevicePathHeader,
}

impl Instance {
    /// Convert a generic node into this specific kind.
    ///
    /// # Errors
    ///
    /// Fails with [`NodeConversionError::DifferentType`] when the node's
    /// (type, subtype) pair is not (END, END_INSTANCE), and with
    /// [`NodeConversionError::InvalidLength`] when the pair matches but
    /// the node carries a payload, which a terminator never does.
    pub fn try_from_node(node: &DevicePathNode) -> (r: Result<Instance, NodeConversionError>)
        requires
            node.wf(),
        ensures
            match r {
                Ok(n) => node@.is_end_instance() && node@.data.len() == 0 && n.header.device_type.0
                    == node@.device_type && n.header.sub_type.0 == node@.sub_type,
                Err(NodeConversionError::DifferentType) => !node@.is_end_instance(),
                Err(NodeConversionError::InvalidLength) => node@.is_end_instance()
                    && node@.data.len() != 0,
                Err(NodeConversionError::UnsupportedType) => false,
            },
    {
        let (device_type, sub_type) = node.full_type();
        if !(device_type.0 == DeviceType::END && sub_type.0 == DeviceSubType::END_INSTANCE) {
            return Err(NodeConversionError::DifferentType);
        }
        if node.length() != 4 {
            return Err(NodeConversionError::InvalidLength);
        }
        Ok(Instance { header: DevicePathHeader { device_type, sub_type, length: 4 } })
    }
}

/// Node that ends an entire device path.
#[derive(Clone, Copy, Debug)]
pub struct Entire {
    /// The node's header.
    pub header: DevicePathHeader,
}

impl Entire {
    /// Convert a generic node into this specific kind.
    ///
    /// # Errors
    ///
    /// Fails with [`NodeConversionError::DifferentType`] when the node's
    /// (type, subtype) pair is not (END, END_ENTIRE), and with
    /// [`NodeConversionError::InvalidLength`] when the pair matches but
    /// the node carries a payload, which a terminator never does.
    pub fn try_from_node(node: &DevicePathNode) -> (r: Result<Entire, NodeConversionError>)
        requires
            node.wf(),
        ensures
            match r {
                Ok(n) => node@.is_end_entire() && node@.data.len() == 0 && n.header.device_type.0
                    == node@.device_type && n.header.sub_type.0 == node@.sub_type,
                Err(NodeConversionError::DifferentType) => !node@.is_end_entire(),
                Err(NodeConversionError::InvalidLength) => node@.is_end_entire()
                    && node@.data.len() != 0,
                Err(NodeConversionError::UnsupportedType) => false,
            },
    {
        let (device_type, sub_type) = node.full_type();
        if !(device_type.0 == DeviceType::END && sub_type.0 == DeviceSubType::END_ENTIRE) {
            return Err(NodeConversionError::DifferentType);
        }
        if node.length() != 4 {
            return Err(NodeConversionError::InvalidLength);
        }
        Ok(Entire { header: DevicePathHeader { device_type, sub_type, length: 4 } })
    }
}

} // verus!
