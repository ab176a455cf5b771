//! How large the objects of each kind are.

use vstd::prelude::*;
use crate::error::{BootError, Resource};
use crate::kernel::ObjectType;
use crate::platform::Platform;

verus! {

/// log2 of the untyped memory that an object of kind `obj_type` takes, when
/// it is asked for with `obj_size_bits`.
///
/// Thread control blocks, endpoints and notifications have the size that the
/// architecture fixes. A capability table with `2^obj_size_bits` slots takes
/// that many slots. An untyped object has the size asked for. No size is known
/// for any other kind.
pub open spec fn object_size_bits(platform: Platform, obj_type: ObjectType, obj_size_bits: usize)
    -> Result<usize, BootError> {
    match obj_type {
        ObjectType::Untyped => Ok(obj_size_bits),
        ObjectType::Tcb => Ok(platform.tcb_bits),
        ObjectType::Endpoint => Ok(platform.endpoint_bits),
        ObjectType::Notification => Ok(platform.notification_bits),
        ObjectType::CapTable => if platform.slot_bits + obj_size_bits <= usize::MAX {
            Ok((platform.slot_bits + obj_size_bits) as usize)
        } else {
            Err(BootError::ResourceExhaustion(Resource::AddressSpace))
        },
        _ => Err(BootError::UnsupportedObjectKind),
    }
}

/// Knows the object sizes of one architecture.
pub struct Allocator {
    platform: Platform,
}

impl Allocator {
    /// The architecture constants the allocator was made with.
    pub closed spec fn platform(&self) -> Platform {
        self.platform
    }

    /// An allocator for the architecture with these constants.
    pub fn new(platform: Platform) -> (allocator: Allocator)
        ensures
            allocator.platform() == platform,
    {
        Allocator { platform }
    }

    /// log2 of the untyped memory needed to create an object of kind
    /// `obj_type`; see [`object_size_bits`]. Kinds without a known size are
    /// refused with [`BootError::UnsupportedObjectKind`].
    pub fn vka_get_object_size(&self, obj_type: ObjectType, obj_size_bits: usize) -> (size: Result<
        usize,
        BootError,
    >)
        ensures
            size == object_size_bits(self.platform(), obj_type, obj_size_bits),
    {
        match obj_type {
            ObjectType::Untyped => Ok(obj_size_bits),
            ObjectType::Tcb => Ok(self.platform.tcb_bits),
            ObjectType::Endpoint => Ok(self.platform.endpoint_bits),
            ObjectType::Notification => Ok(self.platform.notification_bits),
            ObjectType::CapTable => match self.platform.slot_bits.checked_add(obj_size_bits) {
                Some(bits) => Ok(bits),
                None => Err(BootError::ResourceExhaustion(Resource::AddressSpace)),
            },
            _ => Err(BootError::UnsupportedObjectKind),
        }
    }
}

} // verus!
