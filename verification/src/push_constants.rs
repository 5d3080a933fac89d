//! The push-constant block handed to shaders: a payload value followed by a
//! buffer device address, padded so the block's size is what the pipeline
//! layout declared.

use vstd::prelude::*;

verus! {

#[derive(Copy, Clone)]
pub struct PushConstant<T: Sized + Default> {
    push_constant: T,
    device_address: u64,
    _padding: [u8; 8],
}

impl<T: Sized + Default> PushConstant<T> {
    /// The payload value of the block.
    pub closed spec fn payload(self) -> T {
        self.push_constant
    }

    /// The buffer device address carried after the payload.
    pub closed spec fn address(self) -> u64 {
        self.device_address
    }

    pub fn new(push_constant: T, device_address: u64) -> (r: Self)
        ensures
            r.payload() == push_constant,
            r.address() == device_address,
    {
        PushConstant { push_constant, device_address, _padding: [0u8;8] }
    }

    /// Size in bytes of the whole block, payload, address and padding.
    pub fn size(&self) -> (r: usize)
        ensures
            r == vstd::layout::size_of::<Self>(),
    {
        core::mem::size_of::<Self>()
    }

    /// Size in bytes of the payload alone.
    #[allow(non_snake_case)]
    pub fn size_of_T(&self) -> (r: usize)
        ensures
            r == vstd::layout::size_of::<T>(),
    {
        core::mem::size_of::<T>()
    }
}

} // verus!
