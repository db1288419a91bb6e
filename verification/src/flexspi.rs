//! The FlexSPI memory-layout primitive.
//!
//! A companion subsystem lays out this fixed-size record — the lookup table
//! and device timing parameters for the FlexSPI serial bus — and hands it
//! over fully formed. This crate treats it as an opaque, already-laid-out
//! run of bytes: it embeds the primitive at the front of the configuration
//! block without alteration, except for the single device-type discriminant
//! byte that marks which kind of memory device the primitive configures.

use vstd::prelude::*;
use crate::layout::zeroed;

verus! {

/// Total size, in bytes, of the memory-layout primitive.
pub const MEM_CFG_LEN: usize = 448;

/// Position of the device-type discriminant byte inside the primitive.
pub const DEVICE_TYPE_OFFSET: usize = 68;

/// The FlexSPI memory-layout primitive, held as the exact run of bytes that
/// the companion subsystem laid out.
///
/// Its view is that run of bytes; a well-formed value holds exactly
/// [`MEM_CFG_LEN`] of them.
#[derive(Clone, Debug)]
pub struct ConfigurationBlock {
    bytes: Vec<u8>,
}

impl View for ConfigurationBlock {
    type V = Seq<u8>;

    closed spec fn view(&self) -> Seq<u8> {
        self.bytes@
    }
}

impl ConfigurationBlock {
    /// A well-formed primitive holds exactly [`MEM_CFG_LEN`] bytes.
    pub open spec fn wf(&self) -> bool {
        self@.len() == MEM_CFG_LEN
    }

    /// An all-zero primitive: the inert default for every field.
    pub fn new() -> (r: Self)
        ensures
            r.wf(),
            r@ == zeroed(MEM_CFG_LEN as nat),
    {
        let mut bytes: Vec<u8> = Vec::new();
        crate::layout::push_zeroed(&mut bytes, MEM_CFG_LEN);
        assert(bytes@ =~= zeroed(MEM_CFG_LEN as nat));
        ConfigurationBlock { bytes }
    }

    /// Adopts a fully laid-out primitive from the companion subsystem,
    /// byte for byte.
    pub fn from_bytes(bytes: Vec<u8>) -> (r: Self)
        requires
            bytes@.len() == MEM_CFG_LEN,
        ensures
            r.wf(),
            r@ == bytes@,
    {
        ConfigurationBlock { bytes }
    }

    /// The same primitive with its device-type discriminant byte replaced.
    pub(crate) fn with_device_type(self, device_type: u8) -> (r: Self)
        requires
            self.wf(),
        ensures
            r.wf(),
            r@ == self@.update(DEVICE_TYPE_OFFSET as int, device_type),
    {
        let mut bytes = self.bytes;
        bytes.set(DEVICE_TYPE_OFFSET, device_type);
        ConfigurationBlock { bytes }
    }

    /// The primitive's bytes, as a fresh vector.
    pub fn to_bytes(&self) -> (r: Vec<u8>)
        ensures
            r@ == self@,
    {
        let mut out: Vec<u8> = Vec::new();
        let mut i: usize = 0;
        assert(out@ =~= self.bytes@.subrange(0, 0));
        while i < self.bytes.len()
            invariant
                i <= self.bytes@.len(),
                out@ == self.bytes@.subrange(0, i as int),
            decreases self.bytes@.len() - i,
        {
            out.push(self.bytes[i]);
            assert(out@ =~= self.bytes@.subrange(0, i + 1));
            i = i + 1;
        }
        assert(out@ =~= self@);
        out
    }
}

} // verus!
