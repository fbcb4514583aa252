//! The per-family SPI flash-controller register map.
//!
//! A value object: a base address plus fixed per-register offsets, supplied
//! by the owning chip family. Every derived address is exactly
//! `base + offset`; the two transfer-length registers are optional, and
//! their absence means the family's flash controller does not expose a
//! configurable transfer length for that line.

use vstd::prelude::*;

verus! {

#[derive(Debug, Clone, Copy, PartialEq, Eq)]
pub struct SpiRegisters {
    pub base: u32,
    pub usr_offset: u32,
    pub usr1_offset: u32,
    pub usr2_offset: u32,
    pub w0_offset: u32,
    pub mosi_length_offset: Option<u32>,
    pub miso_length_offset: Option<u32>,
}

impl SpiRegisters {
    /// Every declared offset stays within the 32-bit address space when
    /// added to the base. Holds for every table a chip family supplies.
    pub open spec fn wf(self) -> bool {
        &&& self.base + self.usr_offset <= u32::MAX
        &&& self.base + self.usr1_offset <= u32::MAX
        &&& self.base + self.usr2_offset <= u32::MAX
        &&& self.base + self.w0_offset <= u32::MAX
        &&& (self.mosi_length_offset matches Some(o) ==> self.base + o <= u32::MAX)
        &&& (self.miso_length_offset matches Some(o) ==> self.base + o <= u32::MAX)
    }

    /// The command register sits at the base address itself.
    pub fn cmd(&self) -> (r: u32)
        ensures
            r == self.base,
    {
        self.base
    }

    pub fn usr(&self) -> (r: u32)
        requires
            self.wf(),
        ensures
            r == self.base + self.usr_offset,
    {
        self.base + self.usr_offset
    }

    pub fn usr1(&self) -> (r: u32)
        requires
            self.wf(),
        ensures
            r == self.base + self.usr1_offset,
    {
        self.base + self.usr1_offset
    }

    pub fn usr2(&self) -> (r: u32)
        requires
            self.wf(),
        ensures
            r == self.base + self.usr2_offset,
    {
        self.base + self.usr2_offset
    }

    pub fn w0(&self) -> (r: u32)
        requires
            self.wf(),
        ensures
            r == self.base + self.w0_offset,
    {
        self.base + self.w0_offset
    }

    /// The MOSI transfer-length register, present exactly when the family
    /// declares an offset for it.
    pub fn mosi_length(&self) -> (r: Option<u32>)
        requires
            self.wf(),
        ensures
            match self.mosi_length_offset {
                Some(o) => r == Some((self.base + o) as u32),
                None => r is None,
            },
    {
        match self.mosi_length_offset {
            Some(o) => Some(self.base + o),
            None => None,
        }
    }

    /// The MISO transfer-length register, present exactly when the family
    /// declares an offset for it.
    pub fn miso_length(&self) -> (r: Option<u32>)
        requires
            self.wf(),
        ensures
            match self.miso_length_offset {
                Some(o) => r == Some((self.base + o) as u32),
                None => r is None,
            },
    {
        match self.miso_length_offset {
            Some(o) => Some(self.base + o),
            None => None,
        }
    }
}

} // verus!
