//! Pin bookkeeping and the command abstraction shared by panel drivers.
//!
//! The interface owns the panel's busy/data-command/reset pins as opaque
//! values; the asynchronous wire traffic itself is driven by the host
//! program around this crate.

use core::marker::PhantomData;

use vstd::prelude::*;

verus! {

/// A panel command: a value with a one-byte address on the wire.
pub trait Command: Copy {
    /// The command's wire address.
    spec fn spec_address(self) -> u8;

    fn address(self) -> (r: u8)
        ensures
            r == self.spec_address(),
    ;
}

/// Holds the panel's control pins; `SINGLE_BYTE_WRITE` selects whether
/// frame data is clocked out one byte per transfer.
pub struct DisplayInterfaceAsync<SPI, BUSY, DC, RST, DELAY, const SINGLE_BYTE_WRITE: bool> {
    pub busy: BUSY,
    pub dc: DC,
    pub rst: RST,
    pub spi_marker: PhantomData<SPI>,
    pub delay_marker: PhantomData<DELAY>,
}

impl<SPI, BUSY, DC, RST, DELAY, const SINGLE_BYTE_WRITE: bool> DisplayInterfaceAsync<
    SPI,
    BUSY,
    DC,
    RST,
    DELAY,
    SINGLE_BYTE_WRITE,
> {
    /// Takes ownership of the panel's busy, data/command and reset pins.
    pub fn new(busy: BUSY, dc: DC, rst: RST) -> (r: Self)
        ensures
            r.busy == busy,
            r.dc == dc,
            r.rst == rst,
    {
        DisplayInterfaceAsync {
            busy,
            dc,
            rst,
            spi_marker: PhantomData,
            delay_marker: PhantomData,
        }
    }
}

} // verus!
