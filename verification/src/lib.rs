//! Transport layer for a BlueNRG radio coprocessor on a half-duplex serial bus.
//!
//! Host and radio negotiate every transfer with a five-byte handshake
//! ([`handshake`]). Bytes the radio sends are collected in a ring buffer
//! ([`cb`]) and leave it as whole event frames ([`event`]). The two bus
//! transactions ([`write`], [`read`]) are step-by-step protocols in a common
//! vocabulary ([`transfer`]): the library decides, the caller drives the
//! lines and the bus.

use bluetooth_hci::event::Error as EventError;
use core::marker::PhantomData;
use vstd::prelude::*;

pub mod cb;
pub mod event;
pub mod handshake;
pub mod read;
pub mod transfer;
pub mod write;

verus! {

/// `bluetooth_hci::event::Error`, the error of the event decoder. The library
/// never looks inside one; it only carries it from the decoder's verdict
/// into `Error::BLE`.
#[verifier::external_type_specification]
#[verifier::external_body]
#[verifier::reject_recursive_types(V)]
pub struct ExEventError<V>(EventError<V>);

/// Why an attempt did not complete.
#[derive(Debug)]
pub enum Pending<E> {
    /// Nothing could be done this time; the caller tries again later.
    NotReady,
    /// The attempt failed for good.
    Failed(E),
}

/// The hard errors of the transport.
#[derive(Debug)]
#[verifier::reject_recursive_types(VE)]
pub enum Error<E, VE> {
    /// The bus transfer itself failed.
    Comm(E),
    /// Bytes arrived but did not decode as an event.
    BLE(EventError<VE>),
}

/// Handle of one radio: its chip-select line, its readiness line, and the
/// ring buffer for what it sends. The bus is not part of it; it is lent for
/// one transaction at a time.
pub struct BlueNRG<'buf, SPI, OutputPin, InputPin> {
    chip_select: OutputPin,
    data_ready: InputPin,
    rx_buffer: cb::Buffer<'buf>,
    _spi: PhantomData<SPI>,
}

impl<'buf, SPI, OutputPin, InputPin> BlueNRG<'buf, SPI, OutputPin, InputPin> {
    /// The ring buffer for received bytes.
    pub closed spec fn rx_buffer(&self) -> cb::Buffer<'buf> {
        self.rx_buffer
    }

    /// The chip-select line.
    pub closed spec fn chip_select(&self) -> OutputPin {
        self.chip_select
    }

    /// The readiness line.
    pub closed spec fn data_ready(&self) -> InputPin {
        self.data_ready
    }

    /// Resets the radio by running `reset` once, then takes the two lines
    /// and `rx_buffer` as the store of an empty ring buffer. Both cursors of
    /// the buffer stand at the start of the store, so its first window spans
    /// all of it.
    pub fn new<Reset>(
        rx_buffer: &'buf mut [u8],
        cs: OutputPin,
        dr: InputPin,
        reset: &mut Reset,
    ) -> (driver: BlueNRG<'buf, SPI, OutputPin, InputPin>) where Reset: FnMut()
        requires
            call_requires(*old(reset), ()),
        ensures
            call_ensures(*old(reset), (), ()),
            driver.chip_select() == cs,
            driver.data_ready() == dr,
            driver.rx_buffer()@ == Seq::<u8>::empty(),
            driver.rx_buffer().capacity() == old(rx_buffer)@.len(),
            driver.rx_buffer().read_index() == 0,
            driver.rx_buffer().contiguous_free() == old(rx_buffer)@.len(),
    {
        reset();
        BlueNRG {
            chip_select: cs,
            rx_buffer: cb::Buffer::new(rx_buffer),
            data_ready: dr,
            _spi: PhantomData,
        }
    }

    /// Lends the chip-select line, the readiness line and the ring buffer
    /// for the length of one transaction.
    pub fn parts(&mut self) -> (parts: (&mut OutputPin, &InputPin, &mut cb::Buffer<'buf>))
        ensures
            *parts.0 == old(self).chip_select(),
            *parts.1 == old(self).data_ready(),
            *parts.2 == old(self).rx_buffer(),
            final(self).chip_select() == *final(parts.0),
            final(self).data_ready() == old(self).data_ready(),
            final(self).rx_buffer() == *final(parts.2),
    {
        (&mut self.chip_select, &self.data_ready, &mut self.rx_buffer)
    }
}

/// Version of the radio's firmware and hardware.
#[derive(Clone, Copy, Debug, PartialEq, Eq, Structural)]
pub struct Version {
    /// Revision of the hardware.
    pub hw_version: u8,
    /// Major version of the firmware.
    pub major: u8,
    /// Minor version of the firmware.
    pub minor: u8,
    /// Patch level of the firmware.
    pub patch: u8,
}

/// The two fields of the controller's local version information in which
/// the radio packs its version.
#[derive(Clone, Copy, Debug, PartialEq, Eq, Structural)]
pub struct LocalVersionInfo {
    /// Revision of the HCI layer, as the controller reports it.
    pub hci_revision: u16,
    /// Subversion of the link manager, as the controller reports it.
    pub lmp_subversion: u16,
}

/// The version packed in the two fields: the hardware version in the high
/// byte of the HCI revision and the major version in its low byte; the minor
/// version and the patch level in the two low nibbles of the LMP subversion.
pub open spec fn unpacked(hci_revision: u16, lmp_subversion: u16) -> Version {
    Version {
        hw_version: (hci_revision / 256) as u8,
        major: (hci_revision % 256) as u8,
        minor: ((lmp_subversion / 16) % 16) as u8,
        patch: (lmp_subversion % 16) as u8,
    }
}

/// Reading the radio's version out of local version information.
pub trait LocalVersionInfoExt {
    /// The version of the radio.
    fn bluenrg_version(&self) -> Version;
}

impl LocalVersionInfoExt for LocalVersionInfo {
    fn bluenrg_version(&self) -> (version: Version)
        ensures
            version == unpacked(self.hci_revision, self.lmp_subversion),
    {
        let rev = self.hci_revision;
        let sub = self.lmp_subversion;
        assert((rev >> 8) == rev / 256) by (bit_vector);
        assert((rev & 0xFF) == rev % 256) by (bit_vector);
        assert(((sub >> 4) & 0xF) == (sub / 16) % 16) by (bit_vector);
        assert((sub & 0xF) == sub % 16) by (bit_vector);
        Version {
            hw_version: (rev >> 8) as u8,
            major: (rev & 0xFF) as u8,
            minor: ((sub >> 4) & 0xF) as u8,
            patch: (sub & 0xF) as u8,
        }
    }
}

} // verus!
