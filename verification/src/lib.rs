//! Host-side driver logic for FTDI FT232x USB to UART bridges.
//!
//! An FTDI bridge is a vendor-class device: it is recognised by its vendor and
//! product ids, and it moves UART data over one bulk IN and one bulk OUT
//! endpoint per channel. Line settings travel in vendor requests addressed to
//! the device, with the 1-based channel number in `wIndex`. Every bulk IN packet
//! starts with a 2-byte modem and line status header.
//!
//! This crate decides; it performs no transfers. Each operation says which
//! transfer to make next, and takes the outcome of that transfer as a value:
//!
//! - [`device`] opens a device and its channels,
//! - [`port`] runs the operations of one channel,
//! - [`discovery`] locates the data interfaces in a configuration descriptor.
pub mod baud;
pub mod control;
pub mod descriptor;
pub mod device;
pub mod discovery;
pub mod error;
pub mod id;
pub mod line;
pub mod port;
pub mod usb;
