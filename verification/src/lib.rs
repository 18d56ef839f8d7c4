//! The device side of USB control transfers for a full-speed USB peripheral.
//!
//! `usb` holds the control-transfer engine and the capability it asks of the
//! hardware; `usb_impl` holds the platform adapter with its two layers, the packet
//! memory area and the toggle-on-write endpoint registers; `descriptors` holds the
//! device descriptor.

pub mod descriptors;
pub mod usb;
pub mod usb_impl;
