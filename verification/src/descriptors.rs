//! The descriptors the device serves.

use vstd::prelude::*;

verus! {

/// The device descriptor, 18 bytes in 9 words. Fields of one byte share a word,
/// the first of the two in the low byte.
pub const DEVICE_DESCRIPTOR: [u16; 9] = [
    0x0112,  // length 18, type 1: device descriptor
    0x0200,  // USB version 2.00
    0x0000,  // device class and subclass 0: given by the interface
    0x4000,  // protocol 0, maximum packet size 64
    0x1D6B,  // vendor id
    0x0012,  // product id
    0x0001,  // device release 0.01
    0x0201,  // string indices of manufacturer 1 and product 2
    0x0003,  // string index of the serial number 3, number of configurations 0
];

} // verus!
