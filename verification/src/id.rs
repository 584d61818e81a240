//! FTDI vendor id and common product ids.
use vstd::prelude::*;

verus! {

/// Future Technology Devices International vendor id.
pub const VID_FTDI: u16 = 0x0403;

/// FT232R / FT245R.
pub const PID_FT232R: u16 = 0x6001;

/// FT2232C/D/L.
pub const PID_FT2232: u16 = 0x6010;

/// FT4232H.
pub const PID_FT4232H: u16 = 0x6011;

/// FT232H.
pub const PID_FT232H: u16 = 0x6014;

/// FT231X / FT230X.
pub const PID_FT231X: u16 = 0x6015;

} // verus!
