//! Serial line parameters and the words that carry them to the chip.
use vstd::prelude::*;

verus! {

/// Parity setting.
#[derive(Copy, Clone, Debug, PartialEq, Eq, Structural)]
pub enum Parity {
    /// No parity bit.
    NoParity,
    /// Odd parity.
    Odd,
    /// Even parity.
    Even,
    /// Always 1.
    Mark,
    /// Always 0.
    Space,
}

/// Number of stop bits.
#[derive(Copy, Clone, Debug, PartialEq, Eq, Structural)]
pub enum StopBits {
    /// 1 stop bit.
    One,
    /// 1.5 stop bits.
    OneAndHalf,
    /// 2 stop bits.
    Two,
}

/// Serial line parameters.
#[derive(Copy, Clone, Debug, PartialEq, Eq, Structural)]
pub struct LineCoding {
    /// Baud rate in bits per second.
    pub baud_rate: u32,
    /// Data bits. Legal values are 7 and 8 (FTDI also allows 5/6 on some parts).
    pub data_bits: u8,
    /// Parity setting.
    pub parity: Parity,
    /// Stop bits.
    pub stop_bits: StopBits,
}

impl Default for LineCoding {
    /// 8N1 at 115200 baud.
    fn default() -> (coding: Self)
        ensures
            coding.baud_rate == 115200,
            coding.data_bits == 8,
            coding.parity == Parity::NoParity,
            coding.stop_bits == StopBits::One,
    {
        LineCoding {
            baud_rate: 115200,
            data_bits: 8,
            parity: Parity::NoParity,
            stop_bits: StopBits::One,
        }
    }
}

impl Parity {
    /// The number that stands for the setting on the wire.
    pub open spec fn number(self) -> int {
        match self {
            Parity::NoParity => 0,
            Parity::Odd => 1,
            Parity::Even => 2,
            Parity::Mark => 3,
            Parity::Space => 4,
        }
    }

    /// The number that stands for the setting on the wire.
    pub fn code(self) -> (code: u16)
        ensures
            code == self.number(),
    {
        match self {
            Parity::NoParity => 0,
            Parity::Odd => 1,
            Parity::Even => 2,
            Parity::Mark => 3,
            Parity::Space => 4,
        }
    }
}

impl StopBits {
    /// The number that stands for the setting on the wire.
    pub open spec fn number(self) -> int {
        match self {
            StopBits::One => 0,
            StopBits::OneAndHalf => 1,
            StopBits::Two => 2,
        }
    }

    /// The number that stands for the setting on the wire.
    pub fn code(self) -> (code: u16)
        ensures
            code == self.number(),
    {
        match self {
            StopBits::One => 0,
            StopBits::OneAndHalf => 1,
            StopBits::Two => 2,
        }
    }
}

impl LineCoding {
    /// The chip can be told this number of data bits.
    pub open spec fn has_legal_data_bits(self) -> bool {
        5 <= self.data_bits <= 8
    }

    /// The word that carries the framing: data bits from bit 0, parity from
    /// bit 8, stop bits from bit 11.
    pub open spec fn data_word(self) -> int {
        self.data_bits + 0x100 * self.parity.number() + 0x800 * self.stop_bits.number()
    }

    /// The framing as the word that carries it; `None` where the number of data
    /// bits is out of range.
    pub fn to_data_word(&self) -> (word: Option<u16>)
        ensures
            word is Some <==> self.has_legal_data_bits(),
            word is Some ==> word->0 == self.data_word(),
    {
        if !matches!(self.data_bits, 5..=8) {
            return None;
        }
        let bits: u16 = self.data_bits as u16;
        let parity: u16 = self.parity.code();
        let stop: u16 = self.stop_bits.code();
        assert(bits | (parity << 8) | (stop << 11) == bits + 0x100 * parity + 0x800 * stop)
            by (bit_vector)
            requires
                bits <= 8,
                parity <= 4,
                stop <= 2,
        ;
        Some(bits | (parity << 8) | (stop << 11))
    }
}

/// The word that carries the modem lines: which lines to set in the high byte,
/// their levels in the low byte, DTR in bit 0 of each and RTS in bit 1.
pub open spec fn modem_word(dtr: bool, rts: bool) -> int {
    0x300 + (if dtr {
        1int
    } else {
        0
    }) + (if rts {
        2int
    } else {
        0
    })
}

/// The modem lines as the word that carries them.
pub fn to_modem_word(dtr: bool, rts: bool) -> (word: u16)
    ensures
        word == modem_word(dtr, rts),
{
    let dtr_bit: u16 = if dtr {
        1
    } else {
        0
    };
    let rts_bit: u16 = if rts {
        1
    } else {
        0
    };
    assert((1u16 << 8) | (1u16 << 9) | dtr_bit | (rts_bit << 1) == 0x300 + dtr_bit + 2 * rts_bit)
        by (bit_vector)
        requires
            dtr_bit <= 1,
            rts_bit <= 1,
    ;
    (1u16 << 8) | (1u16 << 9) | dtr_bit | (rts_bit << 1)
}

/// Two framings with the same word are the same framing.
pub proof fn law_data_word_is_injective(first: LineCoding, second: LineCoding)
    requires
        first.has_legal_data_bits(),
        second.has_legal_data_bits(),
        first.data_word() == second.data_word(),
    ensures
        first.data_bits == second.data_bits,
        first.parity == second.parity,
        first.stop_bits == second.stop_bits,
{
    law_data_word_fields(first);
    law_data_word_fields(second);
}

/// The high byte of the modem word names both lines and no other; the low byte
/// holds the level of each and no other bit.
pub proof fn law_modem_word_fields(dtr: bool, rts: bool)
    ensures
        modem_word(dtr, rts) / 0x100 == 3,
        modem_word(dtr, rts) % 0x100 < 4,
        modem_word(dtr, rts) % 2 == 1 <==> dtr,
        modem_word(dtr, rts) / 2 % 2 == 1 <==> rts,
{
}

/// The data bits that can be set are 5 to 8, whatever the other settings.
pub proof fn law_legal_data_bits(coding: LineCoding)
    ensures
        coding.has_legal_data_bits() <==> coding.data_bits == 5 || coding.data_bits == 6
            || coding.data_bits == 7 || coding.data_bits == 8,
{
}

/// The framing word holds the data bits in its low byte, the parity in the three
/// bits above (none 0, odd 1, even 2, mark 3, space 4), and the stop bits above
/// those (one 0, one and a half 1, two 2).
pub proof fn law_data_word_fields(coding: LineCoding)
    requires
        5 <= coding.data_bits <= 8,
    ensures
        0 <= coding.data_word() < 0x2000,
        coding.data_word() % 0x100 == coding.data_bits,
        coding.data_word() / 0x100 % 8 == (match coding.parity {
            Parity::NoParity => 0int,
            Parity::Odd => 1,
            Parity::Even => 2,
            Parity::Mark => 3,
            Parity::Space => 4,
        }),
        coding.data_word() / 0x800 == (match coding.stop_bits {
            StopBits::One => 0int,
            StopBits::OneAndHalf => 1,
            StopBits::Two => 2,
        }),
{
}

/// The numbers that stand for parity and stop bits.
pub proof fn law_setting_numbers(parity: Parity, stop_bits: StopBits)
    ensures
        parity.number() == (match parity {
            Parity::NoParity => 0int,
            Parity::Odd => 1,
            Parity::Even => 2,
            Parity::Mark => 3,
            Parity::Space => 4,
        }),
        stop_bits.number() == (match stop_bits {
            StopBits::One => 0int,
            StopBits::OneAndHalf => 1,
            StopBits::Two => 2,
        }),
{
}

} // verus!
