//! Registers, commands and card types of the MFRC522.

use vstd::prelude::*;

verus! {

/// The number that `bytes` spell, least significant byte first.
pub open spec fn le_number(bytes: Seq<u8>) -> nat
    decreases bytes.len(),
{
    if bytes.len() == 0 {
        0
    } else {
        bytes[0] as nat + 256 * le_number(bytes.drop_first())
    }
}

/// 256 to the power of `n`.
pub open spec fn pow256(n: nat) -> nat
    decreases n,
{
    if n == 0 {
        1
    } else {
        256 * pow256((n - 1) as nat)
    }
}

/// The identifier of a card.
#[derive(Debug, Clone)]
pub struct Uid {
    /// Number of bytes of the identifier: 4, 7 or 10.
    pub size: u8,
    pub uid_bytes: [u8; 10],
    /// The card's answer to the selection.
    pub sak: u8,
}

impl Uid {
    /// Whether the identifier has one of the three sizes that cards use.
    pub open spec fn wf(&self) -> bool {
        self.size == 4 || self.size == 7 || self.size == 10
    }

    /// The identifier as a number: its bytes, least significant first.
    pub fn get_number(&self) -> (number: u128)
        requires
            self.wf(),
        ensures
            number == le_number(self.uid_bytes@.take(self.size as int)),
    {
        let size: usize = self.size as usize;
        let ghost bytes = self.uid_bytes@.take(size as int);
        let mut number: u128 = 0;
        let mut i: usize = size;
        assert(bytes.skip(size as int) =~= Seq::<u8>::empty());
        while i > 0
            invariant
                i <= size <= 10,
                bytes == self.uid_bytes@.take(size as int),
                number == le_number(bytes.skip(i as int)),
                number < pow256((size - i) as nat),
            decreases i,
        {
            i -= 1;
            proof {
                assert(bytes.skip(i as int).drop_first() =~= bytes.skip(i + 1));
                assert(pow256((size - i) as nat) == 256 * pow256((size - i - 1) as nat));
                lemma_pow256_small((size - i - 1) as nat);
            }
            number = number * 256 + self.uid_bytes[i] as u128;
        }
        assert(bytes.skip(0) =~= bytes);
        number
    }
}

/// Up to ten bytes spell a number of at most eighty bits.
pub proof fn lemma_pow256_small(n: nat)
    requires
        n <= 10,
    ensures
        pow256(n) <= 0x1_0000_0000_0000_0000_0000,
    decreases n,
{
    reveal_with_fuel(pow256, 12);
}

pub struct PCDRegister;

pub struct PCDCommand;

pub struct PICCCommand;

#[allow(dead_code, non_upper_case_globals)]
impl PCDRegister {
    // Page 0: command and status
    pub const CommandReg: u8 = 0x01;
    pub const ComIEnReg: u8 = 0x02;
    pub const DivIEnReg: u8 = 0x03;
    pub const ComIrqReg: u8 = 0x04;
    pub const DivIrqReg: u8 = 0x05;
    pub const ErrorReg: u8 = 0x06;
    pub const Status1Reg: u8 = 0x07;
    pub const Status2Reg: u8 = 0x08;
    pub const FIFODataReg: u8 = 0x09;
    pub const FIFOLevelReg: u8 = 0x0A;
    pub const WaterLevelReg: u8 = 0x0B;
    pub const ControlReg: u8 = 0x0C;
    pub const BitFramingReg: u8 = 0x0D;
    pub const CollReg: u8 = 0x0E;
    // Page 1: command
    pub const ModeReg: u8 = 0x11;
    pub const TxModeReg: u8 = 0x12;
    pub const RxModeReg: u8 = 0x13;
    pub const TxControlReg: u8 = 0x14;
    pub const TxASKReg: u8 = 0x15;
    pub const TxSelReg: u8 = 0x16;
    pub const RxSelReg: u8 = 0x17;
    pub const RxThresholdReg: u8 = 0x18;
    pub const DemodReg: u8 = 0x19;
    pub const MfTxReg: u8 = 0x1C;
    pub const MfRxReg: u8 = 0x1D;
    pub const SerialSpeedReg: u8 = 0x1F;
    // Page 2: configuration
    pub const CRCResultRegH: u8 = 0x21;
    pub const CRCResultRegL: u8 = 0x22;
    pub const ModWidthReg: u8 = 0x24;
    pub const RFCfgReg: u8 = 0x26;
    pub const GsNReg: u8 = 0x27;
    pub const CWGsPReg: u8 = 0x28;
    pub const ModGsPReg: u8 = 0x29;
    pub const TModeReg: u8 = 0x2A;
    pub const TPrescalerReg: u8 = 0x2B;
    pub const TReloadRegH: u8 = 0x2C;
    pub const TReloadRegL: u8 = 0x2D;
    pub const TCounterValueRegH: u8 = 0x2E;
    pub const TCounterValueRegL: u8 = 0x2F;
    // Page 3: test registers
    pub const TestSel1Reg: u8 = 0x31;
    pub const TestSel2Reg: u8 = 0x32;
    pub const TestPinEnReg: u8 = 0x33;
    pub const TestPinValueReg: u8 = 0x34;
    pub const TestBusReg: u8 = 0x35;
    pub const AutoTestReg: u8 = 0x36;
    pub const VersionReg: u8 = 0x37;
    pub const AnalogTestReg: u8 = 0x38;
    pub const TestDAC1Reg: u8 = 0x39;
    pub const TestDAC2Reg: u8 = 0x3A;
    pub const TestADCReg: u8 = 0x3B;
}

#[allow(dead_code, non_upper_case_globals)]
impl PCDCommand {
    pub const Idle: u8 = 0x00;
    pub const Mem: u8 = 0x01;
    pub const GenerateRandomID: u8 = 0x02;
    pub const CalcCRC: u8 = 0x03;
    pub const Transmit: u8 = 0x04;
    pub const NoCmdChange: u8 = 0x07;
    pub const Receive: u8 = 0x08;
    pub const Transceive: u8 = 0x0C;
    pub const MFAuthent: u8 = 0x0E;
    pub const SoftReset: u8 = 0x0F;
}

#[allow(dead_code, non_upper_case_globals)]
impl PICCCommand {
    pub const PICC_CMD_REQA: u8 = 0x26;
    pub const PICC_CMD_WUPA: u8 = 0x52;
    pub const PICC_CMD_CT: u8 = 0x88;
    pub const PICC_CMD_SEL_CL1: u8 = 0x93;
    pub const PICC_CMD_SEL_CL2: u8 = 0x95;
    pub const PICC_CMD_SEL_CL3: u8 = 0x97;
    pub const PICC_CMD_HLTA: u8 = 0x50;
    pub const PICC_CMD_RATS: u8 = 0xE0;
    pub const PICC_CMD_MF_AUTH_KEY_A: u8 = 0x60;
    pub const PICC_CMD_MF_AUTH_KEY_B: u8 = 0x61;
    pub const PICC_CMD_MF_READ: u8 = 0x30;
    pub const PICC_CMD_MF_WRITE: u8 = 0xA0;
    pub const PICC_CMD_MF_DECREMENT: u8 = 0xC0;
    pub const PICC_CMD_MF_INCREMENT: u8 = 0xC1;
    pub const PICC_CMD_MF_RESTORE: u8 = 0xC2;
    pub const PICC_CMD_MF_TRANSFER: u8 = 0xB0;
    pub const PICC_CMD_UL_WRITE: u8 = 0xA2;
}

/// The version of the reader chip.
#[derive(Debug, Clone, Copy, PartialEq, Eq, Structural)]
#[allow(dead_code, non_camel_case_types)]
pub enum PCDVersion {
    Counterfeit,
    FM17522,
    FM17522_1,
    FM17522E,
    Version0_0,
    Version1_0,
    Version2_0,
    VersionUnknown,
}

#[allow(dead_code)]
impl PCDVersion {
    /// The version that the version register's value stands for.
    pub open spec fn of_byte(byte: u8) -> PCDVersion {
        if byte == 0x12 {
            PCDVersion::Counterfeit
        } else if byte == 0x88 {
            PCDVersion::FM17522
        } else if byte == 0xb2 {
            PCDVersion::FM17522_1
        } else if byte == 0x89 {
            PCDVersion::FM17522E
        } else if byte == 0x90 {
            PCDVersion::Version0_0
        } else if byte == 0x91 {
            PCDVersion::Version1_0
        } else if byte == 0x92 {
            PCDVersion::Version2_0
        } else {
            PCDVersion::VersionUnknown
        }
    }

    pub fn from_byte(byte: u8) -> (version: Self)
        ensures
            version == Self::of_byte(byte),
    {
        match byte {
            0x12 => PCDVersion::Counterfeit,
            0x88 => PCDVersion::FM17522,
            0xb2 => PCDVersion::FM17522_1,
            0x89 => PCDVersion::FM17522E,
            0x90 => PCDVersion::Version0_0,
            0x91 => PCDVersion::Version1_0,
            0x92 => PCDVersion::Version2_0,
            _ => PCDVersion::VersionUnknown,
        }
    }
}

/// The kind of a card.
#[derive(Debug, Clone, Copy, PartialEq, Eq, Structural)]
#[allow(dead_code)]
pub enum PICCType {
    PiccTypeUnknown,
    /// Compliant with ISO/IEC 14443-4.
    PiccTypeIso14443_4,
    /// Compliant with ISO/IEC 18092 (NFC).
    PiccTypeIso18092,
    /// MIFARE Classic, 320 bytes.
    PiccTypeMifareMini,
    /// MIFARE Classic, 1 KB.
    PiccTypeMifare1K,
    /// MIFARE Classic, 4 KB.
    PiccTypeMifare4K,
    /// MIFARE Ultralight or Ultralight C.
    PiccTypeMifareUL,
    PiccTypeMifarePlus,
    PiccTypeMifareDesfire,
    PiccTypeTnp3XXX,
    /// The answer says that the identifier is not complete.
    PiccTypeNotComplete,
}

impl PICCType {
    /// The kind that the low seven bits `low` of a card's answer to the
    /// selection stand for.
    pub open spec fn of_low_bits(low: u8) -> PICCType {
        if low == 0x20 {
            PICCType::PiccTypeIso14443_4
        } else if low == 0x40 {
            PICCType::PiccTypeIso18092
        } else if low == 0x09 {
            PICCType::PiccTypeMifareMini
        } else if low == 0x08 {
            PICCType::PiccTypeMifare1K
        } else if low == 0x18 {
            PICCType::PiccTypeMifare4K
        } else if low == 0x00 {
            PICCType::PiccTypeMifareUL
        } else if low == 0x10 || low == 0x11 {
            PICCType::PiccTypeMifarePlus
        } else if low == 0x01 {
            PICCType::PiccTypeTnp3XXX
        } else if low == 0x04 {
            PICCType::PiccTypeNotComplete
        } else {
            PICCType::PiccTypeUnknown
        }
    }

    /// The kind of the card that answered the selection with `sak`; the
    /// highest bit of the answer does not count.
    pub fn from_sak(sak: u8) -> (kind: Self)
        ensures
            kind == Self::of_low_bits(sak % 128),
    {
        let low: u8 = sak & 0x7F;
        assert(low == sak % 128) by (bit_vector)
            requires
                low == sak & 0x7F,
        ;
        match low {
            0x20 => PICCType::PiccTypeIso14443_4,
            0x40 => PICCType::PiccTypeIso18092,
            0x09 => PICCType::PiccTypeMifareMini,
            0x08 => PICCType::PiccTypeMifare1K,
            0x18 => PICCType::PiccTypeMifare4K,
            0x00 => PICCType::PiccTypeMifareUL,
            0x10 | 0x11 => PICCType::PiccTypeMifarePlus,
            0x01 => PICCType::PiccTypeTnp3XXX,
            0x04 => PICCType::PiccTypeNotComplete,
            _ => PICCType::PiccTypeUnknown,
        }
    }
}

/// The size of a card's identifier.
#[derive(Debug, Clone, Copy, PartialEq, Eq, Structural)]
pub enum UidSize {
    Four,
    Seven,
    Ten,
}

impl UidSize {
    pub fn to_byte(&self) -> (bytes: u8)
        ensures
            bytes == match *self {
                UidSize::Four => 4u8,
                UidSize::Seven => 7u8,
                UidSize::Ten => 10u8,
            },
    {
        match self {
            Self::Four => 4,
            Self::Seven => 7,
            Self::Ten => 10,
        }
    }
}

} // verus!
