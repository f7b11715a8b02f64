//! Field value types: closed sets of spec-defined numeric codes and
//! bit-packed fields. Each enum encodes to the one- or two-byte code its
//! `spec_code` gives; bit-packed types carry their exact wire layout.

use vstd::prelude::*;

verus! {

#[derive(Clone, Copy, Debug)]
pub enum WakeupType {
    Reserved,
    Other,
    Unknown,
    ApmTimer,
    ModemRing,
    LanRemote,
    PowerSwitch,
    PciPme,
    AcPowerRestored,
}

impl WakeupType {
    pub open spec fn spec_code(&self) -> u8 {
        match self {
            WakeupType::Reserved => 0,
            WakeupType::Other => 1,
            WakeupType::Unknown => 2,
            WakeupType::ApmTimer => 3,
            WakeupType::ModemRing => 4,
            WakeupType::LanRemote => 5,
            WakeupType::PowerSwitch => 6,
            WakeupType::PciPme => 7,
            WakeupType::AcPowerRestored => 8,
        }
    }

    #[verifier::when_used_as_spec(spec_code)]
    pub fn code(&self) -> (r: u8)
        ensures
            r == self.spec_code(),
    {
        match self {
            WakeupType::Reserved => 0,
            WakeupType::Other => 1,
            WakeupType::Unknown => 2,
            WakeupType::ApmTimer => 3,
            WakeupType::ModemRing => 4,
            WakeupType::LanRemote => 5,
            WakeupType::PowerSwitch => 6,
            WakeupType::PciPme => 7,
            WakeupType::AcPowerRestored => 8,
        }
    }
}

#[derive(Clone, Copy, Debug)]
pub enum ProcessorType {
    Other,
    Unknown,
    CentralProcessor,
    MathProcessor,
    DspProcessor,
    VideoProcessor,
}

impl ProcessorType {
    pub open spec fn spec_code(&self) -> u8 {
        match self {
            ProcessorType::Other => 1,
            ProcessorType::Unknown => 2,
            ProcessorType::CentralProcessor => 3,
            ProcessorType::MathProcessor => 4,
            ProcessorType::DspProcessor => 5,
            ProcessorType::VideoProcessor => 6,
        }
    }

    #[verifier::when_used_as_spec(spec_code)]
    pub fn code(&self) -> (r: u8)
        ensures
            r == self.spec_code(),
    {
        match self {
            ProcessorType::Other => 1,
            ProcessorType::Unknown => 2,
            ProcessorType::CentralProcessor => 3,
            ProcessorType::MathProcessor => 4,
            ProcessorType::DspProcessor => 5,
            ProcessorType::VideoProcessor => 6,
        }
    }
}

#[derive(Clone, Copy, Debug)]
pub enum ProcessorFamily {
    Other,
    Unknown,
    ObtainFrom2,
}

impl ProcessorFamily {
    pub open spec fn spec_code(&self) -> u8 {
        match self {
            ProcessorFamily::Other => 1,
            ProcessorFamily::Unknown => 2,
            ProcessorFamily::ObtainFrom2 => 0xfe,
        }
    }

    #[verifier::when_used_as_spec(spec_code)]
    pub fn code(&self) -> (r: u8)
        ensures
            r == self.spec_code(),
    {
        match self {
            ProcessorFamily::Other => 1,
            ProcessorFamily::Unknown => 2,
            ProcessorFamily::ObtainFrom2 => 0xfe,
        }
    }
}

#[derive(Clone, Copy, Debug)]
pub enum ProcessorFamily2 {
    RiscvRv32,
    RiscvRv64,
    RiscvRv128,
    Reserved,
}

impl ProcessorFamily2 {
    pub open spec fn spec_code(&self) -> u16 {
        match self {
            ProcessorFamily2::RiscvRv32 => 0x200,
            ProcessorFamily2::RiscvRv64 => 0x201,
            ProcessorFamily2::RiscvRv128 => 0x202,
            ProcessorFamily2::Reserved => 0xfffe,
        }
    }

    #[verifier::when_used_as_spec(spec_code)]
    pub fn code(&self) -> (r: u16)
        ensures
            r == self.spec_code(),
    {
        match self {
            ProcessorFamily2::RiscvRv32 => 0x200,
            ProcessorFamily2::RiscvRv64 => 0x201,
            ProcessorFamily2::RiscvRv128 => 0x202,
            ProcessorFamily2::Reserved => 0xfffe,
        }
    }
}

#[derive(Clone, Copy, Debug)]
pub enum ProcessorUpgrade {
    Other,
    Unknown,
    DaughterBoard,
    NoUpgrade,
}

impl ProcessorUpgrade {
    pub open spec fn spec_code(&self) -> u8 {
        match self {
            ProcessorUpgrade::Other => 1,
            ProcessorUpgrade::Unknown => 2,
            ProcessorUpgrade::DaughterBoard => 3,
            ProcessorUpgrade::NoUpgrade => 6,
        }
    }

    #[verifier::when_used_as_spec(spec_code)]
    pub fn code(&self) -> (r: u8)
        ensures
            r == self.spec_code(),
    {
        match self {
            ProcessorUpgrade::Other => 1,
            ProcessorUpgrade::Unknown => 2,
            ProcessorUpgrade::DaughterBoard => 3,
            ProcessorUpgrade::NoUpgrade => 6,
        }
    }
}

#[derive(Clone, Copy, Debug)]
pub enum SramType {
    Other,
    Unknown,
    NonBurst,
    Burst,
    PipelineBurst,
    Synchronous,
    Asynchronous,
}

impl SramType {
    /// One flag bit per kind, two bytes on the wire.
    pub open spec fn spec_code(&self) -> u16 {
        match self {
            SramType::Other => 1,
            SramType::Unknown => 2,
            SramType::NonBurst => 4,
            SramType::Burst => 8,
            SramType::PipelineBurst => 16,
            SramType::Synchronous => 32,
            SramType::Asynchronous => 64,
        }
    }

    #[verifier::when_used_as_spec(spec_code)]
    pub fn code(&self) -> (r: u16)
        ensures
            r == self.spec_code(),
    {
        match self {
            SramType::Other => 1,
            SramType::Unknown => 2,
            SramType::NonBurst => 4,
            SramType::Burst => 8,
            SramType::PipelineBurst => 16,
            SramType::Synchronous => 32,
            SramType::Asynchronous => 64,
        }
    }
}

#[derive(Clone, Copy, Debug)]
pub enum EccType {
    Other,
    Unknown,
    NoEcc,
    Parity,
    SingleBitEcc,
    MultiBitEcc,
}

impl EccType {
    pub open spec fn spec_code(&self) -> u8 {
        match self {
            EccType::Other => 1,
            EccType::Unknown => 2,
            EccType::NoEcc => 3,
            EccType::Parity => 4,
            EccType::SingleBitEcc => 5,
            EccType::MultiBitEcc => 6,
        }
    }

    #[verifier::when_used_as_spec(spec_code)]
    pub fn code(&self) -> (r: u8)
        ensures
            r == self.spec_code(),
    {
        match self {
            EccType::Other => 1,
            EccType::Unknown => 2,
            EccType::NoEcc => 3,
            EccType::Parity => 4,
            EccType::SingleBitEcc => 5,
            EccType::MultiBitEcc => 6,
        }
    }
}

#[derive(Clone, Copy, Debug)]
pub enum SystemCacheType {
    Other,
    Unknown,
    Instruction,
    Data,
    Unified,
}

impl SystemCacheType {
    pub open spec fn spec_code(&self) -> u8 {
        match self {
            SystemCacheType::Other => 1,
            SystemCacheType::Unknown => 2,
            SystemCacheType::Instruction => 3,
            SystemCacheType::Data => 4,
            SystemCacheType::Unified => 5,
        }
    }

    #[verifier::when_used_as_spec(spec_code)]
    pub fn code(&self) -> (r: u8)
        ensures
            r == self.spec_code(),
    {
        match self {
            SystemCacheType::Other => 1,
            SystemCacheType::Unknown => 2,
            SystemCacheType::Instruction => 3,
            SystemCacheType::Data => 4,
            SystemCacheType::Unified => 5,
        }
    }
}

#[derive(Clone, Copy, Debug)]
pub enum Associativity {
    Other,
    Unknown,
    DirectMapped,
    SetAssociative2Way,
    SetAssociative4Way,
    FullyAssociative,
    SetAssociative8Way,
    SetAssociative16Way,
    SetAssociative12Way,
    SetAssociative24Way,
    SetAssociative32Way,
    SetAssociative48Way,
    SetAssociative64Way,
    SetAssociative20Way,
}

impl Associativity {
    pub open spec fn spec_code(&self) -> u8 {
        match self {
            Associativity::Other => 1,
            Associativity::Unknown => 2,
            Associativity::DirectMapped => 3,
            Associativity::SetAssociative2Way => 4,
            Associativity::SetAssociative4Way => 5,
            Associativity::FullyAssociative => 6,
            Associativity::SetAssociative8Way => 7,
            Associativity::SetAssociative16Way => 8,
            Associativity::SetAssociative12Way => 9,
            Associativity::SetAssociative24Way => 10,
            Associativity::SetAssociative32Way => 11,
            Associativity::SetAssociative48Way => 12,
            Associativity::SetAssociative64Way => 13,
            Associativity::SetAssociative20Way => 14,
        }
    }

    #[verifier::when_used_as_spec(spec_code)]
    pub fn code(&self) -> (r: u8)
        ensures
            r == self.spec_code(),
    {
        match self {
            Associativity::Other => 1,
            Associativity::Unknown => 2,
            Associativity::DirectMapped => 3,
            Associativity::SetAssociative2Way => 4,
            Associativity::SetAssociative4Way => 5,
            Associativity::FullyAssociative => 6,
            Associativity::SetAssociative8Way => 7,
            Associativity::SetAssociative16Way => 8,
            Associativity::SetAssociative12Way => 9,
            Associativity::SetAssociative24Way => 10,
            Associativity::SetAssociative32Way => 11,
            Associativity::SetAssociative48Way => 12,
            Associativity::SetAssociative64Way => 13,
            Associativity::SetAssociative20Way => 14,
        }
    }
}

#[derive(Clone, Copy, Debug)]
pub enum SlotType {
    Other,
    Unknown,
    PcieGen5Sff8639,
    PcieGen5,
    PcieGen5x1,
    PcieGen5x2,
    PcieGen5x4,
    PcieGen5x8,
    PcieGen5x16,
}

impl SlotType {
    pub open spec fn spec_code(&self) -> u8 {
        match self {
            SlotType::Other => 1,
            SlotType::Unknown => 2,
            SlotType::PcieGen5Sff8639 => 0x25,
            SlotType::PcieGen5 => 0xbf,
            SlotType::PcieGen5x1 => 0xc0,
            SlotType::PcieGen5x2 => 0xc1,
            SlotType::PcieGen5x4 => 0xc2,
            SlotType::PcieGen5x8 => 0xc3,
            SlotType::PcieGen5x16 => 0xc4,
        }
    }

    #[verifier::when_used_as_spec(spec_code)]
    pub fn code(&self) -> (r: u8)
        ensures
            r == self.spec_code(),
    {
        match self {
            SlotType::Other => 1,
            SlotType::Unknown => 2,
            SlotType::PcieGen5Sff8639 => 0x25,
            SlotType::PcieGen5 => 0xbf,
            SlotType::PcieGen5x1 => 0xc0,
            SlotType::PcieGen5x2 => 0xc1,
            SlotType::PcieGen5x4 => 0xc2,
            SlotType::PcieGen5x8 => 0xc3,
            SlotType::PcieGen5x16 => 0xc4,
        }
    }
}

#[derive(Clone, Copy, Debug)]
pub enum SlotWidth {
    Other,
    Unknown,
    Width8Bits,
    Width16Bits,
    Width32Bits,
    Width64Bits,
    Width128Bits,
    Widthx1,
    Widthx2,
    Widthx4,
    Widthx8,
    Widthx12,
    Widthx16,
    Widthx32,
}

impl SlotWidth {
    pub open spec fn spec_code(&self) -> u8 {
        match self {
            SlotWidth::Other => 1,
            SlotWidth::Unknown => 2,
            SlotWidth::Width8Bits => 3,
            SlotWidth::Width16Bits => 4,
            SlotWidth::Width32Bits => 5,
            SlotWidth::Width64Bits => 6,
            SlotWidth::Width128Bits => 7,
            SlotWidth::Widthx1 => 8,
            SlotWidth::Widthx2 => 9,
            SlotWidth::Widthx4 => 10,
            SlotWidth::Widthx8 => 11,
            SlotWidth::Widthx12 => 12,
            SlotWidth::Widthx16 => 13,
            SlotWidth::Widthx32 => 14,
        }
    }

    #[verifier::when_used_as_spec(spec_code)]
    pub fn code(&self) -> (r: u8)
        ensures
            r == self.spec_code(),
    {
        match self {
            SlotWidth::Other => 1,
            SlotWidth::Unknown => 2,
            SlotWidth::Width8Bits => 3,
            SlotWidth::Width16Bits => 4,
            SlotWidth::Width32Bits => 5,
            SlotWidth::Width64Bits => 6,
            SlotWidth::Width128Bits => 7,
            SlotWidth::Widthx1 => 8,
            SlotWidth::Widthx2 => 9,
            SlotWidth::Widthx4 => 10,
            SlotWidth::Widthx8 => 11,
            SlotWidth::Widthx12 => 12,
            SlotWidth::Widthx16 => 13,
            SlotWidth::Widthx32 => 14,
        }
    }
}

#[derive(Clone, Copy, Debug)]
pub enum CurrentUsage {
    Other,
    Unknown,
    Available,
    InUse,
    Unavailable,
}

impl CurrentUsage {
    pub open spec fn spec_code(&self) -> u8 {
        match self {
            CurrentUsage::Other => 1,
            CurrentUsage::Unknown => 2,
            CurrentUsage::Available => 3,
            CurrentUsage::InUse => 4,
            CurrentUsage::Unavailable => 5,
        }
    }

    #[verifier::when_used_as_spec(spec_code)]
    pub fn code(&self) -> (r: u8)
        ensures
            r == self.spec_code(),
    {
        match self {
            CurrentUsage::Other => 1,
            CurrentUsage::Unknown => 2,
            CurrentUsage::Available => 3,
            CurrentUsage::InUse => 4,
            CurrentUsage::Unavailable => 5,
        }
    }
}

#[derive(Clone, Copy, Debug)]
pub enum SlotLength {
    Other,
    Unknown,
    ShortLength,
    LongLength,
    FormFactor2_5Drive,
    FormFactor3_5Drive,
}

impl SlotLength {
    pub open spec fn spec_code(&self) -> u8 {
        match self {
            SlotLength::Other => 1,
            SlotLength::Unknown => 2,
            SlotLength::ShortLength => 3,
            SlotLength::LongLength => 4,
            SlotLength::FormFactor2_5Drive => 5,
            SlotLength::FormFactor3_5Drive => 6,
        }
    }

    #[verifier::when_used_as_spec(spec_code)]
    pub fn code(&self) -> (r: u8)
        ensures
            r == self.spec_code(),
    {
        match self {
            SlotLength::Other => 1,
            SlotLength::Unknown => 2,
            SlotLength::ShortLength => 3,
            SlotLength::LongLength => 4,
            SlotLength::FormFactor2_5Drive => 5,
            SlotLength::FormFactor3_5Drive => 6,
        }
    }
}

#[derive(Clone, Copy, Debug)]
pub enum ArrayLocation {
    Other,
    Unknown,
    SystemBoard,
    CxlAddonCard,
}

impl ArrayLocation {
    pub open spec fn spec_code(&self) -> u8 {
        match self {
            ArrayLocation::Other => 1,
            ArrayLocation::Unknown => 2,
            ArrayLocation::SystemBoard => 3,
            ArrayLocation::CxlAddonCard => 0xa4,
        }
    }

    #[verifier::when_used_as_spec(spec_code)]
    pub fn code(&self) -> (r: u8)
        ensures
            r == self.spec_code(),
    {
        match self {
            ArrayLocation::Other => 1,
            ArrayLocation::Unknown => 2,
            ArrayLocation::SystemBoard => 3,
            ArrayLocation::CxlAddonCard => 0xa4,
        }
    }
}

#[derive(Clone, Copy, Debug)]
pub enum ArrayUse {
    Other,
    Unknown,
    SystemMemory,
    VideoMemory,
    FlashMemory,
    NonVolatileRam,
    CacheMemory,
}

impl ArrayUse {
    pub open spec fn spec_code(&self) -> u8 {
        match self {
            ArrayUse::Other => 1,
            ArrayUse::Unknown => 2,
            ArrayUse::SystemMemory => 3,
            ArrayUse::VideoMemory => 4,
            ArrayUse::FlashMemory => 5,
            ArrayUse::NonVolatileRam => 6,
            ArrayUse::CacheMemory => 7,
        }
    }

    #[verifier::when_used_as_spec(spec_code)]
    pub fn code(&self) -> (r: u8)
        ensures
            r == self.spec_code(),
    {
        match self {
            ArrayUse::Other => 1,
            ArrayUse::Unknown => 2,
            ArrayUse::SystemMemory => 3,
            ArrayUse::VideoMemory => 4,
            ArrayUse::FlashMemory => 5,
            ArrayUse::NonVolatileRam => 6,
            ArrayUse::CacheMemory => 7,
        }
    }
}

#[derive(Clone, Copy, Debug)]
pub enum ErrorCorrectionType {
    Other,
    Unknown,
    NoEcc,
    Parity,
    SingleBitEcc,
    MultiBitEcc,
    Crc,
}

impl ErrorCorrectionType {
    pub open spec fn spec_code(&self) -> u8 {
        match self {
            ErrorCorrectionType::Other => 1,
            ErrorCorrectionType::Unknown => 2,
            ErrorCorrectionType::NoEcc => 3,
            ErrorCorrectionType::Parity => 4,
            ErrorCorrectionType::SingleBitEcc => 5,
            ErrorCorrectionType::MultiBitEcc => 6,
            ErrorCorrectionType::Crc => 7,
        }
    }

    #[verifier::when_used_as_spec(spec_code)]
    pub fn code(&self) -> (r: u8)
        ensures
            r == self.spec_code(),
    {
        match self {
            ErrorCorrectionType::Other => 1,
            ErrorCorrectionType::Unknown => 2,
            ErrorCorrectionType::NoEcc => 3,
            ErrorCorrectionType::Parity => 4,
            ErrorCorrectionType::SingleBitEcc => 5,
            ErrorCorrectionType::MultiBitEcc => 6,
            ErrorCorrectionType::Crc => 7,
        }
    }
}

#[derive(Clone, Copy, Debug)]
pub enum FormFactor {
    Other,
    Unknown,
    Simm,
    Sip,
    Chip,
    Dip,
    Zip,
    Proprietary,
    Dimm,
    Tsop,
    RowOfChips,
    Rimm,
    Sodimm,
    Srimm,
    FbDimm,
    Die,
}

impl FormFactor {
    pub open spec fn spec_code(&self) -> u8 {
        match self {
            FormFactor::Other => 1,
            FormFactor::Unknown => 2,
            FormFactor::Simm => 3,
            FormFactor::Sip => 4,
            FormFactor::Chip => 5,
            FormFactor::Dip => 6,
            FormFactor::Zip => 7,
            FormFactor::Proprietary => 8,
            FormFactor::Dimm => 9,
            FormFactor::Tsop => 10,
            FormFactor::RowOfChips => 11,
            FormFactor::Rimm => 12,
            FormFactor::Sodimm => 13,
            FormFactor::Srimm => 14,
            FormFactor::FbDimm => 15,
            FormFactor::Die => 16,
        }
    }

    #[verifier::when_used_as_spec(spec_code)]
    pub fn code(&self) -> (r: u8)
        ensures
            r == self.spec_code(),
    {
        match self {
            FormFactor::Other => 1,
            FormFactor::Unknown => 2,
            FormFactor::Simm => 3,
            FormFactor::Sip => 4,
            FormFactor::Chip => 5,
            FormFactor::Dip => 6,
            FormFactor::Zip => 7,
            FormFactor::Proprietary => 8,
            FormFactor::Dimm => 9,
            FormFactor::Tsop => 10,
            FormFactor::RowOfChips => 11,
            FormFactor::Rimm => 12,
            FormFactor::Sodimm => 13,
            FormFactor::Srimm => 14,
            FormFactor::FbDimm => 15,
            FormFactor::Die => 16,
        }
    }
}

#[derive(Clone, Copy, Debug)]
pub enum MemoryType {
    Other,
    Unknown,
    Dram,
    Edram,
    Vram,
    Sram,
    Ram,
    Rom,
    Flash,
    Eeprom,
    Feprom,
    Eprom,
    Cdram,
    Dram3d,
    Sdram,
    Sgram,
    Rdram,
    Ddr,
    Ddr2,
    Ddr2FbDimm,
    Ddr3,
    Fbd2,
    Ddr4,
    Lpddr,
    Lpddr2,
    Lpddr3,
    Lpddr4,
    LogicalNonVolatile,
    Hbm,
    Hbm2,
    Ddr5,
    Lpddr5,
    Hbm3,
}

impl MemoryType {
    pub open spec fn spec_code(&self) -> u8 {
        match self {
            MemoryType::Other => 1,
            MemoryType::Unknown => 2,
            MemoryType::Dram => 3,
            MemoryType::Edram => 4,
            MemoryType::Vram => 5,
            MemoryType::Sram => 6,
            MemoryType::Ram => 7,
            MemoryType::Rom => 8,
            MemoryType::Flash => 9,
            MemoryType::Eeprom => 0xa,
            MemoryType::Feprom => 0xb,
            MemoryType::Eprom => 0xc,
            MemoryType::Cdram => 0xd,
            MemoryType::Dram3d => 0xe,
            MemoryType::Sdram => 0xf,
            MemoryType::Sgram => 0x10,
            MemoryType::Rdram => 0x11,
            MemoryType::Ddr => 0x12,
            MemoryType::Ddr2 => 0x13,
            MemoryType::Ddr2FbDimm => 0x14,
            MemoryType::Ddr3 => 0x18,
            MemoryType::Fbd2 => 0x19,
            MemoryType::Ddr4 => 0x1a,
            MemoryType::Lpddr => 0x1b,
            MemoryType::Lpddr2 => 0x1c,
            MemoryType::Lpddr3 => 0x1d,
            MemoryType::Lpddr4 => 0x1e,
            MemoryType::LogicalNonVolatile => 0x1f,
            MemoryType::Hbm => 0x20,
            MemoryType::Hbm2 => 0x21,
            MemoryType::Ddr5 => 0x22,
            MemoryType::Lpddr5 => 0x23,
            MemoryType::Hbm3 => 0x24,
        }
    }

    #[verifier::when_used_as_spec(spec_code)]
    pub fn code(&self) -> (r: u8)
        ensures
            r == self.spec_code(),
    {
        match self {
            MemoryType::Other => 1,
            MemoryType::Unknown => 2,
            MemoryType::Dram => 3,
            MemoryType::Edram => 4,
            MemoryType::Vram => 5,
            MemoryType::Sram => 6,
            MemoryType::Ram => 7,
            MemoryType::Rom => 8,
            MemoryType::Flash => 9,
            MemoryType::Eeprom => 0xa,
            MemoryType::Feprom => 0xb,
            MemoryType::Eprom => 0xc,
            MemoryType::Cdram => 0xd,
            MemoryType::Dram3d => 0xe,
            MemoryType::Sdram => 0xf,
            MemoryType::Sgram => 0x10,
            MemoryType::Rdram => 0x11,
            MemoryType::Ddr => 0x12,
            MemoryType::Ddr2 => 0x13,
            MemoryType::Ddr2FbDimm => 0x14,
            MemoryType::Ddr3 => 0x18,
            MemoryType::Fbd2 => 0x19,
            MemoryType::Ddr4 => 0x1a,
            MemoryType::Lpddr => 0x1b,
            MemoryType::Lpddr2 => 0x1c,
            MemoryType::Lpddr3 => 0x1d,
            MemoryType::Lpddr4 => 0x1e,
            MemoryType::LogicalNonVolatile => 0x1f,
            MemoryType::Hbm => 0x20,
            MemoryType::Hbm2 => 0x21,
            MemoryType::Ddr5 => 0x22,
            MemoryType::Lpddr5 => 0x23,
            MemoryType::Hbm3 => 0x24,
        }
    }
}

#[derive(Clone, Copy, Debug)]
pub enum MemoryTechnology {
    Other,
    Unknown,
    Dram,
    NvdimmN,
    NvdimmF,
    NvdimmP,
    IntelOptane,
}

impl MemoryTechnology {
    pub open spec fn spec_code(&self) -> u8 {
        match self {
            MemoryTechnology::Other => 1,
            MemoryTechnology::Unknown => 2,
            MemoryTechnology::Dram => 3,
            MemoryTechnology::NvdimmN => 4,
            MemoryTechnology::NvdimmF => 5,
            MemoryTechnology::NvdimmP => 6,
            MemoryTechnology::IntelOptane => 7,
        }
    }

    #[verifier::when_used_as_spec(spec_code)]
    pub fn code(&self) -> (r: u8)
        ensures
            r == self.spec_code(),
    {
        match self {
            MemoryTechnology::Other => 1,
            MemoryTechnology::Unknown => 2,
            MemoryTechnology::Dram => 3,
            MemoryTechnology::NvdimmN => 4,
            MemoryTechnology::NvdimmF => 5,
            MemoryTechnology::NvdimmP => 6,
            MemoryTechnology::IntelOptane => 7,
        }
    }
}

#[derive(Clone, Copy, Debug)]
pub enum PartitionRowPosition {
    Reserved,
    Unknown,
}

impl PartitionRowPosition {
    pub open spec fn spec_code(&self) -> u8 {
        match self {
            PartitionRowPosition::Reserved => 0,
            PartitionRowPosition::Unknown => 0xff,
        }
    }

    #[verifier::when_used_as_spec(spec_code)]
    pub fn code(&self) -> (r: u8)
        ensures
            r == self.spec_code(),
    {
        match self {
            PartitionRowPosition::Reserved => 0,
            PartitionRowPosition::Unknown => 0xff,
        }
    }
}

#[derive(Clone, Copy, Debug)]
pub enum ProcessorArchitecture {
    Riscv32,
    Riscv64,
    Riscv128,
}

impl ProcessorArchitecture {
    pub open spec fn spec_code(&self) -> u8 {
        match self {
            ProcessorArchitecture::Riscv32 => 6,
            ProcessorArchitecture::Riscv64 => 7,
            ProcessorArchitecture::Riscv128 => 8,
        }
    }

    #[verifier::when_used_as_spec(spec_code)]
    pub fn code(&self) -> (r: u8)
        ensures
            r == self.spec_code(),
    {
        match self {
            ProcessorArchitecture::Riscv32 => 6,
            ProcessorArchitecture::Riscv64 => 7,
            ProcessorArchitecture::Riscv128 => 8,
        }
    }
}

#[derive(Clone, Copy, Debug)]
pub enum Xlen {
    Unsupported,
    Xlen32,
    Xlen64,
    Xlen128,
}

impl Xlen {
    pub open spec fn spec_code(&self) -> u8 {
        match self {
            Xlen::Unsupported => 0,
            Xlen::Xlen32 => 1,
            Xlen::Xlen64 => 2,
            Xlen::Xlen128 => 3,
        }
    }

    #[verifier::when_used_as_spec(spec_code)]
    pub fn code(&self) -> (r: u8)
        ensures
            r == self.spec_code(),
    {
        match self {
            Xlen::Unsupported => 0,
            Xlen::Xlen32 => 1,
            Xlen::Xlen64 => 2,
            Xlen::Xlen128 => 3,
        }
    }
}

/// Characteristic flags of a firmware image, packed into the eight-byte
/// field of the corresponding structure; combine flag constants with `|`.
#[derive(Clone, Copy, Debug, PartialEq, Eq, Structural)]
pub struct BiosCharacteristics {
    pub bits: u64,
}

impl BiosCharacteristics {
    pub const RESERVED: u64 = 1u64 << 1;

    pub const UNKNOWN: u64 = 1u64 << 2;

    pub const UNSUPPORTED: u64 = 1u64 << 3;

    pub const ISA_SUPPORTED: u64 = 1u64 << 4;

    pub const MCA_SUPPORTED: u64 = 1u64 << 5;

    pub const EISA_SUPPORTED: u64 = 1u64 << 6;

    pub const PCI_SUPPORTED: u64 = 1u64 << 7;

    pub const PC_CARD_SUPPORTED: u64 = 1u64 << 8;

    pub const PNP_SUPPORTED: u64 = 1u64 << 9;

    pub const APM_SUPPORTED: u64 = 1u64 << 10;

    pub const UPGRADEABLE: u64 = 1u64 << 11;

    pub const SHADOWING_ALLOWED: u64 = 1u64 << 12;

    pub const VL_VESA_SUPPORTED: u64 = 1u64 << 13;

    pub const ESCD_AVAILABLE: u64 = 1u64 << 14;

    pub const BOOT_FROM_CD_SUPPORTED: u64 = 1u64 << 15;

    pub const SELECTABLE_BOOT_SUPPORTED: u64 = 1u64 << 16;

    pub const SOCKETED_ROM: u64 = 1u64 << 17;

    pub const BOOT_FROM_PC_CARD_SUPPORTED: u64 = 1u64 << 18;

    pub const EDD_SPEC_SUPPORTED: u64 = 1u64 << 19;

    pub fn new(bits: u64) -> (r: Self)
        ensures
            r.bits == bits,
    {
        BiosCharacteristics { bits }
    }
}

/// First extension byte of the characteristic flags.
#[derive(Clone, Copy, Debug, PartialEq, Eq, Structural)]
pub struct BiosCharacteristicsEx1 {
    pub bits: u8,
}

impl BiosCharacteristicsEx1 {
    pub const ACPI_SUPPORTED: u8 = 1u8 << 0;

    pub const USB_LEGACY_SUPPORTED: u8 = 1u8 << 1;

    pub const AGP_SUPPORTED: u8 = 1u8 << 2;

    pub const SMART_BATTERY_SUPPORTED: u8 = 1u8 << 7;

    pub fn new(bits: u8) -> (r: Self)
        ensures
            r.bits == bits,
    {
        BiosCharacteristicsEx1 { bits }
    }
}

/// Second extension byte of the characteristic flags.
#[derive(Clone, Copy, Debug, PartialEq, Eq, Structural)]
pub struct BiosCharacteristicsEx2 {
    pub bits: u8,
}

impl BiosCharacteristicsEx2 {
    pub const BIOS_BOOT_SPEC_SUPPORTED: u8 = 1u8 << 0;

    pub const FN_KEY_NETWORK_BOOT_SUPPORTED: u8 = 1u8 << 1;

    pub const TARGETED_CONTENT_DISTRIBUTION: u8 = 1u8 << 2;

    pub const UEFI_SUPPORTED: u8 = 1u8 << 3;

    pub const VIRTUAL_MACHINE: u8 = 1u8 << 4;

    pub const MANUFACTURING_MODE_SUPPORTED: u8 = 1u8 << 5;

    pub const MANUFACTURING_MODE_ENABLED: u8 = 1u8 << 6;

    pub fn new(bits: u8) -> (r: Self)
        ensures
            r.bits == bits,
    {
        BiosCharacteristicsEx2 { bits }
    }
}

/// Characteristic flags of a processor, for the two-byte
/// characteristics field of the processor information structure.
#[derive(Clone, Copy, Debug, PartialEq, Eq, Structural)]
pub struct RiscvProcessorCharacteristics1 {
    pub bits: u16,
}

impl RiscvProcessorCharacteristics1 {
    pub const RESERVED: u16 = 1u16 << 0;

    pub const UNKNOWN: u16 = 1u16 << 1;

    pub const BITS64_CAPABLE: u16 = 1u16 << 2;

    pub const MULTI_CORE: u16 = 1u16 << 3;

    pub const HARDWARE_THREAD: u16 = 1u16 << 4;

    pub const EXECUTE_PROTECTION: u16 = 1u16 << 5;

    pub const ENHANCED_VIRTUALIZATION: u16 = 1u16 << 6;

    pub const POWER_PERFORMANCE_CONTROL: u16 = 1u16 << 7;

    pub const BITS128_CAPABLE: u16 = 1u16 << 8;

    pub fn new(bits: u16) -> (r: Self)
        ensures
            r.bits == bits,
    {
        RiscvProcessorCharacteristics1 { bits }
    }
}

/// First characteristic byte of an expansion slot.
#[derive(Clone, Copy, Debug, PartialEq, Eq, Structural)]
pub struct SlotCharacteristics1 {
    pub bits: u8,
}

impl SlotCharacteristics1 {
    pub const UNKNOWN: u8 = 1u8 << 0;

    pub const PROVIDES_5_VOLTS: u8 = 1u8 << 1;

    pub const PROVIDES_3_3_VOLTS: u8 = 1u8 << 2;

    pub fn new(bits: u8) -> (r: Self)
        ensures
            r.bits == bits,
    {
        SlotCharacteristics1 { bits }
    }
}

/// Second characteristic byte of an expansion slot.
#[derive(Clone, Copy, Debug, PartialEq, Eq, Structural)]
pub struct SlotCharacteristics2 {
    pub bits: u8,
}

impl SlotCharacteristics2 {
    pub const PME_SUPPORTED: u8 = 1u8 << 0;

    pub const HOTPLUG_SUPPORTED: u8 = 1u8 << 1;

    pub const SMBUS_SUPPORTED: u8 = 1u8 << 2;

    pub const BIFURCATION_SUPPORTED: u8 = 1u8 << 3;

    pub const SURPRISE_REMOVAL_SUPPORTED: u8 = 1u8 << 4;

    pub const CXL1_SUPPORTED: u8 = 1u8 << 5;

    pub const CXL2_SUPPORTED: u8 = 1u8 << 6;

    pub const CXL3_SUPPORTED: u8 = 1u8 << 7;

    pub fn new(bits: u8) -> (r: Self)
        ensures
            r.bits == bits,
    {
        SlotCharacteristics2 { bits }
    }
}

/// Detail flags for the two-byte type-detail field of the memory device
/// structure.
#[derive(Clone, Copy, Debug, PartialEq, Eq, Structural)]
pub struct TypeDetail {
    pub bits: u16,
}

impl TypeDetail {
    pub const OTHER: u16 = 1u16 << 1;

    pub const UNKNOWN: u16 = 1u16 << 2;

    pub const FAST_PAGED: u16 = 1u16 << 3;

    pub const STATIC_COLUMN: u16 = 1u16 << 4;

    pub const PSEUDO_STATIC: u16 = 1u16 << 5;

    pub const RAMBUS: u16 = 1u16 << 6;

    pub const SYNCHRONOUS: u16 = 1u16 << 7;

    pub const CMOS: u16 = 1u16 << 8;

    pub const EDO: u16 = 1u16 << 9;

    pub const WINDOW_DRAM: u16 = 1u16 << 10;

    pub const CACHE_DRAM: u16 = 1u16 << 11;

    pub const NON_VOLATILE: u16 = 1u16 << 12;

    pub const REGISTERED: u16 = 1u16 << 13;

    pub const UNBUFFERED: u16 = 1u16 << 14;

    pub const LRDIMM: u16 = 1u16 << 15;

    pub fn new(bits: u16) -> (r: Self)
        ensures
            r.bits == bits,
    {
        TypeDetail { bits }
    }
}

/// Operating-mode flags for the memory device structure.
#[derive(Clone, Copy, Debug, PartialEq, Eq, Structural)]
pub struct OperatingMode {
    pub bits: u16,
}

impl OperatingMode {
    pub const OTHER: u16 = 1u16 << 1;

    pub const UNKNOWN: u16 = 1u16 << 2;

    pub const VOLATILE: u16 = 1u16 << 3;

    pub const BYTE_ACCESSIBLE_PERSISTENT: u16 = 1u16 << 4;

    pub const BLOCK_ACCESSIBLE_PERSISTENT: u16 = 1u16 << 5;

    pub fn new(bits: u16) -> (r: Self)
        ensures
            r.bits == bits,
    {
        OperatingMode { bits }
    }
}

/// Characteristic flags of a TPM device.
#[derive(Clone, Copy, Debug, PartialEq, Eq, Structural)]
pub struct TpmDeviceCharacteristics {
    pub bits: u64,
}

impl TpmDeviceCharacteristics {
    pub const UNSUPPORTED: u64 = 1u64 << 2;

    pub const FAMILY_CONFIGURABLE_VIA_FIRMWARE_UPDATE: u64 = 1u64 << 3;

    pub const FAMILY_CONFIGURABLE_VIA_PLATFORM_SOFTWARE: u64 = 1u64 << 4;

    pub const FAMILY_CONFIGURABLE_VIA_OEM_PROPRIETARY: u64 = 1u64 << 5;

    pub fn new(bits: u64) -> (r: Self)
        ensures
            r.bits == bits,
    {
        TpmDeviceCharacteristics { bits }
    }
}

/// Bit-packed cache configuration word: operational mode in bits 9:8,
/// enabled in bit 7, location in bits 6:5, socketed in bit 3, level in
/// bits 2:0.
#[derive(Clone, Copy, Debug)]
pub struct CacheConfiguration {
    pub bits: u16,
}

impl CacheConfiguration {
    pub open spec fn spec_bits(&self) -> u16 {
        self.bits
    }

    #[verifier::when_used_as_spec(spec_bits)]
    pub fn bits(&self) -> (r: u16)
        ensures
            r == self.spec_bits(),
    {
        self.bits
    }

    pub fn new() -> (r: Self)
        ensures
            r.spec_bits() == 0,
    {
        CacheConfiguration { bits: 0 }
    }

    /// Set the operational mode field, bits 9:8, to the low bits of `v`.
    pub fn set_op_mode(&mut self, v: u16)
        ensures
            final(self).spec_bits() == (old(self).spec_bits() & !0x300) | ((v & 0x3) << 8),
    {
        self.bits = (self.bits & !0x300) | ((v & 0x3) << 8);
    }

    pub fn op_mode(&self) -> (r: u16)
        ensures
            r == (self.spec_bits() >> 8) & 0x3,
    {
        (self.bits >> 8) & 0x3
    }

    /// Set the enabled flag, bit 7.
    pub fn set_enabled(&mut self, v: bool)
        ensures
            final(self).spec_bits() == if v {
                old(self).spec_bits() | 0x80
            } else {
                old(self).spec_bits() & !0x80
            },
    {
        if v {
            self.bits = self.bits | 0x80;
        } else {
            self.bits = self.bits & !0x80;
        }
    }

    pub fn enabled(&self) -> (r: bool)
        ensures
            r == ((self.spec_bits() >> 7) & 1 == 1),
    {
        (self.bits >> 7) & 1 == 1
    }

    /// Set the location field, bits 6:5, to the low bits of `v`.
    pub fn set_location(&mut self, v: u16)
        ensures
            final(self).spec_bits() == (old(self).spec_bits() & !0x60) | ((v & 0x3) << 5),
    {
        self.bits = (self.bits & !0x60) | ((v & 0x3) << 5);
    }

    pub fn location(&self) -> (r: u16)
        ensures
            r == (self.spec_bits() >> 5) & 0x3,
    {
        (self.bits >> 5) & 0x3
    }

    /// Set the socketed flag, bit 3.
    pub fn set_socketed(&mut self, v: bool)
        ensures
            final(self).spec_bits() == if v {
                old(self).spec_bits() | 0x8
            } else {
                old(self).spec_bits() & !0x8
            },
    {
        if v {
            self.bits = self.bits | 0x8;
        } else {
            self.bits = self.bits & !0x8;
        }
    }

    pub fn socketed(&self) -> (r: bool)
        ensures
            r == ((self.spec_bits() >> 3) & 1 == 1),
    {
        (self.bits >> 3) & 1 == 1
    }

    /// Set the cache level field, bits 2:0, to the low bits of `v`.
    pub fn set_level(&mut self, v: u16)
        ensures
            final(self).spec_bits() == (old(self).spec_bits() & !0x7) | (v & 0x7),
    {
        self.bits = (self.bits & !0x7) | (v & 0x7);
    }

    pub fn level(&self) -> (r: u16)
        ensures
            r == self.spec_bits() & 0x7,
    {
        self.bits & 0x7
    }
}

} // verus!
