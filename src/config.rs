//! Bus and device configuration: signal widths, field sizes, device capacity,
//! and the per-transaction descriptor.
use vstd::arithmetic::power2::{lemma2_to64, lemma_pow2_strictly_increases, lemma_pow2_unfold, pow2};
use vstd::prelude::*;

verus! {

/// Signal width of one phase of a transaction (number of data lines used).
#[derive(Clone, Copy, Debug, PartialEq, Eq, Structural)]
pub enum OspiWidth {
    /// Phase absent.
    NONE,
    /// One line.
    SING,
    /// Two lines.
    DUAL,
    /// Four lines.
    QUAD,
    /// Eight lines.
    OCTO,
}

/// The phase-mode code of a width, as the controller's mode fields hold it.
pub open spec fn width_code(w: OspiWidth) -> nat {
    match w {
        OspiWidth::NONE => 0,
        OspiWidth::SING => 1,
        OspiWidth::DUAL => 2,
        OspiWidth::QUAD => 3,
        OspiWidth::OCTO => 4,
    }
}

impl OspiWidth {
    /// Phase-mode code of this width (0 for an absent phase, up to 4 for eight lines).
    pub fn code(self) -> (r: u8)
        ensures
            r as nat == width_code(self),
    {
        match self {
            OspiWidth::NONE => 0,
            OspiWidth::SING => 1,
            OspiWidth::DUAL => 2,
            OspiWidth::QUAD => 3,
            OspiWidth::OCTO => 4,
        }
    }
}

/// Size of the instruction or address field.
#[derive(Clone, Copy, Debug, PartialEq, Eq, Structural)]
pub enum AddressSize {
    _8Bit,
    _16Bit,
    _24bit,
    _32bit,
}

/// The two-bit size code of a field size.
pub open spec fn size_code(s: AddressSize) -> nat {
    match s {
        AddressSize::_8Bit => 0,
        AddressSize::_16Bit => 1,
        AddressSize::_24bit => 2,
        AddressSize::_32bit => 3,
    }
}

/// The number of values a field of this size can hold.
pub open spec fn size_capacity(s: AddressSize) -> nat {
    match s {
        AddressSize::_8Bit => 0x100,
        AddressSize::_16Bit => 0x1_0000,
        AddressSize::_24bit => 0x100_0000,
        AddressSize::_32bit => 0x1_0000_0000,
    }
}

impl AddressSize {
    /// Two-bit size code of this field size.
    pub fn code(self) -> (r: u8)
        ensures
            r as nat == size_code(self),
    {
        match self {
            AddressSize::_8Bit => 0,
            AddressSize::_16Bit => 1,
            AddressSize::_24bit => 2,
            AddressSize::_32bit => 3,
        }
    }

    /// Whether `v` can be sent in a field of this size.
    pub fn holds(self, v: u32) -> (r: bool)
        ensures
            r == ((v as nat) < size_capacity(self)),
    {
        match self {
            AddressSize::_8Bit => v <= 0xFF,
            AddressSize::_16Bit => v <= 0xFFFF,
            AddressSize::_24bit => v <= 0xFF_FFFF,
            AddressSize::_32bit => true,
        }
    }
}

/// Capacity class of the attached memory device.
///
/// `Other(n)` stands for the raw device-size field value `n`, a device of
/// `2^(n+1)` bytes; the field has five bits, so `n` must not exceed 31.
#[derive(Clone, Copy, Debug, PartialEq, Eq, Structural)]
pub enum MemorySize {
    _1KiB,
    _2KiB,
    _4KiB,
    _8KiB,
    _16KiB,
    _32KiB,
    _64KiB,
    _128KiB,
    _256KiB,
    _512KiB,
    _1MiB,
    _2MiB,
    _4MiB,
    _8MiB,
    _16MiB,
    _32MiB,
    _64MiB,
    _128MiB,
    _256MiB,
    _512MiB,
    _1GiB,
    _2GiB,
    _4GiB,
    Other(u8),
}

/// The largest value of the five-bit device-size field.
pub const MAX_DEVSIZE_FIELD: u8 = 31;

/// The device-size field value of a capacity class: the device holds
/// `2^(field + 1)` bytes.
pub open spec fn devsize_field(m: MemorySize) -> nat {
    match m {
        MemorySize::_1KiB => 9,
        MemorySize::_2KiB => 10,
        MemorySize::_4KiB => 11,
        MemorySize::_8KiB => 12,
        MemorySize::_16KiB => 13,
        MemorySize::_32KiB => 14,
        MemorySize::_64KiB => 15,
        MemorySize::_128KiB => 16,
        MemorySize::_256KiB => 17,
        MemorySize::_512KiB => 18,
        MemorySize::_1MiB => 19,
        MemorySize::_2MiB => 20,
        MemorySize::_4MiB => 21,
        MemorySize::_8MiB => 22,
        MemorySize::_16MiB => 23,
        MemorySize::_32MiB => 24,
        MemorySize::_64MiB => 25,
        MemorySize::_128MiB => 26,
        MemorySize::_256MiB => 27,
        MemorySize::_512MiB => 28,
        MemorySize::_1GiB => 29,
        MemorySize::_2GiB => 30,
        MemorySize::_4GiB => 31,
        MemorySize::Other(n) => n as nat,
    }
}

/// A capacity class that the device-size field can express.
pub open spec fn memory_size_valid(m: MemorySize) -> bool {
    devsize_field(m) <= MAX_DEVSIZE_FIELD
}

/// Total addressable byte count of a device of this class.
pub open spec fn device_bytes(m: MemorySize) -> nat {
    pow2(devsize_field(m) + 1)
}

impl MemorySize {
    /// The device-size field value of this class.
    pub fn devsize(self) -> (r: u8)
        ensures
            r as nat == devsize_field(self),
    {
        match self {
            MemorySize::_1KiB => 9,
            MemorySize::_2KiB => 10,
            MemorySize::_4KiB => 11,
            MemorySize::_8KiB => 12,
            MemorySize::_16KiB => 13,
            MemorySize::_32KiB => 14,
            MemorySize::_64KiB => 15,
            MemorySize::_128KiB => 16,
            MemorySize::_256KiB => 17,
            MemorySize::_512KiB => 18,
            MemorySize::_1MiB => 19,
            MemorySize::_2MiB => 20,
            MemorySize::_4MiB => 21,
            MemorySize::_8MiB => 22,
            MemorySize::_16MiB => 23,
            MemorySize::_32MiB => 24,
            MemorySize::_64MiB => 25,
            MemorySize::_128MiB => 26,
            MemorySize::_256MiB => 27,
            MemorySize::_512MiB => 28,
            MemorySize::_1GiB => 29,
            MemorySize::_2GiB => 30,
            MemorySize::_4GiB => 31,
            MemorySize::Other(n) => n,
        }
    }

    /// Total addressable byte count of a device of this class.
    pub fn bytes(self) -> (r: u64)
        requires
            memory_size_valid(self),
        ensures
            r as nat == device_bytes(self),
            r <= 0x1_0000_0000,
    {
        let e = self.devsize();
        let mut b: u64 = 1;
        let mut i: u8 = 0;
        proof {
            lemma2_to64();
        }
        while i <= e
            invariant
                e <= MAX_DEVSIZE_FIELD,
                e as nat == devsize_field(self),
                i <= e + 1,
                b as nat == pow2(i as nat),
                pow2(32) == 0x1_0000_0000,
            decreases e + 1 - i,
        {
            proof {
                lemma_pow2_unfold((i + 1) as nat);
                lemma_pow2_strictly_increases(i as nat, 32);
            }
            b = b * 2;
            i = i + 1;
        }
        proof {
            if i < 32 {
                lemma_pow2_strictly_increases(i as nat, 32);
            }
        }
        b
    }
}

/// Description of one bus transaction: instruction phase, address phase and
/// data phase, each with its own signal width. The data length is not part
/// of it: it is the length of the buffer handed to a read or a write.
#[derive(Clone, Copy, Debug, PartialEq, Eq)]
pub struct TransferConfig {
    /// Instruction phase width.
    pub iwidth: OspiWidth,
    /// Instruction opcode, if the instruction phase is present.
    pub instruction: Option<u32>,
    /// Instruction field size.
    pub isize: AddressSize,
    /// Instruction sent at double transfer rate.
    pub idtr: bool,
    /// Address phase width.
    pub adwidth: OspiWidth,
    /// Device address, if the address phase is present.
    pub address: Option<u32>,
    /// Address field size.
    pub adsize: AddressSize,
    /// Address sent at double transfer rate.
    pub addtr: bool,
    /// Data phase width.
    pub dwidth: OspiWidth,
    /// Data moved at double transfer rate.
    pub ddtr: bool,
    /// Dummy clock cycles between the address and the data phase (at most 31).
    pub dummy: u8,
}

/// The largest number of dummy cycles the controller can insert.
pub const MAX_DUMMY_CYCLES: u8 = 31;

/// The descriptor with every phase absent, single-rate, 8-bit fields and no
/// dummy cycles.
pub open spec fn default_transfer() -> TransferConfig {
    TransferConfig {
        iwidth: OspiWidth::NONE,
        instruction: None,
        isize: AddressSize::_8Bit,
        idtr: false,
        adwidth: OspiWidth::NONE,
        address: None,
        adsize: AddressSize::_8Bit,
        addtr: false,
        dwidth: OspiWidth::NONE,
        ddtr: false,
        dummy: 0,
    }
}

impl Default for TransferConfig {
    fn default() -> (r: TransferConfig)
        ensures
            r == default_transfer(),
    {
        TransferConfig {
            iwidth: OspiWidth::NONE,
            instruction: None,
            isize: AddressSize::_8Bit,
            idtr: false,
            adwidth: OspiWidth::NONE,
            address: None,
            adsize: AddressSize::_8Bit,
            addtr: false,
            dwidth: OspiWidth::NONE,
            ddtr: false,
            dummy: 0,
        }
    }
}

/// Driver configuration, fixed when the driver is created.
#[derive(Clone, Copy, Debug, PartialEq, Eq)]
pub struct Config {
    /// Capacity class of the attached device.
    pub device_size: MemorySize,
    /// How many times a blocking transfer polls an unchanged status before it
    /// gives up with a timeout.
    pub poll_limit: u32,
}

/// The poll bound a default configuration carries.
pub const DEFAULT_POLL_LIMIT: u32 = 1_000_000;

/// The configuration with the smallest device field value and the default poll bound.
pub open spec fn default_config() -> Config {
    Config { device_size: MemorySize::Other(0), poll_limit: DEFAULT_POLL_LIMIT }
}

impl Default for Config {
    fn default() -> (r: Config)
        ensures
            r == default_config(),
    {
        Config { device_size: MemorySize::Other(0), poll_limit: DEFAULT_POLL_LIMIT }
    }
}

} // verus!
