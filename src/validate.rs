//! The transaction validator: a pure decision, made before any hardware is
//! touched, on whether a descriptor and a data length are admissible on a
//! given device.
use crate::config::{
    device_bytes, memory_size_valid, size_capacity, width_code, MemorySize, OspiWidth,
    TransferConfig, MAX_DUMMY_CYCLES,
};
use crate::error::OspiError;
use vstd::prelude::*;

verus! {

/// The largest data phase the controller can move in one transaction: its
/// data-length register holds the length minus one in 32 bits.
pub const MAX_TRANSFER_LEN: u64 = 0x1_0000_0000;

/// What the validator knows of the device and the bus: fixed for the life of
/// a driver.
#[derive(Clone, Copy, Debug, PartialEq, Eq, Structural)]
pub struct Geometry {
    /// Capacity class of the attached device.
    pub device_size: MemorySize,
    /// The widest phase the wired bus can carry.
    pub bus_width: OspiWidth,
}

impl Geometry {
    /// The device size is one the controller can express.
    pub open spec fn valid(&self) -> bool {
        memory_size_valid(self.device_size)
    }
}

/// No phase is wider than the bus.
pub open spec fn widths_fit(g: Geometry, cfg: TransferConfig) -> bool {
    &&& width_code(cfg.iwidth) <= width_code(g.bus_width)
    &&& width_code(cfg.adwidth) <= width_code(g.bus_width)
    &&& width_code(cfg.dwidth) <= width_code(g.bus_width)
}

/// The phases of the descriptor form a transaction the controller can issue:
/// at least one of instruction and address is present, each present one has a
/// width and fits its field, and the dummy cycle count fits its field.
pub open spec fn phases_consistent(g: Geometry, cfg: TransferConfig) -> bool {
    &&& widths_fit(g, cfg)
    &&& (cfg.instruction is Some || cfg.address is Some)
    &&& (cfg.instruction matches Some(i) ==> cfg.iwidth != OspiWidth::NONE && (i as nat)
        < size_capacity(cfg.isize))
    &&& (cfg.address matches Some(a) ==> cfg.adwidth != OspiWidth::NONE && (a as nat)
        < size_capacity(cfg.adsize))
    &&& cfg.dummy <= MAX_DUMMY_CYCLES
}

/// Every byte touched, `[address, address + data_len)`, lies on the device,
/// and so does the address itself. A descriptor without an address phase is
/// exempt.
pub open spec fn in_range(g: Geometry, cfg: TransferConfig, data_len: nat) -> bool {
    cfg.address matches Some(a) ==> (a as nat) < device_bytes(g.device_size) && a + data_len
        <= device_bytes(g.device_size)
}

/// The transaction is admissible on the device.
pub open spec fn admissible(g: Geometry, cfg: TransferConfig, data_len: nat) -> bool {
    &&& phases_consistent(g, cfg)
    &&& data_len <= MAX_TRANSFER_LEN
    &&& in_range(g, cfg, data_len)
}

/// The validator's decision.
pub open spec fn validation(g: Geometry, cfg: TransferConfig, data_len: nat) -> Result<
    (),
    OspiError,
> {
    if admissible(g, cfg, data_len) {
        Ok(())
    } else {
        Err(OspiError::InvalidCommand)
    }
}

fn width_fits(w: OspiWidth, bus: OspiWidth) -> (r: bool)
    ensures
        r == (width_code(w) <= width_code(bus)),
{
    w.code() <= bus.code()
}

/// Decides whether a transaction moving `data_len` bytes (0 for a command
/// without data) is admissible on the device; rejection is `InvalidCommand`.
pub fn validate(geometry: &Geometry, cfg: &TransferConfig, data_len: usize) -> (r: Result<
    (),
    OspiError,
>)
    requires
        geometry.valid(),
    ensures
        r == validation(*geometry, *cfg, data_len as nat),
{
    if !(width_fits(cfg.iwidth, geometry.bus_width) && width_fits(cfg.adwidth, geometry.bus_width)
        && width_fits(cfg.dwidth, geometry.bus_width)) {
        return Err(OspiError::InvalidCommand);
    }
    if cfg.instruction.is_none() && cfg.address.is_none() {
        return Err(OspiError::InvalidCommand);
    }
    if let Some(i) = cfg.instruction {
        if cfg.iwidth == OspiWidth::NONE || !cfg.isize.holds(i) {
            return Err(OspiError::InvalidCommand);
        }
    }
    if cfg.dummy > MAX_DUMMY_CYCLES {
        return Err(OspiError::InvalidCommand);
    }
    let len = data_len as u64;
    if len > MAX_TRANSFER_LEN {
        return Err(OspiError::InvalidCommand);
    }
    if let Some(a) = cfg.address {
        if cfg.adwidth == OspiWidth::NONE || !cfg.adsize.holds(a) {
            return Err(OspiError::InvalidCommand);
        }
        let size = geometry.device_size.bytes();
        if a as u64 >= size || a as u64 + len > size {
            return Err(OspiError::InvalidCommand);
        }
    }
    Ok(())
}

/// The validator is a function of its inputs: two validations of the same
/// geometry, descriptor and length give the same result.
pub proof fn lemma_validation_deterministic(
    g1: Geometry,
    c1: TransferConfig,
    n1: nat,
    g2: Geometry,
    c2: TransferConfig,
    n2: nat,
)
    requires
        g1 == g2,
        c1 == c2,
        n1 == n2,
    ensures
        validation(g1, c1, n1) == validation(g2, c2, n2),
{
}

} // verus!
