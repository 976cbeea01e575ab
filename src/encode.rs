//! Encoding of an admitted transaction into the values of the controller's
//! command registers.
use crate::config::{size_code, width_code, AddressSize, OspiWidth, TransferConfig};
use crate::validate::MAX_TRANSFER_LEN;
use vstd::prelude::*;

verus! {

/// The register values that start one transaction.
#[derive(Clone, Copy, Debug, PartialEq, Eq, Structural)]
pub struct CommandRegisters {
    /// Communication configuration: phase modes, double-rate bits and field sizes.
    pub ccr: u32,
    /// Timing configuration: the dummy cycle count.
    pub tcr: u32,
    /// Data length minus one (0 when there is no data phase).
    pub dlr: u32,
    /// Instruction register, written when the instruction phase is present.
    pub ir: Option<u32>,
    /// Address register, written when the address phase is present.
    pub ar: Option<u32>,
}

/// The mode code of a phase: its width code, or 0 when the phase is absent.
pub open spec fn mode_of(present: bool, w: OspiWidth) -> nat {
    if present {
        width_code(w)
    } else {
        0
    }
}

/// A one-bit flag of a phase: set only when the phase is present.
pub open spec fn flag_of(present: bool, b: bool) -> nat {
    if present && b {
        1
    } else {
        0
    }
}

/// The size code of a phase: 0 when the phase is absent.
pub open spec fn size_of(present: bool, s: AddressSize) -> nat {
    if present {
        size_code(s)
    } else {
        0
    }
}

/// The communication configuration register value of a transaction: the
/// instruction mode in bits 0..3, its double-rate bit 3 and size in bits 4..6;
/// the address mode in bits 8..11, its double-rate bit 11 and size in bits
/// 12..14; the data mode in bits 24..27 and its double-rate bit 27. Every
/// field of an absent phase is zero.
pub open spec fn ccr_of(cfg: TransferConfig, data_len: nat) -> nat {
    let i = cfg.instruction is Some;
    let a = cfg.address is Some;
    let d = data_len > 0;
    mode_of(i, cfg.iwidth) + 0x8 * flag_of(i, cfg.idtr) + 0x10 * size_of(i, cfg.isize) + 0x100
        * mode_of(a, cfg.adwidth) + 0x800 * flag_of(a, cfg.addtr) + 0x1000 * size_of(a, cfg.adsize)
        + 0x100_0000 * mode_of(d, cfg.dwidth) + 0x800_0000 * flag_of(d, cfg.ddtr)
}

/// The register values of a transaction moving `data_len` bytes.
pub open spec fn encoded(cfg: TransferConfig, data_len: nat) -> CommandRegisters {
    CommandRegisters {
        ccr: ccr_of(cfg, data_len) as u32,
        tcr: cfg.dummy as u32,
        dlr: if data_len > 0 {
            (data_len - 1) as u32
        } else {
            0
        },
        ir: cfg.instruction,
        ar: cfg.address,
    }
}

fn mode_field(present: bool, w: OspiWidth) -> (r: u32)
    ensures
        r as nat == mode_of(present, w),
        r <= 4,
{
    if present {
        w.code() as u32
    } else {
        0
    }
}

fn flag_field(present: bool, b: bool) -> (r: u32)
    ensures
        r as nat == flag_of(present, b),
        r <= 1,
{
    if present && b {
        1
    } else {
        0
    }
}

fn size_field(present: bool, s: AddressSize) -> (r: u32)
    ensures
        r as nat == size_of(present, s),
        r <= 3,
{
    if present {
        s.code() as u32
    } else {
        0
    }
}

/// Places the field values at their bit offsets.
#[allow(clippy::too_many_arguments)]
fn pack_ccr(im: u32, it: u32, is: u32, am: u32, at: u32, az: u32, dm: u32, dt: u32) -> (r: u32)
    requires
        im <= 4,
        it <= 1,
        is <= 3,
        am <= 4,
        at <= 1,
        az <= 3,
        dm <= 4,
        dt <= 1,
    ensures
        r as nat == im + 0x8 * it + 0x10 * is + 0x100 * am + 0x800 * at + 0x1000 * az + 0x100_0000
            * dm + 0x800_0000 * dt,
{
    im + 0x8 * it + 0x10 * is + 0x100 * am + 0x800 * at + 0x1000 * az + 0x100_0000 * dm
        + 0x800_0000 * dt
}

/// The register values that start a transaction moving `data_len` bytes (0 for a command without data).
pub fn encode(cfg: &TransferConfig, data_len: usize) -> (r: CommandRegisters)
    requires
        data_len <= MAX_TRANSFER_LEN,
    ensures
        r == encoded(*cfg, data_len as nat),
        r.ccr as nat == ccr_of(*cfg, data_len as nat),
{
    let i = cfg.instruction.is_some();
    let a = cfg.address.is_some();
    let d = data_len > 0;
    let im = mode_field(i, cfg.iwidth);
    let it = flag_field(i, cfg.idtr);
    let is = size_field(i, cfg.isize);
    let am = mode_field(a, cfg.adwidth);
    let at = flag_field(a, cfg.addtr);
    let az = size_field(a, cfg.adsize);
    let dm = mode_field(d, cfg.dwidth);
    let dt = flag_field(d, cfg.ddtr);
    let ccr = pack_ccr(im, it, is, am, at, az, dm, dt);
    let dlr: u32 = if data_len > 0 {
        (data_len - 1) as u32
    } else {
        0
    };
    CommandRegisters {
        ccr,
        tcr: cfg.dummy as u32,
        dlr,
        ir: cfg.instruction,
        ar: cfg.address,
    }
}

} // verus!
