use ospi_driver::config::{AddressSize, Config, MemorySize, OspiWidth, TransferConfig};
use ospi_driver::driver::{Operation, Ospi, Phase, Status, Step, Strategy, Transfer};
use ospi_driver::encode::{encode, CommandRegisters};
use ospi_driver::error::{Fault, OspiError};
use ospi_driver::validate::{validate, Geometry};

fn driver_1kib() -> Ospi {
    let config = Config {
        device_size: MemorySize::_1KiB,
        ..Default::default()
    };
    Ospi::new_quadspi(config).unwrap()
}

fn descriptor(address: u32) -> TransferConfig {
    TransferConfig {
        iwidth: OspiWidth::SING,
        instruction: Some(0xAA),
        isize: AddressSize::_8Bit,
        adwidth: OspiWidth::SING,
        address: Some(address),
        adsize: AddressSize::_32bit,
        ..Default::default()
    }
}

const DONE: Status = Status {
    complete: true,
    transfer_error: false,
    dma_error: false,
};

const NOTHING: Status = Status {
    complete: false,
    transfer_error: false,
    dma_error: false,
};

/// Runs an admitted transfer to its end with a completion flag.
fn finish(d: &mut Ospi, t: Transfer) -> Result<(), OspiError> {
    d.programmed();
    let step = match t.strategy {
        Strategy::Async => d.on_interrupt(DONE),
        _ => d.poll(DONE),
    };
    step.result().unwrap()
}

fn run(
    d: &mut Ospi,
    started: Result<Transfer, OspiError>,
) -> Result<(), OspiError> {
    match started {
        Ok(t) => finish(d, t),
        Err(e) => Err(e),
    }
}

#[test]
fn valid_transfers_succeed() {
    let mut d = driver_1kib();
    let cfg = descriptor(0x0);
    let data = [0u8; 16];

    let r = d.blocking_command(&cfg);
    assert_eq!(run(&mut d, r), Ok(()));
    let r = d.blocking_write(data.len(), &cfg);
    assert_eq!(run(&mut d, r), Ok(()));
    let r = d.blocking_write_dma(data.len(), &cfg);
    assert_eq!(run(&mut d, r), Ok(()));
    let r = d.write(data.len(), &cfg);
    assert_eq!(run(&mut d, r), Ok(()));
    let r = d.blocking_read(data.len(), &cfg);
    assert_eq!(run(&mut d, r), Ok(()));
    let r = d.blocking_read_dma(data.len(), &cfg);
    assert_eq!(run(&mut d, r), Ok(()));
    let r = d.read(data.len(), &cfg);
    assert_eq!(run(&mut d, r), Ok(()));
    assert!(d.is_idle());
}

#[test]
fn address_out_of_range_is_rejected() {
    let mut d = driver_1kib();
    let cfg = descriptor(0xffffff);
    let data = [0u8; 16];
    let n = data.len();

    assert_eq!(d.blocking_command(&cfg), Err(OspiError::InvalidCommand));
    assert_eq!(d.blocking_read(n, &cfg), Err(OspiError::InvalidCommand));
    assert_eq!(d.blocking_write(n, &cfg), Err(OspiError::InvalidCommand));
    assert_eq!(d.blocking_read_dma(n, &cfg), Err(OspiError::InvalidCommand));
    assert_eq!(d.blocking_write_dma(n, &cfg), Err(OspiError::InvalidCommand));
    assert_eq!(d.read(n, &cfg), Err(OspiError::InvalidCommand));
    assert_eq!(d.write(n, &cfg), Err(OspiError::InvalidCommand));
    assert_eq!(d.phase(), Phase::Idle);
}

#[test]
fn data_length_out_of_range_is_rejected() {
    let mut d = driver_1kib();
    let cfg = descriptor(0x0);
    let data = [0u8; 2048];
    let n = data.len();

    assert_eq!(d.blocking_read(n, &cfg), Err(OspiError::InvalidCommand));
    assert_eq!(d.blocking_write(n, &cfg), Err(OspiError::InvalidCommand));
    assert_eq!(d.blocking_read_dma(n, &cfg), Err(OspiError::InvalidCommand));
    assert_eq!(d.blocking_write_dma(n, &cfg), Err(OspiError::InvalidCommand));
    assert_eq!(d.read(n, &cfg), Err(OspiError::InvalidCommand));
    assert_eq!(d.write(n, &cfg), Err(OspiError::InvalidCommand));
    assert_eq!(d.phase(), Phase::Idle);
}

#[test]
fn strategies_agree() {
    let cases = [(descriptor(0), 16usize), (descriptor(0xffffff), 16), (descriptor(0), 2048), (descriptor(1000), 24), (descriptor(1000), 25)];
    for (cfg, n) in cases.iter() {
        let mut a = driver_1kib();
        let mut b = driver_1kib();
        let mut c = driver_1kib();
        let ra = a.blocking_write(*n, cfg).map(|t| t.regs);
        let rb = b.blocking_write_dma(*n, cfg).map(|t| t.regs);
        let rc = c.write(*n, cfg).map(|t| t.regs);
        assert_eq!(ra, rb);
        assert_eq!(rb, rc);
    }
    let mut a = driver_1kib();
    let mut c = driver_1kib();
    assert!(a.blocking_write(24, &descriptor(1000)).is_ok());
    assert_eq!(c.write(25, &descriptor(1000)), Err(OspiError::InvalidCommand));
}

#[test]
fn rejection_leaves_no_trace() {
    let mut fresh = driver_1kib();
    let mut d = driver_1kib();
    assert_eq!(d.blocking_write(16, &descriptor(0xffffff)), Err(OspiError::InvalidCommand));
    assert_eq!(d.blocking_read(2048, &descriptor(0)), Err(OspiError::InvalidCommand));
    assert_eq!(d.phase(), Phase::Idle);
    let after = d.blocking_write(16, &descriptor(0));
    let clean = fresh.blocking_write(16, &descriptor(0));
    assert_eq!(after, clean);
    assert!(after.is_ok());
    assert_eq!(d.phase(), fresh.phase());
}

#[test]
fn validation_is_repeatable() {
    let g = Geometry {
        device_size: MemorySize::_1KiB,
        bus_width: OspiWidth::QUAD,
    };
    for (cfg, n) in [(descriptor(0), 16usize), (descriptor(0xffffff), 0), (descriptor(0), 2048)] {
        assert_eq!(validate(&g, &cfg, n), validate(&g, &cfg, n));
    }
    assert_eq!(validate(&g, &descriptor(0), 16), Ok(()));
    assert_eq!(validate(&g, &descriptor(0xffffff), 0), Err(OspiError::InvalidCommand));
}

#[test]
fn range_edges() {
    let g = Geometry {
        device_size: MemorySize::_1KiB,
        bus_width: OspiWidth::QUAD,
    };
    // The last byte of the device.
    assert_eq!(validate(&g, &descriptor(1023), 1), Ok(()));
    // Data that ends exactly at the device end.
    assert_eq!(validate(&g, &descriptor(0), 1024), Ok(()));
    assert_eq!(validate(&g, &descriptor(1), 1024), Err(OspiError::InvalidCommand));
    // An address at the device end, even without data.
    assert_eq!(validate(&g, &descriptor(1024), 0), Err(OspiError::InvalidCommand));
    assert_eq!(validate(&g, &descriptor(1023), 0), Ok(()));
}

#[test]
fn largest_device_and_transfer_limit() {
    let g = Geometry {
        device_size: MemorySize::_4GiB,
        bus_width: OspiWidth::OCTO,
    };
    assert_eq!(MemorySize::_4GiB.bytes(), 0x1_0000_0000);
    assert_eq!(validate(&g, &descriptor(0xFFFF_FFFF), 1), Ok(()));
    assert_eq!(validate(&g, &descriptor(0xFFFF_FFFF), 2), Err(OspiError::InvalidCommand));
    let instr_only = TransferConfig {
        iwidth: OspiWidth::SING,
        instruction: Some(0x9F),
        ..Default::default()
    };
    assert_eq!(validate(&g, &instr_only, 0x1_0000_0000), Ok(()));
    assert_eq!(validate(&g, &instr_only, 0x1_0000_0001), Err(OspiError::InvalidCommand));
}

#[test]
fn structural_rejections() {
    let g = Geometry {
        device_size: MemorySize::_1KiB,
        bus_width: OspiWidth::QUAD,
    };
    let mut wide = descriptor(0);
    wide.dwidth = OspiWidth::OCTO;
    assert_eq!(validate(&g, &wide, 4), Err(OspiError::InvalidCommand));
    let mut no_phase = descriptor(0);
    no_phase.instruction = None;
    no_phase.address = None;
    assert_eq!(validate(&g, &no_phase, 4), Err(OspiError::InvalidCommand));
    let mut big_instruction = descriptor(0);
    big_instruction.instruction = Some(0x1AA);
    assert_eq!(validate(&g, &big_instruction, 4), Err(OspiError::InvalidCommand));
    big_instruction.isize = AddressSize::_16Bit;
    assert_eq!(validate(&g, &big_instruction, 4), Ok(()));
    let mut silent = descriptor(0);
    silent.iwidth = OspiWidth::NONE;
    assert_eq!(validate(&g, &silent, 4), Err(OspiError::InvalidCommand));
    let mut narrow_address = descriptor(0x100);
    narrow_address.adsize = AddressSize::_8Bit;
    assert_eq!(validate(&g, &narrow_address, 4), Err(OspiError::InvalidCommand));
    let mut dummy = descriptor(0);
    dummy.dummy = 31;
    assert_eq!(validate(&g, &dummy, 4), Ok(()));
    dummy.dummy = 32;
    assert_eq!(validate(&g, &dummy, 4), Err(OspiError::InvalidCommand));
}

#[test]
fn empty_data_phase_is_rejected() {
    let mut d = driver_1kib();
    assert_eq!(d.blocking_read(0, &descriptor(0)), Err(OspiError::InvalidCommand));
    assert_eq!(d.write(0, &descriptor(0)), Err(OspiError::InvalidCommand));
    assert!(d.is_idle());
}

#[test]
fn register_encoding() {
    let cfg = descriptor(0);
    assert_eq!(
        encode(&cfg, 16),
        CommandRegisters {
            ccr: 0x3101,
            tcr: 0,
            dlr: 15,
            ir: Some(0xAA),
            ar: Some(0),
        }
    );
    assert_eq!(encode(&cfg, 0).dlr, 0);
    let quad = TransferConfig {
        iwidth: OspiWidth::SING,
        instruction: Some(0xEB),
        isize: AddressSize::_8Bit,
        idtr: true,
        adwidth: OspiWidth::QUAD,
        address: Some(0x20),
        adsize: AddressSize::_24bit,
        addtr: true,
        dwidth: OspiWidth::QUAD,
        ddtr: true,
        dummy: 6,
    };
    let regs = encode(&quad, 256);
    assert_eq!(regs.ccr, 0x1 | 0x8 | 0x300 | 0x800 | 0x2000 | 0x300_0000 | 0x800_0000);
    assert_eq!(regs.tcr, 6);
    assert_eq!(regs.dlr, 255);
    // Without data the data fields stay clear.
    assert_eq!(encode(&quad, 0).ccr, 0x1 | 0x8 | 0x300 | 0x800 | 0x2000);
    // Without an address the address fields stay clear.
    let mut no_addr = quad;
    no_addr.address = None;
    assert_eq!(encode(&no_addr, 0).ccr, 0x9);
    assert_eq!(encode(&no_addr, 0).ar, None);
}

#[test]
fn admitted_transfer_carries_registers() {
    let mut d = driver_1kib();
    let t = d.blocking_write_dma(16, &descriptor(0)).unwrap();
    assert_eq!(t.op, Operation::Write);
    assert_eq!(t.strategy, Strategy::BlockingDma);
    assert_eq!(t.regs, encode(&descriptor(0), 16));
    assert_eq!(
        d.phase(),
        Phase::Programming {
            op: Operation::Write,
            strategy: Strategy::BlockingDma
        }
    );
}

#[test]
fn blocking_wait_times_out() {
    let config = Config {
        device_size: MemorySize::_1KiB,
        poll_limit: 3,
    };
    let mut d = Ospi::new_quadspi(config).unwrap();
    d.blocking_write(16, &descriptor(0)).unwrap();
    d.programmed();
    assert_eq!(d.poll(NOTHING), Step::Pending);
    assert_eq!(d.poll(NOTHING), Step::Pending);
    assert_eq!(d.poll(NOTHING), Step::Pending);
    let last = d.poll(NOTHING);
    assert_eq!(last, Step::Failed(Fault::Timeout));
    assert_eq!(last.result(), Some(Err(OspiError::Fault(Fault::Timeout))));
    assert!(d.is_idle());
    // The driver takes the next transaction.
    let r = d.blocking_command(&descriptor(0));
    assert_eq!(run(&mut d, r), Ok(()));
}

#[test]
fn async_wait_has_no_poll_bound() {
    let config = Config {
        device_size: MemorySize::_1KiB,
        poll_limit: 0,
    };
    let mut d = Ospi::new_quadspi(config).unwrap();
    d.read(8, &descriptor(0)).unwrap();
    d.programmed();
    for _ in 0..10 {
        assert_eq!(d.on_interrupt(NOTHING), Step::Pending);
    }
    assert_eq!(d.on_interrupt(DONE), Step::Done);
    assert!(d.is_idle());
}

#[test]
fn hardware_faults() {
    let mut d = driver_1kib();
    d.blocking_read(4, &descriptor(0)).unwrap();
    d.programmed();
    let s = d.poll(Status {
        complete: true,
        transfer_error: true,
        dma_error: false,
    });
    assert_eq!(s, Step::Failed(Fault::TransferError));
    assert!(d.is_idle());

    d.read(4, &descriptor(0)).unwrap();
    d.programmed();
    let s = d.on_interrupt(Status {
        complete: false,
        transfer_error: false,
        dma_error: true,
    });
    assert_eq!(s.result(), Some(Err(OspiError::Fault(Fault::DmaError))));
    assert!(d.is_idle());
}

#[test]
fn cancel_returns_to_idle() {
    let mut d = driver_1kib();
    assert!(!d.cancel());
    d.write(4, &descriptor(0)).unwrap();
    d.programmed();
    assert!(d.cancel());
    assert!(d.is_idle());
    assert!(d.write(4, &descriptor(0)).is_ok());
}

#[test]
fn step_results() {
    assert_eq!(Step::Pending.result(), None);
    assert_eq!(Step::Done.result(), Some(Ok(())));
}

#[test]
fn configuration() {
    assert_eq!(MemorySize::_1KiB.bytes(), 1024);
    assert_eq!(MemorySize::_2MiB.bytes(), 2 * 1024 * 1024);
    assert_eq!(MemorySize::Other(0).bytes(), 2);
    assert_eq!(MemorySize::Other(9).bytes(), 1024);
    assert_eq!(MemorySize::_16MiB.devsize(), 23);
    let bad = Config {
        device_size: MemorySize::Other(32),
        poll_limit: 1,
    };
    assert_eq!(Ospi::new_quadspi(bad).err(), Some(OspiError::InvalidConfiguration));
    let ok = Config::default();
    assert_eq!(ok.device_size, MemorySize::Other(0));
    assert_eq!(Ospi::new(ok, OspiWidth::NONE).err(), Some(OspiError::InvalidConfiguration));
    let d = Ospi::new(ok, OspiWidth::OCTO).unwrap();
    assert_eq!(
        d.geometry(),
        Geometry {
            device_size: MemorySize::Other(0),
            bus_width: OspiWidth::OCTO
        }
    );
    assert_eq!(d.poll_limit(), ok.poll_limit);
    let t = TransferConfig::default();
    assert_eq!(t.instruction, None);
    assert_eq!(t.address, None);
    assert_eq!(t.dwidth, OspiWidth::NONE);
    assert_eq!(OspiWidth::OCTO.code(), 4);
    assert_eq!(AddressSize::_24bit.code(), 2);
    assert!(AddressSize::_24bit.holds(0xFF_FFFF));
    assert!(!AddressSize::_24bit.holds(0x100_0000));
}
