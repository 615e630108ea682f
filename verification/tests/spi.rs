use embassy_neorv32::interrupts::LocalInterrupts;
use embassy_neorv32::pac::generic::Reg;
use embassy_neorv32::pac::spi::{Ctrl, Data, RegisterBlock};
use embassy_neorv32::pac::sysinfo;
use embassy_neorv32::peripherals::SPI;
use embassy_neorv32::spi::{
    Async, Blocking, Error, InterruptHandler, Mode, Phase, Polarity, Spi, Step, Transfer, DUMMY,
};
use embassy_neorv32::sysinfo::{SocConfig, SysInfo};
use embassy_neorv32::wake::{Poll, WakerSlot};

struct Irqs;

impl embassy_neorv32::interrupt::typelevel::Binding<
        embassy_neorv32::interrupt::typelevel::SPI,
        InterruptHandler<SPI>,
    > for Irqs
{
}

fn soc(bits: u32) -> SocConfig {
    SysInfo::soc_config(&sysinfo::RegisterBlock { clk: Reg::new(0), mem: Reg::new(0), soc: Reg::new(bits) })
}

fn block() -> RegisterBlock {
    RegisterBlock {
        ctrl: Ctrl {
            spi_ctrl_en: false,
            spi_ctrl_cpha: false,
            spi_ctrl_cpol: false,
            spi_ctrl_prsc: 0,
            spi_ctrl_cdiv: 0,
            spi_ctrl_tx_full: false,
            spi_ctrl_busy: false,
            spi_ctrl_fifo: 0,
        },
        data: Data { spi_data: 0, spi_data_cmd: true },
    }
}

const MODE_0: Mode = Mode { polarity: Polarity::IdleLow, phase: Phase::CaptureOnFirstTransition };
const MODE_3: Mode = Mode { polarity: Polarity::IdleHigh, phase: Phase::CaptureOnSecondTransition };

#[test]
fn spi_is_refused_where_the_unit_is_not_built_in() {
    let mut regs = block();
    let r: Result<Spi<Blocking>, Error> = Spi::new_blocking(SPI, &mut regs, &soc(0), 100_000_000, 0, MODE_3);
    assert_eq!(r.err(), Some(Error::NotSupported));
    assert_eq!(regs, block());
}

#[test]
fn mode_and_clock_are_written_and_the_controller_enabled() {
    let mut regs = block();
    assert!(Spi::new_blocking(SPI, &mut regs, &soc(1 << 18), 100_000_000, 1_000_000, MODE_3).is_ok());
    // 100 MHz / 4 MHz - 1 = 24: halved to 12
    assert_eq!((regs.ctrl.spi_ctrl_prsc, regs.ctrl.spi_ctrl_cdiv), (1, 12));
    assert!(regs.ctrl.spi_ctrl_cpol);
    assert!(regs.ctrl.spi_ctrl_cpha);
    assert!(regs.ctrl.spi_ctrl_en);

    let mut regs = block();
    regs.ctrl.spi_ctrl_cpol = true;
    regs.ctrl.spi_ctrl_cpha = true;
    assert!(Spi::new_blocking(SPI, &mut regs, &soc(1 << 18), 100_000_000, 25_000_000, MODE_0).is_ok());
    assert_eq!((regs.ctrl.spi_ctrl_prsc, regs.ctrl.spi_ctrl_cdiv), (0, 0));
    assert!(!regs.ctrl.spi_ctrl_cpol);
    assert!(!regs.ctrl.spi_ctrl_cpha);
}

#[test]
fn fifo_depth_is_a_power_of_two() {
    let mut regs = block();
    let spi = Spi::new_blocking(SPI, &mut regs, &soc(1 << 18), 100_000_000, 1_000_000, MODE_0).unwrap();
    assert_eq!(spi.fifo_depth(&regs), 1);
    regs.ctrl.spi_ctrl_fifo = 4;
    assert_eq!(spi.fifo_depth(&regs), 16);
    regs.ctrl.spi_ctrl_fifo = 15;
    assert_eq!(spi.fifo_depth(&regs), 32768);
}

#[test]
fn bytes_go_out_as_data_and_come_back_from_the_data_register() {
    let mut regs = block();
    let mut spi = Spi::new_blocking(SPI, &mut regs, &soc(1 << 18), 100_000_000, 1_000_000, MODE_0).unwrap();
    spi.write_byte(&mut regs, 0x3c);
    assert_eq!(regs.data, Data { spi_data: 0x3c, spi_data_cmd: false });
    assert_eq!(spi.read_byte(&regs), 0x3c);
    assert!(spi.blocking_flush(&regs));
    regs.ctrl.spi_ctrl_busy = true;
    assert!(!spi.blocking_flush(&regs));
    assert!(!Spi::<Blocking>::clear_fifos(&mut regs));
    assert!(!spi.disable(&mut regs));
    assert!(regs.ctrl.spi_ctrl_en);
    regs.ctrl.spi_ctrl_busy = false;
    assert!(Spi::<Blocking>::clear_fifos(&mut regs));
    assert!(regs.ctrl.spi_ctrl_en);
    assert!(spi.disable(&mut regs));
    assert!(!regs.ctrl.spi_ctrl_en);
}

#[test]
fn a_transfer_pads_the_write_and_drops_what_the_read_cannot_hold() {
    let mut regs = block();
    let mut spi = Spi::new_blocking(SPI, &mut regs, &soc(1 << 18), 100_000_000, 1_000_000, MODE_0).unwrap();
    let write = [1u8, 2];
    let mut read = vec![0u8; 3];
    let mut t = spi.blocking_transfer(read.len(), write.len());
    let mut sent = Vec::new();
    let mut rounds = 0;
    while !t.done() {
        while t.can_write(&regs) {
            t.write_next(&mut regs, &write);
            sent.push(regs.data.spi_data);
            // a FIFO of two bytes
            regs.ctrl.spi_ctrl_tx_full = sent.len() % 2 == 0;
        }
        regs.ctrl.spi_ctrl_tx_full = false;
        while t.can_read() {
            regs.data.spi_data = 0xa0 + rounds;
            t.read_next(&regs, &mut read);
            rounds += 1;
        }
    }
    assert_eq!(sent, vec![1, 2, DUMMY]);
    assert_eq!(read, vec![0xa0, 0xa1, 0xa2]);

    let mut short = vec![0u8; 1];
    let mut t = Transfer::new(short.len(), 3);
    for _ in 0..3 {
        t.write_next(&mut regs, &[7, 8, 9]);
    }
    assert!(!t.can_write(&regs));
    for byte in [0x11, 0x22, 0x33] {
        regs.data.spi_data = byte;
        t.read_next(&regs, &mut short);
    }
    assert!(t.done());
    assert_eq!(short, vec![0x11]);
    assert!(spi.blocking_transfer(0, 0).done());
}

#[test]
fn flush_is_ready_on_an_idle_bus_and_arms_the_interrupt_on_a_busy_one() {
    let mut regs = block();
    let mut spi: Spi<Async> =
        Spi::new_async(SPI, Irqs, &mut regs, &soc(1 << 18), 100_000_000, 1_000_000, MODE_0).unwrap();
    let mut local = LocalInterrupts::new();
    let mut waker = WakerSlot::new();
    assert_eq!(spi.flush(&regs, &mut local, &mut waker, 3), Poll::Ready(()));
    assert_eq!(local.sources, 0);
    regs.ctrl.spi_ctrl_busy = true;
    assert_eq!(spi.flush(&regs, &mut local, &mut waker, 3), Poll::Pending);
    assert_eq!(local.sources, 1 << 22);
    // the bus falls idle: the interrupt fires and is disabled before the wake
    regs.ctrl.spi_ctrl_busy = false;
    assert_eq!(InterruptHandler::<SPI>::on_interrupt(&mut local, &mut waker), Some(3));
    assert_eq!(local.sources, 0);
    assert_eq!(spi.flush(&regs, &mut local, &mut waker, 3), Poll::Ready(()));
    assert_eq!(local.sources, 0);
}

#[test]
fn a_write_goes_out_in_chunks_of_the_fifo_depth_and_ends_with_a_clear() {
    let mut regs = block();
    let mut spi = Spi::new_blocking(SPI, &mut regs, &soc(1 << 18), 100_000_000, 1_000_000, MODE_0).unwrap();
    assert_eq!(
        spi.blocking_write(&[1, 2, 3, 4, 5], 2),
        vec![
            Step::Write(1),
            Step::Write(2),
            Step::Flush,
            Step::Write(3),
            Step::Write(4),
            Step::Flush,
            Step::Write(5),
            Step::Flush,
            Step::Clear
        ]
    );
    assert_eq!(spi.blocking_write(&[], 4), vec![Step::Clear]);
    assert_eq!(spi.blocking_write(&[9], 1), vec![Step::Write(9), Step::Flush, Step::Clear]);
}

#[test]
fn a_transfer_in_place_reads_back_every_chunk_it_wrote() {
    let mut regs = block();
    let mut spi = Spi::new_blocking(SPI, &mut regs, &soc(1 << 18), 100_000_000, 1_000_000, MODE_0).unwrap();
    let expected = vec![
        Step::Write(7),
        Step::Write(8),
        Step::Flush,
        Step::Read(0),
        Step::Read(1),
        Step::Write(9),
        Step::Flush,
        Step::Read(2),
    ];
    assert_eq!(spi.blocking_transfer_in_place(&[7, 8, 9], 2), expected);
    assert_eq!(spi.blocking_read(&[7, 8, 9], 2), expected);
    assert_eq!(spi.blocking_transfer_in_place(&[], 2), vec![]);
    assert_eq!(
        spi.blocking_transfer_in_place(&[1, 2], 16),
        vec![Step::Write(1), Step::Write(2), Step::Flush, Step::Read(0), Step::Read(1)]
    );
}

#[test]
fn the_async_forms_take_the_same_steps() {
    let mut regs = block();
    let mut spi: Spi<Async> =
        Spi::new_async(SPI, Irqs, &mut regs, &soc(1 << 18), 100_000_000, 1_000_000, MODE_0).unwrap();
    assert_eq!(spi.write(&[1, 2, 3], 2), spi.blocking_write(&[1, 2, 3], 2));
    assert_eq!(spi.read(&[1, 2, 3], 2), spi.blocking_transfer_in_place(&[1, 2, 3], 2));
    assert_eq!(spi.transfer_in_place(&[1, 2, 3], 2), spi.blocking_transfer_in_place(&[1, 2, 3], 2));
    assert_eq!(spi.transfer(4, 2), Transfer::new(4, 2));
}
