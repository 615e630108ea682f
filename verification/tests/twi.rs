use embassy_neorv32::pac::twi::{Ctrl, Dcmd, RegisterBlock};
use embassy_neorv32::peripherals::TWI;
use embassy_neorv32::twi::{Command, Error, Mack, Operation, Rw, Step, Twi, HI_Z};
use embassy_neorv32::wake::Poll;

fn block() -> RegisterBlock {
    RegisterBlock {
        ctrl: Ctrl {
            twi_ctrl_en: false,
            twi_ctrl_prsc: 0,
            twi_ctrl_cdiv: 0,
            twi_ctrl_clkstr: false,
            twi_ctrl_tx_full: false,
            twi_ctrl_busy: false,
        },
        dcmd: Dcmd { twi_dcmd: 0, twi_dcmd_ack: false, twi_dcmd_cmd: 0 },
    }
}

fn driver(regs: &mut RegisterBlock) -> Twi<embassy_neorv32::twi::Blocking> {
    Twi::new_blocking(TWI, regs, 100_000_000, 100_000, true)
}

#[test]
fn conversions_give_the_hardware_codes() {
    assert_eq!(u8::from(Command::Nop), 0);
    assert_eq!(u8::from(Command::Start), 1);
    assert_eq!(u8::from(Command::Stop), 2);
    assert_eq!(u8::from(Command::Data), 3);
    assert!(bool::from(Mack::Ack));
    assert!(!bool::from(Mack::Nack));
    assert_eq!(u8::from(Rw::Read), 1);
    assert_eq!(u8::from(Rw::Write), 0);
    assert_eq!(HI_Z, 0xff);
}

#[test]
fn clock_is_split_into_prescaler_and_divider() {
    let mut regs = block();
    let _twi = driver(&mut regs);
    // 100 MHz / (8 * 100 kHz) - 1 = 124: halved to 62, 31, then an eighth 3
    assert_eq!(regs.ctrl.twi_ctrl_prsc, 3);
    assert_eq!(regs.ctrl.twi_ctrl_cdiv, 3);
    assert!(regs.ctrl.twi_ctrl_clkstr);
    assert!(regs.ctrl.twi_ctrl_en);

    let mut regs = block();
    let _twi: Twi<embassy_neorv32::twi::Blocking> = Twi::new_blocking(TWI, &mut regs, 8_000_000, 1_000_000, false);
    // 8 MHz / 8 MHz - 1 = 0
    assert_eq!((regs.ctrl.twi_ctrl_prsc, regs.ctrl.twi_ctrl_cdiv), (0, 0));
    assert!(!regs.ctrl.twi_ctrl_clkstr);
}

#[test]
fn a_step_is_issued_only_with_room_in_the_fifo() {
    let mut regs = block();
    let mut twi = driver(&mut regs);
    regs.ctrl.twi_ctrl_tx_full = true;
    let before = regs;
    assert_eq!(twi.start(&mut regs), Poll::Pending);
    assert_eq!(twi.write_byte(&mut regs, 1), Poll::Pending);
    assert_eq!(regs, before);
    assert!(twi.tx_full(&regs));
    regs.ctrl.twi_ctrl_tx_full = false;
    assert_eq!(twi.start(&mut regs), Poll::Ready(()));
    assert_eq!(regs.dcmd, Dcmd { twi_dcmd: 0, twi_dcmd_ack: false, twi_dcmd_cmd: 1 });
    assert_eq!(twi.write_byte(&mut regs, 0xa5), Poll::Ready(()));
    assert_eq!(regs.dcmd, Dcmd { twi_dcmd: 0xa5, twi_dcmd_ack: false, twi_dcmd_cmd: 3 });
    assert_eq!(twi.read_byte(&mut regs, Mack::Ack), Poll::Ready(()));
    assert_eq!(regs.dcmd, Dcmd { twi_dcmd: 0xff, twi_dcmd_ack: true, twi_dcmd_cmd: 3 });
    assert_eq!(twi.issue(&mut regs, Step::Read(Mack::Nack)), Poll::Ready(()));
    assert_eq!(regs.dcmd, Dcmd { twi_dcmd: 0xff, twi_dcmd_ack: false, twi_dcmd_cmd: 3 });
    assert_eq!(twi.stop(&mut regs), Poll::Ready(()));
    assert_eq!(regs.dcmd.twi_dcmd_cmd, 2);
}

#[test]
fn a_step_is_finished_once_the_bus_is_idle() {
    let mut regs = block();
    let twi = driver(&mut regs);
    regs.ctrl.twi_ctrl_busy = true;
    assert!(twi.tx_busy(&regs));
    assert_eq!(twi.finish(&regs, Step::Write(1)), Poll::Pending);
    regs.ctrl.twi_ctrl_busy = false;
    regs.dcmd.twi_dcmd = 0x42;
    assert!(twi.device_acked(&regs));
    assert_eq!(twi.finish(&regs, Step::Write(1)), Poll::Ready(Ok(None)));
    assert_eq!(twi.finish(&regs, Step::Read(Mack::Ack)), Poll::Ready(Ok(Some(0x42))));
    regs.dcmd.twi_dcmd_ack = true;
    assert!(!twi.device_acked(&regs));
    assert_eq!(twi.finish(&regs, Step::Address(0x78)), Poll::Ready(Err(Error::NackAddr)));
    assert_eq!(twi.finish(&regs, Step::Write(1)), Poll::Ready(Err(Error::NackData)));
    assert_eq!(twi.finish(&regs, Step::Stop), Poll::Ready(Ok(None)));
    assert_eq!(twi.finish(&regs, Step::Start), Poll::Ready(Ok(None)));
}

#[test]
fn address_byte_carries_the_direction() {
    let mut regs = block();
    let twi = driver(&mut regs);
    assert_eq!(twi.write_addr(0x78, Rw::Write), Step::Address(0x78));
    assert_eq!(twi.write_addr(0x78, Rw::Read), Step::Address(0x79));
}

#[test]
fn a_read_acknowledges_every_byte_but_the_last() {
    let mut regs = block();
    let twi = driver(&mut regs);
    assert_eq!(
        twi.blocking_read(0x50, 3),
        vec![
            Step::Start,
            Step::Address(0x51),
            Step::Read(Mack::Ack),
            Step::Read(Mack::Ack),
            Step::Read(Mack::Nack),
            Step::Stop
        ]
    );
    assert_eq!(twi.blocking_read(0x50, 0), vec![Step::Start, Step::Address(0x51), Step::Stop]);
    let mut steps = vec![Step::Start];
    twi.read_raw(&mut steps, 1);
    assert_eq!(steps, vec![Step::Start, Step::Read(Mack::Nack)]);
}

#[test]
fn a_write_sends_the_address_and_every_byte() {
    let mut regs = block();
    let twi = driver(&mut regs);
    assert_eq!(
        twi.blocking_write(0x50, vec![1, 2]),
        vec![Step::Start, Step::Address(0x50), Step::Write(1), Step::Write(2), Step::Stop]
    );
    let mut steps = Vec::new();
    twi.write_raw(&mut steps, &[9, 8, 7]);
    assert_eq!(steps, vec![Step::Write(9), Step::Write(8), Step::Write(7)]);
}

#[test]
fn a_change_of_direction_starts_again_and_the_same_direction_does_not() {
    let mut regs = block();
    let twi = driver(&mut regs);
    assert_eq!(
        twi.blocking_write_read(0x20, vec![0x10], 2),
        vec![
            Step::Start,
            Step::Address(0x20),
            Step::Write(0x10),
            Step::Start,
            Step::Address(0x21),
            Step::Read(Mack::Ack),
            Step::Read(Mack::Nack),
            Step::Stop
        ]
    );
    let operations = vec![
        Operation::Write(vec![1]),
        Operation::Write(vec![2, 3]),
        Operation::Read(1),
        Operation::Read(1),
        Operation::Write(vec![]),
    ];
    assert_eq!(
        twi.blocking_transaction(0x20, &operations),
        vec![
            Step::Start,
            Step::Address(0x20),
            Step::Write(1),
            Step::Write(2),
            Step::Write(3),
            Step::Start,
            Step::Address(0x21),
            Step::Read(Mack::Nack),
            Step::Read(Mack::Nack),
            Step::Start,
            Step::Address(0x20),
            Step::Stop
        ]
    );
    assert_eq!(twi.blocking_transaction(0x20, &Vec::new()), vec![Step::Stop]);
}
