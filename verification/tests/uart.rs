use embassy_neorv32::interrupts::LocalInterrupts;
use embassy_neorv32::pac::uart0::{Ctrl, Data, RegisterBlock};
use embassy_neorv32::peripherals::{UART0, UART1};
use embassy_neorv32::uart::{drop_rx_tx, Active, Async, Blocking, InterruptHandler, Uart, UartRx, UartTx};
use embassy_neorv32::wake::{Poll, WakerSlot};

struct Irqs;

impl embassy_neorv32::interrupt::typelevel::Binding<
        embassy_neorv32::interrupt::typelevel::UART0,
        InterruptHandler<UART0>,
    > for Irqs
{
}

fn block() -> RegisterBlock {
    RegisterBlock {
        ctrl: Ctrl {
            uart_ctrl_en: false,
            uart_ctrl_sim_mode: false,
            uart_ctrl_hwfc_en: false,
            uart_ctrl_prsc: 0,
            uart_ctrl_baud: 0,
            uart_ctrl_rx_nempty: false,
            uart_ctrl_tx_empty: false,
            uart_ctrl_tx_nfull: false,
            uart_ctrl_irq_rx_nempty: false,
            uart_ctrl_irq_tx_empty: false,
            uart_ctrl_irq_tx_nfull: false,
            uart_ctrl_tx_busy: false,
        },
        data: Data { bits: 0 },
    }
}

#[test]
fn baud_rate_is_split_into_prescaler_and_divider() {
    let mut regs = block();
    Uart::<Blocking>::init(&UART0, &mut regs, 100_000_000, 19200, false, true);
    // 100 MHz / 38400 = 2604: halved to 1302, then 651, which fits
    assert_eq!(regs.ctrl.uart_ctrl_prsc, 2);
    assert_eq!(regs.ctrl.uart_ctrl_baud, 650);
    assert!(regs.ctrl.uart_ctrl_en);
    assert!(regs.ctrl.uart_ctrl_hwfc_en);
    assert!(!regs.ctrl.uart_ctrl_sim_mode);

    let mut regs = block();
    Uart::<Blocking>::init(&UART0, &mut regs, 100_000_000, 115200, true, false);
    // 100 MHz / 230400 = 434
    assert_eq!((regs.ctrl.uart_ctrl_prsc, regs.ctrl.uart_ctrl_baud), (0, 433));
    assert!(regs.ctrl.uart_ctrl_sim_mode);

    let mut regs = block();
    Uart::<Blocking>::init(&UART1, &mut regs, 100_000_000, 300, false, false);
    // 166666: 83333, 41666, 5208, 2604, 325
    assert_eq!((regs.ctrl.uart_ctrl_prsc, regs.ctrl.uart_ctrl_baud), (5, 324));

    let mut regs = block();
    Uart::<Blocking>::init(&UART0, &mut regs, 2046, 1, false, false);
    // 1023 is one too many for ten bits
    assert_eq!((regs.ctrl.uart_ctrl_prsc, regs.ctrl.uart_ctrl_baud), (1, 510));
    let mut regs = block();
    Uart::<Blocking>::init(&UART0, &mut regs, 2044, 1, false, false);
    assert_eq!((regs.ctrl.uart_ctrl_prsc, regs.ctrl.uart_ctrl_baud), (0, 1021));
}

#[test]
fn init_never_switches_simulation_or_flow_control_off() {
    let mut regs = block();
    regs.ctrl.uart_ctrl_sim_mode = true;
    regs.ctrl.uart_ctrl_hwfc_en = true;
    Uart::<Blocking>::init(&UART0, &mut regs, 1_000_000, 9600, false, false);
    assert!(regs.ctrl.uart_ctrl_sim_mode);
    assert!(regs.ctrl.uart_ctrl_hwfc_en);
}

#[test]
fn blocking_read_and_write_take_one_try() {
    let mut regs = block();
    let mut active = Active::new();
    let mut uart = Uart::new_blocking(UART0, &mut regs, &mut active, 1_000_000, 9600, false, false);
    assert_eq!(uart.blocking_read_byte(&regs), None);
    regs.ctrl.uart_ctrl_rx_nempty = true;
    regs.data.bits = 0x8000_0141;
    assert_eq!(uart.blocking_read_byte(&regs), Some(0x41));
    assert!(!uart.blocking_write_byte(&mut regs, 7));
    assert_eq!(regs.data.bits, 0x8000_0141);
    regs.ctrl.uart_ctrl_tx_nfull = true;
    assert!(uart.blocking_write_byte(&mut regs, 7));
    assert_eq!(regs.data.bits, 7);
    assert!(uart.blocking_flush(&regs));
    regs.ctrl.uart_ctrl_tx_busy = true;
    assert!(!uart.blocking_flush(&regs));
}

#[test]
fn a_read_with_a_byte_waiting_arms_nothing() {
    let mut regs = block();
    let mut active = Active::new();
    let mut local = LocalInterrupts::new();
    let mut rx: UartRx<Async> =
        UartRx::new_async(UART0, Irqs, &mut regs, &mut active, &mut local, 1_000_000, 9600, false);
    assert_eq!(local.sources, 1 << 18);
    let mut waker = WakerSlot::new();
    regs.ctrl.uart_ctrl_rx_nempty = true;
    regs.data.bits = 0x55;
    assert_eq!(rx.read_byte(&mut regs, &mut waker, 1), Poll::Ready(0x55));
    assert!(!regs.ctrl.uart_ctrl_irq_rx_nempty);
}

#[test]
fn a_pending_read_is_woken_by_the_handler_and_then_ready() {
    let mut regs = block();
    let mut active = Active::new();
    let mut local = LocalInterrupts::new();
    let mut uart: Uart<Async> =
        Uart::new_async(UART0, Irqs, &mut regs, &mut active, &mut local, 1_000_000, 9600, false, false);
    let mut rx_waker = WakerSlot::new();
    let mut tx_waker = WakerSlot::new();
    assert_eq!(uart.read_byte(&mut regs, &mut rx_waker, 4), Poll::Pending);
    assert!(regs.ctrl.uart_ctrl_irq_rx_nempty);
    // nothing has arrived: the handler wakes nobody
    assert_eq!(InterruptHandler::<UART0>::on_interrupt(&mut regs, &mut rx_waker, &mut tx_waker), (None, None));
    assert!(regs.ctrl.uart_ctrl_irq_rx_nempty);
    regs.ctrl.uart_ctrl_rx_nempty = true;
    regs.data.bits = 0x30;
    assert_eq!(
        InterruptHandler::<UART0>::on_interrupt(&mut regs, &mut rx_waker, &mut tx_waker),
        (Some(4), None)
    );
    assert!(!regs.ctrl.uart_ctrl_irq_rx_nempty);
    assert_eq!(uart.read_byte(&mut regs, &mut rx_waker, 4), Poll::Ready(0x30));
}

#[test]
fn a_pending_write_is_woken_by_the_handler_and_then_ready() {
    let mut regs = block();
    let mut active = Active::new();
    let mut local = LocalInterrupts::new();
    let mut tx: UartTx<Async> =
        UartTx::new_async(UART0, Irqs, &mut regs, &mut active, &mut local, 1_000_000, 9600, false, false);
    let mut rx_waker = WakerSlot::new();
    let mut tx_waker = WakerSlot::new();
    assert_eq!(tx.write_byte(&mut regs, &mut tx_waker, 6, 0x99), Poll::Pending);
    assert!(regs.ctrl.uart_ctrl_irq_tx_nfull);
    assert_eq!(regs.data.bits, 0);
    regs.ctrl.uart_ctrl_tx_nfull = true;
    assert_eq!(
        InterruptHandler::<UART0>::on_interrupt(&mut regs, &mut rx_waker, &mut tx_waker),
        (None, Some(6))
    );
    assert!(!regs.ctrl.uart_ctrl_irq_tx_nfull);
    assert_eq!(tx.write_byte(&mut regs, &mut tx_waker, 6, 0x99), Poll::Ready(()));
    assert_eq!(regs.data.bits, 0x99);
    assert!(!regs.ctrl.uart_ctrl_irq_tx_nfull);
}

#[test]
fn a_pending_flush_is_woken_by_the_handler_and_then_ready() {
    let mut regs = block();
    let mut active = Active::new();
    let mut local = LocalInterrupts::new();
    let mut tx: UartTx<Async> =
        UartTx::new_async(UART0, Irqs, &mut regs, &mut active, &mut local, 1_000_000, 9600, false, false);
    let mut rx_waker = WakerSlot::new();
    let mut waker = WakerSlot::new();
    assert!(!tx.fifo_empty(&regs));
    assert_eq!(tx.flush(&mut regs, &mut waker, 2), Poll::Pending);
    assert!(regs.ctrl.uart_ctrl_irq_tx_empty);
    assert_eq!(tx.flush(&mut regs, &mut waker, 2), Poll::Pending);
    regs.ctrl.uart_ctrl_tx_empty = true;
    assert_eq!(InterruptHandler::<UART0>::on_interrupt(&mut regs, &mut rx_waker, &mut waker), (None, Some(2)));
    assert!(!regs.ctrl.uart_ctrl_irq_tx_empty);
    assert!(tx.fifo_empty(&regs));
    assert_eq!(tx.flush(&mut regs, &mut waker, 2), Poll::Ready(()));
    assert!(!regs.ctrl.uart_ctrl_irq_tx_empty);
}

#[test]
fn a_flush_of_an_empty_fifo_arms_nothing() {
    let mut regs = block();
    let mut active = Active::new();
    let mut local = LocalInterrupts::new();
    let mut uart: Uart<Async> =
        Uart::new_async(UART0, Irqs, &mut regs, &mut active, &mut local, 1_000_000, 9600, false, false);
    let mut waker = WakerSlot::new();
    regs.ctrl.uart_ctrl_tx_empty = true;
    assert_eq!(uart.flush(&mut regs, &mut waker, 2), Poll::Ready(()));
    assert!(!regs.ctrl.uart_ctrl_irq_tx_empty);
}

#[test]
fn handler_serves_all_three_conditions_at_once() {
    let mut regs = block();
    regs.ctrl.uart_ctrl_irq_rx_nempty = true;
    regs.ctrl.uart_ctrl_rx_nempty = true;
    regs.ctrl.uart_ctrl_irq_tx_nfull = true;
    regs.ctrl.uart_ctrl_tx_nfull = true;
    regs.ctrl.uart_ctrl_irq_tx_empty = true;
    regs.ctrl.uart_ctrl_tx_empty = true;
    let mut rx_waker = WakerSlot::new();
    let mut tx_waker = WakerSlot::new();
    rx_waker.register(1);
    tx_waker.register(2);
    assert_eq!(
        InterruptHandler::<UART0>::on_interrupt(&mut regs, &mut rx_waker, &mut tx_waker),
        (Some(1), Some(2))
    );
    assert!(!regs.ctrl.uart_ctrl_irq_rx_nempty);
    assert!(!regs.ctrl.uart_ctrl_irq_tx_nfull);
    assert!(!regs.ctrl.uart_ctrl_irq_tx_empty);
    assert!(regs.ctrl.uart_ctrl_rx_nempty);
}

#[test]
fn the_uart_is_disabled_when_neither_half_is_in_use() {
    let mut regs = block();
    let mut active = Active::new();
    let uart = Uart::new_blocking(UART0, &mut regs, &mut active, 1_000_000, 9600, false, false);
    // both halves mark the receiving side
    assert_eq!(active, Active { rx: true, tx: false });
    let (rx, tx) = uart.split();
    tx.release(&mut regs, &mut active);
    assert!(regs.ctrl.uart_ctrl_en);
    rx.release(&mut regs, &mut active);
    assert!(!regs.ctrl.uart_ctrl_en);
    assert_eq!(active, Active::new());

    let mut regs = block();
    regs.ctrl.uart_ctrl_en = true;
    drop_rx_tx(&mut regs, &Active { rx: false, tx: true });
    assert!(regs.ctrl.uart_ctrl_en);
}

#[test]
fn a_buffer_is_filled_byte_by_byte_as_bytes_arrive() {
    let mut regs = block();
    let mut active = Active::new();
    let uart = Uart::new_blocking(UART0, &mut regs, &mut active, 1_000_000, 9600, false, false);
    let mut buf = vec![0u8; 2];
    assert_eq!(uart.blocking_read(&regs, &mut buf, 0), 0);
    regs.ctrl.uart_ctrl_rx_nempty = true;
    regs.data.bits = 0x61;
    assert_eq!(uart.blocking_read(&regs, &mut buf, 0), 1);
    regs.data.bits = 0x62;
    assert_eq!(uart.blocking_read(&regs, &mut buf, 1), 2);
    assert_eq!(buf, vec![0x61, 0x62]);
}

#[test]
fn bytes_are_written_one_by_one_as_the_fifo_has_room() {
    let mut regs = block();
    let mut active = Active::new();
    let mut uart = Uart::new_blocking(UART0, &mut regs, &mut active, 1_000_000, 9600, false, false);
    assert_eq!(uart.blocking_write(&mut regs, b"hi", 0), 0);
    regs.ctrl.uart_ctrl_tx_nfull = true;
    assert_eq!(uart.blocking_write(&mut regs, b"hi", 0), 1);
    assert_eq!(regs.data.bits, b'h' as u32);
    assert_eq!(uart.blocking_write(&mut regs, b"hi", 1), 2);
    assert_eq!(regs.data.bits, b'i' as u32);
}

#[test]
fn async_read_and_write_move_on_only_when_ready() {
    let mut regs = block();
    let mut active = Active::new();
    let mut local = LocalInterrupts::new();
    let mut uart: Uart<Async> =
        Uart::new_async(UART0, Irqs, &mut regs, &mut active, &mut local, 1_000_000, 9600, false, false);
    let mut waker = WakerSlot::new();
    let mut buf = vec![0u8; 1];
    assert_eq!(uart.read(&mut regs, &mut waker, 1, &mut buf, 0), Poll::Pending);
    assert!(regs.ctrl.uart_ctrl_irq_rx_nempty);
    regs.ctrl.uart_ctrl_rx_nempty = true;
    regs.data.bits = 0x7a;
    assert_eq!(uart.read(&mut regs, &mut waker, 1, &mut buf, 0), Poll::Ready(1));
    assert_eq!(buf, vec![0x7a]);
    assert_eq!(uart.write(&mut regs, &mut waker, 1, &[5, 6], 1), Poll::Pending);
    assert!(regs.ctrl.uart_ctrl_irq_tx_nfull);
    regs.ctrl.uart_ctrl_tx_nfull = true;
    assert_eq!(uart.write(&mut regs, &mut waker, 1, &[5, 6], 1), Poll::Ready(2));
    assert_eq!(regs.data.bits, 6);
}
