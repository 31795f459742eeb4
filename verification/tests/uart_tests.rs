use mini_uart::aux::AUXPeripherals;
use mini_uart::uart::{init_mini_uart, print, putchar, BaudRate, MiniUart};

fn all_rates() -> Vec<BaudRate> {
    vec![
        BaudRate::Baud1200,
        BaudRate::Baud2400,
        BaudRate::Baud4800,
        BaudRate::Baud9600,
        BaudRate::Baud19200,
        BaudRate::Baud38400,
        BaudRate::Baud57600,
        BaudRate::Baud115200,
        BaudRate::Baud230400,
        BaudRate::Baud460800,
        BaudRate::Baud921600,
    ]
}

#[test]
fn divisor_values_match_the_formula() {
    assert_eq!(BaudRate::Baud115200.divisor(), 270);
    assert_eq!(BaudRate::Baud9600.divisor(), 3254);
    assert_eq!(BaudRate::Baud921600.divisor(), 32);
    assert_eq!(BaudRate::Baud1200.divisor(), 26040);
}

#[test]
fn divisor_roundtrip_recovers_every_rate() {
    for rate in all_rates() {
        assert_eq!(BaudRate::from_divisor(rate.divisor()), Some(rate));
    }
}

#[test]
fn from_divisor_rejects_unprogrammed_values() {
    assert_eq!(BaudRate::from_divisor(0), None);
    assert_eq!(BaudRate::from_divisor(269), None);
    assert_eq!(BaudRate::from_divisor(271), None);
    assert_eq!(BaudRate::from_divisor(u32::MAX), None);
}

#[test]
fn baud_115200_stores_divisor_270_and_reads_back() {
    let mut uart = MiniUart::new();
    uart.set_baudrate(BaudRate::Baud115200);
    assert_eq!(uart.baud_divisor(), 270);
    let recovered = BaudRate::from_divisor(uart.baud_divisor());
    assert_eq!(recovered, Some(BaudRate::Baud115200));
    assert_eq!(recovered.unwrap().rate_value(), 115200);
}

fn initialized_uart() -> MiniUart {
    let mut aux = AUXPeripherals::new();
    aux.enable_mini_uart();
    let mut uart = aux.take_mini_uart().unwrap();
    let mut gpio = aux.take_gpio().unwrap();
    init_mini_uart(&mut uart, &mut gpio);
    aux.return_gpio(gpio);
    aux.return_mini_uart(uart);
    aux.take_mini_uart().unwrap()
}

#[test]
fn init_programs_default_baud_and_empty_fifos() {
    let uart = initialized_uart();
    assert_eq!(uart.baud_divisor(), 270);
    assert!(uart.transmit_fifo_empty());
    assert!(!uart.receiver_symbol_avaliable());
    assert!(!uart.receive_overrun());
    assert!(uart.tranmitter_idle());
    assert_eq!(uart.transmitted().len(), 0);
}

#[test]
fn init_configures_frame_format_interrupt_masks_and_enables() {
    let uart = initialized_uart();
    assert_eq!(uart.line_control_register() & 1, 1);
    assert_eq!(uart.interrupt_enable_register() & 3, 0);
    assert_eq!(uart.control_register() & 3, 3);
}

#[test]
fn frame_format_bit_follows_the_mode_setters() {
    let mut uart = MiniUart::new();
    uart.set_8bit_mode();
    assert_eq!(uart.line_control_register() & 1, 1);
    uart.set_7bit_mode();
    assert_eq!(uart.line_control_register() & 1, 0);
}

#[test]
fn transmitter_idle_flips_only_after_both_bytes_shift_out() {
    let mut uart = initialized_uart();
    uart.transmit(b'H' as u32);
    uart.transmit(b'i' as u32);
    assert!(!uart.tranmitter_idle());
    assert!(!uart.transmitter_done());
    uart.tick();
    assert!(!uart.tranmitter_idle());
    uart.tick();
    assert!(uart.tranmitter_idle());
    assert!(uart.transmitter_done());
    assert_eq!(uart.transmitted().as_slice(), b"Hi");
}

#[test]
fn print_sends_a_string_longer_than_the_fifo() {
    let mut uart = initialized_uart();
    let greeting = b"Hello, World!".to_vec();
    print(&mut uart, &greeting);
    assert_eq!(uart.transmitted().as_slice(), b"Hello, World!");
    assert!(uart.tranmitter_idle());
    assert!(uart.transmit_fifo_empty());
}

#[test]
fn putchar_queues_one_byte_when_space_is_available() {
    let mut uart = initialized_uart();
    putchar(&mut uart, b'A');
    assert_eq!(uart.transmit_fifo_level(), 1);
    assert!(uart.transmitter_space_avaliable());
    uart.tick();
    assert_eq!(uart.transmitted().as_slice(), b"A");
}

#[test]
fn transmit_with_transmitter_disabled_is_dropped() {
    let mut uart = MiniUart::new();
    uart.transmit(b'x' as u32);
    assert!(uart.transmit_fifo_empty());
    assert_eq!(uart.transmit_fifo_level(), 0);
}

#[test]
fn transmit_with_full_fifo_is_dropped() {
    let mut uart = initialized_uart();
    for _ in 0..8 {
        uart.transmit(b'a' as u32);
    }
    assert!(!uart.transmitter_space_avaliable());
    uart.transmit(b'b' as u32);
    assert_eq!(uart.transmit_fifo_level(), 8);
    uart.wait_transmitter_idle();
    assert_eq!(uart.transmitted().as_slice(), b"aaaaaaaa");
}

#[test]
fn receive_returns_bytes_in_arrival_order() {
    let mut uart = initialized_uart();
    uart.rx_deliver(b'o');
    uart.rx_deliver(b'k');
    assert!(uart.receiver_symbol_avaliable());
    assert_eq!(uart.receive_fifo_level(), 2);
    assert_eq!(uart.receive(), b'o' as u32);
    assert_eq!(uart.receive(), b'k' as u32);
    assert!(!uart.receiver_symbol_avaliable());
}

#[test]
fn receiver_disabled_ignores_the_line() {
    let mut uart = MiniUart::new();
    uart.rx_deliver(b'x');
    assert!(!uart.receiver_symbol_avaliable());
    assert_eq!(uart.receive_fifo_level(), 0);
}

#[test]
fn ninth_symbol_raises_overrun_and_reading_status_clears_it() {
    let mut uart = initialized_uart();
    for b in 0..8u8 {
        uart.rx_deliver(b);
    }
    assert!(!uart.receive_overrun());
    assert_eq!(uart.receive_fifo_level(), 8);
    uart.rx_deliver(8);
    assert!(uart.receive_overrun());
    assert_eq!(uart.receive_fifo_level(), 8);
    uart.receive_overrun_clear();
    assert!(!uart.receive_overrun());
    assert_eq!(uart.receive(), 0);
}

#[test]
fn echo_scenario_reads_then_writes_back() {
    let mut uart = initialized_uart();
    uart.rx_deliver(b'z');
    assert!(uart.receiver_symbol_avaliable());
    let byte = uart.receive();
    putchar(&mut uart, byte as u8);
    uart.wait_transmitter_idle();
    assert_eq!(uart.transmitted().as_slice(), b"z");
}

#[test]
fn interrupt_status_follows_enable_bits_and_fifo_state() {
    let mut uart = initialized_uart();
    assert!(!uart.interrupt_pending());
    assert_eq!(uart.interrupt_id(), 0);

    uart.enable_transmit_interrupt();
    assert!(uart.interrupt_pending());
    assert_eq!(uart.interrupt_id(), 1);

    uart.enable_receive_interrupt();
    uart.rx_deliver(b'q');
    assert_eq!(uart.interrupt_id(), 2);

    uart.disable_receive_interrupt();
    assert_eq!(uart.interrupt_id(), 1);
    uart.disable_transmit_interrupt();
    assert!(!uart.interrupt_pending());
    assert_eq!(uart.interrupt_id(), 0);
}

#[test]
fn clearing_fifos_discards_waiting_bytes() {
    let mut uart = initialized_uart();
    uart.transmit(b'a' as u32);
    uart.clear_transmit_fifo();
    assert!(uart.transmit_fifo_empty());
    uart.wait_transmitter_idle();
    assert_eq!(uart.transmitted().len(), 0);

    uart.rx_deliver(b'b');
    uart.clear_receive_fifo();
    assert!(!uart.receiver_symbol_avaliable());
}
