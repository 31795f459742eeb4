use mini_uart::aux::AUXPeripherals;
use mini_uart::gpio::{GPIOFunction, GPIOPin};
use mini_uart::uart::{init_mini_uart, print};
use mini_uart::{register_volatile_and, register_volatile_or};

#[test]
fn taking_the_uart_twice_fails_on_the_second_take() {
    let mut aux = AUXPeripherals::new();
    let first = aux.take_mini_uart();
    assert!(first.is_some());
    let second = aux.take_mini_uart();
    assert!(second.is_none());
}

#[test]
fn returning_the_uart_makes_it_takeable_again() {
    let mut aux = AUXPeripherals::new();
    let uart = aux.take_mini_uart().unwrap();
    assert!(aux.take_mini_uart().is_none());
    aux.return_mini_uart(uart);
    assert!(aux.take_mini_uart().is_some());
}

#[test]
fn taking_the_gpio_twice_fails_on_the_second_take() {
    let mut aux = AUXPeripherals::new();
    let gpio = aux.take_gpio().unwrap();
    assert!(aux.take_gpio().is_none());
    aux.return_gpio(gpio);
    assert!(aux.take_gpio().is_some());
}

#[test]
fn the_two_peripherals_are_guarded_independently() {
    let mut aux = AUXPeripherals::new();
    let _uart = aux.take_mini_uart().unwrap();
    assert!(aux.take_gpio().is_some());
}

#[test]
fn enable_bits_set_and_clear_independently() {
    let mut aux = AUXPeripherals::new();
    assert_eq!(aux.enable_register(), 0);
    aux.enable_mini_uart();
    assert_eq!(aux.enable_register(), 0b001);
    aux.enable_spi();
    aux.enable_spi2();
    assert_eq!(aux.enable_register(), 0b111);
    aux.disable_spi();
    assert_eq!(aux.enable_register(), 0b101);
    aux.disable_mini_uart();
    assert_eq!(aux.enable_register(), 0b100);
    aux.disable_spi2();
    assert_eq!(aux.enable_register(), 0);
}

#[test]
fn no_interrupt_is_pending_at_reset() {
    let aux = AUXPeripherals::new();
    assert!(!aux.irq_pending_mini_uart());
    assert!(!aux.irq_pending_spi());
    assert!(!aux.irq_pending_spi2());
}

#[test]
fn masked_or_then_and_complement_restores_a_register() {
    let mut reg: u32 = 0x1234_0000;
    register_volatile_or(&mut reg, 0x0000_00f0);
    register_volatile_and(&mut reg, !0x0000_00f0);
    assert_eq!(reg, 0x1234_0000);

    let mut lev: u32 = 0;
    register_volatile_or(&mut lev, 1 << 14);
    assert_eq!(lev, 1 << 14);
    register_volatile_and(&mut lev, !(1 << 14));
    assert_eq!(lev, 0);
}

#[test]
fn bring_up_then_greet_then_echo() {
    let mut aux = AUXPeripherals::new();
    aux.enable_mini_uart();
    assert_eq!(aux.enable_register() & 1, 1);

    let mut uart = aux.take_mini_uart().unwrap();
    let mut gpio = aux.take_gpio().unwrap();
    init_mini_uart(&mut uart, &mut gpio);

    assert_eq!(gpio.pin_function_get(GPIOPin::PIN14), GPIOFunction::ALT5);
    assert_eq!(gpio.pin_function_get(GPIOPin::PIN15), GPIOFunction::ALT5);

    print(&mut uart, &b"Hello, World!".to_vec());
    print(&mut uart, &b"\n".to_vec());
    assert_eq!(uart.transmitted().as_slice(), b"Hello, World!\n");

    uart.rx_deliver(b'e');
    while !uart.receiver_symbol_avaliable() {}
    let byte = uart.receive();
    uart.transmit(byte);
    uart.wait_transmitter_idle();
    assert_eq!(uart.transmitted().as_slice(), b"Hello, World!\ne");

    aux.return_gpio(gpio);
    aux.return_mini_uart(uart);
    assert!(aux.take_mini_uart().is_some());
}
