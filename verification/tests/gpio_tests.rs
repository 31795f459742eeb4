use mini_uart::gpio::{GPIOFunction, GPIOPin, GPIOPinLevel, GPIO};

fn all_pins() -> Vec<GPIOPin> {
    vec![
        GPIOPin::PIN0,
        GPIOPin::PIN1,
        GPIOPin::PIN2,
        GPIOPin::PIN3,
        GPIOPin::PIN4,
        GPIOPin::PIN5,
        GPIOPin::PIN6,
        GPIOPin::PIN7,
        GPIOPin::PIN8,
        GPIOPin::PIN9,
        GPIOPin::PIN10,
        GPIOPin::PIN11,
        GPIOPin::PIN12,
        GPIOPin::PIN13,
        GPIOPin::PIN14,
        GPIOPin::PIN15,
        GPIOPin::PIN16,
        GPIOPin::PIN17,
        GPIOPin::PIN18,
        GPIOPin::PIN19,
        GPIOPin::PIN20,
        GPIOPin::PIN21,
        GPIOPin::PIN22,
        GPIOPin::PIN23,
        GPIOPin::PIN24,
        GPIOPin::PIN25,
        GPIOPin::PIN26,
        GPIOPin::PIN27,
        GPIOPin::PIN28,
        GPIOPin::PIN29,
        GPIOPin::PIN30,
        GPIOPin::PIN31,
        GPIOPin::PIN32,
        GPIOPin::PIN33,
        GPIOPin::PIN34,
        GPIOPin::PIN35,
        GPIOPin::PIN36,
        GPIOPin::PIN37,
        GPIOPin::PIN38,
        GPIOPin::PIN39,
        GPIOPin::PIN40,
        GPIOPin::PIN41,
        GPIOPin::PIN42,
        GPIOPin::PIN43,
        GPIOPin::PIN44,
        GPIOPin::PIN45,
        GPIOPin::PIN46,
        GPIOPin::PIN47,
        GPIOPin::PIN48,
        GPIOPin::PIN49,
        GPIOPin::PIN50,
        GPIOPin::PIN51,
        GPIOPin::PIN52,
        GPIOPin::PIN53,
    ]
}

fn all_functions() -> Vec<GPIOFunction> {
    vec![
        GPIOFunction::INPUT,
        GPIOFunction::OUTPUT,
        GPIOFunction::ALT0,
        GPIOFunction::ALT1,
        GPIOFunction::ALT2,
        GPIOFunction::ALT3,
        GPIOFunction::ALT4,
        GPIOFunction::ALT5,
    ]
}

#[test]
fn function_set_then_get_roundtrip_every_pin_every_function() {
    let mut gpio = GPIO::new();
    for pin in all_pins() {
        for function in all_functions() {
            gpio.pin_function_set(pin, function);
            assert_eq!(gpio.pin_function_get(pin), function);
        }
    }
}

#[test]
fn function_set_leaves_other_pins_alone() {
    let mut gpio = GPIO::new();
    gpio.pin_function_set(GPIOPin::PIN14, GPIOFunction::ALT5);
    gpio.pin_function_set(GPIOPin::PIN15, GPIOFunction::ALT5);
    gpio.pin_function_set(GPIOPin::PIN13, GPIOFunction::OUTPUT);
    assert_eq!(gpio.pin_function_get(GPIOPin::PIN14), GPIOFunction::ALT5);
    assert_eq!(gpio.pin_function_get(GPIOPin::PIN15), GPIOFunction::ALT5);
    assert_eq!(gpio.pin_function_get(GPIOPin::PIN13), GPIOFunction::OUTPUT);
    assert_eq!(gpio.pin_function_get(GPIOPin::PIN16), GPIOFunction::INPUT);
    assert_eq!(gpio.pin_function_get(GPIOPin::PIN0), GPIOFunction::INPUT);
}

#[test]
fn fresh_gpio_has_every_pin_as_input_and_low() {
    let gpio = GPIO::new();
    for pin in all_pins() {
        assert_eq!(gpio.pin_function_get(pin), GPIOFunction::INPUT);
        assert_eq!(gpio.pin_level(pin), GPIOPinLevel::Low);
    }
}

#[test]
fn pin_set_clear_level_roundtrip_every_pin() {
    let mut gpio = GPIO::new();
    for pin in all_pins() {
        gpio.pin_set(pin);
        assert_eq!(gpio.pin_level(pin), GPIOPinLevel::High);
        gpio.pin_clear(pin);
        assert_eq!(gpio.pin_level(pin), GPIOPinLevel::Low);
    }
}

#[test]
fn pin_set_works_in_both_register_halves() {
    let mut gpio = GPIO::new();
    gpio.pin_set(GPIOPin::PIN5);
    gpio.pin_set(GPIOPin::PIN40);
    assert_eq!(gpio.pin_level(GPIOPin::PIN5), GPIOPinLevel::High);
    assert_eq!(gpio.pin_level(GPIOPin::PIN40), GPIOPinLevel::High);
    assert_eq!(gpio.pin_level(GPIOPin::PIN4), GPIOPinLevel::Low);
    assert_eq!(gpio.pin_level(GPIOPin::PIN41), GPIOPinLevel::Low);
    gpio.pin_clear(GPIOPin::PIN5);
    assert_eq!(gpio.pin_level(GPIOPin::PIN5), GPIOPinLevel::Low);
    assert_eq!(gpio.pin_level(GPIOPin::PIN40), GPIOPinLevel::High);
}

#[test]
fn function_decode_accepts_the_eight_encodings() {
    assert_eq!(GPIOFunction::try_from(0), Ok(GPIOFunction::INPUT));
    assert_eq!(GPIOFunction::try_from(1), Ok(GPIOFunction::OUTPUT));
    assert_eq!(GPIOFunction::try_from(2), Ok(GPIOFunction::ALT5));
    assert_eq!(GPIOFunction::try_from(3), Ok(GPIOFunction::ALT4));
    assert_eq!(GPIOFunction::try_from(4), Ok(GPIOFunction::ALT0));
    assert_eq!(GPIOFunction::try_from(5), Ok(GPIOFunction::ALT1));
    assert_eq!(GPIOFunction::try_from(6), Ok(GPIOFunction::ALT2));
    assert_eq!(GPIOFunction::try_from(7), Ok(GPIOFunction::ALT3));
}

#[test]
fn function_decode_rejects_out_of_range_values() {
    assert_eq!(GPIOFunction::try_from(8), Err(u32::MAX));
    assert_eq!(GPIOFunction::try_from(9), Err(u32::MAX));
    assert_eq!(GPIOFunction::try_from(u32::MAX), Err(u32::MAX));
}

#[test]
fn function_encodings_match_the_hardware_table() {
    assert_eq!(GPIOFunction::INPUT.encoding(), 0);
    assert_eq!(GPIOFunction::OUTPUT.encoding(), 1);
    assert_eq!(GPIOFunction::ALT5.encoding(), 2);
    assert_eq!(GPIOFunction::ALT4.encoding(), 3);
    assert_eq!(GPIOFunction::ALT0.encoding(), 4);
    assert_eq!(GPIOFunction::ALT1.encoding(), 5);
    assert_eq!(GPIOFunction::ALT2.encoding(), 6);
    assert_eq!(GPIOFunction::ALT3.encoding(), 7);
}
