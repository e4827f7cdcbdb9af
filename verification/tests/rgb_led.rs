use fire_ant_control::drivers::rgb_led::RGBLed;

const MAX: u16 = 65535;

#[test]
fn new_led_is_off() {
    let led = RGBLed::new(MAX, MAX, MAX);
    assert_eq!(led.duties(), (MAX, MAX, MAX));
}

#[test]
fn colours_light_named_channels() {
    let mut led = RGBLed::new(100, 200, 300);
    led.red();
    assert_eq!(led.duties(), (0, 200, 300));
    led.green();
    assert_eq!(led.duties(), (100, 0, 300));
    led.blue();
    assert_eq!(led.duties(), (100, 200, 0));
    led.yellow();
    assert_eq!(led.duties(), (0, 0, 300));
    led.cyan();
    assert_eq!(led.duties(), (100, 0, 0));
    led.magenta();
    assert_eq!(led.duties(), (0, 200, 0));
    led.white();
    assert_eq!(led.duties(), (0, 0, 0));
    led.off();
    assert_eq!(led.duties(), (100, 200, 300));
}

#[test]
fn set_duties_records_values() {
    let mut led = RGBLed::new(MAX, MAX, MAX);
    led.set_duties(1, 2, 3);
    assert_eq!(led.duties(), (1, 2, 3));
}
