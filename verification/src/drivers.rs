pub mod bldc;
pub mod logger;
pub mod radio;
pub mod rgb_led;
