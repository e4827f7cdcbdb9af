//! Verified core of the Fire Ant control board firmware: the SX1280 radio
//! command protocol, the BLDC six-step commutation controller, the RGB status
//! LED colour table and the telemetry logger's series table.
pub mod drivers;
pub mod std_calls;
