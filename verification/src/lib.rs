//! Verified core of a sensor and bus configuration layer for embedded systems.

pub mod spi;
pub mod text;
pub mod paths;
pub mod hwsetup;
mod sealed;
pub mod hwsetup_buses;
pub mod hwsetup_peripherals;
pub mod hwsetup_sensors;
pub mod codegen;
pub mod attributes;
pub mod physical;
mod atomics;
pub mod sensor;
pub mod interrupts;
pub mod interrupt_table;
pub mod event;
pub mod internal_temp;
pub mod lsm6dsv16x;
pub mod spi_shared;
pub mod stm32_spi;
pub mod rp2040_spi;
pub mod rp2040_i2c;
pub mod nrf_spi;
pub mod application;
pub mod gpio;
pub mod saga;
pub mod saga_sensor;
pub mod entry;
pub mod setup_checks;
pub mod nrf52_temp;
pub mod waiter;
