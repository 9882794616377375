# riot_rs

The verified core of an embedded operating system's board and sensor layer: what the
hardware setup file describes, how the code generators turn it into bus and sensor
initialization, the entry points of applications, the states and readings of sensor
drivers, the parameters of SPI and I2C buses on several MCU families, and a thread event.

## Layout

- `src/` — the library, written in Verus and verified by it. Functions state their results in
  contracts; those that read atomics shared between tasks state only what holds whatever
  the other tasks did, and hand what they read to functions whose contracts are exact.
  Outside crates (`portable-atomic`, `fixed`, `embassy-time`) are reached through a few
  trusted items, each documented where it is declared.
  - `hwsetup*`, `setup_checks` — the setup of a board: buses, pins, peripherals, sensors.
  - `codegen`, `attributes`, `entry`, `paths`, `text` — the decisions of the procedural
    macros: build conditions, names of statics, bus and sensor initialization plans,
    attribute parameters, entry-point calls.
  - `sensor`, `physical`, `interrupts`, `waiter`, `internal_temp`, `nrf52_temp`,
    `lsm6dsv16x`, `saga`, `saga_sensor` — sensor drivers: modes and states, values,
    readings, the measurement cycle of a device.
  - `spi`, `spi_shared`, `stm32_spi`, `rp2040_spi`, `rp2040_i2c`, `nrf_spi` — bus frequencies,
    clock modes and bit orders.
  - `event`, `interrupt_table`, `application`, `gpio` — thread event, MCU interrupt table,
    application errors, placeholder GPIO types.
- `tests/` — tests of the library on concrete values.
- `app/` — what surrounds the library: reading the YAML setup file and the JSON interrupt
  table, emitting tokens for the procedural macros, the asynchronous signaling of sensor
  drivers, and the task that runs the LSM6DSV16X measurement cycle on an I2C bus.
