use riot_rs::application::{ApplicationError, DefinePeripheralsError};
use riot_rs::spi::Frequency;
use riot_rs::spi_shared::{self, clock_of_mode, BitOrder, Mode, Phase, Polarity};
use riot_rs::{nrf_spi, rp2040_i2c, rp2040_spi, stm32_spi};
use riot_rs::stm32_spi::Frequency as F;
use riot_rs::stm32_spi::Hertz;

#[test]
fn generic_ladder_goes_from_125k_to_8m() {
    assert_eq!(Frequency::first(), Frequency::_125k);
    assert_eq!(Frequency::last(), Frequency::_8M);
    assert_eq!(Frequency::_125k.prev(), None);
    assert_eq!(Frequency::_8M.next(), None);
    assert_eq!(Frequency::_1M.next(), Some(Frequency::_2M));
    assert_eq!(Frequency::_1M.prev(), Some(Frequency::_500k));
    assert_eq!(Frequency::_4M.khz(), 4000);
}

#[test]
fn generic_ladder_steps_double_and_undo_each_other() {
    let mut f = Frequency::first();
    let mut khz = vec![f.khz()];
    while let Some(g) = f.next() {
        assert_eq!(g.prev(), Some(f));
        assert_eq!(g.khz(), 2 * f.khz());
        f = g;
        khz.push(f.khz());
    }
    assert_eq!(f, Frequency::last());
    assert_eq!(khz, vec![125, 250, 500, 1000, 2000, 4000, 8000]);
}

#[test]
fn stm32_ladder_goes_up_to_32m() {
    assert_eq!(F::first(), F::_125k);
    assert_eq!(F::last(), F::_32M);
    assert_eq!(F::_16M.next(), Some(F::_32M));
    assert_eq!(F::_32M.next(), None);
    assert_eq!(F::_125k.prev(), None);
    assert_eq!(F::_32M.khz(), 32_000);
    assert_eq!(Hertz::from(F::_125k), Hertz(125_000));
    assert_eq!(Hertz::from(F::_2M), Hertz(2_000_000));
    assert_eq!(Hertz::from(F::_500k), Hertz(500_000));
    assert_eq!(Hertz::from(F::_32M), Hertz(32_000_000));
    assert_eq!(Hertz::khz(3), Hertz(3000));
    assert_eq!(Hertz::mhz(3), Hertz(3_000_000));
    let mut f = F::first();
    let mut n = 1;
    while let Some(g) = f.next() {
        assert_eq!(g.prev(), Some(f));
        assert_eq!(g.khz(), 2 * f.khz());
        assert_eq!(Hertz::from(g), Hertz(1000 * g.khz()));
        f = g;
        n += 1;
    }
    assert_eq!(n, 9);
}

#[test]
fn shared_frequency_converts_to_the_same_stm32_value() {
    assert_eq!(stm32_spi::Frequency::from(spi_shared::Frequency::_125k), stm32_spi::Frequency::_125k);
    assert_eq!(stm32_spi::Frequency::from(spi_shared::Frequency::_8M).khz(), 8000);
}

#[test]
fn stm32_default_config() {
    let c = stm32_spi::Config::default();
    assert_eq!(c.frequency, stm32_spi::Frequency::_1M);
    assert_eq!(c.mode, Mode::Mode0);
    assert_eq!(c.bit_order, BitOrder::MsbFirst);
    assert_eq!(BitOrder::default(), BitOrder::MsbFirst);
}

#[test]
fn modes_map_to_polarity_and_phase() {
    assert_eq!(clock_of_mode(Mode::Mode0), (Polarity::IdleLow, Phase::CaptureOnFirstTransition));
    assert_eq!(clock_of_mode(Mode::Mode1), (Polarity::IdleLow, Phase::CaptureOnSecondTransition));
    assert_eq!(clock_of_mode(Mode::Mode2), (Polarity::IdleHigh, Phase::CaptureOnFirstTransition));
    assert_eq!(clock_of_mode(Mode::Mode3), (Polarity::IdleHigh, Phase::CaptureOnSecondTransition));
    assert_eq!(stm32_spi::from_mode(Mode::Mode2), (Polarity::IdleHigh, Phase::CaptureOnFirstTransition));
    let rp: (Polarity, Phase) = rp2040_spi::Mode::Mode1.into();
    assert_eq!(rp, (Polarity::IdleLow, Phase::CaptureOnSecondTransition));
    let nrf: (Polarity, Phase) = nrf_spi::Mode::Mode3.into();
    assert_eq!(nrf, (Polarity::IdleHigh, Phase::CaptureOnSecondTransition));
    let order: BitOrder = nrf_spi::BitOrder::LsbFirst.into();
    assert_eq!(order, BitOrder::LsbFirst);
}

#[test]
fn rp2040_frequencies_in_hertz() {
    assert_eq!(rp2040_spi::Frequency::K125.hz(), 125_000);
    assert_eq!(rp2040_spi::Frequency::K500.hz(), 50_000);
    assert_eq!(rp2040_spi::Frequency::M32.hz(), 32_000_000);
    assert_eq!(rp2040_i2c::Frequency::K400.hz(), 400_000);
    assert_eq!(rp2040_i2c::Config::default().frequency, rp2040_i2c::Frequency::K100);
    let c = rp2040_spi::Config::default();
    assert_eq!((c.frequency, c.mode), (rp2040_spi::Frequency::M1, rp2040_spi::Mode::Mode0));
    let s = rp2040_spi::peripheral_settings(c);
    assert_eq!(s.frequency_hz, 1_000_000);
    assert_eq!((s.polarity, s.phase), (Polarity::IdleLow, Phase::CaptureOnFirstTransition));
}

#[test]
fn peripheral_error_becomes_application_error() {
    assert_eq!(ApplicationError::from(DefinePeripheralsError::TakingPeripheral), ApplicationError::CannotTakePeripheral);
}
