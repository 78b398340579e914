use std::io::ErrorKind;

use linux_embedded_hal::spi::delay_ns_to_us;
use linux_embedded_hal::serial::read_outcome;
use linux_embedded_hal::Delay;
use linux_embedded_hal::SPIError;
use linux_embedded_hal::SerialError;

#[test]
fn spi_delay_cap_exact() {
    assert_eq!(delay_ns_to_us(0), 0);
    assert_eq!(delay_ns_to_us(1), 1);
    assert_eq!(delay_ns_to_us(999), 1);
    assert_eq!(delay_ns_to_us(1000), 1);
    assert_eq!(delay_ns_to_us(1999), 1);
    assert_eq!(delay_ns_to_us(2000), 2);
    assert_eq!(delay_ns_to_us(65_535_000), 65535);
    assert_eq!(delay_ns_to_us(65_536_000), 65535);
    assert_eq!(delay_ns_to_us(u32::MAX), 65535);
}

#[test]
fn serial_read_framing() {
    assert_eq!(read_outcome(1, 42), Some(42));
    assert_eq!(read_outcome(0, 42), None);
    assert_eq!(read_outcome(2, 42), None);
}

#[test]
fn serial_error_keeps_kind() {
    let e = SerialError::new(ErrorKind::TimedOut);
    assert_eq!(*e.inner(), ErrorKind::TimedOut);
}

#[test]
fn spi_error_keeps_error() {
    let e = SPIError::new(std::io::Error::new(ErrorKind::BrokenPipe, "pipe"));
    assert_eq!(e.inner().kind(), ErrorKind::BrokenPipe);
}

#[test]
fn delay_unit_conversions_exact() {
    assert_eq!(Delay::us_to_ns(0), 0);
    assert_eq!(Delay::us_to_ns(7), 7_000);
    assert_eq!(Delay::us_to_ns(u32::MAX), u32::MAX as u64 * 1_000);
    assert_eq!(Delay::ms_to_ns(0), 0);
    assert_eq!(Delay::ms_to_ns(3), 3_000_000);
    assert_eq!(Delay::ms_to_ns(u32::MAX), u32::MAX as u64 * 1_000_000);
}
