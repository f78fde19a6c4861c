use fanshim::cpu::{get_cpu_temperature, parse_temperature, Hertz};
use fanshim::MilliCelsius;

#[test]
fn parses_sensor_text() {
    assert_eq!(parse_temperature("45678"), Some(MilliCelsius(45678)));
    assert_eq!(parse_temperature("-1200"), Some(MilliCelsius(-1200)));
    assert_eq!(parse_temperature("+7"), Some(MilliCelsius(7)));
    assert_eq!(parse_temperature("2147483647"), Some(MilliCelsius(i32::MAX)));
}

#[test]
fn rejects_text_that_is_no_integer() {
    assert_eq!(parse_temperature(""), None);
    assert_eq!(parse_temperature("-"), None);
    assert_eq!(parse_temperature("4x"), None);
    assert_eq!(parse_temperature(" 45"), None);
    assert_eq!(parse_temperature("2147483648"), None);
}

#[test]
fn reads_primary_and_trims_it() {
    assert_eq!(get_cpu_temperature(Some("45678\n"), Some("1000")), Some(MilliCelsius(45678)));
    assert_eq!(get_cpu_temperature(Some("  51000 \n"), None), Some(MilliCelsius(51000)));
}

#[test]
fn falls_back_when_primary_unreadable() {
    assert_eq!(get_cpu_temperature(None, Some("38000\n")), Some(MilliCelsius(38000)));
    assert_eq!(get_cpu_temperature(None, None), None);
}

#[test]
fn unparsable_primary_does_not_fall_back() {
    assert_eq!(get_cpu_temperature(Some("garbage"), Some("38000")), None);
}

#[test]
fn hertz_holds_its_value() {
    let h = Hertz(1_500_000_000);
    assert_eq!(h.0, 1_500_000_000);
}
