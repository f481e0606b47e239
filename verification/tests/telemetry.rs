use tank_sensor::data_recording::{
    format_metrics, run_time_in_micro_seconds, send_metrics_to_server, Error as MetricsError,
};
use tank_sensor::sensor_data::{Ads1115Data, Bme280Data};
use tank_sensor::timing::{format_timing_data, push_decimal, push_text, send_timing_data, Error};

fn text(bytes: Vec<u8>) -> String {
    String::from_utf8(bytes).unwrap()
}

#[test]
fn timing_ping_is_one_json_line() {
    assert_eq!(
        text(format_timing_data("tank-1", 42, 1_234_567)),
        "{\"device_id\":\"tank-1\",\"boot_count\":42,\"timestamp\":1234567}\n"
    );
}

#[test]
fn timing_ping_with_extreme_numbers() {
    assert_eq!(
        text(format_timing_data("", 0, 0)),
        "{\"device_id\":\"\",\"boot_count\":0,\"timestamp\":0}\n"
    );
    assert_eq!(
        text(format_timing_data("t", u32::MAX, u64::MAX)),
        "{\"device_id\":\"t\",\"boot_count\":4294967295,\"timestamp\":18446744073709551615}\n"
    );
}

#[test]
fn decimal_digits_are_appended() {
    let mut buffer = b"n=".to_vec();
    push_decimal(&mut buffer, 10);
    push_text(&mut buffer, ";");
    push_decimal(&mut buffer, 907);
    assert_eq!(text(buffer), "n=10;907");
}

#[test]
fn timing_delivery_is_judged_by_the_status() {
    assert_eq!(send_timing_data(Some(200)), Ok(()));
    assert_eq!(send_timing_data(Some(204)), Ok(()));
    assert_eq!(send_timing_data(Some(299)), Ok(()));
    assert_eq!(send_timing_data(Some(199)), Err(Error::NonSuccessResponseCode));
    assert_eq!(send_timing_data(Some(300)), Err(Error::NonSuccessResponseCode));
    assert_eq!(send_timing_data(Some(500)), Err(Error::NonSuccessResponseCode));
    assert_eq!(send_timing_data(None), Err(Error::RequestFailed));
}

#[test]
fn metrics_delivery_is_judged_by_the_status() {
    assert_eq!(send_metrics_to_server(Some(201)), Ok(()));
    assert_eq!(send_metrics_to_server(Some(404)), Err(MetricsError::NonSuccessResponseCode));
    assert_eq!(send_metrics_to_server(None), Err(MetricsError::RequestFailed));
}

#[test]
fn run_time_is_the_time_since_the_start() {
    assert_eq!(run_time_in_micro_seconds(1_000, 4_500), Some(3_500));
    assert_eq!(run_time_in_micro_seconds(4_500, 4_500), Some(0));
    assert_eq!(run_time_in_micro_seconds(4_501, 4_500), None);
}

#[test]
fn metrics_report_is_one_json_line() {
    let environmental = Bme280Data {
        temperature: 21_456_000,
        humidity: 45_004_999,
        pressure: 1_013_250_000,
    };
    let analog = Ads1115Data {
        enclosure_relative_brightness: 512_500,
        battery_voltage: 12_345_678,
        pressure_sensor_voltage: 24_000_499,
        height_above_sensor: 2_500_000,
    };
    assert_eq!(
        text(format_metrics("tank-1", "0.3.0", 7, environmental, analog, 3_141_592, 900_500)),
        "{\"device_id\":\"tank-1\",\"firmware_version\":\"0.3.0\",\"boot_count\":7,\
\"run_time_in_seconds\":3.142,\"wifi_start_time_in_seconds\":0.901,\
\"temperature_in_celcius\":21.46,\"humidity_in_percent\":45.00,\
\"pressure_in_pascal\":101325.0,\"brightness_in_percent\":0.513,\
\"battery_voltage\":12.346,\"pressure_sensor_voltage\":24.000,\
\"tank_level_in_meters\":2.500,\"tank_temperature_in_celcius\":21.46}\n"
    );
}

#[test]
fn metrics_report_with_negative_and_small_values() {
    let environmental = Bme280Data { temperature: -5_005_000, humidity: 0, pressure: -4_999 };
    let analog = Ads1115Data {
        enclosure_relative_brightness: -499,
        battery_voltage: -500,
        pressure_sensor_voltage: 999_500,
        height_above_sensor: -1_250_000,
    };
    assert_eq!(
        text(format_metrics("t", "v", 0, environmental, analog, 0, u64::MAX)),
        "{\"device_id\":\"t\",\"firmware_version\":\"v\",\"boot_count\":0,\
\"run_time_in_seconds\":0.000,\"wifi_start_time_in_seconds\":18446744073709.552,\
\"temperature_in_celcius\":-5.01,\"humidity_in_percent\":0.00,\
\"pressure_in_pascal\":-0.5,\"brightness_in_percent\":0.000,\
\"battery_voltage\":-0.001,\"pressure_sensor_voltage\":1.000,\
\"tank_level_in_meters\":-1.250,\"tank_temperature_in_celcius\":-5.01}\n"
    );
}
