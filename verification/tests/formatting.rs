use weather_station::text::{tenths_to_dec, u64_to_dec};
use weather_station::weather::{WeatherResponse, display_weather_info, get_temperature_emoji};

fn record_with_temp(temp_tenths: i64) -> WeatherResponse {
    WeatherResponse {
        description: "overcast clouds".to_string(),
        temp_tenths,
        humidity_tenths: 800,
        pressure_tenths: 10000,
        wind_tenths: 51,
        name: "bergen".to_string(),
    }
}

#[test]
fn u64_rendering_exact_values() {
    assert_eq!(u64_to_dec(0), "0");
    assert_eq!(u64_to_dec(7), "7");
    assert_eq!(u64_to_dec(10), "10");
    assert_eq!(u64_to_dec(12345), "12345");
    assert_eq!(u64_to_dec(u64::MAX), "18446744073709551615");
}

#[test]
fn tenths_rendering_exact_values() {
    assert_eq!(tenths_to_dec(0), "0.0");
    assert_eq!(tenths_to_dec(213), "21.3");
    assert_eq!(tenths_to_dec(-5), "-0.5");
    assert_eq!(tenths_to_dec(-50), "-5.0");
    assert_eq!(tenths_to_dec(10120), "1012.0");
    assert_eq!(tenths_to_dec(i64::MAX), "922337203685477580.7");
    assert_eq!(tenths_to_dec(i64::MIN), "-922337203685477580.8");
}

#[test]
fn temperature_banding_glyphs() {
    assert_eq!(get_temperature_emoji(-50), "❄️");
    assert_eq!(get_temperature_emoji(-1), "❄️");
    assert_eq!(get_temperature_emoji(0), "☁️");
    assert_eq!(get_temperature_emoji(99), "☁️");
    assert_eq!(get_temperature_emoji(100), "⛅");
    assert_eq!(get_temperature_emoji(199), "⛅");
    assert_eq!(get_temperature_emoji(200), "🌤️");
    assert_eq!(get_temperature_emoji(299), "🌤️");
    assert_eq!(get_temperature_emoji(300), "🔥");
    assert_eq!(get_temperature_emoji(415), "🔥");
}

#[test]
fn temperature_banding_in_formatted_text() {
    assert!(display_weather_info(&record_with_temp(-50)).contains("❄️"));
    assert!(display_weather_info(&record_with_temp(0)).contains("☁️"));
    assert!(display_weather_info(&record_with_temp(99)).contains("☁️"));
    assert!(display_weather_info(&record_with_temp(100)).contains("⛅"));
    assert!(display_weather_info(&record_with_temp(199)).contains("⛅"));
    assert!(display_weather_info(&record_with_temp(200)).contains("🌤️"));
    assert!(display_weather_info(&record_with_temp(299)).contains("🌤️"));
    assert!(display_weather_info(&record_with_temp(300)).contains("🔥"));
}

#[test]
fn formatting_is_deterministic() {
    let record = record_with_temp(137);
    let first = display_weather_info(&record);
    let second = display_weather_info(&record);
    assert_eq!(first, second);
    assert_eq!(first.as_bytes(), second.as_bytes());
}

#[test]
fn end_to_end_scenario_mild_london() {
    let record = WeatherResponse {
        description: "clear sky".to_string(),
        temp_tenths: 213,
        humidity_tenths: 550,
        pressure_tenths: 10120,
        wind_tenths: 32,
        name: "london".to_string(),
    };
    let text = display_weather_info(&record);
    assert!(text.contains("LONDON"));
    assert!(text.contains("clear sky"));
    assert!(text.contains("21.3"));
    assert!(text.contains("55.0"));
    assert!(text.contains("1012.0"));
    assert!(text.contains("3.2"));
    assert!(text.contains("🌤️"));
    assert!(!text.contains("Weather in london"));
}

#[test]
fn golden_output_full_template() {
    let record = WeatherResponse {
        description: "clear sky".to_string(),
        temp_tenths: 213,
        humidity_tenths: 550,
        pressure_tenths: 10120,
        wind_tenths: 32,
        name: "london".to_string(),
    };
    let expected = "🌤️ Weather in LONDON:\n\n🌦️ Cloud cover: clear sky\n🌡️ Temperature: 21.3°C,\n☔  Humidity: 55.0%,\n📏 Pressure: 1012.0 hPa,\n💨 Wind Speed: 3.2 m/s";
    assert_eq!(display_weather_info(&record), expected);
}

#[test]
fn freezing_record_formats_negative_reading() {
    let record = record_with_temp(-123);
    let text = display_weather_info(&record);
    assert!(text.contains("❄️"));
    assert!(text.contains("-12.3°C"));
    assert!(text.contains("BERGEN"));
}
