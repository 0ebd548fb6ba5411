use weather_cli::symbols::{format_weather_description, SYMBOLS, SYMBOL_COUNT};
use weather_cli::text::str_eq;

#[test]
fn known_codes_have_their_labels() {
    assert_eq!(format_weather_description("clearsky_day"), "☀️ Clear Sky (Day)");
    assert_eq!(format_weather_description("fair_day"), "🌤️ Fair (Day)");
    assert_eq!(format_weather_description("partlycloudy_day"), "⛅ Partly Cloudy (Day)");
    assert_eq!(format_weather_description("cloudy"), "☁️ Cloudy");
    assert_eq!(format_weather_description("rain"), "🌧️ Rain");
    assert_eq!(format_weather_description("heavyrain"), "🌧️ Heavy Rain");
    assert_eq!(format_weather_description("sleet"), "🌨️ Sleet");
    assert_eq!(format_weather_description("snow"), "❄️ Snow");
    assert_eq!(format_weather_description("fog"), "🌫️ Fog");
    assert_eq!(format_weather_description("snowandthunder"), "⛈️ Snow and Thunder");
    assert_eq!(format_weather_description("lightrainshowers_day"), "🌦️ Light Rain Showers (Day)");
    assert_eq!(format_weather_description("clearsky_night"), "🌙 Clear Sky (Night)");
    assert_eq!(format_weather_description("partlycloudy_night"), "🌙☁️P Partly Cloudy (Night)");
    assert_eq!(
        format_weather_description("lightssleetshowersandthunder_day"),
        "⛈️ Light Sleet Showers and Thunder (Day)"
    );
    assert_eq!(
        format_weather_description("clearsky_polartwilight"),
        "🌌 Clear Sky (Polar Twilight)"
    );
    assert_eq!(
        format_weather_description("heavysnowshowers_polartwilight"),
        "🌌 Heavy Snow Showers (Polar Twilight)"
    );
}

#[test]
fn the_table_holds_each_code_with_its_icon_and_label() {
    let expected = [
        ("clearsky_day", "☀️ Clear Sky (Day)"),
        ("fair_day", "🌤️ Fair (Day)"),
        ("partlycloudy_day", "⛅ Partly Cloudy (Day)"),
        ("cloudy", "☁️ Cloudy"),
        ("rainshowers_day", "🌦️ Rain Showers (Day)"),
        ("rainshowersandthunder_day", "⛈️ Rain Showers and Thunder (Day)"),
        ("sleetshowers_day", "🌨️ Sleet Showers (Day)"),
        ("snowshowers_day", "❄️ Snow Showers (Day)"),
        ("rain", "🌧️ Rain"),
        ("heavyrain", "🌧️ Heavy Rain"),
        ("heavyrainandthunder", "⛈️ Heavy Rain and Thunder"),
        ("sleet", "🌨️ Sleet"),
        ("snow", "❄️ Snow"),
        ("snowandthunder", "⛈️ Snow and Thunder"),
        ("fog", "🌫️ Fog"),
        ("sleetshowersandthunder_day", "⛈️ Sleet Showers and Thunder (Day)"),
        ("snowshowersandthunder_day", "⛈️ Snow Showers and Thunder (Day)"),
        ("rainandthunder", "⛈️ Rain and Thunder"),
        ("sleetandthunder", "⛈️ Sleet and Thunder"),
        ("lightrainshowersandthunder_day", "⛈️ Light Rain Showers and Thunder (Day)"),
        ("heavyrainshowersandthunder_day", "⛈️ Heavy Rain Showers and Thunder (Day)"),
        ("lightssleetshowersandthunder_day", "⛈️ Light Sleet Showers and Thunder (Day)"),
        ("heavysleetshowersandthunder_day", "⛈️ Heavy Sleet Showers and Thunder (Day)"),
        ("lightssnowshowersandthunder_day", "⛈️ Light Snow Showers and Thunder (Day)"),
        ("heavysnowshowersandthunder_day", "⛈️ Heavy Snow Showers and Thunder (Day)"),
        ("lightrainandthunder", "⛈️ Light Rain and Thunder"),
        ("lightsleetandthunder", "⛈️ Light Sleet and Thunder"),
        ("heavysleetandthunder", "⛈️ Heavy Sleet and Thunder"),
        ("lightsnowandthunder", "⛈️ Light Snow and Thunder"),
        ("heavysnowandthunder", "⛈️ Heavy Snow and Thunder"),
        ("lightrainshowers_day", "🌦️ Light Rain Showers (Day)"),
        ("heavyrainshowers_day", "🌦️ Heavy Rain Showers (Day)"),
        ("lightsleetshowers_day", "🌦️ Light Sleet Showers (Day)"),
        ("heavysleetshowers_day", "🌦️ Heavy Sleet Showers (Day)"),
        ("lightsnowshowers_day", "🌦️ Light Snow Showers (Day)"),
        ("heavysnowshowers_day", "🌦️ Heavy Snow Showers (Day)"),
        ("lightrain", "🌧️ Light Rain"),
        ("lightsleet", "🌨️ Light Sleet"),
        ("heavysleet", "🌨️ Heavy Sleet"),
        ("lightsnow", "❄️ Light Snow"),
        ("heavysnow", "❄️ Heavy Snow"),
        ("clearsky_night", "🌙 Clear Sky (Night)"),
        ("fair_night", "🌙 Fair (Night)"),
        ("partlycloudy_night", "🌙☁️P Partly Cloudy (Night)"),
        ("rainshowers_night", "🌦️ Rain Showers (Night)"),
        ("rainshowersandthunder_night", "⛈️ Rain Showers and Thunder (Night)"),
        ("sleetshowers_night", "🌨️ Sleet Showers (Night)"),
        ("snowshowers_night", "❄️ Snow Showers (Night)"),
        ("sleetshowersandthunder_night", "⛈️ Sleet Showers and Thunder (Night)"),
        ("snowshowersandthunder_night", "⛈️ Snow Showers and Thunder (Night)"),
        ("lightrainshowersandthunder_night", "⛈️ Light Rain Showers and Thunder (Night)"),
        ("heavyrainshowersandthunder_night", "⛈️ Heavy Rain Showers and Thunder (Night)"),
        ("lightssleetshowersandthunder_night", "⛈️ Light Sleet Showers and Thunder (Night)"),
        ("heavysleetshowersandthunder_night", "⛈️ Heavy Sleet Showers and Thunder (Night)"),
        ("lightssnowshowersandthunder_night", "⛈️ Light Snow Showers and Thunder (Night)"),
        ("heavysnowshowersandthunder_night", "⛈️ Heavy Snow Showers and Thunder (Night)"),
        ("lightrainshowers_night", "🌦️ Light Rain Showers (Night)"),
        ("heavyrainshowers_night", "🌦️ Heavy Rain Showers (Night)"),
        ("lightsleetshowers_night", "🌦️ Light Sleet Showers (Night)"),
        ("heavysleetshowers_night", "🌦️ Heavy Sleet Showers (Night)"),
        ("lightsnowshowers_night", "🌦️ Light Snow Showers (Night)"),
        ("heavysnowshowers_night", "🌦️ Heavy Snow Showers (Night)"),
        ("clearsky_polartwilight", "🌌 Clear Sky (Polar Twilight)"),
        ("fair_polartwilight", "🌌 Fair (Polar Twilight)"),
        ("partlycloudy_polartwilight", "🌌 Partly Cloudy (Polar Twilight)"),
        ("rainshowers_polartwilight", "🌌 Rain Showers (Polar Twilight)"),
        ("rainshowersandthunder_polartwilight", "🌌 Rain Showers and Thunder (Polar Twilight)"),
        ("sleetshowers_polartwilight", "🌌 Sleet Showers (Polar Twilight)"),
        ("snowshowers_polartwilight", "🌌 Snow Showers (Polar Twilight)"),
        ("sleetshowersandthunder_polartwilight", "🌌 Sleet Showers and Thunder (Polar Twilight)"),
        ("snowshowersandthunder_polartwilight", "🌌 Snow Showers and Thunder (Polar Twilight)"),
        ("lightrainshowersandthunder_polartwilight", "🌌 Light Rain Showers and Thunder (Polar Twilight)"),
        ("heavyrainshowersandthunder_polartwilight", "🌌 Heavy Rain Showers and Thunder (Polar Twilight)"),
        ("lightssleetshowersandthunder_polartwilight", "🌌 Light Sleet Showers and Thunder (Polar Twilight)"),
        ("heavysleetshowersandthunder_polartwilight", "🌌 Heavy Sleet Showers and Thunder (Polar Twilight)"),
        ("lightssnowshowersandthunder_polartwilight", "🌌 Light Snow Showers and Thunder (Polar Twilight)"),
        ("heavysnowshowersandthunder_polartwilight", "🌌 Heavy Snow Showers and Thunder (Polar Twilight)"),
        ("lightrainshowers_polartwilight", "🌌 Light Rain Showers (Polar Twilight)"),
        ("heavyrainshowers_polartwilight", "🌌 Heavy Rain Showers (Polar Twilight)"),
        ("lightsleetshowers_polartwilight", "🌌 Light Sleet Showers (Polar Twilight)"),
        ("heavysleetshowers_polartwilight", "🌌 Heavy Sleet Showers (Polar Twilight)"),
        ("lightsnowshowers_polartwilight", "🌌 Light Snow Showers (Polar Twilight)"),
        ("heavysnowshowers_polartwilight", "🌌 Heavy Snow Showers (Polar Twilight)"),
    ];
    assert_eq!(expected.len(), 83);
    assert_eq!(SYMBOLS, expected);
    for (code, label) in expected {
        assert_eq!(format_weather_description(code), label);
    }
}

#[test]
fn every_entry_of_the_table_is_found() {
    assert_eq!(SYMBOLS.len(), SYMBOL_COUNT);
    assert_eq!(SYMBOL_COUNT, 83);
    for (code, label) in SYMBOLS {
        assert_eq!(format_weather_description(code), label);
        assert_ne!(code, label);
    }
}

#[test]
fn no_code_stands_in_the_table_twice() {
    for (i, (code, _)) in SYMBOLS.iter().enumerate() {
        for (other, _) in &SYMBOLS[..i] {
            assert_ne!(code, other);
        }
    }
}

#[test]
fn other_codes_come_back_unchanged() {
    for code in [
        "",
        "hail",
        "Rain",
        "rain ",
        " rain",
        "rain_day",
        "cloudy_day",
        "clearsky",
        "lightsleetshowersandthunder_day",
        "lightsnowshowersandthunder_night",
        "partlycloudy_polartwilight_",
        "🌧️ Rain",
        "snø",
    ] {
        assert_eq!(format_weather_description(code), code);
    }
}

#[test]
fn strings_are_equal_when_their_characters_are() {
    assert!(str_eq("", ""));
    assert!(str_eq("rain", "rain"));
    assert!(str_eq("🌧️ Rain", "🌧️ Rain"));
    assert!(!str_eq("rain", "rains"));
    assert!(!str_eq("rains", "rain"));
    assert!(!str_eq("rain", "Rain"));
    assert!(!str_eq("rain", ""));
    assert!(!str_eq("", "rain"));
    assert!(!str_eq("snø", "sno"));
    assert!(!str_eq("☁️", "☀️"));
}
