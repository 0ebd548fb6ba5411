//! The dictionary of weather-condition codes.
//!
//! Each known code stands in `SYMBOLS` beside the icon and label shown for it. A code that
//! is not in the table is shown as it is.

use crate::text::str_eq;
use vstd::prelude::*;
use vstd::string::*;

verus! {

/// Number of codes in the dictionary.
pub const SYMBOL_COUNT: usize = 83;

/// The known codes, each with the text shown for it.
pub const SYMBOLS: [(&'static str, &'static str); SYMBOL_COUNT] = [
    ("clearsky_day", "☀️ Clear Sky (Day)"),
    ("fair_day", "🌤️ Fair (Day)"),
    ("partlycloudy_day", "⛅ Partly Cloudy (Day)"),
    ("cloudy", "☁️ Cloudy"),
    ("rainshowers_day", "🌦️ Rain Showers (Day)"),
    ("rainshowersandthunder_day", "⛈️ Rain Showers and Thunder (Day)"),
    ("sleetshowers_day", "🌨️ Sleet Showers (Day)"),
    ("snowshowers_day", "❄️ Snow Showers (Day)"),
    ("rain", "🌧️ Rain"),
    ("heavyrain", "🌧️ Heavy Rain"),
    ("heavyrainandthunder", "⛈️ Heavy Rain and Thunder"),
    ("sleet", "🌨️ Sleet"),
    ("snow", "❄️ Snow"),
    ("snowandthunder", "⛈️ Snow and Thunder"),
    ("fog", "🌫️ Fog"),
    ("sleetshowersandthunder_day", "⛈️ Sleet Showers and Thunder (Day)"),
    ("snowshowersandthunder_day", "⛈️ Snow Showers and Thunder (Day)"),
    ("rainandthunder", "⛈️ Rain and Thunder"),
    ("sleetandthunder", "⛈️ Sleet and Thunder"),
    ("lightrainshowersandthunder_day", "⛈️ Light Rain Showers and Thunder (Day)"),
    ("heavyrainshowersandthunder_day", "⛈️ Heavy Rain Showers and Thunder (Day)"),
    ("lightssleetshowersandthunder_day", "⛈️ Light Sleet Showers and Thunder (Day)"),
    ("heavysleetshowersandthunder_day", "⛈️ Heavy Sleet Showers and Thunder (Day)"),
    ("lightssnowshowersandthunder_day", "⛈️ Light Snow Showers and Thunder (Day)"),
    ("heavysnowshowersandthunder_day", "⛈️ Heavy Snow Showers and Thunder (Day)"),
    ("lightrainandthunder", "⛈️ Light Rain and Thunder"),
    ("lightsleetandthunder", "⛈️ Light Sleet and Thunder"),
    ("heavysleetandthunder", "⛈️ Heavy Sleet and Thunder"),
    ("lightsnowandthunder", "⛈️ Light Snow and Thunder"),
    ("heavysnowandthunder", "⛈️ Heavy Snow and Thunder"),
    ("lightrainshowers_day", "🌦️ Light Rain Showers (Day)"),
    ("heavyrainshowers_day", "🌦️ Heavy Rain Showers (Day)"),
    ("lightsleetshowers_day", "🌦️ Light Sleet Showers (Day)"),
    ("heavysleetshowers_day", "🌦️ Heavy Sleet Showers (Day)"),
    ("lightsnowshowers_day", "🌦️ Light Snow Showers (Day)"),
    ("heavysnowshowers_day", "🌦️ Heavy Snow Showers (Day)"),
    ("lightrain", "🌧️ Light Rain"),
    ("lightsleet", "🌨️ Light Sleet"),
    ("heavysleet", "🌨️ Heavy Sleet"),
    ("lightsnow", "❄️ Light Snow"),
    ("heavysnow", "❄️ Heavy Snow"),
    ("clearsky_night", "🌙 Clear Sky (Night)"),
    ("fair_night", "🌙 Fair (Night)"),
    ("partlycloudy_night", "🌙☁️P Partly Cloudy (Night)"),
    ("rainshowers_night", "🌦️ Rain Showers (Night)"),
    ("rainshowersandthunder_night", "⛈️ Rain Showers and Thunder (Night)"),
    ("sleetshowers_night", "🌨️ Sleet Showers (Night)"),
    ("snowshowers_night", "❄️ Snow Showers (Night)"),
    ("sleetshowersandthunder_night", "⛈️ Sleet Showers and Thunder (Night)"),
    ("snowshowersandthunder_night", "⛈️ Snow Showers and Thunder (Night)"),
    ("lightrainshowersandthunder_night", "⛈️ Light Rain Showers and Thunder (Night)"),
    ("heavyrainshowersandthunder_night", "⛈️ Heavy Rain Showers and Thunder (Night)"),
    ("lightssleetshowersandthunder_night", "⛈️ Light Sleet Showers and Thunder (Night)"),
    ("heavysleetshowersandthunder_night", "⛈️ Heavy Sleet Showers and Thunder (Night)"),
    ("lightssnowshowersandthunder_night", "⛈️ Light Snow Showers and Thunder (Night)"),
    ("heavysnowshowersandthunder_night", "⛈️ Heavy Snow Showers and Thunder (Night)"),
    ("lightrainshowers_night", "🌦️ Light Rain Showers (Night)"),
    ("heavyrainshowers_night", "🌦️ Heavy Rain Showers (Night)"),
    ("lightsleetshowers_night", "🌦️ Light Sleet Showers (Night)"),
    ("heavysleetshowers_night", "🌦️ Heavy Sleet Showers (Night)"),
    ("lightsnowshowers_night", "🌦️ Light Snow Showers (Night)"),
    ("heavysnowshowers_night", "🌦️ Heavy Snow Showers (Night)"),
    ("clearsky_polartwilight", "🌌 Clear Sky (Polar Twilight)"),
    ("fair_polartwilight", "🌌 Fair (Polar Twilight)"),
    ("partlycloudy_polartwilight", "🌌 Partly Cloudy (Polar Twilight)"),
    ("rainshowers_polartwilight", "🌌 Rain Showers (Polar Twilight)"),
    ("rainshowersandthunder_polartwilight", "🌌 Rain Showers and Thunder (Polar Twilight)"),
    ("sleetshowers_polartwilight", "🌌 Sleet Showers (Polar Twilight)"),
    ("snowshowers_polartwilight", "🌌 Snow Showers (Polar Twilight)"),
    ("sleetshowersandthunder_polartwilight", "🌌 Sleet Showers and Thunder (Polar Twilight)"),
    ("snowshowersandthunder_polartwilight", "🌌 Snow Showers and Thunder (Polar Twilight)"),
    ("lightrainshowersandthunder_polartwilight", "🌌 Light Rain Showers and Thunder (Polar Twilight)"),
    ("heavyrainshowersandthunder_polartwilight", "🌌 Heavy Rain Showers and Thunder (Polar Twilight)"),
    ("lightssleetshowersandthunder_polartwilight", "🌌 Light Sleet Showers and Thunder (Polar Twilight)"),
    ("heavysleetshowersandthunder_polartwilight", "🌌 Heavy Sleet Showers and Thunder (Polar Twilight)"),
    ("lightssnowshowersandthunder_polartwilight", "🌌 Light Snow Showers and Thunder (Polar Twilight)"),
    ("heavysnowshowersandthunder_polartwilight", "🌌 Heavy Snow Showers and Thunder (Polar Twilight)"),
    ("lightrainshowers_polartwilight", "🌌 Light Rain Showers (Polar Twilight)"),
    ("heavyrainshowers_polartwilight", "🌌 Heavy Rain Showers (Polar Twilight)"),
    ("lightsleetshowers_polartwilight", "🌌 Light Sleet Showers (Polar Twilight)"),
    ("heavysleetshowers_polartwilight", "🌌 Heavy Sleet Showers (Polar Twilight)"),
    ("lightsnowshowers_polartwilight", "🌌 Light Snow Showers (Polar Twilight)"),
    ("heavysnowshowers_polartwilight", "🌌 Heavy Snow Showers (Polar Twilight)"),
];

/// The code of the `i`-th entry.
pub open spec fn symbol_code(i: int) -> Seq<char> {
    SYMBOLS[i].0@
}

/// The text shown for the `i`-th entry.
pub open spec fn symbol_label(i: int) -> Seq<char> {
    SYMBOLS[i].1@
}

/// Whether the `i`-th entry is the one for `code`.
pub open spec fn is_symbol_at(code: Seq<char>, i: int) -> bool {
    0 <= i < SYMBOL_COUNT && symbol_code(i) == code
}

/// Whether the dictionary has an entry for `code`.
pub open spec fn is_known(code: Seq<char>) -> bool {
    exists|i: int| is_symbol_at(code, i)
}

/// The text shown for `code`: the label of its entry, or the code itself when it has none.
pub open spec fn describe(code: Seq<char>) -> Seq<char> {
    if is_known(code) {
        symbol_label(choose|i: int| is_symbol_at(code, i))
    } else {
        code
    }
}

/// What tells two codes apart: the length and three of the characters.
spec fn fingerprint(code: Seq<char>) -> (nat, char, char, char) {
    (code.len(), code[0], code[5], code[18])
}

/// The `i`-th code differs in its fingerprint from each of the first `n` codes.
spec fn differs_from_first(i: int, n: int) -> bool
    decreases n,
{
    n <= 0 || (fingerprint(symbol_code(i)) != fingerprint(symbol_code(n - 1))
        && differs_from_first(i, n - 1))
}

/// Each of the first `n` codes differs in its fingerprint from those before it.
spec fn distinct_among_first(n: int) -> bool
    decreases n,
{
    n <= 0 || (differs_from_first(n - 1, n - 1) && distinct_among_first(n - 1))
}

proof fn lemma_differs_from_first(i: int, n: int, k: int)
    requires
        differs_from_first(i, n),
        0 <= k < n,
    ensures
        symbol_code(i) != symbol_code(k),
    decreases n,
{
    if k < n - 1 {
        lemma_differs_from_first(i, n - 1, k);
    }
}

proof fn lemma_distinct_among_first(n: int, i: int, j: int)
    requires
        distinct_among_first(n),
        0 <= i < j < n,
    ensures
        symbol_code(i) != symbol_code(j),
    decreases n,
{
    if j < n - 1 {
        lemma_distinct_among_first(n - 1, i, j);
    } else {
        lemma_differs_from_first(j, j, i);
    }
}

/// The fingerprints of all codes in the table differ.
proof fn lemma_fingerprints_differ()
    ensures
        distinct_among_first(SYMBOL_COUNT as int),
{
    reveal_strlit("clearsky_day");
    reveal_strlit("fair_day");
    reveal_strlit("partlycloudy_day");
    reveal_strlit("cloudy");
    reveal_strlit("rainshowers_day");
    reveal_strlit("rainshowersandthunder_day");
    reveal_strlit("sleetshowers_day");
    reveal_strlit("snowshowers_day");
    reveal_strlit("rain");
    reveal_strlit("heavyrain");
    reveal_strlit("heavyrainandthunder");
    reveal_strlit("sleet");
    reveal_strlit("snow");
    reveal_strlit("snowandthunder");
    reveal_strlit("fog");
    reveal_strlit("sleetshowersandthunder_day");
    reveal_strlit("snowshowersandthunder_day");
    reveal_strlit("rainandthunder");
    reveal_strlit("sleetandthunder");
    reveal_strlit("lightrainshowersandthunder_day");
    reveal_strlit("heavyrainshowersandthunder_day");
    reveal_strlit("lightssleetshowersandthunder_day");
    reveal_strlit("heavysleetshowersandthunder_day");
    reveal_strlit("lightssnowshowersandthunder_day");
    reveal_strlit("heavysnowshowersandthunder_day");
    reveal_strlit("lightrainandthunder");
    reveal_strlit("lightsleetandthunder");
    reveal_strlit("heavysleetandthunder");
    reveal_strlit("lightsnowandthunder");
    reveal_strlit("heavysnowandthunder");
    reveal_strlit("lightrainshowers_day");
    reveal_strlit("heavyrainshowers_day");
    reveal_strlit("lightsleetshowers_day");
    reveal_strlit("heavysleetshowers_day");
    reveal_strlit("lightsnowshowers_day");
    reveal_strlit("heavysnowshowers_day");
    reveal_strlit("lightrain");
    reveal_strlit("lightsleet");
    reveal_strlit("heavysleet");
    reveal_strlit("lightsnow");
    reveal_strlit("heavysnow");
    reveal_strlit("clearsky_night");
    reveal_strlit("fair_night");
    reveal_strlit("partlycloudy_night");
    reveal_strlit("rainshowers_night");
    reveal_strlit("rainshowersandthunder_night");
    reveal_strlit("sleetshowers_night");
    reveal_strlit("snowshowers_night");
    reveal_strlit("sleetshowersandthunder_night");
    reveal_strlit("snowshowersandthunder_night");
    reveal_strlit("lightrainshowersandthunder_night");
    reveal_strlit("heavyrainshowersandthunder_night");
    reveal_strlit("lightssleetshowersandthunder_night");
    reveal_strlit("heavysleetshowersandthunder_night");
    reveal_strlit("lightssnowshowersandthunder_night");
    reveal_strlit("heavysnowshowersandthunder_night");
    reveal_strlit("lightrainshowers_night");
    reveal_strlit("heavyrainshowers_night");
    reveal_strlit("lightsleetshowers_night");
    reveal_strlit("heavysleetshowers_night");
    reveal_strlit("lightsnowshowers_night");
    reveal_strlit("heavysnowshowers_night");
    reveal_strlit("clearsky_polartwilight");
    reveal_strlit("fair_polartwilight");
    reveal_strlit("partlycloudy_polartwilight");
    reveal_strlit("rainshowers_polartwilight");
    reveal_strlit("rainshowersandthunder_polartwilight");
    reveal_strlit("sleetshowers_polartwilight");
    reveal_strlit("snowshowers_polartwilight");
    reveal_strlit("sleetshowersandthunder_polartwilight");
    reveal_strlit("snowshowersandthunder_polartwilight");
    reveal_strlit("lightrainshowersandthunder_polartwilight");
    reveal_strlit("heavyrainshowersandthunder_polartwilight");
    reveal_strlit("lightssleetshowersandthunder_polartwilight");
    reveal_strlit("heavysleetshowersandthunder_polartwilight");
    reveal_strlit("lightssnowshowersandthunder_polartwilight");
    reveal_strlit("heavysnowshowersandthunder_polartwilight");
    reveal_strlit("lightrainshowers_polartwilight");
    reveal_strlit("heavyrainshowers_polartwilight");
    reveal_strlit("lightsleetshowers_polartwilight");
    reveal_strlit("heavysleetshowers_polartwilight");
    reveal_strlit("lightsnowshowers_polartwilight");
    reveal_strlit("heavysnowshowers_polartwilight");
    reveal_with_fuel(differs_from_first, 84);
    reveal_with_fuel(distinct_among_first, 84);
}

/// No code stands in the dictionary twice.
pub proof fn lemma_codes_distinct()
    ensures
        forall|i: int, j: int|
            0 <= i < SYMBOL_COUNT && 0 <= j < SYMBOL_COUNT && symbol_code(i) == symbol_code(j)
                ==> i == j,
{
    lemma_fingerprints_differ();
    assert forall|i: int, j: int|
        0 <= i < SYMBOL_COUNT && 0 <= j < SYMBOL_COUNT && symbol_code(i) == symbol_code(
            j,
        ) implies i == j by {
        if i < j {
            lemma_distinct_among_first(SYMBOL_COUNT as int, i, j);
        } else if j < i {
            lemma_distinct_among_first(SYMBOL_COUNT as int, j, i);
        }
    }
}

/// Every code of the dictionary is shown as the label that stands beside it.
pub proof fn lemma_known_code_is_labelled(i: int)
    requires
        0 <= i < SYMBOL_COUNT,
    ensures
        is_known(symbol_code(i)),
        describe(symbol_code(i)) == symbol_label(i),
{
    lemma_codes_distinct();
    assert(is_symbol_at(symbol_code(i), i));
}

/// A code that the dictionary lacks is shown unchanged.
pub proof fn lemma_unknown_code_is_kept(code: Seq<char>)
    requires
        forall|i: int| 0 <= i < SYMBOL_COUNT ==> symbol_code(i) != code,
    ensures
        !is_known(code),
        describe(code) == code,
{
}

/// The text shown for a weather-condition code: icon and label for a known code, the code
/// itself for any other.
pub fn format_weather_description(description: &str) -> (label: String)
    ensures
        label@ == describe(description@),
        forall|i: int| is_symbol_at(description@, i) ==> label@ == symbol_label(i),
        !is_known(description@) ==> label@ == description@,
{
    let mut i: usize = 0;
    while i < SYMBOL_COUNT
        invariant
            i <= SYMBOL_COUNT,
            forall|k: int| 0 <= k < i ==> !is_symbol_at(description@, k),
        decreases SYMBOL_COUNT - i,
    {
        let entry = SYMBOLS[i];
        if str_eq(description, entry.0) {
            proof {
                lemma_codes_distinct();
                assert(is_symbol_at(description@, i as int));
            }
            return String::from_str(entry.1);
        }
        i += 1;
    }
    String::from_str(description)
}

} // verus!
