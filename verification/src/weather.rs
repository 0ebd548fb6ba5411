//! A decoded forecast and its rendering as text.
//!
//! Measured values are kept as the decimal text they are shown as; the renderer never
//! computes with them. Points in time are `Timestamp`s.

use crate::args::{DurationType, OutputMode};
use crate::symbols::{describe, format_weather_description};
use crate::time::{
    clock_text, is_instant, seconds_apart, utc_day_of_month, utc_long_date, utc_weekday_name,
    Timestamp,
};
use vstd::prelude::*;
use vstd::string::*;

verus! {

/// The place a forecast is for.
pub struct Geometry {
    /// The kind of geometry, "Point" for a forecast.
    pub kind: String,
    /// Longitude, latitude and altitude, each as decimal text.
    pub coordinates: Vec<String>,
}

/// The unit of each measured value.
pub struct Units {
    pub air_pressure_at_sea_level: Option<String>,
    pub air_temperature: Option<String>,
    pub cloud_area_fraction: Option<String>,
    pub precipitation_amount: Option<String>,
    pub relative_humidity: Option<String>,
    pub wind_from_direction: Option<String>,
    pub wind_speed: Option<String>,
}

/// When a forecast was made, and in which units.
pub struct Meta {
    pub updated_at: Timestamp,
    pub units: Units,
}

/// Measured or forecast values, each as decimal text and each optional.
pub struct Details {
    pub air_pressure_at_sea_level: Option<String>,
    pub air_temperature: Option<String>,
    pub cloud_area_fraction: Option<String>,
    pub relative_humidity: Option<String>,
    pub wind_from_direction: Option<String>,
    pub wind_speed: Option<String>,
}

/// The weather-condition code of an outlook.
pub struct Summary {
    pub symbol_code: String,
}

/// The outlook for the twelve hours after an entry.
pub struct Next12Hours {
    pub summary: Summary,
    pub details: Option<Details>,
}

/// The outlook for the hour after an entry.
pub struct Next1Hour {
    pub summary: Summary,
    pub details: Option<Details>,
}

/// The outlook for the six hours after an entry.
pub struct Next6Hours {
    pub summary: Summary,
    pub details: Option<Details>,
}

/// The conditions at the time of an entry.
pub struct Instant {
    pub details: Details,
}

/// What one entry of a forecast holds.
pub struct Data {
    pub instant: Instant,
    pub next_12_hours: Option<Next12Hours>,
    pub next_1_hours: Option<Next1Hour>,
    pub next_6_hours: Option<Next6Hours>,
}

/// One entry of a forecast: a point in time and the weather expected then.
pub struct Timeseries {
    pub time: Timestamp,
    pub data: Data,
}

/// A forecast: its entries in the order they were delivered.
pub struct Properties {
    pub meta: Meta,
    pub timeseries: Vec<Timeseries>,
}

/// A forecast for one place.
pub struct WeatherData {
    /// The kind of document, "Feature" for a forecast.
    pub kind: String,
    pub geometry: Geometry,
    pub properties: Properties,
}

/// Why a forecast could not be rendered.
#[derive(Copy, Clone, PartialEq, Eq, Debug, Structural)]
pub enum WeatherError {
    /// An entry that was to be shown lacks the outlook or the temperature.
    MissingData,
}

impl WeatherError {
    /// The text shown for the error.
    pub fn message(&self) -> (text: String)
        ensures
            text@ == "Missing data"@,
    {
        match self {
            WeatherError::MissingData => String::from_str("Missing data"),
        }
    }
}

/// What the renderer reads of one entry.
pub struct ForecastEntry {
    /// Nanoseconds since the epoch.
    pub time: int,
    /// Code of the one-hour outlook.
    pub next_1_hours: Option<Seq<char>>,
    /// Code of the six-hour outlook.
    pub next_6_hours: Option<Seq<char>>,
    /// Code of the twelve-hour outlook.
    pub next_12_hours: Option<Seq<char>>,
    /// Air temperature at the time of the entry, as decimal text.
    pub air_temperature: Option<Seq<char>>,
}

impl View for Timeseries {
    type V = ForecastEntry;

    open spec fn view(&self) -> ForecastEntry {
        ForecastEntry {
            time: self.time@,
            next_1_hours: match self.data.next_1_hours {
                Some(outlook) => Some(outlook.summary.symbol_code@),
                None => None,
            },
            next_6_hours: match self.data.next_6_hours {
                Some(outlook) => Some(outlook.summary.symbol_code@),
                None => None,
            },
            next_12_hours: match self.data.next_12_hours {
                Some(outlook) => Some(outlook.summary.symbol_code@),
                None => None,
            },
            air_temperature: match self.data.instant.details.air_temperature {
                Some(degrees) => Some(degrees@),
                None => None,
            },
        }
    }
}

impl View for WeatherData {
    type V = Seq<ForecastEntry>;

    open spec fn view(&self) -> Seq<ForecastEntry> {
        self.properties.timeseries@.map_values(|entry: Timeseries| entry@)
    }
}

/// Whole seconds between an entry and `now`, without sign.
pub open spec fn distance(entry: ForecastEntry, now: int) -> int {
    seconds_apart(entry.time, now)
}

/// Whether entry `i` is the nearest to `now`: no entry is nearer, and none before it is as
/// near.
pub open spec fn is_nearest(series: Seq<ForecastEntry>, now: int, i: int) -> bool {
    &&& 0 <= i < series.len()
    &&& forall|j: int| 0 <= j < i ==> distance(#[trigger] series[j], now) > distance(series[i], now)
    &&& forall|j: int|
        i <= j < series.len() ==> distance(#[trigger] series[j], now) >= distance(series[i], now)
}

/// The index of the entry nearest to `now` in a series that is not empty.
pub open spec fn nearest(series: Seq<ForecastEntry>, now: int) -> int {
    choose|i: int| is_nearest(series, now, i)
}

/// Whether day `day` of a month falls in the window that `duration` opens on day `today`.
/// Only the numbers are compared, whatever the months. `Now` opens no window: it goes by
/// distance.
pub open spec fn day_in_window(duration: DurationType, day: int, today: int) -> bool {
    match duration {
        DurationType::Now => false,
        DurationType::Today => day == today,
        DurationType::Tomorrow => day == today + 1,
        DurationType::Week => today <= day <= today + 7,
    }
}

/// Whether an entry at `time` falls in the window that `duration` opens at `now`.
pub open spec fn in_window(duration: DurationType, time: int, now: int) -> bool {
    day_in_window(duration, utc_day_of_month(time), utc_day_of_month(now))
}

/// The outlook that `duration` shows of an entry: twelve hours for the week, one hour
/// otherwise.
pub open spec fn outlook(duration: DurationType, entry: ForecastEntry) -> Option<Seq<char>> {
    match duration {
        DurationType::Week => entry.next_12_hours,
        _ => entry.next_1_hours,
    }
}

/// Whether an entry has what its line needs: the outlook and the temperature.
pub open spec fn is_complete(duration: DurationType, entry: ForecastEntry) -> bool {
    outlook(duration, entry) is Some && entry.air_temperature is Some
}

/// The line shown for a complete entry.
pub open spec fn entry_line(duration: DurationType, entry: ForecastEntry) -> Seq<char> {
    let weather = describe(outlook(duration, entry)->0) + " "@ + entry.air_temperature->0;
    match duration {
        DurationType::Now => weather + "°C\n"@,
        DurationType::Today | DurationType::Tomorrow => clock_text(entry.time) + ": "@ + weather
            + "°C\n"@,
        DurationType::Week => utc_weekday_name(entry.time) + " "@ + clock_text(entry.time) + ": "@
            + weather + "C\n"@,
    }
}

/// The first line of a compact forecast.
pub open spec fn header(duration: DurationType, location: Seq<char>, now: int) -> Seq<char> {
    "Weather for "@ + location + " "@ + match duration {
        DurationType::Now => "at "@ + clock_text(now) + "\n"@,
        DurationType::Today | DurationType::Tomorrow => "on "@ + utc_long_date(now) + "\n"@,
        DurationType::Week => "this week\n"@,
    }
}

/// The lines of those among the first `n` entries that fall in the window, in series order.
pub open spec fn window_lines(
    series: Seq<ForecastEntry>,
    duration: DurationType,
    now: int,
    n: int,
) -> Seq<char>
    decreases n,
{
    if n <= 0 {
        Seq::empty()
    } else if in_window(duration, series[n - 1].time, now) {
        window_lines(series, duration, now, n - 1) + entry_line(duration, series[n - 1])
    } else {
        window_lines(series, duration, now, n - 1)
    }
}

/// Whether each of the first `n` entries that falls in the window is complete.
pub open spec fn window_complete(
    series: Seq<ForecastEntry>,
    duration: DurationType,
    now: int,
    n: int,
) -> bool {
    forall|i: int|
        0 <= i < n && in_window(duration, (#[trigger] series[i]).time, now) ==> is_complete(
            duration,
            series[i],
        )
}

/// The compact forecast at `now`. For `Now` the series must not be empty.
pub open spec fn render_compact(
    series: Seq<ForecastEntry>,
    duration: DurationType,
    location: Seq<char>,
    now: int,
) -> Result<Seq<char>, WeatherError> {
    match duration {
        DurationType::Now => {
            let entry = series[nearest(series, now)];
            if is_complete(duration, entry) {
                Ok(header(duration, location, now) + entry_line(duration, entry))
            } else {
                Err(WeatherError::MissingData)
            }
        },
        _ => {
            if window_complete(series, duration, now, series.len() as int) {
                Ok(
                    header(duration, location, now) + window_lines(
                        series,
                        duration,
                        now,
                        series.len() as int,
                    ),
                )
            } else {
                Err(WeatherError::MissingData)
            }
        },
    }
}

/// The forecast at `now` in the given output mode. Only the compact mode shows anything.
pub open spec fn render(
    series: Seq<ForecastEntry>,
    duration: DurationType,
    location: Seq<char>,
    mode: OutputMode,
    now: int,
) -> Result<Seq<char>, WeatherError> {
    match mode {
        OutputMode::Compact => render_compact(series, duration, location, now),
        _ => Ok(Seq::empty()),
    }
}

/// A rendering result with its text as a sequence of characters.
pub open spec fn rendered(result: Result<String, WeatherError>) -> Result<Seq<char>, WeatherError> {
    match result {
        Ok(text) => Ok(text@),
        Err(error) => Err(error),
    }
}

/// A series has at most one nearest entry.
pub proof fn lemma_nearest_is_unique(series: Seq<ForecastEntry>, now: int, i: int, j: int)
    requires
        is_nearest(series, now, i),
        is_nearest(series, now, j),
    ensures
        i == j,
{
    if i < j {
        assert(distance(series[i], now) > distance(series[j], now));
        assert(distance(series[j], now) >= distance(series[i], now));
    } else if j < i {
        assert(distance(series[j], now) > distance(series[i], now));
        assert(distance(series[i], now) >= distance(series[j], now));
    }
}

/// The nearest entry is as near as any other, and nearer than every entry before it.
pub proof fn lemma_nearest_is_nearest(series: Seq<ForecastEntry>, now: int, other: int)
    requires
        0 <= other < series.len(),
    ensures
        0 <= nearest(series, now) < series.len(),
        distance(series[nearest(series, now)], now) <= distance(series[other], now),
        other < nearest(series, now) ==> distance(series[nearest(series, now)], now) < distance(
            series[other],
            now,
        ),
{
    lemma_nearest_exists(series, now, series.len() as int);
    assert(series.take(series.len() as int) =~= series);
    let found: int = choose|i: int| is_nearest(series, now, i);
    assert(is_nearest(series, now, found));
    if other < found {
        assert(distance(series[other], now) > distance(series[found], now));
    } else {
        assert(distance(series[other], now) >= distance(series[found], now));
    }
}

/// Among the first `n` entries of a series one is the nearest.
proof fn lemma_nearest_exists(series: Seq<ForecastEntry>, now: int, n: int)
    requires
        0 < n <= series.len(),
    ensures
        exists|i: int| is_nearest(series.take(n), now, i),
    decreases n,
{
    let first = series.take(n);
    if n == 1 {
        assert(is_nearest(first, now, 0));
    } else {
        lemma_nearest_exists(series, now, n - 1);
        let before = series.take(n - 1);
        let best: int = choose|i: int| is_nearest(before, now, i);
        assert(is_nearest(before, now, best));
        assert forall|j: int| 0 <= j < n - 1 implies first[j] == before[j] by {}
        if distance(first[n - 1], now) < distance(first[best], now) {
            assert forall|j: int| 0 <= j < n - 1 implies distance(#[trigger] first[j], now)
                > distance(first[n - 1], now) by {
                assert(first[j] == before[j]);
                if j < best {
                    assert(distance(before[j], now) > distance(before[best], now));
                } else {
                    assert(distance(before[j], now) >= distance(before[best], now));
                }
            }
            assert(is_nearest(first, now, n - 1));
        } else {
            assert forall|j: int| 0 <= j < best implies distance(#[trigger] first[j], now)
                > distance(first[best], now) by {
                assert(first[j] == before[j]);
                assert(distance(before[j], now) > distance(before[best], now));
            }
            assert forall|j: int| best <= j < n implies distance(#[trigger] first[j], now)
                >= distance(first[best], now) by {
                if j < n - 1 {
                    assert(first[j] == before[j]);
                    assert(distance(before[j], now) >= distance(before[best], now));
                }
            }
            assert(is_nearest(first, now, best));
        }
    }
}

/// `Now` fails on a series whose nearest entry lacks the one-hour outlook or the
/// temperature, whatever the other entries hold.
pub proof fn lemma_now_needs_the_nearest_entry_complete(
    series: Seq<ForecastEntry>,
    location: Seq<char>,
    now: int,
)
    requires
        series.len() > 0,
        series[nearest(series, now)].next_1_hours is None || series[nearest(
            series,
            now,
        )].air_temperature is None,
    ensures
        render(series, DurationType::Now, location, OutputMode::Compact, now) == Err::<
            Seq<char>,
            WeatherError,
        >(WeatherError::MissingData),
{
}

/// The week's window holds the seventh day after today and not the eighth, counted by day
/// numbers.
pub proof fn lemma_week_ends_after_seven_days(time: int, now: int)
    ensures
        utc_day_of_month(time) == utc_day_of_month(now) + 7 ==> in_window(
            DurationType::Week,
            time,
            now,
        ),
        utc_day_of_month(time) == utc_day_of_month(now) + 8 ==> !in_window(
            DurationType::Week,
            time,
            now,
        ),
        in_window(DurationType::Week, time, now) <==> 0 <= utc_day_of_month(time)
            - utc_day_of_month(now) <= 7,
{
}

/// The detailed and the complete mode show nothing and never fail, whatever the forecast
/// and the request.
pub proof fn lemma_only_compact_shows_anything(
    series: Seq<ForecastEntry>,
    duration: DurationType,
    location: Seq<char>,
    mode: OutputMode,
    now: int,
)
    requires
        mode !is Compact,
    ensures
        render(series, duration, location, mode, now) == Ok::<Seq<char>, WeatherError>(
            Seq::empty(),
        ),
{
}

/// Rendering is repeatable: two runs on one forecast, for one request and at one instant,
/// end alike, with the same text or with the same error.
pub proof fn lemma_rendering_is_repeatable(
    data: WeatherData,
    duration: DurationType,
    location_name: String,
    output_mode: OutputMode,
    now: Timestamp,
    first: Result<String, WeatherError>,
    second: Result<String, WeatherError>,
)
    requires
        rendered(first) == render(data@, duration, location_name@, output_mode, now@),
        rendered(second) == render(data@, duration, location_name@, output_mode, now@),
    ensures
        rendered(first) == rendered(second),
        first is Ok <==> second is Ok,
        first matches Ok(text) ==> second matches Ok(again) && text@ == again@,
        first matches Err(error) ==> second == Err::<String, WeatherError>(error),
{
}

impl Timeseries {
    /// The code of the outlook that `duration` shows of this entry.
    fn outlook_code(&self, duration: DurationType) -> (code: Option<&str>)
        ensures
            code is Some <==> outlook(duration, self@) is Some,
            code matches Some(text) ==> outlook(duration, self@) == Some(text@),
    {
        match duration {
            DurationType::Week => match &self.data.next_12_hours {
                Some(next) => Some(next.summary.symbol_code.as_str()),
                None => None,
            },
            _ => match &self.data.next_1_hours {
                Some(next) => Some(next.summary.symbol_code.as_str()),
                None => None,
            },
        }
    }

    /// The line shown for this entry under `duration`; `MissingData` when the entry lacks the
    /// outlook or the temperature.
    pub fn line(&self, duration: DurationType) -> (line: Result<String, WeatherError>)
        ensures
            is_complete(duration, self@) ==> rendered(line) == Ok::<Seq<char>, WeatherError>(
                entry_line(duration, self@),
            ),
            !is_complete(duration, self@) ==> rendered(line) == Err::<Seq<char>, WeatherError>(
                WeatherError::MissingData,
            ),
    {
        let code = match self.outlook_code(duration) {
            Some(code) => code,
            None => {
                return Err(WeatherError::MissingData);
            },
        };
        let degrees = match &self.data.instant.details.air_temperature {
            Some(degrees) => degrees.as_str(),
            None => {
                return Err(WeatherError::MissingData);
            },
        };
        let mut line = match duration {
            DurationType::Now => String::new(),
            DurationType::Today | DurationType::Tomorrow => {
                let mut start = self.time.hour_minute();
                start.append(": ");
                start
            },
            DurationType::Week => {
                let mut start = self.time.weekday_name();
                start.append(" ");
                start.append(self.time.hour_minute().as_str());
                start.append(": ");
                start
            },
        };
        line.append(format_weather_description(code).as_str());
        line.append(" ");
        line.append(degrees);
        match duration {
            DurationType::Week => line.append("C\n"),
            _ => line.append("°C\n"),
        }
        assert(line@ =~= entry_line(duration, self@));
        Ok(line)
    }
}

/// Whether day `day` of a month falls in the window that `duration` opens on day `today`.
fn falls_in_window(duration: DurationType, day: u32, today: u32) -> (inside: bool)
    requires
        today <= 31,
    ensures
        inside == day_in_window(duration, day as int, today as int),
{
    match duration {
        DurationType::Now => false,
        DurationType::Today => day == today,
        DurationType::Tomorrow => day == today + 1,
        DurationType::Week => today <= day && day <= today + 7,
    }
}

/// The first line of a compact forecast.
fn header_line(duration: DurationType, location_name: &str, now: &Timestamp) -> (line: String)
    ensures
        line@ == header(duration, location_name@, now@),
{
    let mut line = String::from_str("Weather for ");
    line.append(location_name);
    line.append(" ");
    match duration {
        DurationType::Now => {
            line.append("at ");
            line.append(now.hour_minute().as_str());
            line.append("\n");
        },
        DurationType::Today | DurationType::Tomorrow => {
            line.append("on ");
            line.append(now.long_date().as_str());
            line.append("\n");
        },
        DurationType::Week => {
            line.append("this week\n");
        },
    }
    assert(line@ =~= header(duration, location_name@, now@));
    line
}

impl WeatherData {
    /// The index of the entry nearest to `now`, the first of them where several are equally
    /// near.
    pub fn closest_timeseries(&self, now: &Timestamp) -> (index: usize)
        requires
            self@.len() > 0,
        ensures
            is_nearest(self@, now@, index as int),
            index == nearest(self@, now@),
    {
        let entries = &self.properties.timeseries;
        let mut best: usize = 0;
        let mut best_distance: i64 = entries[0].time.seconds_apart(now);
        let mut i: usize = 1;
        while i < entries.len()
            invariant
                entries == &self.properties.timeseries,
                1 <= i <= entries@.len(),
                best < i,
                best_distance == distance(self@[best as int], now@),
                forall|j: int|
                    0 <= j < best ==> distance(#[trigger] self@[j], now@) > best_distance,
                forall|j: int|
                    best <= j < i ==> distance(#[trigger] self@[j], now@) >= best_distance,
            decreases entries@.len() - i,
        {
            let here: i64 = entries[i].time.seconds_apart(now);
            if here < best_distance {
                best = i;
                best_distance = here;
            }
            i += 1;
        }
        proof {
            assert(is_nearest(self@, now@, best as int));
            lemma_nearest_is_unique(self@, now@, best as int, nearest(self@, now@));
        }
        best
    }

    /// The compact forecast as it reads at `now`: a header, then one line for each entry
    /// that `duration` selects, in series order. Fails with `MissingData`, and shows nothing,
    /// when a selected entry lacks the outlook or the temperature.
    pub fn display_compact_at(
        &self,
        duration: DurationType,
        location_name: String,
        now: &Timestamp,
    ) -> (output: Result<String, WeatherError>)
        requires
            duration is Now ==> self@.len() > 0,
        ensures
            rendered(output) == render_compact(self@, duration, location_name@, now@),
    {
        let mut output = header_line(duration, location_name.as_str(), now);
        let entries = &self.properties.timeseries;
        match duration {
            DurationType::Now => {
                let closest: usize = self.closest_timeseries(now);
                match entries[closest].line(duration) {
                    Ok(line) => {
                        output.append(line.as_str());
                        Ok(output)
                    },
                    Err(error) => Err(error),
                }
            },
            _ => {
                let today: u32 = now.day();
                let mut i: usize = 0;
                while i < entries.len()
                    invariant
                        entries == &self.properties.timeseries,
                        duration !is Now,
                        i <= entries@.len(),
                        today == utc_day_of_month(now@),
                        today <= 31,
                        window_complete(self@, duration, now@, i as int),
                        output@ == header(duration, location_name@, now@) + window_lines(
                            self@,
                            duration,
                            now@,
                            i as int,
                        ),
                    decreases entries@.len() - i,
                {
                    let entry = &entries[i];
                    if falls_in_window(duration, entry.time.day(), today) {
                        match entry.line(duration) {
                            Ok(line) => {
                                output.append(line.as_str());
                            },
                            Err(error) => {
                                assert(!is_complete(duration, self@[i as int]));
                                return Err(error);
                            },
                        }
                    }
                    i += 1;
                }
                Ok(output)
            },
        }
    }

    /// The compact forecast as it reads now, by the system clock.
    fn display_compact(&self, duration: DurationType, location_name: String) -> (output: Result<
        String,
        WeatherError,
    >)
        requires
            duration is Now ==> self@.len() > 0,
        ensures
            exists|now: int|
                is_instant(now) && rendered(output) == render_compact(
                    self@,
                    duration,
                    location_name@,
                    now,
                ),
    {
        let now = Timestamp::now();
        let output = self.display_compact_at(duration, location_name, &now);
        assert(is_instant(now@) && rendered(output) == render_compact(
            self@,
            duration,
            location_name@,
            now@,
        ));
        output
    }

    /// The detailed forecast: an empty text.
    fn display_detailed(&self, duration: DurationType, location_name: String) -> (output: Result<
        String,
        WeatherError,
    >)
        ensures
            rendered(output) == Ok::<Seq<char>, WeatherError>(Seq::empty()),
    {
        Ok(String::new())
    }

    /// The complete forecast: an empty text.
    fn display_complete(&self, duration: DurationType, location_name: String) -> (output: Result<
        String,
        WeatherError,
    >)
        ensures
            rendered(output) == Ok::<Seq<char>, WeatherError>(Seq::empty()),
    {
        Ok(String::new())
    }

    /// The forecast as it reads at `now`, in the given output mode.
    pub fn display_at(
        &self,
        duration: DurationType,
        location_name: String,
        output_mode: OutputMode,
        now: &Timestamp,
    ) -> (output: Result<String, WeatherError>)
        requires
            output_mode is Compact && duration is Now ==> self@.len() > 0,
        ensures
            rendered(output) == render(self@, duration, location_name@, output_mode, now@),
    {
        match output_mode {
            OutputMode::Compact => self.display_compact_at(duration, location_name, now),
            OutputMode::Detailed => self.display_detailed(duration, location_name),
            OutputMode::Complete => self.display_complete(duration, location_name),
        }
    }

    /// The forecast as it reads now, by the system clock, in the given output mode. The
    /// clock is read once, before anything is rendered.
    pub fn display(
        &self,
        duration: DurationType,
        location_name: String,
        output_mode: OutputMode,
    ) -> (output: Result<String, WeatherError>)
        requires
            output_mode is Compact && duration is Now ==> self@.len() > 0,
        ensures
            exists|now: int|
                is_instant(now) && rendered(output) == render(
                    self@,
                    duration,
                    location_name@,
                    output_mode,
                    now,
                ),
            output_mode !is Compact ==> rendered(output) == Ok::<Seq<char>, WeatherError>(
                Seq::empty(),
            ),
    {
        match output_mode {
            OutputMode::Compact => self.display_compact(duration, location_name),
            OutputMode::Detailed => {
                let output = self.display_detailed(duration, location_name);
                assert(is_instant(0) && rendered(output) == render(
                    self@,
                    duration,
                    location_name@,
                    output_mode,
                    0,
                ));
                output
            },
            OutputMode::Complete => {
                let output = self.display_complete(duration, location_name);
                assert(is_instant(0) && rendered(output) == render(
                    self@,
                    duration,
                    location_name@,
                    output_mode,
                    0,
                ));
                output
            },
        }
    }
}

} // verus!
