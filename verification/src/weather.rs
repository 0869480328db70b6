//! The weather record, the lookup failure kinds, the request URL, and the
//! formatter that turns a record into the display text.

use vstd::prelude::*;
use vstd::string::StringExecFns;
use crate::text::{spec_tenths, tenths_to_dec};

verus! {

/// One decoded weather lookup. Numeric readings are held in tenths of their
/// unit (degrees Celsius, percent, hPa, m/s), so that banding and one-decimal
/// rendering are exact.
#[derive(Debug)]
pub struct WeatherResponse {
    pub description: String,
    pub temp_tenths: i64,
    pub humidity_tenths: i64,
    pub pressure_tenths: i64,
    pub wind_tenths: i64,
    pub name: String,
}

/// Mathematical model of a decoded weather record.
#[verifier::ext_equal]
pub ghost struct RecordModel {
    pub description: Seq<char>,
    pub temp_tenths: int,
    pub humidity_tenths: int,
    pub pressure_tenths: int,
    pub wind_tenths: int,
    pub name: Seq<char>,
}

impl View for WeatherResponse {
    type V = RecordModel;

    open spec fn view(&self) -> RecordModel {
        RecordModel {
            description: self.description@,
            temp_tenths: self.temp_tenths as int,
            humidity_tenths: self.humidity_tenths as int,
            pressure_tenths: self.pressure_tenths as int,
            wind_tenths: self.wind_tenths as int,
            name: self.name@,
        }
    }
}

/// The two failure kinds a lookup can produce: the request never completed,
/// or the response body did not have the expected shape. Each carries a
/// human-readable detail.
#[derive(Debug)]
pub enum FetchError {
    Transport(String),
    Decode(String),
}

/// Mathematical model of a lookup failure.
#[verifier::ext_equal]
pub ghost enum ErrorModel {
    Transport(Seq<char>),
    Decode(Seq<char>),
}

impl View for FetchError {
    type V = ErrorModel;

    open spec fn view(&self) -> ErrorModel {
        match self {
            FetchError::Transport(d) => ErrorModel::Transport(d@),
            FetchError::Decode(d) => ErrorModel::Decode(d@),
        }
    }
}

/// The text shown for a failure: its detail, or a fixed fallback when the
/// detail is empty, so that the result screen is never blank.
pub open spec fn spec_describe(e: ErrorModel) -> Seq<char> {
    let d = match e {
        ErrorModel::Transport(d) => d,
        ErrorModel::Decode(d) => d,
    };
    if d.len() > 0 {
        d
    } else {
        "weather lookup failed"@
    }
}

/// The display text of a failure is never empty.
pub proof fn lemma_describe_nonempty(e: ErrorModel)
    ensures
        spec_describe(e).len() > 0,
{
    reveal_strlit("weather lookup failed");
}

fn describe_detail(d: &String) -> (s: String)
    ensures
        s@ == (if d@.len() > 0 { d@ } else { "weather lookup failed"@ }),
{
    if d.as_str().is_empty() {
        "weather lookup failed".to_owned()
    } else {
        d.clone()
    }
}

impl FetchError {
    /// The human-readable description of this failure.
    pub fn describe(&self) -> (s: String)
        ensures
            s@ == spec_describe(self@),
    {
        match self {
            FetchError::Transport(d) => describe_detail(d),
            FetchError::Decode(d) => describe_detail(d),
        }
    }
}

/// The glyph for each temperature band; `t` is in tenths of a degree.
/// Bands are inclusive on the lower bound and exclusive on the upper:
/// below 0 freezing, 0 to 10 cold, 10 to 20 cool, 20 to 30 mild, 30 up hot.
pub open spec fn spec_emoji(t: int) -> Seq<char> {
    if t < 0 {
        "❄️"@
    } else if t < 100 {
        "☁️"@
    } else if t < 200 {
        "⛅"@
    } else if t < 300 {
        "🌤️"@
    } else {
        "🔥"@
    }
}

/// Picks the temperature-band glyph; `temp_tenths` is in tenths of a degree.
pub fn get_temperature_emoji(temp_tenths: i64) -> (r: &'static str)
    ensures
        r@ == spec_emoji(temp_tenths as int),
{
    if temp_tenths < 0 {
        "❄️"
    } else if temp_tenths < 100 {
        "☁️"
    } else if temp_tenths < 200 {
        "⛅"
    } else if temp_tenths < 300 {
        "🌤️"
    } else {
        "🔥"
    }
}

/// The uppercase form of a sequence of characters, as `str::to_uppercase`
/// produces it.
pub uninterp spec fn upper_of(s: Seq<char>) -> Seq<char>;

/// Relies on `str::to_uppercase`: the result is a function of the characters
/// alone, and the uppercase form of the empty string is empty.
#[verifier::external_body]
fn to_upper(s: &str) -> (r: String)
    ensures
        r@ == upper_of(s@),
        s@.len() == 0 ==> r@.len() == 0,
{
    s.to_uppercase()
}

/// The full display text of a record: the band glyph, the place name in
/// upper case, the condition description, and the four readings each with
/// one decimal digit, in a fixed multi-line template.
pub open spec fn spec_display(r: RecordModel) -> Seq<char> {
    spec_emoji(r.temp_tenths) + " Weather in "@ + upper_of(r.name) + ":\n\n🌦️ Cloud cover: "@
        + r.description + "\n🌡️ Temperature: "@ + spec_tenths(r.temp_tenths) + "°C,\n☔  Humidity: "@
        + spec_tenths(r.humidity_tenths) + "%,\n📏 Pressure: "@ + spec_tenths(r.pressure_tenths)
        + " hPa,\n💨 Wind Speed: "@ + spec_tenths(r.wind_tenths) + " m/s"@
}

/// Renders a record as the display text.
pub fn display_weather_info(response: &WeatherResponse) -> (s: String)
    ensures
        s@ == spec_display(response@),
{
    let mut s = get_temperature_emoji(response.temp_tenths).to_owned();
    s.append(" Weather in ");
    let up = to_upper(response.name.as_str());
    s.append(up.as_str());
    s.append(":\n\n🌦️ Cloud cover: ");
    s.append(response.description.as_str());
    s.append("\n🌡️ Temperature: ");
    let temp = tenths_to_dec(response.temp_tenths);
    s.append(temp.as_str());
    s.append("°C,\n☔  Humidity: ");
    let humidity = tenths_to_dec(response.humidity_tenths);
    s.append(humidity.as_str());
    s.append("%,\n📏 Pressure: ");
    let pressure = tenths_to_dec(response.pressure_tenths);
    s.append(pressure.as_str());
    s.append(" hPa,\n💨 Wind Speed: ");
    let wind = tenths_to_dec(response.wind_tenths);
    s.append(wind.as_str());
    s.append(" m/s");
    proof {
        assert(s@ =~= spec_display(response@));
    }
    s
}

/// The display text of a record is never empty.
pub proof fn lemma_display_nonempty(r: RecordModel)
    ensures
        spec_display(r).len() > 0,
{
    reveal_strlit(" Weather in ");
}

/// Formatting is deterministic: any two renderings of one record are
/// identical, character for character.
pub proof fn lemma_format_deterministic(r: RecordModel, s1: Seq<char>, s2: Seq<char>)
    requires
        s1 == spec_display(r),
        s2 == spec_display(r),
    ensures
        s1 == s2,
{
}

/// Builds the decoded record from the parts of a response body. The first
/// element of the condition list gives the description; an empty condition
/// list is a decode failure, never an out-of-range access.
pub fn decode_weather_record(
    descriptions: Vec<String>,
    temp_tenths: i64,
    humidity_tenths: i64,
    pressure_tenths: i64,
    wind_tenths: i64,
    name: String,
) -> (r: Result<WeatherResponse, FetchError>)
    ensures
        r is Err <==> descriptions@.len() == 0,
        r matches Err(e) ==> e@ == ErrorModel::Decode("missing weather condition"@),
        r matches Ok(w) ==> w@ == (RecordModel {
            description: descriptions@[0]@,
            temp_tenths: temp_tenths as int,
            humidity_tenths: humidity_tenths as int,
            pressure_tenths: pressure_tenths as int,
            wind_tenths: wind_tenths as int,
            name: name@,
        }),
{
    if descriptions.len() == 0 {
        Err(FetchError::Decode("missing weather condition".to_owned()))
    } else {
        let description = descriptions[0].clone();
        Ok(
            WeatherResponse {
                description,
                temp_tenths,
                humidity_tenths,
                pressure_tenths,
                wind_tenths,
                name,
            },
        )
    }
}

/// The query URL for one lookup: city, country code and API key embedded
/// verbatim as query parameters, metric units requested.
pub open spec fn spec_request_url(city: Seq<char>, country: Seq<char>, key: Seq<char>) -> Seq<
    char,
> {
    "http://api.openweathermap.org/data/2.5/weather?q="@ + city + ","@ + country
        + "&units=metric&appid="@ + key
}

/// Builds the query URL for one lookup.
pub fn build_request_url(city: &str, country: &str, api_key: &str) -> (url: String)
    ensures
        url@ == spec_request_url(city@, country@, api_key@),
{
    let mut url = "http://api.openweathermap.org/data/2.5/weather?q=".to_owned();
    url.append(city);
    url.append(",");
    url.append(country);
    url.append("&units=metric&appid=");
    url.append(api_key);
    proof {
        assert(url@ =~= spec_request_url(city@, country@, api_key@));
    }
    url
}

} // verus!
