//! Orchestration of a text-to-speech output pipeline for spoken weather
//! reports: a weather-phenomenon code model, an audio format model, a format
//! negotiator that decides between native synthesis and transcoding, a
//! transcoder planner for external conversion tools, and an output
//! dispatcher that plays or saves audio.

pub mod abbreviations;
pub mod announcements;
pub mod audio_conversion;
pub mod google_tts;
pub mod numbers;
pub mod strutil;
pub mod tts;

use vstd::prelude::*;

verus! {

/// Errors of the weather-report collaborator; each carries the offending
/// identifier or a cause string.
#[derive(Debug, PartialEq, Eq)]
pub enum WeatherError {
    HttpClient(String),
    Request(String),
    EmptyResponse(String),
    InvalidJson(String),
    NoData(String),
}

/// The WMO present-weather phenomena recognized in a METAR weather string.
#[derive(Clone, Copy, Debug, PartialEq, Eq, Structural)]
pub enum WmoCode {
    // Precipitation
    Rain,
    Snow,
    Drizzle,
    SnowGrains,
    IceCrystals,
    IcePellets,
    Hail,
    SmallHail,
    // Obscuration
    Fog,
    Mist,
    Haze,
    Smoke,
    VolcanicAsh,
    Dust,
    Sand,
    Spray,
    // Other phenomena
    Thunderstorm,
    Squall,
    FunnelCloud,
    Sandstorm,
    Duststorm,
    DustDevils,
}

impl WmoCode {
    pub open spec fn code_spec(self) -> Seq<char> {
        match self {
            WmoCode::Rain => "RA"@,
            WmoCode::Snow => "SN"@,
            WmoCode::Drizzle => "DZ"@,
            WmoCode::SnowGrains => "SG"@,
            WmoCode::IceCrystals => "IC"@,
            WmoCode::IcePellets => "PL"@,
            WmoCode::Hail => "GR"@,
            WmoCode::SmallHail => "GS"@,
            WmoCode::Fog => "FG"@,
            WmoCode::Mist => "BR"@,
            WmoCode::Haze => "HZ"@,
            WmoCode::Smoke => "FU"@,
            WmoCode::VolcanicAsh => "VA"@,
            WmoCode::Dust => "DU"@,
            WmoCode::Sand => "SA"@,
            WmoCode::Spray => "PY"@,
            WmoCode::Thunderstorm => "TS"@,
            WmoCode::Squall => "SQ"@,
            WmoCode::FunnelCloud => "FC"@,
            WmoCode::Sandstorm => "SS"@,
            WmoCode::Duststorm => "DS"@,
            WmoCode::DustDevils => "PO"@,
        }
    }

    /// The two-letter METAR abbreviation of the phenomenon.
    pub fn code(&self) -> (r: &'static str)
        ensures
            r@ == self.code_spec(),
    {
        match self {
            WmoCode::Rain => "RA",
            WmoCode::Snow => "SN",
            WmoCode::Drizzle => "DZ",
            WmoCode::SnowGrains => "SG",
            WmoCode::IceCrystals => "IC",
            WmoCode::IcePellets => "PL",
            WmoCode::Hail => "GR",
            WmoCode::SmallHail => "GS",
            WmoCode::Fog => "FG",
            WmoCode::Mist => "BR",
            WmoCode::Haze => "HZ",
            WmoCode::Smoke => "FU",
            WmoCode::VolcanicAsh => "VA",
            WmoCode::Dust => "DU",
            WmoCode::Sand => "SA",
            WmoCode::Spray => "PY",
            WmoCode::Thunderstorm => "TS",
            WmoCode::Squall => "SQ",
            WmoCode::FunnelCloud => "FC",
            WmoCode::Sandstorm => "SS",
            WmoCode::Duststorm => "DS",
            WmoCode::DustDevils => "PO",
        }
    }

    pub open spec fn description_spec(self) -> Seq<char> {
        match self {
            WmoCode::Rain => "Rain"@,
            WmoCode::Snow => "Snow"@,
            WmoCode::Drizzle => "Drizzle"@,
            WmoCode::SnowGrains => "Snow Grains"@,
            WmoCode::IceCrystals => "Ice Crystals"@,
            WmoCode::IcePellets => "Ice Pellets"@,
            WmoCode::Hail => "Hail"@,
            WmoCode::SmallHail => "Small Hail/Snow Pellets"@,
            WmoCode::Fog => "Fog"@,
            WmoCode::Mist => "Mist"@,
            WmoCode::Haze => "Haze"@,
            WmoCode::Smoke => "Smoke"@,
            WmoCode::VolcanicAsh => "Volcanic Ash"@,
            WmoCode::Dust => "Dust"@,
            WmoCode::Sand => "Sand"@,
            WmoCode::Spray => "Spray"@,
            WmoCode::Thunderstorm => "Thunderstorm"@,
            WmoCode::Squall => "Squall"@,
            WmoCode::FunnelCloud => "Funnel Cloud/Tornado/Waterspout"@,
            WmoCode::Sandstorm => "Sandstorm"@,
            WmoCode::Duststorm => "Duststorm"@,
            WmoCode::DustDevils => "Dust/Sand Whirls"@,
        }
    }

    /// The spoken description of the phenomenon.
    pub fn description(&self) -> (r: &'static str)
        ensures
            r@ == self.description_spec(),
    {
        match self {
            WmoCode::Rain => "Rain",
            WmoCode::Snow => "Snow",
            WmoCode::Drizzle => "Drizzle",
            WmoCode::SnowGrains => "Snow Grains",
            WmoCode::IceCrystals => "Ice Crystals",
            WmoCode::IcePellets => "Ice Pellets",
            WmoCode::Hail => "Hail",
            WmoCode::SmallHail => "Small Hail/Snow Pellets",
            WmoCode::Fog => "Fog",
            WmoCode::Mist => "Mist",
            WmoCode::Haze => "Haze",
            WmoCode::Smoke => "Smoke",
            WmoCode::VolcanicAsh => "Volcanic Ash",
            WmoCode::Dust => "Dust",
            WmoCode::Sand => "Sand",
            WmoCode::Spray => "Spray",
            WmoCode::Thunderstorm => "Thunderstorm",
            WmoCode::Squall => "Squall",
            WmoCode::FunnelCloud => "Funnel Cloud/Tornado/Waterspout",
            WmoCode::Sandstorm => "Sandstorm",
            WmoCode::Duststorm => "Duststorm",
            WmoCode::DustDevils => "Dust/Sand Whirls",
        }
    }

    /// Every recognized phenomenon, in the order they are searched for.
    pub open spec fn all_codes_spec() -> Seq<WmoCode> {
        seq![
            WmoCode::Rain,
            WmoCode::Snow,
            WmoCode::Drizzle,
            WmoCode::SnowGrains,
            WmoCode::IceCrystals,
            WmoCode::IcePellets,
            WmoCode::Hail,
            WmoCode::SmallHail,
            WmoCode::Fog,
            WmoCode::Mist,
            WmoCode::Haze,
            WmoCode::Smoke,
            WmoCode::VolcanicAsh,
            WmoCode::Dust,
            WmoCode::Sand,
            WmoCode::Spray,
            WmoCode::Thunderstorm,
            WmoCode::Squall,
            WmoCode::FunnelCloud,
            WmoCode::Sandstorm,
            WmoCode::Duststorm,
            WmoCode::DustDevils,
        ]
    }

    pub fn all_codes() -> (r: Vec<WmoCode>)
        ensures
            r@ == WmoCode::all_codes_spec(),
    {
        let mut v: Vec<WmoCode> = Vec::new();
        v.push(WmoCode::Rain);
        v.push(WmoCode::Snow);
        v.push(WmoCode::Drizzle);
        v.push(WmoCode::SnowGrains);
        v.push(WmoCode::IceCrystals);
        v.push(WmoCode::IcePellets);
        v.push(WmoCode::Hail);
        v.push(WmoCode::SmallHail);
        v.push(WmoCode::Fog);
        v.push(WmoCode::Mist);
        v.push(WmoCode::Haze);
        v.push(WmoCode::Smoke);
        v.push(WmoCode::VolcanicAsh);
        v.push(WmoCode::Dust);
        v.push(WmoCode::Sand);
        v.push(WmoCode::Spray);
        v.push(WmoCode::Thunderstorm);
        v.push(WmoCode::Squall);
        v.push(WmoCode::FunnelCloud);
        v.push(WmoCode::Sandstorm);
        v.push(WmoCode::Duststorm);
        v.push(WmoCode::DustDevils);
        assert(v@ =~= WmoCode::all_codes_spec());
        v
    }
}

/// A rounded temperature in both scales, as spoken announcements use it.
#[derive(Clone, Copy, Debug, PartialEq, Eq, Structural)]
pub struct TemperatureReading {
    pub fahrenheit: i32,
    pub celsius: i32,
}

/// One METAR observation, reduced to the fields the announcement logic
/// reads; temperatures arrive already rounded to whole degrees.
#[derive(Debug, PartialEq, Eq)]
pub struct MetarData {
    pub icao_id: String,
    pub raw_ob: String,
    pub temp: Option<TemperatureReading>,
    pub wx_string: Option<String>,
    pub name: Option<String>,
}

/// The phenomena whose two-letter code occurs in the weather string, in
/// the fixed search order.
pub open spec fn parsed_wmo_codes(wx: Seq<char>) -> Seq<WmoCode> {
    WmoCode::all_codes_spec().filter(|c: WmoCode| crate::strutil::contains_seq(wx, c.code_spec()))
}

/// Scan a METAR weather string for every recognized phenomenon code.
pub fn parse_wmo_codes(wx_string: &str) -> (found: Vec<WmoCode>)
    ensures
        found@ == parsed_wmo_codes(wx_string@),
{
    let ghost pred = |c: WmoCode| crate::strutil::contains_seq(wx_string@, c.code_spec());
    let all = WmoCode::all_codes();
    let mut found: Vec<WmoCode> = Vec::new();
    let n = all.len();
    let mut i: usize = 0;
    while i < n
        invariant
            n == all@.len(),
            all@ == WmoCode::all_codes_spec(),
            0 <= i <= n,
            pred == (|c: WmoCode| crate::strutil::contains_seq(wx_string@, c.code_spec())),
            found@ == all@.take(i as int).filter(pred),
        decreases n - i,
    {
        let code = all[i];
        if crate::strutil::str_contains_str(wx_string, code.code()) {
            found.push(code);
        }
        proof {
            reveal(Seq::filter);
            assert(all@.take(i + 1).drop_last() =~= all@.take(i as int));
            assert(all@.take(i + 1).last() == all@[i as int]);
        }
        i = i + 1;
    }
    proof {
        assert(all@.take(n as int) =~= all@);
    }
    found
}

} // verus!
