//! The typed weather model: what one hour slot of a forecast table holds.

use vstd::prelude::*;
use vstd::string::*;
use crate::date::Date;
use crate::field::Field;
use crate::text::same_text;

verus! {

/// The sky or precipitation condition of one hour.
#[derive(Debug, Clone, Copy, PartialEq, Eq)]
pub enum WeatherKind {
    Sunny,
    Cloudy,
    LightRain,
    WeakRain,
    Rain,
    HeavyRain,
    Downpour,
    DrySnow,
    WetSnow,
    Sleet,
}

/// Where the wind blows from, or that there is none.
#[derive(Debug, Clone, Copy, PartialEq, Eq)]
pub enum WindDirection {
    Calm,
    North,
    NorthNorthEast,
    NorthEast,
    EastNorthEast,
    East,
    EastSouthEast,
    SouthEast,
    SouthSouthEast,
    South,
    SouthSouthWest,
    SouthWest,
    WestSouthWest,
    West,
    WestNorthWest,
    NorthWest,
    NorthNorthWest,
}

/// One hour's reading. Only the chance of precipitation may be absent.
#[derive(Debug, Clone, Copy, PartialEq, Eq)]
pub struct Weather {
    pub kind: WeatherKind,
    /// Degrees Celsius.
    pub temperature: i32,
    /// Percent.
    pub prob_precip: Option<u32>,
    /// Millimetres.
    pub precipitation: u32,
    /// Percent.
    pub humidity: u32,
    pub wind_direction: WindDirection,
    /// Metres per second.
    pub wind_speed: u32,
}

/// What the page says of one hour slot.
#[derive(Debug, Clone, Copy, PartialEq, Eq)]
pub enum Announce {
    /// Nothing is published for the hour yet.
    NotYet,
    /// The hour lies in the past; the reading is what was observed.
    Past(Weather),
    /// An ordinary forecast.
    Regular(Weather),
}

/// A full hour of the day.
#[derive(Debug, Clone, Copy, PartialEq, Eq)]
pub struct TimeOfDay {
    pub hour: u32,
}

/// The forecast of one day at one place.
#[derive(Debug, Clone, PartialEq, Eq)]
pub struct DailyForecast {
    /// The place, and in brackets when the forecast was announced.
    pub location: String,
    pub date: Date,
    /// The hour slots in the order of the page.
    pub weathers: Vec<(TimeOfDay, Announce)>,
}

/// A `DailyForecast` as a mathematical value.
pub struct DailyForecastView {
    pub location: Seq<char>,
    pub date: Date,
    pub weathers: Seq<(TimeOfDay, Announce)>,
}

impl View for DailyForecast {
    type V = DailyForecastView;

    open spec fn view(&self) -> DailyForecastView {
        DailyForecastView { location: self.location@, date: self.date, weathers: self.weathers@ }
    }
}

impl DailyForecastView {
    /// The date is a day of the calendar, there is at least one hour slot,
    /// and every slot lies at one of a day's twenty-four hours.
    pub open spec fn wf(self) -> bool {
        &&& self.date.wf()
        &&& self.weathers.len() > 0
        &&& forall|i: int| 0 <= i < self.weathers.len() ==> (#[trigger] self.weathers[i]).0.wf()
    }
}

impl TimeOfDay {
    /// The hour is one of a day's twenty-four.
    pub open spec fn wf(self) -> bool {
        self.hour < 24
    }
}

impl WeatherKind {
    /// The label that the page prints for the condition.
    pub open spec fn label_text(self) -> Seq<char> {
        match self {
            WeatherKind::Sunny => "晴れ"@,
            WeatherKind::Cloudy => "曇り"@,
            WeatherKind::LightRain => "小雨"@,
            WeatherKind::WeakRain => "弱雨"@,
            WeatherKind::Rain => "雨"@,
            WeatherKind::HeavyRain => "強雨"@,
            WeatherKind::Downpour => "豪雨"@,
            WeatherKind::DrySnow => "乾雪"@,
            WeatherKind::WetSnow => "湿雪"@,
            WeatherKind::Sleet => "みぞれ"@,
        }
    }

    /// The label that the page prints for the condition.
    pub fn label(self) -> (r: &'static str)
        ensures
            r@ == self.label_text(),
    {
        match self {
            WeatherKind::Sunny => "晴れ",
            WeatherKind::Cloudy => "曇り",
            WeatherKind::LightRain => "小雨",
            WeatherKind::WeakRain => "弱雨",
            WeatherKind::Rain => "雨",
            WeatherKind::HeavyRain => "強雨",
            WeatherKind::Downpour => "豪雨",
            WeatherKind::DrySnow => "乾雪",
            WeatherKind::WetSnow => "湿雪",
            WeatherKind::Sleet => "みぞれ",
        }
    }

    /// No two conditions share a label.
    pub proof fn lemma_labels_differ(a: WeatherKind, b: WeatherKind)
        requires
            a != b,
        ensures
            a.label_text() != b.label_text(),
    {
        reveal_strlit("晴れ");
        reveal_strlit("曇り");
        reveal_strlit("小雨");
        reveal_strlit("弱雨");
        reveal_strlit("雨");
        reveal_strlit("強雨");
        reveal_strlit("豪雨");
        reveal_strlit("乾雪");
        reveal_strlit("湿雪");
        reveal_strlit("みぞれ");
        let x = a.label_text();
        let y = b.label_text();
        assert(x.len() != y.len() || x[0] != y[0]);
    }
}

impl Field for WeatherKind {
    /// The condition whose label is `text`.
    open spec fn parsed(text: Seq<char>) -> Option<WeatherKind> {
        if exists|kind: WeatherKind| kind.label_text() == text {
            Some(choose|kind: WeatherKind| kind.label_text() == text)
        } else {
            None
        }
    }

    fn from_text(text: &str) -> (r: Option<WeatherKind>) {
        let found = if same_text(text, "晴れ") {
            Some(WeatherKind::Sunny)
        } else if same_text(text, "曇り") {
            Some(WeatherKind::Cloudy)
        } else if same_text(text, "小雨") {
            Some(WeatherKind::LightRain)
        } else if same_text(text, "弱雨") {
            Some(WeatherKind::WeakRain)
        } else if same_text(text, "雨") {
            Some(WeatherKind::Rain)
        } else if same_text(text, "強雨") {
            Some(WeatherKind::HeavyRain)
        } else if same_text(text, "豪雨") {
            Some(WeatherKind::Downpour)
        } else if same_text(text, "乾雪") {
            Some(WeatherKind::DrySnow)
        } else if same_text(text, "湿雪") {
            Some(WeatherKind::WetSnow)
        } else if same_text(text, "みぞれ") {
            Some(WeatherKind::Sleet)
        } else {
            None
        };
        proof {
            match found {
                Some(kind) => {
                    assert(kind.label_text() == text@);
                    let chosen = choose|kind: WeatherKind| kind.label_text() == text@;
                    if chosen != kind {
                        WeatherKind::lemma_labels_differ(chosen, kind);
                    }
                },
                None => {
                    assert forall|kind: WeatherKind| kind.label_text() != text@ by {}
                },
            }
        }
        found
    }
}

impl WindDirection {
    /// The label that the page prints for the direction.
    pub open spec fn label_text(self) -> Seq<char> {
        match self {
            WindDirection::Calm => "静穏"@,
            WindDirection::North => "北"@,
            WindDirection::NorthNorthEast => "北北東"@,
            WindDirection::NorthEast => "北東"@,
            WindDirection::EastNorthEast => "東北東"@,
            WindDirection::East => "東"@,
            WindDirection::EastSouthEast => "東南東"@,
            WindDirection::SouthEast => "南東"@,
            WindDirection::SouthSouthEast => "南南東"@,
            WindDirection::South => "南"@,
            WindDirection::SouthSouthWest => "南南西"@,
            WindDirection::SouthWest => "南西"@,
            WindDirection::WestSouthWest => "西南西"@,
            WindDirection::West => "西"@,
            WindDirection::WestNorthWest => "西北西"@,
            WindDirection::NorthWest => "北西"@,
            WindDirection::NorthNorthWest => "北北西"@,
        }
    }

    /// The label that the page prints for the direction.
    pub fn label(self) -> (r: &'static str)
        ensures
            r@ == self.label_text(),
    {
        match self {
            WindDirection::Calm => "静穏",
            WindDirection::North => "北",
            WindDirection::NorthNorthEast => "北北東",
            WindDirection::NorthEast => "北東",
            WindDirection::EastNorthEast => "東北東",
            WindDirection::East => "東",
            WindDirection::EastSouthEast => "東南東",
            WindDirection::SouthEast => "南東",
            WindDirection::SouthSouthEast => "南南東",
            WindDirection::South => "南",
            WindDirection::SouthSouthWest => "南南西",
            WindDirection::SouthWest => "南西",
            WindDirection::WestSouthWest => "西南西",
            WindDirection::West => "西",
            WindDirection::WestNorthWest => "西北西",
            WindDirection::NorthWest => "北西",
            WindDirection::NorthNorthWest => "北北西",
        }
    }

    /// No two directions share a label.
    pub proof fn lemma_labels_differ(a: WindDirection, b: WindDirection)
        requires
            a != b,
        ensures
            a.label_text() != b.label_text(),
    {
        reveal_strlit("静穏");
        reveal_strlit("北");
        reveal_strlit("北北東");
        reveal_strlit("北東");
        reveal_strlit("東北東");
        reveal_strlit("東");
        reveal_strlit("東南東");
        reveal_strlit("南東");
        reveal_strlit("南南東");
        reveal_strlit("南");
        reveal_strlit("南南西");
        reveal_strlit("南西");
        reveal_strlit("西南西");
        reveal_strlit("西");
        reveal_strlit("西北西");
        reveal_strlit("北西");
        reveal_strlit("北北西");
        let x = a.label_text();
        let y = b.label_text();
        assert(x.len() != y.len() || x[0] != y[0] || x[1] != y[1] || x[2] != y[2]);
    }
}

impl Field for WindDirection {
    /// The direction whose label is `text`.
    open spec fn parsed(text: Seq<char>) -> Option<WindDirection> {
        if exists|direction: WindDirection| direction.label_text() == text {
            Some(choose|direction: WindDirection| direction.label_text() == text)
        } else {
            None
        }
    }

    fn from_text(text: &str) -> (r: Option<WindDirection>) {
        let found = if same_text(text, "静穏") {
            Some(WindDirection::Calm)
        } else if same_text(text, "北") {
            Some(WindDirection::North)
        } else if same_text(text, "北北東") {
            Some(WindDirection::NorthNorthEast)
        } else if same_text(text, "北東") {
            Some(WindDirection::NorthEast)
        } else if same_text(text, "東北東") {
            Some(WindDirection::EastNorthEast)
        } else if same_text(text, "東") {
            Some(WindDirection::East)
        } else if same_text(text, "東南東") {
            Some(WindDirection::EastSouthEast)
        } else if same_text(text, "南東") {
            Some(WindDirection::SouthEast)
        } else if same_text(text, "南南東") {
            Some(WindDirection::SouthSouthEast)
        } else if same_text(text, "南") {
            Some(WindDirection::South)
        } else if same_text(text, "南南西") {
            Some(WindDirection::SouthSouthWest)
        } else if same_text(text, "南西") {
            Some(WindDirection::SouthWest)
        } else if same_text(text, "西南西") {
            Some(WindDirection::WestSouthWest)
        } else if same_text(text, "西") {
            Some(WindDirection::West)
        } else if same_text(text, "西北西") {
            Some(WindDirection::WestNorthWest)
        } else if same_text(text, "北西") {
            Some(WindDirection::NorthWest)
        } else if same_text(text, "北北西") {
            Some(WindDirection::NorthNorthWest)
        } else {
            None
        };
        proof {
            match found {
                Some(direction) => {
                    assert(direction.label_text() == text@);
                    let chosen = choose|direction: WindDirection| direction.label_text() == text@;
                    if chosen != direction {
                        WindDirection::lemma_labels_differ(chosen, direction);
                    }
                },
                None => {
                    assert forall|direction: WindDirection| direction.label_text() != text@ by {}
                },
            }
        }
        found
    }
}

} // verus!
