//! The table extractor: one day's sub-table, read slot by slot.

use vstd::prelude::*;
use vstd::string::*;
use crate::date::{resolve, resolved_date, Date};
use crate::field::{failure_message, parse, Field};
use crate::markup::{
    fragment_cells,
    fragment_contents,
    select_fragment_cells,
    select_fragment_contents,
    Cell,
    CellView,
};
use crate::text::{cell_text, collect_text, same_text};
use crate::weather::{
    Announce,
    DailyForecast,
    DailyForecastView,
    TimeOfDay,
    Weather,
    WeatherKind,
    WindDirection,
};

verus! {

/// One day's sub-table as the parser found it: the contents of its date
/// header cells, and the cells of its eight rows, each in document order.
#[derive(Debug, Clone, PartialEq, Eq)]
pub struct SubTable {
    pub heads: Vec<String>,
    pub hours: Vec<Cell>,
    pub kinds: Vec<Cell>,
    pub temperatures: Vec<Cell>,
    pub prob_precips: Vec<Cell>,
    pub precipitations: Vec<Cell>,
    pub humidities: Vec<Cell>,
    pub wind_directions: Vec<Cell>,
    pub wind_speeds: Vec<Cell>,
}

/// A `SubTable` as a mathematical value.
pub struct SubTableView {
    pub heads: Seq<Seq<char>>,
    pub hours: Seq<CellView>,
    pub kinds: Seq<CellView>,
    pub temperatures: Seq<CellView>,
    pub prob_precips: Seq<CellView>,
    pub precipitations: Seq<CellView>,
    pub humidities: Seq<CellView>,
    pub wind_directions: Seq<CellView>,
    pub wind_speeds: Seq<CellView>,
}

impl DeepView for SubTable {
    type V = SubTableView;

    open spec fn deep_view(&self) -> SubTableView {
        SubTableView {
            heads: self.heads.deep_view(),
            hours: self.hours.deep_view(),
            kinds: self.kinds.deep_view(),
            temperatures: self.temperatures.deep_view(),
            prob_precips: self.prob_precips.deep_view(),
            precipitations: self.precipitations.deep_view(),
            humidities: self.humidities.deep_view(),
            wind_directions: self.wind_directions.deep_view(),
            wind_speeds: self.wind_speeds.deep_view(),
        }
    }
}

/// The texts of one hour slot, one per row, and whether the hour cell is
/// marked as past.
#[derive(Debug, Clone, PartialEq, Eq)]
pub struct Slot {
    pub past: bool,
    pub hour: String,
    pub kind: String,
    pub temperature: String,
    pub prob_precip: String,
    pub precipitation: String,
    pub humidity: String,
    pub wind_direction: String,
    pub wind_speed: String,
}

/// A `Slot` as a mathematical value.
pub struct SlotView {
    pub past: bool,
    pub hour: Seq<char>,
    pub kind: Seq<char>,
    pub temperature: Seq<char>,
    pub prob_precip: Seq<char>,
    pub precipitation: Seq<char>,
    pub humidity: Seq<char>,
    pub wind_direction: Seq<char>,
    pub wind_speed: Seq<char>,
}

impl View for Slot {
    type V = SlotView;

    open spec fn view(&self) -> SlotView {
        SlotView {
            past: self.past,
            hour: self.hour@,
            kind: self.kind@,
            temperature: self.temperature@,
            prob_precip: self.prob_precip@,
            precipitation: self.precipitation@,
            humidity: self.humidity@,
            wind_direction: self.wind_direction@,
            wind_speed: self.wind_speed@,
        }
    }
}

/// What the kind cell of a slot says while nothing is published for it.
pub open spec fn placeholder() -> Seq<char> {
    "---"@
}

/// The hour of the day that an hour label stands for: `24` is midnight.
pub open spec fn hour_of_day(label: u32) -> TimeOfDay {
    TimeOfDay { hour: label % 24 }
}

/// The reading of a slot whose kind cell is no placeholder, or the message
/// for the first of its cells, in the order kind, temperature, precipitation,
/// humidity, wind direction, wind speed, that holds no value of its field. A
/// chance of precipitation that cannot be read is absent.
pub open spec fn reading(slot: SlotView) -> Result<Weather, Seq<char>> {
    if WeatherKind::parsed(slot.kind) is None {
        Err(failure_message(slot.kind, "kind"@))
    } else if i32::parsed(slot.temperature) is None {
        Err(failure_message(slot.temperature, "temp"@))
    } else if u32::parsed(slot.precipitation) is None {
        Err(failure_message(slot.precipitation, "precipitation"@))
    } else if u32::parsed(slot.humidity) is None {
        Err(failure_message(slot.humidity, "humidity"@))
    } else if WindDirection::parsed(slot.wind_direction) is None {
        Err(failure_message(slot.wind_direction, "wind_direction"@))
    } else if u32::parsed(slot.wind_speed) is None {
        Err(failure_message(slot.wind_speed, "wind_speed"@))
    } else {
        Ok(
            Weather {
                kind: WeatherKind::parsed(slot.kind)->0,
                temperature: i32::parsed(slot.temperature)->0,
                prob_precip: u32::parsed(slot.prob_precip),
                precipitation: u32::parsed(slot.precipitation)->0,
                humidity: u32::parsed(slot.humidity)->0,
                wind_direction: WindDirection::parsed(slot.wind_direction)->0,
                wind_speed: u32::parsed(slot.wind_speed)->0,
            },
        )
    }
}

/// The hour of a slot and what is announced for it.
///
/// The hour label must be a number. A placeholder in the kind cell gives
/// `NotYet`, whatever the other cells hold. Otherwise the slot carries its
/// reading, as `Past` where the hour cell is marked and as `Regular` where
/// it is not.
pub open spec fn announced(slot: SlotView) -> Result<(TimeOfDay, Announce), Seq<char>> {
    match u32::parsed(slot.hour) {
        None => Err(failure_message(slot.hour, "hour"@)),
        Some(label) => if slot.kind == placeholder() {
            Ok((hour_of_day(label), Announce::NotYet))
        } else {
            match reading(slot) {
                Err(message) => Err(message),
                Ok(weather) => Ok(
                    (
                        hour_of_day(label),
                        if slot.past {
                            Announce::Past(weather)
                        } else {
                            Announce::Regular(weather)
                        },
                    ),
                ),
            }
        },
    }
}

impl Slot {
    /// Reads the cells of the slot other than the hour.
    fn reading(&self) -> (r: Result<Weather, String>)
        ensures
            match r {
                Ok(weather) => reading(self@) == Ok::<Weather, Seq<char>>(weather),
                Err(message) => reading(self@) == Err::<Weather, Seq<char>>(message@),
            },
    {
        let kind = match parse::<WeatherKind>(self.kind.as_str(), "kind") {
            Ok(value) => value,
            Err(message) => {
                return Err(message);
            },
        };
        let temperature = match parse::<i32>(self.temperature.as_str(), "temp") {
            Ok(value) => value,
            Err(message) => {
                return Err(message);
            },
        };
        let prob_precip = u32::from_text(self.prob_precip.as_str());
        let precipitation = match parse::<u32>(self.precipitation.as_str(), "precipitation") {
            Ok(value) => value,
            Err(message) => {
                return Err(message);
            },
        };
        let humidity = match parse::<u32>(self.humidity.as_str(), "humidity") {
            Ok(value) => value,
            Err(message) => {
                return Err(message);
            },
        };
        let wind_direction = match parse::<WindDirection>(
            self.wind_direction.as_str(),
            "wind_direction",
        ) {
            Ok(value) => value,
            Err(message) => {
                return Err(message);
            },
        };
        let wind_speed = match parse::<u32>(self.wind_speed.as_str(), "wind_speed") {
            Ok(value) => value,
            Err(message) => {
                return Err(message);
            },
        };
        Ok(
            Weather {
                kind,
                temperature,
                prob_precip,
                precipitation,
                humidity,
                wind_direction,
                wind_speed,
            },
        )
    }

    /// Reads the slot: its hour of the day, and what is announced for it.
    pub fn announce(&self) -> (r: Result<(TimeOfDay, Announce), String>)
        ensures
            match r {
                Ok(pair) => announced(self@) == Ok::<(TimeOfDay, Announce), Seq<char>>(pair),
                Err(message) => announced(self@) == Err::<(TimeOfDay, Announce), Seq<char>>(
                    message@,
                ),
            },
            r matches Ok(pair) ==> pair.0.wf(),
    {
        let label = match parse::<u32>(self.hour.as_str(), "hour") {
            Ok(value) => value,
            Err(message) => {
                return Err(message);
            },
        };
        let time = TimeOfDay { hour: label % 24 };
        if same_text(self.kind.as_str(), "---") {
            return Ok((time, Announce::NotYet));
        }
        match self.reading() {
            Ok(weather) => if self.past {
                Ok((time, Announce::Past(weather)))
            } else {
                Ok((time, Announce::Regular(weather)))
            },
            Err(message) => Err(message),
        }
    }
}

impl SubTableView {
    /// Each of the eight rows has a cell for every hour slot, and there is a
    /// slot.
    pub open spec fn aligned(self) -> bool {
        &&& self.hours.len() > 0
        &&& self.kinds.len() == self.hours.len()
        &&& self.temperatures.len() == self.hours.len()
        &&& self.prob_precips.len() == self.hours.len()
        &&& self.precipitations.len() == self.hours.len()
        &&& self.humidities.len() == self.hours.len()
        &&& self.wind_directions.len() == self.hours.len()
        &&& self.wind_speeds.len() == self.hours.len()
    }

    /// The slot at position `i`: what the cell at `i` of each row says.
    pub open spec fn slot(self, i: int) -> SlotView {
        SlotView {
            past: self.hours[i].marked,
            hour: cell_text(self.hours[i].texts),
            kind: cell_text(self.kinds[i].texts),
            temperature: cell_text(self.temperatures[i].texts),
            prob_precip: cell_text(self.prob_precips[i].texts),
            precipitation: cell_text(self.precipitations[i].texts),
            humidity: cell_text(self.humidities[i].texts),
            wind_direction: cell_text(self.wind_directions[i].texts),
            wind_speed: cell_text(self.wind_speeds[i].texts),
        }
    }
}

/// The message for a sub-table without a date header cell.
pub open spec fn date_missing() -> Seq<char> {
    "date not found"@
}

/// The message for a date header that names no day of the calendar.
pub open spec fn date_invalid() -> Seq<char> {
    "invalid date"@
}

/// The message for a sub-table whose rows are missing or differ in length.
pub open spec fn rows_misaligned() -> Seq<char> {
    "forecast rows are missing or differ in length"@
}

/// The place and the time of announcement as one description.
pub open spec fn described(location: Seq<char>, announced_time: Seq<char>) -> Seq<char> {
    location + " ("@ + announced_time + ")"@
}

/// The first `n` slots of `table` read in order: what each announces, or the
/// message of the first that cannot be read.
pub open spec fn weathers_upto(table: SubTableView, n: int) -> Result<
    Seq<(TimeOfDay, Announce)>,
    Seq<char>,
>
    decreases n,
{
    if n <= 0 {
        Ok(Seq::empty())
    } else {
        match weathers_upto(table, n - 1) {
            Err(message) => Err(message),
            Ok(earlier) => match announced(table.slot(n - 1)) {
                Err(message) => Err(message),
                Ok(pair) => Ok(earlier.push(pair)),
            },
        }
    }
}

/// The forecast of the day that `table` holds, read on the day `today`.
///
/// The first date header cell must name a day of the calendar, the eight
/// rows must be aligned, and every slot must be readable; the first of these
/// that fails gives the message.
pub open spec fn day_forecast(
    table: SubTableView,
    location: Seq<char>,
    announced_time: Seq<char>,
    today: Date,
) -> Result<DailyForecastView, Seq<char>> {
    if table.heads.len() == 0 {
        Err(date_missing())
    } else {
        match resolved_date(table.heads[0], today) {
            None => Err(date_invalid()),
            Some(date) => if !table.aligned() {
                Err(rows_misaligned())
            } else {
                match weathers_upto(table, table.hours.len() as int) {
                    Err(message) => Err(message),
                    Ok(weathers) => Ok(
                        DailyForecastView {
                            location: described(location, announced_time),
                            date,
                            weathers,
                        },
                    ),
                }
            },
        }
    }
}

/// Once a slot cannot be read, reading further slots changes nothing.
pub proof fn lemma_first_failure_stays(table: SubTableView, k: int, n: int)
    requires
        k <= n,
        weathers_upto(table, k) is Err,
    ensures
        weathers_upto(table, n) == weathers_upto(table, k),
    decreases n - k,
{
    if k < n {
        lemma_first_failure_stays(table, k, n - 1);
    }
}

impl SubTable {
    /// Whether each of the eight rows has a cell for every hour slot, and
    /// there is a slot.
    pub fn aligned(&self) -> (r: bool)
        ensures
            r == self.deep_view().aligned(),
    {
        let n = self.hours.len();
        n > 0 && self.kinds.len() == n && self.temperatures.len() == n && self.prob_precips.len()
            == n && self.precipitations.len() == n && self.humidities.len() == n
            && self.wind_directions.len() == n && self.wind_speeds.len() == n
    }

    /// Collects the texts of the slot at position `i`.
    pub fn slot(&self, i: usize) -> (r: Slot)
        requires
            self.deep_view().aligned(),
            i < self.hours.len(),
        ensures
            r@ == self.deep_view().slot(i as int),
    {
        Slot {
            past: self.hours[i].marked,
            hour: collect_text(&self.hours[i].texts),
            kind: collect_text(&self.kinds[i].texts),
            temperature: collect_text(&self.temperatures[i].texts),
            prob_precip: collect_text(&self.prob_precips[i].texts),
            precipitation: collect_text(&self.precipitations[i].texts),
            humidity: collect_text(&self.humidities[i].texts),
            wind_direction: collect_text(&self.wind_directions[i].texts),
            wind_speed: collect_text(&self.wind_speeds[i].texts),
        }
    }

    /// Reads every slot in order, and stops at the first that cannot be
    /// read.
    fn weathers(&self) -> (r: Result<Vec<(TimeOfDay, Announce)>, String>)
        requires
            self.deep_view().aligned(),
        ensures
            match r {
                Ok(weathers) => weathers_upto(self.deep_view(), self.hours.len() as int) == Ok::<
                    Seq<(TimeOfDay, Announce)>,
                    Seq<char>,
                >(weathers@),
                Err(message) => weathers_upto(self.deep_view(), self.hours.len() as int) == Err::<
                    Seq<(TimeOfDay, Announce)>,
                    Seq<char>,
                >(message@),
            },
    {
        let mut weathers: Vec<(TimeOfDay, Announce)> = Vec::new();
        let mut i: usize = 0;
        while i < self.hours.len()
            invariant
                i <= self.hours.len(),
                self.deep_view().aligned(),
                weathers_upto(self.deep_view(), i as int) == Ok::<
                    Seq<(TimeOfDay, Announce)>,
                    Seq<char>,
                >(weathers@),
            decreases self.hours.len() - i,
        {
            let slot = self.slot(i);
            match slot.announce() {
                Ok(pair) => {
                    weathers.push(pair);
                },
                Err(message) => {
                    proof {
                        lemma_first_failure_stays(
                            self.deep_view(),
                            i as int + 1,
                            self.hours.len() as int,
                        );
                    }
                    return Err(message);
                },
            }
            i += 1;
        }
        Ok(weathers)
    }

    /// Reads the sub-table into the forecast of its day: the table extractor.
    ///
    /// `location` and `announced_time` come from the heading of the page;
    /// `today` is the day on which the page is read, by which the year of
    /// the header date is inferred.
    pub fn extract(&self, location: &str, announced_time: &str, today: Date) -> (r: Result<
        DailyForecast,
        String,
    >)
        ensures
            match r {
                Ok(day) => day_forecast(self.deep_view(), location@, announced_time@, today)
                    == Ok::<DailyForecastView, Seq<char>>(day@),
                Err(message) => day_forecast(self.deep_view(), location@, announced_time@, today)
                    == Err::<DailyForecastView, Seq<char>>(message@),
            },
    {
        if self.heads.len() == 0 {
            return Err(String::from_str("date not found"));
        }
        let date = match resolve(self.heads[0].as_str(), today) {
            Some(date) => date,
            None => {
                return Err(String::from_str("invalid date"));
            },
        };
        if !self.aligned() {
            return Err(String::from_str("forecast rows are missing or differ in length"));
        }
        let weathers = match self.weathers() {
            Ok(weathers) => weathers,
            Err(message) => {
                return Err(message);
            },
        };
        let mut described = String::from_str(location);
        described.append(" (");
        described.append(announced_time);
        described.append(")");
        Ok(DailyForecast { location: described, date, weathers })
    }
}

/// The class that marks an hour cell as past.
pub open spec fn past_class() -> Seq<char> {
    "past"@
}

/// The sub-table that the parser finds in `markup`: for the date header and
/// for each of the eight rows, the elements that the row's selector matches.
/// `None` if the parser refuses one of the selectors.
pub open spec fn sub_table(markup: Seq<char>) -> Option<SubTableView> {
    let heads = fragment_contents(markup, "tr.head > td > div"@);
    let hours = fragment_cells(markup, "tr.hour > td > span"@, past_class());
    let kinds = fragment_cells(markup, "tr.weather > td"@, past_class());
    let temperatures = fragment_cells(markup, "tr.temperature > td"@, past_class());
    let prob_precips = fragment_cells(markup, "tr.prob-precip > td"@, past_class());
    let precipitations = fragment_cells(markup, "tr.precipitation > td"@, past_class());
    let humidities = fragment_cells(markup, "tr.humidity > td"@, past_class());
    let wind_directions = fragment_cells(
        markup,
        "tr.wind-direction > td, tr.wind-blow > td"@,
        past_class(),
    );
    let wind_speeds = fragment_cells(markup, "tr.wind-speed > td"@, past_class());
    if heads is Some && hours is Some && kinds is Some && temperatures is Some && prob_precips
        is Some && precipitations is Some && humidities is Some && wind_directions is Some
        && wind_speeds is Some {
        Some(
            SubTableView {
                heads: heads->0,
                hours: hours->0,
                kinds: kinds->0,
                temperatures: temperatures->0,
                prob_precips: prob_precips->0,
                precipitations: precipitations->0,
                humidities: humidities->0,
                wind_directions: wind_directions->0,
                wind_speeds: wind_speeds->0,
            },
        )
    } else {
        None
    }
}

impl SubTable {
    /// Has `markup` parsed as a fragment of its own, and collects the date
    /// header and the eight rows from it.
    pub fn from_markup(markup: &str) -> (r: Option<SubTable>)
        ensures
            r.deep_view() == sub_table(markup@),
    {
        let heads = select_fragment_contents(markup, "tr.head > td > div")?;
        let hours = select_fragment_cells(markup, "tr.hour > td > span", "past")?;
        let kinds = select_fragment_cells(markup, "tr.weather > td", "past")?;
        let temperatures = select_fragment_cells(markup, "tr.temperature > td", "past")?;
        let prob_precips = select_fragment_cells(markup, "tr.prob-precip > td", "past")?;
        let precipitations = select_fragment_cells(markup, "tr.precipitation > td", "past")?;
        let humidities = select_fragment_cells(markup, "tr.humidity > td", "past")?;
        let wind_directions = select_fragment_cells(
            markup,
            "tr.wind-direction > td, tr.wind-blow > td",
            "past",
        )?;
        let wind_speeds = select_fragment_cells(markup, "tr.wind-speed > td", "past")?;
        Some(
            SubTable {
                heads,
                hours,
                kinds,
                temperatures,
                prob_precips,
                precipitations,
                humidities,
                wind_directions,
                wind_speeds,
            },
        )
    }
}

/// The hour labels of `table` are numbers below 24 that go up by `step` from
/// one slot to the next.
pub open spec fn labels_step(table: SubTableView, step: int) -> bool {
    &&& forall|i: int|
        0 <= i < table.hours.len() ==> (#[trigger] u32::parsed(table.slot(i).hour)) is Some
            && u32::parsed(table.slot(i).hour)->0 < 24
    &&& forall|i: int|
        0 <= i < table.hours.len() - 1 ==> (#[trigger] u32::parsed(table.slot(i + 1).hour))->0
            == u32::parsed(table.slot(i).hour)->0 + step
}

/// A slot whose kind cell holds the placeholder is not yet announced,
/// whatever its other cells hold: they are not read.
pub proof fn lemma_placeholder_is_not_yet(slot: SlotView, other: SlotView)
    requires
        slot.kind == placeholder(),
        other.kind == placeholder(),
        other.hour == slot.hour,
    ensures
        announced(slot) is Ok ==> announced(slot)->Ok_0.1 == Announce::NotYet,
        announced(slot) is Ok <==> u32::parsed(slot.hour) is Some,
        announced(other) == announced(slot),
{
}

/// A slot with a reading carries it as `Past` where the hour cell is marked
/// and as `Regular` where it is not; the mark changes nothing else.
pub proof fn lemma_mark_tells_past_from_regular(slot: SlotView, weather: Weather)
    requires
        slot.kind != placeholder(),
        u32::parsed(slot.hour) is Some,
        reading(slot) == Ok::<Weather, Seq<char>>(weather),
    ensures
        announced(SlotView { past: true, ..slot }) == Ok::<(TimeOfDay, Announce), Seq<char>>(
            (hour_of_day(u32::parsed(slot.hour)->0), Announce::Past(weather)),
        ),
        announced(SlotView { past: false, ..slot }) == Ok::<(TimeOfDay, Announce), Seq<char>>(
            (hour_of_day(u32::parsed(slot.hour)->0), Announce::Regular(weather)),
        ),
{
    assert(reading(SlotView { past: true, ..slot }) == reading(slot));
    assert(reading(SlotView { past: false, ..slot }) == reading(slot));
}

/// The hour of a slot is its label reduced modulo 24: the label 24 is
/// midnight, and every hour lies below 24.
pub proof fn lemma_hour_is_label_modulo_24(slot: SlotView)
    requires
        announced(slot) is Ok,
    ensures
        u32::parsed(slot.hour) is Some,
        announced(slot)->Ok_0.0.hour == u32::parsed(slot.hour)->0 % 24,
        announced(slot)->Ok_0.0.wf(),
        u32::parsed(slot.hour) == Some(24u32) ==> announced(slot)->Ok_0.0.hour == 0,
{
}

/// Where the first `n` slots can all be read, there is one entry for each,
/// in their order; where they cannot, some slot among them cannot be read.
pub proof fn lemma_weathers_read_every_slot(table: SubTableView, n: int)
    requires
        0 <= n,
    ensures
        match weathers_upto(table, n) {
            Ok(weathers) => weathers.len() == n && forall|i: int|
                0 <= i < n ==> #[trigger] announced(table.slot(i)) == Ok::<
                    (TimeOfDay, Announce),
                    Seq<char>,
                >(weathers[i]),
            Err(message) => exists|i: int|
                0 <= i < n && #[trigger] announced(table.slot(i)) == Err::<
                    (TimeOfDay, Announce),
                    Seq<char>,
                >(message),
        },
    decreases n,
{
    if n > 0 {
        lemma_weathers_read_every_slot(table, n - 1);
        match weathers_upto(table, n - 1) {
            Ok(earlier) => {
                match announced(table.slot(n - 1)) {
                    Ok(pair) => {
                        let weathers = earlier.push(pair);
                        assert forall|i: int| 0 <= i < n implies #[trigger] announced(
                            table.slot(i),
                        ) == Ok::<(TimeOfDay, Announce), Seq<char>>(weathers[i]) by {
                            if i < n - 1 {
                                assert(weathers[i] == earlier[i]);
                            }
                        }
                    },
                    Err(message) => {},
                }
            },
            Err(message) => {
                let i = choose|i: int|
                    0 <= i < n - 1 && #[trigger] announced(table.slot(i)) == Err::<
                        (TimeOfDay, Announce),
                        Seq<char>,
                    >(message);
                assert(announced(table.slot(i)) is Err);
            },
        }
    }
}

/// A sub-table that is read into a forecast gives a well-formed one, with
/// one entry for each of its slots.
pub proof fn lemma_forecast_is_well_formed(
    table: SubTableView,
    location: Seq<char>,
    announced_time: Seq<char>,
    today: Date,
)
    requires
        day_forecast(table, location, announced_time, today) is Ok,
    ensures
        table.aligned(),
        day_forecast(table, location, announced_time, today)->Ok_0.wf(),
        day_forecast(table, location, announced_time, today)->Ok_0.weathers.len()
            == table.hours.len(),
        day_forecast(table, location, announced_time, today)->Ok_0.location == described(
            location,
            announced_time,
        ),
{
    let n = table.hours.len() as int;
    lemma_weathers_read_every_slot(table, n);
    let day = day_forecast(table, location, announced_time, today)->Ok_0;
    assert forall|i: int| 0 <= i < day.weathers.len() implies (#[trigger] day.weathers[i]).0.wf() by {
        assert(announced(table.slot(i)) == Ok::<(TimeOfDay, Announce), Seq<char>>(day.weathers[i]));
        lemma_hour_is_label_modulo_24(table.slot(i));
    }
}

/// A sub-table in which a row is missing, or rows differ in length, gives no
/// forecast: never a day cut short.
pub proof fn lemma_misaligned_rows_fail(
    table: SubTableView,
    location: Seq<char>,
    announced_time: Seq<char>,
    today: Date,
)
    requires
        !table.aligned(),
    ensures
        day_forecast(table, location, announced_time, today) is Err,
{
}

/// Where the hour labels go up by `step` and stay below 24, the hours of
/// the forecast go up by `step` from each entry to the next: ascending, and
/// without a gap.
pub proof fn lemma_hours_ascend_by_step(
    table: SubTableView,
    location: Seq<char>,
    announced_time: Seq<char>,
    today: Date,
    step: int,
)
    requires
        0 < step,
        labels_step(table, step),
        day_forecast(table, location, announced_time, today) is Ok,
    ensures
        forall|i: int|
            0 <= i < table.hours.len() - 1 ==> (#[trigger] day_forecast(
                table,
                location,
                announced_time,
                today,
            )->Ok_0.weathers[i + 1]).0.hour == day_forecast(
                table,
                location,
                announced_time,
                today,
            )->Ok_0.weathers[i].0.hour + step,
{
    let n = table.hours.len() as int;
    lemma_weathers_read_every_slot(table, n);
    let day = day_forecast(table, location, announced_time, today)->Ok_0;
    assert forall|i: int| 0 <= i < n - 1 implies (#[trigger] day.weathers[i + 1]).0.hour
        == day.weathers[i].0.hour + step by {
        assert(announced(table.slot(i)) == Ok::<(TimeOfDay, Announce), Seq<char>>(day.weathers[i]));
        assert(announced(table.slot(i + 1)) == Ok::<(TimeOfDay, Announce), Seq<char>>(
            day.weathers[i + 1],
        ));
        assert(u32::parsed(table.slot(i).hour) is Some);
        assert(u32::parsed(table.slot(i + 1).hour)->0 == u32::parsed(table.slot(i).hour)->0 + step);
    }
}

} // verus!
