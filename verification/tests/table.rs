use tenki_core::date::Date;
use tenki_core::markup::Cell;
use tenki_core::table::{Slot, SubTable};
use tenki_core::weather::{Announce, DailyForecast, TimeOfDay, Weather, WeatherKind, WindDirection};

fn slot(past: bool, hour: &str, kind: &str) -> Slot {
    Slot {
        past,
        hour: String::from(hour),
        kind: String::from(kind),
        temperature: String::from("18"),
        prob_precip: String::from("20"),
        precipitation: String::from("0"),
        humidity: String::from("64"),
        wind_direction: String::from("北西"),
        wind_speed: String::from("3"),
    }
}

fn sunny() -> Weather {
    Weather {
        kind: WeatherKind::Sunny,
        temperature: 18,
        prob_precip: Some(20),
        precipitation: 0,
        humidity: 64,
        wind_direction: WindDirection::NorthWest,
        wind_speed: 3,
    }
}

fn cell(text: &str) -> Cell {
    Cell { texts: vec![String::from(text)], marked: false }
}

fn row(texts: &[&str]) -> Vec<Cell> {
    texts.iter().map(|text| cell(text)).collect()
}

fn table() -> SubTable {
    SubTable {
        heads: vec![String::from("今日 <span>10月28日</span>(水)")],
        hours: vec![
            Cell { texts: vec![String::from("03")], marked: true },
            Cell { texts: vec![String::from("\n06\n")], marked: false },
            Cell { texts: vec![String::from("09")], marked: false },
        ],
        kinds: vec![
            cell("晴れ"),
            Cell { texts: vec![String::from(" "), String::from("曇り"), String::from("\n")], marked: false },
            cell("---"),
        ],
        temperatures: row(&["-2", "11", "---"]),
        prob_precips: row(&["---", "40", "---"]),
        precipitations: row(&["0", "1", "---"]),
        humidities: row(&["70", "66", "---"]),
        wind_directions: row(&["北", "静穏", "---"]),
        wind_speeds: row(&["2", "0", "---"]),
    }
}

fn today() -> Date {
    Date { year: 2026, month: 10, day: 28 }
}

#[test]
fn marked_hour_with_a_reading_is_past() {
    assert_eq!(slot(true, "9", "晴れ").announce(), Ok((TimeOfDay { hour: 9 }, Announce::Past(sunny()))));
}

#[test]
fn unmarked_hour_with_a_reading_is_regular() {
    assert_eq!(
        slot(false, "9", "晴れ").announce(),
        Ok((TimeOfDay { hour: 9 }, Announce::Regular(sunny())))
    );
}

#[test]
fn placeholder_is_not_yet_whatever_else_the_slot_holds() {
    let mut s = slot(false, "15", "---");
    assert_eq!(s.announce(), Ok((TimeOfDay { hour: 15 }, Announce::NotYet)));
    s.temperature = String::from("abc");
    s.prob_precip = String::from("?");
    s.precipitation = String::from("");
    s.humidity = String::from("-1");
    s.wind_direction = String::from("上");
    s.wind_speed = String::from("fast");
    assert_eq!(s.announce(), Ok((TimeOfDay { hour: 15 }, Announce::NotYet)));
    s.past = true;
    assert_eq!(s.announce(), Ok((TimeOfDay { hour: 15 }, Announce::NotYet)));
}

#[test]
fn hour_24_is_midnight() {
    assert_eq!(slot(false, "24", "---").announce(), Ok((TimeOfDay { hour: 0 }, Announce::NotYet)));
    assert_eq!(
        slot(false, "24", "晴れ").announce(),
        Ok((TimeOfDay { hour: 0 }, Announce::Regular(sunny())))
    );
}

#[test]
fn hours_are_taken_modulo_24() {
    assert_eq!(slot(false, "0", "---").announce().unwrap().0, TimeOfDay { hour: 0 });
    assert_eq!(slot(false, "03", "---").announce().unwrap().0, TimeOfDay { hour: 3 });
    assert_eq!(slot(false, "23", "---").announce().unwrap().0, TimeOfDay { hour: 23 });
    assert_eq!(slot(false, "25", "---").announce().unwrap().0, TimeOfDay { hour: 1 });
    assert_eq!(slot(false, "4294967295", "---").announce().unwrap().0, TimeOfDay { hour: 15 });
}

#[test]
fn hour_must_be_a_number_even_for_a_placeholder() {
    assert_eq!(
        slot(false, "noon", "---").announce(),
        Err(String::from("failed to parse `noon` as `hour`"))
    );
    assert_eq!(slot(true, "", "晴れ").announce(), Err(String::from("failed to parse `` as `hour`")));
}

#[test]
fn first_unreadable_cell_gives_the_message() {
    let mut s = slot(false, "9", "晴");
    s.temperature = String::from("warm");
    assert_eq!(s.announce(), Err(String::from("failed to parse `晴` as `kind`")));
    s.kind = String::from("晴れ");
    s.precipitation = String::from("x");
    assert_eq!(s.announce(), Err(String::from("failed to parse `warm` as `temp`")));
    s.temperature = String::from("-3");
    s.humidity = String::from("y");
    assert_eq!(s.announce(), Err(String::from("failed to parse `x` as `precipitation`")));
    s.precipitation = String::from("2");
    s.wind_direction = String::from("z");
    assert_eq!(s.announce(), Err(String::from("failed to parse `y` as `humidity`")));
    s.humidity = String::from("50");
    s.wind_speed = String::from("w");
    assert_eq!(s.announce(), Err(String::from("failed to parse `z` as `wind_direction`")));
    s.wind_direction = String::from("南");
    assert_eq!(s.announce(), Err(String::from("failed to parse `w` as `wind_speed`")));
    s.wind_speed = String::from("4");
    assert_eq!(
        s.announce(),
        Ok((
            TimeOfDay { hour: 9 },
            Announce::Regular(Weather {
                kind: WeatherKind::Sunny,
                temperature: -3,
                prob_precip: Some(20),
                precipitation: 2,
                humidity: 50,
                wind_direction: WindDirection::South,
                wind_speed: 4,
            })
        ))
    );
}

#[test]
fn chance_of_precipitation_may_be_absent() {
    let mut s = slot(false, "9", "晴れ");
    s.prob_precip = String::from("---");
    assert_eq!(
        s.announce(),
        Ok((TimeOfDay { hour: 9 }, Announce::Regular(Weather { prob_precip: None, ..sunny() })))
    );
    s.prob_precip = String::from("");
    assert_eq!(
        s.announce(),
        Ok((TimeOfDay { hour: 9 }, Announce::Regular(Weather { prob_precip: None, ..sunny() })))
    );
    s.prob_precip = String::from("100");
    assert_eq!(
        s.announce(),
        Ok((TimeOfDay { hour: 9 }, Announce::Regular(Weather { prob_precip: Some(100), ..sunny() })))
    );
}

#[test]
fn table_is_read_slot_by_slot() {
    let expected = DailyForecast {
        location: String::from("千葉市の天気 (28日10:00発表)"),
        date: Date { year: 2026, month: 10, day: 28 },
        weathers: vec![
            (
                TimeOfDay { hour: 3 },
                Announce::Past(Weather {
                    kind: WeatherKind::Sunny,
                    temperature: -2,
                    prob_precip: None,
                    precipitation: 0,
                    humidity: 70,
                    wind_direction: WindDirection::North,
                    wind_speed: 2,
                }),
            ),
            (
                TimeOfDay { hour: 6 },
                Announce::Regular(Weather {
                    kind: WeatherKind::Cloudy,
                    temperature: 11,
                    prob_precip: Some(40),
                    precipitation: 1,
                    humidity: 66,
                    wind_direction: WindDirection::Calm,
                    wind_speed: 0,
                }),
            ),
            (TimeOfDay { hour: 9 }, Announce::NotYet),
        ],
    };
    assert_eq!(table().extract("千葉市の天気", "28日10:00発表", today()), Ok(expected));
}

#[test]
fn slot_collects_the_cells_at_one_position() {
    let t = table();
    assert!(t.aligned());
    assert_eq!(
        t.slot(1),
        Slot {
            past: false,
            hour: String::from("06"),
            kind: String::from("曇り"),
            temperature: String::from("11"),
            prob_precip: String::from("40"),
            precipitation: String::from("1"),
            humidity: String::from("66"),
            wind_direction: String::from("静穏"),
            wind_speed: String::from("0"),
        }
    );
    assert!(t.slot(0).past);
}

#[test]
fn table_without_date_header_fails() {
    let mut t = table();
    t.heads = Vec::new();
    assert_eq!(t.extract("a", "b", today()), Err(String::from("date not found")));
}

#[test]
fn table_with_unreadable_date_fails() {
    let mut t = table();
    t.heads = vec![String::from("今日"), String::from("10月28日")];
    assert_eq!(t.extract("a", "b", today()), Err(String::from("invalid date")));
    t.heads = vec![String::from("2月30日")];
    assert_eq!(t.extract("a", "b", today()), Err(String::from("invalid date")));
}

#[test]
fn only_the_first_date_header_counts() {
    let mut t = table();
    t.heads = vec![String::from("11月1日"), String::from("nothing")];
    assert_eq!(t.extract("a", "b", today()).unwrap().date, Date { year: 2026, month: 11, day: 1 });
}

#[test]
fn year_of_the_table_turns_after_december() {
    let mut t = table();
    t.heads = vec![String::from("1月1日")];
    let read = t.extract("a", "b", Date { year: 2026, month: 12, day: 31 }).unwrap();
    assert_eq!(read.date, Date { year: 2027, month: 1, day: 1 });
}

#[test]
fn shorter_row_fails_the_table() {
    let misaligned = String::from("forecast rows are missing or differ in length");
    let mut t = table();
    t.hours.pop();
    assert!(!t.aligned());
    assert_eq!(t.extract("a", "b", today()), Err(misaligned.clone()));
    let mut t = table();
    t.kinds.pop();
    assert_eq!(t.extract("a", "b", today()), Err(misaligned.clone()));
    let mut t = table();
    t.temperatures.pop();
    assert_eq!(t.extract("a", "b", today()), Err(misaligned.clone()));
    let mut t = table();
    t.prob_precips.pop();
    assert_eq!(t.extract("a", "b", today()), Err(misaligned.clone()));
    let mut t = table();
    t.precipitations.pop();
    assert_eq!(t.extract("a", "b", today()), Err(misaligned.clone()));
    let mut t = table();
    t.humidities.pop();
    assert_eq!(t.extract("a", "b", today()), Err(misaligned.clone()));
    let mut t = table();
    t.wind_directions.pop();
    assert_eq!(t.extract("a", "b", today()), Err(misaligned.clone()));
    let mut t = table();
    t.wind_speeds.pop();
    assert_eq!(t.extract("a", "b", today()), Err(misaligned));
}

#[test]
fn missing_or_longer_row_fails_the_table() {
    let misaligned = String::from("forecast rows are missing or differ in length");
    let mut t = table();
    t.humidities = Vec::new();
    assert_eq!(t.extract("a", "b", today()), Err(misaligned.clone()));
    let mut t = table();
    t.wind_speeds.push(cell("1"));
    assert_eq!(t.extract("a", "b", today()), Err(misaligned.clone()));
    let mut t = table();
    t.hours.push(cell("12"));
    assert_eq!(t.extract("a", "b", today()), Err(misaligned));
}

#[test]
fn table_without_slots_fails() {
    let t = SubTable {
        heads: vec![String::from("10月28日")],
        hours: Vec::new(),
        kinds: Vec::new(),
        temperatures: Vec::new(),
        prob_precips: Vec::new(),
        precipitations: Vec::new(),
        humidities: Vec::new(),
        wind_directions: Vec::new(),
        wind_speeds: Vec::new(),
    };
    assert!(!t.aligned());
    assert_eq!(
        t.extract("a", "b", today()),
        Err(String::from("forecast rows are missing or differ in length"))
    );
}

#[test]
fn unreadable_slot_fails_the_table() {
    let mut t = table();
    t.temperatures[1] = cell("1.5");
    t.humidities[0] = cell("dry");
    assert_eq!(t.extract("a", "b", today()), Err(String::from("failed to parse `dry` as `humidity`")));
    t.humidities[0] = cell("44");
    assert_eq!(t.extract("a", "b", today()), Err(String::from("failed to parse `1.5` as `temp`")));
}

#[test]
fn date_is_checked_before_the_rows() {
    let mut t = table();
    t.heads = vec![String::from("?")];
    t.kinds.pop();
    assert_eq!(t.extract("a", "b", today()), Err(String::from("invalid date")));
}

#[test]
fn sub_table_is_collected_from_markup() {
    let markup = "<table id=\"forecast-point-3h-today\">\
        <tr class=\"head\"><td><div>今日 <span>10月28日</span></div></td></tr>\
        <tr class=\"hour\"><td><span class=\"Past\">03</span></td><td><span>06</span></td></tr>\
        <tr class=\"weather\"><td><img alt=\"晴れ\"><p>晴れ</p></td><td> <p>曇<b>り</b></p> </td></tr>\
        <tr class=\"temperature\"><td><span>8</span></td><td><span>12</span></td></tr>\
        <tr class=\"prob-precip\"><td><span>---</span></td><td><span>30</span></td></tr>\
        <tr class=\"precipitation\"><td><span>0</span></td><td><span>1</span></td></tr>\
        <tr class=\"humidity\"><td>70</td><td>66</td></tr>\
        <tr class=\"wind-blow\"><td><p>北</p></td><td><p>南西</p></td></tr>\
        <tr class=\"wind-speed\"><td><span>2</span></td><td><span>5</span></td></tr>\
        </table>";
    let read = SubTable::from_markup(markup).unwrap();
    assert_eq!(read.heads, vec![String::from("今日 <span>10月28日</span>")]);
    assert_eq!(
        read.hours,
        vec![
            Cell { texts: vec![String::from("03")], marked: true },
            Cell { texts: vec![String::from("06")], marked: false },
        ]
    );
    assert_eq!(
        read.kinds,
        vec![
            Cell { texts: vec![String::from("晴れ")], marked: false },
            Cell {
                texts: vec![String::from(" "), String::from("曇"), String::from("り"), String::from(" ")],
                marked: false
            },
        ]
    );
    assert_eq!(read.temperatures, row(&["8", "12"]));
    assert_eq!(read.prob_precips, row(&["---", "30"]));
    assert_eq!(read.precipitations, row(&["0", "1"]));
    assert_eq!(read.humidities, row(&["70", "66"]));
    assert_eq!(read.wind_directions, row(&["北", "南西"]));
    assert_eq!(read.wind_speeds, row(&["2", "5"]));
    let day = read.extract("千葉市", "10:00", today()).unwrap();
    assert_eq!(day.location, "千葉市 (10:00)");
    assert_eq!(day.weathers.len(), 2);
    assert!(matches!(day.weathers[0], (TimeOfDay { hour: 3 }, Announce::Past(_))));
    assert!(matches!(day.weathers[1], (TimeOfDay { hour: 6 }, Announce::Regular(_))));
}

#[test]
fn markup_without_rows_gives_an_empty_sub_table() {
    let read = SubTable::from_markup("<p>nothing here</p>").unwrap();
    assert!(read.heads.is_empty());
    assert!(read.hours.is_empty());
    assert!(read.wind_speeds.is_empty());
    assert!(!read.aligned());
}
