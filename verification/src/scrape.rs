//! The forecast fetcher: from the text of a forecast page to the forecasts
//! of three days.

use vstd::prelude::*;
use vstd::string::*;
use crate::date::Date;
use crate::markup::{
    document_elements,
    document_texts,
    select_document_elements,
    select_document_texts,
};
use crate::table::{
    day_forecast,
    lemma_forecast_is_well_formed,
    sub_table,
    SubTable,
    SubTableView,
};
use crate::weather::{DailyForecast, DailyForecastView};

verus! {

/// How far apart the hour slots of a forecast lie.
#[derive(Debug, Clone, Copy, PartialEq, Eq)]
pub enum Granularity {
    /// A slot for every hour.
    Hourly,
    /// A slot for every third hour.
    Every3Hours,
}

/// Why no forecast could be had.
#[derive(Debug, Clone, PartialEq, Eq)]
pub enum Error {
    /// The page could not be fetched as UTF-8 text.
    NetworkError { msg: String },
    /// The page was fetched, and is not laid out as expected.
    InvalidHtml { msg: String },
}

/// An `Error` as a mathematical value.
pub enum ErrorView {
    NetworkError { msg: Seq<char> },
    InvalidHtml { msg: Seq<char> },
}

impl View for Error {
    type V = ErrorView;

    open spec fn view(&self) -> ErrorView {
        match self {
            Error::NetworkError { msg } => ErrorView::NetworkError { msg: msg@ },
            Error::InvalidHtml { msg } => ErrorView::InvalidHtml { msg: msg@ },
        }
    }
}

impl ErrorView {
    /// The error in words: its kind, then its message.
    pub open spec fn description(self) -> Seq<char> {
        match self {
            ErrorView::NetworkError { msg } => "Network Error: "@ + msg,
            ErrorView::InvalidHtml { msg } => "Invalid HTML: "@ + msg,
        }
    }
}

impl Error {
    /// The error in words: its kind, then its message.
    pub fn describe(&self) -> (r: String)
        ensures
            r@ == self@.description(),
    {
        match self {
            Error::NetworkError { msg } => {
                let mut r = String::from_str("Network Error: ");
                r.append(msg.as_str());
                r
            },
            Error::InvalidHtml { msg } => {
                let mut r = String::from_str("Invalid HTML: ");
                r.append(msg.as_str());
                r
            },
        }
    }
}

impl Granularity {
    /// The number of hours between two slots, as the page writes it.
    pub open spec fn hours(self) -> Seq<char> {
        match self {
            Granularity::Hourly => "1"@,
            Granularity::Every3Hours => "3"@,
        }
    }

    /// The name of the forecast page, without its ending.
    pub open spec fn page_name(self) -> Seq<char> {
        match self {
            Granularity::Hourly => "1hour"@,
            Granularity::Every3Hours => "3hours"@,
        }
    }
}

/// The address of the forecast page.
pub open spec fn page_url(granularity: Granularity) -> Seq<char> {
    "https://tenki.jp/forecast/3/11/4020/8220/"@ + granularity.page_name() + ".html"@
}

/// The selector of the heading that holds the place and the time of
/// announcement.
pub open spec fn heading_selector() -> Seq<char> {
    "h2"@
}

/// The selector of the three sub-tables: today, tomorrow and the day after.
pub open spec fn tables_selector(granularity: Granularity) -> Seq<char> {
    "#forecast-point-"@ + granularity.hours() + "h-today, #forecast-point-"@ + granularity.hours()
        + "h-tomorrow, #forecast-point-"@ + granularity.hours() + "h-dayaftertomorrow"@
}

/// The message for a selector that the parser refuses.
pub open spec fn selector_refused() -> Seq<char> {
    "selector not accepted"@
}

/// The message for a page on which not exactly three sub-tables are found.
pub open spec fn tables_miscounted() -> Seq<char> {
    "expected the forecast tables of 3 days"@
}

/// The place and the time of announcement: the first two text nodes of the
/// first heading found.
pub open spec fn heading(found: Seq<Seq<Seq<char>>>) -> Result<(Seq<char>, Seq<char>), Seq<char>> {
    if found.len() == 0 {
        Err("location, announced_time not found"@)
    } else if found[0].len() == 0 {
        Err("location not found"@)
    } else if found[0].len() == 1 {
        Err("announced_time not found"@)
    } else {
        Ok((found[0][0], found[0][1]))
    }
}

/// The forecasts of the three days that `tables` hold, in their order; the
/// message of the first table that cannot be read, or of their number if it
/// is not three.
pub open spec fn tables_forecast(
    tables: Seq<SubTableView>,
    location: Seq<char>,
    announced_time: Seq<char>,
    today: Date,
) -> Result<Seq<DailyForecastView>, Seq<char>> {
    if tables.len() != 3 {
        Err(tables_miscounted())
    } else {
        match day_forecast(tables[0], location, announced_time, today) {
            Err(message) => Err(message),
            Ok(first) => match day_forecast(tables[1], location, announced_time, today) {
                Err(message) => Err(message),
                Ok(second) => match day_forecast(tables[2], location, announced_time, today) {
                    Err(message) => Err(message),
                    Ok(third) => Ok(seq![first, second, third]),
                },
            },
        }
    }
}

/// The forecasts that the page `page` holds for three days, read on the day
/// `today`, or the message that says what is wrong with the page.
pub open spec fn page_forecast(granularity: Granularity, page: Seq<char>, today: Date) -> Result<
    Seq<DailyForecastView>,
    Seq<char>,
> {
    match document_texts(page, heading_selector()) {
        None => Err(selector_refused()),
        Some(found) => match heading(found) {
            Err(message) => Err(message),
            Ok((location, announced_time)) => match document_elements(
                page,
                tables_selector(granularity),
            ) {
                None => Err(selector_refused()),
                Some(markups) => if markups.len() != 3 {
                    Err(tables_miscounted())
                } else if sub_table(markups[0]) is None || sub_table(markups[1]) is None
                    || sub_table(markups[2]) is None {
                    Err(selector_refused())
                } else {
                    tables_forecast(
                        seq![
                            sub_table(markups[0])->0,
                            sub_table(markups[1])->0,
                            sub_table(markups[2])->0,
                        ],
                        location,
                        announced_time,
                        today,
                    )
                },
            },
        },
    }
}

/// What a fetch gives: a transport failure is a `NetworkError` with the
/// cause as its message, and the text of a page gives what `page_forecast`
/// says of it, any failure there an `InvalidHtml`.
pub open spec fn response_forecast(
    granularity: Granularity,
    response: Result<Seq<char>, Seq<char>>,
    today: Date,
) -> Result<Seq<DailyForecastView>, ErrorView> {
    match response {
        Err(cause) => Err(ErrorView::NetworkError { msg: cause }),
        Ok(page) => match page_forecast(granularity, page, today) {
            Ok(days) => Ok(days),
            Err(message) => Err(ErrorView::InvalidHtml { msg: message }),
        },
    }
}

/// The forecasts of `days` as mathematical values.
pub open spec fn views(days: Seq<DailyForecast>) -> Seq<DailyForecastView> {
    days.map_values(|day: DailyForecast| day@)
}

/// What a fetch handed back, as a mathematical value.
pub open spec fn fetched(r: Result<Box<[DailyForecast; 3]>, Error>) -> Result<
    Seq<DailyForecastView>,
    ErrorView,
> {
    match r {
        Ok(days) => Ok(views(days@)),
        Err(error) => Err(error@),
    }
}

/// What the transport handed back, as a mathematical value.
pub open spec fn response_view(response: Result<String, String>) -> Result<Seq<char>, Seq<char>> {
    match response {
        Ok(page) => Ok(page@),
        Err(cause) => Err(cause@),
    }
}

/// The address to fetch the forecast page from.
pub fn request_url(granularity: Granularity) -> (r: String)
    ensures
        r@ == page_url(granularity),
{
    let mut r = String::from_str("https://tenki.jp/forecast/3/11/4020/8220/");
    match granularity {
        Granularity::Hourly => r.append("1hour"),
        Granularity::Every3Hours => r.append("3hours"),
    }
    r.append(".html");
    r
}

/// The selector that finds the three sub-tables of a page.
pub fn tables_selector_text(granularity: Granularity) -> (r: String)
    ensures
        r@ == tables_selector(granularity),
{
    let hours = match granularity {
        Granularity::Hourly => "1",
        Granularity::Every3Hours => "3",
    };
    let mut r = String::from_str("#forecast-point-");
    r.append(hours);
    r.append("h-today, #forecast-point-");
    r.append(hours);
    r.append("h-tomorrow, #forecast-point-");
    r.append(hours);
    r.append("h-dayaftertomorrow");
    r
}

/// Picks the place and the time of announcement out of the text nodes of the
/// headings found.
pub fn read_heading(found: &Vec<Vec<String>>) -> (r: Result<(String, String), String>)
    ensures
        match r {
            Ok((location, announced_time)) => heading(found.deep_view()) == Ok::<
                (Seq<char>, Seq<char>),
                Seq<char>,
            >((location@, announced_time@)),
            Err(message) => heading(found.deep_view()) == Err::<(Seq<char>, Seq<char>), Seq<char>>(
                message@,
            ),
        },
{
    if found.len() == 0 {
        return Err(String::from_str("location, announced_time not found"));
    }
    let texts = &found[0];
    if texts.len() == 0 {
        return Err(String::from_str("location not found"));
    }
    if texts.len() == 1 {
        return Err(String::from_str("announced_time not found"));
    }
    Ok((texts[0].clone(), texts[1].clone()))
}

/// Reads the sub-tables of three days into their forecasts.
pub fn forecast_from_tables(
    tables: &Vec<SubTable>,
    location: &str,
    announced_time: &str,
    today: Date,
) -> (r: Result<Box<[DailyForecast; 3]>, String>)
    ensures
        match r {
            Ok(days) => tables_forecast(tables.deep_view(), location@, announced_time@, today)
                == Ok::<Seq<DailyForecastView>, Seq<char>>(views(days@)),
            Err(message) => tables_forecast(tables.deep_view(), location@, announced_time@, today)
                == Err::<Seq<DailyForecastView>, Seq<char>>(message@),
        },
{
    if tables.len() != 3 {
        return Err(String::from_str("expected the forecast tables of 3 days"));
    }
    let first = match tables[0].extract(location, announced_time, today) {
        Ok(day) => day,
        Err(message) => {
            return Err(message);
        },
    };
    let second = match tables[1].extract(location, announced_time, today) {
        Ok(day) => day,
        Err(message) => {
            return Err(message);
        },
    };
    let third = match tables[2].extract(location, announced_time, today) {
        Ok(day) => day,
        Err(message) => {
            return Err(message);
        },
    };
    let days = Box::new([first, second, third]);
    assert(views(days@) == seq![first@, second@, third@]);
    Ok(days)
}

/// Reads the text of a forecast page into the forecasts of three days.
fn read_page(granularity: Granularity, page: &str, today: Date) -> (r: Result<
    Box<[DailyForecast; 3]>,
    String,
>)
    ensures
        match r {
            Ok(days) => page_forecast(granularity, page@, today) == Ok::<
                Seq<DailyForecastView>,
                Seq<char>,
            >(views(days@)),
            Err(message) => page_forecast(granularity, page@, today) == Err::<
                Seq<DailyForecastView>,
                Seq<char>,
            >(message@),
        },
{
    let found = match select_document_texts(page, "h2") {
        Some(found) => found,
        None => {
            return Err(String::from_str("selector not accepted"));
        },
    };
    let (location, announced_time) = match read_heading(&found) {
        Ok(pair) => pair,
        Err(message) => {
            return Err(message);
        },
    };
    let selector = tables_selector_text(granularity);
    let markups = match select_document_elements(page, selector.as_str()) {
        Some(markups) => markups,
        None => {
            return Err(String::from_str("selector not accepted"));
        },
    };
    if markups.len() != 3 {
        return Err(String::from_str("expected the forecast tables of 3 days"));
    }
    let first = match SubTable::from_markup(markups[0].as_str()) {
        Some(table) => table,
        None => {
            return Err(String::from_str("selector not accepted"));
        },
    };
    let second = match SubTable::from_markup(markups[1].as_str()) {
        Some(table) => table,
        None => {
            return Err(String::from_str("selector not accepted"));
        },
    };
    let third = match SubTable::from_markup(markups[2].as_str()) {
        Some(table) => table,
        None => {
            return Err(String::from_str("selector not accepted"));
        },
    };
    let mut tables: Vec<SubTable> = Vec::new();
    tables.push(first);
    tables.push(second);
    tables.push(third);
    assert(tables.deep_view() == seq![
        sub_table(markups.deep_view()[0])->0,
        sub_table(markups.deep_view()[1])->0,
        sub_table(markups.deep_view()[2])->0,
    ]);
    forecast_from_tables(&tables, location.as_str(), announced_time.as_str(), today)
}

/// Reads the text of a forecast page into the forecasts of three days:
/// today, tomorrow and the day after.
///
/// `today` is the day on which the page is read. Whatever is wrong with the
/// page is an `InvalidHtml`; there is no partial result.
pub fn forecast_from_page(granularity: Granularity, page: &str, today: Date) -> (r: Result<
    Box<[DailyForecast; 3]>,
    Error,
>)
    ensures
        fetched(r) == response_forecast(granularity, Ok(page@), today),
{
    match read_page(granularity, page, today) {
        Ok(days) => Ok(days),
        Err(msg) => Err(Error::InvalidHtml { msg }),
    }
}

/// Turns what the transport handed back for the forecast page into the
/// forecasts of three days.
///
/// `response` is the text of the page, or the cause for which it could not
/// be had.
pub fn forecast_from_response(
    granularity: Granularity,
    response: Result<String, String>,
    today: Date,
) -> (r: Result<Box<[DailyForecast; 3]>, Error>)
    ensures
        fetched(r) == response_forecast(granularity, response_view(response), today),
{
    match response {
        Ok(page) => forecast_from_page(granularity, page.as_str(), today),
        Err(msg) => Err(Error::NetworkError { msg }),
    }
}

/// Reading one page twice on one day gives the same outcome twice: nothing
/// but the page, the granularity and the day goes into it.
pub proof fn lemma_same_page_same_forecast(
    granularity: Granularity,
    page: Seq<char>,
    today: Date,
    first: Result<Box<[DailyForecast; 3]>, Error>,
    second: Result<Box<[DailyForecast; 3]>, Error>,
)
    requires
        fetched(first) == response_forecast(granularity, Ok(page), today),
        fetched(second) == response_forecast(granularity, Ok(page), today),
    ensures
        fetched(first) == fetched(second),
{
}

/// A fetch that succeeds gives the forecasts of exactly three days, each of
/// them well-formed: a day of the calendar, at least one hour slot, every
/// hour below 24.
pub proof fn lemma_success_is_three_full_days(
    granularity: Granularity,
    response: Result<Seq<char>, Seq<char>>,
    today: Date,
)
    requires
        response_forecast(granularity, response, today) is Ok,
    ensures
        response_forecast(granularity, response, today)->Ok_0.len() == 3,
        forall|i: int|
            0 <= i < 3 ==> (#[trigger] response_forecast(granularity, response, today)->Ok_0[i]).wf(),
{
    let page = response->Ok_0;
    let found = document_texts(page, heading_selector())->0;
    let (location, announced_time) = heading(found)->Ok_0;
    let markups = document_elements(page, tables_selector(granularity))->0;
    lemma_forecast_is_well_formed(sub_table(markups[0])->0, location, announced_time, today);
    lemma_forecast_is_well_formed(sub_table(markups[1])->0, location, announced_time, today);
    lemma_forecast_is_well_formed(sub_table(markups[2])->0, location, announced_time, today);
}

/// Whatever is wrong with a page that was fetched is an `InvalidHtml`, and
/// whatever kept the page from being fetched is a `NetworkError`.
pub proof fn lemma_failure_kinds(
    granularity: Granularity,
    response: Result<Seq<char>, Seq<char>>,
    today: Date,
)
    requires
        response_forecast(granularity, response, today) is Err,
    ensures
        response is Ok ==> response_forecast(granularity, response, today)->Err_0 is InvalidHtml,
        response is Err ==> response_forecast(granularity, response, today)
            == Err::<Seq<DailyForecastView>, ErrorView>(
            ErrorView::NetworkError { msg: response->Err_0 },
        ),
{
}

/// One sub-table in which a row is missing, or rows differ in length, is
/// enough for the three days to give no forecast at all.
pub proof fn lemma_misaligned_table_fails_all(
    tables: Seq<SubTableView>,
    location: Seq<char>,
    announced_time: Seq<char>,
    today: Date,
    i: int,
)
    requires
        0 <= i < tables.len(),
        !tables[i].aligned(),
    ensures
        tables_forecast(tables, location, announced_time, today) is Err,
{
}

/// A page on which one of the sub-tables found has a row missing, or rows
/// that differ in length, is an `InvalidHtml`.
pub proof fn lemma_misaligned_page_is_invalid(
    granularity: Granularity,
    page: Seq<char>,
    today: Date,
    i: int,
)
    requires
        document_elements(page, tables_selector(granularity)) is Some,
        0 <= i < document_elements(page, tables_selector(granularity))->0.len(),
        sub_table(document_elements(page, tables_selector(granularity))->0[i]) is Some,
        !sub_table(document_elements(page, tables_selector(granularity))->0[i])->0.aligned(),
    ensures
        response_forecast(granularity, Ok(page), today) is Err,
        response_forecast(granularity, Ok(page), today)->Err_0 is InvalidHtml,
{
}

} // verus!
