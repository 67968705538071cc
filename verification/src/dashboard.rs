//! The dashboard of the service: the device that it shows, its widgets, and the readings in
//! their charts.
use serde_json::Value;
use vstd::prelude::*;
use vstd::string::StringExecFns;

use crate::error::{AppError, AppResult, Fault};
use crate::json::{
    array_value, copy_members, elements, field, first_of, items, json_of, jsons_of, list_field,
    list_under, member, member_of, members, members_of, no_members, null_value, number_field,
    number_under, object_value, put, string_of, string_value, text_field, text_under, Json,
};
use crate::model::{Data, QcData};
use crate::text::{chars_of, drop_ends, same, trim_char};

verus! {

broadcast use vstd::string::group_string_axioms;

/// A text that is not of ASCII alone in lower case, by `str::to_lowercase`.
pub uninterp spec fn lower_case(text: Seq<char>) -> Seq<char>;

/// Whether every character is one of ASCII.
pub open spec fn ascii(text: Seq<char>) -> bool {
    forall|i: int| 0 <= i < text.len() ==> #[trigger] text[i] <= '\u{7f}'
}

/// An ASCII text in lower case: letter by letter.
pub open spec fn ascii_lower_case(text: Seq<char>) -> Seq<char> {
    text.map_values(
        |c: char|
            if 'A' <= c <= 'Z' {
                (c as u32 + 32) as char
            } else {
                c
            },
    )
}

/// A text in lower case.
pub open spec fn lowered(text: Seq<char>) -> Seq<char> {
    if ascii(text) {
        ascii_lower_case(text)
    } else {
        lower_case(text)
    }
}

/// `str::to_lowercase`. Text of ASCII is lowered letter by letter.
#[verifier::external_body]
fn to_lowercase(text: &str) -> (result: String)
    ensures
        ascii(text@) ==> result@ == ascii_lower_case(text@),
        !ascii(text@) ==> result@ == lower_case(text@),
{
    text.to_lowercase()
}

/// The characters that part the words of a name.
pub open spec fn separator(c: char) -> bool {
    c == ' ' || c == '(' || c == ')' || c == '.' || c == '-' || c == '_'
}

/// A text with one underscore in place of each run of separators.
pub open spec fn squeezed(text: Seq<char>) -> Seq<char>
    decreases text.len(),
{
    if text.len() == 0 {
        text
    } else {
        let head = squeezed(text.drop_last());
        if !separator(text.last()) {
            head.push(text.last())
        } else if head.len() > 0 && head.last() == '_' {
            head
        } else {
            head.push('_')
        }
    }
}

/// The key that stands for a name in lower case: its words with one underscore between
/// them.
pub open spec fn key_of(text: Seq<char>) -> Seq<char> {
    drop_ends(squeezed(text), set!['_'])
}

/// The key that stands for a name in lower case.
pub fn join_words(text: &str) -> (key: String)
    ensures
        key@ == key_of(text@),
{
    let chars = chars_of(text);
    let mut output = String::new();
    let mut prev_was_underscore = false;
    let mut next: usize = 0;
    assert(chars@.take(0) =~= Seq::<char>::empty());
    while next < chars.len()
        invariant
            next <= chars.len(),
            output@ == squeezed(chars@.take(next as int)),
            prev_was_underscore == (output@.len() > 0 && output@.last() == '_'),
        decreases chars.len() - next,
    {
        let c = chars[next];
        assert(chars@.take(next + 1).drop_last() =~= chars@.take(next as int));
        if c == ' ' || c == '(' || c == ')' || c == '.' || c == '-' || c == '_' {
            if !prev_was_underscore {
                output.push('_');
            }
            prev_was_underscore = true;
        } else {
            output.push(c);
            prev_was_underscore = false;
        }
        next = next + 1;
    }
    assert(chars@.take(next as int) =~= text@);
    trim_char(output.as_str(), '_')
}

/// The key that stands for a name: its words in lower case with one underscore between
/// them.
pub fn normalize_key(name: &str) -> (key: String)
    ensures
        key@ == key_of(lowered(name@)),
{
    join_words(to_lowercase(name).as_str())
}

/// The error in an answer of the service that these words describe.
pub open spec fn answer_fault(words: Seq<char>) -> Fault {
    Fault::QcoreApi(words)
}

/// The error in an answer of the service that these words describe.
pub(crate) fn answer_error(words: &str) -> (error: AppError)
    ensures
        error@ == answer_fault(words@),
{
    AppError::QcoreApi(words.to_string())
}

/// The first widget of a dashboard.
pub open spec fn first_widget(dashboard: Json) -> Option<Json> {
    match first_of(list_under(dashboard, "rows"@)) {
        Some(row) => member_of(first_of(list_under(row, "cells"@)), "widget"@),
        None => None,
    }
}

/// The device that the first widget of a dashboard shows.
pub open spec fn device_in(dashboard: Json) -> Result<Seq<char>, Fault> {
    match first_widget(dashboard) {
        Some(widget) => match member_of(member(widget, "datafetch"@), "parameters"@) {
            Some(parameters) => match text_under(parameters, "deviceId"@) {
                Some(id) => Ok(id),
                None => Err(answer_fault("widget missing deviceId"@)),
            },
            None => Err(answer_fault("widget missing deviceId"@)),
        },
        None => Err(answer_fault("dashboard missing widgets"@)),
    }
}

/// The first value of a list.
fn first_item(list: &Vec<Value>) -> (found: Option<&Value>)
    ensures
        match found {
            Some(value) => first_of(Some(jsons_of(list@))) == Some(json_of(*value)),
            None => first_of(Some(jsons_of(list@))) is None,
        },
{
    if list.len() > 0 {
        Some(&list[0])
    } else {
        None
    }
}

fn find_first_widget(dashboard: &Value) -> (found: Option<&Value>)
    ensures
        match found {
            Some(widget) => first_widget(json_of(*dashboard)) == Some(json_of(*widget)),
            None => first_widget(json_of(*dashboard)) is None,
        },
{
    let row = match list_field(dashboard, "rows") {
        Some(rows) => first_item(rows),
        None => None,
    };
    let cell = match row {
        Some(row) => match list_field(row, "cells") {
            Some(cells) => first_item(cells),
            None => None,
        },
        None => None,
    };
    match cell {
        Some(cell) => field(cell, "widget"),
        None => None,
    }
}

/// The device that the first widget of a dashboard shows.
pub fn extract_device_id(dashboard: &Value) -> (result: AppResult<String>)
    ensures
        match result {
            Ok(id) => device_in(json_of(*dashboard)) == Ok::<Seq<char>, Fault>(id@),
            Err(error) => device_in(json_of(*dashboard)) == Err::<Seq<char>, Fault>(error@),
        },
{
    let widget = match find_first_widget(dashboard) {
        Some(widget) => widget,
        None => {
            return Err(answer_error("dashboard missing widgets"));
        },
    };
    let parameters = match field(widget, "datafetch") {
        Some(datafetch) => field(datafetch, "parameters"),
        None => None,
    };
    let id = match parameters {
        Some(parameters) => text_field(parameters, "deviceId"),
        None => None,
    };
    match id {
        Some(id) => Ok(id.to_string()),
        None => Err(answer_error("widget missing deviceId")),
    }
}

/// What a widget of the dashboard shows.
#[derive(Debug)]
pub struct DashboardWidget {
    pub datafetch: Value,
    pub echart_opts: Value,
    pub title: String,
}

/// What a widget of the dashboard shows, by the documents that it holds.
pub struct Widget {
    pub datafetch: Json,
    pub echart_opts: Json,
    pub title: Seq<char>,
}

impl View for DashboardWidget {
    type V = Widget;

    open spec fn view(&self) -> Widget {
        Widget {
            datafetch: json_of(self.datafetch),
            echart_opts: json_of(self.echart_opts),
            title: self.title@,
        }
    }
}

/// The widgets of a sequence.
pub open spec fn widgets_of(widgets: Seq<DashboardWidget>) -> Seq<Widget> {
    Seq::new(widgets.len(), |i: int| widgets[i]@)
}

/// The widget in a cell.
pub open spec fn cell_widget(cell: Json) -> Result<Widget, Fault> {
    match member(cell, "widget"@) {
        Some(widget) => match member(widget, "datafetch"@) {
            Some(datafetch) => Ok(
                Widget {
                    datafetch,
                    echart_opts: match member(widget, "echartOpts"@) {
                        Some(opts) => opts,
                        None => Json::Null,
                    },
                    title: match text_under(widget, "title"@) {
                        Some(title) => title,
                        None => Seq::empty(),
                    },
                },
            ),
            None => Err(answer_fault("widget missing datafetch"@)),
        },
        None => Err(answer_fault("dashboard cell missing widget"@)),
    }
}

/// The widgets in a sequence of cells, or what is wrong with the first bad one.
pub open spec fn cell_widgets(cells: Seq<Json>) -> Result<Seq<Widget>, Fault>
    decreases cells.len(),
{
    if cells.len() == 0 {
        Ok(Seq::empty())
    } else {
        match cell_widgets(cells.drop_last()) {
            Ok(before) => match cell_widget(cells.last()) {
                Ok(widget) => Ok(before.push(widget)),
                Err(fault) => Err(fault),
            },
            Err(fault) => Err(fault),
        }
    }
}

/// The widgets in a sequence of rows, or what is wrong with the first bad one.
pub open spec fn row_widgets(rows: Seq<Json>) -> Result<Seq<Widget>, Fault>
    decreases rows.len(),
{
    if rows.len() == 0 {
        Ok(Seq::empty())
    } else {
        match row_widgets(rows.drop_last()) {
            Ok(before) => match list_under(rows.last(), "cells"@) {
                Some(cells) => match cell_widgets(cells) {
                    Ok(widgets) => Ok(before + widgets),
                    Err(fault) => Err(fault),
                },
                None => Err(answer_fault("dashboard row missing cells"@)),
            },
            Err(fault) => Err(fault),
        }
    }
}

/// The widgets of a dashboard, row by row.
pub open spec fn widgets_in(dashboard: Json) -> Result<Seq<Widget>, Fault> {
    match list_under(dashboard, "rows"@) {
        Some(rows) => row_widgets(rows),
        None => Err(answer_fault("dashboard missing rows"@)),
    }
}

/// What is wrong with the first cells is what is wrong with all of them.
proof fn lemma_cells_fail(cells: Seq<Json>, n: int)
    requires
        0 <= n <= cells.len(),
        cell_widgets(cells.take(n)) is Err,
    ensures
        cell_widgets(cells) == cell_widgets(cells.take(n)),
    decreases cells.len() - n,
{
    if n < cells.len() {
        assert(cells.take(n + 1).drop_last() =~= cells.take(n));
        lemma_cells_fail(cells, n + 1);
    } else {
        assert(cells.take(n) =~= cells);
    }
}

/// What is wrong with the first rows is what is wrong with all of them.
proof fn lemma_rows_fail(rows: Seq<Json>, n: int)
    requires
        0 <= n <= rows.len(),
        row_widgets(rows.take(n)) is Err,
    ensures
        row_widgets(rows) == row_widgets(rows.take(n)),
    decreases rows.len() - n,
{
    if n < rows.len() {
        assert(rows.take(n + 1).drop_last() =~= rows.take(n));
        lemma_rows_fail(rows, n + 1);
    } else {
        assert(rows.take(n) =~= rows);
    }
}

/// The widget in a cell.
fn read_cell(cell: &Value) -> (result: AppResult<DashboardWidget>)
    ensures
        match result {
            Ok(widget) => cell_widget(json_of(*cell)) == Ok::<Widget, Fault>(widget@),
            Err(error) => cell_widget(json_of(*cell)) == Err::<Widget, Fault>(error@),
        },
{
    let widget = match field(cell, "widget") {
        Some(widget) => widget,
        None => {
            return Err(answer_error("dashboard cell missing widget"));
        },
    };
    let datafetch = match field(widget, "datafetch") {
        Some(datafetch) => datafetch,
        None => {
            return Err(answer_error("widget missing datafetch"));
        },
    };
    let echart_opts = match field(widget, "echartOpts") {
        Some(opts) => opts.clone(),
        None => null_value(),
    };
    let title = match text_field(widget, "title") {
        Some(title) => title.to_string(),
        None => String::new(),
    };
    Ok(DashboardWidget { datafetch: datafetch.clone(), echart_opts, title })
}

/// Puts the widgets of a row behind those before it.
fn read_row(row: &Value, widgets: &mut Vec<DashboardWidget>) -> (result: AppResult<()>)
    ensures
        match (list_under(json_of(*row), "cells"@), result) {
            (Some(cells), Ok(_)) => cell_widgets(cells) is Ok && widgets_of(final(widgets)@)
                == widgets_of(old(widgets)@) + cell_widgets(cells)->Ok_0,
            (Some(cells), Err(error)) => cell_widgets(cells) == Err::<Seq<Widget>, Fault>(error@),
            (None, Ok(_)) => false,
            (None, Err(error)) => error@ == answer_fault("dashboard row missing cells"@),
        },
{
    let cells = match list_field(row, "cells") {
        Some(cells) => cells,
        None => {
            return Err(answer_error("dashboard row missing cells"));
        },
    };
    let ghost documents = jsons_of(cells@);
    let mut next: usize = 0;
    assert(documents.take(0) =~= Seq::<Json>::empty());
    assert(widgets_of(widgets@) =~= widgets_of(old(widgets)@) + Seq::<Widget>::empty());
    while next < cells.len()
        invariant
            next <= cells.len(),
            documents == jsons_of(cells@),
            list_under(json_of(*row), "cells"@) == Some(documents),
            cell_widgets(documents.take(next as int)) is Ok,
            widgets_of(widgets@) == widgets_of(old(widgets)@) + cell_widgets(
                documents.take(next as int),
            )->Ok_0,
        decreases cells.len() - next,
    {
        assert(documents.take(next + 1).drop_last() =~= documents.take(next as int));
        let ghost before = widgets@;
        match read_cell(&cells[next]) {
            Ok(widget) => {
                widgets.push(widget);
                assert(widgets_of(widgets@) =~= widgets_of(before).push(widget@));
                assert(widgets_of(widgets@) =~= widgets_of(old(widgets)@) + cell_widgets(
                    documents.take(next + 1),
                )->Ok_0);
            },
            Err(error) => {
                proof {
                    lemma_cells_fail(documents, next + 1);
                }
                return Err(error);
            },
        }
        next = next + 1;
    }
    assert(documents.take(next as int) =~= documents);
    Ok(())
}

/// The widgets of a dashboard, row by row.
pub fn collect_widgets(dashboard: &Value) -> (result: AppResult<Vec<DashboardWidget>>)
    ensures
        match result {
            Ok(widgets) => widgets_in(json_of(*dashboard)) == Ok::<Seq<Widget>, Fault>(
                widgets_of(widgets@),
            ),
            Err(error) => widgets_in(json_of(*dashboard)) == Err::<Seq<Widget>, Fault>(error@),
        },
{
    let rows = match list_field(dashboard, "rows") {
        Some(rows) => rows,
        None => {
            return Err(answer_error("dashboard missing rows"));
        },
    };
    let ghost documents = jsons_of(rows@);
    let mut widgets: Vec<DashboardWidget> = Vec::new();
    let mut next: usize = 0;
    assert(documents.take(0) =~= Seq::<Json>::empty());
    assert(widgets_of(widgets@) =~= Seq::<Widget>::empty());
    while next < rows.len()
        invariant
            next <= rows.len(),
            documents == jsons_of(rows@),
            widgets_in(json_of(*dashboard)) == row_widgets(documents),
            row_widgets(documents.take(next as int)) == Ok::<Seq<Widget>, Fault>(
                widgets_of(widgets@),
            ),
        decreases rows.len() - next,
    {
        assert(documents.take(next + 1).drop_last() =~= documents.take(next as int));
        if let Err(error) = read_row(&rows[next], &mut widgets) {
            proof {
                lemma_rows_fail(documents, next + 1);
            }
            return Err(error);
        }
        next = next + 1;
    }
    assert(documents.take(next as int) =~= documents);
    Ok(widgets)
}

/// What a chart is asked with: the parameters of the widget beside its kind of data, and
/// how the chart is drawn.
pub open spec fn chart_request(widget: Widget) -> Result<Json, Fault> {
    match member(widget.datafetch, "parameters"@) {
        Some(Json::Object(parameters)) => {
            let datafetch = match member(widget.datafetch, "fetchType"@) {
                Some(fetch_type) => parameters.insert("fetchType"@, fetch_type),
                None => parameters,
            };
            Ok(
                Json::Object(
                    map!["datafetch"@ => Json::Object(datafetch), "echartOpts"@ => widget.echart_opts],
                ),
            )
        },
        _ => Err(answer_fault("widget datafetch missing parameters"@)),
    }
}

/// What a chart is asked with.
pub fn build_chart_request(widget: &DashboardWidget) -> (result: AppResult<Value>)
    ensures
        match result {
            Ok(body) => chart_request(widget@) == Ok::<Json, Fault>(json_of(body)),
            Err(error) => chart_request(widget@) == Err::<Json, Fault>(error@),
        },
{
    let parameters = match field(&widget.datafetch, "parameters") {
        Some(parameters) => members(parameters),
        None => None,
    };
    let parameters = match parameters {
        Some(parameters) => parameters,
        None => {
            return Err(answer_error("widget datafetch missing parameters"));
        },
    };
    let mut datafetch = copy_members(parameters);
    if let Some(fetch_type) = field(&widget.datafetch, "fetchType") {
        put(&mut datafetch, "fetchType".to_string(), fetch_type.clone());
    }
    let mut body = no_members();
    put(&mut body, "datafetch".to_string(), object_value(datafetch));
    put(&mut body, "echartOpts".to_string(), widget.echart_opts.clone());
    Ok(object_value(body))
}

/// The key under which the power that a link shows is kept.
pub open spec fn link_key(id: Seq<char>) -> Seq<char> {
    key_of(lowered(id)) + "_wh"@
}

/// The status readings with what a link shows.
pub open spec fn with_link(status: Map<Seq<char>, u64>, link: Json) -> Map<Seq<char>, u64> {
    match (text_under(link, "id"@), number_under(link, "value"@)) {
        (Some(id), Some(value)) => status.insert(link_key(id), value),
        _ => status,
    }
}

/// The status readings with what links show, a later link in place of an earlier one.
pub open spec fn with_links(status: Map<Seq<char>, u64>, links: Seq<Json>) -> Map<Seq<char>, u64>
    decreases links.len(),
{
    if links.len() == 0 {
        status
    } else {
        with_link(with_links(status, links.drop_last()), links.last())
    }
}

/// The energy readings with what an entry of a chart shows. An entry without a name goes by
/// the title of the widget.
pub open spec fn with_entry(
    energy: Map<Seq<char>, u64>,
    entry: Json,
    title: Seq<char>,
) -> Map<Seq<char>, u64> {
    let name = match text_under(entry, "name"@) {
        Some(name) => name,
        None => title,
    };
    match number_under(entry, "value"@) {
        Some(value) => energy.insert(key_of(lowered(name)), value),
        None => energy,
    }
}

/// The energy readings with what entries show, a later entry in place of an earlier one.
pub open spec fn with_entries(
    energy: Map<Seq<char>, u64>,
    entries: Seq<Json>,
    title: Seq<char>,
) -> Map<Seq<char>, u64>
    decreases entries.len(),
{
    if entries.len() == 0 {
        energy
    } else {
        with_entry(with_entries(energy, entries.drop_last(), title), entries.last(), title)
    }
}

/// The energy readings with what the elements of a series show.
pub open spec fn with_series(
    energy: Map<Seq<char>, u64>,
    series: Seq<Json>,
    title: Seq<char>,
) -> Map<Seq<char>, u64>
    decreases series.len(),
{
    if series.len() == 0 {
        energy
    } else {
        let before = with_series(energy, series.drop_last(), title);
        match list_under(series.last(), "data"@) {
            Some(entries) => with_entries(before, entries, title),
            None => before,
        }
    }
}

/// The readings with what a chart shows: the links between the parts of the installation,
/// or the values of a series. A chart over time shows no reading.
pub open spec fn with_chart(data: Data, chart: Json, title: Seq<char>) -> Data {
    match member(chart, "series"@) {
        Some(series) => match list_under(series, "links"@) {
            Some(links) => Data { status: with_links(data.status, links), ..data },
            None => match (member(chart, "dataset"@), elements(series)) {
                (None, Some(list)) => Data { energy: with_series(data.energy, list, title), ..data },
                _ => data,
            },
        },
        None => data,
    }
}

fn read_links(links: &Vec<Value>, data: &mut QcData)
    ensures
        final(data)@ == (Data {
            status: with_links(old(data)@.status, jsons_of(links@)),
            ..old(data)@
        }),
{
    let ghost documents = jsons_of(links@);
    let ghost before = data@;
    let mut next: usize = 0;
    assert(documents.take(0) =~= Seq::<Json>::empty());
    while next < links.len()
        invariant
            next <= links.len(),
            documents == jsons_of(links@),
            data@ == (Data {
                status: with_links(before.status, documents.take(next as int)),
                ..before
            }),
        decreases links.len() - next,
    {
        assert(documents.take(next + 1).drop_last() =~= documents.take(next as int));
        let link = &links[next];
        if let Some(id) = text_field(link, "id") {
            if let Some(value) = number_field(link, "value") {
                data.status.insert(normalize_key(id).concat("_wh"), value);
            }
        }
        next = next + 1;
    }
    assert(documents.take(next as int) =~= documents);
}

fn read_entries(entries: &Vec<Value>, title: &str, data: &mut QcData)
    ensures
        final(data)@ == (Data {
            energy: with_entries(old(data)@.energy, jsons_of(entries@), title@),
            ..old(data)@
        }),
{
    let ghost documents = jsons_of(entries@);
    let ghost before = data@;
    let mut next: usize = 0;
    assert(documents.take(0) =~= Seq::<Json>::empty());
    while next < entries.len()
        invariant
            next <= entries.len(),
            documents == jsons_of(entries@),
            data@ == (Data {
                energy: with_entries(before.energy, documents.take(next as int), title@),
                ..before
            }),
        decreases entries.len() - next,
    {
        assert(documents.take(next + 1).drop_last() =~= documents.take(next as int));
        let entry = &entries[next];
        let key = match text_field(entry, "name") {
            Some(name) => normalize_key(name),
            None => normalize_key(title),
        };
        if let Some(value) = number_field(entry, "value") {
            data.energy.insert(key, value);
        }
        next = next + 1;
    }
    assert(documents.take(next as int) =~= documents);
}

fn read_series(series: &Vec<Value>, title: &str, data: &mut QcData)
    ensures
        final(data)@ == (Data {
            energy: with_series(old(data)@.energy, jsons_of(series@), title@),
            ..old(data)@
        }),
{
    let ghost documents = jsons_of(series@);
    let ghost before = data@;
    let mut next: usize = 0;
    assert(documents.take(0) =~= Seq::<Json>::empty());
    while next < series.len()
        invariant
            next <= series.len(),
            documents == jsons_of(series@),
            data@ == (Data {
                energy: with_series(before.energy, documents.take(next as int), title@),
                ..before
            }),
        decreases series.len() - next,
    {
        assert(documents.take(next + 1).drop_last() =~= documents.take(next as int));
        if let Some(entries) = list_field(&series[next], "data") {
            read_entries(entries, title, data);
        }
        next = next + 1;
    }
    assert(documents.take(next as int) =~= documents);
}

/// Puts what a chart shows into the readings.
pub fn extract_chart_into(chart: &Value, widget_title: &str, data: &mut QcData)
    ensures
        final(data)@ == with_chart(old(data)@, json_of(*chart), widget_title@),
{
    let series = match field(chart, "series") {
        Some(series) => series,
        None => {
            return;
        },
    };
    if let Some(links) = list_field(series, "links") {
        read_links(links, data);
        return;
    }
    if field(chart, "dataset").is_some() {
        return;
    }
    if let Some(list) = items(series) {
        read_series(list, widget_title, data);
    }
}

/// What the service is asked for the type of a device.
pub open spec fn hardware_query(device: Seq<char>) -> Json {
    Json::Object(
        map![
            "_ft"@ => Json::Text("hwv"@),
            "hwid"@ => Json::Text(device),
            "f"@ => Json::List(seq![Json::Text("hwid"@), Json::Text("enchwt"@)]),
        ],
    )
}

/// What the service is asked for the type of a device.
pub fn hardware_request(device_id: &str) -> (body: Value)
    ensures
        json_of(body) == hardware_query(device_id@),
{
    let mut columns: Vec<Value> = Vec::new();
    columns.push(string_value("hwid".to_string()));
    columns.push(string_value("enchwt".to_string()));
    assert(jsons_of(columns@) =~= seq![Json::Text("hwid"@), Json::Text("enchwt"@)]);
    let mut body = no_members();
    put(&mut body, "_ft".to_string(), string_value("hwv".to_string()));
    put(&mut body, "hwid".to_string(), string_value(device_id.to_string()));
    put(&mut body, "f".to_string(), array_value(columns));
    assert(members_of(body) =~= hardware_query(device_id@)->Object_0);
    object_value(body)
}

/// Whether a column is the one with the type of the device.
pub open spec fn type_column(column: Json) -> bool {
    text_under(column, "id"@) == Some("enchwt"@)
}

/// The first column with the type of the device, from a position on.
pub open spec fn column_from(columns: Seq<Json>, from: nat) -> Option<nat>
    decreases columns.len() - from,
{
    if from >= columns.len() {
        None
    } else if type_column(columns[from as int]) {
        Some(from)
    } else {
        column_from(columns, from + 1)
    }
}

/// The type of the device: what the first row of the table says in its column.
pub open spec fn enchwt_in(answer: Json) -> Result<Seq<char>, Fault> {
    match list_under(answer, "cols"@) {
        Some(columns) => match column_from(columns, 0) {
            Some(at) => match list_under(answer, "rows"@) {
                Some(rows) => match first_of(Some(rows)) {
                    Some(Json::List(cells)) => if at < cells.len() && cells[at as int] is Text {
                        Ok(cells[at as int]->Text_0)
                    } else {
                        Err(answer_fault("enchwt cell empty"@))
                    },
                    _ => Err(answer_fault("ds response returned no rows"@)),
                },
                None => Err(answer_fault("ds response missing rows"@)),
            },
            None => Err(answer_fault("ds response missing enchwt column"@)),
        },
        None => Err(answer_fault("ds response missing cols"@)),
    }
}

fn find_column(columns: &Vec<Value>) -> (found: Option<usize>)
    ensures
        match found {
            Some(at) => column_from(jsons_of(columns@), 0) == Some(at as nat),
            None => column_from(jsons_of(columns@), 0) is None,
        },
{
    let mut at: usize = 0;
    while at < columns.len()
        invariant
            at <= columns.len(),
            column_from(jsons_of(columns@), 0) == column_from(jsons_of(columns@), at as nat),
        decreases columns.len() - at,
    {
        if let Some(id) = text_field(&columns[at], "id") {
            if same(id, "enchwt") {
                return Some(at);
            }
        }
        at = at + 1;
    }
    None
}

/// The type of the device that an answer tells.
pub fn extract_enchwt(resp: &Value) -> (result: AppResult<String>)
    ensures
        match result {
            Ok(text) => enchwt_in(json_of(*resp)) == Ok::<Seq<char>, Fault>(text@),
            Err(error) => enchwt_in(json_of(*resp)) == Err::<Seq<char>, Fault>(error@),
        },
{
    let columns = match list_field(resp, "cols") {
        Some(columns) => columns,
        None => {
            return Err(answer_error("ds response missing cols"));
        },
    };
    let at = match find_column(columns) {
        Some(at) => at,
        None => {
            return Err(answer_error("ds response missing enchwt column"));
        },
    };
    let rows = match list_field(resp, "rows") {
        Some(rows) => rows,
        None => {
            return Err(answer_error("ds response missing rows"));
        },
    };
    let cells = match first_item(rows) {
        Some(row) => items(row),
        None => None,
    };
    let cells = match cells {
        Some(cells) => cells,
        None => {
            return Err(answer_error("ds response returned no rows"));
        },
    };
    if at < cells.len() {
        if let Some(text) = string_of(&cells[at]) {
            return Ok(text.to_string());
        }
    }
    Err(answer_error("enchwt cell empty"))
}

}
