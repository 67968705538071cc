//! What holds of the dashboard: the device and the widgets that are found on it, and what the
//! service is asked for.
use vstd::prelude::*;

use crate::dashboard::{
    cell_widget, cell_widgets, chart_request, column_from, device_in, enchwt_in, hardware_query,
    row_widgets, widgets_in, Widget,
};
use crate::error::Fault;
use crate::json::{list_under, member, text_under, Json};

verus! {

broadcast use vstd::string::group_string_axioms;

/// Whether this is the widget in the first cell of the first row.
pub open spec fn shown_first(dashboard: Json, widget: Json) -> bool {
    exists|rows: Seq<Json>, cells: Seq<Json>|
        {
            &&& list_under(dashboard, "rows"@) == Some(rows)
            &&& rows.len() > 0
            &&& #[trigger] list_under(rows[0], "cells"@) == Some(cells)
            &&& cells.len() > 0
            &&& #[trigger] member(cells[0], "widget"@) == Some(widget)
        }
}

/// Whether a widget fetches its data for this device.
pub open spec fn fetches_for(widget: Json, device: Seq<char>) -> bool {
    exists|datafetch: Json, parameters: Json|
        {
            &&& member(widget, "datafetch"@) == Some(datafetch)
            &&& #[trigger] member(datafetch, "parameters"@) == Some(parameters)
            &&& #[trigger] text_under(parameters, "deviceId"@) == Some(device)
        }
}

/// The device is the one that the first widget fetches its data for. Without a first widget,
/// or where that one names no device, it is said so.
pub proof fn law_device_found(dashboard: Json, widget: Json, device: Seq<char>)
    ensures
        shown_first(dashboard, widget) && fetches_for(widget, device) ==> device_in(dashboard)
            == Ok::<Seq<char>, Fault>(device),
        shown_first(dashboard, widget) && !(exists|any: Seq<char>| fetches_for(widget, any))
            ==> device_in(dashboard) == Err::<Seq<char>, Fault>(
            Fault::QcoreApi("widget missing deviceId"@),
        ),
        !(exists|any: Json| shown_first(dashboard, any)) ==> device_in(dashboard) == Err::<
            Seq<char>,
            Fault,
        >(Fault::QcoreApi("dashboard missing widgets"@)),
{
    if let Some(rows) = list_under(dashboard, "rows"@) {
        if rows.len() > 0 {
            if let Some(cells) = list_under(rows[0], "cells"@) {
                if cells.len() > 0 {
                    if let Some(found) = member(cells[0], "widget"@) {
                        assert(shown_first(dashboard, found));
                        if let Some(datafetch) = member(found, "datafetch"@) {
                            if let Some(parameters) = member(datafetch, "parameters"@) {
                                if let Some(id) = text_under(parameters, "deviceId"@) {
                                    assert(fetches_for(found, id));
                                }
                            }
                        }
                    }
                }
            }
        }
    }
}

/// Whether a widget is the one that a cell shows: with its title, or an empty one, and with
/// how it is drawn, or nothing.
pub open spec fn cell_shows(cell: Json, widget: Widget) -> bool {
    exists|told: Json|
        {
            &&& #[trigger] member(cell, "widget"@) == Some(told)
            &&& member(told, "datafetch"@) == Some(widget.datafetch)
            &&& member(told, "echartOpts"@) is Some ==> widget.echart_opts == member(
                told,
                "echartOpts"@,
            )->0
            &&& member(told, "echartOpts"@) is None ==> widget.echart_opts == Json::Null
            &&& text_under(told, "title"@) is Some ==> widget.title == text_under(told, "title"@)->0
            &&& text_under(told, "title"@) is None ==> widget.title.len() == 0
        }
}

/// A cell shows its widget. One without a widget, or whose widget says nothing of its data, is
/// refused in these words.
pub proof fn law_cell_read(cell: Json, widget: Widget)
    ensures
        cell_widget(cell) is Ok ==> cell_shows(cell, cell_widget(cell)->Ok_0),
        cell_shows(cell, widget) ==> cell_widget(cell) == Ok::<Widget, Fault>(widget),
        member(cell, "widget"@) is None ==> cell_widget(cell) == Err::<Widget, Fault>(
            Fault::QcoreApi("dashboard cell missing widget"@),
        ),
        member(cell, "widget"@) is Some && member(member(cell, "widget"@)->0, "datafetch"@) is None
            ==> cell_widget(cell) == Err::<Widget, Fault>(
            Fault::QcoreApi("widget missing datafetch"@),
        ),
{
    if let Ok(found) = cell_widget(cell) {
        assert(member(cell, "widget"@) is Some);
    }
    if cell_shows(cell, widget) {
        assert(cell_widget(cell)->Ok_0.title =~= widget.title);
    }
}

/// The cells of a row.
pub open spec fn cells_in(row: Json) -> Seq<Json> {
    list_under(row, "cells"@)->0
}

/// How many cells the first `count` rows have.
pub open spec fn cells_before(rows: Seq<Json>, count: nat) -> nat
    decreases count,
{
    if count == 0 {
        0
    } else {
        cells_before(rows, (count - 1) as nat) + cells_in(rows[count - 1]).len()
    }
}

/// Whether the cells of a row are there, and each shows a widget.
pub open spec fn row_whole(row: Json) -> bool {
    &&& list_under(row, "cells"@) is Some
    &&& forall|i: int|
        0 <= i < cells_in(row).len() ==> (#[trigger] cell_widget(cells_in(row)[i])) is Ok
}

proof fn lemma_cells_read(cells: Seq<Json>)
    requires
        forall|i: int| 0 <= i < cells.len() ==> (#[trigger] cell_widget(cells[i])) is Ok,
    ensures
        cell_widgets(cells) is Ok,
        cell_widgets(cells)->Ok_0.len() == cells.len(),
        forall|i: int|
            0 <= i < cells.len() ==> cell_widget(cells[i]) == Ok::<Widget, Fault>(
                #[trigger] cell_widgets(cells)->Ok_0[i],
            ),
    decreases cells.len(),
{
    if cells.len() > 0 {
        let rest = cells.drop_last();
        assert forall|i: int| 0 <= i < rest.len() implies (#[trigger] cell_widget(
            rest[i],
        )) is Ok by {
            assert(rest[i] == cells[i]);
        }
        lemma_cells_read(rest);
        assert(cell_widget(cells[cells.len() - 1]) is Ok);
        let all = cell_widgets(cells)->Ok_0;
        assert forall|i: int| 0 <= i < cells.len() implies cell_widget(cells[i]) == Ok::<
            Widget,
            Fault,
        >(#[trigger] all[i]) by {
            if i < rest.len() {
                assert(cell_widgets(rest)->Ok_0[i] == all[i]);
                assert(rest[i] == cells[i]);
            }
        }
    }
}

proof fn lemma_rows_read(rows: Seq<Json>)
    requires
        forall|r: int| 0 <= r < rows.len() ==> row_whole(#[trigger] rows[r]),
    ensures
        row_widgets(rows) is Ok,
        row_widgets(rows)->Ok_0.len() == cells_before(rows, rows.len()),
        forall|r: int, c: int|
            0 <= r < rows.len() && 0 <= c < cells_in(rows[r]).len() ==> cell_widget(
                #[trigger] cells_in(rows[r])[c],
            ) == Ok::<Widget, Fault>(row_widgets(rows)->Ok_0[cells_before(rows, r as nat) + c]),
    decreases rows.len(),
{
    if rows.len() > 0 {
        let rest = rows.drop_last();
        let last = rows[rows.len() - 1];
        assert forall|r: int| 0 <= r < rest.len() implies row_whole(#[trigger] rest[r]) by {
            assert(rest[r] == rows[r]);
        }
        lemma_rows_read(rest);
        assert(row_whole(rows[rows.len() - 1]));
        lemma_cells_read(cells_in(last));
        lemma_before_same(rows, rest, rest.len());
        let before = row_widgets(rest)->Ok_0;
        let all = row_widgets(rows)->Ok_0;
        assert forall|r: int, c: int|
            0 <= r < rows.len() && 0 <= c < cells_in(rows[r]).len() implies cell_widget(
            #[trigger] cells_in(rows[r])[c],
        ) == Ok::<Widget, Fault>(all[cells_before(rows, r as nat) + c]) by {
            if r < rest.len() {
                lemma_before_same(rows, rest, r as nat);
                lemma_before_grows(rest, (r + 1) as nat, rest.len());
                assert(rest[r] == rows[r]);
                assert(cell_widget(cells_in(rest[r])[c]) == Ok::<Widget, Fault>(
                    before[cells_before(rest, r as nat) + c],
                ));
                assert(cells_before(rest, (r + 1) as nat) == cells_before(rest, r as nat)
                    + cells_in(rest[r]).len());
                assert(all[cells_before(rest, r as nat) + c] == before[cells_before(rest, r as nat)
                    + c]);
            } else {
                assert(all[before.len() + c] == cell_widgets(cells_in(last))->Ok_0[c]);
            }
        }
    }
}

proof fn lemma_before_same(rows: Seq<Json>, rest: Seq<Json>, count: nat)
    requires
        rest == rows.drop_last(),
        rows.len() > 0,
        count <= rest.len(),
    ensures
        cells_before(rows, count) == cells_before(rest, count),
    decreases count,
{
    if count > 0 {
        lemma_before_same(rows, rest, (count - 1) as nat);
        assert(rest[count - 1] == rows[count - 1]);
    }
}

proof fn lemma_before_grows(rows: Seq<Json>, n: nat, m: nat)
    requires
        n <= m,
    ensures
        cells_before(rows, n) <= cells_before(rows, m),
    decreases m,
{
    if n < m {
        lemma_before_grows(rows, n, (m - 1) as nat);
    }
}

/// The widgets of a dashboard are those of all its cells, row by row and in each row cell by
/// cell, and no others.
pub proof fn law_widgets_in_order(dashboard: Json, rows: Seq<Json>, r: int, c: int)
    requires
        list_under(dashboard, "rows"@) == Some(rows),
        forall|i: int| 0 <= i < rows.len() ==> row_whole(#[trigger] rows[i]),
    ensures
        widgets_in(dashboard) is Ok,
        widgets_in(dashboard)->Ok_0.len() == cells_before(rows, rows.len()),
        0 <= r < rows.len() && 0 <= c < cells_in(rows[r]).len() ==> {
            let at = cells_before(rows, r as nat) + c;
            &&& at < widgets_in(dashboard)->Ok_0.len()
            &&& cell_shows(cells_in(rows[r])[c], widgets_in(dashboard)->Ok_0[at])
        },
{
    lemma_rows_read(rows);
    if 0 <= r < rows.len() && 0 <= c < cells_in(rows[r]).len() {
        let at = cells_before(rows, r as nat) + c;
        lemma_before_grows(rows, (r + 1) as nat, rows.len());
        assert(cell_widget(cells_in(rows[r])[c]) == Ok::<Widget, Fault>(
            row_widgets(rows)->Ok_0[at],
        ));
        law_cell_read(cells_in(rows[r])[c], row_widgets(rows)->Ok_0[at]);
    }
}

/// A dashboard without rows, a row without cells and a cell without a widget are refused: the
/// first thing that is wrong is told.
pub proof fn law_widgets_refused(dashboard: Json, rows: Seq<Json>, r: int, c: int)
    ensures
        list_under(dashboard, "rows"@) is None ==> widgets_in(dashboard) == Err::<
            Seq<Widget>,
            Fault,
        >(Fault::QcoreApi("dashboard missing rows"@)),
        ({
            &&& list_under(dashboard, "rows"@) == Some(rows)
            &&& 0 <= r < rows.len()
            &&& forall|i: int| 0 <= i < r ==> row_whole(#[trigger] rows[i])
            &&& list_under(rows[r], "cells"@) is None
        }) ==> widgets_in(dashboard) == Err::<Seq<Widget>, Fault>(
            Fault::QcoreApi("dashboard row missing cells"@),
        ),
        ({
            &&& list_under(dashboard, "rows"@) == Some(rows)
            &&& 0 <= r < rows.len()
            &&& forall|i: int| 0 <= i < r ==> row_whole(#[trigger] rows[i])
            &&& list_under(rows[r], "cells"@) is Some
            &&& 0 <= c < cells_in(rows[r]).len()
            &&& forall|i: int|
                0 <= i < c ==> (#[trigger] cell_widget(cells_in(rows[r])[i])) is Ok
            &&& cell_widget(cells_in(rows[r])[c]) is Err
        }) ==> widgets_in(dashboard) == Err::<Seq<Widget>, Fault>(
            cell_widget(cells_in(rows[r])[c])->Err_0,
        ),
{
    if list_under(dashboard, "rows"@) == Some(rows) && 0 <= r < rows.len() && (forall|i: int|
        0 <= i < r ==> row_whole(#[trigger] rows[i])) {
        let good = rows.take(r);
        assert forall|i: int| 0 <= i < good.len() implies row_whole(#[trigger] good[i]) by {
            assert(good[i] == rows[i]);
        }
        lemma_rows_read(good);
        let upto = rows.take(r + 1);
        assert(upto.drop_last() =~= good);
        if list_under(rows[r], "cells"@) is None {
            lemma_rows_refused(rows, r + 1);
        } else {
            let cells = cells_in(rows[r]);
            if 0 <= c < cells.len() && (forall|i: int|
                0 <= i < c ==> (#[trigger] cell_widget(cells[i])) is Ok) && cell_widget(
                cells[c],
            ) is Err {
                let fine = cells.take(c);
                assert forall|i: int| 0 <= i < fine.len() implies (#[trigger] cell_widget(
                    fine[i],
                )) is Ok by {
                    assert(fine[i] == cells[i]);
                }
                lemma_cells_read(fine);
                assert(cells.take(c + 1).drop_last() =~= fine);
                lemma_cells_refused(cells, c + 1);
                lemma_rows_refused(rows, r + 1);
            }
        }
    }
}

proof fn lemma_cells_refused(cells: Seq<Json>, n: int)
    requires
        0 <= n <= cells.len(),
        cell_widgets(cells.take(n)) is Err,
    ensures
        cell_widgets(cells) == cell_widgets(cells.take(n)),
    decreases cells.len() - n,
{
    if n < cells.len() {
        assert(cells.take(n + 1).drop_last() =~= cells.take(n));
        lemma_cells_refused(cells, n + 1);
    } else {
        assert(cells.take(n) =~= cells);
    }
}

proof fn lemma_rows_refused(rows: Seq<Json>, n: int)
    requires
        0 <= n <= rows.len(),
        row_widgets(rows.take(n)) is Err,
    ensures
        row_widgets(rows) == row_widgets(rows.take(n)),
    decreases rows.len() - n,
{
    if n < rows.len() {
        assert(rows.take(n + 1).drop_last() =~= rows.take(n));
        lemma_rows_refused(rows, n + 1);
    } else {
        assert(rows.take(n) =~= rows);
    }
}

/// A chart is asked for with the parameters of its widget, each as it is, with the kind of
/// data beside them where the widget names one, and with how it is drawn. A widget without
/// parameters is refused.
pub proof fn law_chart_asked(widget: Widget, parameters: Map<Seq<char>, Json>, key: Seq<char>)
    ensures
        member(widget.datafetch, "parameters"@) == Some(Json::Object(parameters)) ==> {
            let body = chart_request(widget)->Ok_0->Object_0;
            let asked = body["datafetch"@]->Object_0;
            &&& chart_request(widget) is Ok
            &&& chart_request(widget)->Ok_0 is Object
            &&& body.dom() == set!["datafetch"@, "echartOpts"@]
            &&& body["echartOpts"@] == widget.echart_opts
            &&& body["datafetch"@] is Object
            &&& key != "fetchType"@ ==> asked.dom().contains(key) == parameters.dom().contains(key)
                && asked[key] == parameters[key]
            &&& match member(widget.datafetch, "fetchType"@) {
                Some(kind) => asked.dom().contains("fetchType"@) && asked["fetchType"@] == kind,
                None => asked == parameters,
            }
        },
        !(exists|any: Map<Seq<char>, Json>|
            member(widget.datafetch, "parameters"@) == Some(Json::Object(any))) ==> chart_request(
            widget,
        ) == Err::<Json, Fault>(Fault::QcoreApi("widget datafetch missing parameters"@)),
{
    reveal_strlit("datafetch");
    reveal_strlit("echartOpts");
    assert("datafetch"@.len() != "echartOpts"@.len());
    if let Some(Json::Object(found)) = member(widget.datafetch, "parameters"@) {
        let body = chart_request(widget)->Ok_0->Object_0;
        assert(body.dom() =~= set!["datafetch"@, "echartOpts"@]);
    }
}

/// The type of a device is asked for by its id, in two columns.
pub proof fn law_hardware_asked(device: Seq<char>)
    ensures
        hardware_query(device) == Json::Object(
            map![
                "_ft"@ => Json::Text("hwv"@),
                "hwid"@ => Json::Text(device),
                "f"@ => Json::List(seq![Json::Text("hwid"@), Json::Text("enchwt"@)]),
            ],
        ),
{
}

proof fn lemma_column(columns: Seq<Json>, from: nat, at: int)
    requires
        from <= at < columns.len(),
        text_under(columns[at], "id"@) == Some("enchwt"@),
        forall|i: int|
            from <= i < at ==> text_under(#[trigger] columns[i], "id"@) != Some("enchwt"@),
    ensures
        column_from(columns, from) == Some(at as nat),
    decreases columns.len() - from,
{
    if from < at {
        assert(text_under(columns[from as int], "id"@) != Some("enchwt"@));
        lemma_column(columns, from + 1, at);
    }
}

proof fn lemma_no_column(columns: Seq<Json>, from: nat)
    requires
        forall|i: int|
            from <= i < columns.len() ==> text_under(#[trigger] columns[i], "id"@) != Some(
                "enchwt"@,
            ),
    ensures
        column_from(columns, from) is None,
    decreases columns.len() - from,
{
    if from < columns.len() {
        assert(text_under(columns[from as int], "id"@) != Some("enchwt"@));
        lemma_no_column(columns, from + 1);
    }
}

/// The type of the device is what the first row of the table says in the first column with
/// its name. Where the table, the column, the row or the cell is missing, it is said so.
pub proof fn law_type_found(answer: Json, columns: Seq<Json>, at: int, rows: Seq<Json>)
    requires
        list_under(answer, "cols"@) == Some(columns),
        0 <= at < columns.len(),
        text_under(columns[at], "id"@) == Some("enchwt"@),
        forall|i: int| 0 <= i < at ==> text_under(#[trigger] columns[i], "id"@) != Some("enchwt"@),
    ensures
        list_under(answer, "rows"@) == Some(rows) && rows.len() > 0 && rows[0] is List ==> {
            let cells = rows[0]->List_0;
            &&& at < cells.len() && cells[at] is Text ==> enchwt_in(answer) == Ok::<
                Seq<char>,
                Fault,
            >(cells[at]->Text_0)
            &&& at >= cells.len() || !(cells[at] is Text) ==> enchwt_in(answer) == Err::<
                Seq<char>,
                Fault,
            >(Fault::QcoreApi("enchwt cell empty"@))
        },
        list_under(answer, "rows"@) == Some(rows) && (rows.len() == 0 || !(rows[0] is List))
            ==> enchwt_in(answer) == Err::<Seq<char>, Fault>(
            Fault::QcoreApi("ds response returned no rows"@),
        ),
        list_under(answer, "rows"@) is None ==> enchwt_in(answer) == Err::<Seq<char>, Fault>(
            Fault::QcoreApi("ds response missing rows"@),
        ),
{
    lemma_column(columns, 0, at);
}

/// A table without columns, or without the one with the type, is refused.
pub proof fn law_type_refused(answer: Json, columns: Seq<Json>)
    ensures
        list_under(answer, "cols"@) is None ==> enchwt_in(answer) == Err::<Seq<char>, Fault>(
            Fault::QcoreApi("ds response missing cols"@),
        ),
        list_under(answer, "cols"@) == Some(columns) && (forall|i: int|
            0 <= i < columns.len() ==> text_under(#[trigger] columns[i], "id"@) != Some("enchwt"@))
            ==> enchwt_in(answer) == Err::<Seq<char>, Fault>(
            Fault::QcoreApi("ds response missing enchwt column"@),
        ),
{
    if list_under(answer, "cols"@) == Some(columns) && (forall|i: int|
        0 <= i < columns.len() ==> text_under(#[trigger] columns[i], "id"@) != Some("enchwt"@)) {
        lemma_no_column(columns, 0);
    }
}

}
