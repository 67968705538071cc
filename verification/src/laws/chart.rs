//! What holds of the readings that charts add.
use vstd::prelude::*;

use crate::dashboard::{key_of, lowered, with_chart, with_entries, with_links, with_series};
use crate::double::double_bits;
use crate::json::{list_under, member, Json};
use crate::model::Data;

verus! {

broadcast use vstd::string::group_string_axioms;

proof fn lemma_links_add(status: Map<Seq<char>, u64>, links: Seq<Json>)
    ensures
        status.dom().subset_of(with_links(status, links).dom()),
    decreases links.len(),
{
    if links.len() > 0 {
        lemma_links_add(status, links.drop_last());
    }
}

proof fn lemma_entries_add(energy: Map<Seq<char>, u64>, entries: Seq<Json>, title: Seq<char>)
    ensures
        energy.dom().subset_of(with_entries(energy, entries, title).dom()),
    decreases entries.len(),
{
    if entries.len() > 0 {
        lemma_entries_add(energy, entries.drop_last(), title);
    }
}

proof fn lemma_series_adds(energy: Map<Seq<char>, u64>, series: Seq<Json>, title: Seq<char>)
    ensures
        energy.dom().subset_of(with_series(energy, series, title).dom()),
    decreases series.len(),
{
    if series.len() > 0 {
        lemma_series_adds(energy, series.drop_last(), title);
        let before = with_series(energy, series.drop_last(), title);
        if let Some(entries) = list_under(series.last(), "data"@) {
            lemma_entries_add(before, entries, title);
        }
    }
}

/// A chart takes no reading away, and it adds readings of one kind only.
pub proof fn law_chart_adds(data: Data, chart: Json, title: Seq<char>)
    ensures
        data.status.dom().subset_of(with_chart(data, chart, title).status.dom()),
        data.energy.dom().subset_of(with_chart(data, chart, title).energy.dom()),
        with_chart(data, chart, title).status == data.status || with_chart(
            data,
            chart,
            title,
        ).energy == data.energy,
{
    if let Some(series) = member(chart, "series"@) {
        if let Some(links) = list_under(series, "links"@) {
            lemma_links_add(data.status, links);
        } else if let Json::List(list) = series {
            lemma_series_adds(data.energy, list, title);
        }
    }
}

/// A chart over time adds no reading.
pub proof fn law_chart_over_time(data: Data, chart: Json, series: Json, title: Seq<char>)
    requires
        member(chart, "series"@) == Some(series),
        list_under(series, "links"@) is None,
        member(chart, "dataset"@) is Some,
    ensures
        with_chart(data, chart, title) == data,
{
}

/// What a link shows: a number under the key of its id, where it has both.
pub open spec fn link_shown(link: Json) -> Option<(Seq<char>, u64)> {
    match link {
        Json::Object(told) => if told.dom().contains("id"@) && told["id"@] is Text
            && told.dom().contains("value"@) && told["value"@] is Num {
            Some(
                (
                    key_of(lowered(told["id"@]->Text_0)) + "_wh"@,
                    double_bits(told["value"@]->Num_0),
                ),
            )
        } else {
            None
        },
        _ => None,
    }
}

/// Whether something that is shown is shown under a key.
pub open spec fn under(shown: Option<(Seq<char>, u64)>, key: Seq<char>) -> bool {
    shown matches Some((named, value)) && named == key
}

pub proof fn lemma_link_last(status: Map<Seq<char>, u64>, links: Seq<Json>, at: int, key: Seq<char>)
    requires
        0 <= at < links.len(),
        under(link_shown(links[at]), key),
        forall|i: int| at < i < links.len() ==> !under(link_shown(#[trigger] links[i]), key),
    ensures
        with_links(status, links).dom().contains(key),
        Some((key, with_links(status, links)[key])) == link_shown(links[at]),
    decreases links.len(),
{
    if at < links.len() - 1 {
        let rest = links.drop_last();
        assert forall|i: int| at < i < rest.len() implies !under(
            link_shown(#[trigger] rest[i]),
            key,
        ) by {
            assert(rest[i] == links[i]);
        }
        lemma_link_last(status, rest, at, key);
        assert(!under(link_shown(links[links.len() - 1]), key));
    }
}

pub proof fn lemma_link_none(status: Map<Seq<char>, u64>, links: Seq<Json>, key: Seq<char>)
    requires
        forall|i: int| 0 <= i < links.len() ==> !under(link_shown(#[trigger] links[i]), key),
    ensures
        with_links(status, links).dom().contains(key) == status.dom().contains(key),
        with_links(status, links)[key] == status[key],
    decreases links.len(),
{
    if links.len() > 0 {
        let rest = links.drop_last();
        assert forall|i: int| 0 <= i < rest.len() implies !under(
            link_shown(#[trigger] rest[i]),
            key,
        ) by {
            assert(rest[i] == links[i]);
        }
        lemma_link_none(status, rest, key);
        assert(!under(link_shown(links[links.len() - 1]), key));
    }
}

/// Whether a chart holds these links.
pub open spec fn holds_links(chart: Json, links: Seq<Json>) -> bool {
    &&& chart is Object
    &&& chart->Object_0.dom().contains("series"@)
    &&& chart->Object_0["series"@] is Object
    &&& chart->Object_0["series"@]->Object_0.dom().contains("links"@)
    &&& chart->Object_0["series"@]->Object_0["links"@] == Json::List(links)
}

/// Of every key that links of a chart show, the readings hold what the last of these links
/// shows, whatever it is; every other flow is as it was, and so are the meters.
pub proof fn law_links_read(
    data: Data,
    chart: Json,
    title: Seq<char>,
    links: Seq<Json>,
    at: int,
    key: Seq<char>,
    other: Seq<char>,
)
    requires
        holds_links(chart, links),
        0 <= at < links.len(),
        under(link_shown(links[at]), key),
        forall|i: int| at < i < links.len() ==> !under(link_shown(#[trigger] links[i]), key),
        forall|i: int| 0 <= i < links.len() ==> !under(link_shown(#[trigger] links[i]), other),
    ensures
        with_chart(data, chart, title).status.dom().contains(key),
        Some((key, with_chart(data, chart, title).status[key])) == link_shown(links[at]),
        with_chart(data, chart, title).status.dom().contains(other) == data.status.dom().contains(
            other,
        ),
        with_chart(data, chart, title).status[other] == data.status[other],
        with_chart(data, chart, title).energy == data.energy,
{
    lemma_link_last(data.status, links, at, key);
    lemma_link_none(data.status, links, other);
}

/// A chart with links changes no flow that none of its links shows, and no meter.
pub proof fn law_links_leave(
    data: Data,
    chart: Json,
    title: Seq<char>,
    links: Seq<Json>,
    other: Seq<char>,
)
    requires
        holds_links(chart, links),
        forall|i: int| 0 <= i < links.len() ==> !under(link_shown(#[trigger] links[i]), other),
    ensures
        with_chart(data, chart, title).status.dom().contains(other) == data.status.dom().contains(
            other,
        ),
        with_chart(data, chart, title).status[other] == data.status[other],
        with_chart(data, chart, title).energy == data.energy,
{
    lemma_link_none(data.status, links, other);
}

/// What an entry shows: a number under the key of its name, or of the title where it has no
/// name.
pub open spec fn entry_shown(entry: Json, title: Seq<char>) -> Option<(Seq<char>, u64)> {
    match entry {
        Json::Object(told) => if told.dom().contains("value"@) && told["value"@] is Num {
            let name = if told.dom().contains("name"@) && told["name"@] is Text {
                told["name"@]->Text_0
            } else {
                title
            };
            Some((key_of(lowered(name)), double_bits(told["value"@]->Num_0)))
        } else {
            None
        },
        _ => None,
    }
}

/// The entries of an element of a series: none where it holds no list of them.
pub open spec fn entries_in(element: Json) -> Seq<Json> {
    match element {
        Json::Object(told) => if told.dom().contains("data"@) && told["data"@] is List {
            told["data"@]->List_0
        } else {
            Seq::empty()
        },
        _ => Seq::empty(),
    }
}

/// Whether no entry from a position on shows something under a key.
pub open spec fn quiet(entries: Seq<Json>, from: int, title: Seq<char>, key: Seq<char>) -> bool {
    forall|i: int|
        from <= i < entries.len() ==> !under(entry_shown(#[trigger] entries[i], title), key)
}

proof fn lemma_entry_last(
    energy: Map<Seq<char>, u64>,
    entries: Seq<Json>,
    title: Seq<char>,
    at: int,
    key: Seq<char>,
)
    requires
        0 <= at < entries.len(),
        under(entry_shown(entries[at], title), key),
        quiet(entries, at + 1, title, key),
    ensures
        with_entries(energy, entries, title).dom().contains(key),
        Some((key, with_entries(energy, entries, title)[key])) == entry_shown(entries[at], title),
    decreases entries.len(),
{
    if at < entries.len() - 1 {
        let rest = entries.drop_last();
        assert forall|i: int| at + 1 <= i < rest.len() implies !under(
            entry_shown(#[trigger] rest[i], title),
            key,
        ) by {
            assert(rest[i] == entries[i]);
        }
        lemma_entry_last(energy, rest, title, at, key);
        assert(!under(entry_shown(entries[entries.len() - 1], title), key));
    }
}

proof fn lemma_entry_none(
    energy: Map<Seq<char>, u64>,
    entries: Seq<Json>,
    title: Seq<char>,
    key: Seq<char>,
)
    requires
        quiet(entries, 0, title, key),
    ensures
        with_entries(energy, entries, title).dom().contains(key) == energy.dom().contains(key),
        with_entries(energy, entries, title)[key] == energy[key],
    decreases entries.len(),
{
    if entries.len() > 0 {
        let rest = entries.drop_last();
        assert forall|i: int| 0 <= i < rest.len() implies !under(
            entry_shown(#[trigger] rest[i], title),
            key,
        ) by {
            assert(rest[i] == entries[i]);
        }
        lemma_entry_none(energy, rest, title, key);
        assert(!under(entry_shown(entries[entries.len() - 1], title), key));
    }
}

proof fn lemma_series_last(
    energy: Map<Seq<char>, u64>,
    series: Seq<Json>,
    title: Seq<char>,
    element: int,
    at: int,
    key: Seq<char>,
)
    requires
        0 <= element < series.len(),
        0 <= at < entries_in(series[element]).len(),
        under(entry_shown(entries_in(series[element])[at], title), key),
        quiet(entries_in(series[element]), at + 1, title, key),
        forall|i: int|
            element < i < series.len() ==> quiet(entries_in(#[trigger] series[i]), 0, title, key),
    ensures
        with_series(energy, series, title).dom().contains(key),
        Some((key, with_series(energy, series, title)[key])) == entry_shown(
            entries_in(series[element])[at],
            title,
        ),
    decreases series.len(),
{
    let rest = series.drop_last();
    let before = with_series(energy, rest, title);
    let last = series[series.len() - 1];
    assert(entries_in(last) == (match list_under(last, "data"@) {
        Some(entries) => entries,
        None => Seq::empty(),
    }));
    if element < series.len() - 1 {
        assert forall|i: int| element < i < rest.len() implies quiet(
            entries_in(#[trigger] rest[i]),
            0,
            title,
            key,
        ) by {
            assert(rest[i] == series[i]);
        }
        lemma_series_last(energy, rest, title, element, at, key);
        assert(quiet(entries_in(series[series.len() - 1]), 0, title, key));
        lemma_entry_none(before, entries_in(last), title, key);
    } else {
        lemma_entry_last(before, entries_in(last), title, at, key);
    }
}

proof fn lemma_series_none(
    energy: Map<Seq<char>, u64>,
    series: Seq<Json>,
    title: Seq<char>,
    key: Seq<char>,
)
    requires
        forall|i: int|
            0 <= i < series.len() ==> quiet(entries_in(#[trigger] series[i]), 0, title, key),
    ensures
        with_series(energy, series, title).dom().contains(key) == energy.dom().contains(key),
        with_series(energy, series, title)[key] == energy[key],
    decreases series.len(),
{
    if series.len() > 0 {
        let rest = series.drop_last();
        let last = series[series.len() - 1];
        assert forall|i: int| 0 <= i < rest.len() implies quiet(
            entries_in(#[trigger] rest[i]),
            0,
            title,
            key,
        ) by {
            assert(rest[i] == series[i]);
        }
        lemma_series_none(energy, rest, title, key);
        assert(quiet(entries_in(series[series.len() - 1]), 0, title, key));
        lemma_entry_none(with_series(energy, rest, title), entries_in(last), title, key);
    }
}

/// Whether a chart holds this series, and is none over time.
pub open spec fn holds_series(chart: Json, series: Seq<Json>) -> bool {
    &&& chart is Object
    &&& chart->Object_0.dom().contains("series"@)
    &&& chart->Object_0["series"@] == Json::List(series)
    &&& !chart->Object_0.dom().contains("dataset"@)
}

/// Of every key that entries of a series show, the readings hold what the last of these
/// entries shows, whatever it is, and the flows are as they were.
pub proof fn law_series_read(
    data: Data,
    chart: Json,
    title: Seq<char>,
    series: Seq<Json>,
    element: int,
    at: int,
    key: Seq<char>,
)
    requires
        holds_series(chart, series),
        0 <= element < series.len(),
        0 <= at < entries_in(series[element]).len(),
        under(entry_shown(entries_in(series[element])[at], title), key),
        quiet(entries_in(series[element]), at + 1, title, key),
        forall|i: int|
            element < i < series.len() ==> quiet(entries_in(#[trigger] series[i]), 0, title, key),
    ensures
        with_chart(data, chart, title).energy.dom().contains(key),
        Some((key, with_chart(data, chart, title).energy[key])) == entry_shown(
            entries_in(series[element])[at],
            title,
        ),
        with_chart(data, chart, title).status == data.status,
{
    lemma_series_last(data.energy, series, title, element, at, key);
}

/// A series changes no meter that none of its entries shows, and no flow.
pub proof fn law_series_leaves(
    data: Data,
    chart: Json,
    title: Seq<char>,
    series: Seq<Json>,
    key: Seq<char>,
)
    requires
        holds_series(chart, series),
        forall|i: int|
            0 <= i < series.len() ==> quiet(entries_in(#[trigger] series[i]), 0, title, key),
    ensures
        with_chart(data, chart, title).energy.dom().contains(key) == data.energy.dom().contains(key),
        with_chart(data, chart, title).energy[key] == data.energy[key],
        with_chart(data, chart, title).status == data.status,
{
    lemma_series_none(data.energy, series, title, key);
}

/// A document that holds neither links nor a series changes no reading.
pub proof fn law_other_charts_leave(data: Data, chart: Json, title: Seq<char>)
    requires
        forall|links: Seq<Json>| !holds_links(chart, links),
        forall|series: Seq<Json>| !holds_series(chart, series),
    ensures
        with_chart(data, chart, title) == data,
{
    if let Some(series) = member(chart, "series"@) {
        if let Some(links) = list_under(series, "links"@) {
            assert(holds_links(chart, links));
        }
        if let Json::List(list) = series {
            assert(!holds_series(chart, list));
        }
    }
}

/// Before any chart there is no reading.
pub proof fn law_no_readings()
    ensures
        crate::model::no_data().status == Map::<Seq<char>, u64>::empty(),
        crate::model::no_data().energy == Map::<Seq<char>, u64>::empty(),
{
}

}
