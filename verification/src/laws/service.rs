//! What holds of the requests to the service.
use vstd::prelude::*;

use crate::dashboard::{
    chart_request, device_in, enchwt_in, hardware_query, widgets_in, with_chart, Widget,
};
use crate::double::{float_read, float_text, negative_zero, same_number, whole};
use crate::error::{AppError, Fault};
use crate::http::{
    default_fields, failure_words, fields_of, reason_phrase, valid_header_name, valid_header_value,
    Reply, POOL_IDLE_SECONDS, USER_AGENT,
};
use crate::json::{compact_text, json_of, member, Json};
use crate::laws::schedule::{filters_of, read_back};
use crate::model::{no_data, DailySchedule, Data};
use crate::qcore::{
    dashboard_call, device_answer, schedule_path, token_accepted, write_path, Call, Client, Exchange,
    QcDataState, ScheduleState, TokenState, WriteState, TOKEN_FILE_NAME,
};
use crate::schedule::{schedule_in, schedule_settings};
use crate::text::{decimal, occurs};

verus! {

broadcast use vstd::string::group_string_axioms;

/// A request is made twice at most: what came of the second time is its result.
pub proof fn law_one_retry(client: Client, exchange: Exchange, result: Result<Json, Fault>)
    ensures
        !client.tries_again(Exchange { retried: true, ..exchange }, result),
{
}

/// Where the service answers that the token is not good, with its status for that, the
/// request is made once more.
pub proof fn law_unauthorized_again(
    client: Client,
    call: Call,
    reason: Option<Seq<char>>,
    body: Seq<char>,
)
    ensures
        client.tries_again(
            client.exchange(call),
            Err(Fault::QcoreApi(failure_words(401, reason, body))),
        ),
{
    reveal_strlit("401");
    reveal_with_fuel(decimal, 3);
    let words = failure_words(401, reason, body);
    assert(decimal(401) =~= "401"@);
    assert(words.subrange(0, 3) =~= "401"@);
    let at = 0int;
    assert(words.subrange(at, at + "401"@.len()) == "401"@);
}

/// Any other error is the result at once.
pub proof fn law_other_errors_stand(client: Client, exchange: Exchange, fault: Fault)
    requires
        fault is QcoreApi ==> !occurs(fault->QcoreApi_0, "401"@),
    ensures
        !client.tries_again(exchange, Err(fault)),
{
}

/// How a token is found, whatever comes of each step: the client then, and the token or why
/// there is none.
pub open spec fn token_search(
    client: Client,
    file: Option<Seq<char>>,
    account: Result<Json, Fault>,
    login: Result<Seq<char>, Fault>,
    stored: Result<(), Fault>,
) -> (Client, Result<Seq<char>, Fault>) {
    match client.token_wanted() {
        TokenState::Done(result) => (client, result),
        _ => {
            let (checked, state) = match client.file_read(file) {
                TokenState::Validate { token } => client.validated(token, token_accepted(account)),
                other => (client, other),
            };
            match state {
                TokenState::Done(result) => (checked, result),
                _ => match checked.logged_in(login) {
                    TokenState::Store { token } => {
                        let (kept, last) = checked.stored(token, stored);
                        (kept, last->Done_0)
                    },
                    other => (checked, other->Done_0),
                },
            }
        },
    }
}

/// The token in use is used again; else that of the file, if the service accepts it; else
/// a new one, once it is stored. A token that is handed out is in use from then on, and
/// without one nothing changes.
pub proof fn law_token_found(
    client: Client,
    file: Option<Seq<char>>,
    account: Result<Json, Fault>,
    login: Result<Seq<char>, Fault>,
    stored: Result<(), Fault>,
)
    ensures
        ({
            let (after, result) = token_search(client, file, account, login, stored);
            &&& result == (if client.token is Some {
                Ok(client.token->0)
            } else if file is Some && token_accepted(account) {
                Ok(file->0)
            } else if login is Ok && stored is Err {
                Err(stored->Err_0)
            } else {
                login
            })
            &&& match result {
                Ok(token) => after == (Client { token: Some(token), ..client }),
                Err(_) => after == client,
            }
        }),
{
}

/// What follows answers, one after the other.
pub open spec fn data_after(state: QcDataState, answers: Seq<Result<Json, Fault>>) -> QcDataState
    decreases answers.len(),
{
    if answers.len() == 0 {
        state
    } else {
        data_after(state, answers.drop_last()).after(answers.last())
    }
}

/// The readings of the first `count` charts, each under the title of its widget.
pub open spec fn charts_read(widgets: Seq<Widget>, charts: Seq<Json>, count: nat) -> Data
    decreases count,
{
    if count == 0 {
        no_data()
    } else {
        with_chart(
            charts_read(widgets, charts, (count - 1) as nat),
            charts[count - 1],
            widgets[count - 1].title,
        )
    }
}

/// The answers that bring a dashboard and then charts.
pub open spec fn good_answers(dashboard: Json, charts: Seq<Json>, count: nat) -> Seq<
    Result<Json, Fault>,
> {
    seq![Ok::<Json, Fault>(dashboard)] + Seq::new(count, |i: int| Ok::<Json, Fault>(charts[i]))
}

/// The readings are those of every chart of the dashboard: the charts are asked for one
/// after the other, in the order of the widgets, and behind the last one the readings are
/// complete.
pub proof fn law_readings_complete(
    dashboard: Json,
    widgets: Seq<Widget>,
    charts: Seq<Json>,
    count: nat,
)
    requires
        widgets_in(dashboard) == Ok::<Seq<Widget>, Fault>(widgets),
        forall|i: int| 0 <= i < widgets.len() ==> (#[trigger] chart_request(widgets[i])) is Ok,
        count <= widgets.len(),
        charts.len() == widgets.len(),
    ensures
        ({
            let state = data_after(QcDataState::Dashboard, good_answers(dashboard, charts, count));
            let data = charts_read(widgets, charts, count);
            if count < widgets.len() {
                &&& state == QcDataState::Charts { widgets, next: count, data }
                &&& state.call() == Some(
                    Call::Post {
                        path: "/h/chart"@,
                        body: chart_request(widgets[count as int])->Ok_0,
                    },
                )
            } else {
                state == QcDataState::Done(Ok(data))
            }
        }),
    decreases count,
{
    let answers = good_answers(dashboard, charts, count);
    if count == 0 {
        assert(answers =~= seq![Ok::<Json, Fault>(dashboard)]);
        assert(answers.drop_last() =~= Seq::empty());
        assert(data_after(QcDataState::Dashboard, answers.drop_last()) == QcDataState::Dashboard);
    } else {
        law_readings_complete(dashboard, widgets, charts, (count - 1) as nat);
        assert(answers.drop_last() =~= good_answers(dashboard, charts, (count - 1) as nat));
        assert(chart_request(widgets[count - 1]) is Ok);
    }
    if count < widgets.len() {
        assert(chart_request(widgets[count as int]) is Ok);
    }
}

/// An error that comes back while the readings are fetched is the result.
pub proof fn law_readings_fail(state: QcDataState, fault: Fault)
    requires
        !(state is Done),
    ensures
        state.after(Err(fault)) == QcDataState::Done(Err(fault)),
{
}

/// The schedule is that of the device: the device, unless it is known, then its type, then
/// the schedule are asked for, and what the last answer says is the result.
pub proof fn law_schedule_fetched(
    client: Client,
    dashboard: Json,
    hardware: Json,
    schedule: Json,
    device: Seq<char>,
    enchwt: Seq<char>,
)
    requires
        match client.device_id {
            Some(known) => known == device,
            None => device_answer(Ok(dashboard)) == Ok::<Seq<char>, Fault>(device),
        },
        enchwt_in(hardware) == Ok::<Seq<char>, Fault>(enchwt),
    ensures
        client.device_id is None ==> {
            &&& client.schedule_wanted().call() == Some(dashboard_call())
            &&& client.schedule_wanted().after(Ok(dashboard)) == (ScheduleState::Hardware { device })
            &&& client.device_told(Ok(dashboard)).device_id == Some(device)
        },
        client.device_id is Some ==> client.schedule_wanted() == (ScheduleState::Hardware {
            device,
        }),
        (ScheduleState::Hardware { device }).call() == Some(
            Call::Post { path: "/h/ds"@, body: hardware_query(device) },
        ),
        (ScheduleState::Hardware { device }).after(Ok(hardware)) == (ScheduleState::Schedule {
            device,
            enchwt,
        }),
        (ScheduleState::Schedule { device, enchwt }).call() == Some(
            Call::Get { path: schedule_path(device, enchwt) },
        ),
        (ScheduleState::Schedule { device, enchwt }).after(Ok(schedule)) == ScheduleState::Done(
            schedule_in(schedule),
        ),
{
}

/// A schedule is written to the device: the device, unless it is known, is asked for, then
/// all settings are sent, and what the service answers is the result.
pub proof fn law_schedule_written(
    client: Client,
    config: DailySchedule,
    dashboard: Json,
    device: Seq<char>,
    answer: Result<Json, Fault>,
)
    requires
        match client.device_id {
            Some(known) => known == device,
            None => device_answer(Ok(dashboard)) == Ok::<Seq<char>, Fault>(device),
        },
    ensures
        ({
            let body = Json::Object(schedule_settings(config));
            let send = WriteState::Send { device, body };
            &&& client.device_id is None ==> {
                &&& client.write_wanted(config).call() == Some(dashboard_call())
                &&& client.write_wanted(config).after(Ok(dashboard)) == send
            }
            &&& client.device_id is Some ==> client.write_wanted(config) == send
            &&& send.call() == Some(Call::Post { path: write_path(device), body })
            &&& send.after(answer) == WriteState::Done(answer)
        }),
{
}

/// A schedule for a device that is known is posted in one body, of twenty texts. Where the
/// service lists the settings that it was told, in any order, the schedule is read back, with
/// the slots that an inverter has and with the currents that their texts denote: a whole
/// current is the same number, and but for the negative zero the same double.
pub proof fn law_posted_schedule_read_back(
    client: Client,
    config: DailySchedule,
    device: Seq<char>,
    names: Seq<Seq<char>>,
)
    requires
        client.device_id == Some(device),
        names.to_set() == schedule_settings(config).dom(),
    ensures
        ({
            let settings = schedule_settings(config);
            let answer = Json::Object(
                map!["filters"@ => Json::List(filters_of(settings, names))],
            );
            let (charge, discharge) = (
                config.force_charge_current,
                config.force_discharge_current,
            );
            &&& client.write_wanted(config).call() == Some(
                Call::Post { path: write_path(device), body: Json::Object(settings) },
            )
            &&& settings.dom().finite() && settings.dom().len() == 20
            &&& forall|name: Seq<char>| #[trigger]
                settings.dom().contains(name) ==> settings[name] is Text
            &&& match (float_read(float_text(charge)), float_read(float_text(discharge))) {
                (Some(first), Some(second)) => schedule_in(answer) == Ok::<DailySchedule, Fault>(
                    read_back(config, first, second),
                ),
                _ => schedule_in(answer) is Err,
            }
            &&& forall|current: u64|
                #![trigger float_read(float_text(current))]
                (current == charge || current == discharge) && whole(current) ==> {
                    &&& float_read(float_text(current)) is Some
                    &&& same_number(float_read(float_text(current))->0, current)
                    &&& !negative_zero(current) ==> float_read(float_text(current)) == Some(current)
                }
        }),
{
    let settings = schedule_settings(config);
    let filters = filters_of(settings, names);
    let answer = Json::Object(map!["filters"@ => Json::List(filters)]);
    crate::laws::schedule::law_twenty_texts_written(config);
    crate::laws::schedule::law_listed_settings_found(settings, names);
    crate::laws::schedule::law_written_schedule_read(config, answer, filters);
    if whole(config.force_charge_current) {
        crate::double::lemma_whole_read(config.force_charge_current);
    }
    if whole(config.force_discharge_current) {
        crate::double::lemma_whole_read(config.force_discharge_current);
    }
}

/// A request goes to the address of the service with the path behind it. One that reads sends
/// nothing, one that sends sends the document, and neither is made for the second time.
pub proof fn law_requests(client: Client, path: Seq<char>, body: Json)
    ensures
        ({
            let get = client.exchange(Call::Get { path });
            let post = client.exchange(Call::Post { path, body });
            &&& get.url == client.api_url + path
            &&& get.body is None
            &&& !get.retried
            &&& post.url == client.api_url + path
            &&& post.body == Some(compact_text(body))
            &&& !post.retried
        }),
{
}

/// Whether the digits 401 stand next to each other somewhere in words.
pub open spec fn says_401(words: Seq<char>) -> bool {
    exists|at: int|
        0 <= at && at + 3 <= words.len() && #[trigger] words[at] == '4' && words[at + 1] == '0'
            && words[at + 2] == '1'
}

/// A request is made once more exactly where it was made for the first time and the service
/// answered with an error in whose words `401` stands somewhere.
pub proof fn law_tried_again(client: Client, exchange: Exchange, result: Result<Json, Fault>)
    ensures
        client.tries_again(exchange, result) <==> (!exchange.retried && result is Err
            && result->Err_0 is QcoreApi && says_401(result->Err_0->QcoreApi_0)),
{
    reveal_strlit("401");
    if let Err(Fault::QcoreApi(words)) = result {
        if occurs(words, "401"@) {
            let at = choose|at: int|
                0 <= at <= words.len() - "401"@.len() && #[trigger] words.subrange(
                    at,
                    at + "401"@.len(),
                ) == "401"@;
            let part = words.subrange(at, at + 3);
            assert(part[0] == words[at] && part[1] == words[at + 1] && part[2] == words[at + 2]);
        }
        if exists|at: int|
            0 <= at && at + 3 <= words.len() && #[trigger] words[at] == '4' && words[at + 1] == '0'
                && words[at + 2] == '1' {
            let at = choose|at: int|
                0 <= at && at + 3 <= words.len() && #[trigger] words[at] == '4' && words[at + 1]
                    == '0' && words[at + 2] == '1';
            assert(words.subrange(at, at + 3) =~= "401"@);
            assert(words.subrange(at, at + "401"@.len()) == "401"@);
        }
    }
}

/// How a token is found, step by step: the one in use; else that of the file, once the service
/// accepts it; else a new one, once it is stored. The client keeps a token from the step on
/// that hands it out, and nothing else of it changes.
pub proof fn law_token_steps(
    client: Client,
    token: Seq<char>,
    fault: Fault,
    account: Json,
)
    ensures
        client.token is Some ==> client.token_wanted() == TokenState::Done(Ok(client.token->0)),
        client.token is None ==> client.token_wanted() == TokenState::ReadFile,
        client.file_read(Some(token)) == (TokenState::Validate { token }),
        client.file_read(None) == TokenState::Login,
        token_accepted(Ok(account)) <==> member(account, "uid"@) is Some,
        !token_accepted(Err(fault)),
        ({
            let (kept, step) = client.validated(token, true);
            &&& step == TokenState::Done(Ok(token))
            &&& kept.token == Some(token)
            &&& kept.device_id == client.device_id
            &&& kept.api_url == client.api_url
            &&& kept.login == client.login
            &&& kept.password == client.password
        }),
        client.validated(token, false) == (client, TokenState::Login),
        client.logged_in(Ok(token)) == (TokenState::Store { token }),
        client.logged_in(Err(fault)) == TokenState::Done(Err(fault)),
        ({
            let (kept, step) = client.stored(token, Ok(()));
            &&& step == TokenState::Done(Ok(token))
            &&& kept.token == Some(token)
            &&& kept.device_id == client.device_id
            &&& kept.api_url == client.api_url
            &&& kept.login == client.login
            &&& kept.password == client.password
        }),
        client.stored(token, Err(fault)) == (client, TokenState::Done(Err(fault))),
{
}

/// The device is the one on the dashboard, which is read under its path. The client keeps a
/// device that was found, and nothing else of it changes.
pub proof fn law_device_kept(client: Client, dashboard: Json, fault: Fault)
    ensures
        dashboard_call() == (Call::Get { path: "/s/dashboard"@ }),
        device_answer(Ok(dashboard)) == device_in(dashboard),
        device_answer(Err(fault)) == Err::<Seq<char>, Fault>(fault),
        client.device_told(Err(fault)) == client,
        ({
            let told = client.device_told(Ok(dashboard));
            &&& device_in(dashboard) is Ok ==> told.device_id == Some(device_in(dashboard)->Ok_0)
            &&& device_in(dashboard) is Err ==> told.device_id == client.device_id
            &&& told.token == client.token
            &&& told.api_url == client.api_url
            &&& told.login == client.login
            &&& told.password == client.password
        }),
{
}

/// How the readings are fetched: first the dashboard, then each chart. A dashboard or a widget
/// that is not what it should be ends it with what is wrong, and what is done stays done.
pub proof fn law_readings_steps(
    widgets: Seq<Widget>,
    next: nat,
    data: Data,
    chart: Json,
    dashboard: Json,
    result: Result<Data, Fault>,
    answer: Result<Json, Fault>,
    fault: Fault,
)
    requires
        next < widgets.len(),
    ensures
        QcDataState::Dashboard.call() == Some(Call::Get { path: "/s/dashboard"@ }),
        QcDataState::Done(result).call() is None,
        QcDataState::Done(result).after(answer) == QcDataState::Done(result),
        QcDataState::Dashboard.after(Err(fault)) == QcDataState::Done(Err(fault)),
        widgets_in(dashboard) is Err ==> QcDataState::Dashboard.after(Ok(dashboard))
            == QcDataState::Done(Err(widgets_in(dashboard)->Err_0)),
        widgets_in(dashboard) is Ok ==> {
            let found = widgets_in(dashboard)->Ok_0;
            let state = QcDataState::Dashboard.after(Ok(dashboard));
            &&& found.len() == 0 ==> state is Done && state->Done_0 is Ok
                && state->Done_0->Ok_0.status == Map::<Seq<char>, u64>::empty()
                && state->Done_0->Ok_0.energy == Map::<Seq<char>, u64>::empty()
            &&& found.len() > 0 && chart_request(found[0]) is Err ==> state == QcDataState::Done(
                Err(chart_request(found[0])->Err_0),
            )
        },
        ({
            let state = (QcDataState::Charts { widgets, next, data }).after(Ok(chart));
            let read = with_chart(data, chart, widgets[next as int].title);
            &&& next + 1 == widgets.len() ==> state == QcDataState::Done(Ok(read))
            &&& next + 1 < widgets.len() && chart_request(widgets[next + 1 as int]) is Ok ==> state
                == (QcDataState::Charts { widgets, next: next + 1, data: read })
            &&& next + 1 < widgets.len() && chart_request(widgets[next + 1 as int]) is Err ==> state
                == QcDataState::Done(Err(chart_request(widgets[next + 1 as int])->Err_0))
        }),
        chart_request(widgets[next as int]) is Ok ==> (QcDataState::Charts {
            widgets,
            next,
            data,
        }).call() == Some(
            Call::Post { path: "/h/chart"@, body: chart_request(widgets[next as int])->Ok_0 },
        ),
        (QcDataState::Charts { widgets, next, data }).after(Err(fault)) == QcDataState::Done(
            Err(fault),
        ),
{
}

/// How a schedule is fetched: the type of the device, and then the schedule under the device
/// and its type. What goes wrong on the way is the result, and what is done stays done.
pub proof fn law_schedule_steps(
    client: Client,
    device: Seq<char>,
    enchwt: Seq<char>,
    document: Json,
    result: Result<DailySchedule, Fault>,
    answer: Result<Json, Fault>,
    fault: Fault,
)
    ensures
        client.device_id is None ==> client.schedule_wanted() == ScheduleState::Device,
        client.device_id == Some(device) ==> client.schedule_wanted() == (ScheduleState::Hardware {
            device,
        }),
        ScheduleState::Device.call() == Some(Call::Get { path: "/s/dashboard"@ }),
        device_in(document) == Ok::<Seq<char>, Fault>(device) ==> ScheduleState::Device.after(
            Ok(document),
        ) == (ScheduleState::Hardware { device }),
        device_in(document) is Err ==> ScheduleState::Device.after(Ok(document))
            == ScheduleState::Done(Err(device_in(document)->Err_0)),
        ScheduleState::Device.after(Err(fault)) == ScheduleState::Done(Err(fault)),
        (ScheduleState::Hardware { device }).call() == Some(
            Call::Post { path: "/h/ds"@, body: hardware_query(device) },
        ),
        enchwt_in(document) == Ok::<Seq<char>, Fault>(enchwt) ==> (ScheduleState::Hardware {
            device,
        }).after(Ok(document)) == (ScheduleState::Schedule { device, enchwt }),
        enchwt_in(document) is Err ==> (ScheduleState::Hardware { device }).after(Ok(document))
            == ScheduleState::Done(Err(enchwt_in(document)->Err_0)),
        (ScheduleState::Hardware { device }).after(Err(fault)) == ScheduleState::Done(Err(fault)),
        (ScheduleState::Schedule { device, enchwt }).call() == Some(
            Call::Get {
                path: "/h/devices/"@ + device + "/widgets/dailysched?enchwt="@ + enchwt,
            },
        ),
        (ScheduleState::Schedule { device, enchwt }).after(Ok(document)) == ScheduleState::Done(
            schedule_in(document),
        ),
        (ScheduleState::Schedule { device, enchwt }).after(Err(fault)) == ScheduleState::Done(
            Err(fault),
        ),
        ScheduleState::Done(result).call() is None,
        ScheduleState::Done(result).after(answer) == ScheduleState::Done(result),
{
}

/// How a schedule is written: all of it is posted under the device. What the service answers
/// is the result, and what is done stays done.
pub proof fn law_write_steps(
    client: Client,
    config: DailySchedule,
    device: Seq<char>,
    body: Json,
    dashboard: Json,
    answer: Result<Json, Fault>,
    result: Result<Json, Fault>,
    fault: Fault,
)
    ensures
        client.device_id is None ==> client.write_wanted(config) == (WriteState::Device {
            body: Json::Object(schedule_settings(config)),
        }),
        client.device_id == Some(device) ==> client.write_wanted(config) == (WriteState::Send {
            device,
            body: Json::Object(schedule_settings(config)),
        }),
        (WriteState::Device { body }).call() == Some(Call::Get { path: "/s/dashboard"@ }),
        device_in(dashboard) == Ok::<Seq<char>, Fault>(device) ==> (WriteState::Device {
            body,
        }).after(Ok(dashboard)) == (WriteState::Send { device, body }),
        device_in(dashboard) is Err ==> (WriteState::Device { body }).after(Ok(dashboard))
            == WriteState::Done(Err(device_in(dashboard)->Err_0)),
        (WriteState::Device { body }).after(Err(fault)) == WriteState::Done(Err(fault)),
        (WriteState::Send { device, body }).call() == Some(
            Call::Post { path: "/h/devices/"@ + device + "/solt/daysched"@, body },
        ),
        (WriteState::Send { device, body }).after(answer) == WriteState::Done(answer),
        WriteState::Done(result).call() is None,
        WriteState::Done(result).after(answer) == WriteState::Done(result),
{
}

/// A successful answer is its document. Any other is an error with its status, what the
/// standards call it, and its text. One that could not be had is what went wrong.
pub proof fn law_replies(value: serde_json::Value, status: u16, body: String, error: AppError)
    ensures
        Reply::Success(value).outcome() == Ok::<Json, Fault>(json_of(value)),
        (Reply::Failure { status, body }).outcome() == Err::<Json, Fault>(
            Fault::QcoreApi(
                decimal(status as nat) + " "@ + (match reason_phrase(status) {
                    Some(words) => words,
                    None => Seq::empty(),
                }) + ": "@ + body@,
            ),
        ),
        Reply::Broken(error).outcome() == Err::<Json, Fault>(error@),
{
    reveal_strlit("");
    assert(""@ =~= Seq::<char>::empty());
}

/// The headers of every request, each with what it says.
pub proof fn law_headers()
    ensures
        default_fields() == seq![
            ("origin"@, "https://www.qendercore.com"@),
            ("referer"@, "https://www.qendercore.com"@),
            ("accept"@, "application/json"@),
            ("accept-language"@, "en-US,en;q=0.5"@),
            ("cache-control"@, "no-cache"@),
            ("pragma"@, "no-cache"@),
            ("sec-fetch-dest"@, "empty"@),
            ("sec-fetch-mode"@, "cors"@),
            ("sec-fetch-site"@, "same-site"@),
            ("sec-gpc"@, "1"@),
            ("x-qc-client-seq"@, "W.1.1"@),
        ],
        USER_AGENT@ == "Mozilla/5.0 (X11; Linux x86_64; rv:124.0) Gecko/20100101 Firefox/124.0"@,
        POOL_IDLE_SECONDS == 90,
        TOKEN_FILE_NAME@ == "token.json"@,
{
}

/// Of each header that a list sets, the last one with its name says what it is; a header that
/// the list does not set is not there.
pub proof fn law_headers_set(list: Seq<(Seq<char>, Seq<char>)>, at: int, name: Seq<char>)
    ensures
        0 <= at < list.len() && list[at].0 == name && (forall|i: int|
            at < i < list.len() ==> (#[trigger] list[i]).0 != name) ==> {
            &&& fields_of(list).dom().contains(name)
            &&& fields_of(list)[name] == list[at].1
        },
        (forall|i: int| 0 <= i < list.len() ==> (#[trigger] list[i]).0 != name) ==> !fields_of(
            list,
        ).dom().contains(name),
    decreases list.len(),
{
    if list.len() > 0 {
        let rest = list.drop_last();
        law_headers_set(rest, at, name);
        assert(forall|i: int| 0 <= i < rest.len() ==> #[trigger] rest[i] == list[i]);
        let last = list[list.len() - 1];
        if last.0 != name {
            assert(fields_of(list).dom().contains(name) == fields_of(rest).dom().contains(name));
        }
    }
}

/// A header may say anything but control characters, the tab among them; its name is made of
/// small letters, digits and hyphens.
pub proof fn law_header_texts(text: Seq<char>)
    ensures
        valid_header_value(text) <==> forall|i: int|
            0 <= i < text.len() ==> (#[trigger] text[i] as int == 9 || (text[i] as int >= 32
                && text[i] as int != 127)),
        valid_header_name(text) <==> (0 < text.len() < 65_536 && forall|i: int|
            0 <= i < text.len() ==> (97 <= #[trigger] text[i] as int <= 122 || 48 <= text[i] as int
                <= 57 || text[i] == '-')),
{
}

}
