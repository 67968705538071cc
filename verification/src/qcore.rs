//! The client of the service: which requests it makes, with which token, and what it makes
//! of the answers.
use serde_json::Value;
use vstd::prelude::*;
use vstd::string::StringExecFns;

use crate::config::{optional, QcoreConfig};
use crate::dashboard::{
    chart_request, device_in, enchwt_in, extract_enchwt, hardware_query, hardware_request, widgets_in,
    widgets_of, with_chart, Widget,
};
use crate::error::{AppError, AppResult, Fault};
use crate::http::{
    default_fields, default_headers, fields_of, headers_of, json_outcome, plain_outcome, text_outcome,
    HttpSettings, Reply, POOL_IDLE_SECONDS, USER_AGENT,
};
use crate::json::{compact, compact_text, field, json_of, member, Json};
use crate::model::{no_data, DailySchedule, DailyScheduleConfig, Data, QcData};
use crate::schedule::{schedule_body, schedule_in, schedule_settings};
use crate::text::{contains, occurs};
use crate::time::{TimeSpan, NANOS_PER_SECOND};

pub use crate::dashboard::{
    build_chart_request, collect_widgets, extract_chart_into, extract_device_id, normalize_key,
    DashboardWidget,
};
pub use crate::schedule::parse_daily_schedule;

verus! {

broadcast use vstd::string::group_string_axioms;

/// The file in the cache directory that keeps the token.
pub const TOKEN_FILE_NAME: &'static str = "token.json";

/// The client of the service: the account, the token that was found good last, and the
/// device once it is known.
pub struct QcoreClient {
    config: QcoreConfig,
    token: Option<String>,
    device_id: Option<String>,
}

/// The client of the service by its texts.
#[verifier::ext_equal]
pub struct Client {
    pub api_url: Seq<char>,
    pub login: Seq<char>,
    pub password: Seq<char>,
    pub token: Option<Seq<char>>,
    pub device_id: Option<Seq<char>>,
}

impl View for QcoreClient {
    type V = Client;

    closed spec fn view(&self) -> Client {
        Client {
            api_url: self.config.api_url@,
            login: self.config.login@,
            password: self.config.password@,
            token: optional(self.token),
            device_id: optional(self.device_id),
        }
    }
}

impl QcoreClient {
    /// A client that knows neither a token nor the device, and how its HTTP client is set
    /// up.
    pub fn new(config: QcoreConfig) -> (result: AppResult<(QcoreClient, HttpSettings)>)
        ensures
            result is Ok,
            result->Ok_0.0@ == (Client {
                api_url: config.api_url@,
                login: config.login@,
                password: config.password@,
                token: None,
                device_id: None,
            }),
            result->Ok_0.1.user_agent@ == USER_AGENT@,
            headers_of(result->Ok_0.1.headers) == fields_of(default_fields()),
            result->Ok_0.1.timeout == config.http_timeout,
            result->Ok_0.1.pool_idle_timeout@ == POOL_IDLE_SECONDS * NANOS_PER_SECOND,
    {
        match default_headers() {
            Ok(headers) => {
                let settings = HttpSettings {
                    user_agent: USER_AGENT,
                    headers,
                    timeout: config.http_timeout,
                    pool_idle_timeout: TimeSpan::from_secs(POOL_IDLE_SECONDS),
                };
                Ok((QcoreClient { config, token: None, device_id: None }, settings))
            },
            Err(error) => Err(error),
        }
    }
}

/// A call of the service.
#[derive(Debug)]
pub enum ApiCall {
    Get { path: String },
    Post { path: String, body: Value },
}

/// A call of the service by what it says.
pub enum Call {
    Get { path: Seq<char> },
    Post { path: Seq<char>, body: Json },
}

impl View for ApiCall {
    type V = Call;

    open spec fn view(&self) -> Call {
        match self {
            ApiCall::Get { path } => Call::Get { path: path@ },
            ApiCall::Post { path, body } => Call::Post { path: path@, body: json_of(*body) },
        }
    }
}

/// A request that carries the token. It has a body where something is sent.
#[derive(Debug)]
pub struct AuthorizedRequest {
    url: String,
    body: Option<String>,
    retried: bool,
}

/// A request by what it says, and whether it is made for the second time.
#[verifier::ext_equal]
pub struct Exchange {
    pub url: Seq<char>,
    pub body: Option<Seq<char>>,
    pub retried: bool,
}

impl View for AuthorizedRequest {
    type V = Exchange;

    closed spec fn view(&self) -> Exchange {
        Exchange { url: self.url@, body: optional(self.body), retried: self.retried }
    }
}

impl AuthorizedRequest {
    /// Where the request goes.
    pub fn url(&self) -> (url: &str)
        ensures
            url@ == self@.url,
    {
        self.url.as_str()
    }

    /// What the request sends: a JSON text, or nothing.
    pub fn body(&self) -> (body: Option<&str>)
        ensures
            match body {
                Some(text) => self@.body == Some(text@),
                None => self@.body is None,
            },
    {
        match &self.body {
            Some(text) => Some(text.as_str()),
            None => None,
        }
    }
}

/// What follows an attempt: the request is made once more, or this was its result.
#[derive(Debug)]
pub enum Attempt {
    Again(AuthorizedRequest),
    Done(AppResult<Value>),
}

/// Whether a result says that the token was not accepted.
pub open spec fn token_refused(result: Result<Json, Fault>) -> bool {
    match result {
        Err(Fault::QcoreApi(words)) => occurs(words, "401"@),
        _ => false,
    }
}

impl Client {
    /// The request that makes a call.
    pub open spec fn exchange(self, call: Call) -> Exchange {
        match call {
            Call::Get { path } => Exchange {
                url: self.api_url + path,
                body: None,
                retried: false,
            },
            Call::Post { path, body } => Exchange {
                url: self.api_url + path,
                body: Some(compact_text(body)),
                retried: false,
            },
        }
    }

    /// Whether a request is made once more after a result.
    pub open spec fn tries_again(self, exchange: Exchange, result: Result<Json, Fault>) -> bool {
        !exchange.retried && token_refused(result)
    }
}

impl QcoreClient {
    /// The request that reads from a path.
    pub fn authorized_get(&self, path: &str) -> (request: AuthorizedRequest)
        ensures
            request@ == self@.exchange(Call::Get { path: path@ }),
    {
        AuthorizedRequest {
            url: self.config.api_url.clone().concat(path),
            body: None,
            retried: false,
        }
    }

    /// The request that sends a document to a path.
    pub fn authorized_post_json(&self, path: &str, body: &Value) -> (request: AuthorizedRequest)
        ensures
            request@ == self@.exchange(Call::Post { path: path@, body: json_of(*body) }),
    {
        AuthorizedRequest {
            url: self.config.api_url.clone().concat(path),
            body: Some(compact(body)),
            retried: false,
        }
    }

    /// The request that makes a call.
    pub fn request(&self, call: &ApiCall) -> (request: AuthorizedRequest)
        ensures
            request@ == self@.exchange(call@),
    {
        match call {
            ApiCall::Get { path } => self.authorized_get(path.as_str()),
            ApiCall::Post { path, body } => self.authorized_post_json(path.as_str(), body),
        }
    }

    /// What follows an attempt. The first time that the token is not accepted it is
    /// forgotten, and the request is made once more.
    pub fn settle(&mut self, request: AuthorizedRequest, result: AppResult<Value>) -> (attempt:
        Attempt)
        ensures
            match attempt {
                Attempt::Again(again) => {
                    &&& old(self)@.tries_again(request@, json_outcome(result))
                    &&& again@ == (Exchange { retried: true, ..request@ })
                    &&& final(self)@ == (Client { token: None, ..old(self)@ })
                },
                Attempt::Done(settled) => {
                    &&& !old(self)@.tries_again(request@, json_outcome(result))
                    &&& settled == result
                    &&& final(self)@ == old(self)@
                },
            },
    {
        let refused = match &result {
            Err(AppError::QcoreApi(message)) => contains(message.as_str(), "401"),
            _ => false,
        };
        if refused && !request.retried {
            self.invalidate_token();
            Attempt::Again(
                AuthorizedRequest { url: request.url, body: request.body, retried: true },
            )
        } else {
            Attempt::Done(result)
        }
    }

    /// Forgets the token.
    pub fn invalidate_token(&mut self)
        ensures
            final(self)@ == (Client { token: None, ..old(self)@ }),
    {
        self.token = None;
    }
}

/// How a token is found: what is to be done next.
#[derive(Debug)]
pub enum TokenStep {
    /// The token file is read.
    ReadFile,
    /// The service is asked about a token.
    Validate { token: String },
    /// The service is asked for a new token.
    Login,
    /// A new token is written to the token file.
    Store { token: String },
    /// The token, or why there is none.
    Done(AppResult<String>),
}

/// How a token is found, by the characters of the token.
pub enum TokenState {
    ReadFile,
    Validate { token: Seq<char> },
    Login,
    Store { token: Seq<char> },
    Done(Result<Seq<char>, Fault>),
}

impl View for TokenStep {
    type V = TokenState;

    open spec fn view(&self) -> TokenState {
        match self {
            TokenStep::ReadFile => TokenState::ReadFile,
            TokenStep::Validate { token } => TokenState::Validate { token: token@ },
            TokenStep::Login => TokenState::Login,
            TokenStep::Store { token } => TokenState::Store { token: token@ },
            TokenStep::Done(result) => TokenState::Done(text_outcome(*result)),
        }
    }
}

/// Whether the service knows the account of a token.
pub open spec fn token_accepted(reply: Result<Json, Fault>) -> bool {
    match reply {
        Ok(account) => member(account, "uid"@) is Some,
        Err(_) => false,
    }
}

impl Client {
    /// A token that is in use is used again.
    pub open spec fn token_wanted(self) -> TokenState {
        match self.token {
            Some(token) => TokenState::Done(Ok(token)),
            None => TokenState::ReadFile,
        }
    }

    /// A token of the file is asked about; without one there must be a new one.
    pub open spec fn file_read(self, found: Option<Seq<char>>) -> TokenState {
        match found {
            Some(token) => TokenState::Validate { token },
            None => TokenState::Login,
        }
    }

    /// A token that is accepted is used; otherwise there must be a new one.
    pub open spec fn validated(self, token: Seq<char>, accepted: bool) -> (Client, TokenState) {
        if accepted {
            (Client { token: Some(token), ..self }, TokenState::Done(Ok(token)))
        } else {
            (self, TokenState::Login)
        }
    }

    /// A new token is stored.
    pub open spec fn logged_in(self, result: Result<Seq<char>, Fault>) -> TokenState {
        match result {
            Ok(token) => TokenState::Store { token },
            Err(fault) => TokenState::Done(Err(fault)),
        }
    }

    /// A new token is used once it is stored.
    pub open spec fn stored(self, token: Seq<char>, result: Result<(), Fault>) -> (
        Client,
        TokenState,
    ) {
        match result {
            Ok(_) => (Client { token: Some(token), ..self }, TokenState::Done(Ok(token))),
            Err(fault) => (self, TokenState::Done(Err(fault))),
        }
    }
}

impl QcoreClient {
    /// Where a token is asked about.
    pub fn account_url(&self) -> (url: String)
        ensures
            url@ == self@.api_url + "/s/accountinfo"@,
    {
        self.config.api_url.clone().concat("/s/accountinfo")
    }

    /// Where a new token is asked for.
    pub fn login_url(&self) -> (url: String)
        ensures
            url@ == self@.api_url + "/auth/login"@,
    {
        self.config.api_url.clone().concat("/auth/login")
    }

    /// The form with which a new token is asked for.
    pub fn login_form(&self) -> (form: [(&'static str, &str); 2])
        ensures
            form@[0].0@ == "username"@,
            form@[0].1@ == self@.login,
            form@[1].0@ == "password"@,
            form@[1].1@ == self@.password,
    {
        [("username", self.config.login.as_str()), ("password", self.config.password.as_str())]
    }

    /// A token is wanted: how it is found.
    pub fn get_token(&self) -> (step: TokenStep)
        ensures
            step@ == self@.token_wanted(),
    {
        match &self.token {
            Some(token) => TokenStep::Done(Ok(token.clone())),
            None => TokenStep::ReadFile,
        }
    }

    /// The token file was read: it holds a token or not.
    pub fn token_file_read(&self, found: Option<String>) -> (step: TokenStep)
        ensures
            step@ == self@.file_read(optional(found)),
    {
        match found {
            Some(token) => TokenStep::Validate { token },
            None => TokenStep::Login,
        }
    }

    /// Whether the service knows the account of the token that it was asked about.
    pub fn validate_token(reply: &Reply) -> (accepted: bool)
        ensures
            accepted == token_accepted(reply.outcome()),
    {
        match reply {
            Reply::Success(account) => field(account, "uid").is_some(),
            Reply::Failure { status, body } => false,
            Reply::Broken(error) => false,
        }
    }

    /// The service was asked about a token.
    pub fn token_validated(&mut self, token: String, reply: &Reply) -> (step: TokenStep)
        ensures
            (final(self)@, step@) == old(self)@.validated(token@, token_accepted(reply.outcome())),
    {
        if QcoreClient::validate_token(reply) {
            self.token = Some(token.clone());
            TokenStep::Done(Ok(token))
        } else {
            TokenStep::Login
        }
    }

    /// The service was asked for a new token.
    pub fn logged_in(&self, result: AppResult<String>) -> (step: TokenStep)
        ensures
            step@ == self@.logged_in(text_outcome(result)),
    {
        match result {
            Ok(token) => TokenStep::Store { token },
            Err(error) => TokenStep::Done(Err(error)),
        }
    }

    /// A new token was written to the token file.
    pub fn token_stored(&mut self, token: String, result: AppResult<()>) -> (step: TokenStep)
        ensures
            (final(self)@, step@) == old(self)@.stored(token@, plain_outcome(result)),
    {
        match result {
            Ok(()) => {
                self.token = Some(token.clone());
                TokenStep::Done(Ok(token))
            },
            Err(error) => TokenStep::Done(Err(error)),
        }
    }
}

/// Where the dashboard is read.
pub open spec fn dashboard_call() -> Call {
    Call::Get { path: "/s/dashboard"@ }
}

fn ask_dashboard() -> (call: ApiCall)
    ensures
        call@ == dashboard_call(),
{
    ApiCall::Get { path: "/s/dashboard".to_string() }
}

/// How the device is found: it is known, or the dashboard is asked.
#[derive(Debug)]
pub enum DeviceStep {
    Known(String),
    Ask(ApiCall),
}

/// The device that an answer of the dashboard shows.
pub open spec fn device_answer(answer: Result<Json, Fault>) -> Result<Seq<char>, Fault> {
    match answer {
        Ok(dashboard) => device_in(dashboard),
        Err(fault) => Err(fault),
    }
}

impl Client {
    /// The client once the dashboard was asked for the device.
    pub open spec fn device_told(self, answer: Result<Json, Fault>) -> Client {
        match device_answer(answer) {
            Ok(device) => Client { device_id: Some(device), ..self },
            Err(_) => self,
        }
    }
}

impl QcoreClient {
    /// The device is wanted: how it is found.
    pub fn get_device_id(&self) -> (step: DeviceStep)
        ensures
            match step {
                DeviceStep::Known(device) => self@.device_id == Some(device@),
                DeviceStep::Ask(call) => self@.device_id is None && call@ == dashboard_call(),
            },
    {
        match &self.device_id {
            Some(device) => DeviceStep::Known(device.clone()),
            None => DeviceStep::Ask(ask_dashboard()),
        }
    }

    /// The dashboard was asked for the device, which is known from now on.
    pub fn device_answered(&mut self, answer: AppResult<Value>) -> (result: AppResult<String>)
        ensures
            text_outcome(result) == device_answer(json_outcome(answer)),
            final(self)@ == old(self)@.device_told(json_outcome(answer)),
    {
        match answer {
            Ok(dashboard) => match extract_device_id(&dashboard) {
                Ok(device) => {
                    self.device_id = Some(device.clone());
                    Ok(device)
                },
                Err(error) => Err(error),
            },
            Err(error) => Err(error),
        }
    }
}

/// The charts of the dashboard that were read, and the one that is asked for next.
#[derive(Debug)]
pub struct ChartRun {
    widgets: Vec<DashboardWidget>,
    next: usize,
    request: Value,
    data: QcData,
}

impl ChartRun {
    #[verifier::type_invariant]
    spec fn asks(self) -> bool {
        &&& self.next < self.widgets@.len()
        &&& chart_request(self.widgets@[self.next as int]@) == Ok::<Json, Fault>(
            json_of(self.request),
        )
    }

    closed spec fn state(self) -> QcDataState {
        QcDataState::Charts {
            widgets: widgets_of(self.widgets@),
            next: self.next as nat,
            data: self.data@,
        }
    }
}

/// How the readings are fetched: what is asked for next.
#[derive(Debug)]
pub enum QcDataStep {
    Dashboard,
    Charts(ChartRun),
    Done(AppResult<QcData>),
}

/// How the readings are fetched, by what was read.
pub enum QcDataState {
    Dashboard,
    Charts { widgets: Seq<Widget>, next: nat, data: Data },
    Done(Result<Data, Fault>),
}

/// Readings or an error, by what they hold.
pub open spec fn data_outcome(result: AppResult<QcData>) -> Result<Data, Fault> {
    match result {
        Ok(data) => Ok(data@),
        Err(error) => Err(error@),
    }
}

impl View for QcDataStep {
    type V = QcDataState;

    closed spec fn view(&self) -> QcDataState {
        match self {
            QcDataStep::Dashboard => QcDataState::Dashboard,
            QcDataStep::Charts(run) => run.state(),
            QcDataStep::Done(result) => QcDataState::Done(data_outcome(*result)),
        }
    }
}

/// The turn of a widget: its chart is asked for, or it cannot be. Behind the last one the
/// readings are complete.
pub open spec fn chart_turn(widgets: Seq<Widget>, next: nat, data: Data) -> QcDataState {
    if next >= widgets.len() {
        QcDataState::Done(Ok(data))
    } else {
        match chart_request(widgets[next as int]) {
            Ok(_) => QcDataState::Charts { widgets, next, data },
            Err(fault) => QcDataState::Done(Err(fault)),
        }
    }
}

impl QcDataState {
    /// What is asked for.
    pub open spec fn call(self) -> Option<Call> {
        match self {
            QcDataState::Dashboard => Some(dashboard_call()),
            QcDataState::Charts { widgets, next, data } => match chart_request(
                widgets[next as int],
            ) {
                Ok(body) => Some(Call::Post { path: "/h/chart"@, body }),
                Err(_) => None,
            },
            QcDataState::Done(_) => None,
        }
    }

    /// What follows an answer.
    pub open spec fn after(self, answer: Result<Json, Fault>) -> QcDataState {
        match (self, answer) {
            (QcDataState::Dashboard, Ok(dashboard)) => match widgets_in(dashboard) {
                Ok(widgets) => chart_turn(widgets, 0, no_data()),
                Err(fault) => QcDataState::Done(Err(fault)),
            },
            (QcDataState::Charts { widgets, next, data }, Ok(chart)) => chart_turn(
                widgets,
                next + 1,
                with_chart(data, chart, widgets[next as int].title),
            ),
            (QcDataState::Done(result), _) => QcDataState::Done(result),
            (_, Err(fault)) => QcDataState::Done(Err(fault)),
        }
    }
}

/// The turn of a widget.
fn take_turn(widgets: Vec<DashboardWidget>, next: usize, data: QcData) -> (step: QcDataStep)
    requires
        next <= widgets.len(),
    ensures
        step@ == chart_turn(widgets_of(widgets@), next as nat, data@),
{
    if next >= widgets.len() {
        return QcDataStep::Done(Ok(data));
    }
    match build_chart_request(&widgets[next]) {
        Ok(request) => QcDataStep::Charts(ChartRun { widgets, next, request, data }),
        Err(error) => QcDataStep::Done(Err(error)),
    }
}

impl QcDataStep {
    /// What is asked for.
    pub fn call(&self) -> (call: Option<ApiCall>)
        ensures
            match call {
                Some(call) => self@.call() == Some(call@),
                None => self@.call() is None,
            },
    {
        match self {
            QcDataStep::Dashboard => Some(ask_dashboard()),
            QcDataStep::Charts(run) => {
                proof {
                    use_type_invariant(run);
                }
                Some(ApiCall::Post { path: "/h/chart".to_string(), body: run.request.clone() })
            },
            QcDataStep::Done(_) => None,
        }
    }

    /// What follows an answer.
    pub fn advance(self, answer: AppResult<Value>) -> (step: QcDataStep)
        ensures
            step@ == self@.after(json_outcome(answer)),
    {
        match self {
            QcDataStep::Dashboard => match answer {
                Ok(dashboard) => match collect_widgets(&dashboard) {
                    Ok(widgets) => take_turn(widgets, 0, QcData::new()),
                    Err(error) => QcDataStep::Done(Err(error)),
                },
                Err(error) => QcDataStep::Done(Err(error)),
            },
            QcDataStep::Charts(run) => {
                proof {
                    use_type_invariant(&run);
                }
                match answer {
                    Ok(chart) => {
                        let count: usize = run.widgets.len();
                        assert(run.next < count);
                        let mut data = run.data;
                        extract_chart_into(&chart, run.widgets[run.next].title.as_str(), &mut data);
                        take_turn(run.widgets, run.next + 1, data)
                    },
                    Err(error) => QcDataStep::Done(Err(error)),
                }
            },
            QcDataStep::Done(result) => QcDataStep::Done(result),
        }
    }
}

impl QcoreClient {
    /// The readings are wanted: how they are fetched.
    pub fn fetch_qc_data(&self) -> (step: QcDataStep)
        ensures
            step@ == QcDataState::Dashboard,
    {
        QcDataStep::Dashboard
    }
}

/// How the schedule is fetched: what is asked for next.
#[derive(Debug)]
pub enum ScheduleStep {
    /// The dashboard is asked for the device.
    Device,
    /// The service is asked for the type of the device.
    Hardware { device_id: String },
    /// The service is asked for the schedule.
    Schedule { device_id: String, enchwt: String },
    /// The schedule, or why there is none.
    Done(AppResult<DailyScheduleConfig>),
}

/// How the schedule is fetched, by what was read.
pub enum ScheduleState {
    Device,
    Hardware { device: Seq<char> },
    Schedule { device: Seq<char>, enchwt: Seq<char> },
    Done(Result<DailySchedule, Fault>),
}

/// A schedule or an error, by what it holds.
pub open spec fn schedule_outcome(result: AppResult<DailyScheduleConfig>) -> Result<
    DailySchedule,
    Fault,
> {
    match result {
        Ok(config) => Ok(config@),
        Err(error) => Err(error@),
    }
}

impl View for ScheduleStep {
    type V = ScheduleState;

    open spec fn view(&self) -> ScheduleState {
        match self {
            ScheduleStep::Device => ScheduleState::Device,
            ScheduleStep::Hardware { device_id } => ScheduleState::Hardware { device: device_id@ },
            ScheduleStep::Schedule { device_id, enchwt } => ScheduleState::Schedule {
                device: device_id@,
                enchwt: enchwt@,
            },
            ScheduleStep::Done(result) => ScheduleState::Done(schedule_outcome(*result)),
        }
    }
}

/// Where the schedule of a device is read.
pub open spec fn schedule_path(device: Seq<char>, enchwt: Seq<char>) -> Seq<char> {
    "/h/devices/"@ + device + "/widgets/dailysched?enchwt="@ + enchwt
}

impl ScheduleState {
    /// What is asked for.
    pub open spec fn call(self) -> Option<Call> {
        match self {
            ScheduleState::Device => Some(dashboard_call()),
            ScheduleState::Hardware { device } => Some(
                Call::Post { path: "/h/ds"@, body: hardware_query(device) },
            ),
            ScheduleState::Schedule { device, enchwt } => Some(
                Call::Get { path: schedule_path(device, enchwt) },
            ),
            ScheduleState::Done(_) => None,
        }
    }

    /// What follows an answer.
    pub open spec fn after(self, answer: Result<Json, Fault>) -> ScheduleState {
        match (self, answer) {
            (ScheduleState::Device, _) => match device_answer(answer) {
                Ok(device) => ScheduleState::Hardware { device },
                Err(fault) => ScheduleState::Done(Err(fault)),
            },
            (ScheduleState::Hardware { device }, Ok(hardware)) => match enchwt_in(hardware) {
                Ok(enchwt) => ScheduleState::Schedule { device, enchwt },
                Err(fault) => ScheduleState::Done(Err(fault)),
            },
            (ScheduleState::Schedule { device, enchwt }, Ok(schedule)) => ScheduleState::Done(
                schedule_in(schedule),
            ),
            (ScheduleState::Done(result), _) => ScheduleState::Done(result),
            (_, Err(fault)) => ScheduleState::Done(Err(fault)),
        }
    }
}

impl Client {
    /// The schedule is wanted: a device that is known is not asked for.
    pub open spec fn schedule_wanted(self) -> ScheduleState {
        match self.device_id {
            Some(device) => ScheduleState::Hardware { device },
            None => ScheduleState::Device,
        }
    }
}

impl ScheduleStep {
    /// What is asked for.
    pub fn call(&self) -> (call: Option<ApiCall>)
        ensures
            match call {
                Some(call) => self@.call() == Some(call@),
                None => self@.call() is None,
            },
    {
        match self {
            ScheduleStep::Device => Some(ask_dashboard()),
            ScheduleStep::Hardware { device_id } => Some(
                ApiCall::Post { path: "/h/ds".to_string(), body: hardware_request(device_id.as_str()) },
            ),
            ScheduleStep::Schedule { device_id, enchwt } => {
                let mut path = "/h/devices/".to_string();
                path.append(device_id.as_str());
                path.append("/widgets/dailysched?enchwt=");
                path.append(enchwt.as_str());
                Some(ApiCall::Get { path })
            },
            ScheduleStep::Done(_) => None,
        }
    }
}

impl QcoreClient {
    /// The schedule is wanted: how it is fetched.
    pub fn fetch_daily_schedule(&self) -> (step: ScheduleStep)
        ensures
            step@ == self@.schedule_wanted(),
    {
        match self.get_device_id() {
            DeviceStep::Known(device_id) => ScheduleStep::Hardware { device_id },
            DeviceStep::Ask(_) => ScheduleStep::Device,
        }
    }

    /// What follows an answer while the schedule is fetched.
    pub fn schedule_answered(&mut self, step: ScheduleStep, answer: AppResult<Value>) -> (next:
        ScheduleStep)
        ensures
            next@ == step@.after(json_outcome(answer)),
            final(self)@ == (if step@ is Device {
                old(self)@.device_told(json_outcome(answer))
            } else {
                old(self)@
            }),
    {
        match step {
            ScheduleStep::Device => match self.device_answered(answer) {
                Ok(device_id) => ScheduleStep::Hardware { device_id },
                Err(error) => ScheduleStep::Done(Err(error)),
            },
            ScheduleStep::Hardware { device_id } => match answer {
                Ok(hardware) => match extract_enchwt(&hardware) {
                    Ok(enchwt) => ScheduleStep::Schedule { device_id, enchwt },
                    Err(error) => ScheduleStep::Done(Err(error)),
                },
                Err(error) => ScheduleStep::Done(Err(error)),
            },
            ScheduleStep::Schedule { device_id, enchwt } => match answer {
                Ok(schedule) => ScheduleStep::Done(parse_daily_schedule(&schedule)),
                Err(error) => ScheduleStep::Done(Err(error)),
            },
            ScheduleStep::Done(result) => ScheduleStep::Done(result),
        }
    }
}

/// How a schedule is written: what is asked for next.
#[derive(Debug)]
pub enum WriteStep {
    /// The dashboard is asked for the device.
    Device { body: Value },
    /// The service is told the schedule.
    Send { device_id: String, body: Value },
    /// What the service answered, or why the schedule was not written.
    Done(AppResult<Value>),
}

/// How a schedule is written, by what is sent.
pub enum WriteState {
    Device { body: Json },
    Send { device: Seq<char>, body: Json },
    Done(Result<Json, Fault>),
}

impl View for WriteStep {
    type V = WriteState;

    open spec fn view(&self) -> WriteState {
        match self {
            WriteStep::Device { body } => WriteState::Device { body: json_of(*body) },
            WriteStep::Send { device_id, body } => WriteState::Send {
                device: device_id@,
                body: json_of(*body),
            },
            WriteStep::Done(result) => WriteState::Done(json_outcome(*result)),
        }
    }
}

/// Where the schedule of a device is written.
pub open spec fn write_path(device: Seq<char>) -> Seq<char> {
    "/h/devices/"@ + device + "/solt/daysched"@
}

impl WriteState {
    /// What is asked for.
    pub open spec fn call(self) -> Option<Call> {
        match self {
            WriteState::Device { body } => Some(dashboard_call()),
            WriteState::Send { device, body } => Some(Call::Post { path: write_path(device), body }),
            WriteState::Done(_) => None,
        }
    }

    /// What follows an answer.
    pub open spec fn after(self, answer: Result<Json, Fault>) -> WriteState {
        match self {
            WriteState::Device { body } => match device_answer(answer) {
                Ok(device) => WriteState::Send { device, body },
                Err(fault) => WriteState::Done(Err(fault)),
            },
            WriteState::Send { device, body } => WriteState::Done(answer),
            WriteState::Done(result) => WriteState::Done(result),
        }
    }
}

impl Client {
    /// A schedule is to be written: a device that is known is not asked for.
    pub open spec fn write_wanted(self, config: DailySchedule) -> WriteState {
        let body = Json::Object(schedule_settings(config));
        match self.device_id {
            Some(device) => WriteState::Send { device, body },
            None => WriteState::Device { body },
        }
    }
}

impl WriteStep {
    /// What is asked for.
    pub fn call(&self) -> (call: Option<ApiCall>)
        ensures
            match call {
                Some(call) => self@.call() == Some(call@),
                None => self@.call() is None,
            },
    {
        match self {
            WriteStep::Device { body } => Some(ask_dashboard()),
            WriteStep::Send { device_id, body } => {
                let mut path = "/h/devices/".to_string();
                path.append(device_id.as_str());
                path.append("/solt/daysched");
                Some(ApiCall::Post { path, body: body.clone() })
            },
            WriteStep::Done(_) => None,
        }
    }
}

impl QcoreClient {
    /// A schedule is to be written: how that is done.
    pub fn set_daily_schedule(&self, config: &DailyScheduleConfig) -> (step: WriteStep)
        ensures
            step@ == self@.write_wanted(config@),
    {
        let body = schedule_body(config);
        match self.get_device_id() {
            DeviceStep::Known(device_id) => WriteStep::Send { device_id, body },
            DeviceStep::Ask(_) => WriteStep::Device { body },
        }
    }

    /// What follows an answer while a schedule is written.
    pub fn write_answered(&mut self, step: WriteStep, answer: AppResult<Value>) -> (next: WriteStep)
        ensures
            next@ == step@.after(json_outcome(answer)),
            final(self)@ == (if step@ is Device {
                old(self)@.device_told(json_outcome(answer))
            } else {
                old(self)@
            }),
    {
        match step {
            WriteStep::Device { body } => match self.device_answered(answer) {
                Ok(device_id) => WriteStep::Send { device_id, body },
                Err(error) => WriteStep::Done(Err(error)),
            },
            WriteStep::Send { device_id, body } => WriteStep::Done(answer),
            WriteStep::Done(result) => WriteStep::Done(result),
        }
    }
}

}
