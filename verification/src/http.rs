//! The requests to the API, and what the answers amount to.
use crate::config::{AuthConfig, DEFAULT_API_URL};
use crate::json::{object_value, text_value, with_member};
use crate::text::trim_end;
use serde_json::Value;
use vstd::prelude::*;

verus! {

use crate::config::AuthView;
use crate::json::{json_of, member_of, nested_text_at, Json};
use crate::text::{decimal, without_trailing};

#[derive(Clone, Copy, Debug, PartialEq, Eq, Structural)]
pub enum Method {
    Get,
    Post,
}

/// A header, or a field of a form.
#[derive(Debug)]
pub struct Field {
    pub name: &'static str,
    pub value: String,
}

/// What a [`Field`] says.
pub ghost struct FieldView {
    pub name: Seq<char>,
    pub value: Seq<char>,
}

impl View for Field {
    type V = FieldView;

    open spec fn view(&self) -> FieldView {
        FieldView { name: self.name@, value: self.value@ }
    }
}

/// What a list of fields says.
pub open spec fn fields(list: Seq<Field>) -> Seq<FieldView> {
    list.map_values(|field: Field| field@)
}

/// What is sent along with a request.
#[derive(Debug)]
pub enum Payload {
    Nothing,
    Form(Vec<Field>),
    Document(Value),
}

/// What a [`Payload`] says.
pub ghost enum PayloadView {
    Nothing,
    Form(Seq<FieldView>),
    Document(Json),
}

impl View for Payload {
    type V = PayloadView;

    open spec fn view(&self) -> PayloadView {
        match self {
            Payload::Nothing => PayloadView::Nothing,
            Payload::Form(form) => PayloadView::Form(fields(form@)),
            Payload::Document(value) => PayloadView::Document(json_of(*value)),
        }
    }
}

/// A request to the API.
#[derive(Debug)]
pub struct ApiRequest {
    pub method: Method,
    pub url: String,
    pub headers: Vec<Field>,
    pub payload: Payload,
}

/// What an [`ApiRequest`] says.
pub ghost struct ApiRequestView {
    pub method: Method,
    pub url: Seq<char>,
    pub headers: Seq<FieldView>,
    pub payload: PayloadView,
}

impl View for ApiRequest {
    type V = ApiRequestView;

    open spec fn view(&self) -> ApiRequestView {
        ApiRequestView {
            method: self.method,
            url: self.url@,
            headers: fields(self.headers@),
            payload: self.payload@,
        }
    }
}

/// Where tokens are obtained.
pub open spec fn token_url_of(auth_url: Seq<char>) -> Seq<char> {
    without_trailing(auth_url, '/') + "/oauth2/token"@
}

/// Where tokens are obtained.
pub fn token_url(auth_url: &str) -> (url: String)
    ensures
        url@ == token_url_of(auth_url@),
{
    trim_end(auth_url, '/').to_owned().concat("/oauth2/token")
}

/// The request for a token by the client credentials flow.
pub open spec fn token_request_of(auth: AuthView) -> ApiRequestView {
    ApiRequestView {
        method: Method::Post,
        url: token_url_of(auth.auth_url),
        headers: seq![
            FieldView { name: "content-type"@, value: "application/x-www-form-urlencoded"@ },
        ],
        payload: PayloadView::Form(
            seq![
                FieldView { name: "grant_type"@, value: "client_credentials"@ },
                FieldView { name: "client_id"@, value: auth.application_key },
                FieldView { name: "client_secret"@, value: auth.application_secret },
            ],
        ),
    }
}

/// Makes the request for a token by the client credentials flow.
pub fn token_request(auth: &AuthConfig) -> (request: ApiRequest)
    ensures
        request@ == token_request_of(auth@),
{
    let headers = vec![
        Field { name: "content-type", value: "application/x-www-form-urlencoded".to_owned() },
    ];
    let form = vec![
        Field { name: "grant_type", value: "client_credentials".to_owned() },
        Field { name: "client_id", value: auth.application_key.clone() },
        Field { name: "client_secret", value: auth.application_secret.clone() },
    ];
    proof {
        let said = token_request_of(auth@);
        assert(fields(headers@) =~= said.headers);
        assert(fields(form@) =~= said.payload->Form_0);
    }
    ApiRequest {
        method: Method::Post,
        url: token_url(auth.auth_url.as_str()),
        headers,
        payload: Payload::Form(form),
    }
}

/// The headers of a request made with a token.
pub open spec fn headers_with(auth: AuthView, secret: Seq<char>) -> Seq<FieldView> {
    seq![
        FieldView { name: "X-Api-Key"@, value: auth.application_key },
        FieldView { name: "Authorization"@, value: "Bearer "@ + secret },
        FieldView { name: "Accept"@, value: "application/vnd.api+json"@ },
    ]
}

fn request_headers(auth: &AuthConfig, access_token: &str) -> (headers: Vec<Field>)
    ensures
        fields(headers@) == headers_with(auth@, access_token@),
{
    let headers = vec![
        Field { name: "X-Api-Key", value: auth.application_key.clone() },
        Field { name: "Authorization", value: "Bearer ".to_owned().concat(access_token) },
        Field { name: "Accept", value: "application/vnd.api+json".to_owned() },
    ];
    assert(fields(headers@) =~= headers_with(auth@, access_token@));
    headers
}

/// The request for the locations that the application can reach.
pub open spec fn locations_request_of(auth: AuthView, secret: Seq<char>) -> ApiRequestView {
    ApiRequestView {
        method: Method::Get,
        url: DEFAULT_API_URL@ + "/locations"@,
        headers: headers_with(auth, secret),
        payload: PayloadView::Nothing,
    }
}

/// Makes the request for the locations that the application can reach.
pub fn locations_request(auth: &AuthConfig, access_token: &str) -> (request: ApiRequest)
    ensures
        request@ == locations_request_of(auth@, access_token@),
{
    ApiRequest {
        method: Method::Get,
        url: DEFAULT_API_URL.to_owned().concat("/locations"),
        headers: request_headers(auth, access_token),
        payload: Payload::Nothing,
    }
}

/// The request for the full state of a location.
pub open spec fn snapshot_request_of(
    auth: AuthView,
    api_url: Seq<char>,
    secret: Seq<char>,
    location_id: Seq<char>,
) -> ApiRequestView {
    ApiRequestView {
        method: Method::Get,
        url: without_trailing(api_url, '/') + "/locations/"@ + location_id,
        headers: headers_with(auth, secret),
        payload: PayloadView::Nothing,
    }
}

/// Makes the request for the full state of a location.
pub fn snapshot_request(
    auth: &AuthConfig,
    api_url: &str,
    access_token: &str,
    location_id: &str,
) -> (request: ApiRequest)
    ensures
        request@ == snapshot_request_of(auth@, api_url@, access_token@, location_id@),
{
    ApiRequest {
        method: Method::Get,
        url: trim_end(api_url, '/').to_owned().concat("/locations/").concat(location_id),
        headers: request_headers(auth, access_token),
        payload: Payload::Nothing,
    }
}

/// The document that asks for a websocket to a location.
pub open spec fn subscription_of(location_id: Seq<char>) -> Json {
    Json::Object(
        map![
            "data"@ => Json::Object(
                Map::empty().insert("id"@, Json::Text("prometheus-gardena-exporter"@))
                    .insert("type"@, Json::Text("WEBSOCKET"@))
                    .insert(
                        "attributes"@,
                        Json::Object(map!["locationId"@ => Json::Text(location_id)]),
                    ),
            ),
        ],
    )
}

/// Makes the document that asks for a websocket to a location.
fn subscription(location_id: &str) -> (document: Value)
    ensures
        json_of(document) == subscription_of(location_id@),
{
    let data = object_value("id", text_value("prometheus-gardena-exporter"));
    let data = with_member(data, "type", text_value("WEBSOCKET"));
    let attributes = object_value("locationId", text_value(location_id));
    let data = with_member(data, "attributes", attributes);
    object_value("data", data)
}

/// The request for a websocket to a location.
pub open spec fn websocket_request_of(
    auth: AuthView,
    api_url: Seq<char>,
    secret: Seq<char>,
    location_id: Seq<char>,
) -> ApiRequestView {
    ApiRequestView {
        method: Method::Post,
        url: without_trailing(api_url, '/') + "/websocket"@,
        headers: headers_with(auth, secret).push(
            FieldView { name: "Content-Type"@, value: "application/vnd.api+json"@ },
        ),
        payload: PayloadView::Document(subscription_of(location_id)),
    }
}

/// Makes the request for a websocket to a location.
pub fn websocket_request(
    auth: &AuthConfig,
    api_url: &str,
    access_token: &str,
    location_id: &str,
) -> (request: ApiRequest)
    ensures
        request@ == websocket_request_of(auth@, api_url@, access_token@, location_id@),
{
    let mut headers = request_headers(auth, access_token);
    headers.push(Field { name: "Content-Type", value: "application/vnd.api+json".to_owned() });
    assert(fields(headers@) =~= websocket_request_of(
        auth@,
        api_url@,
        access_token@,
        location_id@,
    ).headers);
    ApiRequest {
        method: Method::Post,
        url: trim_end(api_url, '/').to_owned().concat("/websocket"),
        headers,
        payload: Payload::Document(subscription(location_id)),
    }
}

/// A status code of HTTP, from 100 to 999.
#[derive(Debug)]
pub struct HttpStatus {
    code: u16,
}

/// The reason that goes with an HTTP status code.
pub uninterp spec fn status_reason(code: u16) -> Seq<char>;

/// How an HTTP status code reads in words.
pub open spec fn status_words(code: u16) -> Seq<char> {
    decimal(code as nat) + " "@ + status_reason(code)
}

/// `reqwest::StatusCode::from_u16` and the `Display` of what it gives: the number of a status
/// code, a space, and the reason that goes with it. Numbers below 100 and above 999 are no
/// status codes.
#[verifier::external_body]
fn describe_status(code: u16) -> (words: String)
    requires
        100 <= code <= 999,
    ensures
        words@ == decimal(code as nat) + " "@ + status_reason(code),
{
    reqwest::StatusCode::from_u16(code).unwrap().to_string()
}

impl View for HttpStatus {
    type V = u16;

    closed spec fn view(&self) -> u16 {
        self.code
    }
}

impl HttpStatus {
    #[verifier::type_invariant]
    spec fn in_range(&self) -> bool {
        100 <= self.code <= 999
    }

    /// The status with this code, if it is one.
    pub fn from_u16(code: u16) -> (status: Option<HttpStatus>)
        ensures
            match status {
                Some(status) => status@ == code && 100 <= code <= 999,
                None => code < 100 || code > 999,
            },
    {
        if code >= 100 && code <= 999 {
            Some(HttpStatus { code })
        } else {
            None
        }
    }

    /// Whether the request was granted.
    pub fn is_success(&self) -> (success: bool)
        ensures
            success == (200 <= self@ < 300),
    {
        self.code >= 200 && self.code < 300
    }

    /// Whether the token was not accepted.
    pub fn is_unauthorized(&self) -> (unauthorized: bool)
        ensures
            unauthorized == (self@ == 401),
    {
        self.code == 401
    }

    /// The status in words.
    pub fn words(&self) -> (words: String)
        ensures
            words@ == status_words(self@),
    {
        proof {
            use_type_invariant(self);
        }
        describe_status(self.code)
    }
}

/// What went wrong: what was being done, and why it failed if there is more to say.
#[derive(Debug)]
pub struct Failure {
    pub context: String,
    pub cause: Option<String>,
}

/// What a [`Failure`] says.
pub ghost struct FailureView {
    pub context: Seq<char>,
    pub cause: Option<Seq<char>>,
}

impl View for Failure {
    type V = FailureView;

    open spec fn view(&self) -> FailureView {
        FailureView { context: self.context@, cause: self.cause.deep_view() }
    }
}

impl FailureView {
    /// A failure of which there is no more to say.
    pub open spec fn plain(context: Seq<char>) -> FailureView {
        FailureView { context, cause: None }
    }

    /// The failure in words.
    pub open spec fn words(self) -> Seq<char> {
        match self.cause {
            Some(cause) => self.context + ": "@ + cause,
            None => self.context,
        }
    }
}

impl Failure {
    /// A failure of which there is no more to say.
    pub fn plain(context: String) -> (failure: Failure)
        ensures
            failure@ == FailureView::plain(context@),
    {
        Failure { context, cause: None }
    }

    /// The failure in words.
    pub fn message(&self) -> (words: String)
        ensures
            words@ == self@.words(),
    {
        match &self.cause {
            Some(cause) => self.context.clone().concat(": ").concat(cause.as_str()),
            None => self.context.clone(),
        }
    }
}

/// A part of the API.
#[derive(Clone, Copy, Debug, PartialEq, Eq, Structural)]
pub enum Endpoint {
    Token,
    Locations,
    Snapshot,
    WebSocket,
}

impl Endpoint {
    /// What is said when an answer could not be read.
    pub open spec fn unread_words(self) -> Seq<char> {
        match self {
            Endpoint::Token => "failed to read token response"@,
            Endpoint::Locations => "failed to read location list response body"@,
            Endpoint::Snapshot => "failed to read location snapshot body"@,
            Endpoint::WebSocket => "failed to read websocket bootstrap body"@,
        }
    }

    /// What is said when an answer was not what was expected.
    pub open spec fn undecoded_words(self) -> Seq<char> {
        match self {
            Endpoint::Token => "failed to decode token response JSON"@,
            Endpoint::Locations => "failed to decode locations response"@,
            Endpoint::Snapshot => "failed to decode location snapshot JSON"@,
            Endpoint::WebSocket => "failed to decode websocket bootstrap JSON"@,
        }
    }

    /// What is said when a request was refused.
    pub open spec fn refused_words(self) -> Seq<char> {
        match self {
            Endpoint::Token => "token request failed with status "@,
            Endpoint::Locations => "listing locations failed with status "@,
            Endpoint::Snapshot => "location snapshot failed with status "@,
            Endpoint::WebSocket => "websocket bootstrap failed with status "@,
        }
    }

    fn unread(&self) -> (words: &'static str)
        ensures
            words@ == self.unread_words(),
    {
        match self {
            Endpoint::Token => "failed to read token response",
            Endpoint::Locations => "failed to read location list response body",
            Endpoint::Snapshot => "failed to read location snapshot body",
            Endpoint::WebSocket => "failed to read websocket bootstrap body",
        }
    }

    fn undecoded(&self) -> (words: &'static str)
        ensures
            words@ == self.undecoded_words(),
    {
        match self {
            Endpoint::Token => "failed to decode token response JSON",
            Endpoint::Locations => "failed to decode locations response",
            Endpoint::Snapshot => "failed to decode location snapshot JSON",
            Endpoint::WebSocket => "failed to decode websocket bootstrap JSON",
        }
    }

    fn refused(&self) -> (words: &'static str)
        ensures
            words@ == self.refused_words(),
    {
        match self {
            Endpoint::Token => "token request failed with status ",
            Endpoint::Locations => "listing locations failed with status ",
            Endpoint::Snapshot => "location snapshot failed with status ",
            Endpoint::WebSocket => "websocket bootstrap failed with status ",
        }
    }
}

/// How a request went, as far as the network tells.
#[derive(Debug)]
pub enum Exchange<T> {
    NotSent { cause: String },
    NotRead { cause: String },
    /// An answer came. `decoded` is what its body is as JSON.
    Replied { status: HttpStatus, body: String, decoded: Result<T, String> },
}

/// What an [`Exchange`] says.
pub ghost enum ExchangeView<V> {
    NotSent { cause: Seq<char> },
    NotRead { cause: Seq<char> },
    Replied { status: u16, body: Seq<char>, decoded: Result<V, Seq<char>> },
}

impl<T: View> View for Exchange<T> {
    type V = ExchangeView<T::V>;

    open spec fn view(&self) -> ExchangeView<T::V> {
        match self {
            Exchange::NotSent { cause } => ExchangeView::NotSent { cause: cause@ },
            Exchange::NotRead { cause } => ExchangeView::NotRead { cause: cause@ },
            Exchange::Replied { status, body, decoded } => ExchangeView::Replied {
                status: status@,
                body: body@,
                decoded: match decoded {
                    Ok(value) => Ok(value@),
                    Err(cause) => Err(cause@),
                },
            },
        }
    }
}

/// What a request came to.
#[derive(Debug)]
pub enum Outcome<T> {
    Granted(T),
    /// The token was not accepted.
    Unauthorized,
    Failed(Failure),
}

/// What an [`Outcome`] says.
pub ghost enum OutcomeView<V> {
    Granted(V),
    Unauthorized,
    Failed(FailureView),
}

impl<T: View> View for Outcome<T> {
    type V = OutcomeView<T::V>;

    open spec fn view(&self) -> OutcomeView<T::V> {
        match self {
            Outcome::Granted(value) => OutcomeView::Granted(value@),
            Outcome::Unauthorized => OutcomeView::Unauthorized,
            Outcome::Failed(failure) => OutcomeView::Failed(failure@),
        }
    }
}

/// What a request to `url` brought, where success is all that is hoped for.
pub open spec fn granted<V>(
    endpoint: Endpoint,
    url: Seq<char>,
    exchange: ExchangeView<V>,
) -> Result<V, FailureView> {
    match exchange {
        ExchangeView::NotSent { cause } => Err(
            FailureView { context: "failed to call "@ + url, cause: Some(cause) },
        ),
        ExchangeView::NotRead { cause } => Err(
            FailureView { context: endpoint.unread_words(), cause: Some(cause) },
        ),
        ExchangeView::Replied { status, body, decoded } => if 200 <= status < 300 {
            match decoded {
                Ok(value) => Ok(value),
                Err(cause) => Err(
                    FailureView { context: endpoint.undecoded_words(), cause: Some(cause) },
                ),
            }
        } else {
            Err(
                FailureView::plain(
                    endpoint.refused_words() + status_words(status) + ": "@ + body,
                ),
            )
        },
    }
}

/// What a request with a token came to.
pub open spec fn settled<V>(
    endpoint: Endpoint,
    url: Seq<char>,
    exchange: ExchangeView<V>,
) -> OutcomeView<V> {
    if exchange matches ExchangeView::Replied { status, .. } && status == 401 {
        OutcomeView::Unauthorized
    } else {
        match granted(endpoint, url, exchange) {
            Ok(value) => OutcomeView::Granted(value),
            Err(failure) => OutcomeView::Failed(failure),
        }
    }
}

/// Finds what a request to `url` brought, where success is all that is hoped for.
pub fn grant<T: View>(endpoint: Endpoint, url: &str, exchange: Exchange<T>) -> (result: Result<
    T,
    Failure,
>)
    ensures
        (match result {
            Ok(value) => Ok(value@),
            Err(failure) => Err(failure@),
        }) == granted(endpoint, url@, exchange@),
{
    match exchange {
        Exchange::NotSent { cause } => Err(
            Failure { context: "failed to call ".to_owned().concat(url), cause: Some(cause) },
        ),
        Exchange::NotRead { cause } => Err(
            Failure { context: endpoint.unread().to_owned(), cause: Some(cause) },
        ),
        Exchange::Replied { status, body, decoded } => {
            if status.is_success() {
                match decoded {
                    Ok(value) => Ok(value),
                    Err(cause) => Err(
                        Failure { context: endpoint.undecoded().to_owned(), cause: Some(cause) },
                    ),
                }
            } else {
                Err(
                    Failure::plain(
                        endpoint.refused().to_owned().concat(status.words().as_str()).concat(
                            ": ",
                        ).concat(body.as_str()),
                    ),
                )
            }
        },
    }
}

/// Finds what a request with a token came to.
pub fn settle<T: View>(endpoint: Endpoint, url: &str, exchange: Exchange<T>) -> (outcome: Outcome<
    T,
>)
    ensures
        outcome@ == settled(endpoint, url@, exchange@),
{
    if let Exchange::Replied { status, .. } = &exchange {
        if status.is_unauthorized() {
            return Outcome::Unauthorized;
        }
    }
    match grant(endpoint, url, exchange) {
        Ok(value) => Outcome::Granted(value),
        Err(failure) => Outcome::Failed(failure),
    }
}

/// The application key is the API key and the client identifier, the application secret is the
/// client secret.
pub proof fn key_serves_twice(auth: AuthView, secret: Seq<char>)
    ensures
        headers_with(auth, secret)[0] == (FieldView {
            name: "X-Api-Key"@,
            value: auth.application_key,
        }),
        token_request_of(auth).payload matches PayloadView::Form(form) && form[1] == (FieldView {
            name: "client_id"@,
            value: auth.application_key,
        }) && form[2] == (FieldView { name: "client_secret"@, value: auth.application_secret }),
{
}

/// It makes no difference whether a configured address ends with a slash.
pub proof fn trailing_slashes_make_no_difference(
    auth: AuthView,
    url: Seq<char>,
    secret: Seq<char>,
    location_id: Seq<char>,
)
    ensures
        token_url_of(url.push('/')) == token_url_of(url),
        snapshot_request_of(auth, url.push('/'), secret, location_id) == snapshot_request_of(
            auth,
            url,
            secret,
            location_id,
        ),
        websocket_request_of(auth, url.push('/'), secret, location_id) == websocket_request_of(
            auth,
            url,
            secret,
            location_id,
        ),
{
    assert(url.push('/').drop_last() =~= url);
}

/// The document that asks for a websocket names the location.
pub proof fn subscription_names_location(location_id: Seq<char>)
    ensures
        nested_text_at(
            member_of(Some(subscription_of(location_id)), "data"@),
            "attributes"@,
            "locationId"@,
        ) == Some(location_id),
{
}

/// An answer that is not a success brings nothing but the words for it, and a token that is not
/// accepted is told apart from every other refusal.
pub proof fn refusals_bring_nothing<V>(
    endpoint: Endpoint,
    url: Seq<char>,
    status: u16,
    body: Seq<char>,
    decoded: Result<V, Seq<char>>,
)
    requires
        !(200 <= status < 300),
    ensures
        ({
            let outcome = settled(
                endpoint,
                url,
                ExchangeView::Replied { status, body, decoded },
            );
            &&& !(outcome is Granted)
            &&& outcome is Unauthorized <==> status == 401
        }),
{
}

/// A token is asked for by a form with the client credentials, at the configured address.
pub proof fn tokens_are_asked_for_by_form(auth: AuthView)
    ensures
        ({
            let request = token_request_of(auth);
            &&& request.method == Method::Post
            &&& request.url == without_trailing(auth.auth_url, '/') + "/oauth2/token"@
            &&& request.headers == seq![
                FieldView { name: "content-type"@, value: "application/x-www-form-urlencoded"@ },
            ]
            &&& request.payload == PayloadView::Form(
                seq![
                    FieldView { name: "grant_type"@, value: "client_credentials"@ },
                    FieldView { name: "client_id"@, value: auth.application_key },
                    FieldView { name: "client_secret"@, value: auth.application_secret },
                ],
            )
        }),
{
}

/// Every request with a token shows the application key and the token, and asks for JSON:API. The
/// locations are asked for at the address of the service; the state of a location and a
/// websocket to it at the configured address.
pub proof fn requests_show_key_and_token(
    auth: AuthView,
    api_url: Seq<char>,
    secret: Seq<char>,
    location_id: Seq<char>,
)
    ensures
        ({
            let shown = seq![
                FieldView { name: "X-Api-Key"@, value: auth.application_key },
                FieldView { name: "Authorization"@, value: "Bearer "@ + secret },
                FieldView { name: "Accept"@, value: "application/vnd.api+json"@ },
            ];
            let base = without_trailing(api_url, '/');
            let locations = locations_request_of(auth, secret);
            let snapshot = snapshot_request_of(auth, api_url, secret, location_id);
            let websocket = websocket_request_of(auth, api_url, secret, location_id);
            &&& locations.method == Method::Get
            &&& locations.url == "https://api.smart.gardena.dev/v2"@ + "/locations"@
            &&& locations.headers == shown
            &&& locations.payload == PayloadView::Nothing
            &&& snapshot.method == Method::Get
            &&& snapshot.url == base + "/locations/"@ + location_id
            &&& snapshot.headers == shown
            &&& snapshot.payload == PayloadView::Nothing
            &&& websocket.method == Method::Post
            &&& websocket.url == base + "/websocket"@
            &&& websocket.headers == shown.push(
                FieldView { name: "Content-Type"@, value: "application/vnd.api+json"@ },
            )
            &&& websocket.payload == PayloadView::Document(subscription_of(location_id))
        }),
{
}

/// The document that asks for a websocket is one resource: of the type `WEBSOCKET`, with the name
/// of the exporter for its identifier and the location for its only attribute.
pub proof fn subscriptions_are_one_resource(location_id: Seq<char>)
    ensures
        ({
            let document = subscription_of(location_id);
            &&& document matches Json::Object(top)
            &&& top.dom() =~= set!["data"@]
            &&& top["data"@] matches Json::Object(data)
            &&& data.dom() =~= set!["id"@, "type"@, "attributes"@]
            &&& data["id"@] == Json::Text("prometheus-gardena-exporter"@)
            &&& data["type"@] == Json::Text("WEBSOCKET"@)
            &&& data["attributes"@] matches Json::Object(attributes)
            &&& attributes.dom() =~= set!["locationId"@]
            &&& attributes["locationId"@] == Json::Text(location_id)
        }),
{
    reveal_strlit("id");
    reveal_strlit("type");
    reveal_strlit("attributes");
    assert("id"@.len() != "type"@.len());
    assert("id"@.len() != "attributes"@.len());
    assert("type"@.len() != "attributes"@.len());
}

/// An answer with a status from 200 to 299 brings what its body says, where that could be read as
/// what was expected.
pub proof fn successes_bring_their_value<V>(
    endpoint: Endpoint,
    url: Seq<char>,
    status: u16,
    body: Seq<char>,
    value: V,
)
    requires
        200 <= status < 300,
    ensures
        granted(endpoint, url, ExchangeView::Replied { status, body, decoded: Ok(value) }) == Ok::<
            V,
            FailureView,
        >(value),
        settled(endpoint, url, ExchangeView::Replied { status, body, decoded: Ok(value) })
            == OutcomeView::Granted(value),
{
}

/// A request that brings nothing fails in words for what was asked: with the address where it
/// could not be sent, with the status and the body where it was refused.
pub proof fn failures_say_what_was_asked<V>(
    endpoint: Endpoint,
    url: Seq<char>,
    status: u16,
    body: Seq<char>,
    decoded: Result<V, Seq<char>>,
    cause: Seq<char>,
)
    ensures
        ({
            let unread = match endpoint {
                Endpoint::Token => "failed to read token response"@,
                Endpoint::Locations => "failed to read location list response body"@,
                Endpoint::Snapshot => "failed to read location snapshot body"@,
                Endpoint::WebSocket => "failed to read websocket bootstrap body"@,
            };
            let undecoded = match endpoint {
                Endpoint::Token => "failed to decode token response JSON"@,
                Endpoint::Locations => "failed to decode locations response"@,
                Endpoint::Snapshot => "failed to decode location snapshot JSON"@,
                Endpoint::WebSocket => "failed to decode websocket bootstrap JSON"@,
            };
            let refused = match endpoint {
                Endpoint::Token => "token request failed with status "@,
                Endpoint::Locations => "listing locations failed with status "@,
                Endpoint::Snapshot => "location snapshot failed with status "@,
                Endpoint::WebSocket => "websocket bootstrap failed with status "@,
            };
            let not_sent = ExchangeView::<V>::NotSent { cause };
            let not_read = ExchangeView::<V>::NotRead { cause };
            let replied = ExchangeView::Replied { status, body, decoded };
            let words = refused + (decimal(status as nat) + " "@ + status_reason(status)) + ": "@
                + body;
            &&& granted(endpoint, url, not_sent) == Err::<V, FailureView>(
                FailureView { context: "failed to call "@ + url, cause: Some(cause) },
            )
            &&& granted(endpoint, url, not_read) == Err::<V, FailureView>(
                FailureView { context: unread, cause: Some(cause) },
            )
            &&& 200 <= status < 300 && decoded is Err ==> granted(endpoint, url, replied) == Err::<
                V,
                FailureView,
            >(FailureView { context: undecoded, cause: Some(decoded->Err_0) })
            &&& status < 200 || status >= 300 ==> granted(endpoint, url, replied) == Err::<
                V,
                FailureView,
            >(FailureView { context: words, cause: None })
            &&& status == 401 ==> settled(endpoint, url, replied) == OutcomeView::<V>::Unauthorized
            &&& status != 401 ==> (granted(endpoint, url, replied) matches Err(failure) ==> settled(
                endpoint,
                url,
                replied,
            ) == OutcomeView::<V>::Failed(failure))
            &&& granted(endpoint, url, not_sent) matches Err(failure) ==> settled(
                endpoint,
                url,
                not_sent,
            ) == OutcomeView::<V>::Failed(failure)
            &&& granted(endpoint, url, not_read) matches Err(failure) ==> settled(
                endpoint,
                url,
                not_read,
            ) == OutcomeView::<V>::Failed(failure)
        }),
{
}

/// A failure in words is what was being done, and behind a colon why it failed if there is more
/// to say.
pub proof fn failures_give_their_cause(context: Seq<char>, cause: Seq<char>)
    ensures
        (FailureView { context, cause: None }).words() == context,
        (FailureView { context, cause: Some(cause) }).words() == context + ": "@ + cause,
        FailureView::plain(context).words() == context,
{
}

/// What a [`Field`] says of each of its parts is what the field holds.
pub proof fn fields_say_what_they_hold(field: Field)
    ensures
        field@.name == field.name@,
        field@.value == field.value@,
{
}

/// What an [`ApiRequest`] says of each of its parts is what the field holds.
pub proof fn requests_say_what_they_hold(request: ApiRequest)
    ensures
        request@.method == request.method,
        request@.url == request.url@,
        request@.headers == fields(request.headers@),
        request@.payload == request.payload@,
{
}

/// What a [`Failure`] says of each of its parts is what the field holds.
pub proof fn failures_say_what_they_hold(failure: Failure)
    ensures
        failure@.context == failure.context@,
        failure@.cause == failure.cause.deep_view(),
{
}

/// What an [`Exchange`] says is how the request went, and what came of it.
pub proof fn exchanges_say_what_they_hold<T: View>(exchange: Exchange<T>)
    ensures
        match exchange {
            Exchange::NotSent { cause } => exchange@ == (ExchangeView::<T::V>::NotSent {
                cause: cause@,
            }),
            Exchange::NotRead { cause } => exchange@ == (ExchangeView::<T::V>::NotRead {
                cause: cause@,
            }),
            Exchange::Replied { status, body, decoded: Ok(value) } => exchange@ == (
            ExchangeView::Replied { status: status@, body: body@, decoded: Ok(value@) }),
            Exchange::Replied { status, body, decoded: Err(cause) } => exchange@ == (
            ExchangeView::<T::V>::Replied {
                status: status@,
                body: body@,
                decoded: Err(cause@),
            }),
        },
{
}

/// What a [`Payload`] says is what is sent along.
pub proof fn payloads_say_what_they_hold(payload: Payload)
    ensures
        match payload {
            Payload::Nothing => payload@ == PayloadView::Nothing,
            Payload::Form(form) => {
                &&& payload@ matches PayloadView::Form(said)
                &&& said.len() == form@.len()
                &&& forall|i: int| 0 <= i < form@.len() ==> #[trigger] said[i] == form@[i]@
            },
            Payload::Document(value) => payload@ == PayloadView::Document(json_of(value)),
        },
{
}

}
