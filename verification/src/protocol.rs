//! The three calls of the check: what is sent for each, and what each answer
//! means.

use vstd::prelude::*;
use vstd::string::StringExecFns;
use crate::envelope::{
    command_envelope, decode_command_envelope, decode_sites_envelope, meta_of, site_of,
    sites_envelope,
};
use crate::http::{
    find_header, first_named, has_header, header_value, is_success,
    lemma_header_found_iff_present, lemma_header_value_is_first, success_status, Header,
    HeaderView, HttpRequest, HttpRequestView, HttpResponse, HttpResponseView, Method,
};
use crate::json::{json_document, json_string_literal, string_literal, Json, JsonValue};
use crate::model::{
    result_view, Credentials, CredentialsView, Endpoint, EndpointView, GuestAuthRequest,
    GuestAuthRequestView, ProtocolError, ProtocolErrorView, Session, Site, SiteView,
};
use crate::text::{decimal, push_decimal};

verus! {

/// `https://{host}:{port}`, the part that every URL of a controller starts
/// with.
pub open spec fn base_url(endpoint: EndpointView) -> Seq<char> {
    "https://"@ + endpoint.host + ":"@ + decimal(endpoint.port as nat)
}

pub open spec fn login_url(endpoint: EndpointView) -> Seq<char> {
    base_url(endpoint) + "/api/login"@
}

pub open spec fn sites_url(endpoint: EndpointView) -> Seq<char> {
    base_url(endpoint) + "/api/self/sites"@
}

/// The command endpoint of the site named `site`. The name goes in as it is.
pub open spec fn guest_url(endpoint: EndpointView, site: Seq<char>) -> Seq<char> {
    base_url(endpoint) + "/api/s/"@ + site + "/cmd/stamgr"@
}

/// The JSON object `{"username": .., "password": ..}`, written without
/// spaces, around string literals that are already in JSON form.
pub open spec fn login_body_of(username: Seq<char>, password: Seq<char>) -> Seq<char> {
    "{\"username\":"@ + username + ",\"password\":"@ + password + "}"@
}

/// The body of the login: the credentials as a JSON object.
pub open spec fn login_body(credentials: CredentialsView) -> Seq<char> {
    login_body_of(
        json_string_literal(credentials.username),
        json_string_literal(credentials.password),
    )
}

/// The JSON object of the `authorize-guest` command, written without spaces,
/// around string literals that are already in JSON form.
pub open spec fn guest_body_of(
    mac: Seq<char>,
    minutes: u32,
    name: Seq<char>,
    email: Seq<char>,
) -> Seq<char> {
    "{\"cmd\":\"authorize-guest\",\"mac\":"@ + mac + ",\"minutes\":"@ + decimal(minutes as nat)
        + ",\"name\":"@ + name + ",\"email\":"@ + email + "}"@
}

/// The body of a guest authorization: the command as a JSON object.
pub open spec fn guest_body(request: GuestAuthRequestView) -> Seq<char> {
    guest_body_of(
        json_string_literal(request.mac_address),
        request.duration_minutes,
        json_string_literal(request.display_name),
        json_string_literal(request.contact_email),
    )
}

/// The header that announces a JSON body.
pub open spec fn json_content_type() -> HeaderView {
    HeaderView { name: "Content-Type"@, value: "application/json"@ }
}

/// The header that presents a session: the cookie, exactly as it was set.
pub open spec fn cookie_header(session: Seq<char>) -> HeaderView {
    HeaderView { name: "Cookie"@, value: session }
}

pub open spec fn login_request_of(
    endpoint: EndpointView,
    credentials: CredentialsView,
) -> HttpRequestView {
    HttpRequestView {
        method: Method::Post,
        url: login_url(endpoint),
        headers: seq![json_content_type()],
        body: Some(login_body(credentials)),
    }
}

pub open spec fn sites_request_of(endpoint: EndpointView, session: Seq<char>) -> HttpRequestView {
    HttpRequestView {
        method: Method::Get,
        url: sites_url(endpoint),
        headers: seq![cookie_header(session)],
        body: None,
    }
}

pub open spec fn guest_request_of(
    endpoint: EndpointView,
    session: Seq<char>,
    site: Seq<char>,
    request: GuestAuthRequestView,
) -> HttpRequestView {
    HttpRequestView {
        method: Method::Post,
        url: guest_url(endpoint, site),
        headers: seq![cookie_header(session), json_content_type()],
        body: Some(guest_body(request)),
    }
}

fn base_url_text(endpoint: &Endpoint) -> (r: String)
    ensures
        r@ == base_url(endpoint@),
{
    let mut url = String::from_str("https://");
    url.append(endpoint.host().as_str());
    url.append(":");
    push_decimal(&mut url, endpoint.port() as u32);
    url
}

fn content_type_header() -> (r: Header)
    ensures
        r@ == json_content_type(),
{
    Header { name: String::from_str("Content-Type"), value: String::from_str("application/json") }
}

fn session_header(session: &Session) -> (r: Header)
    ensures
        r@ == cookie_header(session@),
{
    Header { name: String::from_str("Cookie"), value: session.cookie().clone() }
}

/// Writes the login's JSON object around two string literals; see
/// [`login_body_of`].
pub fn frame_login_body(username: &str, password: &str) -> (r: String)
    ensures
        r@ == login_body_of(username@, password@),
{
    let mut body = String::from_str("{\"username\":");
    body.append(username);
    body.append(",\"password\":");
    body.append(password);
    body.append("}");
    body
}

/// Writes the guest command's JSON object around three string literals and
/// the minutes; see [`guest_body_of`].
pub fn frame_guest_body(mac: &str, minutes: u32, name: &str, email: &str) -> (r: String)
    ensures
        r@ == guest_body_of(mac@, minutes, name@, email@),
{
    let mut body = String::from_str("{\"cmd\":\"authorize-guest\",\"mac\":");
    body.append(mac);
    body.append(",\"minutes\":");
    push_decimal(&mut body, minutes);
    body.append(",\"name\":");
    body.append(name);
    body.append(",\"email\":");
    body.append(email);
    body.append("}");
    body
}

/// The login: `POST /api/login` with the credentials as a JSON body.
pub fn login_request(endpoint: &Endpoint, credentials: &Credentials) -> (r: HttpRequest)
    ensures
        r@ == login_request_of(endpoint@, credentials@),
{
    let mut url = base_url_text(endpoint);
    url.append("/api/login");
    let username = string_literal(credentials.username().as_str());
    let password = string_literal(credentials.password().as_str());
    let body = frame_login_body(username.as_str(), password.as_str());
    let mut headers: Vec<Header> = Vec::new();
    headers.push(content_type_header());
    assert(headers.deep_view() =~= seq![json_content_type()]);
    HttpRequest { method: Method::Post, url, headers, body: Some(body) }
}

/// The sites listing: `GET /api/self/sites` under the session's cookie.
pub fn sites_request(endpoint: &Endpoint, session: &Session) -> (r: HttpRequest)
    ensures
        r@ == sites_request_of(endpoint@, session@),
{
    let mut url = base_url_text(endpoint);
    url.append("/api/self/sites");
    let mut headers: Vec<Header> = Vec::new();
    headers.push(session_header(session));
    assert(headers.deep_view() =~= seq![cookie_header(session@)]);
    HttpRequest { method: Method::Get, url, headers, body: None }
}

/// The guest authorization: `POST /api/s/{site}/cmd/stamgr` under the
/// session's cookie, with the command as a JSON body.
pub fn guest_request(
    endpoint: &Endpoint,
    session: &Session,
    site: &str,
    request: &GuestAuthRequest,
) -> (r: HttpRequest)
    ensures
        r@ == guest_request_of(endpoint@, session@, site@, request@),
{
    let mut url = base_url_text(endpoint);
    url.append("/api/s/");
    url.append(site);
    url.append("/cmd/stamgr");
    let mac = string_literal(request.mac_address.as_str());
    let name = string_literal(request.display_name.as_str());
    let email = string_literal(request.contact_email.as_str());
    let body = frame_guest_body(
        mac.as_str(),
        request.duration_minutes,
        name.as_str(),
        email.as_str(),
    );
    let mut headers: Vec<Header> = Vec::new();
    headers.push(session_header(session));
    headers.push(content_type_header());
    assert(headers.deep_view() =~= seq![cookie_header(session@), json_content_type()]);
    HttpRequest { method: Method::Post, url, headers, body: Some(body) }
}

/// What a login answer means: the cookie of the first `Set-Cookie` header
/// where the status is a success and such a header came; the rejection or the
/// missing session otherwise.
pub open spec fn login_outcome(response: HttpResponseView) -> Result<
    Seq<char>,
    ProtocolErrorView,
> {
    if !success_status(response.status) {
        Err(ProtocolErrorView::AuthRejected { status: response.status })
    } else {
        match header_value(response.headers, "set-cookie"@) {
            Some(cookie) => Ok(cookie),
            None => Err(ProtocolErrorView::MissingSession),
        }
    }
}

/// What the document of a sites listing means: the sites of an accepted
/// envelope in the order of its payload, none where it has no payload; the
/// error of a refused envelope; a decode error where the document is no
/// envelope.
pub open spec fn sites_document_outcome(doc: JsonValue) -> Result<
    Seq<SiteView>,
    ProtocolErrorView,
> {
    match sites_envelope(doc) {
        None => Err(ProtocolErrorView::DecodeError),
        Some(envelope) => match envelope.outcome() {
            Ok(Some(sites)) => Ok(sites),
            Ok(None) => Ok(Seq::empty()),
            Err(e) => Err(e),
        },
    }
}

/// What the answer to a sites listing means.
pub open spec fn sites_outcome(response: HttpResponseView) -> Result<
    Seq<SiteView>,
    ProtocolErrorView,
> {
    if !success_status(response.status) {
        Err(ProtocolErrorView::HttpRejected { status: response.status })
    } else {
        match json_document(response.body) {
            None => Err(ProtocolErrorView::DecodeError),
            Some(doc) => sites_document_outcome(doc),
        }
    }
}

/// What the document of a command's answer means: success for an accepted
/// envelope, with or without payload; the error of a refused one; a decode
/// error where the document is no envelope.
pub open spec fn command_document_outcome(doc: JsonValue) -> Result<(), ProtocolErrorView> {
    match command_envelope(doc) {
        None => Err(ProtocolErrorView::DecodeError),
        Some(envelope) => match envelope.outcome() {
            Ok(_) => Ok(()),
            Err(e) => Err(e),
        },
    }
}

/// What the answer to a guest authorization means.
pub open spec fn guest_outcome(response: HttpResponseView) -> Result<(), ProtocolErrorView> {
    if !success_status(response.status) {
        Err(ProtocolErrorView::HttpRejected { status: response.status })
    } else {
        match json_document(response.body) {
            None => Err(ProtocolErrorView::DecodeError),
            Some(doc) => command_document_outcome(doc),
        }
    }
}

/// Reads the answer to a login. A session comes back exactly when the status
/// is in 200..=299 and a `Set-Cookie` header is there; its cookie is the
/// header's value, unchanged.
pub fn authenticate(response: &HttpResponse) -> (r: Result<Session, ProtocolError>)
    ensures
        result_view(r) == login_outcome(response@),
        r is Ok <==> success_status(response.status) && has_header(
            response@.headers,
            "set-cookie"@,
        ),
        !success_status(response.status) ==> r == Err::<Session, _>(
            ProtocolError::AuthRejected { status: response.status },
        ),
        success_status(response.status) && !has_header(response@.headers, "set-cookie"@) ==> r
            == Err::<Session, _>(ProtocolError::MissingSession),
{
    proof {
        lemma_header_found_iff_present(response@.headers, "set-cookie"@);
    }
    if !is_success(response.status) {
        return Err(ProtocolError::AuthRejected { status: response.status });
    }
    match find_header(&response.headers, "set-cookie") {
        Some(value) => Ok(Session::new(value.clone())),
        None => Err(ProtocolError::MissingSession),
    }
}

/// Reads the sites out of the parsed body of a sites listing.
pub fn sites_from_document(doc: &Json) -> (r: Result<Vec<Site>, ProtocolError>)
    ensures
        result_view(r) == sites_document_outcome(doc@),
        r is Ok ==> sites_envelope(doc@) is Some && sites_envelope(doc@)->0.accepted(),
{
    match decode_sites_envelope(doc) {
        None => Err(ProtocolError::DecodeError),
        Some(envelope) => match envelope.into_outcome() {
            Ok(Some(sites)) => Ok(sites),
            Ok(None) => {
                let sites: Vec<Site> = Vec::new();
                assert(sites.deep_view() =~= Seq::<SiteView>::empty());
                Ok(sites)
            },
            Err(e) => Err(e),
        },
    }
}

/// Reads the answer to a sites listing. Sites come back only from a success
/// status with an envelope whose result code is `ok`, and in the order in
/// which the body lists them.
pub fn verify_session(response: &HttpResponse) -> (r: Result<Vec<Site>, ProtocolError>)
    ensures
        result_view(r) == sites_outcome(response@),
        r is Ok ==> ({
            &&& success_status(response.status)
            &&& json_document(response.body@) matches Some(doc)
            &&& sites_envelope(doc) matches Some(envelope)
            &&& envelope.accepted()
        }),
{
    if !is_success(response.status) {
        return Err(ProtocolError::HttpRejected { status: response.status });
    }
    match Json::parse(response.body.as_slice()) {
        None => Err(ProtocolError::DecodeError),
        Some(doc) => sites_from_document(&doc),
    }
}

/// Reads the parsed body of a command's answer.
pub fn command_from_document(doc: &Json) -> (r: Result<(), ProtocolError>)
    ensures
        result_view(r) == command_document_outcome(doc@),
        r is Ok <==> command_envelope(doc@) is Some && command_envelope(doc@)->0.accepted(),
{
    match decode_command_envelope(doc) {
        None => Err(ProtocolError::DecodeError),
        Some(envelope) => match envelope.into_outcome() {
            Ok(_) => Ok(()),
            Err(e) => Err(e),
        },
    }
}

/// Reads the answer to a guest authorization: success takes a success status
/// and an envelope whose result code is `ok`. A payload is not asked for.
pub fn authorize_guest(response: &HttpResponse) -> (r: Result<(), ProtocolError>)
    ensures
        result_view(r) == guest_outcome(response@),
{
    if !is_success(response.status) {
        return Err(ProtocolError::HttpRejected { status: response.status });
    }
    match Json::parse(response.body.as_slice()) {
        None => Err(ProtocolError::DecodeError),
        Some(doc) => command_from_document(&doc),
    }
}

/// A session is owed to a login answer exactly when its status is a success
/// and one of its header lines is a `Set-Cookie`; the session's cookie is
/// then the value of the first such line. A status outside the success range
/// is a rejection with that status, whatever the headers; a success without
/// such a line is a missing session.
pub proof fn lemma_session_iff_success_and_cookie(response: HttpResponseView)
    ensures
        login_outcome(response) is Ok <==> success_status(response.status) && has_header(
            response.headers,
            "set-cookie"@,
        ),
        login_outcome(response) matches Ok(cookie) ==> Some(cookie) == header_value(
            response.headers,
            "set-cookie"@,
        ),
        !success_status(response.status) ==> login_outcome(response) == Err::<Seq<char>, _>(
            ProtocolErrorView::AuthRejected { status: response.status },
        ),
        success_status(response.status) && !has_header(response.headers, "set-cookie"@)
            ==> login_outcome(response) == Err::<Seq<char>, _>(ProtocolErrorView::MissingSession),
{
    lemma_header_found_iff_present(response.headers, "set-cookie"@);
}

/// The cookie of the session is the value of the first `Set-Cookie` line,
/// unchanged, whatever lines follow it.
pub proof fn lemma_session_cookie_is_first(response: HttpResponseView, i: int)
    requires
        success_status(response.status),
        first_named(response.headers, "set-cookie"@, i),
    ensures
        login_outcome(response) == Ok::<_, ProtocolErrorView>(response.headers[i].value),
{
    lemma_header_value_is_first(response.headers, "set-cookie"@, i);
}

/// A document whose result code is not `ok` lists no sites, whatever else it
/// holds.
pub proof fn lemma_refused_envelope_lists_no_sites(doc: JsonValue)
    requires
        meta_of(doc) matches Some(meta) && meta.result_code != "ok"@,
    ensures
        sites_document_outcome(doc) is Err,
{
}

/// An answer lists sites only under a success status, with a body that
/// parses to an envelope whose result code is `ok`.
pub proof fn lemma_sites_need_accepted_envelope(response: HttpResponseView)
    requires
        sites_outcome(response) is Ok,
    ensures
        success_status(response.status),
        json_document(response.body) matches Some(doc) && meta_of(doc) matches Some(meta)
            && meta.result_code == "ok"@,
{
}

/// The sites come out in the order of the payload: the site at each place is
/// the one read from the payload's item at that place.
pub proof fn lemma_sites_keep_payload_order(doc: JsonValue, items: Seq<JsonValue>)
    requires
        doc.field("data"@) == Some(JsonValue::Array(items)),
        sites_document_outcome(doc) is Ok,
    ensures
        sites_document_outcome(doc)->Ok_0.len() == items.len(),
        forall|i: int|
            0 <= i < items.len() ==> site_of(#[trigger] items[i]) == Some(
                sites_document_outcome(doc)->Ok_0[i],
            ),
{
}

/// An accepted envelope whose payload is missing, `null` or an empty array
/// lists no sites, and that is no error.
pub proof fn lemma_empty_payload_lists_no_sites(doc: JsonValue)
    requires
        meta_of(doc) matches Some(meta) && meta.result_code == "ok"@,
        doc.field("data"@) is None || doc.field("data"@) == Some(JsonValue::Null) || doc.field(
            "data"@,
        ) == Some(JsonValue::Array(Seq::empty())),
    ensures
        sites_document_outcome(doc) == Ok::<Seq<SiteView>, ProtocolErrorView>(Seq::empty()),
{
    if doc.field("data"@) == Some(JsonValue::Array(Seq::empty())) {
        let sites = sites_document_outcome(doc)->Ok_0;
        assert(sites =~= Seq::empty());
    }
}

/// A command succeeds on an accepted envelope whether or not it carries a
/// payload.
pub proof fn lemma_command_needs_no_payload(doc: JsonValue)
    requires
        meta_of(doc) matches Some(meta) && meta.result_code == "ok"@,
    ensures
        command_document_outcome(doc) == Ok::<(), ProtocolErrorView>(()),
{
}

} // verus!
