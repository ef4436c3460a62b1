//! The data of one run: who logs in, where, and what the controller answers.

use vstd::prelude::*;
use vstd::string::StringExecFns;
use crate::text::chars_of;

verus! {

/// The account to test. Fixed once made.
#[derive(Debug, PartialEq, Eq)]
pub struct Credentials {
    username: String,
    password: String,
}

/// The mathematical value of [`Credentials`].
pub struct CredentialsView {
    pub username: Seq<char>,
    pub password: Seq<char>,
}

impl View for Credentials {
    type V = CredentialsView;

    closed spec fn view(&self) -> CredentialsView {
        CredentialsView { username: self.username@, password: self.password@ }
    }
}

impl Credentials {
    pub fn new(username: String, password: String) -> (r: Credentials)
        ensures
            r@ == (CredentialsView { username: username@, password: password@ }),
    {
        Credentials { username, password }
    }

    pub fn username(&self) -> (r: &String)
        ensures
            r@ == self@.username,
    {
        &self.username
    }

    pub fn password(&self) -> (r: &String)
        ensures
            r@ == self@.password,
    {
        &self.password
    }
}

impl Clone for Credentials {
    fn clone(&self) -> (r: Credentials)
        ensures
            r@ == self@,
    {
        Credentials { username: self.username.clone(), password: self.password.clone() }
    }
}

/// The controller to talk to. The port is never 0.
#[derive(Debug, PartialEq, Eq)]
pub struct Endpoint {
    host: String,
    port: u16,
    insecure: bool,
}

/// The mathematical value of an [`Endpoint`].
pub struct EndpointView {
    pub host: Seq<char>,
    pub port: u16,
    pub insecure: bool,
}

impl EndpointView {
    /// A port that a connection can be made to.
    pub open spec fn wf(self) -> bool {
        1 <= self.port <= 65535
    }
}

impl View for Endpoint {
    type V = EndpointView;

    closed spec fn view(&self) -> EndpointView {
        EndpointView { host: self.host@, port: self.port, insecure: self.insecure }
    }
}

impl Endpoint {
    #[verifier::type_invariant]
    spec fn port_is_set(self) -> bool {
        self.port >= 1
    }

    /// An endpoint, unless `port` is 0.
    pub fn new(host: String, port: u16, insecure: bool) -> (r: Option<Endpoint>)
        ensures
            r is Some <==> port >= 1,
            r matches Some(e) ==> e@ == (EndpointView { host: host@, port, insecure }),
    {
        if port == 0 {
            None
        } else {
            Some(Endpoint { host, port, insecure })
        }
    }

    pub fn host(&self) -> (r: &String)
        ensures
            r@ == self@.host,
    {
        &self.host
    }

    pub fn port(&self) -> (r: u16)
        ensures
            r == self@.port,
            self@.wf(),
    {
        proof {
            use_type_invariant(self);
        }
        self.port
    }

    /// Whether the transport is to skip the check of the TLS certificate.
    pub fn insecure(&self) -> (r: bool)
        ensures
            r == self@.insecure,
    {
        self.insecure
    }
}

impl Clone for Endpoint {
    fn clone(&self) -> (r: Endpoint)
        ensures
            r@ == self@,
    {
        proof {
            use_type_invariant(self);
        }
        Endpoint { host: self.host.clone(), port: self.port, insecure: self.insecure }
    }
}

/// Proof of a login: the cookie that the controller set, kept as it came.
/// Only a successful login makes one.
///
/// The value is that of the `Set-Cookie` header, whole. Where the controller
/// added attributes to the cookie (`Path`, `Expires`, ..) they are part of it
/// and go back to the controller with it, which a `Cookie` header is not
/// meant to carry. [`Session::carries_attributes`] tells such a cookie.
#[derive(Debug, PartialEq, Eq)]
pub struct Session {
    cookie: String,
}

impl View for Session {
    type V = Seq<char>;

    /// The cookie text.
    closed spec fn view(&self) -> Seq<char> {
        self.cookie@
    }
}

impl DeepView for Session {
    type V = Seq<char>;

    open spec fn deep_view(&self) -> Seq<char> {
        self@
    }
}

impl Session {
    pub(crate) fn new(cookie: String) -> (r: Session)
        ensures
            r@ == cookie@,
    {
        Session { cookie }
    }

    /// The cookie, to be sent back unchanged.
    pub fn cookie(&self) -> (r: &String)
        ensures
            r@ == self@,
    {
        &self.cookie
    }

    /// Whether the cookie holds a `;`, and with it more than one
    /// `name=value` pair or an attribute.
    pub fn carries_attributes(&self) -> (r: bool)
        ensures
            r == self@.contains(';'),
    {
        let chars = chars_of(self.cookie.as_str());
        let mut i: usize = 0;
        while i < chars.len()
            invariant
                i <= chars.len(),
                chars@ == self@,
                forall|k: int| 0 <= k < i ==> chars[k] != ';',
            decreases chars.len() - i,
        {
            if chars[i] == ';' {
                return true;
            }
            i += 1;
        }
        false
    }
}

impl Clone for Session {
    fn clone(&self) -> (r: Session)
        ensures
            r@ == self@,
    {
        Session { cookie: self.cookie.clone() }
    }
}

/// A site as the controller lists it.
#[derive(Debug, PartialEq, Eq)]
pub struct Site {
    pub id: String,
    pub name: String,
    pub description: String,
}

/// The mathematical value of a [`Site`].
pub struct SiteView {
    pub id: Seq<char>,
    pub name: Seq<char>,
    pub description: Seq<char>,
}

impl View for Site {
    type V = SiteView;

    open spec fn view(&self) -> SiteView {
        SiteView { id: self.id@, name: self.name@, description: self.description@ }
    }
}

impl DeepView for Site {
    type V = SiteView;

    open spec fn deep_view(&self) -> SiteView {
        self@
    }
}

impl Clone for Site {
    fn clone(&self) -> (r: Site)
        ensures
            r@ == self@,
    {
        Site {
            id: self.id.clone(),
            name: self.name.clone(),
            description: self.description.clone(),
        }
    }
}

/// The minutes of access that a guest authorization asks for.
pub const GUEST_MINUTES: u32 = 60;

/// The command to the controller that lets one device onto the guest network.
#[derive(Debug, PartialEq, Eq)]
pub struct GuestAuthRequest {
    pub mac_address: String,
    pub duration_minutes: u32,
    pub display_name: String,
    pub contact_email: String,
}

/// The mathematical value of a [`GuestAuthRequest`].
pub struct GuestAuthRequestView {
    pub mac_address: Seq<char>,
    pub duration_minutes: u32,
    pub display_name: Seq<char>,
    pub contact_email: Seq<char>,
}

impl View for GuestAuthRequest {
    type V = GuestAuthRequestView;

    open spec fn view(&self) -> GuestAuthRequestView {
        GuestAuthRequestView {
            mac_address: self.mac_address@,
            duration_minutes: self.duration_minutes,
            display_name: self.display_name@,
            contact_email: self.contact_email@,
        }
    }
}

/// The request that this tool makes for the device `mac`: an hour of access
/// under a fixed name and contact.
pub open spec fn guest_auth_defaults(mac: Seq<char>) -> GuestAuthRequestView {
    GuestAuthRequestView {
        mac_address: mac,
        duration_minutes: GUEST_MINUTES,
        display_name: "Test Guest"@,
        contact_email: "test@example.com"@,
    }
}

impl GuestAuthRequest {
    /// The request for the device `mac`, with the fixed policy values.
    pub fn new(mac: &str) -> (r: GuestAuthRequest)
        ensures
            r@ == guest_auth_defaults(mac@),
    {
        GuestAuthRequest {
            mac_address: String::from_str(mac),
            duration_minutes: GUEST_MINUTES,
            display_name: String::from_str("Test Guest"),
            contact_email: String::from_str("test@example.com"),
        }
    }
}

/// Why a run stopped.
#[derive(Debug, PartialEq, Eq)]
pub enum ProtocolError {
    /// No response came: connection, TLS or timeout. The text is the
    /// transport's own.
    TransportError { message: String },
    /// The login was answered with a status outside 200..=299.
    AuthRejected { status: u16 },
    /// The login was answered with success but set no cookie.
    MissingSession,
    /// A call under the session was answered with a status outside 200..=299.
    HttpRejected { status: u16 },
    /// The envelope's result code was not `ok`.
    ApiError { message: String },
    /// The body was not an envelope of the expected shape.
    DecodeError,
}

/// The mathematical value of a [`ProtocolError`].
pub enum ProtocolErrorView {
    TransportError { message: Seq<char> },
    AuthRejected { status: u16 },
    MissingSession,
    HttpRejected { status: u16 },
    ApiError { message: Seq<char> },
    DecodeError,
}

impl View for ProtocolError {
    type V = ProtocolErrorView;

    open spec fn view(&self) -> ProtocolErrorView {
        match self {
            ProtocolError::TransportError { message } => ProtocolErrorView::TransportError {
                message: message@,
            },
            ProtocolError::AuthRejected { status } => ProtocolErrorView::AuthRejected {
                status: *status,
            },
            ProtocolError::MissingSession => ProtocolErrorView::MissingSession,
            ProtocolError::HttpRejected { status } => ProtocolErrorView::HttpRejected {
                status: *status,
            },
            ProtocolError::ApiError { message } => ProtocolErrorView::ApiError {
                message: message@,
            },
            ProtocolError::DecodeError => ProtocolErrorView::DecodeError,
        }
    }
}

impl DeepView for ProtocolError {
    type V = ProtocolErrorView;

    open spec fn deep_view(&self) -> ProtocolErrorView {
        self@
    }
}

impl Clone for ProtocolError {
    fn clone(&self) -> (r: ProtocolError)
        ensures
            r@ == self@,
    {
        match self {
            ProtocolError::TransportError { message } => ProtocolError::TransportError {
                message: message.clone(),
            },
            ProtocolError::AuthRejected { status } => ProtocolError::AuthRejected {
                status: *status,
            },
            ProtocolError::MissingSession => ProtocolError::MissingSession,
            ProtocolError::HttpRejected { status } => ProtocolError::HttpRejected {
                status: *status,
            },
            ProtocolError::ApiError { message } => ProtocolError::ApiError {
                message: message.clone(),
            },
            ProtocolError::DecodeError => ProtocolError::DecodeError,
        }
    }
}

/// The view of a result: of the value where there is one, of the error
/// otherwise.
pub open spec fn result_view<T: DeepView>(r: Result<T, ProtocolError>) -> Result<
    T::V,
    ProtocolErrorView,
> {
    match r {
        Ok(v) => Ok(v.deep_view()),
        Err(e) => Err(e@),
    }
}

} // verus!
