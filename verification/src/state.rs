//! The data of the manager: server modes, server configurations, the bodies
//! of management requests, the replies to them and their errors.

use vstd::prelude::*;
use vstd::string::StringExecFns;
use crate::text::{decimal, push_decimal};

verus! {

/// Command-line options of the manager.
#[derive(Debug)]
pub struct Args {
    /// Port for the management API and Web UI.
    pub management_port: u16,
    /// Path to the JSON file for persisting server configs.
    pub data_file: String,
}

/// A point in time: whole seconds since the Unix epoch and the nanoseconds
/// past them.
#[derive(Clone, Copy, Debug, PartialEq, Eq, Structural)]
pub struct Timestamp {
    pub secs: i64,
    pub nanos: u32,
}

/// How a virtual server behaves towards its clients.
#[derive(Clone, Copy, Debug, PartialEq, Eq, Structural)]
pub enum ServerMode {
    /// Answers every request with the configured reply.
    Up,
    /// Nothing listens on the port: connections are refused.
    DownConnectionRefused,
    /// Answers every request with `503 Service Unavailable`.
    Down503,
    /// Accepts connections and never answers.
    DownTimeout,
}

/// The view of an optional string.
pub open spec fn opt_str_view(o: Option<String>) -> Option<Seq<char>> {
    match o {
        Some(s) => Some(s@),
        None => None,
    }
}

/// The view of a list of header pairs.
pub open spec fn headers_view(h: Seq<(String, String)>) -> Seq<(Seq<char>, Seq<char>)> {
    h.map_values(|p: (String, String)| (p.0@, p.1@))
}

/// No header name occurs twice, as in the map of headers that a request
/// carries.
pub open spec fn headers_distinct(h: Seq<(Seq<char>, Seq<char>)>) -> bool {
    forall|i: int, j: int| 0 <= i < j < h.len() ==> #[trigger] h[i].0 != #[trigger] h[j].0
}

/// Whether the headers that a request gives, if any, name each header once.
pub open spec fn opt_headers_distinct(h: Option<Seq<(Seq<char>, Seq<char>)>>) -> bool {
    match h {
        Some(h) => headers_distinct(h),
        None => true,
    }
}

/// The mathematical content of a server configuration.
pub struct ServerConfigView {
    pub id: u128,
    pub name: Seq<char>,
    pub port: u16,
    pub status: ServerMode,
    pub http_status_code: u16,
    pub html_title: Seq<char>,
    pub response_body: Option<Seq<char>>,
    pub custom_headers: Seq<(Seq<char>, Seq<char>)>,
    pub response_delay_ms: u64,
    pub created_at: Timestamp,
    pub updated_at: Timestamp,
}

/// The configuration of one virtual server. Its id is the 128-bit value of a
/// UUID.
#[derive(Debug)]
pub struct VirtualServerConfig {
    pub id: u128,
    pub name: String,
    pub port: u16,
    pub status: ServerMode,
    pub http_status_code: u16,
    pub html_title: String,
    pub response_body: Option<String>,
    pub custom_headers: Vec<(String, String)>,
    pub response_delay_ms: u64,
    pub created_at: Timestamp,
    pub updated_at: Timestamp,
}

impl View for VirtualServerConfig {
    type V = ServerConfigView;

    open spec fn view(&self) -> ServerConfigView {
        ServerConfigView {
            id: self.id,
            name: self.name@,
            port: self.port,
            status: self.status,
            http_status_code: self.http_status_code,
            html_title: self.html_title@,
            response_body: opt_str_view(self.response_body),
            custom_headers: headers_view(self.custom_headers@),
            response_delay_ms: self.response_delay_ms,
            created_at: self.created_at,
            updated_at: self.updated_at,
        }
    }
}

/// A copy of an optional string.
pub fn copy_opt_string(o: &Option<String>) -> (r: Option<String>)
    ensures
        opt_str_view(r) == opt_str_view(*o),
{
    match o {
        Some(s) => Some(s.clone()),
        None => None,
    }
}

/// A copy of a list of header pairs.
pub fn copy_headers(h: &Vec<(String, String)>) -> (r: Vec<(String, String)>)
    ensures
        headers_view(r@) == headers_view(h@),
{
    let mut r: Vec<(String, String)> = Vec::new();
    for i in 0..h.len()
        invariant
            r@.len() == i,
            forall|j: int| 0 <= j < i ==> (#[trigger] r@[j]).0@ == h@[j].0@ && r@[j].1@ == h@[j].1@,
    {
        let k = h[i].0.clone();
        let v = h[i].1.clone();
        r.push((k, v));
    }
    assert(headers_view(r@) =~= headers_view(h@));
    r
}

impl Clone for VirtualServerConfig {
    fn clone(&self) -> (r: Self)
        ensures
            r@ == self@,
    {
        VirtualServerConfig {
            id: self.id,
            name: self.name.clone(),
            port: self.port,
            status: self.status,
            http_status_code: self.http_status_code,
            html_title: self.html_title.clone(),
            response_body: copy_opt_string(&self.response_body),
            custom_headers: copy_headers(&self.custom_headers),
            response_delay_ms: self.response_delay_ms,
            created_at: self.created_at,
            updated_at: self.updated_at,
        }
    }
}

/// The body of a request to create a virtual server.
#[derive(Debug)]
pub struct CreateServerRequest {
    pub name: String,
    pub port: u16,
    pub http_status_code: Option<u16>,
    pub html_title: Option<String>,
    pub response_body: Option<String>,
    pub custom_headers: Option<Vec<(String, String)>>,
    pub response_delay_ms: Option<u64>,
}

/// The mathematical content of a create request.
pub struct CreateRequestView {
    pub name: Seq<char>,
    pub port: u16,
    pub http_status_code: Option<u16>,
    pub html_title: Option<Seq<char>>,
    pub response_body: Option<Seq<char>>,
    pub custom_headers: Option<Seq<(Seq<char>, Seq<char>)>>,
    pub response_delay_ms: Option<u64>,
}

/// The view of an optional list of header pairs.
pub open spec fn opt_headers_view(o: Option<Vec<(String, String)>>) -> Option<
    Seq<(Seq<char>, Seq<char>)>,
> {
    match o {
        Some(h) => Some(headers_view(h@)),
        None => None,
    }
}

impl View for CreateServerRequest {
    type V = CreateRequestView;

    open spec fn view(&self) -> CreateRequestView {
        CreateRequestView {
            name: self.name@,
            port: self.port,
            http_status_code: self.http_status_code,
            html_title: opt_str_view(self.html_title),
            response_body: opt_str_view(self.response_body),
            custom_headers: opt_headers_view(self.custom_headers),
            response_delay_ms: self.response_delay_ms,
        }
    }
}

/// The body of a request to change a virtual server; absent fields stay as
/// they are.
#[derive(Debug)]
pub struct UpdateServerRequest {
    pub name: Option<String>,
    pub http_status_code: Option<u16>,
    pub html_title: Option<String>,
    pub response_body: Option<String>,
    pub custom_headers: Option<Vec<(String, String)>>,
    pub response_delay_ms: Option<u64>,
}

/// The mathematical content of an update request.
pub struct UpdateRequestView {
    pub name: Option<Seq<char>>,
    pub http_status_code: Option<u16>,
    pub html_title: Option<Seq<char>>,
    pub response_body: Option<Seq<char>>,
    pub custom_headers: Option<Seq<(Seq<char>, Seq<char>)>>,
    pub response_delay_ms: Option<u64>,
}

impl View for UpdateServerRequest {
    type V = UpdateRequestView;

    open spec fn view(&self) -> UpdateRequestView {
        UpdateRequestView {
            name: opt_str_view(self.name),
            http_status_code: self.http_status_code,
            html_title: opt_str_view(self.html_title),
            response_body: opt_str_view(self.response_body),
            custom_headers: opt_headers_view(self.custom_headers),
            response_delay_ms: self.response_delay_ms,
        }
    }
}

/// The body of a request to change the mode of a virtual server.
#[derive(Debug)]
pub struct SetModeRequest {
    pub mode: ServerMode,
}

/// What the management API answers about a virtual server: every field of
/// its configuration.
#[derive(Debug)]
pub struct ServerResponse {
    pub id: u128,
    pub name: String,
    pub port: u16,
    pub status: ServerMode,
    pub http_status_code: u16,
    pub html_title: String,
    pub response_body: Option<String>,
    pub custom_headers: Vec<(String, String)>,
    pub response_delay_ms: u64,
    pub created_at: Timestamp,
    pub updated_at: Timestamp,
}

impl View for ServerResponse {
    type V = ServerConfigView;

    open spec fn view(&self) -> ServerConfigView {
        ServerConfigView {
            id: self.id,
            name: self.name@,
            port: self.port,
            status: self.status,
            http_status_code: self.http_status_code,
            html_title: self.html_title@,
            response_body: opt_str_view(self.response_body),
            custom_headers: headers_view(self.custom_headers@),
            response_delay_ms: self.response_delay_ms,
            created_at: self.created_at,
            updated_at: self.updated_at,
        }
    }
}

impl ServerResponse {
    /// The reply that describes `c`.
    pub fn from(c: &VirtualServerConfig) -> (r: ServerResponse)
        ensures
            r@ == c@,
    {
        ServerResponse {
            id: c.id,
            name: c.name.clone(),
            port: c.port,
            status: c.status,
            http_status_code: c.http_status_code,
            html_title: c.html_title.clone(),
            response_body: copy_opt_string(&c.response_body),
            custom_headers: copy_headers(&c.custom_headers),
            response_delay_ms: c.response_delay_ms,
            created_at: c.created_at,
            updated_at: c.updated_at,
        }
    }
}

/// Why a management request was refused.
#[derive(Debug)]
pub enum ApiError {
    /// The requested port is below 1024.
    PortTooLow,
    /// The HTTP status code is not one from 100 to 999.
    InvalidStatusCode(u16),
    /// The management API listens on the port.
    ManagementPortInUse { port: u16 },
    /// Another virtual server already listens on the port.
    PortInUse { port: u16, server_name: String },
    /// No virtual server has the given id.
    NotFound,
    /// The listener of the virtual server could not be started.
    SpawnFailed(String),
}

/// The mathematical content of an error.
pub enum ApiErrorView {
    PortTooLow,
    InvalidStatusCode(u16),
    ManagementPortInUse { port: u16 },
    PortInUse { port: u16, server_name: Seq<char> },
    NotFound,
    SpawnFailed(Seq<char>),
}

impl View for ApiError {
    type V = ApiErrorView;

    open spec fn view(&self) -> ApiErrorView {
        match self {
            ApiError::PortTooLow => ApiErrorView::PortTooLow,
            ApiError::InvalidStatusCode(c) => ApiErrorView::InvalidStatusCode(*c),
            ApiError::ManagementPortInUse { port } => ApiErrorView::ManagementPortInUse {
                port: *port,
            },
            ApiError::PortInUse { port, server_name } => ApiErrorView::PortInUse {
                port: *port,
                server_name: server_name@,
            },
            ApiError::NotFound => ApiErrorView::NotFound,
            ApiError::SpawnFailed(s) => ApiErrorView::SpawnFailed(s@),
        }
    }
}

/// The HTTP status with which an error is answered.
pub open spec fn error_status(e: ApiErrorView) -> u16 {
    match e {
        ApiErrorView::PortTooLow => 400,
        ApiErrorView::InvalidStatusCode(_) => 400,
        ApiErrorView::ManagementPortInUse { .. } => 409,
        ApiErrorView::PortInUse { .. } => 409,
        ApiErrorView::NotFound => 404,
        ApiErrorView::SpawnFailed(_) => 500,
    }
}

/// The text with which an error is answered.
pub open spec fn error_message(e: ApiErrorView) -> Seq<char> {
    match e {
        ApiErrorView::PortTooLow => "Port must be >= 1024"@,
        ApiErrorView::InvalidStatusCode(c) => "Invalid HTTP status code: "@ + decimal(c as nat),
        ApiErrorView::ManagementPortInUse { port } => "Port "@ + decimal(port as nat)
            + " is already in use by the management API"@,
        ApiErrorView::PortInUse { port, server_name } => "Port "@ + decimal(port as nat)
            + " is already in use by server '"@ + server_name + "'"@,
        ApiErrorView::NotFound => "Server not found"@,
        ApiErrorView::SpawnFailed(s) => s,
    }
}

impl ApiError {
    /// The HTTP status with which this error is answered.
    pub fn status_code(&self) -> (s: u16)
        ensures
            s == error_status(self@),
    {
        match self {
            ApiError::PortTooLow => 400,
            ApiError::InvalidStatusCode(_) => 400,
            ApiError::ManagementPortInUse { .. } => 409,
            ApiError::PortInUse { .. } => 409,
            ApiError::NotFound => 404,
            ApiError::SpawnFailed(_) => 500,
        }
    }

    /// The text with which this error is answered.
    pub fn message(&self) -> (m: String)
        ensures
            m@ == error_message(self@),
    {
        match self {
            ApiError::PortTooLow => String::from_str("Port must be >= 1024"),
            ApiError::InvalidStatusCode(c) => {
                let mut m = String::from_str("Invalid HTTP status code: ");
                push_decimal(&mut m, *c as u64);
                m
            },
            ApiError::ManagementPortInUse { port } => {
                let mut m = String::from_str("Port ");
                push_decimal(&mut m, *port as u64);
                m.append(" is already in use by the management API");
                m
            },
            ApiError::PortInUse { port, server_name } => {
                let mut m = String::from_str("Port ");
                push_decimal(&mut m, *port as u64);
                m.append(" is already in use by server '");
                m.append(server_name.as_str());
                m.append("'");
                m
            },
            ApiError::NotFound => String::from_str("Server not found"),
            ApiError::SpawnFailed(s) => s.clone(),
        }
    }
}

} // verus!
