//! The registry of virtual servers and what each management request does
//! to it. The listeners themselves are started and stopped by the caller:
//! a request that restarts a listener hands back the handle of the old one
//! and leaves the entry without a handle until the caller attaches a new one.

use vstd::prelude::*;
use vstd::string::StringExecFns;
use vstd::std_specs::iter::IteratorSpec;
use std::collections::HashMap;
use crate::state::{
    headers_distinct, opt_headers_distinct,
    Timestamp,
    ApiError, ApiErrorView, CreateRequestView, CreateServerRequest, ServerConfigView, ServerMode,
    ServerResponse, SetModeRequest, UpdateRequestView, UpdateServerRequest, VirtualServerConfig,
};
use crate::trusted::{hyphenated, new_server_id, nibble, now, status_code_is_valid, uuid_text};

verus! {

broadcast use vstd::std_specs::hash::group_hash_axioms;

/// The lowest port a virtual server may listen on.
pub const MIN_PORT: u16 = 1024;

/// The status code of a new server whose request names none.
pub const DEFAULT_STATUS_CODE: u16 = 200;

/// The longest response delay, in milliseconds (five minutes).
pub const MAX_DELAY_MS: u64 = 300_000;

/// A virtual server: its configuration and the handle of its running
/// listener, if one runs.
pub struct VirtualServerEntry<H> {
    pub config: VirtualServerConfig,
    pub handle: Option<H>,
}

/// The state of the manager: the virtual servers by id, the file that
/// their configurations are saved to, and the port of the management API
/// and Web UI, which no virtual server may take.
pub struct AppState<H> {
    pub servers: HashMap<u128, VirtualServerEntry<H>>,
    pub data_file: String,
    pub management_port: u16,
}

/// Whether some server listens on `port`.
pub open spec fn port_in_use(configs: Map<u128, ServerConfigView>, port: u16) -> bool {
    exists|k: u128| #![trigger configs[k]] configs.contains_key(k) && configs[k].port == port
}

/// No two servers share a port.
pub open spec fn ports_distinct(configs: Map<u128, ServerConfigView>) -> bool {
    forall|a: u128, b: u128|
        configs.contains_key(a) && configs.contains_key(b) && a != b ==> #[trigger] configs[a].port
            != #[trigger] configs[b].port
}

/// Whether HTTP admits a status code.
pub open spec fn valid_status_code(code: u16) -> bool {
    100 <= code <= 999
}

/// The status code that a create request asks for.
pub open spec fn requested_status(req: CreateRequestView) -> u16 {
    match req.http_status_code {
        Some(c) => c,
        None => DEFAULT_STATUS_CODE,
    }
}

/// A response delay cut to at most five minutes.
pub open spec fn capped_delay(d: u64) -> u64 {
    if d <= MAX_DELAY_MS {
        d
    } else {
        MAX_DELAY_MS
    }
}

/// The title of a new server whose request names none.
pub open spec fn default_title(id: u128) -> Seq<char> {
    "Server "@ + hyphenated(id)
}

/// The configuration that a create request makes, with the given id and
/// creation time.
pub open spec fn created_config(req: CreateRequestView, id: u128, now: Timestamp) -> ServerConfigView {
    ServerConfigView {
        id: id,
        name: req.name,
        port: req.port,
        status: ServerMode::Up,
        http_status_code: requested_status(req),
        html_title: match req.html_title {
            Some(t) => t,
            None => default_title(id),
        },
        response_body: req.response_body,
        custom_headers: match req.custom_headers {
            Some(h) => h,
            None => Seq::empty(),
        },
        response_delay_ms: match req.response_delay_ms {
            Some(d) => capped_delay(d),
            None => 0,
        },
        created_at: now,
        updated_at: now,
    }
}

/// Why a create request is refused, if it is: a port below 1024, then a
/// status code that HTTP does not admit, then the port of the management
/// API, then a port that a server already listens on (the error names one
/// such server).
pub open spec fn create_refusal(
    configs: Map<u128, ServerConfigView>,
    management_port: u16,
    req: CreateRequestView,
    e: ApiErrorView,
) -> bool {
    if req.port < MIN_PORT {
        e == ApiErrorView::PortTooLow
    } else if !valid_status_code(requested_status(req)) {
        e == ApiErrorView::InvalidStatusCode(requested_status(req))
    } else if req.port == management_port {
        e == ApiErrorView::ManagementPortInUse { port: req.port }
    } else {
        exists|k: u128|
            #![trigger configs[k]]
            configs.contains_key(k) && configs[k].port == req.port && e
                == ApiErrorView::PortInUse { port: req.port, server_name: configs[k].name }
    }
}

/// Whether a create request is accepted.
pub open spec fn create_accepted(
    configs: Map<u128, ServerConfigView>,
    management_port: u16,
    req: CreateRequestView,
) -> bool {
    &&& req.port >= MIN_PORT
    &&& valid_status_code(requested_status(req))
    &&& req.port != management_port
    &&& !port_in_use(configs, req.port)
}

/// The configuration `c` after an update request at time `now`: each field
/// the request gives is replaced (a delay cut to five minutes), the others
/// stay, and the update time is `now`.
pub open spec fn updated_config(c: ServerConfigView, req: UpdateRequestView, now: Timestamp) -> ServerConfigView {
    ServerConfigView {
        name: match req.name {
            Some(n) => n,
            None => c.name,
        },
        http_status_code: match req.http_status_code {
            Some(code) => code,
            None => c.http_status_code,
        },
        html_title: match req.html_title {
            Some(t) => t,
            None => c.html_title,
        },
        response_body: match req.response_body {
            Some(b) => Some(b),
            None => c.response_body,
        },
        custom_headers: match req.custom_headers {
            Some(h) => h,
            None => c.custom_headers,
        },
        response_delay_ms: match req.response_delay_ms {
            Some(d) => capped_delay(d),
            None => c.response_delay_ms,
        },
        updated_at: now,
        ..c
    }
}

/// Whether an update request carries a status code that HTTP does not
/// admit.
pub open spec fn update_has_bad_status(req: UpdateRequestView) -> bool {
    match req.http_status_code {
        Some(code) => !valid_status_code(code),
        None => false,
    }
}

/// The configuration `c` switched to `mode` at time `now`.
pub open spec fn with_mode(c: ServerConfigView, mode: ServerMode, now: Timestamp) -> ServerConfigView {
    ServerConfigView { status: mode, updated_at: now, ..c }
}

/// Whether an id has the layout of a random UUID: version digit 4 and
/// variant bits `10`. The random bits themselves are not constrained.
pub open spec fn has_uuid_v4_layout(id: u128) -> bool {
    nibble(id, 12) == 4 && 8 <= nibble(id, 16) < 12
}

/// The configuration that a create request makes, with the given id and
/// creation time.
pub fn new_server_config(req: CreateServerRequest, id: u128, now: Timestamp) -> (c: VirtualServerConfig)
    ensures
        c@ == created_config(req@, id, now),
        opt_headers_distinct(req@.custom_headers) ==> headers_distinct(c@.custom_headers),
        c.id == id && c@.name == req@.name && c.port == req.port,
        c.status == ServerMode::Up,
        c@.response_body == req@.response_body,
        req@.html_title matches Some(t) ==> c@.html_title == t,
        req.response_delay_ms matches Some(d) ==> c.response_delay_ms == (if d <= 300_000 {
            d
        } else {
            300_000
        }),
        c.created_at == now && c.updated_at == now,
{
    proof {
        crate::laws::law_create_takes_request_fields(req@, id, now);
    }
    let http_status_code = match req.http_status_code {
        Some(code) => code,
        None => DEFAULT_STATUS_CODE,
    };
    let html_title = match req.html_title {
        Some(t) => t,
        None => {
            let mut t = String::from_str("Server ");
            let u = uuid_text(id);
            t.append(u.as_str());
            t
        },
    };
    let custom_headers = match req.custom_headers {
        Some(h) => h,
        None => Vec::new(),
    };
    let response_delay_ms = match req.response_delay_ms {
        Some(d) => if d <= MAX_DELAY_MS {
            d
        } else {
            MAX_DELAY_MS
        },
        None => 0,
    };
    let c = VirtualServerConfig {
        id,
        name: req.name,
        port: req.port,
        status: ServerMode::Up,
        http_status_code,
        html_title,
        response_body: req.response_body,
        custom_headers,
        response_delay_ms,
        created_at: now,
        updated_at: now,
    };
    assert(c@.custom_headers == created_config(req@, id, now).custom_headers);
    c
}

/// The configuration `config` after an update request at time `now`.
pub fn apply_update(config: VirtualServerConfig, req: UpdateServerRequest, now: Timestamp) -> (c:
    VirtualServerConfig)
    ensures
        c@ == updated_config(config@, req@, now),
        headers_distinct(config@.custom_headers) && opt_headers_distinct(req@.custom_headers)
            ==> headers_distinct(c@.custom_headers),
        req@.name matches Some(n) ==> c@.name == n,
        req@.http_status_code matches Some(code) ==> c.http_status_code == code,
        req@.html_title matches Some(t) ==> c@.html_title == t,
        req@.response_body matches Some(b) ==> c@.response_body == Some(b),
        req@.custom_headers matches Some(h) ==> c@.custom_headers == h,
        req@.response_delay_ms matches Some(d) ==> c.response_delay_ms == (if d <= 300_000 {
            d
        } else {
            300_000
        }),
        c.updated_at == now,
{
    proof {
        crate::laws::law_update_sets_given_fields(config@, req@, now);
    }
    let mut c = config;
    if let Some(name) = req.name {
        c.name = name;
    }
    if let Some(code) = req.http_status_code {
        c.http_status_code = code;
    }
    if let Some(title) = req.html_title {
        c.html_title = title;
    }
    if req.response_body.is_some() {
        c.response_body = req.response_body;
    }
    if let Some(headers) = req.custom_headers {
        c.custom_headers = headers;
    }
    if let Some(delay) = req.response_delay_ms {
        c.response_delay_ms = if delay <= MAX_DELAY_MS {
            delay
        } else {
            MAX_DELAY_MS
        };
    }
    c.updated_at = now;
    c
}

/// The configuration `config` switched to `mode` at time `now`.
pub fn switch_mode(config: VirtualServerConfig, mode: ServerMode, now: Timestamp) -> (c:
    VirtualServerConfig)
    ensures
        c@ == with_mode(config@, mode, now),
{
    let mut c = config;
    c.status = mode;
    c.updated_at = now;
    c
}

impl<H> AppState<H> {
    /// The configurations of the servers, by id.
    pub open spec fn configs(&self) -> Map<u128, ServerConfigView> {
        self.servers@.map_values(|e: VirtualServerEntry<H>| e.config@)
    }

    /// A manager with no servers, saving to `data_file`, whose management
    /// API listens on `management_port`.
    pub fn new(data_file: String, management_port: u16) -> (s: Self)
        ensures
            s.servers@ == Map::<u128, VirtualServerEntry<H>>::empty(),
            s.data_file@ == data_file@,
            s.management_port == management_port,
    {
        AppState { servers: HashMap::new(), data_file, management_port }
    }

    /// A description of every server, each once, in no particular order.
    pub fn list_servers(&self) -> (r: Vec<ServerResponse>)
        ensures
            exists|ks: Seq<u128>|
                {
                    &&& ks.no_duplicates()
                    &&& ks.to_set() == self.servers@.dom()
                    &&& ks.len() == r@.len()
                    &&& forall|i: int|
                        0 <= i < ks.len() ==> (#[trigger] r@[i])@ == self.configs()[ks[i]]
                },
    {
        let mut r: Vec<ServerResponse> = Vec::new();
        let ghost all = vstd::std_specs::hash::spec_keys_iter(&self.servers).remaining().unref();
        for k in it: self.servers.keys()
            invariant
                it.seq().unref() == all,
                all.to_set() == self.servers@.dom(),
                all.no_duplicates(),
                r@.len() == it.index(),
                forall|i: int|
                    0 <= i < it.index() ==> (#[trigger] r@[i])@ == self.configs()[all[i]],
        {
            match self.servers.get(k) {
                Some(e) => {
                    r.push(ServerResponse::from(&e.config));
                },
                None => {
                    assert(all.contains(*k));
                },
            }
        }
        r
    }

    /// The description of server `id`, or `NotFound`.
    pub fn get_server(&self, id: u128) -> (r: Result<ServerResponse, ApiError>)
        ensures
            match r {
                Ok(resp) => self.configs().contains_key(id) && resp@ == self.configs()[id],
                Err(e) => !self.configs().contains_key(id) && e@ == ApiErrorView::NotFound,
            },
    {
        match self.servers.get(&id) {
            Some(e) => Ok(ServerResponse::from(&e.config)),
            None => Err(ApiError::NotFound),
        }
    }

    /// The name of a server that listens on `port`, if one does.
    pub fn port_user(&self, port: u16) -> (r: Option<String>)
        ensures
            r is None <==> !port_in_use(self.configs(), port),
            r matches Some(n) ==> exists|k: u128|
                #![trigger self.configs()[k]]
                self.configs().contains_key(k) && self.configs()[k].port == port
                    && self.configs()[k].name == n@,
    {
        let ghost all = vstd::std_specs::hash::spec_keys_iter(&self.servers).remaining().unref();
        for k in it: self.servers.keys()
            invariant
                it.seq().unref() == all,
                all.to_set() == self.servers@.dom(),
                forall|i: int| 0 <= i < it.index() ==> (#[trigger] self.configs()[all[i]]).port != port,
        {
            match self.servers.get(k) {
                Some(e) => {
                    assert(self.servers@.contains_key(*k) && self.servers@[*k] == *e);
                    assert(self.configs().contains_key(*k));
                    assert(self.configs()[*k] == e.config@);
                    if e.config.port == port {
                        assert(port_in_use(self.configs(), port));
                        return Some(e.config.name.clone());
                    }
                },
                None => {
                    assert(all.contains(*k));
                },
            }
        }
        proof {
            assert forall|k: u128| self.configs().contains_key(k) implies #[trigger] self.configs()[k].port != port by {
                assert(all.to_set().contains(k));
                let i = all.index_of(k);
                assert(self.configs()[all[i]].port != port);
            }
        }
        None
    }

    /// Checks a create request against the servers and, when it is
    /// accepted, makes the configuration of the new server, with a fresh
    /// random id and the current time. The state is not changed: the caller
    /// starts the listener and then inserts the server.
    pub fn create_server(&self, req: CreateServerRequest) -> (r: Result<VirtualServerConfig, ApiError>)
        ensures
            match r {
                Ok(c) => {
                    &&& create_accepted(self.configs(), self.management_port, req@)
                    &&& c@ == created_config(req@, c.id, c.created_at)
                    &&& opt_headers_distinct(req@.custom_headers) ==> headers_distinct(
                        c@.custom_headers,
                    )
                    &&& has_uuid_v4_layout(c.id)
                },
                Err(e) => !create_accepted(self.configs(), self.management_port, req@)
                    && create_refusal(
                    self.configs(),
                    self.management_port,
                    req@,
                    e@,
                ),
            },
    {
        if req.port < MIN_PORT {
            return Err(ApiError::PortTooLow);
        }
        let code = match req.http_status_code {
            Some(c) => c,
            None => DEFAULT_STATUS_CODE,
        };
        if !status_code_is_valid(code) {
            return Err(ApiError::InvalidStatusCode(code));
        }
        if req.port == self.management_port {
            return Err(ApiError::ManagementPortInUse { port: req.port });
        }
        match self.port_user(req.port) {
            Some(name) => {
                return Err(ApiError::PortInUse { port: req.port, server_name: name });
            },
            None => {},
        }
        let now = now();
        let id = new_server_id();
        Ok(new_server_config(req, id, now))
    }

    /// Stores `config` under `id`, with the handle of its listener; a
    /// server stored under `id` before is replaced.
    pub fn insert_server(&mut self, id: u128, config: VirtualServerConfig, handle: Option<H>)
        ensures
            final(self).servers@ == old(self).servers@.insert(
                id,
                (VirtualServerEntry { config, handle }),
            ),
            final(self).data_file == old(self).data_file,
            final(self).management_port == old(self).management_port,
    {
        self.servers.insert(id, VirtualServerEntry { config, handle });
    }

    /// What an update request did: refused with the bad status code, or
    /// with `NotFound`, and nothing changed; or the server's configuration
    /// updated at some time, its listener handle taken out and handed back.
    pub open spec fn update_outcome(
        self,
        after: Self,
        id: u128,
        req: UpdateRequestView,
        r: Result<Option<H>, ApiError>,
    ) -> bool {
        &&& after.data_file == self.data_file
        &&& after.management_port == self.management_port
        &&& if update_has_bad_status(req) {
            &&& r matches Err(e) && e@ == ApiErrorView::InvalidStatusCode(req.http_status_code->0)
            &&& after.servers@ == self.servers@
        } else if !self.servers@.contains_key(id) {
            &&& r matches Err(e) && e@ == ApiErrorView::NotFound
            &&& after.servers@ == self.servers@
        } else {
            &&& r == Ok::<Option<H>, ApiError>(self.servers@[id].handle)
            &&& after.servers@ == self.servers@.insert(id, after.servers@[id])
            &&& after.servers@[id].handle is None
            &&& after.configs()[id] == updated_config(
                self.configs()[id],
                req,
                after.configs()[id].updated_at,
            )
        }
    }

    /// Applies an update request to server `id`, stamped with the current
    /// time, and takes out the handle of its listener for the caller to stop.
    pub fn update_server(&mut self, id: u128, req: UpdateServerRequest) -> (r: Result<
        Option<H>,
        ApiError,
    >)
        ensures
            old(self).update_outcome(*final(self), id, req@, r),
    {
        if let Some(code) = req.http_status_code {
            if !status_code_is_valid(code) {
                return Err(ApiError::InvalidStatusCode(code));
            }
        }
        match self.servers.remove(&id) {
            None => {
                assert(self.servers@ =~= old(self).servers@);
                Err(ApiError::NotFound)
            },
            Some(entry) => {
                let now = now();
                let config = apply_update(entry.config, req, now);
                self.servers.insert(id, VirtualServerEntry { config, handle: None });
                assert(self.servers@ =~= old(self).servers@.insert(id, self.servers@[id]));
                Ok(entry.handle)
            },
        }
    }

    /// Gives server `id` the handle of its new listener and describes it;
    /// `None`, and nothing changed, when there is no such server.
    pub fn attach_handle(&mut self, id: u128, handle: Option<H>) -> (r: Option<ServerResponse>)
        ensures
            final(self).data_file == old(self).data_file,
            final(self).management_port == old(self).management_port,
            match r {
                Some(resp) => {
                    &&& old(self).servers@.contains_key(id)
                    &&& resp@ == old(self).configs()[id]
                    &&& final(self).servers@ == old(self).servers@.insert(
                        id,
                        (VirtualServerEntry { config: old(self).servers@[id].config, handle }),
                    )
                },
                None => !old(self).servers@.contains_key(id) && final(self).servers@ == old(
                    self,
                ).servers@,
            },
    {
        match self.servers.remove(&id) {
            None => {
                assert(self.servers@ =~= old(self).servers@);
                None
            },
            Some(entry) => {
                let resp = ServerResponse::from(&entry.config);
                self.servers.insert(id, VirtualServerEntry { config: entry.config, handle });
                assert(self.servers@ =~= old(self).servers@.insert(
                    id,
                    (VirtualServerEntry { config: old(self).servers@[id].config, handle }),
                ));
                Some(resp)
            },
        }
    }

    /// Removes server `id` and hands back the handle of its listener for the
    /// caller to stop; `NotFound`, and nothing changed, when there is no
    /// such server.
    pub fn delete_server(&mut self, id: u128) -> (r: Result<Option<H>, ApiError>)
        ensures
            final(self).data_file == old(self).data_file,
            final(self).management_port == old(self).management_port,
            match r {
                Ok(h) => {
                    &&& old(self).servers@.contains_key(id)
                    &&& h == old(self).servers@[id].handle
                    &&& final(self).servers@ == old(self).servers@.remove(id)
                },
                Err(e) => {
                    &&& !old(self).servers@.contains_key(id)
                    &&& e@ == ApiErrorView::NotFound
                    &&& final(self).servers@ == old(self).servers@
                },
            },
    {
        match self.servers.remove(&id) {
            None => {
                assert(self.servers@ =~= old(self).servers@);
                Err(ApiError::NotFound)
            },
            Some(entry) => Ok(entry.handle),
        }
    }

    /// What a change of mode did: refused with `NotFound` and nothing
    /// changed; or the server switched to `mode` at some time, its listener
    /// handle taken out and handed back.
    pub open spec fn mode_outcome(
        self,
        after: Self,
        id: u128,
        mode: ServerMode,
        r: Result<Option<H>, ApiError>,
    ) -> bool {
        &&& after.data_file == self.data_file
        &&& after.management_port == self.management_port
        &&& if !self.servers@.contains_key(id) {
            &&& r matches Err(e) && e@ == ApiErrorView::NotFound
            &&& after.servers@ == self.servers@
        } else {
            &&& r == Ok::<Option<H>, ApiError>(self.servers@[id].handle)
            &&& after.servers@ == self.servers@.insert(id, after.servers@[id])
            &&& after.servers@[id].handle is None
            &&& after.configs()[id] == with_mode(
                self.configs()[id],
                mode,
                after.configs()[id].updated_at,
            )
        }
    }

    /// Switches server `id` to `mode`, stamped with the current time, and
    /// takes out the handle of its listener for the caller to stop.
    pub fn change_mode(&mut self, id: u128, mode: ServerMode) -> (r: Result<Option<H>, ApiError>)
        ensures
            old(self).mode_outcome(*final(self), id, mode, r),
            old(self).servers@.contains_key(id) ==> r is Ok && final(self).configs().contains_key(id)
                && final(self).configs()[id].status == mode,
    {
        match self.servers.remove(&id) {
            None => {
                assert(self.servers@ =~= old(self).servers@);
                Err(ApiError::NotFound)
            },
            Some(entry) => {
                let now = now();
                let config = switch_mode(entry.config, mode, now);
                self.servers.insert(id, VirtualServerEntry { config, handle: None });
                assert(self.servers@ =~= old(self).servers@.insert(id, self.servers@[id]));
                Ok(entry.handle)
            },
        }
    }

    /// Switches server `id` to the mode that the request names.
    pub fn set_mode(&mut self, id: u128, req: SetModeRequest) -> (r: Result<Option<H>, ApiError>)
        ensures
            old(self).mode_outcome(*final(self), id, req.mode, r),
            old(self).servers@.contains_key(id) ==> r is Ok && final(self).configs().contains_key(id)
                && final(self).configs()[id].status == req.mode,
    {
        self.change_mode(id, req.mode)
    }

    /// Switches server `id` to `Up`.
    pub fn set_up(&mut self, id: u128) -> (r: Result<Option<H>, ApiError>)
        ensures
            old(self).mode_outcome(*final(self), id, ServerMode::Up, r),
            old(self).servers@.contains_key(id) ==> r is Ok && final(self).configs().contains_key(id)
                && final(self).configs()[id].status == ServerMode::Up,
    {
        self.change_mode(id, ServerMode::Up)
    }

    /// Switches server `id` to refusing connections.
    pub fn set_down(&mut self, id: u128) -> (r: Result<Option<H>, ApiError>)
        ensures
            old(self).mode_outcome(*final(self), id, ServerMode::DownConnectionRefused, r),
            old(self).servers@.contains_key(id) ==> r is Ok && final(self).configs().contains_key(id)
                && final(self).configs()[id].status == ServerMode::DownConnectionRefused,
    {
        self.change_mode(id, ServerMode::DownConnectionRefused)
    }

    /// The configurations to save to the data file: a copy of each
    /// server's configuration, by id.
    pub fn persisted_configs(&self) -> (m: HashMap<u128, VirtualServerConfig>)
        ensures
            m@.dom() == self.servers@.dom(),
            forall|k: u128| #[trigger] m@.contains_key(k) ==> m@[k]@ == self.configs()[k],
    {
        let mut m: HashMap<u128, VirtualServerConfig> = HashMap::new();
        let ghost all = vstd::std_specs::hash::spec_keys_iter(&self.servers).remaining().unref();
        for k in it: self.servers.keys()
            invariant
                it.seq().unref() == all,
                all.to_set() == self.servers@.dom(),
                forall|j: int| 0 <= j < it.index() ==> m@.contains_key(#[trigger] all[j]),
                forall|k2: u128|
                    #[trigger] m@.contains_key(k2) ==> self.servers@.contains_key(k2)
                        && m@[k2]@ == self.configs()[k2],
        {
            match self.servers.get(k) {
                Some(e) => {
                    m.insert(*k, e.config.clone());
                },
                None => {
                    assert(all.contains(*k));
                },
            }
        }
        proof {
            assert forall|k: u128| self.servers@.contains_key(k) implies m@.contains_key(k) by {
                assert(all.to_set().contains(k));
                let i = all.index_of(k);
                assert(m@.contains_key(all[i]));
            }
            assert(m@.dom() =~= self.servers@.dom());
        }
        m
    }
}

} // verus!
