//! Properties of the manager that span its operations, each proved from the
//! contracts of the operations it speaks of.

use vstd::prelude::*;
use crate::management::{
    capped_delay, create_accepted, created_config, ports_distinct, updated_config, with_mode,
    AppState, VirtualServerEntry, MAX_DELAY_MS,
};
use crate::state::{
    headers_distinct, opt_headers_distinct,
    Timestamp,
    CreateRequestView, ServerConfigView, ServerMode, UpdateRequestView, VirtualServerConfig,
};
use crate::text::{escape_char, escaped};
use crate::virtual_server::{accepted_headers, listener_for, ListenerPlan};
use crate::trusted::{valid_header_name, valid_header_value};

verus! {

/// Every server is stored under its own id and names each of its headers
/// once, and no two servers share a port.
pub open spec fn well_formed(configs: Map<u128, ServerConfigView>) -> bool {
    &&& ports_distinct(configs)
    &&& forall|k: u128| #[trigger] configs.contains_key(k) ==> configs[k].id == k
    &&& forall|k: u128|
        #[trigger] configs.contains_key(k) ==> headers_distinct(configs[k].custom_headers)
}

/// Inserting a server that a create request made, under its id, keeps the
/// registry well formed: the new server's port was free, so ports stay
/// distinct, and its headers are those of the request.
pub proof fn law_create_keeps_well_formed<H>(
    before: AppState<H>,
    after: AppState<H>,
    req: CreateRequestView,
    config: VirtualServerConfig,
    handle: Option<H>,
)
    requires
        well_formed(before.configs()),
        create_accepted(before.configs(), before.management_port, req),
        opt_headers_distinct(req.custom_headers),
        config@ == created_config(req, config.id, config.created_at),
        after.servers@ == before.servers@.insert(
            config.id,
            (VirtualServerEntry { config, handle }),
        ),
    ensures
        well_formed(after.configs()),
{
    let c = after.configs();
    assert forall|a: u128, b: u128|
        c.contains_key(a) && c.contains_key(b) && a != b implies #[trigger] c[a].port
        != #[trigger] c[b].port by {
        if a == config.id {
            assert(before.configs().contains_key(b));
        } else if b == config.id {
            assert(before.configs().contains_key(a));
        } else {
            assert(before.configs().contains_key(a) && before.configs().contains_key(b));
        }
    }
    assert forall|k: u128| #[trigger] c.contains_key(k) implies c[k].id == k && headers_distinct(
        c[k].custom_headers,
    ) by {
        if k != config.id {
            assert(before.configs().contains_key(k));
        }
    }
}

/// The configurations after an operation that changed only server `id`,
/// keeping its id and port, are well formed if they were before.
proof fn lemma_same_ports_keeps_well_formed<H>(before: AppState<H>, after: AppState<H>, id: u128)
    requires
        well_formed(before.configs()),
        before.servers@.contains_key(id),
        after.servers@ == before.servers@.insert(id, after.servers@[id]),
        after.configs()[id].id == before.configs()[id].id,
        after.configs()[id].port == before.configs()[id].port,
        headers_distinct(after.configs()[id].custom_headers),
    ensures
        well_formed(after.configs()),
{
    let c = after.configs();
    assert forall|k: u128| c.contains_key(k) && k != id implies #[trigger] c[k] == before.configs()[k] by {
        assert(after.servers@[k] == before.servers@[k]);
    }
    assert forall|a: u128, b: u128|
        c.contains_key(a) && c.contains_key(b) && a != b implies #[trigger] c[a].port
        != #[trigger] c[b].port by {
        assert(before.configs().contains_key(a) && before.configs().contains_key(b));
    }
    assert forall|k: u128| #[trigger] c.contains_key(k) implies c[k].id == k && headers_distinct(
        c[k].custom_headers,
    ) by {
        assert(before.configs().contains_key(k));
    }
}

/// A server that a create request makes never takes the management API's
/// port; and since updates and mode changes keep ports, no operation of
/// the registry gives a server that port.
pub proof fn law_create_avoids_management_port(
    configs: Map<u128, ServerConfigView>,
    management_port: u16,
    req: CreateRequestView,
    id: u128,
    now: Timestamp,
)
    requires
        create_accepted(configs, management_port, req),
    ensures
        created_config(req, id, now).port != management_port,
{
}

/// An update request whose headers, if given, name each header once keeps
/// the registry well formed: it never changes a server's id or port.
pub proof fn law_update_keeps_well_formed<H>(
    before: AppState<H>,
    after: AppState<H>,
    id: u128,
    req: UpdateRequestView,
    r: Result<Option<H>, crate::state::ApiError>,
)
    requires
        well_formed(before.configs()),
        before.update_outcome(after, id, req, r),
        opt_headers_distinct(req.custom_headers),
    ensures
        well_formed(after.configs()),
{
    if after.servers@ == before.servers@ {
        assert(after.configs() =~= before.configs());
    } else {
        assert(before.configs().contains_key(id));
        lemma_same_ports_keeps_well_formed(before, after, id);
    }
}

/// A change of mode keeps the registry well formed.
pub proof fn law_mode_change_keeps_well_formed<H>(
    before: AppState<H>,
    after: AppState<H>,
    id: u128,
    mode: ServerMode,
    r: Result<Option<H>, crate::state::ApiError>,
)
    requires
        well_formed(before.configs()),
        before.mode_outcome(after, id, mode, r),
    ensures
        well_formed(after.configs()),
{
    if !before.servers@.contains_key(id) {
        assert(after.configs() =~= before.configs());
    } else {
        assert(before.configs().contains_key(id));
        lemma_same_ports_keeps_well_formed(before, after, id);
    }
}

/// Removing a server keeps the registry well formed.
pub proof fn law_delete_keeps_well_formed<H>(before: AppState<H>, after: AppState<H>, id: u128)
    requires
        well_formed(before.configs()),
        after.servers@ == before.servers@.remove(id),
    ensures
        well_formed(after.configs()),
{
    let c = after.configs();
    assert forall|a: u128, b: u128|
        c.contains_key(a) && c.contains_key(b) && a != b implies #[trigger] c[a].port
        != #[trigger] c[b].port by {
        assert(before.configs().contains_key(a) && before.configs().contains_key(b));
    }
    assert forall|k: u128| #[trigger] c.contains_key(k) implies c[k].id == k && headers_distinct(
        c[k].custom_headers,
    ) by {
        assert(before.configs().contains_key(k));
    }
}

/// A server that has been stored is found, with the configuration that was
/// stored, and the other servers are as they were.
pub proof fn law_read_after_insert<H>(
    before: AppState<H>,
    after: AppState<H>,
    id: u128,
    config: VirtualServerConfig,
    handle: Option<H>,
)
    requires
        after.servers@ == before.servers@.insert(id, (VirtualServerEntry { config, handle })),
    ensures
        after.configs().contains_key(id),
        after.configs()[id] == config@,
        forall|k: u128| k != id ==> after.configs().contains_key(k) == before.configs().contains_key(k),
        forall|k: u128|
            k != id && #[trigger] before.configs().contains_key(k) ==> after.configs()[k]
                == before.configs()[k],
{
}

/// A removed server is no longer found, and the other servers are as they
/// were; so a second removal of the same id is answered `NotFound`.
pub proof fn law_read_after_delete<H>(before: AppState<H>, after: AppState<H>, id: u128)
    requires
        after.servers@ == before.servers@.remove(id),
    ensures
        !after.configs().contains_key(id),
        !after.servers@.contains_key(id),
        forall|k: u128|
            k != id && #[trigger] before.configs().contains_key(k) ==> after.configs().contains_key(k)
                && after.configs()[k] == before.configs()[k],
{
}

/// After a change of mode, the server is found in the new mode, with every
/// other field as it was but the update time.
pub proof fn law_read_after_mode_change<H>(
    before: AppState<H>,
    after: AppState<H>,
    id: u128,
    mode: ServerMode,
    r: Result<Option<H>, crate::state::ApiError>,
)
    requires
        before.mode_outcome(after, id, mode, r),
        r is Ok,
    ensures
        after.configs().contains_key(id),
        after.configs()[id].status == mode,
        after.configs()[id] == (ServerConfigView {
            status: mode,
            updated_at: after.configs()[id].updated_at,
            ..before.configs()[id]
        }),
{
}

/// A new server starts up, with equal creation and update times, and a
/// response delay of at most five minutes.
pub proof fn law_new_server_starts_up(req: CreateRequestView, id: u128, now: Timestamp)
    ensures
        created_config(req, id, now).status == ServerMode::Up,
        created_config(req, id, now).created_at == created_config(req, id, now).updated_at,
        created_config(req, id, now).response_delay_ms <= MAX_DELAY_MS,
        req.response_delay_ms matches Some(d) ==> created_config(req, id, now).response_delay_ms
            == (if d <= MAX_DELAY_MS { d } else { MAX_DELAY_MS }),
{
}

/// A created server carries what the request gave: its name, port, body
/// and headers exactly, the requested status code (200 when none is
/// given), the requested title (or the default one), and the requested
/// delay cut to five minutes (0 when none is given); it starts up, stamped
/// with the creation time, under the given id.
pub proof fn law_create_takes_request_fields(req: CreateRequestView, id: u128, now: Timestamp)
    ensures
        created_config(req, id, now).id == id,
        created_config(req, id, now).name == req.name,
        created_config(req, id, now).port == req.port,
        created_config(req, id, now).status == ServerMode::Up,
        created_config(req, id, now).response_body == req.response_body,
        req.http_status_code matches Some(code) ==> created_config(req, id, now).http_status_code
            == code,
        req.http_status_code is None ==> created_config(req, id, now).http_status_code == 200,
        req.html_title matches Some(t) ==> created_config(req, id, now).html_title == t,
        req.custom_headers matches Some(h) ==> created_config(req, id, now).custom_headers == h,
        req.custom_headers is None ==> created_config(req, id, now).custom_headers.len() == 0,
        req.response_delay_ms matches Some(d) ==> created_config(req, id, now).response_delay_ms
            == (if d <= 300_000 { d } else { 300_000 }),
        req.response_delay_ms is None ==> created_config(req, id, now).response_delay_ms == 0,
        created_config(req, id, now).created_at == now,
        created_config(req, id, now).updated_at == now,
{
}

/// An update replaces each field the request gives: name, status code,
/// title, body and headers by the given value, the delay by the given one
/// cut to five minutes; each field it does not give stays as it was.
pub proof fn law_update_sets_given_fields(c: ServerConfigView, req: UpdateRequestView, now: Timestamp)
    ensures
        req.name matches Some(n) ==> updated_config(c, req, now).name == n,
        req.name is None ==> updated_config(c, req, now).name == c.name,
        req.http_status_code matches Some(code) ==> updated_config(c, req, now).http_status_code
            == code,
        req.http_status_code is None ==> updated_config(c, req, now).http_status_code
            == c.http_status_code,
        req.html_title matches Some(t) ==> updated_config(c, req, now).html_title == t,
        req.html_title is None ==> updated_config(c, req, now).html_title == c.html_title,
        req.response_body matches Some(b) ==> updated_config(c, req, now).response_body == Some(b),
        req.response_body is None ==> updated_config(c, req, now).response_body
            == c.response_body,
        req.custom_headers matches Some(h) ==> updated_config(c, req, now).custom_headers == h,
        req.custom_headers is None ==> updated_config(c, req, now).custom_headers
            == c.custom_headers,
        req.response_delay_ms matches Some(d) ==> updated_config(c, req, now).response_delay_ms
            == (if d <= 300_000 { d } else { 300_000 }),
        req.response_delay_ms is None ==> updated_config(c, req, now).response_delay_ms
            == c.response_delay_ms,
{
}

/// A change of mode on a server that exists always succeeds, hands back
/// the server's old listener handle, and leaves the server in the requested
/// mode with its other settings as they were; on an id that does not exist
/// it is answered `NotFound` and changes nothing.
pub proof fn law_mode_change_succeeds_on_existing_server<H>(
    before: AppState<H>,
    after: AppState<H>,
    id: u128,
    mode: ServerMode,
    r: Result<Option<H>, crate::state::ApiError>,
)
    requires
        before.mode_outcome(after, id, mode, r),
    ensures
        before.servers@.contains_key(id) ==> {
            &&& r == Ok::<Option<H>, crate::state::ApiError>(before.servers@[id].handle)
            &&& after.configs().contains_key(id)
            &&& after.configs()[id].status == mode
            &&& after.configs()[id].name == before.configs()[id].name
            &&& after.configs()[id].port == before.configs()[id].port
            &&& after.configs()[id].http_status_code == before.configs()[id].http_status_code
            &&& after.configs()[id].html_title == before.configs()[id].html_title
            &&& after.configs()[id].response_body == before.configs()[id].response_body
            &&& after.configs()[id].custom_headers == before.configs()[id].custom_headers
            &&& after.configs()[id].response_delay_ms == before.configs()[id].response_delay_ms
        },
        !before.servers@.contains_key(id) ==> r is Err && after.servers@ == before.servers@,
{
}

/// The headers that a reply carries are exactly the given ones whose name
/// HTTP admits as a header name and whose value HTTP admits as a header
/// value, in their order.
pub proof fn law_usable_headers_are_the_valid_ones(h: Seq<(Seq<char>, Seq<char>)>)
    ensures
        accepted_headers(h) == h.filter(
            |p: (Seq<char>, Seq<char>)| valid_header_name(p.0) && valid_header_value(p.1),
        ),
        forall|p: (Seq<char>, Seq<char>)|
            #[trigger] accepted_headers(h).contains(p) <==> (h.contains(p) && valid_header_name(p.0)
                && valid_header_value(p.1)),
    decreases h.len(),
{
    let f = |p: (Seq<char>, Seq<char>)| valid_header_name(p.0) && valid_header_value(p.1);
    reveal(Seq::filter);
    if h.len() > 0 {
        let dl = h.drop_last();
        let last = h.last();
        law_usable_headers_are_the_valid_ones(dl);
        let a = accepted_headers(dl);
        assert(h.filter(f) == (if f(last) {
            dl.filter(f).push(last)
        } else {
            dl.filter(f)
        }));
        if f(last) {
            assert(accepted_headers(h) =~= a.push(last));
        } else {
            assert(accepted_headers(h) =~= a);
        }
        assert forall|p: (Seq<char>, Seq<char>)|
            #[trigger] accepted_headers(h).contains(p) <==> (h.contains(p) && valid_header_name(p.0)
                && valid_header_value(p.1)) by {
            assert(h =~= dl.push(last));
            if h.contains(p) && p != last {
                let j = choose|j: int| 0 <= j < h.len() && h[j] == p;
                assert(j < dl.len());
                assert(dl[j] == p);
            }
            if dl.contains(p) {
                let j = choose|j: int| 0 <= j < dl.len() && dl[j] == p;
                assert(h[j] == p);
            }
            if accepted_headers(h).contains(p) && !a.contains(p) {
                let j = choose|j: int| 0 <= j < accepted_headers(h).len() && accepted_headers(h)[j] == p;
                assert(j == a.len());
            }
            if a.contains(p) {
                let j = choose|j: int| 0 <= j < a.len() && a[j] == p;
                assert(accepted_headers(h)[j] == p);
            }
            if f(last) && p == last {
                assert(accepted_headers(h)[a.len() as int] == p);
            }
        }
    } else {
        assert(accepted_headers(h) =~= h.filter(f));
    }
}

/// An update never changes a server's id, port, mode or creation time, and
/// keeps its response delay within five minutes.
pub proof fn law_update_keeps_identity(c: ServerConfigView, req: UpdateRequestView, now: Timestamp)
    ensures
        updated_config(c, req, now).id == c.id,
        updated_config(c, req, now).port == c.port,
        updated_config(c, req, now).status == c.status,
        updated_config(c, req, now).created_at == c.created_at,
        updated_config(c, req, now).updated_at == now,
        c.response_delay_ms <= MAX_DELAY_MS ==> updated_config(c, req, now).response_delay_ms
            <= MAX_DELAY_MS,
{
}

/// An update request that gives no field changes only the update time.
pub proof fn law_empty_update_changes_only_time(c: ServerConfigView, now: Timestamp)
    ensures
        updated_config(
            c,
            UpdateRequestView {
                name: None,
                http_status_code: None,
                html_title: None,
                response_body: None,
                custom_headers: None,
                response_delay_ms: None,
            },
            now,
        ) == (ServerConfigView { updated_at: now, ..c }),
{
}

/// A change of mode changes only the mode and the update time.
pub proof fn law_mode_change_changes_only_mode(c: ServerConfigView, mode: ServerMode, now: Timestamp)
    ensures
        with_mode(c, mode, now) == (ServerConfigView { status: mode, updated_at: now, ..c }),
{
}

/// Nothing listens for a server exactly when it refuses connections.
pub proof fn law_no_listener_iff_refusing(mode: ServerMode)
    ensures
        (listener_for(mode) == ListenerPlan::NoListener) <==> (mode
            == ServerMode::DownConnectionRefused),
{
}

/// Whether a character is markup in HTML text or attributes.
pub open spec fn is_markup_char(c: char) -> bool {
    c == '&' || c == '<' || c == '>' || c == '"' || c == '\''
}

/// Escaped text holds none of `<`, `>`, `"` and `'`.
pub proof fn law_escaped_has_no_markup(s: Seq<char>)
    ensures
        forall|i: int|
            0 <= i < escaped(s).len() ==> {
                let c = #[trigger] escaped(s)[i];
                c != '<' && c != '>' && c != '"' && c != '\''
            },
    decreases s.len(),
{
    if s.len() > 0 {
        law_escaped_has_no_markup(s.drop_last());
        let a = escaped(s.drop_last());
        let b = escape_char(s.last());
        assert(escaped(s) == a + b);
        assert forall|i: int| 0 <= i < escaped(s).len() implies {
            let c = #[trigger] escaped(s)[i];
            c != '<' && c != '>' && c != '"' && c != '\''
        } by {
            if i < a.len() {
                assert(escaped(s)[i] == a[i]);
            } else {
                assert(escaped(s)[i] == b[i - a.len()]);
            }
        }
    }
}

/// Text without markup characters is left as it is.
pub proof fn law_escape_keeps_plain_text(s: Seq<char>)
    requires
        forall|i: int| 0 <= i < s.len() ==> !is_markup_char(#[trigger] s[i]),
    ensures
        escaped(s) == s,
    decreases s.len(),
{
    if s.len() > 0 {
        law_escape_keeps_plain_text(s.drop_last());
        assert(!is_markup_char(s[s.len() - 1]));
        assert(s.drop_last().push(s.last()) =~= s);
    }
}

/// Whether `s` begins with `p`.
pub open spec fn starts_with(s: Seq<char>, p: Seq<char>) -> bool {
    p.len() <= s.len() && s.take(p.len() as int) == p
}

/// HTML text read back, left to right: each of `&amp;`, `&lt;`, `&gt;`,
/// `&quot;` and `&#x27;` becomes its character again, every other character
/// stays.
pub open spec fn unescaped(s: Seq<char>) -> Seq<char>
    decreases s.len(),
{
    if s.len() == 0 {
        Seq::empty()
    } else if starts_with(s, escape_char('&')) {
        seq!['&'] + unescaped(s.skip(5))
    } else if starts_with(s, escape_char('<')) {
        seq!['<'] + unescaped(s.skip(4))
    } else if starts_with(s, escape_char('>')) {
        seq!['>'] + unescaped(s.skip(4))
    } else if starts_with(s, escape_char('"')) {
        seq!['"'] + unescaped(s.skip(6))
    } else if starts_with(s, escape_char('\'')) {
        seq!['\''] + unescaped(s.skip(6))
    } else {
        seq![s[0]] + unescaped(s.skip(1))
    }
}

/// Escaping a concatenation escapes each part.
proof fn lemma_escaped_concat(a: Seq<char>, b: Seq<char>)
    ensures
        escaped(a + b) == escaped(a) + escaped(b),
    decreases b.len(),
{
    if b.len() == 0 {
        assert(a + b =~= a);
        assert(escaped(a) + escaped(b) =~= escaped(a));
    } else {
        lemma_escaped_concat(a, b.drop_last());
        assert((a + b).drop_last() =~= a + b.drop_last());
        assert((a + b).last() == b.last());
        assert(escaped(a + b) =~= escaped(a) + escaped(b));
    }
}

/// Escaping text that is not empty escapes its first character, then the
/// rest.
proof fn lemma_escaped_first(s: Seq<char>)
    requires
        s.len() > 0,
    ensures
        escaped(s) == escape_char(s[0]) + escaped(s.skip(1)),
{
    let head = seq![s[0]];
    assert(head + s.skip(1) =~= s);
    lemma_escaped_concat(head, s.skip(1));
    assert(head.drop_last() =~= Seq::<char>::empty());
    assert(escaped(Seq::<char>::empty()) == Seq::<char>::empty());
    assert(head.last() == s[0]);
    assert(escaped(head) == escaped(head.drop_last()) + escape_char(head.last()));
    assert(escaped(head) =~= escape_char(s[0]));
}

/// Reading back the escape of a character, followed by anything, gives the
/// character, followed by the reading of the rest.
proof fn lemma_unescape_step(c: char, r: Seq<char>)
    ensures
        unescaped(escape_char(c) + r) == seq![c] + unescaped(r),
{
    let t = escape_char(c) + r;
    let amp = escape_char('&');
    let lt = escape_char('<');
    let gt = escape_char('>');
    let quot = escape_char('"');
    let apos = escape_char('\'');
    assert(t.len() > 0);
    if c == '&' {
        assert(t.take(5) =~= amp);
        assert(t.skip(5) =~= r);
    } else if c == '<' {
        assert(t[1] == 'l' && amp[1] == 'a');
        assert(!starts_with(t, amp)) by {
            if starts_with(t, amp) {
                assert(t.take(5)[1] == t[1]);
            }
        }
        assert(t.take(4) =~= lt);
        assert(t.skip(4) =~= r);
    } else if c == '>' {
        assert(t[1] == 'g');
        assert(!starts_with(t, amp)) by {
            if starts_with(t, amp) {
                assert(t.take(5)[1] == t[1]);
            }
        }
        assert(!starts_with(t, lt)) by {
            if starts_with(t, lt) {
                assert(t.take(4)[1] == t[1]);
            }
        }
        assert(t.take(4) =~= gt);
        assert(t.skip(4) =~= r);
    } else if c == '"' {
        assert(t[1] == 'q');
        assert(!starts_with(t, amp)) by {
            if starts_with(t, amp) {
                assert(t.take(5)[1] == t[1]);
            }
        }
        assert(!starts_with(t, lt)) by {
            if starts_with(t, lt) {
                assert(t.take(4)[1] == t[1]);
            }
        }
        assert(!starts_with(t, gt)) by {
            if starts_with(t, gt) {
                assert(t.take(4)[1] == t[1]);
            }
        }
        assert(t.take(6) =~= quot);
        assert(t.skip(6) =~= r);
    } else if c == '\'' {
        assert(t[1] == '#');
        assert(!starts_with(t, amp)) by {
            if starts_with(t, amp) {
                assert(t.take(5)[1] == t[1]);
            }
        }
        assert(!starts_with(t, lt)) by {
            if starts_with(t, lt) {
                assert(t.take(4)[1] == t[1]);
            }
        }
        assert(!starts_with(t, gt)) by {
            if starts_with(t, gt) {
                assert(t.take(4)[1] == t[1]);
            }
        }
        assert(!starts_with(t, quot)) by {
            if starts_with(t, quot) {
                assert(t.take(6)[1] == t[1]);
            }
        }
        assert(t.take(6) =~= apos);
        assert(t.skip(6) =~= r);
    } else {
        assert(t[0] == c);
        assert(!starts_with(t, amp)) by {
            if starts_with(t, amp) {
                assert(t.take(5)[0] == t[0]);
            }
        }
        assert(!starts_with(t, lt)) by {
            if starts_with(t, lt) {
                assert(t.take(4)[0] == t[0]);
            }
        }
        assert(!starts_with(t, gt)) by {
            if starts_with(t, gt) {
                assert(t.take(4)[0] == t[0]);
            }
        }
        assert(!starts_with(t, quot)) by {
            if starts_with(t, quot) {
                assert(t.take(6)[0] == t[0]);
            }
        }
        assert(!starts_with(t, apos)) by {
            if starts_with(t, apos) {
                assert(t.take(6)[0] == t[0]);
            }
        }
        assert(t.skip(1) =~= r);
    }
}

/// Reading escaped text back gives the original text.
pub proof fn law_unescape_undoes_escape(s: Seq<char>)
    ensures
        unescaped(escaped(s)) == s,
    decreases s.len(),
{
    if s.len() > 0 {
        lemma_escaped_first(s);
        lemma_unescape_step(s[0], escaped(s.skip(1)));
        law_unescape_undoes_escape(s.skip(1));
        assert(seq![s[0]] + s.skip(1) =~= s);
    }
}

/// Different texts have different escapes.
pub proof fn law_escape_injective(a: Seq<char>, b: Seq<char>)
    ensures
        escaped(a) == escaped(b) ==> a == b,
{
    law_unescape_undoes_escape(a);
    law_unescape_undoes_escape(b);
}

/// Escaping never shortens text.
pub proof fn law_escape_never_shortens(s: Seq<char>)
    ensures
        escaped(s).len() >= s.len(),
    decreases s.len(),
{
    if s.len() > 0 {
        law_escape_never_shortens(s.drop_last());
    }
}

/// The delay cut keeps delays of up to five minutes and cuts longer ones to
/// five minutes.
pub proof fn law_delay_cap(d: u64)
    ensures
        capped_delay(d) <= MAX_DELAY_MS,
        d <= MAX_DELAY_MS ==> capped_delay(d) == d,
        d > MAX_DELAY_MS ==> capped_delay(d) == MAX_DELAY_MS,
{
}

} // verus!
