//! What a virtual server does: which listener its mode calls for, and the
//! reply it gives to every request.

use vstd::prelude::*;
use vstd::string::StringExecFns;
use crate::state::{headers_distinct, headers_view, ServerMode, VirtualServerConfig};
use crate::text::{decimal, escape_html, escaped, push_decimal};
use crate::trusted::{
    header_name_is_valid, header_value_is_valid, status_code_is_valid, valid_header_name,
    valid_header_value,
};

verus! {

/// The listener that a virtual server needs.
#[derive(Clone, Copy, Debug, PartialEq, Eq, Structural)]
pub enum ListenerPlan {
    /// Nothing listens: connections are refused.
    NoListener,
    /// An HTTP server that answers every request, with the up reply or,
    /// when `is_503` holds, the 503 reply.
    HttpServer { is_503: bool },
    /// A server that accepts connections and holds them open unanswered.
    TimeoutServer,
}

/// The listener that each mode calls for.
pub open spec fn listener_for(mode: ServerMode) -> ListenerPlan {
    match mode {
        ServerMode::DownConnectionRefused => ListenerPlan::NoListener,
        ServerMode::Up => ListenerPlan::HttpServer { is_503: false },
        ServerMode::Down503 => ListenerPlan::HttpServer { is_503: true },
        ServerMode::DownTimeout => ListenerPlan::TimeoutServer,
    }
}

/// The listener to start for `config`; none for a server that refuses
/// connections.
pub fn listener_plan(config: &VirtualServerConfig) -> (p: ListenerPlan)
    ensures
        p == listener_for(config.status),
{
    match config.status {
        ServerMode::DownConnectionRefused => ListenerPlan::NoListener,
        ServerMode::Up => ListenerPlan::HttpServer { is_503: false },
        ServerMode::Down503 => ListenerPlan::HttpServer { is_503: true },
        ServerMode::DownTimeout => ListenerPlan::TimeoutServer,
    }
}

/// An HTTP reply: status, HTML body and extra headers, in the order in
/// which they are set.
#[derive(Debug)]
pub struct HttpReply {
    pub status: u16,
    pub body: String,
    pub headers: Vec<(String, String)>,
}

/// The mathematical content of a reply.
pub struct HttpReplyView {
    pub status: u16,
    pub body: Seq<char>,
    pub headers: Seq<(Seq<char>, Seq<char>)>,
}

impl View for HttpReply {
    type V = HttpReplyView;

    open spec fn view(&self) -> HttpReplyView {
        HttpReplyView { status: self.status, body: self.body@, headers: headers_view(self.headers@) }
    }
}

/// The status that an up server answers with: the configured code where
/// HTTP admits it, else 200.
pub open spec fn effective_status(code: u16) -> u16 {
    if 100 <= code <= 999 {
        code
    } else {
        200
    }
}

/// The page an up server serves when no body is configured; `title` is
/// already escaped.
pub open spec fn up_page(title: Seq<char>, code: u16) -> Seq<char> {
    "<!DOCTYPE html>\n<html><head><title>"@ + title + "</title></head><body><h1>"@ + title
        + "</h1><p>Server is running. Status: "@ + decimal(code as nat) + "</p></body></html>"@
}

/// The page a server in 503 mode serves; `title` is already escaped.
pub open spec fn down_503_page(title: Seq<char>) -> Seq<char> {
    "<!DOCTYPE html>\n<html><head><title>"@ + title
        + "</title></head><body><h1>503 Service Unavailable</h1><p>"@ + title
        + " is currently down.</p></body></html>"@
}

/// Whether HTTP admits a header pair.
pub open spec fn header_accepted(p: (Seq<char>, Seq<char>)) -> bool {
    valid_header_name(p.0) && valid_header_value(p.1)
}

/// The custom headers that HTTP admits, in their order; the others are
/// left out.
pub open spec fn accepted_headers(h: Seq<(Seq<char>, Seq<char>)>) -> Seq<(Seq<char>, Seq<char>)>
    decreases h.len(),
{
    if h.len() == 0 {
        Seq::empty()
    } else {
        accepted_headers(h.drop_last()) + if header_accepted(h.last()) {
            seq![h.last()]
        } else {
            Seq::empty()
        }
    }
}

/// Every accepted header is one of the given headers, and the accepted
/// headers name each header once when the given ones do.
pub proof fn lemma_accepted_headers(h: Seq<(Seq<char>, Seq<char>)>)
    ensures
        forall|i: int|
            0 <= i < accepted_headers(h).len() ==> h.contains(#[trigger] accepted_headers(h)[i]),
        headers_distinct(h) ==> headers_distinct(accepted_headers(h)),
    decreases h.len(),
{
    if h.len() > 0 {
        let init = h.drop_last();
        lemma_accepted_headers(init);
        let a = accepted_headers(init);
        let r = accepted_headers(h);
        assert forall|i: int| 0 <= i < r.len() implies h.contains(#[trigger] r[i]) by {
            if i < a.len() {
                assert(r[i] == a[i]);
                let j = choose|j: int| 0 <= j < init.len() && init[j] == a[i];
                assert(h[j] == a[i]);
            } else {
                assert(r[i] == h.last());
                assert(h[h.len() - 1] == h.last());
            }
        }
        if headers_distinct(h) {
            assert(headers_distinct(init)) by {
                assert forall|i: int, j: int| 0 <= i < j < init.len() implies #[trigger] init[i].0
                    != #[trigger] init[j].0 by {
                    assert(init[i] == h[i] && init[j] == h[j]);
                }
            }
            assert forall|i: int, j: int| 0 <= i < j < r.len() implies #[trigger] r[i].0
                != #[trigger] r[j].0 by {
                assert(r[i] == a[i]);
                let k = choose|k: int| 0 <= k < init.len() && init[k] == a[i];
                if j < a.len() {
                    assert(r[j] == a[j]);
                } else {
                    assert(r[j] == h[h.len() - 1]);
                    assert(h[k] == init[k]);
                }
            }
        }
    }
}

/// The custom headers that can be set on a reply.
pub fn usable_headers(custom_headers: &Vec<(String, String)>) -> (r: Vec<(String, String)>)
    ensures
        headers_view(r@) == accepted_headers(headers_view(custom_headers@)),
        headers_distinct(headers_view(custom_headers@)) ==> headers_distinct(headers_view(r@)),
        headers_view(r@) == headers_view(custom_headers@).filter(
            |p: (Seq<char>, Seq<char>)| valid_header_name(p.0) && valid_header_value(p.1),
        ),
{
    let mut r: Vec<(String, String)> = Vec::new();
    let ghost all = headers_view(custom_headers@);
    for i in 0..custom_headers.len()
        invariant
            all == headers_view(custom_headers@),
            headers_view(r@) == accepted_headers(all.take(i as int)),
    {
        let ok_name = header_name_is_valid(custom_headers[i].0.as_str());
        let ok_value = header_value_is_valid(custom_headers[i].1.as_str());
        proof {
            assert(all.take(i + 1).drop_last() =~= all.take(i as int));
            assert(all.take(i + 1).last() == all[i as int]);
        }
        if ok_name && ok_value {
            let k = custom_headers[i].0.clone();
            let v = custom_headers[i].1.clone();
            r.push((k, v));
            proof {
                assert(headers_view(r@) =~= accepted_headers(all.take(i as int)).push(all[i as int]));
            }
        } else {
            proof {
                assert(accepted_headers(all.take(i + 1)) =~= accepted_headers(all.take(i as int)));
            }
        }
    }
    proof {
        assert(all.take(custom_headers.len() as int) =~= all);
        lemma_accepted_headers(all);
        crate::laws::law_usable_headers_are_the_valid_ones(all);
    }
    r
}

/// The reply of an up server: the configured status where HTTP admits it
/// (else 200), the configured body or else a page that names the server and
/// its status code, and the custom headers that HTTP admits.
pub fn up_handler(
    http_status: u16,
    html_title: &str,
    response_body: Option<String>,
    custom_headers: &Vec<(String, String)>,
) -> (r: HttpReply)
    ensures
        r@.status == effective_status(http_status),
        r@.body == match response_body {
            Some(b) => b@,
            None => up_page(escaped(html_title@), http_status),
        },
        r@.headers == accepted_headers(headers_view(custom_headers@)),
        headers_distinct(headers_view(custom_headers@)) ==> headers_distinct(r@.headers),
        r@.headers == headers_view(custom_headers@).filter(
            |p: (Seq<char>, Seq<char>)| valid_header_name(p.0) && valid_header_value(p.1),
        ),
{
    let status = if status_code_is_valid(http_status) {
        http_status
    } else {
        200
    };
    let body = match response_body {
        Some(b) => b,
        None => {
            let title = escape_html(html_title);
            let mut page = String::from_str("<!DOCTYPE html>\n<html><head><title>");
            page.append(title.as_str());
            page.append("</title></head><body><h1>");
            page.append(title.as_str());
            page.append("</h1><p>Server is running. Status: ");
            push_decimal(&mut page, http_status as u64);
            page.append("</p></body></html>");
            page
        },
    };
    HttpReply { status, body, headers: usable_headers(custom_headers) }
}

/// The reply of a server in 503 mode: `503 Service Unavailable` with a page
/// that names the server.
pub fn down_503_handler(html_title: &str) -> (r: HttpReply)
    ensures
        r@.status == 503,
        r@.body == down_503_page(escaped(html_title@)),
        r@.headers.len() == 0,
{
    let title = escape_html(html_title);
    let mut page = String::from_str("<!DOCTYPE html>\n<html><head><title>");
    page.append(title.as_str());
    page.append("</title></head><body><h1>503 Service Unavailable</h1><p>");
    page.append(title.as_str());
    page.append(" is currently down.</p></body></html>");
    HttpReply { status: 503, body: page, headers: Vec::new() }
}

} // verus!
