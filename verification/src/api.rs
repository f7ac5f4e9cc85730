//! The Linkly HTTP API as requests: endpoint URLs and query parameters for
//! each call, the error text of a failed response, and the reading of the
//! answers that need more than a parse. Authentication is the `api_key`
//! query parameter, sent with every request.

use vstd::prelude::*;

use crate::models::DomainList;
use crate::text::{int_decimal, push_i64, push_str, to_owned_string, trim, trim_string};

verus! {

/// The host every endpoint lives on.
pub open spec fn base_url() -> Seq<char> {
    "https://api.linklyhq.com"@
}

/// A request: its full URL and its query parameters, in order.
pub struct ApiRequest {
    pub url: String,
    pub query: Vec<(String, String)>,
}

/// The query parameters as character sequences.
pub open spec fn query_view(q: Seq<(String, String)>) -> Seq<(Seq<char>, Seq<char>)> {
    q.map_values(|p: (String, String)| (p.0@, p.1@))
}

fn url_of(path: &str) -> (r: String)
    ensures
        r@ == base_url() + path@,
{
    let mut u = to_owned_string("https://api.linklyhq.com");
    push_str(&mut u, path);
    u
}

fn workspace_url(workspace_id: i64, tail: &str) -> (r: String)
    ensures
        r@ == base_url() + "/api/v1/workspace/"@ + int_decimal(workspace_id as int) + tail@,
{
    let mut u = url_of("/api/v1/workspace/");
    push_i64(&mut u, workspace_id);
    push_str(&mut u, tail);
    u
}

fn param(key: &str, value: String) -> (r: (String, String))
    ensures
        r.0@ == key@,
        r.1@ == value@,
{
    (to_owned_string(key), value)
}

/// `GET /api/v1/workspace/{id}/list_links`, one page, sorted; the `search`
/// parameter is sent only when the query is not empty.
pub fn list_links_request(
    api_key: &str,
    workspace_id: i64,
    page: i64,
    page_size: i64,
    search: &str,
    sort_by: &str,
    sort_dir: &str,
) -> (r: ApiRequest)
    ensures
        r.url@ == base_url() + "/api/v1/workspace/"@ + int_decimal(workspace_id as int)
            + "/list_links"@,
        query_view(r.query@) == seq![
            ("api_key"@, api_key@),
            ("page"@, int_decimal(page as int)),
            ("page_size"@, int_decimal(page_size as int)),
            ("sort_by"@, sort_by@),
            ("sort_dir"@, sort_dir@),
        ] + if search@.len() == 0 {
            Seq::<(Seq<char>, Seq<char>)>::empty()
        } else {
            seq![("search"@, search@)]
        },
{
    let url = workspace_url(workspace_id, "/list_links");
    let mut query: Vec<(String, String)> = Vec::new();
    query.push(param("api_key", to_owned_string(api_key)));
    query.push(param("page", crate::text::i64_to_string(page)));
    query.push(param("page_size", crate::text::i64_to_string(page_size)));
    query.push(param("sort_by", to_owned_string(sort_by)));
    query.push(param("sort_dir", to_owned_string(sort_dir)));
    if search.unicode_len() != 0 {
        query.push(param("search", to_owned_string(search)));
    }
    let ghost want = seq![
        ("api_key"@, api_key@),
        ("page"@, int_decimal(page as int)),
        ("page_size"@, int_decimal(page_size as int)),
        ("sort_by"@, sort_by@),
        ("sort_dir"@, sort_dir@),
    ] + if search@.len() == 0 {
        Seq::<(Seq<char>, Seq<char>)>::empty()
    } else {
        seq![("search"@, search@)]
    };
    assert(query_view(query@) =~= want);
    ApiRequest { url, query }
}

/// `GET /api/v1/link/{id}` for the full record of one link.
pub fn get_link_request(api_key: &str, id: i64, workspace_id: i64) -> (r: ApiRequest)
    ensures
        r.url@ == base_url() + "/api/v1/link/"@ + int_decimal(id as int),
        query_view(r.query@) == seq![
            ("api_key"@, api_key@),
            ("workspace_id"@, int_decimal(workspace_id as int)),
        ],
{
    let mut url = url_of("/api/v1/link/");
    push_i64(&mut url, id);
    let mut query: Vec<(String, String)> = Vec::new();
    query.push(param("api_key", to_owned_string(api_key)));
    query.push(param("workspace_id", crate::text::i64_to_string(workspace_id)));
    assert(query_view(query@) =~= seq![
        ("api_key"@, api_key@),
        ("workspace_id"@, int_decimal(workspace_id as int)),
    ]);
    ApiRequest { url, query }
}

/// `POST /api/v1/link`, which creates a link, or updates one when the body
/// carries its `id`.
pub fn save_link_request(api_key: &str) -> (r: ApiRequest)
    ensures
        r.url@ == base_url() + "/api/v1/link"@,
        query_view(r.query@) == seq![("api_key"@, api_key@)],
{
    let url = url_of("/api/v1/link");
    let mut query: Vec<(String, String)> = Vec::new();
    query.push(param("api_key", to_owned_string(api_key)));
    assert(query_view(query@) =~= seq![("api_key"@, api_key@)]);
    ApiRequest { url, query }
}

/// `GET /api/v1/workspace/{id}/clicks`: daily click counts of one link
/// between `start` and `end` (`YYYY-MM-DD`).
pub fn get_clicks_request(
    api_key: &str,
    workspace_id: i64,
    link_id: i64,
    start: &str,
    end: &str,
) -> (r: ApiRequest)
    ensures
        r.url@ == base_url() + "/api/v1/workspace/"@ + int_decimal(workspace_id as int) + "/clicks"@,
        query_view(r.query@) == seq![
            ("api_key"@, api_key@),
            ("link_id"@, int_decimal(link_id as int)),
            ("start"@, start@),
            ("end"@, end@),
            ("frequency"@, "day"@),
        ],
{
    let url = workspace_url(workspace_id, "/clicks");
    let mut query: Vec<(String, String)> = Vec::new();
    query.push(param("api_key", to_owned_string(api_key)));
    query.push(param("link_id", crate::text::i64_to_string(link_id)));
    query.push(param("start", to_owned_string(start)));
    query.push(param("end", to_owned_string(end)));
    query.push(param("frequency", to_owned_string("day")));
    assert(query_view(query@) =~= seq![
        ("api_key"@, api_key@),
        ("link_id"@, int_decimal(link_id as int)),
        ("start"@, start@),
        ("end"@, end@),
        ("frequency"@, "day"@),
    ]);
    ApiRequest { url, query }
}

/// `GET /api/v1/workspaces`: the workspaces the key can access.
pub fn list_workspaces_request(api_key: &str) -> (r: ApiRequest)
    ensures
        r.url@ == base_url() + "/api/v1/workspaces"@,
        query_view(r.query@) == seq![("api_key"@, api_key@)],
{
    let url = url_of("/api/v1/workspaces");
    let mut query: Vec<(String, String)> = Vec::new();
    query.push(param("api_key", to_owned_string(api_key)));
    assert(query_view(query@) =~= seq![("api_key"@, api_key@)]);
    ApiRequest { url, query }
}

/// `GET /api/v1/workspace/{id}/domains`: the custom domains of a workspace.
pub fn list_domains_request(api_key: &str, workspace_id: i64) -> (r: ApiRequest)
    ensures
        r.url@ == base_url() + "/api/v1/workspace/"@ + int_decimal(workspace_id as int) + "/domains"@,
        query_view(r.query@) == seq![("api_key"@, api_key@)],
{
    let url = workspace_url(workspace_id, "/domains");
    let mut query: Vec<(String, String)> = Vec::new();
    query.push(param("api_key", to_owned_string(api_key)));
    assert(query_view(query@) =~= seq![("api_key"@, api_key@)]);
    ApiRequest { url, query }
}

/// The error of a response that was no success: `HTTP {status}`, followed
/// by `: {body}` when the trimmed body is not empty.
pub fn http_error_message(status: &str, body: &str) -> (r: String)
    ensures
        r@ == if trim(body@).len() == 0 {
            "HTTP "@ + status@
        } else {
            "HTTP "@ + status@ + ": "@ + trim(body@)
        },
{
    let mut m = to_owned_string("HTTP ");
    push_str(&mut m, status);
    let b = trim_string(body);
    if b.unicode_len() != 0 {
        push_str(&mut m, ": ");
        push_str(&mut m, b.as_str());
    }
    m
}

/// The (date, count) pairs of a clicks response: a missing date reads as
/// empty, a missing count as 0.
pub fn click_points(traffic: &Vec<(Option<String>, Option<i64>)>) -> (r: Vec<(String, i64)>)
    ensures
        r@.len() == traffic@.len(),
        forall|i: int| 0 <= i < traffic@.len() ==> {
            &&& (#[trigger] r@[i]).0@ == (match traffic@[i].0 {
                Some(t) => t@,
                None => Seq::<char>::empty(),
            })
            &&& r@[i].1 == (match traffic@[i].1 {
                Some(y) => y,
                None => 0,
            })
        },
{
    let mut r: Vec<(String, i64)> = Vec::new();
    let mut i: usize = 0;
    while i < traffic.len()
        invariant
            i <= traffic@.len(),
            r@.len() == i,
            forall|j: int| 0 <= j < i ==> {
                &&& (#[trigger] r@[j]).0@ == (match traffic@[j].0 {
                    Some(t) => t@,
                    None => Seq::<char>::empty(),
                })
                &&& r@[j].1 == (match traffic@[j].1 {
                    Some(y) => y,
                    None => 0,
                })
            },
        decreases traffic.len() - i,
    {
        let t = match &traffic[i].0 {
            Some(t) => t.clone(),
            None => String::new(),
        };
        let y = match traffic[i].1 {
            Some(y) => y,
            None => 0,
        };
        r.push((t, y));
        i = i + 1;
    }
    r
}

/// The names of the domains of a workspace, in order.
pub fn domain_names(list: &DomainList) -> (r: Vec<String>)
    ensures
        r.deep_view() == list.domains@.map_values(|d: crate::models::Domain| d.name@),
{
    let mut r: Vec<String> = Vec::new();
    let mut i: usize = 0;
    while i < list.domains.len()
        invariant
            i <= list.domains@.len(),
            r.deep_view() == list.domains@.take(i as int).map_values(
                |d: crate::models::Domain| d.name@,
            ),
        decreases list.domains.len() - i,
    {
        let ghost prev = r.deep_view();
        r.push(list.domains[i].name.clone());
        assert(r.deep_view() =~= prev.push(list.domains@[i as int].name@));
        assert(list.domains@.take(i + 1).map_values(|d: crate::models::Domain| d.name@)
            =~= list.domains@.take(i as int).map_values(|d: crate::models::Domain| d.name@).push(
            list.domains@[i as int].name@,
        ));
        i = i + 1;
    }
    assert(list.domains@.take(i as int) == list.domains@);
    r
}

} // verus!
