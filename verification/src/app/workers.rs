//! The decisions of the background work the front end runs for some
//! commands: retrying a rate-limited create, tallying an import run, and
//! paging through a workspace for a QR export.

use vstd::prelude::*;

use crate::app::AsyncMsg;
use crate::import::NewLink;
use crate::json::JsonValue;
use crate::models::{LinkSummary, ListLinksResponse};
use crate::qr::QrFormat;
use crate::text::{push_str, to_owned_string};

verus! {

/// `pat` occurs in `s`.
pub open spec fn contains_spec(s: Seq<char>, pat: Seq<char>) -> bool {
    exists|i: int| 0 <= i && i + pat.len() <= s.len() && #[trigger] s.subrange(i, i + pat.len()) == pat
}

/// Whether `pat` occurs in `s` (`str::contains`).
pub fn contains(s: &str, pat: &str) -> (r: bool)
    ensures
        r == contains_spec(s@, pat@),
{
    let v = crate::text::chars_of(s);
    let p = crate::text::chars_of(pat);
    if p.len() > v.len() {
        proof {
            assert forall|i: int| 0 <= i && i + p@.len() <= v@.len() implies #[trigger] v@.subrange(i, i + p@.len()) != p@ by {}
        }
        return false;
    }
    let mut i: usize = 0;
    let last = v.len() - p.len();
    while i <= last
        invariant
            last == v@.len() - p@.len(),
            p@.len() <= v@.len(),
            i <= v@.len() - p@.len() + 1,
            v@ == s@,
            p@ == pat@,
            forall|j: int| 0 <= j < i ==> #[trigger] v@.subrange(j, j + p@.len()) != p@,
        decreases v.len() - i,
    {
        let mut k: usize = 0;
        while k < p.len() && v[i + k] == p[k]
            invariant
                i <= last,
                last == v@.len() - p@.len(),
                v@.len() == v.len(),
                p@.len() == p.len(),
                k <= p@.len(),
                i + p@.len() <= v@.len(),
                forall|m: int| 0 <= m < k ==> v@[i + m] == p@[m],
            decreases p.len() - k,
        {
            k = k + 1;
        }
        if k == p.len() {
            assert(v@.subrange(i as int, i + p@.len()) =~= p@);
            return true;
        }
        assert(v@.subrange(i as int, i + p@.len())[k as int] != p@[k as int]);
        i = i + 1;
    }
    false
}

/// How long to wait, in seconds, before attempt `attempt + 1` of a create
/// that failed with `error`: rate-limited answers (HTTP 429) are retried
/// three times, after 1, 2 and 4 seconds; anything else is final.
pub open spec fn retry_delay_spec(attempt: u32, error: Seq<char>) -> Option<u64> {
    if contains_spec(error, "429"@) && attempt < 3 {
        Some(if attempt == 0 {
            1
        } else if attempt == 1 {
            2
        } else {
            4
        })
    } else {
        None
    }
}

/// The wait before retrying a failed create (see [`retry_delay_spec`]).
pub fn retry_delay(attempt: u32, error: &str) -> (r: Option<u64>)
    ensures
        r == retry_delay_spec(attempt, error@),
{
    if contains(error, "429") && attempt < 3 {
        let mut delay: u64 = 1;
        let mut k: u32 = 0;
        while k < attempt
            invariant
                k <= attempt < 3,
                delay == if k == 0 {
                    1u64
                } else if k == 1 {
                    2
                } else {
                    4
                },
            decreases attempt - k,
        {
            delay = if delay * 2 < 8 { delay * 2 } else { 8 };
            k = k + 1;
        }
        Some(delay)
    } else {
        None
    }
}

/// The tally of an import run: how many rows were created and failed, the
/// created links, and the (line, error) of each failure.
pub struct ImportRun {
    pub ok: usize,
    pub failed: usize,
    pub new_links: Vec<NewLink>,
    pub failures: Vec<(u64, String)>,
}

impl ImportRun {
    /// Nothing submitted yet.
    pub fn new() -> (r: Self)
        ensures
            r.ok == 0 && r.failed == 0 && r.new_links@.len() == 0 && r.failures@.len() == 0,
    {
        ImportRun { ok: 0, failed: 0, new_links: Vec::new(), failures: Vec::new() }
    }

    /// Count the outcome of the row on line `line`: the created link read
    /// from the create response, or the error. Returns the progress report
    /// after `done` rows.
    pub fn record(&mut self, done: usize, line: u64, outcome: Result<JsonValue, String>) -> (r: AsyncMsg)
        requires
            old(self).ok + old(self).failed < usize::MAX,
        ensures
            match outcome {
                Ok(v) => {
                    &&& final(self).ok == old(self).ok + 1
                    &&& final(self).failed == old(self).failed
                    &&& final(self).new_links@.len() == old(self).new_links@.len() + 1
                    &&& final(self).new_links@.drop_last() == old(self).new_links@
                    &&& final(self).new_links@.last().id == crate::json::i64_at(v, "id"@)
                    &&& final(self).new_links@.last().slug.deep_view() == crate::json::str_at(v, "slug"@)
                    &&& final(self).new_links@.last().name.deep_view() == crate::json::str_at(v, "name"@)
                    &&& final(self).new_links@.last().full_url.deep_view() == crate::json::str_at(v, "full_url"@)
                    &&& final(self).new_links@.last().url.deep_view() == crate::json::str_at(v, "url"@)
                    &&& final(self).failures == old(self).failures
                },
                Err(e) => {
                    &&& final(self).ok == old(self).ok
                    &&& final(self).failed == old(self).failed + 1
                    &&& final(self).new_links == old(self).new_links
                    &&& final(self).failures@ == old(self).failures@.push((line, e))
                },
            },
            r == (AsyncMsg::ImportProgress { done, ok: final(self).ok, failed: final(self).failed }),
    {
        match outcome {
            Ok(v) => {
                self.ok = self.ok + 1;
                self.new_links.push(NewLink::from_response(&v));
            },
            Err(e) => {
                self.failed = self.failed + 1;
                self.failures.push((line, e));
            },
        }
        AsyncMsg::ImportProgress { done, ok: self.ok, failed: self.failed }
    }

    /// Whether a success file is due: some link was created.
    pub fn wants_success_file(&self) -> (r: bool)
        ensures
            r == (self.new_links@.len() > 0),
    {
        self.new_links.len() > 0
    }

    /// Whether a failure file is due: some row failed.
    pub fn wants_failure_file(&self) -> (r: bool)
        ensures
            r == (self.failures@.len() > 0),
    {
        self.failures.len() > 0
    }

    /// The final report, with where the result files went.
    pub fn finish(self, success_path: Option<String>, failure_path: Option<String>) -> (r: AsyncMsg)
        ensures
            r == (AsyncMsg::ImportDone {
                ok: self.ok,
                failed: self.failed,
                success_path,
                failure_path,
                new_links: self.new_links,
            }),
    {
        AsyncMsg::ImportDone { ok: self.ok, failed: self.failed, success_path, failure_path, new_links: self.new_links }
    }
}

/// The page to fetch after page `page` of a QR export: none once the
/// reported last page (at least 1) is reached.
pub open spec fn next_export_page_spec(page: i64, total_pages: i64) -> Option<i64> {
    let last = if total_pages > 1 {
        total_pages
    } else {
        1
    };
    if page >= last {
        None
    } else {
        Some((page + 1) as i64)
    }
}

/// The page to fetch after `page` (see [`next_export_page_spec`]).
pub fn next_export_page(page: i64, total_pages: i64) -> (r: Option<i64>)
    ensures
        r == next_export_page_spec(page, total_pages),
{
    let last = if total_pages > 1 { total_pages } else { 1 };
    if page >= last {
        None
    } else {
        Some(page + 1)
    }
}

/// The QR jobs of one page of links: one per link with a short URL.
pub open spec fn page_jobs_spec(links: Seq<LinkSummary>, workspace_id: i64, f: QrFormat) -> Seq<(Seq<char>, Seq<char>)>
    decreases links.len(),
{
    if links.len() == 0 {
        seq![]
    } else {
        let prev = page_jobs_spec(links.drop_last(), workspace_id, f);
        let l = links.last();
        match l.full_url {
            Some(u) if u@.len() > 0 => prev.push(
                (
                    u@,
                    crate::app::qr_dialog::qr_path_spec(workspace_id, l.id, l.slug.deep_view(), l.name.deep_view(), f),
                ),
            ),
            _ => prev,
        }
    }
}

/// The QR jobs (short URL, file path) of one page of a workspace export.
pub fn page_jobs(resp: &ListLinksResponse, workspace_id: i64, f: QrFormat) -> (r: Vec<(String, String)>)
    ensures
        r@.map_values(|j: (String, String)| (j.0@, j.1@)) == page_jobs_spec(resp.links@, workspace_id, f),
{
    let links = &resp.links;
    let mut r: Vec<(String, String)> = Vec::new();
    let mut i: usize = 0;
    while i < links.len()
        invariant
            i <= links@.len(),
            links@ == resp.links@,
            r@.map_values(|j: (String, String)| (j.0@, j.1@)) == page_jobs_spec(links@.take(i as int), workspace_id, f),
        decreases links.len() - i,
    {
        let l = &links[i];
        proof {
            assert(links@.take(i + 1).drop_last() =~= links@.take(i as int));
            assert(links@.take(i + 1).last() == *l);
        }
        match &l.full_url {
            Some(u) => {
                if u.unicode_len() > 0 {
                    let q = crate::app::QrSingle {
                        id: l.id,
                        slug: crate::models::clone_opt_string(&l.slug),
                        name: crate::models::clone_opt_string(&l.name),
                        url: u.clone(),
                    };
                    let path = crate::app::qr_dialog::qr_path(workspace_id, &q, f);
                    r.push((u.clone(), path));
                }
            },
            None => {},
        }
        assert(r@.map_values(|j: (String, String)| (j.0@, j.1@)) =~= page_jobs_spec(
            links@.take(i + 1),
            workspace_id,
            f,
        ));
        i = i + 1;
    }
    assert(links@.take(i as int) =~= links@);
    r
}

/// The report of a QR export that stopped on a failed page load.
pub fn export_failed(error: &str) -> (r: AsyncMsg)
    ensures
        r matches AsyncMsg::Error(m) && m@ == "QR export failed: "@ + error@,
{
    let mut m = to_owned_string("QR export failed: ");
    push_str(&mut m, error);
    AsyncMsg::Error(m)
}

} // verus!
