//! The web-fetch tool: what is checked and normalized before a fetch.

use vstd::prelude::*;
use crate::text::{all_ws, chars_of, is_blank, occurs_at, owned, replace_all, replace_all_exec, str_starts_with, string_of};
use crate::tools::ValidationResult;

verus! {

/// What the model asks to fetch, and what to look for in it.
#[derive(Debug, Clone, PartialEq, Eq)]
pub struct UrlFetcherInput {
    pub url: String,
    pub prompt: String,
}

/// What a fetch reports.
#[derive(Debug, Clone, PartialEq, Eq)]
pub struct UrlFetcherOutput {
    pub url: String,
    pub from_cache: bool,
    pub ai_analysis: String,
}

/// The web-fetch tool.
#[derive(Debug, Clone, Copy)]
pub struct UrlFetcherTool;

/// A plain-HTTP address is upgraded: every `http://` becomes `https://`.
pub open spec fn normalized_url(u: Seq<char>) -> Seq<char> {
    if occurs_at(u, "http://"@, 0) {
        replace_all(u, "http://"@, "https://"@)
    } else {
        u
    }
}

impl UrlFetcherTool {
    /// Upgrades a plain-HTTP address.
    pub fn normalize_url(url: &str) -> (r: String)
        ensures
            r@ == normalized_url(url@),
    {
        if str_starts_with(url, "http://") {
            let c = chars_of(url);
            let p = chars_of("http://");
            let q = chars_of("https://");
            let out = replace_all_exec(c.as_slice(), p.as_slice(), q.as_slice());
            string_of(out.as_slice())
        } else {
            owned(url)
        }
    }

    /// The line shown when a fetch starts.
    pub fn render_tool_use(input: &UrlFetcherInput) -> (r: String)
        ensures
            r@ == "Fetching content from "@ + input.url@ + " and analyzing with prompt: \""@ + input.prompt@ + "\""@,
    {
        let mut m = owned("Fetching content from ");
        m.append(input.url.as_str());
        m.append(" and analyzing with prompt: \"");
        m.append(input.prompt.as_str());
        m.append("\"");
        m
    }

    /// The text shown for a fetch: the analysis, or a note when there is
    /// none.
    pub fn render_result(output: &UrlFetcherOutput) -> (r: String)
        ensures
            r@ == if all_ws(output.ai_analysis@) {
                "No content could be analyzed from URL: "@ + output.url@
            } else {
                output.ai_analysis@
            },
    {
        if is_blank(output.ai_analysis.as_str()) {
            let mut m = owned("No content could be analyzed from URL: ");
            m.append(output.url.as_str());
            m
        } else {
            output.ai_analysis.clone()
        }
    }

    /// The validation verdict for a fetch.
    pub fn validate_input(input: &UrlFetcherInput) -> (r: ValidationResult)
        ensures
            r.is_valid == (!all_ws(input.url@) && (occurs_at(input.url@, "http://"@, 0) || occurs_at(input.url@, "https://"@, 0))
                && !all_ws(input.prompt@)),
    {
        if is_blank(input.url.as_str()) {
            return ValidationResult::error(owned("URL is required"));
        }
        if !str_starts_with(input.url.as_str(), "http://") && !str_starts_with(input.url.as_str(), "https://") {
            return ValidationResult::error(owned("URL must start with http:// or https://"));
        }
        if is_blank(input.prompt.as_str()) {
            return ValidationResult::error(owned("Prompt is required"));
        }
        ValidationResult::ok()
    }
}


/// How long a fetched page is reused, in milliseconds.
pub const CACHE_DURATION_MS: u64 = 900000;

/// One cached page and when it was stored.
#[derive(Debug, Clone, PartialEq, Eq)]
pub struct CacheEntry {
    pub content: String,
    pub timestamp: u64,
}

/// Pages fetched recently, by address. The clock is passed in by the
/// caller, so that the cache is an ordinary owned value.
#[derive(Debug, Clone)]
pub struct UrlCache {
    entries: Vec<(String, CacheEntry)>,
}

pub open spec fn entry_view(e: (String, CacheEntry)) -> (Seq<char>, Seq<char>, u64) {
    (e.0@, e.1.content@, e.1.timestamp)
}

impl View for UrlCache {
    type V = Seq<(Seq<char>, Seq<char>, u64)>;

    closed spec fn view(&self) -> Seq<(Seq<char>, Seq<char>, u64)> {
        self.entries@.map_values(|e: (String, CacheEntry)| entry_view(e))
    }
}

/// The first entry at or after `i` for `url`, or the number of entries.
pub open spec fn cache_find(s: Seq<(Seq<char>, Seq<char>, u64)>, url: Seq<char>, i: int) -> int
    decreases s.len() - i,
{
    if i < 0 || i >= s.len() {
        s.len() as int
    } else if s[i].0 == url {
        i
    } else {
        cache_find(s, url, i + 1)
    }
}

/// Whether an entry stored at `t` is still served at `now`.
pub open spec fn served(t: u64, now: u64) -> bool {
    now >= t && now - t <= CACHE_DURATION_MS
}

/// Whether an entry stored at `t` survives a sweep at `now`.
pub open spec fn kept(t: u64, now: u64) -> bool {
    now >= t && now - t < CACHE_DURATION_MS
}

impl UrlCache {
    /// An empty cache.
    pub fn new() -> (r: Self)
        ensures
            r@ == Seq::<(Seq<char>, Seq<char>, u64)>::empty(),
    {
        let r = UrlCache { entries: Vec::new() };
        assert(r@ =~= Seq::<(Seq<char>, Seq<char>, u64)>::empty());
        r
    }

    fn find(&self, url: &str) -> (r: usize)
        ensures
            r == cache_find(self@, url@, 0),
            r <= self@.len(),
    {
        let mut i: usize = 0;
        while i < self.entries.len()
            invariant
                i <= self.entries.len(),
                self@.len() == self.entries@.len(),
                cache_find(self@, url@, 0) == cache_find(self@, url@, i as int),
            decreases self.entries.len() - i,
        {
            let k = chars_of(self.entries[i].0.as_str());
            if crate::text::str_is(k.as_slice(), url) {
                return i;
            }
            i = i + 1;
        }
        i
    }

    /// The page stored for `url`, if it is still fresh at `now`.
    pub fn get(&self, url: &str, now: u64) -> (r: Option<String>)
        ensures
            ({
                let i = cache_find(self@, url@, 0);
                if i < self@.len() && served(self@[i].2, now) {
                    r matches Some(c) && c@ == self@[i].1
                } else {
                    r is None
                }
            }),
    {
        let i = self.find(url);
        if i < self.entries.len() {
            let t = self.entries[i].1.timestamp;
            if now >= t && now - t <= CACHE_DURATION_MS {
                return Some(self.entries[i].1.content.clone());
            }
        }
        None
    }

    /// Stores a page at `now`, replacing what was stored for the address.
    pub fn set(&mut self, url: String, content: String, now: u64)
        ensures
            ({
                let i = cache_find(old(self)@, url@, 0);
                final(self)@ == if i < old(self)@.len() {
                    old(self)@.update(i, (url@, content@, now))
                } else {
                    old(self)@.push((url@, content@, now))
                }
            }),
    {
        let ghost before = self@;
        let i = self.find(url.as_str());
        let ghost e = (url@, content@, now);
        if i < self.entries.len() {
            self.entries.set(i, (url, CacheEntry { content, timestamp: now }));
            assert(self@ =~= before.update(i as int, e));
        } else {
            self.entries.push((url, CacheEntry { content, timestamp: now }));
            assert(self@ =~= before.push(e));
        }
    }

    /// Drops the pages that are no longer fresh at `now`.
    pub fn clean_expired(&mut self, now: u64)
        ensures
            final(self)@ == old(self)@.filter(|e: (Seq<char>, Seq<char>, u64)| kept(e.2, now)),
    {
        let ghost before = self@;
        let mut out: Vec<(String, CacheEntry)> = Vec::new();
        let mut i: usize = 0;
        assert(out@.map_values(|e: (String, CacheEntry)| entry_view(e)) =~= Seq::<(Seq<char>, Seq<char>, u64)>::empty());
        assert(before.take(0) =~= Seq::<(Seq<char>, Seq<char>, u64)>::empty());
        while i < self.entries.len()
            invariant
                i <= self.entries.len(),
                before == self@,
                before.len() == self.entries@.len(),
                out@.map_values(|e: (String, CacheEntry)| entry_view(e)) == before.take(i as int).filter(
                    |e: (Seq<char>, Seq<char>, u64)| kept(e.2, now),
                ),
            decreases self.entries.len() - i,
        {
            assert(before.take(i + 1).drop_last() =~= before.take(i as int));
            assert(before.take(i + 1).last() == entry_view(self.entries@[i as int]));
            reveal(Seq::filter);
            let t = self.entries[i].1.timestamp;
            if now >= t && now - t < CACHE_DURATION_MS {
                let ghost prev = out@;
                let e = (self.entries[i].0.clone(), CacheEntry { content: self.entries[i].1.content.clone(), timestamp: t });
                out.push(e);
                assert(out@.map_values(|e: (String, CacheEntry)| entry_view(e)) =~= prev.map_values(
                    |e: (String, CacheEntry)| entry_view(e),
                ).push(entry_view(self.entries@[i as int])));
            }
            i = i + 1;
        }
        assert(before.take(before.len() as int) =~= before);
        self.entries = out;
    }
}

} // verus!
