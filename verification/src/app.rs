//! The one state holder of the client, and its result cache.
//!
//! [`SpacePixUi`] owns the stored credential, the per-feed cache slots and
//! the window view state, and is mutated only by its own methods.  A feed
//! request runs as plan and apply: a `*_step` method decides — serve the
//! cached record, reject, or fetch one URL — and once the caller has
//! fetched, a `*_store` method maps the body and fills the slot.  A filled
//! slot is served as it is until it is explicitly cleared; a failed fetch
//! is never cached, so the next step retries.

use vstd::prelude::*;

use crate::apis::{
    map_apod, neows_from_json, spec_apod_matches, spec_feed_eq, spec_neows_matches, Apod, Links,
    NEOFeed,
};
use crate::dates::{spec_date_lt, spec_parse_date, Date};
use crate::errors::FeedError;
use crate::jsonval::{json_of, parse_json, spec_field_or_null, spec_str_field};
use crate::parser::{spec_apod_url, spec_parser_wf, Parser};
use crate::ui::{AboutWindow, ApiKeyWindow, ApodWindow, NIVLWindow, NeowsWindow};
use crate::urls::{spec_neows_query_url, Urls};

verus! {

/// The two remote feeds.
#[derive(Clone, Copy, Debug, PartialEq, Eq, Structural)]
pub enum FeedKind {
    /// The picture-of-the-day feed.
    PictureOfDay,
    /// The near-earth-object feed.
    NearEarthObjects,
}

/// The state of the client: the credential, one cache slot per feed, and
/// the window view state.
pub struct SpacePixUi {
    /// The picture-of-the-day cache slot.
    pub apod: Option<Apod>,
    /// The near-earth-object cache slot.
    pub neows: Option<NEOFeed>,
    /// Picture window view state.
    pub apod_ui: ApodWindow,
    /// Near-earth-object window view state.
    pub neows_ui: NeowsWindow,
    /// Image-and-video-library window view state.
    pub nivl_ui: NIVLWindow,
    /// About window view state.
    pub about: AboutWindow,
    /// Key-entry window view state.
    pub api: ApiKeyWindow,
    /// The loaded credential with the URL templates, or nothing where no
    /// key file was found.
    pub parser: Option<Parser>,
}

/// What a picture-of-the-day step decides.
pub enum ApodPlan {
    /// Serve this record from the slot; no request is due.
    Cached(Apod),
    /// Fetch this URL, then apply the body with [`SpacePixUi::apod_store`].
    NeedFetch(String),
    /// Fail with this error; no request is due.
    Rejected(FeedError),
}

/// What a near-earth-object step decides.
pub enum NeowsPlan {
    /// Serve this response from the slot; no request is due.
    Cached(NEOFeed),
    /// Fetch this URL, then apply the body with
    /// [`SpacePixUi::neows_store`].
    NeedFetch(String),
    /// Fail with this error; no request is due.
    Rejected(FeedError),
}

/// The decision a picture-of-the-day step takes, as plain data.
pub enum ApodDecision {
    /// The slot is filled: serve it, fetch nothing.
    ServeCached,
    /// No credential is loaded: reject, fetch nothing.
    MissingCredential,
    /// The slot is empty and a credential is loaded: fetch once.
    Fetch,
}

/// The decision a near-earth-object step takes, as plain data.
pub enum NeowsDecision {
    /// The slot is filled: serve it, fetch nothing — whatever the request
    /// parameters are.
    ServeCached,
    /// No credential is loaded: reject, fetch nothing.
    MissingCredential,
    /// A date is malformed, the range is reversed, or it reaches past the
    /// current date: reject, fetch nothing.
    BadInput,
    /// Fetch once, for this date range.
    Fetch(Date, Date),
}

/// The decision of a picture-of-the-day step on the state `s`: the slot if
/// it is filled, else the credential, else one fetch.
pub open spec fn spec_apod_decision(s: SpacePixUi) -> ApodDecision {
    if s.apod is Some {
        ApodDecision::ServeCached
    } else if s.parser is None {
        ApodDecision::MissingCredential
    } else {
        ApodDecision::Fetch
    }
}

/// The date range `start` to `end` as parsed dates, with an omitted end
/// reusing the start day.
pub open spec fn spec_parse_range(start: Seq<char>, end: Option<Seq<char>>) -> Option<
    (Date, Date),
> {
    match spec_parse_date(start) {
        None => None,
        Some(ds) => match end {
            None => Some((ds, ds)),
            Some(t) => match spec_parse_date(t) {
                None => None,
                Some(de) => Some((ds, de)),
            },
        },
    }
}

/// The decision of a near-earth-object step on the state `s` for the typed
/// dates `start` and `end`, checked against the current date `today`: the
/// slot if it is filled, else the credential, else the dates, else one
/// fetch.  An unknown current date rejects, since the range cannot be
/// checked against it.
pub open spec fn spec_neows_decision(
    s: SpacePixUi,
    start: Seq<char>,
    end: Option<Seq<char>>,
    today: Option<Date>,
) -> NeowsDecision {
    if s.neows is Some {
        NeowsDecision::ServeCached
    } else if s.parser is None {
        NeowsDecision::MissingCredential
    } else {
        match spec_parse_range(start, end) {
            None => NeowsDecision::BadInput,
            Some((ds, de)) => match today {
                None => NeowsDecision::BadInput,
                Some(t) => if spec_date_lt(de, ds) || spec_date_lt(t, ds) || spec_date_lt(
                    t,
                    de,
                ) {
                    NeowsDecision::BadInput
                } else {
                    NeowsDecision::Fetch(ds, de)
                },
            },
        }
    }
}

/// Whether `b` keeps every window of `a` as it is.
pub open spec fn spec_same_windows(a: SpacePixUi, b: SpacePixUi) -> bool {
    &&& b.apod_ui == a.apod_ui
    &&& b.neows_ui == a.neows_ui
    &&& b.nivl_ui == a.nivl_ui
    &&& b.about == a.about
    &&& b.api == a.api
}

impl Default for SpacePixUi {
    /// Empty slots, hidden windows, and the demo key.
    fn default() -> (r: Self)
        ensures
            r.apod is None,
            r.neows is None,
            r.parser matches Some(p) && spec_parser_wf(p) && p.key@ == "DEMO_KEY"@,
            !r.apod_ui.apod_window_visible,
            !r.apod_ui.apod_full_window_visible,
            !r.neows_ui.neows_window_visible,
            !r.neows_ui.neows_invalid_input_window_visible,
            !r.nivl_ui.nivl_window_visible,
            !r.about.about_window_visible,
            !r.api.api_key_window_visible,
    {
        Self {
            apod: None,
            neows: None,
            apod_ui: ApodWindow::default(),
            neows_ui: NeowsWindow::default(),
            nivl_ui: NIVLWindow::default(),
            about: AboutWindow::default(),
            api: ApiKeyWindow::default(),
            parser: Some(Parser::default()),
        }
    }
}

impl SpacePixUi {
    /// A fresh state holding the credential `parser`: empty slots, hidden
    /// windows.
    pub fn new(parser: Parser) -> (r: Self)
        ensures
            r.apod is None,
            r.neows is None,
            r.parser == Some(parser),
            !r.apod_ui.apod_window_visible,
            !r.apod_ui.apod_full_window_visible,
            !r.neows_ui.neows_window_visible,
            !r.neows_ui.neows_invalid_input_window_visible,
            !r.nivl_ui.nivl_window_visible,
            !r.about.about_window_visible,
            !r.api.api_key_window_visible,
    {
        Self {
            apod: None,
            neows: None,
            apod_ui: ApodWindow::default(),
            neows_ui: NeowsWindow::default(),
            nivl_ui: NIVLWindow::default(),
            about: AboutWindow::default(),
            api: ApiKeyWindow::default(),
            parser: Some(parser),
        }
    }

    /// A fresh state with no credential: every feed request is rejected
    /// with `CredentialMissing` until a key is stored.
    pub fn without_credential() -> (r: Self)
        ensures
            r.apod is None,
            r.neows is None,
            r.parser is None,
            !r.apod_ui.apod_window_visible,
            !r.apod_ui.apod_full_window_visible,
            !r.neows_ui.neows_window_visible,
            !r.neows_ui.neows_invalid_input_window_visible,
            !r.nivl_ui.nivl_window_visible,
            !r.about.about_window_visible,
            !r.api.api_key_window_visible,
    {
        Self {
            apod: None,
            neows: None,
            apod_ui: ApodWindow::default(),
            neows_ui: NeowsWindow::default(),
            nivl_ui: NIVLWindow::default(),
            about: AboutWindow::default(),
            api: ApiKeyWindow::default(),
            parser: None,
        }
    }

    /// Show or hide the about window; nothing else changes.
    pub fn show_about(&mut self, state: bool)
        ensures
            final(self).about.about_window_visible == state,
            final(self).apod == old(self).apod,
            final(self).neows == old(self).neows,
            final(self).parser == old(self).parser,
            final(self).apod_ui == old(self).apod_ui,
            final(self).neows_ui == old(self).neows_ui,
            final(self).nivl_ui == old(self).nivl_ui,
            final(self).api == old(self).api,
    {
        self.about.about_window_visible = state;
    }

    /// Show or hide the full-size picture window; nothing else changes.
    pub fn show_apod_full(&mut self, state: bool)
        ensures
            final(self).apod_ui.apod_full_window_visible == state,
            final(self).apod_ui.apod_window_visible == old(self).apod_ui.apod_window_visible,
            final(self).apod == old(self).apod,
            final(self).neows == old(self).neows,
            final(self).parser == old(self).parser,
            final(self).neows_ui == old(self).neows_ui,
            final(self).nivl_ui == old(self).nivl_ui,
            final(self).about == old(self).about,
            final(self).api == old(self).api,
    {
        self.apod_ui.apod_full_window_visible = state;
    }

    /// Empty the cache slot of `kind`, so that the next step for that feed
    /// fetches again: the explicit new-search action.
    pub fn clear(&mut self, kind: FeedKind)
        ensures
            spec_same_windows(*old(self), *final(self)),
            final(self).parser == old(self).parser,
            match kind {
                FeedKind::PictureOfDay => final(self).apod is None
                    && final(self).neows == old(self).neows,
                FeedKind::NearEarthObjects => final(self).neows is None
                    && final(self).apod == old(self).apod,
            },
    {
        match kind {
            FeedKind::PictureOfDay => {
                self.apod = None;
            },
            FeedKind::NearEarthObjects => {
                self.neows = None;
            },
        }
    }

    /// The picture-of-the-day step: the cached record if the slot is
    /// filled, `CredentialMissing` if no credential is loaded, else the one
    /// request URL to fetch.
    pub fn apod_step(&self) -> (r: ApodPlan)
        ensures
            match spec_apod_decision(*self) {
                ApodDecision::ServeCached => r == ApodPlan::Cached(self.apod->0),
                ApodDecision::MissingCredential => r == ApodPlan::Rejected(
                    FeedError::CredentialMissing,
                ),
                ApodDecision::Fetch => r matches ApodPlan::NeedFetch(url) && url@ == spec_apod_url(
                    self.parser->0,
                ),
            },
    {
        match &self.apod {
            Some(a) => ApodPlan::Cached(a.clone()),
            None => match &self.parser {
                Some(p) => ApodPlan::NeedFetch(p.apod_url()),
                None => ApodPlan::Rejected(FeedError::CredentialMissing),
            },
        }
    }

    /// Map a fetched picture-of-the-day body and fill the slot.
    ///
    /// On valid JSON the mapped record is stored and returned; every later
    /// [`SpacePixUi::apod_step`] serves it.  On invalid JSON nothing is
    /// stored — a failure is never cached — and `ParseFailed` is returned.
    pub fn apod_store(&mut self, body: &str) -> (r: Result<Apod, FeedError>)
        ensures
            spec_same_windows(*old(self), *final(self)),
            final(self).parser == old(self).parser,
            final(self).neows == old(self).neows,
            match r {
                Ok(a) => json_of(body@) matches Some(v) && spec_apod_matches(a, v)
                    && final(self).apod == Some(a),
                Err(e) => final(self).apod == old(self).apod && json_of(body@) is None && e
                    == FeedError::ParseFailed,
            },
    {
        match map_apod(body) {
            Ok(a) => {
                self.apod = Some(a.clone());
                Ok(a)
            },
            Err(e) => Err(e),
        }
    }

    /// The near-earth-object step against the current date `today`: the
    /// cached response if the slot is filled — whatever the dates are —
    /// else the credential check, the date checks, and the one request URL
    /// to fetch.
    pub fn neows_step_at(&self, start_text: &str, end_text: Option<&str>, today: Date) -> (r:
        NeowsPlan)
        ensures
            match spec_neows_decision(
                *self,
                start_text@,
                match end_text {
                    Some(t) => Some(t@),
                    None => None,
                },
                Some(today),
            ) {
                NeowsDecision::ServeCached => r matches NeowsPlan::Cached(f) && spec_feed_eq(
                    f,
                    self.neows->0,
                ),
                NeowsDecision::MissingCredential => r == NeowsPlan::Rejected(
                    FeedError::CredentialMissing,
                ),
                NeowsDecision::BadInput => r == NeowsPlan::Rejected(FeedError::InvalidDateInput),
                NeowsDecision::Fetch(ds, de) => r matches NeowsPlan::NeedFetch(url) && url@
                    == spec_neows_query_url(ds, de, self.parser->0.key@),
            },
    {
        self.neows_step_with(start_text, end_text, Some(today))
    }

    /// The near-earth-object step against the system's current local date.
    ///
    /// The cached response is served whenever the slot is filled, and a
    /// reversed range is rejected with `InvalidDateInput`, whatever the
    /// current date is; a fetch is planned only for a well-formed range,
    /// with the URL built from its dates and the stored key.
    pub fn neows_step(&self, start_text: &str, end_text: Option<&str>) -> (r: NeowsPlan)
        ensures
            self.neows matches Some(f0) ==> (r matches NeowsPlan::Cached(f) && spec_feed_eq(
                f,
                f0,
            )),
            self.neows is None && self.parser is None ==> r == NeowsPlan::Rejected(
                FeedError::CredentialMissing,
            ),
            ({
                let end_v = match end_text {
                    Some(t) => Some(t@),
                    None => None,
                };
                &&& (self.neows is None && self.parser is Some && spec_parse_range(
                    start_text@,
                    end_v,
                ) is None ==> r == NeowsPlan::Rejected(FeedError::InvalidDateInput))
                &&& (self.neows is None && self.parser is Some ==> (spec_parse_range(
                    start_text@,
                    end_v,
                ) matches Some((ds, de)) && spec_date_lt(de, ds) ==> r == NeowsPlan::Rejected(
                    FeedError::InvalidDateInput,
                )))
                &&& (r matches NeowsPlan::NeedFetch(url) ==> (self.neows is None
                    && (self.parser matches Some(p) && (spec_parse_range(start_text@, end_v)
                    matches Some((ds, de)) && !spec_date_lt(de, ds) && url@
                    == spec_neows_query_url(ds, de, p.key@)))))
                &&& (r matches NeowsPlan::Rejected(e) ==> (e == FeedError::CredentialMissing || e
                    == FeedError::InvalidDateInput))
            }),
    {
        self.neows_step_with(start_text, end_text, Date::today())
    }

    /// The step shared by [`SpacePixUi::neows_step_at`] and
    /// [`SpacePixUi::neows_step`]: `today` is the current date where one is
    /// known.
    fn neows_step_with(&self, start_text: &str, end_text: Option<&str>, today: Option<Date>) -> (r:
        NeowsPlan)
        ensures
            match spec_neows_decision(
                *self,
                start_text@,
                match end_text {
                    Some(t) => Some(t@),
                    None => None,
                },
                today,
            ) {
                NeowsDecision::ServeCached => r matches NeowsPlan::Cached(f) && spec_feed_eq(
                    f,
                    self.neows->0,
                ),
                NeowsDecision::MissingCredential => r == NeowsPlan::Rejected(
                    FeedError::CredentialMissing,
                ),
                NeowsDecision::BadInput => r == NeowsPlan::Rejected(FeedError::InvalidDateInput),
                NeowsDecision::Fetch(ds, de) => r matches NeowsPlan::NeedFetch(url) && url@
                    == spec_neows_query_url(ds, de, self.parser->0.key@),
            },
    {
        if let Some(f) = &self.neows {
            return NeowsPlan::Cached(f.clone());
        }
        let p = match &self.parser {
            Some(p) => p,
            None => {
                return NeowsPlan::Rejected(FeedError::CredentialMissing);
            },
        };
        let ds = match Date::parse(start_text) {
            Ok(d) => d,
            Err(_) => {
                return NeowsPlan::Rejected(FeedError::InvalidDateInput);
            },
        };
        let de = match end_text {
            Some(t) => match Date::parse(t) {
                Ok(d) => Some(d),
                Err(_) => {
                    return NeowsPlan::Rejected(FeedError::InvalidDateInput);
                },
            },
            None => None,
        };
        let t = match today {
            Some(t) => t,
            None => {
                return NeowsPlan::Rejected(FeedError::InvalidDateInput);
            },
        };
        match Urls::build_url_neows_at(ds, de, t, p.key.as_str()) {
            Ok(url) => NeowsPlan::NeedFetch(url),
            Err(e) => NeowsPlan::Rejected(e),
        }
    }

    /// Map a fetched near-earth-object body for the request date
    /// `date_key` and fill the slot.
    ///
    /// On valid JSON the mapped response is stored and returned, its
    /// records in feed order and its count their number; every later
    /// [`SpacePixUi::neows_step`] serves it.  On invalid JSON nothing is
    /// stored — a failure is never cached — and `ParseFailed` is returned.
    pub fn neows_store(&mut self, date_key: &str, body: &str) -> (r: Result<NEOFeed, FeedError>)
        ensures
            spec_same_windows(*old(self), *final(self)),
            final(self).parser == old(self).parser,
            final(self).apod == old(self).apod,
            match r {
                Ok(f) => json_of(body@) matches Some(v) && (spec_neows_matches(
                    f.near_earth_objects@,
                    v,
                    date_key@,
                ) && f.element_count == f.near_earth_objects@.len() && f.links.next@
                    == spec_str_field(spec_field_or_null(v, "links"@), "next"@)
                    && f.links.previous@ == spec_str_field(spec_field_or_null(v, "links"@), "prev"@)
                    && f.links.current@ == spec_str_field(spec_field_or_null(v, "links"@), "self"@)
                    && (final(self).neows matches Some(f2) && spec_feed_eq(f2, f))),
                Err(e) => final(self).neows == old(self).neows && json_of(body@) is None && e
                    == FeedError::ParseFailed,
            },
    {
        match parse_json(body) {
            Ok(v) => {
                let list = neows_from_json(&v, date_key);
                let links_v = v.field_or_null("links");
                let links = Links::new(
                    links_v.str_field("next"),
                    links_v.str_field("prev"),
                    links_v.str_field("self"),
                );
                let count = list.len();
                let f = NEOFeed { links, element_count: count, near_earth_objects: list };
                self.neows = Some(f.clone());
                Ok(f)
            },
            Err(e) => Err(e),
        }
    }
}

/// Once a picture record is cached, every step serves it and plans no
/// fetch; with the slot empty, a loaded credential plans exactly one
/// fetch, and a missing one is rejected before any request.
pub proof fn lemma_apod_cache_policy(before: SpacePixUi, after: SpacePixUi)
    requires
        before.apod is None,
        after.apod is Some,
    ensures
        before.parser is Some ==> spec_apod_decision(before) == ApodDecision::Fetch,
        before.parser is None ==> spec_apod_decision(before) == ApodDecision::MissingCredential,
        spec_apod_decision(after) == ApodDecision::ServeCached,
{
}

/// A filled near-earth-object slot is served as it is, whatever request
/// parameters and whatever current date the step is given: no fetch and
/// no rejection can come from a cached state.
pub proof fn lemma_neows_cache_ignores_params(
    s: SpacePixUi,
    start1: Seq<char>,
    end1: Option<Seq<char>>,
    today1: Option<Date>,
    start2: Seq<char>,
    end2: Option<Seq<char>>,
    today2: Option<Date>,
)
    requires
        s.neows is Some,
    ensures
        spec_neows_decision(s, start1, end1, today1) == NeowsDecision::ServeCached,
        spec_neows_decision(s, start1, end1, today1) == spec_neows_decision(
            s,
            start2,
            end2,
            today2,
        ),
{
}

/// A date range that ends before it starts is rejected as bad input, on
/// every state that would otherwise fetch and against every current date:
/// no fetch is ever planned for a reversed range.
pub proof fn lemma_neows_reversed_range_rejected(
    s: SpacePixUi,
    start: Seq<char>,
    end: Seq<char>,
    today: Option<Date>,
    ds: Date,
    de: Date,
)
    requires
        s.neows is None,
        s.parser is Some,
        spec_parse_date(start) == Some(ds),
        spec_parse_date(end) == Some(de),
        spec_date_lt(de, ds),
    ensures
        spec_neows_decision(s, start, Some(end), today) == NeowsDecision::BadInput,
{
}

/// A request with the end date omitted is a single-day query: whenever it
/// leads to a fetch, the fetch covers the start day as both ends of the
/// range, so the built URL substitutes that day into both placeholders.
pub proof fn lemma_omitted_end_uses_start(s: SpacePixUi, start: Seq<char>, today: Option<Date>)
    ensures
        spec_neows_decision(s, start, None, today) matches NeowsDecision::Fetch(ds, de) ==> (ds
            == de && spec_parse_date(start) == Some(ds)),
{
}

/// With no credential loaded and nothing cached, both feeds are rejected
/// as missing the credential, before any request is planned.
pub proof fn lemma_missing_credential_rejected(
    s: SpacePixUi,
    start: Seq<char>,
    end: Option<Seq<char>>,
    today: Option<Date>,
)
    requires
        s.apod is None,
        s.neows is None,
        s.parser is None,
    ensures
        spec_apod_decision(s) == ApodDecision::MissingCredential,
        spec_neows_decision(s, start, end, today) == NeowsDecision::MissingCredential,
{
}

} // verus!
