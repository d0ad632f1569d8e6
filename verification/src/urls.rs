//! The request URLs of the remote feeds.
//!
//! Each feed has a fixed template; a request URL is the template with the
//! date parameters substituted and the caller's key appended as the trailing
//! query parameter.  No URL-encoding beyond that substitution is performed:
//! dates are rendered in the `YYYY-MM-DD` form the endpoints expect.

use vstd::prelude::*;
use vstd::string::*;

use crate::dates::{spec_date_lt, spec_format_date, spec_valid_date, Date};
use crate::errors::FeedError;

verus! {

/// The templates of the three feed endpoints.
pub struct Urls {
    /// Picture-of-the-day endpoint; only the key is appended.
    pub apod: String,
    /// Near-earth-object feed endpoint, with `START_DATE` and `END_DATE`
    /// placeholders.
    pub neows: String,
    /// Coronal-mass-ejection endpoint, with placeholder dates.
    pub donki: String,
}

/// The picture-of-the-day template.
pub open spec fn spec_apod_template() -> Seq<char> {
    "https://api.nasa.gov/planetary/apod?api_key="@
}

/// The near-earth-object template, placeholders included.
pub open spec fn spec_neows_template() -> Seq<char> {
    "https://api.nasa.gov/neo/rest/v1/feed?start_date=START_DATE&end_date=END_DATE&api_key="@
}

/// The coronal-mass-ejection template.
pub open spec fn spec_donki_template() -> Seq<char> {
    "https://api.nasa.gov/DONKI/CME?startDate=yyyy-MM-dd&endDate=yyyy-MM-dd&api_key="@
}

/// The part of the near-earth-object template before the start date.
pub open spec fn spec_neows_prefix() -> Seq<char> {
    "https://api.nasa.gov/neo/rest/v1/feed?start_date="@
}

/// The part of the near-earth-object template between the two dates.
pub open spec fn spec_neows_mid() -> Seq<char> {
    "&end_date="@
}

/// The trailing key parameter of the near-earth-object template.
pub open spec fn spec_neows_tail() -> Seq<char> {
    "&api_key="@
}

/// The near-earth-object request URL for the dates `start` and `end` and the
/// key `key`: the template with both placeholders substituted and the key
/// appended.
pub open spec fn spec_neows_query_url(start: Date, end: Date, key: Seq<char>) -> Seq<char> {
    spec_neows_prefix() + spec_format_date(start) + spec_neows_mid() + spec_format_date(end)
        + spec_neows_tail() + key
}

/// The near-earth-object template is exactly its prefix, the `START_DATE`
/// placeholder, its middle part, the `END_DATE` placeholder and its trailing
/// key parameter: what [`spec_neows_query_url`] substitutes dates into.
pub proof fn lemma_neows_template_parts()
    ensures
        spec_neows_template() =~= spec_neows_prefix() + "START_DATE"@ + spec_neows_mid()
            + "END_DATE"@ + spec_neows_tail(),
{
    reveal_strlit(
        "https://api.nasa.gov/neo/rest/v1/feed?start_date=START_DATE&end_date=END_DATE&api_key=",
    );
    reveal_strlit("https://api.nasa.gov/neo/rest/v1/feed?start_date=");
    reveal_strlit("START_DATE");
    reveal_strlit("&end_date=");
    reveal_strlit("END_DATE");
    reveal_strlit("&api_key=");
}

impl Default for Urls {
    /// The three templates, verbatim.
    fn default() -> (r: Self)
        ensures
            r.apod@ == spec_apod_template(),
            r.neows@ == spec_neows_template(),
            r.donki@ == spec_donki_template(),
    {
        Urls::urls()
    }
}

impl Urls {
    /// The three templates, verbatim.
    pub fn urls() -> (r: Self)
        ensures
            r.apod@ == spec_apod_template(),
            r.neows@ == spec_neows_template(),
            r.donki@ == spec_donki_template(),
    {
        Self {
            apod: String::from_str("https://api.nasa.gov/planetary/apod?api_key="),
            neows: String::from_str(
                "https://api.nasa.gov/neo/rest/v1/feed?start_date=START_DATE&end_date=END_DATE&api_key=",
            ),
            donki: String::from_str(
                "https://api.nasa.gov/DONKI/CME?startDate=yyyy-MM-dd&endDate=yyyy-MM-dd&api_key=",
            ),
        }
    }

    /// The three templates with `saucy_key` appended to each as the trailing
    /// key parameter.  Never fails.
    pub fn make_secret_sauce(saucy_key: &str) -> (r: Result<Urls, FeedError>)
        ensures
            r matches Ok(u) && u.apod@ == spec_apod_template() + saucy_key@ && u.neows@
                == spec_neows_template() + saucy_key@ && u.donki@ == spec_donki_template()
                + saucy_key@,
    {
        let mut sauce = Urls::urls();
        sauce.apod.append(saucy_key);
        sauce.neows.append(saucy_key);
        sauce.donki.append(saucy_key);
        Ok(sauce)
    }

    /// The near-earth-object request URL for the range `start` to `end`,
    /// checked against the current date `today`.
    ///
    /// Fails with `InvalidDateInput` exactly when the range ends before it
    /// starts or reaches past `today`; an omitted `end` reuses `start`, so a
    /// single-day query never ends before it starts.
    pub fn build_url_neows_at(start: Date, end: Option<Date>, today: Date, key: &str) -> (r: Result<
        String,
        FeedError,
    >)
        requires
            spec_valid_date(start),
            end matches Some(e) ==> spec_valid_date(e),
        ensures
            ({
                let last = if end is Some {
                    end->0
                } else {
                    start
                };
                match r {
                    Ok(u) => !spec_date_lt(last, start) && !spec_date_lt(today, start)
                        && !spec_date_lt(today, last) && u@ == spec_neows_query_url(
                        start,
                        last,
                        key@,
                    ),
                    Err(e) => e == FeedError::InvalidDateInput && (spec_date_lt(last, start)
                        || spec_date_lt(today, start) || spec_date_lt(today, last)),
                }
            }),
            end is None ==> (r matches Ok(u) ==> u@ == spec_neows_query_url(start, start, key@)),
    {
        let last = match end {
            Some(e) => e,
            None => start,
        };
        if last.lt(&start) || today.lt(&start) || today.lt(&last) {
            return Err(FeedError::InvalidDateInput);
        }
        let mut url = String::from_str("https://api.nasa.gov/neo/rest/v1/feed?start_date=");
        url.append(start.to_text().as_str());
        url.append("&end_date=");
        url.append(last.to_text().as_str());
        url.append("&api_key=");
        url.append(key);
        Ok(url)
    }

    /// The near-earth-object request URL for the range `start` to `end`,
    /// checked against the system's current local date.
    ///
    /// A range that ends before it starts fails with `InvalidDateInput`
    /// whatever the current date is; a returned URL is always the template
    /// substitution of [`spec_neows_query_url`], with an omitted `end`
    /// replaced by `start`.
    pub fn build_url_neows(start: Date, end: Option<Date>, key: &str) -> (r: Result<
        String,
        FeedError,
    >)
        requires
            spec_valid_date(start),
            end matches Some(e) ==> spec_valid_date(e),
        ensures
            ({
                let last = if end is Some {
                    end->0
                } else {
                    start
                };
                &&& spec_date_lt(last, start) ==> r == Err::<String, FeedError>(
                    FeedError::InvalidDateInput,
                )
                &&& r matches Ok(u) ==> !spec_date_lt(last, start) && u@
                    == spec_neows_query_url(start, last, key@)
                &&& r matches Err(e) ==> e == FeedError::InvalidDateInput
            }),
    {
        match Date::today() {
            Some(today) => Urls::build_url_neows_at(start, end, today, key),
            None => Err(FeedError::InvalidDateInput),
        }
    }
}

} // verus!
