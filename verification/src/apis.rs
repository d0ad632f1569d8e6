//! The records the feeds are mapped into, and the response mapper itself.
//!
//! Each mapper takes the raw text of a fetched response body and reads a
//! fixed set of fields into a record with plain string fields.  A body that
//! is not valid JSON fails with `ParseFailed`; a missing field inside valid
//! JSON degrades to an empty string instead — that leniency is the mapping
//! policy, not an accident.

use vstd::prelude::*;
use vstd::string::*;

use crate::errors::FeedError;
use crate::jsonval::{
    parse_json, json_of, spec_bool_field, spec_elems, spec_field_or_null, spec_str_field, JsonVal,
};

verus! {

/// The key a user stored, as a record of its own.
pub struct ApiKey {
    /// The key itself.
    pub key: String,
}

impl Clone for ApiKey {
    /// An equal record.
    fn clone(&self) -> (r: Self)
        ensures
            r == *self,
    {
        let r = ApiKey { key: self.key.clone() };
        proof {
            assert(r == *self);
        }
        r
    }
}

impl ApiKey {
    /// A holder of the key `k`.
    pub fn new(&self, k: &str) -> (r: Self)
        ensures
            r.key@ == k@,
    {
        Self { key: k.to_owned() }
    }
}

/// One picture-of-the-day response, one string field per key the feed
/// serves.
pub struct Apod {
    /// The image's copyright line.
    pub copyright: String,
    /// The day the picture is for.
    pub date: String,
    /// The long-form description.
    pub explanation: String,
    /// The full-resolution image URL.
    pub hdurl: String,
    /// The media type, such as `image`.
    pub media_type: String,
    /// The service's version tag.
    pub service_version: String,
    /// The picture's title.
    pub title: String,
    /// The display-resolution image URL.
    pub url: String,
}

impl Clone for Apod {
    /// An equal record.
    fn clone(&self) -> (r: Self)
        ensures
            r == *self,
    {
        let r = Apod {
            copyright: self.copyright.clone(),
            date: self.date.clone(),
            explanation: self.explanation.clone(),
            hdurl: self.hdurl.clone(),
            media_type: self.media_type.clone(),
            service_version: self.service_version.clone(),
            title: self.title.clone(),
            url: self.url.clone(),
        };
        proof {
            assert(r == *self);
        }
        r
    }
}

impl Default for Apod {
    /// All fields empty.
    fn default() -> (r: Self)
        ensures
            r.copyright@ == Seq::<char>::empty(),
            r.date@ == Seq::<char>::empty(),
            r.explanation@ == Seq::<char>::empty(),
            r.hdurl@ == Seq::<char>::empty(),
            r.media_type@ == Seq::<char>::empty(),
            r.service_version@ == Seq::<char>::empty(),
            r.title@ == Seq::<char>::empty(),
            r.url@ == Seq::<char>::empty(),
    {
        Self {
            copyright: String::new(),
            date: String::new(),
            explanation: String::new(),
            hdurl: String::new(),
            media_type: String::new(),
            service_version: String::new(),
            title: String::new(),
            url: String::new(),
        }
    }
}

impl Apod {
    /// A record of the eight given fields.
    pub fn new(
        &self,
        copyright: String,
        date: String,
        explanation: String,
        hdurl: String,
        media_type: String,
        service_version: String,
        title: String,
        url: String,
    ) -> (r: Self)
        ensures
            r.copyright == copyright,
            r.date == date,
            r.explanation == explanation,
            r.hdurl == hdurl,
            r.media_type == media_type,
            r.service_version == service_version,
            r.title == title,
            r.url == url,
    {
        Self { copyright, date, explanation, hdurl, media_type, service_version, title, url }
    }
}

/// Whether the record `a` reads the eight picture-of-the-day fields out of
/// the parsed body `v`, each under the reading policy of the mapper.
pub open spec fn spec_apod_matches(a: Apod, v: JsonVal) -> bool {
    &&& a.copyright@ == spec_str_field(v, "copyright"@)
    &&& a.date@ == spec_str_field(v, "date"@)
    &&& a.explanation@ == spec_str_field(v, "explanation"@)
    &&& a.hdurl@ == spec_str_field(v, "hdurl"@)
    &&& a.media_type@ == spec_str_field(v, "media_type"@)
    &&& a.service_version@ == spec_str_field(v, "service_version"@)
    &&& a.title@ == spec_str_field(v, "title"@)
    &&& a.url@ == spec_str_field(v, "url"@)
}

/// The picture-of-the-day record read from the parsed body `v`.
pub fn apod_from_json(v: &JsonVal) -> (r: Apod)
    ensures
        spec_apod_matches(r, *v),
{
    Apod {
        copyright: v.str_field("copyright"),
        date: v.str_field("date"),
        explanation: v.str_field("explanation"),
        hdurl: v.str_field("hdurl"),
        media_type: v.str_field("media_type"),
        service_version: v.str_field("service_version"),
        title: v.str_field("title"),
        url: v.str_field("url"),
    }
}

/// The picture-of-the-day record read from the response body `text`.
///
/// Fails with `ParseFailed` exactly when the parse of `text` fails; a
/// field missing inside a parsed body reads as the empty string instead of
/// failing.
pub fn map_apod(text: &str) -> (r: Result<Apod, FeedError>)
    ensures
        match r {
            Ok(a) => json_of(text@) matches Some(v) && spec_apod_matches(a, v),
            Err(e) => json_of(text@) is None && e == FeedError::ParseFailed,
        },
{
    match parse_json(text) {
        Ok(v) => Ok(apod_from_json(&v)),
        Err(e) => Err(e),
    }
}

/// The full-resolution URL and the description read from a
/// picture-of-the-day response body.
///
/// Fails with `ParseFailed` exactly when the parse of `text` fails.
pub fn pic_data_from_body(text: &str) -> (r: Result<(String, String), FeedError>)
    ensures
        match r {
            Ok(p) => json_of(text@) matches Some(v) && p.0@ == spec_str_field(v, "hdurl"@)
                && p.1@ == spec_str_field(v, "explanation"@),
            Err(e) => json_of(text@) is None && e == FeedError::ParseFailed,
        },
{
    match parse_json(text) {
        Ok(v) => Ok((v.str_field("hdurl"), v.str_field("explanation"))),
        Err(e) => Err(e),
    }
}

/// The paging links a feed response carries.
pub struct Links {
    /// The next page.
    pub next: String,
    /// The previous page.
    pub previous: String,
    /// The current page.
    pub current: String,
}

impl Clone for Links {
    /// An equal record.
    fn clone(&self) -> (r: Self)
        ensures
            r == *self,
    {
        let r = Links {
            next: self.next.clone(),
            previous: self.previous.clone(),
            current: self.current.clone(),
        };
        proof {
            assert(r == *self);
        }
        r
    }
}

impl Links {
    /// A record of the three given pages.
    pub fn new(next: String, previous: String, current: String) -> (r: Links)
        ensures
            r.next == next,
            r.previous == previous,
            r.current == current,
    {
        Self { next, previous, current }
    }
}

/// One near-earth object out of a feed response.
///
/// `estimated_diameter` holds the feet bounds `(min, max)`;
/// `relative_velocity` holds `(kilometers_per_second, kilometers_per_hour,
/// miles_per_hour)`; `miss_distance` holds `(astronomical, lunar,
/// kilometers, miles)`.  All bounds and rates keep the textual form the
/// feed served them in.
pub struct NearEarthObject {
    /// The object's identifier.
    pub id: String,
    /// The object's reference identifier.
    pub neo_reference_id: String,
    /// The object's name.
    pub name: String,
    /// The estimated diameter in feet, as `(min, max)`.
    pub estimated_diameter: (String, String),
    /// Whether the feed flags the object as potentially hazardous.
    pub is_potentially_hazardous_asteroid: bool,
    /// The day of the closest approach.
    pub close_approach_date: String,
    /// The closest approach with its time of day.
    pub close_approach_date_full: String,
    /// The relative velocity, unit-tagged as documented on the type.
    pub relative_velocity: (String, String, String),
    /// The miss distance, unit-tagged as documented on the type.
    pub miss_distance: (String, String, String, String),
    /// The body the object orbits.
    pub orbiting_body: String,
}

impl Clone for NearEarthObject {
    /// An equal record.
    fn clone(&self) -> (r: Self)
        ensures
            r == *self,
    {
        let r = NearEarthObject {
            id: self.id.clone(),
            neo_reference_id: self.neo_reference_id.clone(),
            name: self.name.clone(),
            estimated_diameter: (self.estimated_diameter.0.clone(), self.estimated_diameter.1.clone()),
            is_potentially_hazardous_asteroid: self.is_potentially_hazardous_asteroid,
            close_approach_date: self.close_approach_date.clone(),
            close_approach_date_full: self.close_approach_date_full.clone(),
            relative_velocity: (
                self.relative_velocity.0.clone(),
                self.relative_velocity.1.clone(),
                self.relative_velocity.2.clone(),
            ),
            miss_distance: (
                self.miss_distance.0.clone(),
                self.miss_distance.1.clone(),
                self.miss_distance.2.clone(),
                self.miss_distance.3.clone(),
            ),
            orbiting_body: self.orbiting_body.clone(),
        };
        proof {
            assert(r == *self);
        }
        r
    }
}

/// The first close-approach entry of the feed element `e`, or `null` where
/// the element reports none: only the first entry is read, even where the
/// feed reports several approaches.
pub open spec fn spec_first_approach(e: JsonVal) -> JsonVal {
    let ca = spec_field_or_null(e, "close_approach_data"@);
    if spec_elems(ca).len() > 0 {
        spec_elems(ca)[0]
    } else {
        JsonVal::Null
    }
}

/// Whether the record `o` reads its fields out of the feed element `e`
/// along the nested paths of the feed: the diameter bounds under
/// `estimated_diameter.feet`, the approach fields under the first
/// `close_approach_data` entry, each string under the reading policy of
/// the mapper.
pub open spec fn spec_neo_matches(o: NearEarthObject, e: JsonVal) -> bool {
    let feet = spec_field_or_null(spec_field_or_null(e, "estimated_diameter"@), "feet"@);
    let ca = spec_first_approach(e);
    let rv = spec_field_or_null(ca, "relative_velocity"@);
    let md = spec_field_or_null(ca, "miss_distance"@);
    &&& o.id@ == spec_str_field(e, "id"@)
    &&& o.neo_reference_id@ == spec_str_field(e, "neo_reference_id"@)
    &&& o.name@ == spec_str_field(e, "name"@)
    &&& o.estimated_diameter.0@ == spec_str_field(feet, "estimated_diameter_min"@)
    &&& o.estimated_diameter.1@ == spec_str_field(feet, "estimated_diameter_max"@)
    &&& o.is_potentially_hazardous_asteroid == spec_bool_field(
        e,
        "is_potentially_hazardous_asteroid"@,
    )
    &&& o.close_approach_date@ == spec_str_field(ca, "close_approach_date"@)
    &&& o.close_approach_date_full@ == spec_str_field(ca, "close_approach_date_full"@)
    &&& o.relative_velocity.0@ == spec_str_field(rv, "kilometers_per_second"@)
    &&& o.relative_velocity.1@ == spec_str_field(rv, "kilometers_per_hour"@)
    &&& o.relative_velocity.2@ == spec_str_field(rv, "miles_per_hour"@)
    &&& o.miss_distance.0@ == spec_str_field(md, "astronomical"@)
    &&& o.miss_distance.1@ == spec_str_field(md, "lunar"@)
    &&& o.miss_distance.2@ == spec_str_field(md, "kilometers"@)
    &&& o.miss_distance.3@ == spec_str_field(md, "miles"@)
    &&& o.orbiting_body@ == spec_str_field(ca, "orbiting_body"@)
}

/// The near-earth-object record read from the feed element `e`.
pub fn neo_from_json(e: &JsonVal) -> (r: NearEarthObject)
    ensures
        spec_neo_matches(r, *e),
{
    let feet = e.field_or_null("estimated_diameter").field_or_null("feet");
    let ca_list = e.field_or_null("close_approach_data");
    let ca = if ca_list.elem_count() > 0 {
        ca_list.elem_at(0)
    } else {
        &JsonVal::Null
    };
    let rv = ca.field_or_null("relative_velocity");
    let md = ca.field_or_null("miss_distance");
    NearEarthObject {
        id: e.str_field("id"),
        neo_reference_id: e.str_field("neo_reference_id"),
        name: e.str_field("name"),
        estimated_diameter: (
            feet.str_field("estimated_diameter_min"),
            feet.str_field("estimated_diameter_max"),
        ),
        is_potentially_hazardous_asteroid: e.bool_field("is_potentially_hazardous_asteroid"),
        close_approach_date: ca.str_field("close_approach_date"),
        close_approach_date_full: ca.str_field("close_approach_date_full"),
        relative_velocity: (
            rv.str_field("kilometers_per_second"),
            rv.str_field("kilometers_per_hour"),
            rv.str_field("miles_per_hour"),
        ),
        miss_distance: (
            md.str_field("astronomical"),
            md.str_field("lunar"),
            md.str_field("kilometers"),
            md.str_field("miles"),
        ),
        orbiting_body: ca.str_field("orbiting_body"),
    }
}

/// The feed elements of the parsed body `v` under the date `date_key`:
/// what sits in the `near_earth_objects` object under that date, empty
/// where the body has no such array.
pub open spec fn spec_neo_elems(v: JsonVal, date_key: Seq<char>) -> Seq<JsonVal> {
    spec_elems(spec_field_or_null(spec_field_or_null(v, "near_earth_objects"@), date_key))
}

/// Whether `list` reads, element for element and in order, the feed
/// elements of the parsed body `v` under the date `date_key`.
pub open spec fn spec_neows_matches(
    list: Seq<NearEarthObject>,
    v: JsonVal,
    date_key: Seq<char>,
) -> bool {
    &&& list.len() == spec_neo_elems(v, date_key).len()
    &&& forall|i: int|
        0 <= i < list.len() ==> spec_neo_matches(
            #[trigger] list[i],
            spec_neo_elems(v, date_key)[i],
        )
}

/// The near-earth-object records read from the parsed body `v` for the
/// request date `date_key`, in the order the feed listed them.
pub fn neows_from_json(v: &JsonVal, date_key: &str) -> (r: Vec<NearEarthObject>)
    ensures
        spec_neows_matches(r@, *v, date_key@),
{
    let by_date = v.field_or_null("near_earth_objects");
    let elems = by_date.field_or_null(date_key);
    let n = elems.elem_count();
    let mut list: Vec<NearEarthObject> = Vec::new();
    let mut i: usize = 0;
    while i < n
        invariant
            i <= n,
            n == spec_elems(*elems).len(),
            *elems == spec_field_or_null(
                spec_field_or_null(*v, "near_earth_objects"@),
                date_key@,
            ),
            list@.len() == i,
            forall|j: int|
                0 <= j < i ==> spec_neo_matches(#[trigger] list@[j], spec_elems(*elems)[j]),
        decreases n - i,
    {
        list.push(neo_from_json(elems.elem_at(i)));
        i = i + 1;
    }
    list
}

/// The near-earth-object records read from the response body `text` for
/// the request date `date_key`, in the order the feed listed them.
///
/// Fails with `ParseFailed` exactly when the parse of `text` fails; a
/// parsed body without an array under `date_key` yields no records.
pub fn map_neows(text: &str, date_key: &str) -> (r: Result<Vec<NearEarthObject>, FeedError>)
    ensures
        match r {
            Ok(list) => json_of(text@) matches Some(v) && spec_neows_matches(
                list@,
                v,
                date_key@,
            ),
            Err(e) => json_of(text@) is None && e == FeedError::ParseFailed,
        },
{
    match parse_json(text) {
        Ok(v) => Ok(neows_from_json(&v, date_key)),
        Err(e) => Err(e),
    }
}

/// One near-earth-object feed response: its paging links, its element
/// count, and its records in the order the feed listed them.
pub struct NEOFeed {
    /// The paging links of the response.
    pub links: Links,
    /// How many records were read out of the response body: counted while
    /// mapping, not taken from the body's own count field.
    pub element_count: usize,
    /// The records themselves.
    pub near_earth_objects: Vec<NearEarthObject>,
}

/// Whether `a` and `b` hold the same feed response: equal links and count,
/// and the same records in the same order.
pub open spec fn spec_feed_eq(a: NEOFeed, b: NEOFeed) -> bool {
    &&& a.links == b.links
    &&& a.element_count == b.element_count
    &&& a.near_earth_objects@ == b.near_earth_objects@
}

impl Clone for NEOFeed {
    /// The same feed response: equal links and count, the same records in
    /// the same order.
    fn clone(&self) -> (r: Self)
        ensures
            spec_feed_eq(r, *self),
    {
        let objects = self.near_earth_objects.clone();
        proof {
            assert(forall|i: int|
                0 <= i < objects@.len() ==> objects@[i] == self.near_earth_objects@[i]);
            assert(objects@ =~= self.near_earth_objects@);
        }
        NEOFeed {
            links: self.links.clone(),
            element_count: self.element_count,
            near_earth_objects: objects,
        }
    }
}

} // verus!
