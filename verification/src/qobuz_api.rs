//! Qobuz REST API: what is asked of it, and what its answers mean.

use crate::model::{clone_text, opt_view, seq_view};
use crate::text::decimal;
use reqwest::Error as HttpFault;
use vstd::prelude::*;

verus! {

broadcast use vstd::string::group_string_axioms;

// ---------------------------------------------------------------------------
// Errors
// ---------------------------------------------------------------------------

/// An error of the HTTP client.
#[verifier::external_type_specification]
#[verifier::external_body]
pub struct ExHttpFault(HttpFault);

/// Errors from Qobuz API calls.
#[derive(Debug)]
pub enum Error {
    /// The HTTP request failed.
    Http(HttpFault),
    /// The API answered with an error status.
    Api(String),
}

/// The line that describes a status code: its number and its reason phrase.
pub uninterp spec fn status_display(code: u16) -> Seq<char>;

/// The text form of a `reqwest::StatusCode`, made by `StatusCode::from_u16`,
/// which takes three-digit codes. The text depends on the code alone.
#[verifier::external_body]
fn status_text(code: u16) -> (r: String)
    requires
        100 <= code <= 999,
    ensures
        r@ == status_display(code),
{
    reqwest::StatusCode::from_u16(code).unwrap().to_string()
}

/// Whether a status code reports success.
pub open spec fn success_status(status: u16) -> bool {
    200 <= status <= 299
}

/// Whether a status code reports success.
pub fn is_success(status: u16) -> (r: bool)
    ensures
        r == success_status(status),
{
    status >= 200 && status < 300
}

/// The message of an API error: the described status, a colon and the body.
pub open spec fn api_error_message(described: Seq<char>, text: Seq<char>) -> Seq<char> {
    described + ": "@ + text
}

/// Writes the message of an API error from the described status and the body.
pub fn api_error(described: &str, text: &str) -> (r: Error)
    ensures
        r matches Error::Api(message) && message@ == api_error_message(described@, text@),
{
    let mut message = described.to_owned();
    message.append(": ");
    message.append(text);
    Error::Api(message)
}

/// Checks the status of a response whose body is `text`.
///
/// A response without a success status is an API error that holds the
/// described status and the body.
pub fn json_response(status: u16, text: &str) -> (r: Result<(), Error>)
    requires
        100 <= status <= 999,
    ensures
        r is Ok <==> success_status(status),
        r matches Err(e) ==> (e matches Error::Api(message) && message@ == api_error_message(
            status_display(status),
            text@,
        )),
{
    if is_success(status) {
        Ok(())
    } else {
        let described = status_text(status);
        Err(api_error(described.as_str(), text))
    }
}

// ---------------------------------------------------------------------------
// Client
// ---------------------------------------------------------------------------

/// The HTTP client.
#[verifier::external_type_specification]
#[verifier::external_body]
pub struct ExHttpClient(reqwest::Client);

/// The headers that a client sends with every request, by lower-case name.
pub uninterp spec fn default_headers_of(client: reqwest::Client) -> Map<Seq<char>, Seq<char>>;

/// A text that can stand as the value of a header: no control characters but
/// tabs.
pub open spec fn header_value_ok(s: Seq<char>) -> bool {
    forall|i: int|
        0 <= i < s.len() ==> (#[trigger] s[i]) as int == 9 || ((s[i] as int) >= 32 && (s[i] as int)
            != 127)
}

/// A short header name of lower-case letters and hyphens.
pub open spec fn header_name_ok(s: Seq<char>) -> bool {
    &&& 0 < s.len() <= 64
    &&& forall|i: int|
        0 <= i < s.len() ==> 97 <= (#[trigger] s[i]) as int <= 122 || s[i] as int == 45
}

/// `reqwest::header::HeaderValue::from_str`: it takes exactly the texts none
/// of whose bytes is below 32 or is 127, tabs apart.
#[verifier::external_body]
fn header_value_fits(s: &str) -> (r: bool)
    ensures
        r == header_value_ok(s@),
{
    reqwest::header::HeaderValue::from_str(s).is_ok()
}

/// The headers that a client sends when it is built with the given ones: any
/// media type is accepted, unless a given header says otherwise.
pub open spec fn headers_with(given: Seq<(String, String)>) -> Map<Seq<char>, Seq<char>>
    decreases given.len(),
{
    if given.len() == 0 {
        Map::empty().insert("accept"@, "*/*"@)
    } else {
        headers_with(given.drop_last()).insert(given.last().0@, given.last().1@)
    }
}

/// `reqwest::Client::builder`, `default_headers` and `build`: where a client
/// can be built, the headers that it sends with every request are the given
/// ones and the `accept` header of a new builder. Whether one can be built
/// depends on the machine.
#[verifier::external_body]
fn open_http_client(headers: &Vec<(String, String)>) -> (r: Result<reqwest::Client, HttpFault>)
    requires
        headers@.len() <= 64,
        forall|i: int|
            0 <= i < headers@.len() ==> header_name_ok((#[trigger] headers@[i]).0@)
                && header_value_ok(headers@[i].1@),
        forall|i: int, j: int|
            0 <= i < j < headers@.len() ==> (#[trigger] headers@[i]).0@ != (
            #[trigger] headers@[j]).0@,
    ensures
        r matches Ok(client) ==> default_headers_of(client) == headers_with(headers@),
{
    let mut map = reqwest::header::HeaderMap::new();
    for (name, value) in headers {
        map.insert(
            reqwest::header::HeaderName::from_bytes(name.as_bytes()).unwrap(),
            reqwest::header::HeaderValue::from_str(value).unwrap(),
        );
    }
    reqwest::Client::builder().default_headers(map).build()
}

/// `reqwest::Client::clone`: a second handle on the same client, which sends
/// the same headers.
#[verifier::external_body]
fn clone_http_client(client: &reqwest::Client) -> (r: reqwest::Client)
    ensures
        default_headers_of(r) == default_headers_of(*client),
{
    client.clone()
}

/// A client of the Qobuz REST API.
#[derive(Debug)]
pub struct QobuzClient {
    client: reqwest::Client,
}

impl View for QobuzClient {
    /// The headers that the client sends with every request.
    type V = Map<Seq<char>, Seq<char>>;

    closed spec fn view(&self) -> Map<Seq<char>, Seq<char>> {
        default_headers_of(self.client)
    }
}

impl Clone for QobuzClient {
    fn clone(&self) -> (r: Self)
        ensures
            r@ == self@,
    {
        QobuzClient { client: clone_http_client(&self.client) }
    }
}

/// The value of the authorization header for a token.
pub open spec fn bearer(jwt: Seq<char>) -> Seq<char> {
    "Bearer "@ + jwt
}

/// The headers of requests that act for the user of `jwt`, in the name of the
/// application `app_id`.
pub open spec fn api_headers(jwt: Seq<char>, app_id: Seq<char>) -> Map<Seq<char>, Seq<char>> {
    Map::empty().insert("accept"@, "*/*"@).insert("authorization"@, bearer(jwt)).insert(
        "x-app-id"@,
        app_id,
    )
}

impl QobuzClient {
    /// Whether a token and an application ID can be sent in headers.
    pub fn accepts(jwt: &str, app_id: &str) -> (r: bool)
        ensures
            r == (header_value_ok(jwt@) && header_value_ok(app_id@)),
    {
        header_value_fits(jwt) && header_value_fits(app_id)
    }

    /// Creates a client that authorizes its requests with `jwt` for the
    /// application `app_id`.
    pub fn new(jwt: &str, app_id: &str) -> (r: Result<Self, Error>)
        requires
            header_value_ok(jwt@),
            header_value_ok(app_id@),
        ensures
            r matches Ok(client) ==> client@ == api_headers(jwt@, app_id@),
            r matches Err(e) ==> e is Http,
    {
        let mut value = "Bearer ".to_owned();
        value.append(jwt);
        let mut headers: Vec<(String, String)> = Vec::new();
        headers.push(("authorization".to_owned(), value));
        headers.push(("x-app-id".to_owned(), app_id.to_owned()));
        proof {
            reveal_strlit("Bearer ");
            reveal_strlit("authorization");
            reveal_strlit("x-app-id");
            assert forall|i: int| 0 <= i < bearer(jwt@).len() implies (
            #[trigger] bearer(jwt@)[i]) as int == 9 || ((bearer(jwt@)[i] as int) >= 32 && (bearer(
                jwt@,
            )[i] as int) != 127) by {
                if i >= 7 {
                    assert(bearer(jwt@)[i] == jwt@[i - 7]);
                }
            }
            assert("authorization"@.len() != "x-app-id"@.len());
        }
        match open_http_client(&headers) {
            Ok(client) => {
                proof {
                    reveal_with_fuel(headers_with, 3);
                    let first = headers@.drop_last();
                    assert(first.last() == headers@[0]);
                    assert(headers@.last() == headers@[1]);
                    assert(headers@[0].0@ == "authorization"@);
                    assert(headers@[1].0@ == "x-app-id"@);
                    assert(first.drop_last().len() == 0);
                }
                Ok(QobuzClient { client })
            },
            Err(e) => Err(Error::Http(e)),
        }
    }

    /// The HTTP client that sends the requests.
    pub fn http(&self) -> (r: &reqwest::Client)
        ensures
            default_headers_of(*r) == self@,
    {
        &self.client
    }
}

// ---------------------------------------------------------------------------
// User
// ---------------------------------------------------------------------------

/// Qobuz user info from the REST API.
#[derive(Debug, Clone)]
pub struct QobuzUser {
    /// Numeric user ID.
    pub id: u64,
    /// Public ID (e.g., `qobuz:user:HwyJtEEf1kazy`).
    pub public_id: String,
    /// Display name.
    pub display_name: Option<String>,
}

/// The API's answer to a request for the user.
#[derive(Debug)]
pub struct UserResponse {
    pub id: u64,
    pub public_id: String,
    pub display_name: Option<String>,
}

/// Base URL of the API.
pub open spec fn api_base() -> Seq<char> {
    "https://www.qobuz.com/api.json/0.2"@
}

/// The URL that is asked for the user.
pub fn user_url() -> (r: String)
    ensures
        r@ == api_base() + "/user/get"@,
{
    let mut url = "https://www.qobuz.com/api.json/0.2".to_owned();
    url.append("/user/get");
    url
}

/// Takes the user out of the API's answer.
pub fn user_from_response(data: UserResponse) -> (r: QobuzUser)
    ensures
        r.id == data.id,
        r.public_id@ == data.public_id@,
        opt_view(r.display_name) == opt_view(data.display_name),
{
    QobuzUser { id: data.id, public_id: data.public_id, display_name: data.display_name }
}

// ---------------------------------------------------------------------------
// Track metadata
// ---------------------------------------------------------------------------

/// Track metadata from the Qobuz API.
#[derive(Debug)]
pub struct TrackMetadata {
    /// Qobuz track ID.
    pub id: u64,
    pub title: String,
    /// Duration in seconds.
    pub duration_secs: u32,
    pub artist_name: String,
    pub album_title: String,
    /// Album cover image URL (large size).
    pub album_image_url: Option<String>,
}

pub struct TrackMetadataView {
    pub id: u64,
    pub title: Seq<char>,
    pub duration_secs: u32,
    pub artist_name: Seq<char>,
    pub album_title: Seq<char>,
    pub album_image_url: Option<Seq<char>>,
}

impl TrackMetadataView {
    /// Whether the duration can be told in milliseconds.
    pub open spec fn duration_fits(self) -> bool {
        self.duration_secs * 1000 <= u32::MAX
    }

    /// The duration in milliseconds.
    pub open spec fn duration_ms(self) -> u32 {
        (self.duration_secs * 1000) as u32
    }
}

impl View for TrackMetadata {
    type V = TrackMetadataView;

    open spec fn view(&self) -> TrackMetadataView {
        TrackMetadataView {
            id: self.id,
            title: self.title@,
            duration_secs: self.duration_secs,
            artist_name: self.artist_name@,
            album_title: self.album_title@,
            album_image_url: opt_view(self.album_image_url),
        }
    }
}

impl Clone for TrackMetadata {
    fn clone(&self) -> (r: Self)
        ensures
            r@ == self@,
    {
        TrackMetadata {
            id: self.id,
            title: self.title.clone(),
            duration_secs: self.duration_secs,
            artist_name: self.artist_name.clone(),
            album_title: self.album_title.clone(),
            album_image_url: clone_text(&self.album_image_url),
        }
    }
}

impl TrackMetadata {
    /// Whether the duration can be told in milliseconds.
    pub fn duration_fits(&self) -> (r: bool)
        ensures
            r == self@.duration_fits(),
    {
        (self.duration_secs as u64) * 1000 <= u32::MAX as u64
    }

    /// The duration in milliseconds.
    pub fn duration_ms(&self) -> (r: u32)
        requires
            self@.duration_fits(),
        ensures
            r == self@.duration_ms(),
    {
        self.duration_secs * 1000
    }
}

/// The performer of a track in the API's answer.
#[derive(Debug)]
pub struct Performer {
    pub name: String,
}

/// The cover images of an album in the API's answer.
#[derive(Debug)]
pub struct AlbumImage {
    pub large: Option<String>,
}

/// The album of a track in the API's answer.
#[derive(Debug)]
pub struct Album {
    pub title: String,
    pub image: Option<AlbumImage>,
}

/// A track in the API's answer.
#[derive(Debug)]
pub struct TrackItem {
    pub id: u64,
    pub title: String,
    pub duration: u32,
    pub performer: Option<Performer>,
    pub album: Option<Album>,
}

/// The metadata that an answered track holds; a track without performer or
/// album holds none.
pub open spec fn item_metadata(item: TrackItem) -> Option<TrackMetadataView> {
    match (item.performer, item.album) {
        (Some(performer), Some(album)) => Some(
            TrackMetadataView {
                id: item.id,
                title: item.title@,
                duration_secs: item.duration,
                artist_name: performer.name@,
                album_title: album.title@,
                album_image_url: match album.image {
                    Some(image) => opt_view(image.large),
                    None => None,
                },
            },
        ),
        _ => None,
    }
}

/// The metadata that a list of answered tracks holds, in the same order.
pub open spec fn items_metadata(items: Seq<TrackItem>) -> Seq<TrackMetadataView>
    decreases items.len(),
{
    if items.len() == 0 {
        Seq::empty()
    } else {
        match item_metadata(items.last()) {
            Some(m) => items_metadata(items.drop_last()).push(m),
            None => items_metadata(items.drop_last()),
        }
    }
}

/// Takes the metadata out of an answered track.
fn metadata_of(item: &TrackItem) -> (r: Option<TrackMetadata>)
    ensures
        opt_view(r) == item_metadata(*item),
{
    match (&item.performer, &item.album) {
        (Some(performer), Some(album)) => {
            let album_image_url = match &album.image {
                Some(image) => clone_text(&image.large),
                None => None,
            };
            Some(
                TrackMetadata {
                    id: item.id,
                    title: item.title.clone(),
                    duration_secs: item.duration,
                    artist_name: performer.name.clone(),
                    album_title: album.title.clone(),
                    album_image_url,
                },
            )
        },
        _ => None,
    }
}

/// Takes the metadata out of the API's answer, leaving out the tracks that
/// lack a performer or an album.
pub fn tracks_from_response(items: &Vec<TrackItem>) -> (r: Vec<TrackMetadata>)
    ensures
        seq_view(r@) == items_metadata(items@),
{
    let mut results: Vec<TrackMetadata> = Vec::with_capacity(items.len());
    let n: usize = items.len();
    let mut i: usize = 0;
    proof {
        assert(seq_view(results@) =~= items_metadata(items@.take(0)));
    }
    while i < n
        invariant
            n == items@.len(),
            i <= n,
            seq_view(results@) == items_metadata(items@.take(i as int)),
        decreases n - i,
    {
        let ghost before = results@;
        proof {
            assert(items@.take(i + 1).drop_last() =~= items@.take(i as int));
        }
        match metadata_of(&items[i]) {
            Some(m) => {
                results.push(m);
                proof {
                    assert(seq_view(results@) =~= seq_view(before).push(m@));
                }
            },
            None => {},
        }
        i = i + 1;
    }
    proof {
        assert(items@.take(n as int) =~= items@);
    }
    results
}

/// A request for the metadata of several tracks.
#[derive(Debug)]
pub struct TrackListRequest {
    pub url: String,
    pub body: String,
}

/// Decimal numerals with commas between them.
pub open spec fn comma_separated(ids: Seq<u64>) -> Seq<char>
    decreases ids.len(),
{
    if ids.len() == 0 {
        Seq::empty()
    } else if ids.len() == 1 {
        decimal(ids[0] as nat)
    } else {
        comma_separated(ids.drop_last()) + ","@ + decimal(ids.last() as nat)
    }
}

/// The compact JSON text of an object with one member, a list of numbers.
pub open spec fn numbers_object(key: Seq<char>, ids: Seq<u64>) -> Seq<char> {
    "{\""@ + key + "\":["@ + comma_separated(ids) + "]}"@
}

/// A member name that JSON writes without escapes: small letters and
/// underscores.
pub open spec fn plain_key(key: Seq<char>) -> bool {
    forall|i: int|
        0 <= i < key.len() ==> 97 <= (#[trigger] key[i]) as int <= 122 || key[i] as int == 95
}

/// `serde_json::Value::to_string` of an object whose one member is a list of
/// numbers: compact JSON, without white space, the numbers in decimal.
#[verifier::external_body]
fn numbers_object_text(key: &str, ids: &[u64]) -> (r: String)
    requires
        plain_key(key@),
    ensures
        r@ == numbers_object(key@, ids@),
{
    let mut object = serde_json::Map::new();
    object.insert(key.to_string(), serde_json::Value::from(ids));
    serde_json::Value::Object(object).to_string()
}

/// Builds the request for the metadata of `track_ids`; no tracks need none.
pub fn tracks_request(track_ids: &[u64]) -> (r: Option<TrackListRequest>)
    ensures
        r is None <==> track_ids@.len() == 0,
        r matches Some(request) ==> {
            &&& request.url@ == api_base() + "/track/getList"@
            &&& request.body@ == numbers_object("tracks_id"@, track_ids@)
        },
{
    if track_ids.len() == 0 {
        return None;
    }
    let mut url = "https://www.qobuz.com/api.json/0.2".to_owned();
    url.append("/track/getList");
    proof {
        reveal_strlit("tracks_id");
    }
    let body = numbers_object_text("tracks_id", track_ids);
    Some(TrackListRequest { url, body })
}

// ---------------------------------------------------------------------------
// Laws
// ---------------------------------------------------------------------------

/// A client acts for the user of its token and in the name of its application,
/// and sends nothing else but that it accepts any media type.
pub proof fn client_sends_token_and_application(jwt: Seq<char>, app_id: Seq<char>)
    ensures
        api_headers(jwt, app_id).contains_pair("accept"@, "*/*"@),
        api_headers(jwt, app_id).contains_pair("authorization"@, "Bearer "@ + jwt),
        api_headers(jwt, app_id).contains_pair("x-app-id"@, app_id),
        api_headers(jwt, app_id).dom() == set!["accept"@, "authorization"@, "x-app-id"@],
{
    reveal_strlit("accept");
    reveal_strlit("authorization");
    reveal_strlit("x-app-id");
    assert("authorization"@.len() != "x-app-id"@.len());
    assert("accept"@.len() != "x-app-id"@.len());
    assert("accept"@.len() != "authorization"@.len());
    assert(api_headers(jwt, app_id).dom() =~= set!["accept"@, "authorization"@, "x-app-id"@]);
}

/// Of an answer, exactly the tracks with performer and album are kept, each
/// under its own ID, and no track is made up.
pub proof fn kept_tracks_are_the_complete_ones(items: Seq<TrackItem>)
    ensures
        items_metadata(items).len() <= items.len(),
        forall|i: int|
            0 <= i < items.len() && item_metadata(#[trigger] items[i]) is Some
                ==> items_metadata(items).contains(item_metadata(items[i])->0),
        forall|k: int|
            0 <= k < items_metadata(items).len() ==> exists|i: int|
                0 <= i < items.len() && item_metadata(#[trigger] items[i]) == Some(
                    #[trigger] items_metadata(items)[k],
                ),
    decreases items.len(),
{
    if items.len() > 0 {
        let rest = items.drop_last();
        let kept = items_metadata(rest);
        kept_tracks_are_the_complete_ones(rest);
        assert forall|i: int|
            0 <= i < items.len() && item_metadata(
                #[trigger] items[i],
            ) is Some implies items_metadata(items).contains(item_metadata(items[i])->0) by {
            let m = item_metadata(items[i])->0;
            if i < rest.len() {
                assert(rest[i] == items[i]);
                let k = choose|k: int| 0 <= k < kept.len() && kept[k] == m;
                assert(items_metadata(items)[k] == m);
            } else {
                assert(items_metadata(items)[kept.len() as int] == m);
            }
        }
        assert forall|k: int| 0 <= k < items_metadata(items).len() implies exists|i: int|
            0 <= i < items.len() && item_metadata(#[trigger] items[i]) == Some(
                #[trigger] items_metadata(items)[k],
            ) by {
            if k < kept.len() {
                assert(items_metadata(items)[k] == kept[k]);
                let i = choose|i: int|
                    0 <= i < rest.len() && item_metadata(#[trigger] rest[i]) == Some(kept[k]);
                assert(items[i] == rest[i]);
            } else {
                assert(item_metadata(items[items.len() - 1]) == Some(items_metadata(items)[k]));
            }
        }
    }
}

/// Success is reported by the status codes from 200 to 299, and the message of an
/// error is the described status, a colon, a space and the body.
pub proof fn statuses_from_200_report_success(status: u16, described: Seq<char>, text: Seq<char>)
    ensures
        success_status(status) <==> status / 100 == 2,
        api_error_message(described, text) == described + seq![':', ' '] + text,
{
    reveal_strlit(": ");
    assert(": "@ =~= seq![':', ' ']);
}

/// The metadata of an answered track is what the answer says of it.
pub proof fn metadata_is_what_the_answer_says(item: TrackItem)
    ensures
        item_metadata(item) is Some <==> item.performer is Some && item.album is Some,
        item_metadata(item) matches Some(m) ==> {
            &&& m.id == item.id
            &&& m.title == item.title@
            &&& m.duration_secs == item.duration
            &&& m.artist_name == item.performer->0.name@
            &&& m.album_title == item.album->0.title@
            &&& item.album->0.image is None ==> m.album_image_url is None
            &&& item.album->0.image matches Some(image) ==> m.album_image_url == opt_view(
                image.large,
            )
        },
{
}

/// An answer is read track by track, in its order.
pub proof fn answers_are_read_in_order(first: Seq<TrackItem>, rest: Seq<TrackItem>)
    ensures
        items_metadata(first + rest) == items_metadata(first) + items_metadata(rest),
        rest.len() == 1 ==> items_metadata(rest) == (match item_metadata(rest[0]) {
            Some(m) => seq![m],
            None => Seq::empty(),
        }),
    decreases rest.len(),
{
    if rest.len() == 0 {
        assert(first + rest =~= first);
        assert(items_metadata(rest) =~= Seq::<TrackMetadataView>::empty());
        assert(items_metadata(first) + items_metadata(rest) =~= items_metadata(first));
    } else {
        answers_are_read_in_order(first, rest.drop_last());
        assert((first + rest).drop_last() =~= first + rest.drop_last());
        assert((first + rest).last() == rest.last());
        assert(items_metadata(first + rest) =~= items_metadata(first) + items_metadata(rest));
        if rest.len() == 1 {
            assert(rest.drop_last() =~= Seq::<TrackItem>::empty());
            assert(items_metadata(rest.drop_last()) =~= Seq::<TrackMetadataView>::empty());
            assert(items_metadata(rest) =~= (match item_metadata(rest[0]) {
                Some(m) => seq![m],
                None => Seq::<TrackMetadataView>::empty(),
            }));
        }
    }
}

/// A duration is told in milliseconds, a thousand to the second, where a 32-bit
/// number holds them.
pub proof fn durations_are_told_in_milliseconds(m: TrackMetadataView)
    ensures
        m.duration_fits() <==> m.duration_secs * 1000 <= 4294967295,
        m.duration_fits() ==> m.duration_ms() == m.duration_secs * 1000,
{
}

/// A request for tracks lists their IDs in order, with one comma between two.
pub proof fn track_ids_are_listed_in_order(first: Seq<u64>, id: u64)
    ensures
        comma_separated(seq![id]) == decimal(id as nat),
        first.len() > 0 ==> comma_separated(first.push(id)) == comma_separated(first) + seq![',']
            + decimal(id as nat),
        numbers_object("tracks_id"@, first) == "{\"tracks_id\":["@ + comma_separated(first)
            + "]}"@,
        api_base() == "https://www.qobuz.com/api.json/0.2"@,
{
    reveal_strlit(",");
    reveal_strlit("{\"");
    reveal_strlit("\":[");
    reveal_strlit("tracks_id");
    reveal_strlit("{\"tracks_id\":[");
    assert(","@ =~= seq![',']);
    assert(first.push(id).drop_last() =~= first);
    assert("{\""@ + "tracks_id"@ + "\":["@ =~= "{\"tracks_id\":["@);
}

/// What is seen of metadata is what it holds.
pub proof fn metadata_is_seen_as_it_is(m: TrackMetadata)
    ensures
        m@.id == m.id,
        m@.title == m.title@,
        m@.duration_secs == m.duration_secs,
        m@.artist_name == m.artist_name@,
        m@.album_title == m.album_title@,
        m@.album_image_url == opt_view(m.album_image_url),
{
}

/// Texts are judged character by character: a header value takes tabs and what is
/// no control character, a plain key small letters and underscores.
pub proof fn texts_are_judged_by_character(s: Seq<char>, c: char)
    ensures
        header_value_ok(Seq::empty()),
        header_value_ok(s.push(c)) <==> header_value_ok(s) && (c == '\t' || c as int >= 32 && c
            as int != 127),
        plain_key(Seq::empty()),
        plain_key(s.push(c)) <==> plain_key(s) && (97 <= c as int <= 122 || c == '_'),
{
    let longer = s.push(c);
    assert(longer[s.len() as int] == c);
    assert forall|i: int| 0 <= i < s.len() implies s[i] == #[trigger] longer[i] by {}
    if header_value_ok(longer) {
        assert forall|i: int| 0 <= i < s.len() implies (#[trigger] s[i]) as int == 9 || ((
        s[i] as int) >= 32 && (s[i] as int) != 127) by {
            assert(longer[i] == s[i]);
        }
    }
    if plain_key(longer) {
        assert forall|i: int| 0 <= i < s.len() implies 97 <= (#[trigger] s[i]) as int <= 122
            || s[i] as int == 95 by {
            assert(longer[i] == s[i]);
        }
    }
}

/// The headers of a client are the given ones, the last of several with one name,
/// and `accept` for everything where it is not given.
pub proof fn given_headers_are_sent(given: Seq<(String, String)>, name: String, value: String)
    ensures
        headers_with(Seq::empty()) == Map::<Seq<char>, Seq<char>>::empty().insert(
            "accept"@,
            "*/*"@,
        ),
        headers_with(given.push((name, value))) == headers_with(given).insert(name@, value@),
{
    assert(given.push((name, value)).drop_last() =~= given);
}

} // verus!
