//! The Spotify client's state and the decisions of its sign-in and polling:
//! each step takes the state and what the network answered, and gives the
//! next state and what to do next.  Threads, sockets and the browser live
//! with the caller.
use crate::config::{client_id_from, parse_client_id};
use crate::encoding::{base64_len, base64_url_spec, form_decoded_value, sha256_digest};
use crate::pkce::{
    authorize_url, authorize_url_spec, callback_page, callback_page_spec, code_challenge, code_param, code_verifier_from,
    parse_callback_code, query_of, refresh_request_body, refresh_request_body_spec,
    token_request_body, token_request_body_spec, VERIFIER_BYTES,
};
use crate::encoding::rand_bytes;
use vstd::prelude::*;
use vstd::string::*;

verus! {

broadcast use vstd::string::group_string_axioms;

/// The reply of the token endpoint, as far as the client reads it.
pub struct TokenResponse {
    pub access_token: String,
    pub refresh_token: String,
    /// Lifetime of the access token, in seconds.
    pub expires_in: i64,
}

impl Default for TokenResponse {
    /// The reply that a body without any of the fields reads as: empty
    /// tokens and a lifetime of 0.
    fn default() -> (res: TokenResponse)
        ensures
            res.access_token@.len() == 0,
            res.refresh_token@.len() == 0,
            res.expires_in == 0,
    {
        TokenResponse { access_token: String::new(), refresh_token: String::new(), expires_in: 0 }
    }
}

/// What came of a request to the token endpoint.
pub enum TokenReply {
    /// The request failed: no connection, or an error status.
    Failed,
    /// The request succeeded but its body did not read as a token reply.
    Unreadable,
    /// The token reply.
    Token(TokenResponse),
}

/// One entry of the album's `images` list.
pub struct AlbumImage {
    /// The `width` field, when it is an integer.
    pub width: Option<i64>,
    /// The `url` field, when it is a string.
    pub url: Option<String>,
}

/// The `item` of a currently-playing reply.
pub struct TrackItem {
    /// The `name` field, when it is a string.
    pub name: Option<String>,
    /// The `artists` field, when it is an array: for each entry its `name`,
    /// when that is a string.
    pub artists: Option<Vec<Option<String>>>,
    /// The `album.images` field, when it is an array.
    pub images: Option<Vec<AlbumImage>>,
}

/// A currently-playing reply: its `item`, when present and not null.
pub struct CurrentlyPlaying {
    pub item: Option<TrackItem>,
}

/// The view of an optional string.
pub open spec fn opt_str(o: Option<String>) -> Option<Seq<char>> {
    match o {
        Some(s) => Some(s@),
        None => None,
    }
}

/// A string field read with an empty default.
pub open spec fn str_or_empty(o: Option<String>) -> Seq<char> {
    match o {
        Some(s) => s@,
        None => seq![],
    }
}

/// The names that are present, in order.
pub open spec fn present_names(names: Seq<Option<String>>) -> Seq<Seq<char>>
    decreases names.len(),
{
    if names.len() == 0 {
        seq![]
    } else {
        let rest = present_names(names.drop_last());
        match names.last() {
            Some(n) => rest.push(n@),
            None => rest,
        }
    }
}

/// `names` joined with `", "` between them.
pub open spec fn join_names(names: Seq<Seq<char>>) -> Seq<char>
    decreases names.len(),
{
    if names.len() == 0 {
        seq![]
    } else if names.len() == 1 {
        names[0]
    } else {
        join_names(names.drop_last()) + ", "@ + names.last()
    }
}

/// The artist line of an item: the present artist names joined by `", "`,
/// empty when there is no artist list.
pub open spec fn artist_line(artists: Option<Vec<Option<String>>>) -> Seq<char> {
    match artists {
        Some(a) => join_names(present_names(a@)),
        None => seq![],
    }
}

/// How far an image's width is from 300 pixels, a missing width counting 0.
pub open spec fn width_distance(img: AlbumImage) -> int {
    let w: int = match img.width {
        Some(w) => w as int,
        None => 0,
    };
    if w >= 300 {
        w - 300
    } else {
        300 - w
    }
}

/// The image chosen among the first `k` images: the first one with a
/// non-empty URL whose width is strictly closer to 300 pixels than every
/// earlier candidate, as (distance, URL).
pub open spec fn best_image_prefix(images: Seq<AlbumImage>, k: int) -> Option<(int, Seq<char>)>
    decreases k,
{
    if k <= 0 {
        None
    } else {
        let prev = best_image_prefix(images, k - 1);
        let img = images[k - 1];
        let url = str_or_empty(img.url);
        if url.len() == 0 {
            prev
        } else {
            match prev {
                None => Some((width_distance(img), url)),
                Some((d, u)) => if width_distance(img) < d {
                    Some((width_distance(img), url))
                } else {
                    Some((d, u))
                },
            }
        }
    }
}

/// The album-art URL chosen from an image list.
pub open spec fn best_image(images: Seq<AlbumImage>) -> Option<Seq<char>> {
    match best_image_prefix(images, images.len() as int) {
        Some((_, u)) => Some(u),
        None => None,
    }
}

/// The widths of the images with a URL are far enough from `i64::MIN` for
/// their distance to 300 to be computed in `i64`.
pub open spec fn widths_in_range(images: Seq<AlbumImage>) -> bool {
    forall|i: int|
        0 <= i < images.len() && str_or_empty(#[trigger] images[i].url).len() > 0 ==> match images[i].width {
            Some(w) => w > i64::MIN + 300,
            None => true,
        }
}

/// The album-art URL of an item, if it has any image with a URL.
pub open spec fn item_art_url(images: Option<Vec<AlbumImage>>) -> Option<Seq<char>> {
    match images {
        Some(v) => best_image(v@),
        None => None,
    }
}

/// The image list of an item can be searched without overflow.
pub open spec fn images_in_range(images: Option<Vec<AlbumImage>>) -> bool {
    match images {
        Some(v) => widths_in_range(v@),
        None => true,
    }
}

/// The abstract state of a Spotify client.
#[verifier::ext_equal]
pub struct SpotifyModel {
    pub client_id: Option<Seq<char>>,
    pub track_name: Seq<char>,
    pub artist_name: Seq<char>,
    pub pending_album_art: Option<Seq<u8>>,
    pub last_art_url: Seq<char>,
    pub connected: bool,
    pub auth_in_progress: bool,
    pub access_token: Seq<char>,
    pub refresh_token: Seq<char>,
    /// When the access token should be renewed, in milliseconds on the
    /// caller's clock.
    pub token_expires_at: Option<int>,
    pub stop_requested: bool,
    /// The PKCE code verifier of the sign-in under way.
    pub code_verifier: Option<Seq<char>>,
    /// The authorization code that the redirect callback brought.
    pub auth_code: Option<Seq<char>>,
    /// Until when the callback is waited for, in milliseconds.
    pub auth_deadline: Option<int>,
}

/// The client id, the now-playing information and the tokens of a Spotify
/// connection.
pub struct SpotifyClient {
    client_id: Option<String>,
    track_name: String,
    artist_name: String,
    pending_album_art: Option<Vec<u8>>,
    last_art_url: String,
    connected: bool,
    auth_in_progress: bool,
    access_token: String,
    refresh_token: String,
    token_expires_at: Option<u64>,
    stop_requested: bool,
    code_verifier: Option<String>,
    auth_code: Option<String>,
    auth_deadline: Option<u64>,
}

impl SpotifyModel {
    /// Downloaded album art waits to be handed out.
    pub open spec fn with_album_art(self, bytes: Seq<u8>) -> SpotifyModel {
        SpotifyModel { pending_album_art: Some(bytes), ..self }
    }

    /// The waiting album art has been handed out.
    pub open spec fn art_taken(self) -> SpotifyModel {
        SpotifyModel { pending_album_art: None, ..self }
    }

    /// Polling ends and the connection drops.
    pub open spec fn stopped(self) -> SpotifyModel {
        SpotifyModel { stop_requested: true, connected: false, ..self }
    }

    /// A sign-in can begin: there is a client id and none is under way.
    pub open spec fn can_start_auth(self) -> bool {
        self.client_id is Some && !self.auth_in_progress
    }

    /// A sign-in is under way.
    pub open spec fn auth_started(self) -> SpotifyModel {
        SpotifyModel { auth_in_progress: true, ..self }
    }

    /// The sign-in is over: its verifier, code and deadline are dropped.
    pub open spec fn auth_ended(self) -> SpotifyModel {
        SpotifyModel {
            auth_in_progress: false,
            code_verifier: None,
            auth_code: None,
            auth_deadline: None,
            ..self
        }
    }

    /// A sign-in draws its code verifier from `random`: the URL-safe base64
    /// of those bytes.  Without a client id nothing happens.
    pub open spec fn sign_in_begun(self, random: Seq<u8>) -> SpotifyModel {
        if self.client_id is Some {
            SpotifyModel { code_verifier: Some(base64_url_spec(random)), auth_code: None, ..self }
        } else {
            self
        }
    }

    /// The S256 challenge of a code verifier.
    pub open spec fn challenge_of(verifier: Seq<char>) -> Seq<char> {
        base64_url_spec(sha256_digest(vstd::utf8::encode_utf8(verifier)))
    }

    /// The authorization URL of the sign-in under way: the client id and the
    /// challenge of the stored verifier.
    pub open spec fn sign_in_url(self) -> Option<Seq<char>> {
        match (self.client_id, self.code_verifier) {
            (Some(id), Some(v)) => Some(authorize_url_spec(id, Self::challenge_of(v))),
            _ => None,
        }
    }

    /// The callback is waited for from `now` on, for two minutes.
    pub open spec fn callback_window_opened(self, now: int) -> SpotifyModel {
        SpotifyModel { auth_code: None, auth_deadline: Some(now + 120_000), ..self }
    }

    /// A callback request with target `url` arrived: its `code=` value,
    /// decoded, becomes the authorization code; without one nothing changes.
    pub open spec fn after_callback(self, url: Seq<char>) -> SpotifyModel {
        match code_param(query_of(url)) {
            Some(raw) => SpotifyModel { auth_code: Some(form_decoded_value(raw)), ..self },
            None => self,
        }
    }

    /// The callback is still waited for at `now`: no code yet and the
    /// deadline not reached.
    pub open spec fn awaiting_callback(self, now: int) -> bool {
        self.auth_code is None && (self.auth_deadline matches Some(d) && now < d)
    }

    /// The body of the code exchange: the authorization code, the client id
    /// and the stored verifier.
    pub open spec fn exchange_body(self) -> Option<Seq<char>> {
        match (self.auth_code, self.client_id, self.code_verifier) {
            (Some(c), Some(id), Some(v)) => Some(token_request_body_spec(c, id, v)),
            _ => None,
        }
    }

    /// The state after the reply to the code exchange at `now`.
    pub open spec fn after_token(self, reply: TokenReply, now: int) -> SpotifyModel {
        match reply {
            TokenReply::Token(tk) => if tk.access_token@.len() > 0 {
                SpotifyModel {
                    access_token: tk.access_token@,
                    refresh_token: tk.refresh_token@,
                    token_expires_at: Some(now + renew_after_ms(tk.expires_in)),
                    connected: true,
                    ..self.auth_ended()
                }
            } else {
                self.auth_ended()
            },
            _ => self.auth_ended(),
        }
    }

    /// The state after the reply to a renewal at `now`.
    pub open spec fn after_refresh(self, reply: TokenReply, now: int) -> SpotifyModel {
        match reply {
            TokenReply::Failed => SpotifyModel { connected: false, ..self },
            TokenReply::Unreadable => self,
            TokenReply::Token(tk) => SpotifyModel {
                access_token: tk.access_token@,
                refresh_token: if tk.refresh_token@.len() > 0 {
                    tk.refresh_token@
                } else {
                    self.refresh_token
                },
                token_expires_at: Some(now + renew_after_ms(tk.expires_in)),
                ..self
            },
        }
    }

    /// Nothing is playing.
    pub open spec fn track_cleared(self) -> SpotifyModel {
        SpotifyModel { track_name: seq![], artist_name: seq![], ..self }
    }

    /// The state after a currently-playing reply, and the album-art URL to
    /// download, if any.
    pub open spec fn after_playing(self, playing: CurrentlyPlaying) -> (SpotifyModel, Option<Seq<char>>) {
        match playing.item {
            None => (self.track_cleared(), None),
            Some(item) => {
                let base = SpotifyModel {
                    track_name: str_or_empty(item.name),
                    artist_name: artist_line(item.artists),
                    ..self
                };
                match item_art_url(item.images) {
                    Some(u) => if u != self.last_art_url {
                        (SpotifyModel { last_art_url: u, ..base }, Some(u))
                    } else {
                        (base, None)
                    },
                    None => (base, None),
                }
            },
        }
    }

    /// The `Authorization` header of a now-playing request, if one is due.
    pub open spec fn poll_header(self) -> Option<Seq<char>> {
        if self.connected {
            Some("Bearer "@ + self.access_token)
        } else {
            None
        }
    }

    /// The access token is due for renewal at `now`.
    pub open spec fn refresh_due(self, now: int) -> bool {
        self.token_expires_at matches Some(d) && now >= d
    }
}

/// The milliseconds until the access token should be renewed: its lifetime
/// less a minute.
pub open spec fn renew_after_ms(expires_in: i64) -> int {
    (expires_in - 60) * 1000
}

/// A token lifetime for which the renewal time can be computed from `now`:
/// at least a minute, and not past the end of the clock.
pub open spec fn lifetime_in_range(expires_in: i64, now_ms: u64) -> bool {
    expires_in >= 60 && now_ms + renew_after_ms(expires_in) <= u64::MAX
}

impl View for SpotifyClient {
    type V = SpotifyModel;

    closed spec fn view(&self) -> SpotifyModel {
        SpotifyModel {
            client_id: opt_str(self.client_id),
            track_name: self.track_name@,
            artist_name: self.artist_name@,
            pending_album_art: match self.pending_album_art {
                Some(v) => Some(v@),
                None => None,
            },
            last_art_url: self.last_art_url@,
            connected: self.connected,
            auth_in_progress: self.auth_in_progress,
            access_token: self.access_token@,
            refresh_token: self.refresh_token@,
            token_expires_at: match self.token_expires_at {
                Some(t) => Some(t as int),
                None => None,
            },
            stop_requested: self.stop_requested,
            code_verifier: opt_str(self.code_verifier),
            auth_code: opt_str(self.auth_code),
            auth_deadline: match self.auth_deadline {
                Some(t) => Some(t as int),
                None => None,
            },
        }
    }
}

/// The state before anything happened: nothing playing, not connected, no
/// tokens.
pub open spec fn initial_model(client_id: Option<Seq<char>>) -> SpotifyModel {
    SpotifyModel {
        client_id,
        track_name: seq![],
        artist_name: seq![],
        pending_album_art: None,
        last_art_url: seq![],
        connected: false,
        auth_in_progress: false,
        access_token: seq![],
        refresh_token: seq![],
        token_expires_at: None,
        stop_requested: false,
        code_verifier: None,
        auth_code: None,
        auth_deadline: None,
    }
}

impl SpotifyClient {
    /// A client configured from the text of `spotify.properties`, when the
    /// file could be read.
    pub fn new(properties: Option<&str>) -> (res: SpotifyClient)
        ensures
            res@ == initial_model(
                match properties {
                    Some(p) => client_id_from(p@),
                    None => None,
                },
            ),
    {
        let client_id = match properties {
            Some(p) => parse_client_id(p),
            None => None,
        };
        SpotifyClient {
            client_id,
            track_name: String::new(),
            artist_name: String::new(),
            pending_album_art: None,
            last_art_url: String::new(),
            connected: false,
            auth_in_progress: false,
            access_token: String::new(),
            refresh_token: String::new(),
            token_expires_at: None,
            stop_requested: false,
            code_verifier: None,
            auth_code: None,
            auth_deadline: None,
        }
    }

    /// Whether the client holds a working sign-in.
    pub fn is_connected(&self) -> (res: bool)
        ensures
            res == self@.connected,
    {
        self.connected
    }

    /// Whether a sign-in is under way.
    pub fn is_auth_in_progress(&self) -> (res: bool)
        ensures
            res == self@.auth_in_progress,
    {
        self.auth_in_progress
    }

    /// Whether a track is known to be playing.
    pub fn has_track(&self) -> (res: bool)
        ensures
            res == (self@.track_name.len() > 0),
    {
        !self.track_name.as_str().is_empty()
    }

    /// The name of the playing track, empty when none.
    pub fn track_name(&self) -> (res: String)
        ensures
            res@ == self@.track_name,
    {
        self.track_name.clone()
    }

    /// The artists of the playing track, empty when none.
    pub fn artist_name(&self) -> (res: String)
        ensures
            res@ == self@.artist_name,
    {
        self.artist_name.clone()
    }

    /// Hands out the album art downloaded since the last call, once.
    pub fn consume_new_album_art(&mut self) -> (res: Option<Vec<u8>>)
        ensures
            match res {
                Some(v) => old(self)@.pending_album_art == Some(v@),
                None => old(self)@.pending_album_art is None,
            },
            final(self)@ == old(self)@.art_taken(),
    {
        self.pending_album_art.take()
    }

    /// Stops polling and drops the connection.
    pub fn stop(&mut self)
        ensures
            final(self)@ == old(self)@.stopped(),
    {
        self.stop_requested = true;
        self.connected = false;
    }

    /// Whether polling should end.
    pub fn is_stop_requested(&self) -> (res: bool)
        ensures
            res == self@.stop_requested,
    {
        self.stop_requested
    }

    /// Begins a sign-in.  With no client id, or with a sign-in already under
    /// way, nothing changes and `false` comes back; otherwise the sign-in is
    /// marked as under way and `true` comes back.
    pub fn start_auth(&mut self) -> (res: bool)
        ensures
            res == old(self)@.can_start_auth(),
            !old(self)@.can_start_auth() ==> final(self)@ == old(self)@,
            old(self)@.can_start_auth() ==> final(self)@ == old(self)@.auth_started(),
    {
        if self.client_id.is_none() || self.auth_in_progress {
            false
        } else {
            self.auth_in_progress = true;
            true
        }
    }

    /// Draws the code verifier of a sign-in from `random` and keeps it;
    /// returns the authorization URL, which carries the client id and the S256
    /// challenge of that verifier.  Without a client id nothing happens.
    pub fn begin_sign_in_with(&mut self, random: &[u8]) -> (res: Option<String>)
        requires
            base64_len(random@.len() as int) <= usize::MAX,
        ensures
            final(self)@ == old(self)@.sign_in_begun(random@),
            match res {
                Some(u) => final(self)@.sign_in_url() == Some(u@),
                None => old(self)@.client_id is None,
            },
    {
        match &self.client_id {
            None => None,
            Some(id) => {
                let verifier = code_verifier_from(random);
                let challenge = code_challenge(verifier.as_str());
                let url = authorize_url(id.as_str(), challenge.as_str());
                self.code_verifier = Some(verifier);
                self.auth_code = None;
                Some(url)
            },
        }
    }

    /// Draws the code verifier of a sign-in from 64 random bytes and keeps
    /// it; returns the authorization URL with the verifier's challenge.
    pub fn begin_sign_in(&mut self) -> (res: Option<String>)
        ensures
            exists|r: Seq<u8>|
                r.len() == VERIFIER_BYTES && final(self)@ == #[trigger] old(self)@.sign_in_begun(r),
            match res {
                Some(u) => final(self)@.sign_in_url() == Some(u@),
                None => old(self)@.client_id is None,
            },
    {
        let random = rand_bytes(VERIFIER_BYTES);
        self.begin_sign_in_with(random.as_slice())
    }

    /// Starts waiting for the redirect callback at `now_ms`, for two minutes.
    pub fn open_callback_window(&mut self, now_ms: u64)
        requires
            now_ms + 120_000 <= u64::MAX,
        ensures
            final(self)@ == old(self)@.callback_window_opened(now_ms as int),
    {
        self.auth_code = None;
        self.auth_deadline = Some(now_ms + 120_000);
    }

    /// Whether the callback is still waited for at `now_ms`.
    pub fn awaiting_callback(&self, now_ms: u64) -> (res: bool)
        ensures
            res == self@.awaiting_callback(now_ms as int),
    {
        if self.auth_code.is_some() {
            return false;
        }
        match self.auth_deadline {
            Some(d) => now_ms < d,
            None => false,
        }
    }

    /// Takes in a callback request with target `url`; returns the page to
    /// answer it with, which reports whether a code has now been received.
    pub fn on_callback(&mut self, url: &str) -> (res: &'static str)
        ensures
            final(self)@ == old(self)@.after_callback(url@),
            res@ == callback_page_spec(final(self)@.auth_code is Some),
    {
        match parse_callback_code(url) {
            Some(c) => {
                self.auth_code = Some(c);
            },
            None => {},
        }
        callback_page(self.auth_code.is_some())
    }

    /// The body of the code exchange, once a code has arrived: it carries the
    /// code, the client id and the verifier whose challenge went out in the
    /// authorization URL.
    pub fn code_exchange_body(&self) -> (res: Option<String>)
        ensures
            match res {
                Some(b) => self@.exchange_body() == Some(b@),
                None => self@.exchange_body() is None,
            },
    {
        match (&self.auth_code, &self.client_id, &self.code_verifier) {
            (Some(c), Some(id), Some(v)) => Some(
                token_request_body(c.as_str(), id.as_str(), v.as_str()),
            ),
            _ => None,
        }
    }

    /// A sign-in ended without a token: the callback server could not
    /// start, or no authorization code came back in time.
    pub fn auth_failed(&mut self)
        ensures
            final(self)@ == old(self)@.auth_ended(),
    {
        self.auth_in_progress = false;
        self.code_verifier = None;
        self.auth_code = None;
        self.auth_deadline = None;
    }

    /// Takes in the reply to the code exchange at `now_ms`.  A reply with a
    /// non-empty access token connects the client, keeps both tokens, sets
    /// the renewal time a minute before the token expires and returns `true`
    /// (polling starts); any other outcome ends the sign-in unconnected and
    /// returns `false`.
    pub fn on_token_response(&mut self, reply: TokenReply, now_ms: u64) -> (res: bool)
        requires
            reply matches TokenReply::Token(tk) ==> (tk.access_token@.len() > 0 ==> lifetime_in_range(
                tk.expires_in,
                now_ms,
            )),
        ensures
            res == (reply matches TokenReply::Token(tk) && tk.access_token@.len() > 0),
            final(self)@ == old(self)@.after_token(reply, now_ms as int),
    {
        match reply {
            TokenReply::Token(tk) => {
                if tk.access_token.as_str().is_empty() {
                    self.auth_failed();
                    false
                } else {
                    let after: u64 = ((tk.expires_in - 60) as u64) * 1000;
                    self.access_token = tk.access_token;
                    self.refresh_token = tk.refresh_token;
                    self.token_expires_at = Some(now_ms + after);
                    self.connected = true;
                    self.auth_failed();
                    true
                }
            },
            _ => {
                self.auth_failed();
                false
            },
        }
    }

    /// Whether the access token is due for renewal at `now_ms`.
    pub fn needs_refresh(&self, now_ms: u64) -> (res: bool)
        ensures
            res == self@.refresh_due(now_ms as int),
    {
        match self.token_expires_at {
            Some(d) => now_ms >= d,
            None => false,
        }
    }

    /// The form body that renews the access token, or `None` when there is
    /// no refresh token (or no client id) to renew it with.
    pub fn refresh_body(&self) -> (res: Option<String>)
        ensures
            (self@.refresh_token.len() == 0 || self@.client_id is None) ==> res is None,
            (self@.refresh_token.len() > 0 && self@.client_id is Some) ==> res is Some
                && res->0@ == refresh_request_body_spec(
                self@.refresh_token,
                self@.client_id->0,
            ),
    {
        if self.refresh_token.as_str().is_empty() {
            return None;
        }
        match &self.client_id {
            Some(id) => Some(refresh_request_body(self.refresh_token.as_str(), id.as_str())),
            None => None,
        }
    }

    /// Takes in the reply to a renewal at `now_ms`.  A failed request drops
    /// the connection; an unreadable reply changes nothing; a token reply
    /// replaces the access token, replaces the refresh token only by a
    /// non-empty one, and sets the renewal time anew.
    pub fn on_refresh_response(&mut self, reply: TokenReply, now_ms: u64)
        requires
            reply matches TokenReply::Token(tk) ==> lifetime_in_range(tk.expires_in, now_ms),
        ensures
            final(self)@ == old(self)@.after_refresh(reply, now_ms as int),
    {
        match reply {
            TokenReply::Failed => {
                self.connected = false;
            },
            TokenReply::Unreadable => {},
            TokenReply::Token(tk) => {
                let after: u64 = ((tk.expires_in - 60) as u64) * 1000;
                self.access_token = tk.access_token;
                if !tk.refresh_token.as_str().is_empty() {
                    self.refresh_token = tk.refresh_token;
                }
                self.token_expires_at = Some(now_ms + after);
            },
        }
    }

    /// The `Authorization` header value for a now-playing request, or `None`
    /// when the client is not connected and the poll should only wait.
    pub fn poll_authorization(&self) -> (res: Option<String>)
        ensures
            match res {
                Some(h) => self@.poll_header() == Some(h@),
                None => self@.poll_header() is None,
            },
    {
        if !self.connected {
            return None;
        }
        let mut h = String::from_str("Bearer ");
        h.append(self.access_token.as_str());
        Some(h)
    }

    /// Nothing is playing (the endpoint answered with no content): the
    /// track and artist are cleared.
    pub fn on_nothing_playing(&mut self)
        ensures
            final(self)@ == old(self)@.track_cleared(),
    {
        self.track_name = String::new();
        self.artist_name = String::new();
    }

    /// Takes in a currently-playing reply.  Without an item, the track and
    /// artist are cleared.  Otherwise they are set from the item, and when
    /// the chosen album-art URL differs from the last one it becomes the last
    /// one and comes back, to be downloaded.
    pub fn handle_currently_playing(&mut self, playing: &CurrentlyPlaying) -> (res: Option<String>)
        requires
            playing.item matches Some(item) ==> images_in_range(item.images),
        ensures
            final(self)@ == old(self)@.after_playing(*playing).0,
            match res {
                Some(u) => old(self)@.after_playing(*playing).1 == Some(u@),
                None => old(self)@.after_playing(*playing).1 is None,
            },
    {
        match &playing.item {
            None => {
                self.track_name = String::new();
                self.artist_name = String::new();
                None
            },
            Some(item) => {
                let track = match &item.name {
                    Some(n) => n.clone(),
                    None => String::new(),
                };
                let artists = match &item.artists {
                    Some(a) => join_artist_names(a),
                    None => String::new(),
                };
                let best = match &item.images {
                    Some(imgs) => best_image_url(imgs),
                    None => None,
                };
                self.track_name = track;
                self.artist_name = artists;
                match best {
                    Some(url) => {
                        if url != self.last_art_url {
                            self.last_art_url = url.clone();
                            Some(url)
                        } else {
                            None
                        }
                    },
                    None => None,
                }
            },
        }
    }

    /// Album art finished downloading: it waits to be handed out.
    pub fn on_album_art(&mut self, bytes: Vec<u8>)
        ensures
            final(self)@ == old(self)@.with_album_art(bytes@),
    {
        self.pending_album_art = Some(bytes);
    }
}

/// The present artist names joined with `", "`.
pub fn join_artist_names(artists: &Vec<Option<String>>) -> (res: String)
    ensures
        res@ == join_names(present_names(artists@)),
{
    let mut res = String::new();
    let mut any = false;
    let n = artists.len();
    let mut i: usize = 0;
    while i < n
        invariant
            n == artists@.len(),
            i <= n,
            any == (present_names(artists@.take(i as int)).len() > 0),
            res@ == join_names(present_names(artists@.take(i as int))),
        decreases n - i,
    {
        let ghost prev = present_names(artists@.take(i as int));
        proof {
            assert(artists@.take(i + 1).drop_last() =~= artists@.take(i as int));
        }
        match &artists[i] {
            Some(name) => {
                if any {
                    res.append(", ");
                }
                res.append(name.as_str());
                proof {
                    assert(prev.push(name@).drop_last() =~= prev);
                }
                any = true;
            },
            None => {},
        }
        i = i + 1;
    }
    proof {
        assert(artists@.take(n as int) =~= artists@);
    }
    res
}

/// The URL of the image whose width is closest to 300 pixels among those
/// with a non-empty URL, the first of them on a tie.
pub fn best_image_url(images: &Vec<AlbumImage>) -> (res: Option<String>)
    requires
        widths_in_range(images@),
    ensures
        match res {
            Some(u) => best_image(images@) == Some(u@),
            None => best_image(images@) is None,
        },
{
    let n = images.len();
    let mut best: Option<(i64, usize)> = None;
    let mut i: usize = 0;
    while i < n
        invariant
            n == images@.len(),
            i <= n,
            widths_in_range(images@),
            match best {
                None => best_image_prefix(images@, i as int) is None,
                Some((d, k)) => k < i && best_image_prefix(images@, i as int) == Some(
                    (d as int, str_or_empty(images@[k as int].url)),
                ),
            },
        decreases n - i,
    {
        let img = &images[i];
        let nonempty = match &img.url {
            Some(u) => !u.as_str().is_empty(),
            None => false,
        };
        if nonempty {
            assert(str_or_empty(images@[i as int].url).len() > 0);
            let w: i64 = match img.width {
                Some(w) => w,
                None => 0,
            };
            let d: i64 = if w >= 300 {
                w - 300
            } else {
                300 - w
            };
            match best {
                None => {
                    best = Some((d, i));
                },
                Some((bd, _)) => {
                    if d < bd {
                        best = Some((d, i));
                    }
                },
            }
        }
        i = i + 1;
    }
    match best {
        Some((_, k)) => match &images[k].url {
            Some(u) => Some(u.clone()),
            None => Some(String::new()),
        },
        None => None,
    }
}

/// Album art is handed out once: right after it arrives it is waiting, and
/// once taken nothing waits any more.
pub proof fn law_album_art_handed_out_once(m: SpotifyModel, bytes: Seq<u8>)
    ensures
        m.with_album_art(bytes).pending_album_art == Some(bytes),
        m.with_album_art(bytes).art_taken().pending_album_art is None,
{
}

/// After `stop` the client is disconnected, asks for no more now-playing
/// requests, and tells the poller to end.
pub proof fn law_stop_ends_polling(m: SpotifyModel)
    ensures
        !m.stopped().connected,
        m.stopped().poll_header() is None,
        m.stopped().stop_requested,
{
}

/// Renewing a token never connects a client that was not connected: only
/// the code exchange does.
pub proof fn law_refresh_never_connects(m: SpotifyModel, reply: TokenReply, now: int)
    ensures
        m.after_refresh(reply, now).connected ==> m.connected,
{
}

/// At most one sign-in runs at a time: once one has begun, another cannot.
pub proof fn law_single_sign_in(m: SpotifyModel)
    ensures
        !m.auth_started().can_start_auth(),
{
}

/// Whatever the code exchange answers, the sign-in is over afterwards; the
/// client is connected exactly when the answer held an access token or it
/// already was.
pub proof fn law_token_exchange_ends_sign_in(m: SpotifyModel, reply: TokenReply, now: int)
    ensures
        !m.after_token(reply, now).auth_in_progress,
        m.after_token(reply, now).connected == (m.connected || (reply matches TokenReply::Token(
            tk,
        ) && tk.access_token@.len() > 0)),
{
}

/// A token obtained at `now` is due for renewal exactly from a minute before
/// it expires.
pub proof fn law_renewal_time(m: SpotifyModel, reply: TokenReply, now: int, later: int)
    requires
        reply matches TokenReply::Token(tk) && tk.access_token@.len() > 0,
    ensures
        m.after_token(reply, now).refresh_due(later) == (later >= now + renew_after_ms(
            reply->Token_0.expires_in,
        )),
{
}

/// Taking in the same currently-playing reply twice changes nothing the
/// second time and downloads no album art again.
pub proof fn law_now_playing_idempotent(m: SpotifyModel, playing: CurrentlyPlaying)
    ensures
        m.after_playing(playing).0.after_playing(playing) == (m.after_playing(playing).0, None::<
            Seq<char>,
        >),
{
    let m1 = m.after_playing(playing).0;
    match playing.item {
        None => {
            assert(m1.after_playing(playing).0 =~= m1);
        },
        Some(item) => {
            assert(m1.after_playing(playing).0 =~= m1);
        },
    }
}

/// The image that `best_image` picks among the first `k`: one with a URL,
/// at least as close to 300 pixels as every image with a URL, and strictly
/// closer than every earlier one; none exactly when no image has a URL.
pub proof fn lemma_best_image_prefix(images: Seq<AlbumImage>, k: int)
    requires
        0 <= k <= images.len(),
    ensures
        match best_image_prefix(images, k) {
            None => forall|j: int| 0 <= j < k ==> str_or_empty(#[trigger] images[j].url).len() == 0,
            Some((d, u)) => exists|c: int|
                0 <= c < k && str_or_empty(#[trigger] images[c].url) == u && u.len() > 0 && d
                    == width_distance(images[c]) && (forall|j: int|
                    0 <= j < k && str_or_empty(#[trigger] images[j].url).len() > 0 ==> d
                        <= width_distance(images[j])) && (forall|j: int|
                    0 <= j < c && str_or_empty(#[trigger] images[j].url).len() > 0 ==> d
                        < width_distance(images[j])),
        },
    decreases k,
{
    if k > 0 {
        lemma_best_image_prefix(images, k - 1);
    }
}

/// Among the images with a URL, the one chosen is the closest to 300 pixels
/// wide, the first of them on a tie; no URL is chosen only when no image has
/// one.
pub proof fn law_best_image_is_closest(images: Seq<AlbumImage>)
    ensures
        best_image(images) is None <==> forall|j: int|
            0 <= j < images.len() ==> str_or_empty(#[trigger] images[j].url).len() == 0,
        best_image(images) matches Some(u) ==> exists|c: int|
            0 <= c < images.len() && str_or_empty(#[trigger] images[c].url) == u && u.len() > 0
                && (forall|j: int|
                0 <= j < images.len() && str_or_empty(#[trigger] images[j].url).len() > 0
                    ==> width_distance(images[c]) <= width_distance(images[j])) && (forall|j: int|
                0 <= j < c && str_or_empty(#[trigger] images[j].url).len() > 0 ==> width_distance(
                    images[c],
                ) < width_distance(images[j])),
{
    lemma_best_image_prefix(images, images.len() as int);
}

/// The verifier whose challenge goes out in the authorization URL is the
/// one that the code exchange sends: after a sign-in draws its verifier from
/// `random`, opens the callback window and takes in a callback, the URL holds
/// the S256 challenge of `base64url(random)` and the exchange body holds that
/// same verifier, with the client id and the code that the callback brought.
pub proof fn law_pkce_pair(m: SpotifyModel, random: Seq<u8>, now: int, url: Seq<char>)
    requires
        m.client_id is Some,
    ensures
        ({
            let id = m.client_id->0;
            let v = base64_url_spec(random);
            let begun = m.sign_in_begun(random);
            let done = begun.callback_window_opened(now).after_callback(url);
            &&& begun.sign_in_url() == Some(authorize_url_spec(id, SpotifyModel::challenge_of(v)))
            &&& done.code_verifier == Some(v)
            &&& (code_param(query_of(url)) is Some <==> done.exchange_body() is Some)
            &&& (done.exchange_body() matches Some(b) ==> b == token_request_body_spec(
                form_decoded_value(code_param(query_of(url))->0),
                id,
                v,
            ))
        }),
{
}

/// Everything that happens to a Spotify client.
pub enum ClientEvent {
    StartAuth,
    BeginSignIn(Seq<u8>),
    OpenCallbackWindow(int),
    Callback(Seq<char>),
    AuthFailed,
    TokenExchange(TokenReply, int),
    Refresh(TokenReply, int),
    NothingPlaying,
    Playing(CurrentlyPlaying),
    AlbumArt(Seq<u8>),
    ConsumeArt,
    Stop,
}

impl SpotifyModel {
    /// The state after one event.
    pub open spec fn step(self, e: ClientEvent) -> SpotifyModel {
        match e {
            ClientEvent::StartAuth => if self.can_start_auth() {
                self.auth_started()
            } else {
                self
            },
            ClientEvent::BeginSignIn(r) => self.sign_in_begun(r),
            ClientEvent::OpenCallbackWindow(now) => self.callback_window_opened(now),
            ClientEvent::Callback(url) => self.after_callback(url),
            ClientEvent::AuthFailed => self.auth_ended(),
            ClientEvent::TokenExchange(reply, now) => self.after_token(reply, now),
            ClientEvent::Refresh(reply, now) => self.after_refresh(reply, now),
            ClientEvent::NothingPlaying => self.track_cleared(),
            ClientEvent::Playing(p) => self.after_playing(p).0,
            ClientEvent::AlbumArt(b) => self.with_album_art(b),
            ClientEvent::ConsumeArt => self.art_taken(),
            ClientEvent::Stop => self.stopped(),
        }
    }

    /// The state after a run of events, in order.
    pub open spec fn run(self, events: Seq<ClientEvent>) -> SpotifyModel
        decreases events.len(),
    {
        if events.len() == 0 {
            self
        } else {
            self.run(events.drop_last()).step(events.last())
        }
    }
}

/// A code exchange whose reply held an access token.
pub open spec fn is_successful_exchange(e: ClientEvent) -> bool {
    e matches ClientEvent::TokenExchange(TokenReply::Token(tk), _) && tk.access_token@.len() > 0
}

/// An event that drops the connection: `stop`, or a renewal that failed.
pub open spec fn drops_connection(e: ClientEvent) -> bool {
    e is Stop || e matches ClientEvent::Refresh(TokenReply::Failed, _)
}

/// An event that ends a sign-in: its failure or the code exchange.
pub open spec fn ends_sign_in(e: ClientEvent) -> bool {
    e is AuthFailed || e is TokenExchange
}

/// Some code exchange in `events` held an access token, and nothing after it
/// dropped the connection.
pub open spec fn connected_by(events: Seq<ClientEvent>) -> bool {
    exists|i: int|
        0 <= i < events.len() && is_successful_exchange(#[trigger] events[i]) && forall|j: int|
            i < j < events.len() ==> !drops_connection(#[trigger] events[j])
}

/// Some request to sign in in `events` found a client id, and no sign-in
/// ended after it.
pub open spec fn signing_in_by(client_id: Option<Seq<char>>, events: Seq<ClientEvent>) -> bool {
    client_id is Some && exists|i: int|
        0 <= i < events.len() && #[trigger] events[i] is StartAuth && forall|j: int|
            i < j < events.len() ==> !ends_sign_in(#[trigger] events[j])
}

/// A client that starts out disconnected is connected after a run of events
/// exactly when some code exchange in it brought an access token and neither
/// `stop` nor a failed renewal came after that exchange.
pub proof fn law_connected_only_after_exchange(m: SpotifyModel, events: Seq<ClientEvent>)
    requires
        !m.connected,
    ensures
        m.run(events).connected <==> connected_by(events),
    decreases events.len(),
{
    if events.len() > 0 {
        let pre = events.drop_last();
        let e = events.last();
        let n = events.len() - 1;
        law_connected_only_after_exchange(m, pre);
        if connected_by(pre) {
            let i = choose|i: int|
                0 <= i < pre.len() && is_successful_exchange(#[trigger] pre[i]) && forall|j: int|
                    i < j < pre.len() ==> !drops_connection(#[trigger] pre[j]);
            if !drops_connection(e) {
                assert(is_successful_exchange(events[i]));
                assert forall|j: int| i < j < events.len() implies !drops_connection(
                    #[trigger] events[j],
                ) by {
                    if j < n {
                        assert(events[j] == pre[j]);
                    }
                }
            }
        }
        if is_successful_exchange(e) {
            assert(is_successful_exchange(events[n]));
        }
        if connected_by(events) {
            let i = choose|i: int|
                0 <= i < events.len() && is_successful_exchange(#[trigger] events[i]) && forall|
                    j: int,
                | i < j < events.len() ==> !drops_connection(#[trigger] events[j]);
            if i < n {
                assert(!drops_connection(events[n]));
                assert(is_successful_exchange(pre[i]));
                assert forall|j: int| i < j < pre.len() implies !drops_connection(
                    #[trigger] pre[j],
                ) by {
                    assert(pre[j] == events[j]);
                }
            }
        }
    }
}

/// A client that starts out with no sign-in under way has one under way after
/// a run of events exactly when it has a client id, some request to sign in
/// came in the run, and no sign-in ended (by failure or code exchange) after
/// that request.
pub proof fn law_signing_in_only_while_flow_runs(m: SpotifyModel, events: Seq<ClientEvent>)
    requires
        !m.auth_in_progress,
    ensures
        m.run(events).auth_in_progress <==> signing_in_by(m.client_id, events),
        m.run(events).client_id == m.client_id,
    decreases events.len(),
{
    if events.len() > 0 {
        let pre = events.drop_last();
        let e = events.last();
        let n = events.len() - 1;
        law_signing_in_only_while_flow_runs(m, pre);
        if signing_in_by(m.client_id, pre) {
            let i = choose|i: int|
                0 <= i < pre.len() && #[trigger] pre[i] is StartAuth && forall|j: int|
                    i < j < pre.len() ==> !ends_sign_in(#[trigger] pre[j]);
            if !ends_sign_in(e) {
                assert(events[i] is StartAuth);
                assert forall|j: int| i < j < events.len() implies !ends_sign_in(
                    #[trigger] events[j],
                ) by {
                    if j < n {
                        assert(events[j] == pre[j]);
                    }
                }
            }
        }
        if e is StartAuth {
            assert(events[n] is StartAuth);
        }
        if signing_in_by(m.client_id, events) {
            let i = choose|i: int|
                0 <= i < events.len() && #[trigger] events[i] is StartAuth && forall|j: int|
                    i < j < events.len() ==> !ends_sign_in(#[trigger] events[j]);
            if i < n {
                assert(!ends_sign_in(events[n]));
                assert(pre[i] is StartAuth);
                assert forall|j: int| i < j < pre.len() implies !ends_sign_in(#[trigger] pre[j]) by {
                    assert(pre[j] == events[j]);
                }
            }
        }
    }
}

/// A currently-playing reply with an item always sets the track name to the
/// item's name (empty when absent) and the artist line to its artists, whether
/// or not the album art changed; it downloads the chosen art exactly when its
/// URL differs from the last one, which it then remembers; and it leaves the
/// connection, the tokens, the sign-in and any waiting art alone.
pub proof fn law_playing_sets_track(m: SpotifyModel, item: TrackItem)
    ensures
        ({
            let (m2, download) = m.after_playing(CurrentlyPlaying { item: Some(item) });
            &&& m2.track_name == str_or_empty(item.name)
            &&& m2.artist_name == artist_line(item.artists)
            &&& download == (match item_art_url(item.images) {
                Some(u) => if u != m.last_art_url {
                    Some(u)
                } else {
                    None
                },
                None => None,
            })
            &&& m2.last_art_url == (match item_art_url(item.images) {
                Some(u) => u,
                None => m.last_art_url,
            })
            &&& m2.connected == m.connected
            &&& m2.access_token == m.access_token
            &&& m2.refresh_token == m.refresh_token
            &&& m2.token_expires_at == m.token_expires_at
            &&& m2.auth_in_progress == m.auth_in_progress
            &&& m2.pending_album_art == m.pending_album_art
            &&& m2.client_id == m.client_id
        }),
{
}

/// A reply without an item clears the track name and artist line and
/// downloads nothing; the last album-art URL and everything else stay.
pub proof fn law_no_item_clears_track(m: SpotifyModel)
    ensures
        ({
            let (m2, download) = m.after_playing(CurrentlyPlaying { item: None });
            &&& m2.track_name.len() == 0
            &&& m2.artist_name.len() == 0
            &&& download is None
            &&& m2.last_art_url == m.last_art_url
            &&& m2.connected == m.connected
            &&& m2.access_token == m.access_token
            &&& m2.pending_album_art == m.pending_album_art
        }),
{
}

/// A token reply to a renewal always replaces the access token by the
/// reply's, whatever its refresh token; the refresh token is replaced only by
/// a non-empty one; the renewal time moves to a minute before the new token
/// expires; and the connection is kept as it was, so a connected client polls
/// with the new token.
pub proof fn law_refresh_replaces_access_token(m: SpotifyModel, tk: TokenResponse, now: int)
    ensures
        ({
            let m2 = m.after_refresh(TokenReply::Token(tk), now);
            &&& m2.access_token == tk.access_token@
            &&& (tk.refresh_token@.len() > 0 ==> m2.refresh_token == tk.refresh_token@)
            &&& (tk.refresh_token@.len() == 0 ==> m2.refresh_token == m.refresh_token)
            &&& m2.token_expires_at == Some(now + (tk.expires_in - 60) * 1000)
            &&& m2.connected == m.connected
            &&& (m.connected ==> m2.poll_header() == Some("Bearer "@ + tk.access_token@))
            &&& m2.track_name == m.track_name
            &&& m2.auth_in_progress == m.auth_in_progress
        }),
{
}

/// A failed renewal drops the connection and keeps the tokens; an unreadable
/// reply changes nothing at all.
pub proof fn law_refresh_without_token(m: SpotifyModel, now: int)
    ensures
        !m.after_refresh(TokenReply::Failed, now).connected,
        m.after_refresh(TokenReply::Failed, now).poll_header() is None,
        m.after_refresh(TokenReply::Failed, now).access_token == m.access_token,
        m.after_refresh(TokenReply::Failed, now).refresh_token == m.refresh_token,
        m.after_refresh(TokenReply::Failed, now).token_expires_at == m.token_expires_at,
        m.after_refresh(TokenReply::Unreadable, now) == m,
{
}

/// The code exchange keeps both tokens of a reply with an access token, polls
/// with that token, and is due for renewal a minute before it expires.
pub proof fn law_exchange_stores_tokens(m: SpotifyModel, tk: TokenResponse, now: int)
    requires
        tk.access_token@.len() > 0,
    ensures
        ({
            let m2 = m.after_token(TokenReply::Token(tk), now);
            &&& m2.connected
            &&& !m2.auth_in_progress
            &&& m2.access_token == tk.access_token@
            &&& m2.refresh_token == tk.refresh_token@
            &&& m2.token_expires_at == Some(now + (tk.expires_in - 60) * 1000)
            &&& m2.poll_header() == Some("Bearer "@ + tk.access_token@)
            &&& m2.track_name == m.track_name
        }),
{
}

} // verus!
