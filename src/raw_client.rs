use vstd::prelude::*;

use crate::envelope::{json_object_entries, parse_object_entries, parsed_view};
use crate::error::{ErrorView, GameSenseError};
use crate::request::{
    event_data_model, event_options, handlers_model, AsyncEngineRequest, BindEvent,
    EngineRequest, GameEvent, Heartbeat, RegisterEvent, RegisterGame, RemoveEvent, RemoveGame,
};
use crate::wire::{text_entry, JsonModel, WireValue};
use vstd::string::StringExecFns;

verus! {

#[verifier::external_type_specification]
#[verifier::external_body]
pub struct ExHttpClient(reqwest::Client);

#[verifier::external_type_specification]
#[verifier::external_body]
pub struct ExHttpError(reqwest::Error);

/// The engine's address where no configuration file tells it.
pub const DEFAULT_ADDRESS: &'static str = "127.0.0.1:5000";

/// Where the engine listens, as its configuration file gives it.
#[derive(Debug, Clone, PartialEq, Eq)]
pub struct EngineConfig {
    pub address: String,
}

/// The position of the first entry under `key`, if any.
pub open spec fn first_with_key(es: Seq<(Seq<char>, Seq<char>, bool)>, key: Seq<char>, i: int) -> bool {
    &&& 0 <= i < es.len()
    &&& es[i].0 == key
    &&& forall|j: int| 0 <= j < i ==> es[j].0 != key
}

/// The address that a configuration file with these entries gives: the
/// first `address` entry, which must hold a string.
pub open spec fn config_outcome(entries: Option<Seq<(Seq<char>, Seq<char>, bool)>>) -> Result<
    Seq<char>,
    ErrorView,
> {
    match entries {
        None => Err(ErrorView::DiscoveryFailed),
        Some(es) => if exists|i: int| first_with_key(es, "address"@, i) {
            let i = choose|i: int| first_with_key(es, "address"@, i);
            if es[i].2 {
                Ok(es[i].1)
            } else {
                Err(ErrorView::DiscoveryFailed)
            }
        } else {
            Err(ErrorView::DiscoveryFailed)
        },
    }
}

/// The first `address` entry decides the configuration.
pub proof fn lemma_config_at(es: Seq<(Seq<char>, Seq<char>, bool)>, i: int)
    requires
        first_with_key(es, "address"@, i),
    ensures
        config_outcome(Some(es)) == (if es[i].2 {
            Ok(es[i].1)
        } else {
            Err(ErrorView::DiscoveryFailed)
        }),
{
    let k = choose|k: int| first_with_key(es, "address"@, k);
    assert(first_with_key(es, "address"@, k));
    if k < i {
        assert(es[k].0 != "address"@);
    } else if k > i {
        assert(es[i].0 != "address"@);
    }
}

pub open spec fn config_view(r: Result<EngineConfig, GameSenseError>) -> Result<Seq<char>, ErrorView> {
    match r {
        Ok(c) => Ok(c.address@),
        Err(e) => Err(e@),
    }
}

impl EngineConfig {
    /// Reads the configuration from the entries that parsing its file gave.
    pub fn from_entries(entries: Option<Vec<(String, String, bool)>>) -> (r: Result<
        EngineConfig,
        GameSenseError,
    >)
        ensures
            config_view(r) == config_outcome(parsed_view(entries)),
    {
        let ghost view = parsed_view(entries);
        match entries {
            None => Err(GameSenseError::DiscoveryFailed),
            Some(es) => {
                let ghost ev = view.unwrap();
                let key = "address".to_owned();
                let mut i: usize = 0;
                while i < es.len()
                    invariant
                        i <= es@.len(),
                        view == Some(ev),
                        view == parsed_view(entries),
                        ev.len() == es@.len(),
                        ev == crate::envelope::entries_view(es@),
                        forall|j: int| 0 <= j < i ==> ev[j].0 != "address"@,
                        key@ == "address"@,
                    decreases es.len() - i,
                {
                    if es[i].0 == key {
                        proof {
                            assert(ev[i as int] == (es@[i as int].0@, es@[i as int].1@, es@[i as int].2));
                            lemma_config_at(ev, i as int);
                        }
                        if es[i].2 {
                            let address = es[i].1.clone();
                            assert(address@ == ev[i as int].1);
                            return Ok(EngineConfig { address });
                        } else {
                            return Err(GameSenseError::DiscoveryFailed);
                        }
                    }
                    i = i + 1;
                }
                Err(GameSenseError::DiscoveryFailed)
            },
        }
    }

    /// Reads the configuration file's text, a JSON object with the address
    /// under `address`.
    pub fn from_json(text: &str) -> (r: Result<EngineConfig, GameSenseError>)
        ensures
            config_view(r) == config_outcome(json_object_entries(text@)),
    {
        EngineConfig::from_entries(parse_object_entries(text))
    }

    /// The configuration where nothing is to be discovered.
    pub fn loopback() -> (r: EngineConfig)
        ensures
            r.address@ == DEFAULT_ADDRESS@,
    {
        EngineConfig { address: DEFAULT_ADDRESS.to_owned() }
    }
}

/// A request ready to be posted: where to, and with which JSON body.
pub struct Outgoing {
    pub url: String,
    pub body: WireValue,
}

/// The URL of `path` at the engine listening on `address`.
pub open spec fn url_of(address: Seq<char>, path: Seq<char>) -> Seq<char> {
    "http://"@ + address + "/"@ + path
}

/// Relies on reqwest::ClientBuilder::build, which fails rather than panics
/// where the HTTP client cannot be set up.
#[verifier::external_body]
fn build_http_client() -> (r: Result<reqwest::Client, reqwest::Error>) {
    reqwest::Client::builder().build()
}

/// Talks to one engine: one method per request of the protocol, each
/// giving the request to post.
pub struct RawGameSenseClient {
    client: reqwest::Client,
    address: String,
}

impl RawGameSenseClient {
    /// The address of the engine.
    pub closed spec fn address_view(&self) -> Seq<char> {
        self.address@
    }

    /// A client for the engine at the loopback default address.
    pub fn new() -> (r: Result<RawGameSenseClient, GameSenseError>)
        ensures
            r matches Ok(c) ==> c.address_view() == DEFAULT_ADDRESS@,
            r matches Err(e) ==> e == GameSenseError::TransportInit,
    {
        RawGameSenseClient::with_config(EngineConfig::loopback())
    }

    /// A client for the engine at the address that `config` gives.
    pub fn with_config(config: EngineConfig) -> (r: Result<RawGameSenseClient, GameSenseError>)
        ensures
            r matches Ok(c) ==> c.address_view() == config.address@,
            r matches Err(e) ==> e == GameSenseError::TransportInit,
    {
        match build_http_client() {
            Ok(client) => Ok(RawGameSenseClient { client, address: config.address }),
            Err(_) => Err(GameSenseError::TransportInit),
        }
    }

    pub fn address(&self) -> (r: &str)
        ensures
            r@ == self.address_view(),
    {
        self.address.as_str()
    }

    /// The HTTP client that posts the requests.
    pub fn http(&self) -> &reqwest::Client {
        &self.client
    }

    /// The URL of `endpoint` at this engine.
    pub fn endpoint_url(&self, endpoint: &str) -> (r: String)
        ensures
            r@ == url_of(self.address_view(), endpoint@),
    {
        let mut url = "http://".to_owned();
        url.append(self.address.as_str());
        url.append("/");
        url.append(endpoint);
        url
    }

    /// The request that posts `data` to `endpoint`.
    pub fn send_data(&self, endpoint: &str, data: WireValue) -> (r: Outgoing)
        ensures
            r.url@ == url_of(self.address_view(), endpoint@),
            r.body == data,
    {
        Outgoing { url: self.endpoint_url(endpoint), body: data }
    }

    /// The request that posts `request` to its own endpoint.
    pub fn request<T: AsyncEngineRequest>(&self, request: T) -> (r: Outgoing)
        ensures
            r.url@ == url_of(self.address_view(), T::endpoint()),
            r.body.model() == request.wire_model(),
    {
        self.send_data(T::path(), request.into_wire())
    }

    /// Sends `value` for `event`, with `frame` under `data` where one is given.
    pub fn game_event(
        &self,
        game: &str,
        event: &str,
        value: isize,
        frame: Option<serde_json::Value>,
    ) -> (r: Outgoing)
        ensures
            r.url@ == url_of(self.address_view(), "game_event"@),
            r.body.model() == JsonModel::Object(
                seq![
                    text_entry("game"@, game@),
                    text_entry("event"@, event@),
                    ("data"@, event_data_model(value as int, json_frame(frame))),
                ],
            ),
    {
        match frame {
            Some(f) => self.request(GameEvent { game, event, value, data: f }),
            None => self.request(GameEvent { game, event, value, data: () }),
        }
    }

    pub fn heartbeat(&self, game: &str) -> (r: Outgoing)
        ensures
            r.url@ == url_of(self.address_view(), "game_heartbeat"@),
            r.body.model() == (Heartbeat { game }).wire_model(),
    {
        self.request(Heartbeat { game })
    }

    pub fn register_game(
        &self,
        game: &str,
        game_display_name: Option<&str>,
        developer: Option<&str>,
        deinitialize_timer_length_ms: Option<u32>,
    ) -> (r: Outgoing)
        ensures
            r.url@ == url_of(self.address_view(), "game_metadata"@),
            r.body.model() == (RegisterGame {
                game,
                display_name: game_display_name,
                developer,
                timeout: deinitialize_timer_length_ms,
            }).wire_model(),
    {
        self.request(
            RegisterGame {
                game,
                display_name: game_display_name,
                developer,
                timeout: deinitialize_timer_length_ms,
            },
        )
    }

    pub fn remove_game(&self, game: &str) -> (r: Outgoing)
        ensures
            r.url@ == url_of(self.address_view(), "remove_game"@),
            r.body.model() == (RemoveGame { game }).wire_model(),
    {
        self.request(RemoveGame { game })
    }

    pub fn bind_event(
        &self,
        game: &str,
        event: &str,
        min_value: Option<isize>,
        max_value: Option<isize>,
        icon_id: Option<u8>,
        value_optional: Option<bool>,
        handlers: Vec<serde_json::Value>,
    ) -> (r: Outgoing)
        ensures
            r.url@ == url_of(self.address_view(), "bind_game_event"@),
            r.body.model() == JsonModel::Object(
                seq![
                    text_entry("game"@, game@),
                    text_entry("event"@, event@),
                    ("handlers"@, handlers_model(handlers@)),
                ] + event_options(min_value, max_value, icon_id, value_optional),
            ),
    {
        self.request(
            BindEvent { game, event, min_value, max_value, icon_id, value_optional, handlers },
        )
    }

    pub fn register_event(
        &self,
        game: &str,
        event: &str,
        min_value: Option<isize>,
        max_value: Option<isize>,
        icon_id: Option<u8>,
        value_optional: Option<bool>,
    ) -> (r: Outgoing)
        ensures
            r.url@ == url_of(self.address_view(), "register_game_event"@),
            r.body.model() == JsonModel::Object(
                seq![text_entry("game"@, game@), text_entry("event"@, event@)]
                    + event_options(min_value, max_value, icon_id, value_optional),
            ),
    {
        self.request(RegisterEvent { game, event, min_value, max_value, icon_id, value_optional })
    }

    pub fn remove_event(&self, game: &str, event: &str) -> (r: Outgoing)
        ensures
            r.url@ == url_of(self.address_view(), "remove_game_event"@),
            r.body.model() == (RemoveEvent { game, event }).wire_model(),
    {
        self.request(RemoveEvent { game, event })
    }
}

/// The frame of a raw event, passed on as it is.
pub open spec fn json_frame(frame: Option<serde_json::Value>) -> Option<JsonModel> {
    match frame {
        Some(f) => Some(JsonModel::Json(f)),
        None => None,
    }
}

} // verus!
