use vstd::prelude::*;

use vstd::slice::slice_to_vec;

use crate::wire::{
    entries, field_of, lemma_object_model, lookup, option_model, optional_entry, push_field, push_optional,
    text_entry, JsonModel, WireField, WireValue,
};

verus! {

/// A request kind of the engine, tied to one fixed endpoint.
pub trait EngineRequest {
    /// The endpoint this kind of request is posted to.
    spec fn endpoint() -> Seq<char>;

    fn path() -> (r: &'static str)
        ensures
            r@ == Self::endpoint(),
    ;
}

/// A request that can be turned into the JSON body the engine expects.
pub trait AsyncEngineRequest: EngineRequest {
    /// The body of the request.
    spec fn wire_model(&self) -> JsonModel;

    fn into_wire(self) -> (r: WireValue)
        ensures
            r.model() == self.wire_model(),
    ;
}

pub open spec fn text_of(o: Option<&str>) -> Option<JsonModel> {
    match o {
        Some(s) => Some(JsonModel::Text(s@)),
        None => None,
    }
}

pub open spec fn u32_of(o: Option<u32>) -> Option<JsonModel> {
    match o {
        Some(n) => Some(JsonModel::Integer(n as int)),
        None => None,
    }
}

pub open spec fn isize_of(o: Option<isize>) -> Option<JsonModel> {
    match o {
        Some(n) => Some(JsonModel::Integer(n as int)),
        None => None,
    }
}

pub open spec fn u8_of(o: Option<u8>) -> Option<JsonModel> {
    match o {
        Some(n) => Some(JsonModel::Integer(n as int)),
        None => None,
    }
}

pub open spec fn flag_of(o: Option<bool>) -> Option<JsonModel> {
    match o {
        Some(b) => Some(JsonModel::Flag(b)),
        None => None,
    }
}

fn opt_text(o: Option<&str>) -> (r: Option<WireValue>)
    ensures
        option_model(r) == text_of(o),
{
    match o {
        Some(s) => Some(WireValue::Text(s.to_owned())),
        None => None,
    }
}

fn opt_u32(o: Option<u32>) -> (r: Option<WireValue>)
    ensures
        option_model(r) == u32_of(o),
{
    match o {
        Some(n) => Some(WireValue::Integer(n as i64)),
        None => None,
    }
}

fn opt_isize(o: Option<isize>) -> (r: Option<WireValue>)
    ensures
        option_model(r) == isize_of(o),
{
    match o {
        Some(n) => Some(WireValue::Integer(n as i64)),
        None => None,
    }
}

fn opt_u8(o: Option<u8>) -> (r: Option<WireValue>)
    ensures
        option_model(r) == u8_of(o),
{
    match o {
        Some(n) => Some(WireValue::Integer(n as i64)),
        None => None,
    }
}

fn opt_flag(o: Option<bool>) -> (r: Option<WireValue>)
    ensures
        option_model(r) == flag_of(o),
{
    match o {
        Some(b) => Some(WireValue::Flag(b)),
        None => None,
    }
}

/// Announces a game to the engine.
pub struct RegisterGame<'b> {
    pub game: &'b str,
    pub display_name: Option<&'b str>,
    pub developer: Option<&'b str>,
    pub timeout: Option<u32>,
}

impl<'b> EngineRequest for RegisterGame<'b> {
    open spec fn endpoint() -> Seq<char> {
        "game_metadata"@
    }

    fn path() -> (r: &'static str) {
        "game_metadata"
    }
}

impl<'b> AsyncEngineRequest for RegisterGame<'b> {
    open spec fn wire_model(&self) -> JsonModel {
        JsonModel::Object(
            seq![text_entry("game"@, self.game@)]
                + optional_entry("game_display_name"@, text_of(self.display_name))
                + optional_entry("developer"@, text_of(self.developer))
                + optional_entry("deinitialize_timer_length_ms"@, u32_of(self.timeout)),
        )
    }

    fn into_wire(self) -> (r: WireValue) {
        let mut fields: Vec<WireField> = Vec::new();
        assert(entries(fields@) =~= Seq::empty());
        push_field(&mut fields, "game", WireValue::Text(self.game.to_owned()));
        assert(entries(fields@) =~= seq![text_entry("game"@, self.game@)]);
        push_optional(&mut fields, "game_display_name", opt_text(self.display_name));
        push_optional(&mut fields, "developer", opt_text(self.developer));
        push_optional(&mut fields, "deinitialize_timer_length_ms", opt_u32(self.timeout));
        proof {
            lemma_object_model(fields);
        }
        WireValue::Object(fields)
    }
}


/// Withdraws a game from the engine.
pub struct RemoveGame<'b> {
    pub game: &'b str,
}

impl<'b> EngineRequest for RemoveGame<'b> {
    open spec fn endpoint() -> Seq<char> {
        "remove_game"@
    }

    fn path() -> (r: &'static str) {
        "remove_game"
    }
}

impl<'b> AsyncEngineRequest for RemoveGame<'b> {
    open spec fn wire_model(&self) -> JsonModel {
        JsonModel::Object(seq![text_entry("game"@, self.game@)])
    }

    fn into_wire(self) -> (r: WireValue) {
        let mut fields: Vec<WireField> = Vec::new();
        assert(entries(fields@) =~= Seq::empty());
        push_field(&mut fields, "game", WireValue::Text(self.game.to_owned()));
        assert(entries(fields@) =~= seq![text_entry("game"@, self.game@)]);
        proof {
            lemma_object_model(fields);
        }
        WireValue::Object(fields)
    }
}

/// Tells the engine that a game is still alive.
pub struct Heartbeat<'b> {
    pub game: &'b str,
}

impl<'b> EngineRequest for Heartbeat<'b> {
    open spec fn endpoint() -> Seq<char> {
        "game_heartbeat"@
    }

    fn path() -> (r: &'static str) {
        "game_heartbeat"
    }
}

impl<'b> AsyncEngineRequest for Heartbeat<'b> {
    open spec fn wire_model(&self) -> JsonModel {
        JsonModel::Object(seq![text_entry("game"@, self.game@)])
    }

    fn into_wire(self) -> (r: WireValue) {
        let mut fields: Vec<WireField> = Vec::new();
        assert(entries(fields@) =~= Seq::empty());
        push_field(&mut fields, "game", WireValue::Text(self.game.to_owned()));
        assert(entries(fields@) =~= seq![text_entry("game"@, self.game@)]);
        proof {
            lemma_object_model(fields);
        }
        WireValue::Object(fields)
    }
}

/// Withdraws one event of a game.
pub struct RemoveEvent<'b> {
    pub game: &'b str,
    pub event: &'b str,
}

impl<'b> EngineRequest for RemoveEvent<'b> {
    open spec fn endpoint() -> Seq<char> {
        "remove_game_event"@
    }

    fn path() -> (r: &'static str) {
        "remove_game_event"
    }
}

impl<'b> AsyncEngineRequest for RemoveEvent<'b> {
    open spec fn wire_model(&self) -> JsonModel {
        JsonModel::Object(seq![text_entry("game"@, self.game@), text_entry("event"@, self.event@)])
    }

    fn into_wire(self) -> (r: WireValue) {
        let fields = game_and_event(self.game, self.event);
        proof {
            lemma_object_model(fields);
        }
        WireValue::Object(fields)
    }
}

/// The fields `game` and `event` that every event request starts with.
fn game_and_event(game: &str, event: &str) -> (r: Vec<WireField>)
    ensures
        entries(r@) == seq![text_entry("game"@, game@), text_entry("event"@, event@)],
{
    let mut fields: Vec<WireField> = Vec::new();
    assert(entries(fields@) =~= Seq::empty());
    push_field(&mut fields, "game", WireValue::Text(game.to_owned()));
    push_field(&mut fields, "event", WireValue::Text(event.to_owned()));
    assert(entries(fields@) =~= seq![text_entry("game"@, game@), text_entry("event"@, event@)]);
    fields
}

/// The optional settings that an event may carry, each left out when absent.
pub open spec fn event_options(
    min_value: Option<isize>,
    max_value: Option<isize>,
    icon_id: Option<u8>,
    value_optional: Option<bool>,
) -> Seq<(Seq<char>, JsonModel)> {
    optional_entry("min_value"@, isize_of(min_value))
        + optional_entry("max_value"@, isize_of(max_value))
        + optional_entry("icon_id"@, u8_of(icon_id))
        + optional_entry("value_optional"@, flag_of(value_optional))
}

fn push_event_options(
    fields: &mut Vec<WireField>,
    min_value: Option<isize>,
    max_value: Option<isize>,
    icon_id: Option<u8>,
    value_optional: Option<bool>,
)
    ensures
        entries(final(fields)@) == entries(old(fields)@) + event_options(
            min_value,
            max_value,
            icon_id,
            value_optional,
        ),
{
    push_optional(fields, "min_value", opt_isize(min_value));
    push_optional(fields, "max_value", opt_isize(max_value));
    push_optional(fields, "icon_id", opt_u8(icon_id));
    push_optional(fields, "value_optional", opt_flag(value_optional));
    assert(entries(fields@) =~= entries(old(fields)@) + event_options(
        min_value,
        max_value,
        icon_id,
        value_optional,
    ));
}

/// Declares an event of a game, with its optional settings.
pub struct RegisterEvent<'b> {
    pub game: &'b str,
    pub event: &'b str,
    pub min_value: Option<isize>,
    pub max_value: Option<isize>,
    pub icon_id: Option<u8>,
    pub value_optional: Option<bool>,
}

impl<'b> EngineRequest for RegisterEvent<'b> {
    open spec fn endpoint() -> Seq<char> {
        "register_game_event"@
    }

    fn path() -> (r: &'static str) {
        "register_game_event"
    }
}

impl<'b> AsyncEngineRequest for RegisterEvent<'b> {
    open spec fn wire_model(&self) -> JsonModel {
        JsonModel::Object(
            seq![text_entry("game"@, self.game@), text_entry("event"@, self.event@)]
                + event_options(self.min_value, self.max_value, self.icon_id, self.value_optional),
        )
    }

    fn into_wire(self) -> (r: WireValue) {
        let mut fields = game_and_event(self.game, self.event);
        push_event_options(
            &mut fields,
            self.min_value,
            self.max_value,
            self.icon_id,
            self.value_optional,
        );
        proof {
            lemma_object_model(fields);
        }
        WireValue::Object(fields)
    }
}

/// Declares an event together with the handlers the engine runs for it.
/// Each handler is JSON that the caller produced; it is passed on as it is.
pub struct BindEvent<'b> {
    pub game: &'b str,
    pub event: &'b str,
    pub min_value: Option<isize>,
    pub max_value: Option<isize>,
    pub icon_id: Option<u8>,
    pub value_optional: Option<bool>,
    pub handlers: Vec<serde_json::Value>,
}

/// The handlers, in their order, as a JSON list.
pub open spec fn handlers_model(handlers: Seq<serde_json::Value>) -> JsonModel {
    JsonModel::List(Seq::new(handlers.len(), |i: int| JsonModel::Json(handlers[i])))
}

fn handlers_value(handlers: Vec<serde_json::Value>) -> (r: WireValue)
    ensures
        r.model() == handlers_model(handlers@),
{
    let mut items: Vec<WireValue> = Vec::new();
    let mut rest = handlers;
    let ghost total = handlers@;
    while rest.len() > 0
        invariant
            items@.len() + rest@.len() == total.len(),
            rest@ == total.subrange(0, rest@.len() as int),
            forall|i: int|
                0 <= i < items@.len() ==> items@[i] == WireValue::Json(total[rest@.len() + i]),
        decreases rest.len(),
    {
        let h = rest.pop().unwrap();
        items.insert(0, WireValue::Json(h));
    }
    proof {
        crate::wire::lemma_list_model(items);
        assert(Seq::new(items@.len(), |i: int| items@[i].model()) =~= handlers_model(
            handlers@,
        )->List_0);
    }
    WireValue::List(items)
}

impl<'b> EngineRequest for BindEvent<'b> {
    open spec fn endpoint() -> Seq<char> {
        "bind_game_event"@
    }

    fn path() -> (r: &'static str) {
        "bind_game_event"
    }
}

impl<'b> AsyncEngineRequest for BindEvent<'b> {
    open spec fn wire_model(&self) -> JsonModel {
        JsonModel::Object(
            seq![
                text_entry("game"@, self.game@),
                text_entry("event"@, self.event@),
                ("handlers"@, handlers_model(self.handlers@)),
            ] + event_options(self.min_value, self.max_value, self.icon_id, self.value_optional),
        )
    }

    fn into_wire(self) -> (r: WireValue) {
        let mut fields = game_and_event(self.game, self.event);
        push_field(&mut fields, "handlers", handlers_value(self.handlers));
        push_event_options(
            &mut fields,
            self.min_value,
            self.max_value,
            self.icon_id,
            self.value_optional,
        );
        assert(entries(fields@) =~= self.wire_model()->Object_0);
        proof {
            lemma_object_model(fields);
        }
        WireValue::Object(fields)
    }
}


/// What an event may carry besides its value: nothing, or a frame.
pub trait GameEventData {
    /// The frame as it is sent, or `None` where no `frame` key is sent.
    spec fn frame_model(&self) -> Option<JsonModel>;

    fn into_frame(self) -> (r: Option<WireValue>)
        ensures
            option_model(r) == self.frame_model(),
    ;
}

impl GameEventData for () {
    open spec fn frame_model(&self) -> Option<JsonModel> {
        None
    }

    fn into_frame(self) -> (r: Option<WireValue>) {
        None
    }
}

/// A frame that the caller built as JSON already.
impl GameEventData for serde_json::Value {
    open spec fn frame_model(&self) -> Option<JsonModel> {
        Some(JsonModel::Json(*self))
    }

    fn into_frame(self) -> (r: Option<WireValue>) {
        Some(WireValue::Json(self))
    }
}

/// Raw pixel buffers for the screen sizes the engine knows, each optional.
pub struct ScreenFrameData<'a> {
    pub image_128x36: Option<&'a [u8; 576]>,
    pub image_128x40: Option<&'a [u8; 640]>,
    pub image_128x48: Option<&'a [u8; 768]>,
    pub image_128x52: Option<&'a [u8; 852]>,
}

/// A frame to send with an event.
pub struct FrameContainer<'a> {
    pub frame: ScreenFrameData<'a>,
}

pub open spec fn bytes_of<const N: usize>(o: Option<&[u8; N]>) -> Option<JsonModel> {
    match o {
        Some(a) => Some(JsonModel::Bytes(a@)),
        None => None,
    }
}

fn opt_bytes<const N: usize>(o: Option<&[u8; N]>) -> (r: Option<WireValue>)
    ensures
        option_model(r) == bytes_of(o),
{
    broadcast use vstd::array::group_array_axioms;

    match o {
        Some(a) => Some(WireValue::Bytes(slice_to_vec(a.as_slice()))),
        None => None,
    }
}

impl<'a> ScreenFrameData<'a> {
    /// The frame object: one key per buffer that is present, none for the others.
    pub open spec fn model(&self) -> JsonModel {
        JsonModel::Object(
            optional_entry("image-data-128x36"@, bytes_of(self.image_128x36))
                + optional_entry("image-data-128x40"@, bytes_of(self.image_128x40))
                + optional_entry("image-data-128x48"@, bytes_of(self.image_128x48))
                + optional_entry("image-data-128x52"@, bytes_of(self.image_128x52)),
        )
    }

    pub fn into_wire(self) -> (r: WireValue)
        ensures
            r.model() == self.model(),
    {
        let mut fields: Vec<WireField> = Vec::new();
        assert(entries(fields@) =~= Seq::empty());
        push_optional(&mut fields, "image-data-128x36", opt_bytes(self.image_128x36));
        push_optional(&mut fields, "image-data-128x40", opt_bytes(self.image_128x40));
        push_optional(&mut fields, "image-data-128x48", opt_bytes(self.image_128x48));
        push_optional(&mut fields, "image-data-128x52", opt_bytes(self.image_128x52));
        assert(entries(fields@) =~= self.model()->Object_0);
        proof {
            lemma_object_model(fields);
        }
        WireValue::Object(fields)
    }
}

impl<'a> GameEventData for FrameContainer<'a> {
    open spec fn frame_model(&self) -> Option<JsonModel> {
        Some(self.frame.model())
    }

    fn into_frame(self) -> (r: Option<WireValue>) {
        Some(self.frame.into_wire())
    }
}

/// Sends a value for an event, with whatever `data` adds to it.
pub struct GameEvent<'b, D: GameEventData> {
    pub game: &'b str,
    pub event: &'b str,
    pub value: isize,
    pub data: D,
}

/// The `data` object of an event: its value, and its frame where there is one.
pub open spec fn event_data_model(value: int, frame: Option<JsonModel>) -> JsonModel {
    JsonModel::Object(seq![("value"@, JsonModel::Integer(value))] + optional_entry("frame"@, frame))
}

impl<'b, D: GameEventData> EngineRequest for GameEvent<'b, D> {
    open spec fn endpoint() -> Seq<char> {
        "game_event"@
    }

    fn path() -> (r: &'static str) {
        "game_event"
    }
}

impl<'b, D: GameEventData> AsyncEngineRequest for GameEvent<'b, D> {
    open spec fn wire_model(&self) -> JsonModel {
        JsonModel::Object(
            seq![
                text_entry("game"@, self.game@),
                text_entry("event"@, self.event@),
                ("data"@, event_data_model(self.value as int, self.data.frame_model())),
            ],
        )
    }

    fn into_wire(self) -> (r: WireValue) {
        let ghost frame = self.data.frame_model();
        let mut data: Vec<WireField> = Vec::new();
        assert(entries(data@) =~= Seq::empty());
        push_field(&mut data, "value", WireValue::Integer(self.value as i64));
        push_optional(&mut data, "frame", self.data.into_frame());
        assert(entries(data@) =~= event_data_model(self.value as int, frame)->Object_0);
        proof {
            lemma_object_model(data);
        }
        let mut fields = game_and_event(self.game, self.event);
        push_field(&mut fields, "data", WireValue::Object(data));
        assert(entries(fields@) =~= self.wire_model()->Object_0);
        proof {
            lemma_object_model(fields);
        }
        WireValue::Object(fields)
    }
}

/// Reading a registration back by its keys gives what it was built from:
/// each optional key is there exactly when its value was given, with that
/// value; `game` is always there.
pub proof fn lemma_register_game_fields(r: RegisterGame)
    ensures
        field_of(r.wire_model(), "game"@) == Some(JsonModel::Text(r.game@)),
        field_of(r.wire_model(), "game_display_name"@) == text_of(r.display_name),
        field_of(r.wire_model(), "developer"@) == text_of(r.developer),
        field_of(r.wire_model(), "deinitialize_timer_length_ms"@) == u32_of(r.timeout),
{
    broadcast use crate::wire::group_lookup;

    reveal_strlit("game");
    reveal_strlit("game_display_name");
    reveal_strlit("developer");
    reveal_strlit("deinitialize_timer_length_ms");
    assert("game"@.len() == 4);
    assert("game_display_name"@.len() == 17);
    assert("developer"@.len() == 9);
    assert("game"@ != "game_display_name"@);
    assert("game"@ != "developer"@);
    assert("game_display_name"@ != "developer"@);
    assert("game"@ != "deinitialize_timer_length_ms"@);
    assert("game_display_name"@ != "deinitialize_timer_length_ms"@);
    assert("developer"@ != "deinitialize_timer_length_ms"@);
}

/// The keys that event requests use are distinct from one another.
proof fn lemma_event_keys_distinct()
    ensures
        "game"@ != "event"@,
        "game"@ != "handlers"@,
        "event"@ != "handlers"@,
        "min_value"@ != "max_value"@,
        "min_value"@ != "icon_id"@,
        "min_value"@ != "value_optional"@,
        "max_value"@ != "icon_id"@,
        "max_value"@ != "value_optional"@,
        "icon_id"@ != "value_optional"@,
        "game"@ != "min_value"@ && "game"@ != "max_value"@,
        "game"@ != "icon_id"@ && "game"@ != "value_optional"@,
        "event"@ != "min_value"@ && "event"@ != "max_value"@,
        "event"@ != "icon_id"@ && "event"@ != "value_optional"@,
        "handlers"@ != "min_value"@ && "handlers"@ != "max_value"@,
        "handlers"@ != "icon_id"@ && "handlers"@ != "value_optional"@,
        "value"@ != "frame"@,
        "game"@ != "data"@ && "event"@ != "data"@,
{
    reveal_strlit("game");
    reveal_strlit("event");
    reveal_strlit("handlers");
    reveal_strlit("min_value");
    reveal_strlit("max_value");
    reveal_strlit("icon_id");
    reveal_strlit("value_optional");
    reveal_strlit("value");
    reveal_strlit("frame");
    reveal_strlit("data");
    assert("game"@.len() == 4);
    assert("event"@.len() == 5);
    assert("handlers"@.len() == 8);
    assert("min_value"@.len() == 9);
    assert("max_value"@.len() == 9);
    assert("icon_id"@.len() == 7);
    assert("value_optional"@.len() == 14);
    assert("value"@.len() == 5);
    assert("frame"@.len() == 5);
    assert("data"@.len() == 4);
    assert("min_value"@[1] != "max_value"@[1]);
    assert("value"@[0] != "frame"@[0]);
    assert("game"@[0] != "data"@[0]);
}

/// Reading an event registration back by its keys gives what it was built
/// from: each optional setting is there exactly when it was given.
pub proof fn lemma_register_event_fields(r: RegisterEvent)
    ensures
        field_of(r.wire_model(), "game"@) == Some(JsonModel::Text(r.game@)),
        field_of(r.wire_model(), "event"@) == Some(JsonModel::Text(r.event@)),
        field_of(r.wire_model(), "min_value"@) == isize_of(r.min_value),
        field_of(r.wire_model(), "max_value"@) == isize_of(r.max_value),
        field_of(r.wire_model(), "icon_id"@) == u8_of(r.icon_id),
        field_of(r.wire_model(), "value_optional"@) == flag_of(r.value_optional),
{
    broadcast use crate::wire::group_lookup;

    lemma_event_keys_distinct();
    assert(seq![text_entry("game"@, r.game@), text_entry("event"@, r.event@)] =~= seq![
        text_entry("game"@, r.game@),
    ] + seq![text_entry("event"@, r.event@)]);
}

/// Reading an event binding back by its keys gives what it was built from:
/// the handlers in their order, and each optional setting exactly when it
/// was given.
pub proof fn lemma_bind_event_fields(b: BindEvent)
    ensures
        field_of(b.wire_model(), "game"@) == Some(JsonModel::Text(b.game@)),
        field_of(b.wire_model(), "event"@) == Some(JsonModel::Text(b.event@)),
        field_of(b.wire_model(), "handlers"@) == Some(handlers_model(b.handlers@)),
        field_of(b.wire_model(), "min_value"@) == isize_of(b.min_value),
        field_of(b.wire_model(), "max_value"@) == isize_of(b.max_value),
        field_of(b.wire_model(), "icon_id"@) == u8_of(b.icon_id),
        field_of(b.wire_model(), "value_optional"@) == flag_of(b.value_optional),
{
    broadcast use crate::wire::group_lookup;

    lemma_event_keys_distinct();
    assert(seq![
        text_entry("game"@, b.game@),
        text_entry("event"@, b.event@),
        ("handlers"@, handlers_model(b.handlers@)),
    ] =~= seq![text_entry("game"@, b.game@)] + seq![text_entry("event"@, b.event@)] + seq![
        ("handlers"@, handlers_model(b.handlers@)),
    ]);
}

/// An event's `data` holds its value, and a `frame` key exactly when the
/// event carries a frame, with that frame.
pub proof fn lemma_game_event_data<D: GameEventData>(e: GameEvent<D>)
    ensures
        field_of(e.wire_model(), "data"@) == Some(
            event_data_model(e.value as int, e.data.frame_model()),
        ),
        field_of(event_data_model(e.value as int, e.data.frame_model()), "value"@) == Some(
            JsonModel::Integer(e.value as int),
        ),
        field_of(event_data_model(e.value as int, e.data.frame_model()), "frame"@)
            == e.data.frame_model(),
{
    broadcast use crate::wire::group_lookup;

    lemma_event_keys_distinct();
    let d = ("data"@, event_data_model(e.value as int, e.data.frame_model()));
    assert(seq![text_entry("game"@, e.game@), text_entry("event"@, e.event@), d] =~= seq![
        text_entry("game"@, e.game@),
    ] + seq![text_entry("event"@, e.event@)] + seq![d]);
}

/// Without a frame, `data` is exactly `{"value": N}`.
pub proof fn lemma_game_event_without_frame(e: GameEvent<()>)
    ensures
        field_of(e.wire_model(), "data"@) == Some(
            JsonModel::Object(seq![("value"@, JsonModel::Integer(e.value as int))]),
        ),
{
    lemma_game_event_data(e);
    assert(seq![("value"@, JsonModel::Integer(e.value as int))] + optional_entry(
        "frame"@,
        None,
    ) =~= seq![("value"@, JsonModel::Integer(e.value as int))]);
}

/// A frame holds a key for each buffer that was supplied, with its bytes,
/// and no other key.
pub proof fn lemma_frame_fields(f: ScreenFrameData)
    ensures
        field_of(f.model(), "image-data-128x36"@) == bytes_of(f.image_128x36),
        field_of(f.model(), "image-data-128x40"@) == bytes_of(f.image_128x40),
        field_of(f.model(), "image-data-128x48"@) == bytes_of(f.image_128x48),
        field_of(f.model(), "image-data-128x52"@) == bytes_of(f.image_128x52),
        forall|k: Seq<char>|
            #![trigger field_of(f.model(), k)]
            field_of(f.model(), k) is Some ==> k == "image-data-128x36"@ || k
                == "image-data-128x40"@ || k == "image-data-128x48"@ || k == "image-data-128x52"@,
{
    broadcast use crate::wire::group_lookup;

    reveal_strlit("image-data-128x36");
    reveal_strlit("image-data-128x40");
    reveal_strlit("image-data-128x48");
    reveal_strlit("image-data-128x52");
    assert("image-data-128x36"@[15] != "image-data-128x40"@[15]);
    assert("image-data-128x36"@[15] != "image-data-128x48"@[15]);
    assert("image-data-128x36"@[15] != "image-data-128x52"@[15]);
    assert("image-data-128x40"@[16] != "image-data-128x48"@[16]);
    assert("image-data-128x40"@[15] != "image-data-128x52"@[15]);
    assert("image-data-128x48"@[15] != "image-data-128x52"@[15]);
}

/// Each kind of request goes to its own fixed endpoint, which no payload
/// changes, and no two kinds share one; an event goes to the same endpoint
/// with or without a frame.
pub proof fn lemma_endpoints()
    ensures
        <RegisterGame as EngineRequest>::endpoint() == "game_metadata"@,
        <RemoveGame as EngineRequest>::endpoint() == "remove_game"@,
        <Heartbeat as EngineRequest>::endpoint() == "game_heartbeat"@,
        <RegisterEvent as EngineRequest>::endpoint() == "register_game_event"@,
        <RemoveEvent as EngineRequest>::endpoint() == "remove_game_event"@,
        <BindEvent as EngineRequest>::endpoint() == "bind_game_event"@,
        <GameEvent<()> as EngineRequest>::endpoint() == "game_event"@,
        <GameEvent<FrameContainer> as EngineRequest>::endpoint() == "game_event"@,
        <GameEvent<serde_json::Value> as EngineRequest>::endpoint() == "game_event"@,
        endpoint_names().no_duplicates(),
{
    reveal_strlit("game_metadata");
    reveal_strlit("remove_game");
    reveal_strlit("game_heartbeat");
    reveal_strlit("register_game_event");
    reveal_strlit("remove_game_event");
    reveal_strlit("bind_game_event");
    reveal_strlit("game_event");
    assert("game_metadata"@.len() == 13);
    assert("remove_game"@.len() == 11);
    assert("game_heartbeat"@.len() == 14);
    assert("register_game_event"@.len() == 19);
    assert("remove_game_event"@.len() == 17);
    assert("bind_game_event"@.len() == 15);
    assert("game_event"@.len() == 10);
}

/// The endpoints of the protocol.
pub open spec fn endpoint_names() -> Seq<Seq<char>> {
    seq![
        "game_metadata"@,
        "remove_game"@,
        "game_heartbeat"@,
        "register_game_event"@,
        "remove_game_event"@,
        "bind_game_event"@,
        "game_event"@,
    ]
}

} // verus!
