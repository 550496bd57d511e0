//! Events: their decoded, borrowed view and an owning handle whose
//! destruction goes through the foreign side.
use vstd::prelude::*;

use crate::game_init::{
    c_field, c_field_text, decode_init, lemma_decode_reads_named_arm, raw_init_valid,
    same_named_arm, valid_c_field, GameInit, InitModel,
};
use crate::string::ValidCStr;
use crate::sys::{
    PluginHost, RawEvent, RawEventBase, EVENT_TYPE_GAME_LOAD_METHODS, EVENT_TYPE_GAME_MOVE,
    EVENT_TYPE_GAME_STATE, EVENT_TYPE_GAME_UNLOAD,
};

verus! {

/// The header that every event carries.
#[derive(Clone, Copy, Debug, PartialEq, Eq, Structural)]
pub struct Event {
    pub type_: u32,
    pub client_id: u32,
    pub lobby_id: u32,
}

impl Event {
    /// Copies the header of a foreign event.
    pub fn new(base: &RawEventBase) -> (r: Self)
        ensures
            r == header_of(*base),
    {
        Event { type_: base.type_, client_id: base.client_id, lobby_id: base.lobby_id }
    }
}

/// The header of a foreign event.
pub open spec fn header_of(base: RawEventBase) -> Event {
    Event { type_: base.type_, client_id: base.client_id, lobby_id: base.lobby_id }
}

/// What a decoded event holds.
pub enum EventModel {
    GameLoadMethods { base: Event, methods: usize, init_info: InitModel },
    GameUnload(Event),
    GameState { base: Event, state: Option<Seq<u8>> },
    GameMove { base: Event, player: u8, code: u64 },
    Unknown,
}

/// The foreign side keeps its contract for this event: the arm that its
/// discriminant names holds what that arm promises.
pub open spec fn raw_event_valid(e: RawEvent) -> bool {
    &&& e.base.type_ == EVENT_TYPE_GAME_LOAD_METHODS ==> raw_init_valid(
        e.game_load_methods.init_info,
    )
    &&& e.base.type_ == EVENT_TYPE_GAME_STATE ==> valid_c_field(e.game_state.state)
}

/// The decoding of an event: the arm that its discriminant names, and
/// `Unknown` for a discriminant that this layer does not know.
pub open spec fn decode_event(e: RawEvent) -> EventModel {
    let base = header_of(e.base);
    if e.base.type_ == EVENT_TYPE_GAME_LOAD_METHODS {
        EventModel::GameLoadMethods {
            base,
            methods: e.game_load_methods.methods,
            init_info: decode_init(e.game_load_methods.init_info),
        }
    } else if e.base.type_ == EVENT_TYPE_GAME_UNLOAD {
        EventModel::GameUnload(base)
    } else if e.base.type_ == EVENT_TYPE_GAME_STATE {
        EventModel::GameState { base, state: c_field_text(e.game_state.state) }
    } else if e.base.type_ == EVENT_TYPE_GAME_MOVE {
        EventModel::GameMove { base, player: e.game_move.player, code: e.game_move.code }
    } else {
        EventModel::Unknown
    }
}

/// A discriminant that names none of the known event kinds.
pub open spec fn unknown_event_type(t: u32) -> bool {
    t != EVENT_TYPE_GAME_LOAD_METHODS && t != EVENT_TYPE_GAME_UNLOAD && t
        != EVENT_TYPE_GAME_STATE && t != EVENT_TYPE_GAME_MOVE
}

/// An event with a discriminant that this layer does not know decodes to
/// `Unknown`, whatever its arms hold, and such an event is always valid.
pub proof fn lemma_unknown_event(e: RawEvent)
    requires
        unknown_event_type(e.base.type_),
    ensures
        decode_event(e) is Unknown,
        raw_event_valid(e),
{
}

/// The arm that `a`'s discriminant names holds the same in `b`.
pub open spec fn same_named_event_arm(a: RawEvent, b: RawEvent) -> bool {
    &&& a.base == b.base
    &&& a.base.type_ == EVENT_TYPE_GAME_LOAD_METHODS ==> {
        &&& a.game_load_methods.methods == b.game_load_methods.methods
        &&& same_named_arm(a.game_load_methods.init_info, b.game_load_methods.init_info)
    }
    &&& a.base.type_ == EVENT_TYPE_GAME_STATE ==> c_field_text(a.game_state.state)
        == c_field_text(b.game_state.state)
    &&& a.base.type_ == EVENT_TYPE_GAME_MOVE ==> a.game_move == b.game_move
}

/// Decoding an event reads no arm but the one that its discriminant names.
pub proof fn lemma_event_reads_named_arm(a: RawEvent, b: RawEvent)
    requires
        same_named_event_arm(a, b),
    ensures
        decode_event(a) == decode_event(b),
{
    if a.base.type_ == EVENT_TYPE_GAME_LOAD_METHODS {
        lemma_decode_reads_named_arm(a.game_load_methods.init_info, b.game_load_methods.init_info);
    }
}

/// Arm of a load-methods event.
pub struct EventGameLoadMethods<'l> {
    pub base: Event,
    /// Opaque handle of the game methods.
    pub methods: usize,
    pub init_info: GameInit<'l>,
}

/// Arm of a game-state event.
pub struct EventGameState<'l> {
    pub base: Event,
    pub state: Option<ValidCStr<'l>>,
}

/// Arm of a game-move event.
#[derive(Clone, Copy, Debug, PartialEq, Eq, Structural)]
pub struct EventGameMove {
    pub base: Event,
    pub player: u8,
    pub code: u64,
}

/// An event decoded from its foreign form, borrowing its strings.
#[non_exhaustive]
pub enum EventEnum<'l> {
    GameLoadMethods(EventGameLoadMethods<'l>),
    GameUnload(Event),
    GameState(EventGameState<'l>),
    GameMove(EventGameMove),
    Unknown,
}

/// The text of a decoded optional string.
pub open spec fn cstr_text(s: Option<ValidCStr<'_>>) -> Option<Seq<u8>> {
    match s {
        Some(t) => Some(t@),
        None => None,
    }
}

impl<'l> View for EventEnum<'l> {
    type V = EventModel;

    open spec fn view(&self) -> EventModel {
        match self {
            EventEnum::GameLoadMethods(e) => EventModel::GameLoadMethods {
                base: e.base,
                methods: e.methods,
                init_info: e.init_info@,
            },
            EventEnum::GameUnload(b) => EventModel::GameUnload(*b),
            EventEnum::GameState(e) => EventModel::GameState {
                base: e.base,
                state: cstr_text(e.state),
            },
            EventEnum::GameMove(e) => EventModel::GameMove {
                base: e.base,
                player: e.player,
                code: e.code,
            },
            EventEnum::Unknown => EventModel::Unknown,
        }
    }
}

impl<'l> EventEnum<'l> {
    /// Decodes an event that the foreign side delivered under its contract,
    /// reading only the arm that its discriminant names.
    pub fn new(event: &'l RawEvent) -> (r: Self)
        requires
            raw_event_valid(*event),
        ensures
            r@ == decode_event(*event),
    {
        let t = event.base.type_;
        let base = Event::new(&event.base);
        if t == EVENT_TYPE_GAME_LOAD_METHODS {
            EventEnum::GameLoadMethods(
                EventGameLoadMethods {
                    base,
                    methods: event.game_load_methods.methods,
                    init_info: GameInit::new(&event.game_load_methods.init_info),
                },
            )
        } else if t == EVENT_TYPE_GAME_UNLOAD {
            EventEnum::GameUnload(base)
        } else if t == EVENT_TYPE_GAME_STATE {
            EventEnum::GameState(
                EventGameState { base, state: ValidCStr::new(c_field(&event.game_state.state)) },
            )
        } else if t == EVENT_TYPE_GAME_MOVE {
            EventEnum::GameMove(
                EventGameMove {
                    base,
                    player: event.game_move.player,
                    code: event.game_move.code,
                },
            )
        } else {
            EventEnum::Unknown
        }
    }

    /// Decodes an event whose validity is not known: `None` where the
    /// foreign side broke its contract.
    pub fn checked(event: &'l RawEvent) -> (r: Option<Self>)
        ensures
            r is Some <==> raw_event_valid(*event),
            r matches Some(d) ==> d@ == decode_event(*event),
    {
        let t = event.base.type_;
        let valid = if t == EVENT_TYPE_GAME_LOAD_METHODS {
            GameInit::checked(&event.game_load_methods.init_info).is_some()
        } else if t == EVENT_TYPE_GAME_STATE {
            match &event.game_state.state {
                Some(v) => ValidCStr::validate(v.as_slice()).is_some(),
                None => true,
            }
        } else {
            true
        };
        if valid {
            Some(EventEnum::new(event))
        } else {
            None
        }
    }
}

/// What is handed to the foreign constructor of a game-move event made here:
/// a synchronization counter of zero, which is ignored for events that come
/// from a plugin, and the player and move as given.
pub fn game_move_args(player: u8, code: u64) -> (r: (u32, u8, u64))
    ensures
        r == (0u32, player, code),
{
    (0, player, code)
}

/// An event owned here. `destroy` consumes the handle, so the foreign side
/// destroys the event at most once; the handle is never copied.
pub struct EventAny<'h, H: PluginHost> {
    host: &'h H,
    event: RawEvent,
}

impl<'h, H: PluginHost> EventAny<'h, H> {
    pub closed spec fn spec_event(&self) -> RawEvent {
        self.event
    }

    pub closed spec fn spec_host(&self) -> &'h H {
        self.host
    }

    /// Takes ownership of an event, which `host` destroys.
    pub fn new(host: &'h H, event: RawEvent) -> (r: Self)
        ensures
            r.spec_host() == host,
            r.spec_event() == event,
    {
        EventAny { host, event }
    }

    /// The discriminant of the event.
    pub fn get_type(&self) -> (r: u32)
        ensures
            r == self.spec_event().base.type_,
    {
        self.event.base.type_
    }

    /// The foreign event.
    pub fn raw(&self) -> (r: &RawEvent)
        ensures
            *r == self.spec_event(),
    {
        &self.event
    }

    /// Decodes the event: `None` where the foreign side broke its contract.
    pub fn to_rust(&self) -> (r: Option<EventEnum<'_>>)
        ensures
            r is Some <==> raw_event_valid(self.spec_event()),
            r matches Some(d) ==> d@ == decode_event(self.spec_event()),
    {
        EventEnum::checked(&self.event)
    }

    /// A game-move event built by the foreign side in zeroed storage. The
    /// synchronization counter is zero: it is ignored for events that come
    /// from a plugin.
    pub fn new_game_move(host: &'h H, player: u8, code: u64) -> (r: Self)
        ensures
            r.spec_host() == host,
    {
        let mut event = RawEvent::zeroed();
        let (sync_ctr, player, code) = game_move_args(player, code);
        host.event_create_game_move(&mut event, sync_ctr, player, code);
        EventAny { host, event }
    }

    /// Destroys the event through the foreign side.
    pub fn destroy(self) {
        let mut event = self.event;
        self.host.event_destroy(&mut event);
    }
}

} // verus!
