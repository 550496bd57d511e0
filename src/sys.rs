//! The plugin ABI as plain data: its numeric constants, its structs with
//! their discriminants and union arms, and the entry points of the foreign
//! side.
//!
//! A foreign string field is `None` for a null pointer, else the buffer that
//! starts at the pointer and holds the text and its NUL terminator.
use vstd::prelude::*;

verus! {

/// No error.
pub const ERR_OK: u32 = 0;
pub const ERR_STATE_UNRECOVERABLE: u32 = 1;
pub const ERR_STATE_CORRUPTED: u32 = 2;
pub const ERR_OUT_OF_MEMORY: u32 = 3;
pub const ERR_FEATURE_UNSUPPORTED: u32 = 4;
pub const ERR_MISSING_HIDDEN_STATE: u32 = 5;
pub const ERR_INVALID_INPUT: u32 = 6;
pub const ERR_INVALID_PLAYER: u32 = 7;
pub const ERR_INVALID_MOVE: u32 = 8;
pub const ERR_INVALID_OPTIONS: u32 = 9;
pub const ERR_INVALID_LEGACY: u32 = 10;
pub const ERR_INVALID_STATE: u32 = 11;
pub const ERR_UNSTABLE_POSITION: u32 = 12;
pub const ERR_RETRY: u32 = 13;
pub const ERR_CUSTOM_ANY: u32 = 14;
/// Codes from here on are custom codes of a plugin.
pub const ERR_ENUM_DEFAULT_OFFSET: u32 = 15;

/// Init descriptor discriminant: no parameters.
pub const GAME_INIT_SOURCE_TYPE_DEFAULT: u32 = 0;
/// Init descriptor discriminant: options, legacy and state strings.
pub const GAME_INIT_SOURCE_TYPE_STANDARD: u32 = 1;
/// Init descriptor discriminant: a serialized game.
pub const GAME_INIT_SOURCE_TYPE_SERIALIZED: u32 = 2;

pub const EVENT_TYPE_NULL: u32 = 0;
pub const EVENT_TYPE_GAME_LOAD_METHODS: u32 = 1;
pub const EVENT_TYPE_GAME_UNLOAD: u32 = 2;
pub const EVENT_TYPE_GAME_STATE: u32 = 3;
pub const EVENT_TYPE_GAME_MOVE: u32 = 4;

/// No move.
pub const MOVE_NONE: u64 = 0xffff_ffff_ffff_ffff;

/// Standard arm of the init descriptor's union.
pub struct RawStandardSource {
    pub opts: Option<Vec<u8>>,
    pub legacy: Option<Vec<u8>>,
    pub state: Option<Vec<u8>>,
}

/// Serialized arm of the init descriptor's union: the bytes from `buf_begin`
/// to `buf_end`.
pub struct RawSerializedSource {
    pub buf: Vec<u8>,
}

/// The foreign init descriptor: a discriminant and the memory of each arm of
/// its union. Only the arm that the discriminant names may be read.
pub struct RawGameInit {
    pub source_type: u32,
    pub standard: RawStandardSource,
    pub serialized: RawSerializedSource,
}

impl RawGameInit {
    /// Zero-initialized storage.
    pub fn zeroed() -> (r: Self)
        ensures
            r.source_type == 0,
            r.standard.opts is None,
            r.standard.legacy is None,
            r.standard.state is None,
            r.serialized.buf@.len() == 0,
    {
        RawGameInit {
            source_type: 0,
            standard: RawStandardSource { opts: None, legacy: None, state: None },
            serialized: RawSerializedSource { buf: Vec::new() },
        }
    }
}

/// Header shared by every event.
#[derive(Clone, Copy, Debug, PartialEq, Eq, Structural)]
pub struct RawEventBase {
    pub type_: u32,
    pub client_id: u32,
    pub lobby_id: u32,
}

/// Arm of a load-methods event.
pub struct RawEventGameLoadMethods {
    /// Opaque handle of the game methods.
    pub methods: usize,
    pub init_info: RawGameInit,
}

/// Arm of a game-state event.
pub struct RawEventGameState {
    pub state: Option<Vec<u8>>,
}

/// Arm of a game-move event.
#[derive(Clone, Copy, Debug, PartialEq, Eq, Structural)]
pub struct RawEventGameMove {
    pub player: u8,
    pub code: u64,
}

/// The foreign event: the common header, whose `type_` is the discriminant,
/// and the memory of each arm of its union.
pub struct RawEvent {
    pub base: RawEventBase,
    pub game_load_methods: RawEventGameLoadMethods,
    pub game_state: RawEventGameState,
    pub game_move: RawEventGameMove,
}

impl RawEvent {
    /// Zero-initialized storage.
    pub fn zeroed() -> (r: Self)
        ensures
            r.base == (RawEventBase { type_: 0, client_id: 0, lobby_id: 0 }),
            r.game_move == (RawEventGameMove { player: 0, code: 0 }),
            r.game_state.state is None,
            r.game_load_methods.methods == 0,
    {
        RawEvent {
            base: RawEventBase { type_: 0, client_id: 0, lobby_id: 0 },
            game_load_methods: RawEventGameLoadMethods { methods: 0, init_info: RawGameInit::zeroed() },
            game_state: RawEventGameState { state: None },
            game_move: RawEventGameMove { player: 0, code: 0 },
        }
    }
}

/// The entry points of the foreign side that this layer calls.
///
/// Nothing is assumed of what they do: every value they hand back is checked
/// or carried through as it is.
pub trait PluginHost {
    /// Canonical description of an error code, NUL-terminated, if there is one.
    fn general_error_string(&self, code: u32) -> Option<&'static [u8]>;

    /// Builds a standard init descriptor in `target` from the three strings.
    fn game_init_create_standard(
        &self,
        target: &mut RawGameInit,
        opts: Option<&[u8]>,
        legacy: Option<&[u8]>,
        state: Option<&[u8]>,
    ) -> u32;

    /// Deep copy of `source` into `target`.
    fn game_init_copy(&self, target: &mut RawGameInit, source: &RawGameInit) -> u32;

    /// Releases what a descriptor built by the foreign side owns.
    fn game_init_destroy(&self, target: &mut RawGameInit) -> u32;

    /// Builds a game-move event in `target`.
    fn event_create_game_move(&self, target: &mut RawEvent, sync_ctr: u32, player: u8, code: u64);

    /// Releases what an event owns.
    fn event_destroy(&self, target: &mut RawEvent);
}

} // verus!
