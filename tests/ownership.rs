use std::cell::Cell;

use mirabel_sys::error::{CustomCode, ErrorCode};
use mirabel_sys::event::{game_move_args, Event, EventAny, EventEnum};
use mirabel_sys::game_init::{substitution_fields, GameInit, OwnedGameInit};
use mirabel_sys::string::ValidCStr;
use mirabel_sys::sys::{
    PluginHost, RawEvent, RawGameInit, ERR_INVALID_INPUT, ERR_OK, ERR_OUT_OF_MEMORY,
    EVENT_TYPE_GAME_LOAD_METHODS, EVENT_TYPE_GAME_MOVE, EVENT_TYPE_GAME_STATE,
    EVENT_TYPE_GAME_UNLOAD, GAME_INIT_SOURCE_TYPE_DEFAULT, GAME_INIT_SOURCE_TYPE_SERIALIZED,
    GAME_INIT_SOURCE_TYPE_STANDARD,
};

/// Stands in for the foreign side and counts what it builds and destroys.
#[derive(Default)]
struct CountingHost {
    creates: Cell<u32>,
    destroys: Cell<u32>,
    fail_copy: bool,
    fail_create: bool,
}

fn copy_field(f: &Option<Vec<u8>>) -> Option<Vec<u8>> {
    f.as_ref().map(|v| v.clone())
}

impl PluginHost for CountingHost {
    fn general_error_string(&self, code: u32) -> Option<&'static [u8]> {
        match code {
            ERR_INVALID_INPUT => Some(b"invalid input\0"),
            7 => Some(&[0xff, 0]),
            _ => None,
        }
    }

    fn game_init_create_standard(
        &self,
        target: &mut RawGameInit,
        opts: Option<&[u8]>,
        legacy: Option<&[u8]>,
        state: Option<&[u8]>,
    ) -> u32 {
        self.creates.set(self.creates.get() + 1);
        target.source_type = GAME_INIT_SOURCE_TYPE_STANDARD;
        target.standard.opts = opts.map(|b| b.to_vec());
        if self.fail_create {
            return ERR_OUT_OF_MEMORY;
        }
        target.standard.legacy = legacy.map(|b| b.to_vec());
        target.standard.state = state.map(|b| b.to_vec());
        ERR_OK
    }

    fn game_init_copy(&self, target: &mut RawGameInit, source: &RawGameInit) -> u32 {
        self.creates.set(self.creates.get() + 1);
        target.source_type = source.source_type;
        if self.fail_copy {
            return ERR_OUT_OF_MEMORY;
        }
        target.standard.opts = copy_field(&source.standard.opts);
        target.standard.legacy = copy_field(&source.standard.legacy);
        target.standard.state = copy_field(&source.standard.state);
        target.serialized.buf = source.serialized.buf.clone();
        ERR_OK
    }

    fn game_init_destroy(&self, target: &mut RawGameInit) -> u32 {
        self.destroys.set(self.destroys.get() + 1);
        target.standard.opts = None;
        target.standard.legacy = None;
        target.standard.state = None;
        target.serialized.buf.clear();
        ERR_INVALID_INPUT
    }

    fn event_create_game_move(&self, target: &mut RawEvent, sync_ctr: u32, player: u8, code: u64) {
        assert_eq!(0, sync_ctr);
        self.creates.set(self.creates.get() + 1);
        target.base.type_ = EVENT_TYPE_GAME_MOVE;
        target.game_move.player = player;
        target.game_move.code = code;
    }

    fn event_destroy(&self, _target: &mut RawEvent) {
        self.destroys.set(self.destroys.get() + 1);
    }
}

fn c(s: &str) -> Option<Vec<u8>> {
    let mut v = s.as_bytes().to_vec();
    v.push(0);
    Some(v)
}

fn standard(opts: Option<Vec<u8>>, legacy: Option<Vec<u8>>, state: Option<Vec<u8>>) -> RawGameInit {
    let mut raw = RawGameInit::zeroed();
    raw.source_type = GAME_INIT_SOURCE_TYPE_STANDARD;
    raw.standard.opts = opts;
    raw.standard.legacy = legacy;
    raw.standard.state = state;
    raw
}

fn strings(g: Option<GameInit<'_>>) -> (Option<String>, Option<String>, Option<String>) {
    match g {
        Some(GameInit::Standard { opts, legacy, state }) => (
            opts.map(|s| s.to_string()),
            legacy.map(|s| s.to_string()),
            state.map(|s| s.to_string()),
        ),
        _ => panic!("not a standard descriptor"),
    }
}

#[test]
fn decode_default() {
    let raw = RawGameInit::zeroed();
    assert!(matches!(GameInit::new(&raw), GameInit::Default));
    assert_eq!(GAME_INIT_SOURCE_TYPE_DEFAULT, raw.source_type);
}

#[test]
fn decode_standard() {
    let raw = standard(c("a"), None, c("b"));
    match GameInit::new(&raw) {
        GameInit::Standard { opts, legacy, state } => {
            assert_eq!(Some("a"), opts);
            assert_eq!(None, legacy);
            assert_eq!(Some("b"), state);
        }
        _ => panic!("not a standard descriptor"),
    }
}

#[test]
fn decode_serialized_reads_byte_range() {
    let mut raw = RawGameInit::zeroed();
    raw.source_type = GAME_INIT_SOURCE_TYPE_SERIALIZED;
    raw.serialized.buf = vec![1, 2, 0, 3];
    // The standard arm holds no valid string; it is not read.
    raw.standard.opts = Some(vec![0xff]);
    match GameInit::new(&raw) {
        GameInit::Serialized(b) => assert_eq!(&[1u8, 2, 0, 3][..], b),
        _ => panic!("not a serialized descriptor"),
    }
}

#[test]
fn checked_decode_rejects_contract_breaks() {
    let mut raw = RawGameInit::zeroed();
    raw.source_type = 7;
    assert!(GameInit::checked(&raw).is_none());
    let raw = standard(Some(b"no terminator".to_vec()), None, None);
    assert!(GameInit::checked(&raw).is_none());
    let raw = standard(Some(vec![0xc3, 0]), None, None);
    assert!(GameInit::checked(&raw).is_none());
    let raw = standard(c("x"), c("y"), None);
    assert_eq!(
        (Some("x".to_string()), Some("y".to_string()), None),
        strings(GameInit::checked(&raw))
    );
}

#[test]
fn copy_from_copies_and_destroys_once() {
    let host = CountingHost::default();
    let source = standard(c("a"), c("b"), c("c"));
    let owned = OwnedGameInit::copy_from(&host, &source).unwrap();
    assert_eq!(1, host.creates.get());
    assert_eq!(
        (Some("a".to_string()), Some("b".to_string()), Some("c".to_string())),
        strings(owned.decode())
    );
    owned.destroy();
    assert_eq!(1, host.destroys.get());
}

#[test]
fn failed_copy_is_destroyed_once() {
    let host = CountingHost { fail_copy: true, ..Default::default() };
    let source = standard(c("a"), None, None);
    let r = OwnedGameInit::copy_from(&host, &source);
    assert!(matches!(r, Err(ErrorCode::OutOfMemory)));
    assert_eq!(1, host.creates.get());
    assert_eq!(1, host.destroys.get());
}

#[test]
fn clone_with_state_substitutes_state() {
    let host = CountingHost::default();
    let source = standard(c("a"), c("b"), c("c"));
    let original = OwnedGameInit::copy_from(&host, &source).unwrap();
    let z = ValidCStr::validate(b"z\0").unwrap();
    let clone = original.clone_with_state(Some(z)).unwrap();
    assert_eq!(
        (Some("a".to_string()), Some("b".to_string()), Some("z".to_string())),
        strings(clone.decode())
    );
    assert_eq!(
        (Some("a".to_string()), Some("b".to_string()), Some("c".to_string())),
        strings(original.decode())
    );
    clone.destroy();
    assert_eq!(1, host.destroys.get());
    assert_eq!(
        (Some("a".to_string()), Some("b".to_string()), Some("c".to_string())),
        strings(original.decode())
    );
    original.destroy();
    assert_eq!(2, host.creates.get());
    assert_eq!(2, host.destroys.get());
}

#[test]
fn clone_with_absent_state() {
    let host = CountingHost::default();
    let original = OwnedGameInit::copy_from(&host, &standard(c("a"), None, c("c"))).unwrap();
    let clone = original.clone_with_state(None).unwrap();
    assert_eq!((Some("a".to_string()), None, None), strings(clone.decode()));
    clone.destroy();
    original.destroy();
    assert_eq!(2, host.destroys.get());
}

#[test]
fn failed_clone_is_destroyed_once() {
    let host = CountingHost { fail_create: true, ..Default::default() };
    let original = OwnedGameInit::copy_from(&host, &standard(c("a"), None, None)).unwrap();
    let z = ValidCStr::validate(b"z\0").unwrap();
    let r = original.clone_with_state(Some(z));
    assert!(matches!(r, Err(ErrorCode::OutOfMemory)));
    assert_eq!(2, host.creates.get());
    assert_eq!(1, host.destroys.get());
    assert_eq!((Some("a".to_string()), None, None), strings(original.decode()));
    original.destroy();
    assert_eq!(2, host.destroys.get());
}

#[test]
fn substitution_fields_of_non_standard_source() {
    let raw = RawGameInit::zeroed();
    let s = ValidCStr::validate(b"q\0").unwrap();
    let (opts, legacy, state) = substitution_fields(&raw, Some(s));
    assert_eq!(None, opts);
    assert_eq!(None, legacy);
    assert_eq!(Some(&b"q\0"[..]), state);
}

#[test]
fn describe_asks_foreign_side() {
    let host = CountingHost::default();
    assert_eq!("invalid input", ErrorCode::InvalidInput.describe(&host));
    assert_eq!("custom[99]", ErrorCode::Custom(CustomCode::new(99).unwrap()).describe(&host));
    // A description that is not valid text falls back to the label.
    assert_eq!("custom[7]", ErrorCode::InvalidPlayer.describe(&host));
}

fn event(type_: u32) -> RawEvent {
    let mut e = RawEvent::zeroed();
    e.base.type_ = type_;
    e.base.client_id = 3;
    e.base.lobby_id = 9;
    e
}

#[test]
fn decode_unknown_event() {
    let e = event(77);
    assert!(matches!(EventEnum::new(&e), EventEnum::Unknown));
    assert!(matches!(EventEnum::checked(&e), Some(EventEnum::Unknown)));
}

#[test]
fn decode_unload_event() {
    let e = event(EVENT_TYPE_GAME_UNLOAD);
    match EventEnum::new(&e) {
        EventEnum::GameUnload(b) => {
            assert_eq!(Event { type_: EVENT_TYPE_GAME_UNLOAD, client_id: 3, lobby_id: 9 }, b)
        }
        _ => panic!("not an unload event"),
    }
}

#[test]
fn decode_state_event() {
    let mut e = event(EVENT_TYPE_GAME_STATE);
    e.game_state.state = c("X..O");
    match EventEnum::new(&e) {
        EventEnum::GameState(s) => {
            assert_eq!(3, s.base.client_id);
            assert_eq!(Some("X..O"), s.state.map(|t| t.to_str()));
        }
        _ => panic!("not a state event"),
    }
    e.game_state.state = Some(vec![b'a']);
    assert!(EventEnum::checked(&e).is_none());
}

#[test]
fn decode_move_event() {
    let mut e = event(EVENT_TYPE_GAME_MOVE);
    e.game_move.player = 2;
    e.game_move.code = 42;
    match EventEnum::new(&e) {
        EventEnum::GameMove(m) => {
            assert_eq!(2, m.player);
            assert_eq!(42, m.code);
            assert_eq!(9, m.base.lobby_id);
        }
        _ => panic!("not a move event"),
    }
}

#[test]
fn decode_load_methods_event() {
    let mut e = event(EVENT_TYPE_GAME_LOAD_METHODS);
    e.game_load_methods.methods = 0x1000;
    e.game_load_methods.init_info = standard(None, c("l"), None);
    match EventEnum::new(&e) {
        EventEnum::GameLoadMethods(l) => {
            assert_eq!(0x1000, l.methods);
            assert_eq!((None, Some("l".to_string()), None), strings(Some(l.init_info)));
        }
        _ => panic!("not a load-methods event"),
    }
}

#[test]
fn game_move_event_is_destroyed_once() {
    let host = CountingHost::default();
    let e = EventAny::new_game_move(&host, 1, 5);
    assert_eq!(1, host.creates.get());
    assert_eq!(EVENT_TYPE_GAME_MOVE, e.get_type());
    match e.to_rust() {
        Some(EventEnum::GameMove(m)) => {
            assert_eq!(1, m.player);
            assert_eq!(5, m.code);
        }
        _ => panic!("not a move event"),
    }
    e.destroy();
    assert_eq!(1, host.destroys.get());
}

#[test]
fn owned_event_from_foreign_value() {
    let host = CountingHost::default();
    let e = EventAny::new(&host, event(EVENT_TYPE_GAME_UNLOAD));
    assert_eq!(EVENT_TYPE_GAME_UNLOAD, e.get_type());
    assert_eq!(3, e.raw().base.client_id);
    e.destroy();
    assert_eq!(0, host.creates.get());
    assert_eq!(1, host.destroys.get());
}

#[test]
fn game_move_args_pass_zero_counter() {
    assert_eq!((0, 3, 17), game_move_args(3, 17));
    assert_eq!((0, 255, u64::MAX), game_move_args(255, u64::MAX));
}
