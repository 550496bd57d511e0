//! The init descriptor: its decoded, borrowed view and an owning handle whose
//! copies and destruction go through the foreign side.
use vstd::prelude::*;
use vstd::string::StringSliceAdditionalSpecFns;

use crate::error::{code_to_result, ErrorCode};
use crate::string::{c_text, cstr_to_rust, valid_c_text, ValidCStr};
use crate::sys::{
    PluginHost, RawGameInit, GAME_INIT_SOURCE_TYPE_DEFAULT, GAME_INIT_SOURCE_TYPE_SERIALIZED,
    GAME_INIT_SOURCE_TYPE_STANDARD,
};

verus! {

/// A foreign string field: null, or a buffer that holds a C string.
pub open spec fn valid_c_field(f: Option<Vec<u8>>) -> bool {
    f matches Some(b) ==> valid_c_text(b@)
}

/// The text of a foreign string field, or `None` where it is null.
pub open spec fn c_field_text(f: Option<Vec<u8>>) -> Option<Seq<u8>> {
    match f {
        Some(b) => Some(c_text(b@)),
        None => None,
    }
}

/// The text of a decoded string, or `None` where it is absent.
pub open spec fn str_text(s: Option<&str>) -> Option<Seq<u8>> {
    match s {
        Some(t) => Some(t.spec_bytes()),
        None => None,
    }
}

/// What a decoded init descriptor holds.
pub enum InitModel {
    Default,
    Standard { opts: Option<Seq<u8>>, legacy: Option<Seq<u8>>, state: Option<Seq<u8>> },
    Serialized(Seq<u8>),
}

/// The foreign side keeps its contract for this descriptor: a known
/// discriminant, and C strings in the standard arm when it is the one named.
pub open spec fn raw_init_valid(raw: RawGameInit) -> bool {
    ||| raw.source_type == GAME_INIT_SOURCE_TYPE_DEFAULT
    ||| raw.source_type == GAME_INIT_SOURCE_TYPE_SERIALIZED
    ||| {
        &&& raw.source_type == GAME_INIT_SOURCE_TYPE_STANDARD
        &&& valid_c_field(raw.standard.opts)
        &&& valid_c_field(raw.standard.legacy)
        &&& valid_c_field(raw.standard.state)
    }
}

/// The decoding of a descriptor: the arm that its discriminant names, read as
/// that arm.
pub open spec fn decode_init(raw: RawGameInit) -> InitModel {
    if raw.source_type == GAME_INIT_SOURCE_TYPE_STANDARD {
        InitModel::Standard {
            opts: c_field_text(raw.standard.opts),
            legacy: c_field_text(raw.standard.legacy),
            state: c_field_text(raw.standard.state),
        }
    } else if raw.source_type == GAME_INIT_SOURCE_TYPE_SERIALIZED {
        InitModel::Serialized(raw.serialized.buf@)
    } else {
        InitModel::Default
    }
}

/// The arm that `a`'s discriminant names holds the same in `b`.
pub open spec fn same_named_arm(a: RawGameInit, b: RawGameInit) -> bool {
    &&& a.source_type == b.source_type
    &&& a.source_type == GAME_INIT_SOURCE_TYPE_STANDARD ==> {
        &&& c_field_text(a.standard.opts) == c_field_text(b.standard.opts)
        &&& c_field_text(a.standard.legacy) == c_field_text(b.standard.legacy)
        &&& c_field_text(a.standard.state) == c_field_text(b.standard.state)
    }
    &&& a.source_type == GAME_INIT_SOURCE_TYPE_SERIALIZED ==> a.serialized.buf@
        == b.serialized.buf@
}

/// Decoding reads no arm but the one that the discriminant names: two
/// descriptors that agree on it decode alike, whatever the other arms hold.
pub proof fn lemma_decode_reads_named_arm(a: RawGameInit, b: RawGameInit)
    requires
        same_named_arm(a, b),
    ensures
        decode_init(a) == decode_init(b),
{
}

/// An init descriptor decoded from its foreign form, borrowing its strings
/// and bytes.
#[derive(Debug, Clone, Copy)]
pub enum GameInit<'l> {
    Default,
    Standard { opts: Option<&'l str>, legacy: Option<&'l str>, state: Option<&'l str> },
    Serialized(&'l [u8]),
}

impl<'l> View for GameInit<'l> {
    type V = InitModel;

    open spec fn view(&self) -> InitModel {
        match self {
            GameInit::Default => InitModel::Default,
            GameInit::Standard { opts, legacy, state } => InitModel::Standard {
                opts: str_text(*opts),
                legacy: str_text(*legacy),
                state: str_text(*state),
            },
            GameInit::Serialized(b) => InitModel::Serialized(b@),
        }
    }
}

/// Borrows a foreign string field as a buffer.
pub(crate) fn c_field<'l>(f: &'l Option<Vec<u8>>) -> (r: Option<&'l [u8]>)
    ensures
        r is Some <==> f is Some,
        r matches Some(b) ==> b@ == f->Some_0@,
{
    match f {
        Some(v) => Some(v.as_slice()),
        None => None,
    }
}

/// Checks a foreign string field without trusting it.
fn check_c_field(f: &Option<Vec<u8>>) -> (r: bool)
    ensures
        r == valid_c_field(*f),
{
    match f {
        Some(v) => ValidCStr::validate(v.as_slice()).is_some(),
        None => true,
    }
}

impl<'l> GameInit<'l> {
    /// Decodes a descriptor that the foreign side delivered under its
    /// contract, reading only the arm that its discriminant names.
    pub fn new(init_info: &'l RawGameInit) -> (r: Self)
        requires
            raw_init_valid(*init_info),
        ensures
            r@ == decode_init(*init_info),
    {
        let t = init_info.source_type;
        if t == GAME_INIT_SOURCE_TYPE_STANDARD {
            let source = &init_info.standard;
            GameInit::Standard {
                opts: cstr_to_rust(c_field(&source.opts)),
                legacy: cstr_to_rust(c_field(&source.legacy)),
                state: cstr_to_rust(c_field(&source.state)),
            }
        } else if t == GAME_INIT_SOURCE_TYPE_SERIALIZED {
            GameInit::Serialized(init_info.serialized.buf.as_slice())
        } else {
            GameInit::Default
        }
    }

    /// Decodes a descriptor whose validity is not known: `None` where the
    /// foreign side broke its contract.
    pub fn checked(init_info: &'l RawGameInit) -> (r: Option<Self>)
        ensures
            r is Some <==> raw_init_valid(*init_info),
            r matches Some(g) ==> g@ == decode_init(*init_info),
    {
        let t = init_info.source_type;
        let valid = if t == GAME_INIT_SOURCE_TYPE_STANDARD {
            check_c_field(&init_info.standard.opts) && check_c_field(&init_info.standard.legacy)
                && check_c_field(&init_info.standard.state)
        } else {
            t == GAME_INIT_SOURCE_TYPE_DEFAULT || t == GAME_INIT_SOURCE_TYPE_SERIALIZED
        };
        if valid {
            Some(GameInit::new(init_info))
        } else {
            None
        }
    }
}

/// The strings handed to the foreign constructor of a standard descriptor
/// that keeps `source`'s options and legacy strings and takes `state`.
pub open spec fn substitution_args(source: RawGameInit, state: Option<Seq<u8>>) -> (
    Option<Seq<u8>>,
    Option<Seq<u8>>,
    Option<Seq<u8>>,
) {
    if source.source_type == GAME_INIT_SOURCE_TYPE_STANDARD {
        (buf_of(source.standard.opts), buf_of(source.standard.legacy), state)
    } else {
        (None, None, state)
    }
}

/// The buffer of a foreign string field.
pub open spec fn buf_of(f: Option<Vec<u8>>) -> Option<Seq<u8>> {
    match f {
        Some(b) => Some(b@),
        None => None,
    }
}

/// The buffer of a borrowed argument.
pub open spec fn arg_buf(a: Option<&[u8]>) -> Option<Seq<u8>> {
    match a {
        Some(b) => Some(b@),
        None => None,
    }
}

/// Picks the foreign strings for a standard descriptor built from `source`
/// with `state` in place of its state: the options and legacy strings of
/// `source` as they are where it is a standard descriptor, else null, and
/// `state` with its terminator, or null.
pub fn substitution_fields<'a>(source: &'a RawGameInit, state: Option<ValidCStr<'a>>) -> (r: (
    Option<&'a [u8]>,
    Option<&'a [u8]>,
    Option<&'a [u8]>,
))
    ensures
        (arg_buf(r.0), arg_buf(r.1), arg_buf(r.2)) == substitution_args(
            *source,
            match state {
                Some(s) => Some(s@.push(0)),
                None => None,
            },
        ),
{
    let s = match state {
        Some(s) => Some(s.as_bytes_with_nul()),
        None => None,
    };
    if source.source_type == GAME_INIT_SOURCE_TYPE_STANDARD {
        (c_field(&source.standard.opts), c_field(&source.standard.legacy), s)
    } else {
        (None, None, s)
    }
}

/// An init descriptor built by the foreign side and owned here. `destroy`
/// consumes the handle, so the foreign side destroys it at most once; the
/// handle is never copied.
pub struct OwnedGameInit<'h, H: PluginHost> {
    host: &'h H,
    raw: RawGameInit,
}

impl<'h, H: PluginHost> OwnedGameInit<'h, H> {
    /// The foreign descriptor.
    pub fn raw(&self) -> (r: &RawGameInit)
        ensures
            *r == self.spec_raw(),
    {
        &self.raw
    }

    pub closed spec fn spec_raw(&self) -> RawGameInit {
        self.raw
    }

    pub closed spec fn spec_host(&self) -> &'h H {
        self.host
    }

    /// Copies `source` through the foreign copy routine into zeroed storage.
    ///
    /// Where the copy reports an error, what it may have built in the storage
    /// is destroyed before the error is returned.
    pub fn copy_from(host: &'h H, source: &RawGameInit) -> (r: Result<Self, ErrorCode>)
        ensures
            r matches Ok(o) ==> o.spec_host() == host,
            r matches Err(e) ==> e.wf(),
    {
        let mut owned = OwnedGameInit { host, raw: RawGameInit::zeroed() };
        let rc = host.game_init_copy(&mut owned.raw, source);
        match code_to_result(rc) {
            Ok(()) => Ok(owned),
            Err(e) => {
                owned.destroy();
                Err(e)
            },
        }
    }

    /// Builds a standard descriptor through the foreign constructor, from
    /// this one's options and legacy strings and `state`.
    pub fn clone_with_state(&self, state: Option<ValidCStr<'_>>) -> (r: Result<
        OwnedGameInit<'h, H>,
        ErrorCode,
    >)
        ensures
            r matches Ok(o) ==> o.spec_host() == self.spec_host(),
            r matches Err(e) ==> e.wf(),
    {
        let (opts, legacy, new_state) = substitution_fields(&self.raw, state);
        let mut owned = OwnedGameInit { host: self.host, raw: RawGameInit::zeroed() };
        let rc = self.host.game_init_create_standard(&mut owned.raw, opts, legacy, new_state);
        match code_to_result(rc) {
            Ok(()) => Ok(owned),
            Err(e) => {
                owned.destroy();
                Err(e)
            },
        }
    }

    /// Destroys the descriptor through the foreign side. An error that it
    /// reports is dropped: nothing can be done about it at this point.
    pub fn destroy(self) {
        let mut raw = self.raw;
        let _ = self.host.game_init_destroy(&mut raw);
    }

    /// Decodes the descriptor: `None` where the foreign side broke its contract.
    pub fn decode(&self) -> (r: Option<GameInit<'_>>)
        ensures
            r is Some <==> raw_init_valid(self.spec_raw()),
            r matches Some(g) ==> g@ == decode_init(self.spec_raw()),
    {
        GameInit::checked(&self.raw)
    }
}

} // verus!
