//! Validated C-style strings.
//!
//! Foreign text arrives as a buffer that starts at the foreign pointer and
//! holds at least the text and its NUL terminator. A null pointer is `None`.
use vstd::prelude::*;
use vstd::slice::slice_subrange;
use vstd::string::StringSliceAdditionalSpecFns;
use vstd::utf8::*;

verus! {

/// `i` is the position of the first NUL byte of `b`.
pub open spec fn is_first_nul(b: Seq<u8>, i: int) -> bool {
    &&& 0 <= i < b.len()
    &&& b[i] == 0
    &&& forall|j: int| 0 <= j < i ==> b[j] != 0
}

/// `b` holds a NUL byte, so a C string can be read from it.
pub open spec fn nul_terminated(b: Seq<u8>) -> bool {
    b.contains(0u8)
}

/// The position of the first NUL byte of a NUL-terminated buffer.
pub open spec fn first_nul(b: Seq<u8>) -> int {
    choose|i: int| is_first_nul(b, i)
}

/// The text of a C string: the bytes before its first NUL.
pub open spec fn c_text(b: Seq<u8>) -> Seq<u8> {
    b.take(first_nul(b))
}

/// What a foreign buffer must hold to be read as text: a terminator, and
/// valid UTF-8 before it.
pub open spec fn valid_c_text(b: Seq<u8>) -> bool {
    nul_terminated(b) && valid_utf8(c_text(b))
}

/// A string literal that is a whole C string: it ends in its only NUL.
pub open spec fn is_c_literal(b: Seq<u8>) -> bool {
    b.len() > 0 && b.last() == 0 && !b.drop_last().contains(0u8)
}

/// The first NUL byte found is the one that `first_nul` names, and the text
/// ends there.
pub proof fn lemma_first_nul(b: Seq<u8>, i: int)
    requires
        is_first_nul(b, i),
    ensures
        nul_terminated(b),
        first_nul(b) == i,
        c_text(b) == b.take(i),
{
    assert(b[i] == 0);
    let k = first_nul(b);
    assert(is_first_nul(b, k));
    if k < i {
        assert(b[k] != 0);
    } else if i < k {
        assert(b[i] != 0);
    }
}

/// A NUL byte at `w` means a first one at or before it.
proof fn lemma_first_nul_below(b: Seq<u8>, w: int)
    requires
        0 <= w < b.len(),
        b[w] == 0,
    ensures
        is_first_nul(b, first_nul(b)),
    decreases w,
{
    if exists|j: int| 0 <= j < w && b[j] == 0 {
        let j = choose|j: int| 0 <= j < w && b[j] == 0;
        lemma_first_nul_below(b, j);
    } else {
        assert(is_first_nul(b, w));
    }
}

/// A NUL-terminated buffer has a first NUL byte.
proof fn lemma_first_nul_exists(b: Seq<u8>)
    requires
        nul_terminated(b),
    ensures
        is_first_nul(b, first_nul(b)),
{
    let w = choose|w: int| 0 <= w < b.len() && b[w] == 0;
    lemma_first_nul_below(b, w);
}

/// A buffer whose only NUL byte is its last one, with valid UTF-8 before it,
/// can be read as text, and the text read is the buffer without its
/// terminator.
pub proof fn lemma_literal_text(s: Seq<u8>)
    requires
        is_c_literal(s),
        valid_utf8(s.drop_last()),
    ensures
        valid_c_text(s),
        c_text(s) == s.drop_last(),
{
    assert forall|j: int| 0 <= j < s.len() - 1 implies s[j] != 0 by {
        assert(s[j] == s.drop_last()[j]);
    }
    lemma_first_nul(s, s.len() - 1);
    assert(s.take(s.len() - 1) =~= s.drop_last());
}

/// Text is given back unchanged by an owned C string: two texts with the same
/// bytes are the same text.
pub proof fn lemma_owned_round_trip(value: Seq<char>, text: Seq<char>)
    requires
        encode_utf8(text) == encode_utf8(value),
    ensures
        text == value,
{
    encode_utf8_decode_utf8(text);
    encode_utf8_decode_utf8(value);
}

/// A buffer that holds valid UTF-8 without NUL bytes and then a terminator
/// can be read as text, and the text read is exactly those bytes.
pub proof fn lemma_terminated_text(s: Seq<u8>)
    requires
        valid_utf8(s),
        !s.contains(0u8),
    ensures
        valid_c_text(s.push(0)),
        c_text(s.push(0)) == s,
{
    let b = s.push(0);
    assert(b.drop_last() =~= s);
    if b.drop_last().contains(0u8) {
        let j = choose|j: int| 0 <= j < b.drop_last().len() && b.drop_last()[j] == 0;
        assert(s[j] == 0);
    }
    lemma_literal_text(b);
}

/// Position of the first NUL byte of `b`, if there is one.
pub fn find_nul(b: &[u8]) -> (r: Option<usize>)
    ensures
        match r {
            Some(i) => is_first_nul(b@, i as int),
            None => !nul_terminated(b@),
        },
{
    let mut i: usize = 0;
    while i < b.len()
        invariant
            i <= b@.len(),
            forall|j: int| 0 <= j < i ==> b@[j] != 0,
        decreases b@.len() - i,
    {
        if b[i] == 0 {
            return Some(i);
        }
        i = i + 1;
    }
    None
}

/// Relies on `std::str::from_utf8`: it succeeds exactly on valid UTF-8 and
/// then borrows the same bytes as text.
#[verifier::external_body]
pub(crate) fn str_from_utf8<'a>(b: &'a [u8]) -> (r: Option<&'a str>)
    ensures
        r is Some <==> valid_utf8(b@),
        r matches Some(s) ==> s.spec_bytes() == b@,
{
    std::str::from_utf8(b).ok()
}

/// Relies on `String::into_bytes`: the UTF-8 encoding of the string, without copying.
#[verifier::external_body]
pub(crate) fn string_into_bytes(s: String) -> (r: Vec<u8>)
    ensures
        r@ == encode_utf8(s@),
{
    s.into_bytes()
}

/// Reads the text of a C string whose buffer is known to hold a terminator
/// and valid UTF-8 before it.
fn read_c_text<'l>(buf: &'l [u8]) -> (r: (&'l str, &'l [u8]))
    requires
        valid_c_text(buf@),
    ensures
        r.0.spec_bytes() == c_text(buf@),
        r.1@ == c_text(buf@).push(0),
        !c_text(buf@).contains(0u8),
{
    proof {
        lemma_first_nul_exists(buf@);
    }
    let n = find_nul(buf);
    let i = match n {
        Some(i) => i,
        None => 0,
    };
    proof {
        lemma_first_nul(buf@, i as int);
    }
    let len = buf.len();
    assert(i < len);
    let text_bytes = slice_subrange(buf, 0, i);
    let with_nul = slice_subrange(buf, 0, i + 1);
    let text = match str_from_utf8(text_bytes) {
        Some(s) => s,
        None => "",
    };
    assert(with_nul@ =~= c_text(buf@).push(0));
    assert(text_bytes@ =~= c_text(buf@));
    proof {
        if c_text(buf@).contains(0u8) {
            let j = choose|j: int| 0 <= j < c_text(buf@).len() && c_text(buf@)[j] == 0;
            assert(buf@[j] == 0);
        }
    }
    (text, with_nul)
}

/// Error of reading a string literal as a whole C string.
#[derive(Debug, Clone, Copy, PartialEq, Eq, Structural)]
pub enum FromBytesWithNulError {
    /// A NUL byte stands before the last byte.
    InteriorNul { position: usize },
    /// The last byte is not NUL.
    NotNulTerminated,
}

/// A borrowed C string: not null, NUL-terminated, valid UTF-8 before the
/// terminator, and valid for `'s`.
#[derive(Clone, Copy, Debug)]
pub struct ValidCStr<'s> {
    with_nul: &'s [u8],
    text: &'s str,
}

impl<'s> View for ValidCStr<'s> {
    type V = Seq<u8>;

    /// The bytes of the text, without the terminator.
    open spec fn view(&self) -> Seq<u8> {
        self.spec_str().spec_bytes()
    }
}

impl<'l> From<ValidCStr<'l>> for &'l str {
    /// The text, without the terminator, in the same storage.
    fn from(s: ValidCStr<'l>) -> &'l str {
        s.to_str()
    }
}

impl<'l> vstd::std_specs::convert::FromSpecImpl<ValidCStr<'l>> for &'l str {
    open spec fn obeys_from_spec() -> bool {
        true
    }

    open spec fn from_spec(s: ValidCStr<'l>) -> &'l str {
        s.spec_str()
    }
}

impl<'s> ValidCStr<'s> {
    /// The text, without the terminator, as a string slice over the foreign
    /// buffer.
    pub closed spec fn spec_str(self) -> &'s str {
        self.text
    }

    #[verifier::type_invariant]
    spec fn inv(self) -> bool {
        &&& self.with_nul@ == self.text.spec_bytes().push(0)
        &&& !self.text.spec_bytes().contains(0u8)
    }

    /// Wraps a foreign string pointer, or `None` if it is null.
    ///
    /// The foreign side guarantees a terminator and valid UTF-8 before it.
    pub fn new(buf: Option<&'s [u8]>) -> (r: Option<Self>)
        requires
            buf matches Some(b) ==> valid_c_text(b@),
        ensures
            r is Some <==> buf is Some,
            r matches Some(s) ==> s@ == c_text(buf->Some_0@),
    {
        match buf {
            Some(b) => {
                let (text, with_nul) = read_c_text(b);
                Some(ValidCStr { with_nul, text })
            },
            None => None,
        }
    }

    /// Checks a foreign buffer and wraps it when it holds a terminator and
    /// valid UTF-8 before it.
    pub fn validate(buf: &'s [u8]) -> (r: Option<Self>)
        ensures
            r is Some <==> valid_c_text(buf@),
            r matches Some(s) ==> s@ == c_text(buf@),
    {
        let n = find_nul(buf);
        match n {
            Some(i) => {
                proof {
                    lemma_first_nul(buf@, i as int);
                }
                let text_bytes = slice_subrange(buf, 0, i);
                assert(text_bytes@ =~= c_text(buf@));
                match str_from_utf8(text_bytes) {
                    Some(_) => {
                        let (text, with_nul) = read_c_text(buf);
                        Some(ValidCStr { with_nul, text })
                    },
                    None => None,
                }
            },
            None => None,
        }
    }

    /// Reads a string literal that ends in its only NUL byte.
    pub fn from_str_with_nul(value: &'s str) -> (r: Result<Self, FromBytesWithNulError>)
        ensures
            match r {
                Ok(s) => is_c_literal(value.spec_bytes()) && s@ == value.spec_bytes().drop_last(),
                Err(FromBytesWithNulError::InteriorNul { position }) => {
                    is_first_nul(value.spec_bytes(), position as int)
                        && position + 1 < value.spec_bytes().len()
                },
                Err(FromBytesWithNulError::NotNulTerminated) => !nul_terminated(
                    value.spec_bytes(),
                ),
            },
    {
        let bytes = value.as_bytes();
        match find_nul(bytes) {
            None => Err(FromBytesWithNulError::NotNulTerminated),
            Some(i) => {
                let len = bytes.len();
                assert(i < len);
                if i + 1 < len {
                    Err(FromBytesWithNulError::InteriorNul { position: i })
                } else {
                    proof {
                        lemma_first_nul(bytes@, i as int);
                        encode_utf8_valid_utf8(value@);
                        is_char_boundary_iff_is_leading_byte(bytes@, i as int);
                        valid_utf8_split(bytes@, i as int);
                        assert(bytes@.take(i as int) =~= bytes@.drop_last());
                        assert(bytes@.subrange(0, i as int) =~= bytes@.drop_last());
                        if bytes@.drop_last().contains(0u8) {
                            let j = choose|j: int|
                                0 <= j < bytes@.drop_last().len() && bytes@.drop_last()[j] == 0;
                            assert(bytes@[j] == 0);
                        }
                    }
                    let (text, with_nul) = read_c_text(bytes);
                    Ok(ValidCStr { with_nul, text })
                }
            },
        }
    }

    /// The text, without the terminator.
    pub fn to_str(self) -> (r: &'s str)
        ensures
            r == self.spec_str(),
            r.spec_bytes() == self@,
            !self@.contains(0u8),
    {
        proof {
            use_type_invariant(self);
        }
        self.text
    }

    /// The bytes of the text, without the terminator.
    pub fn to_bytes(self) -> (r: &'s [u8])
        ensures
            r@ == self@,
    {
        self.text.as_bytes()
    }

    /// The bytes as the foreign side reads them: the text and its terminator.
    pub fn as_bytes_with_nul(self) -> (r: &'s [u8])
        ensures
            r@ == self@.push(0),
            !self@.contains(0u8),
    {
        proof {
            use_type_invariant(self);
        }
        self.with_nul
    }
}

/// Reads a string literal that ends in its only NUL byte.
pub fn cstr(string: &str) -> (r: ValidCStr<'_>)
    requires
        is_c_literal(string.spec_bytes()),
    ensures
        r@ == string.spec_bytes().drop_last(),
{
    match ValidCStr::from_str_with_nul(string) {
        Ok(s) => s,
        // Not reached: the literal ends in its only NUL byte.
        Err(e) => {
            proof {
                let b = string.spec_bytes();
                assert(b[b.len() - 1] == 0);
                match e {
                    FromBytesWithNulError::InteriorNul { position } => {
                        assert(b.drop_last()[position as int] == 0);
                    },
                    FromBytesWithNulError::NotNulTerminated => {},
                }
            }
            ValidCStr { with_nul: &[0u8], text: "" }
        },
    }
}

/// Reads a foreign string pointer as text, or `None` if it is null.
pub fn cstr_to_rust<'l>(buf: Option<&'l [u8]>) -> (r: Option<&'l str>)
    requires
        buf matches Some(b) ==> valid_c_text(b@),
    ensures
        r is Some <==> buf is Some,
        r matches Some(s) ==> s.spec_bytes() == c_text(buf->Some_0@),
{
    match buf {
        Some(b) => Some(cstr_to_rust_unchecked(b)),
        None => None,
    }
}

/// Reads a foreign string pointer that is known not to be null as text.
pub fn cstr_to_rust_unchecked<'l>(buf: &'l [u8]) -> (r: &'l str)
    requires
        valid_c_text(buf@),
    ensures
        r.spec_bytes() == c_text(buf@),
{
    read_c_text(buf).0
}

/// A string meant for the foreign side held a NUL byte before its end.
#[derive(Debug, PartialEq, Eq)]
pub struct NulError {
    position: usize,
    bytes: Vec<u8>,
}

impl NulError {
    /// Position of the first NUL byte.
    pub fn nul_position(&self) -> (r: usize)
        ensures
            r == self.spec_position(),
    {
        self.position
    }

    /// The bytes that were handed in, unchanged.
    pub fn into_vec(self) -> (r: Vec<u8>)
        ensures
            r@ == self.spec_bytes(),
    {
        self.bytes
    }

    pub closed spec fn spec_position(&self) -> usize {
        self.position
    }

    pub closed spec fn spec_bytes(&self) -> Seq<u8> {
        self.bytes@
    }
}

/// An owned C string: valid UTF-8 without NUL bytes, stored with its terminator.
#[derive(Debug)]
pub struct ValidCString {
    bytes: Vec<u8>,
}

impl View for ValidCString {
    type V = Seq<u8>;

    /// The bytes of the text, without the terminator.
    closed spec fn view(&self) -> Seq<u8> {
        self.bytes@.drop_last()
    }
}

impl ValidCString {
    #[verifier::type_invariant]
    spec fn inv(self) -> bool {
        &&& self.bytes@.len() > 0
        &&& self.bytes@.last() == 0
        &&& !self.bytes@.drop_last().contains(0u8)
        &&& valid_utf8(self.bytes@.drop_last())
    }

    /// Takes over the storage of `value` and appends a terminator; fails if
    /// `value` holds a NUL byte.
    pub fn try_from(value: String) -> (r: Result<Self, NulError>)
        ensures
            match r {
                Ok(s) => !encode_utf8(value@).contains(0u8) && s@ == encode_utf8(value@),
                Err(e) => is_first_nul(encode_utf8(value@), e.spec_position() as int)
                    && e.spec_bytes() == encode_utf8(value@),
            },
    {
        proof {
            encode_utf8_valid_utf8(value@);
        }
        let ghost text = encode_utf8(value@);
        let mut bytes = string_into_bytes(value);
        match find_nul(bytes.as_slice()) {
            Some(position) => Err(NulError { position, bytes }),
            None => {
                bytes.push(0);
                assert(bytes@.drop_last() =~= text);
                Ok(ValidCString { bytes })
            },
        }
    }

    /// The text, without the terminator.
    pub fn as_str(&self) -> (r: &str)
        ensures
            r.spec_bytes() == self@,
            encode_utf8(r@) == self@,
    {
        proof {
            use_type_invariant(self);
        }
        let n = self.bytes.len();
        let text = slice_subrange(self.bytes.as_slice(), 0, n - 1);
        assert(text@ =~= self@);
        match str_from_utf8(text) {
            Some(s) => s,
            None => "",
        }
    }

    /// The bytes as the foreign side reads them: the text and its terminator.
    pub fn as_bytes_with_nul(&self) -> (r: &[u8])
        ensures
            r@ == self@.push(0),
            !self@.contains(0u8),
    {
        proof {
            use_type_invariant(self);
        }
        assert(self.bytes@ =~= self@.push(0));
        self.bytes.as_slice()
    }

    /// A borrowed view of the same storage.
    pub fn as_valid_cstr(&self) -> (r: ValidCStr<'_>)
        ensures
            r@ == self@,
    {
        proof {
            use_type_invariant(self);
        }
        let b = self.bytes.as_slice();
        proof {
            assert forall|j: int| 0 <= j < b@.len() - 1 implies b@[j] != 0 by {
                assert(b@[j] == self.bytes@.drop_last()[j]);
            }
            lemma_first_nul(b@, b@.len() - 1);
            assert(c_text(b@) =~= self@);
        }
        let (text, with_nul) = read_c_text(b);
        ValidCStr { with_nul, text }
    }
}

} // verus!
