//! Byte-level codecs for the host boundary: null-terminated strings and the
//! encoded `(code, message)` result of every entry point.
//!
//! A result crosses the boundary as an optional buffer. No buffer means
//! success; a buffer holds the code as four little-endian bytes, then the
//! message as UTF-8, then a terminating zero byte. The side that receives a
//! buffer owns it.
use vstd::prelude::*;
use vstd::string::StringSliceAdditionalSpecFns;
use vstd::utf8::*;

verus! {

broadcast use {encode_utf8_valid_utf8, encode_utf8_decode_utf8};

/// Index of the first zero byte of `b` at or after `i`, or `b.len()` if none.
pub open spec fn nul_index_from(b: Seq<u8>, i: int) -> int
    decreases b.len() - i,
{
    if i < 0 || i >= b.len() {
        b.len() as int
    } else if b[i] == 0 {
        i
    } else {
        nul_index_from(b, i + 1)
    }
}

/// The bytes of a null-terminated string that starts at index `start` of `b`
/// (all of the rest of `b` when no terminator follows).
pub open spec fn cstr_bytes_from(b: Seq<u8>, start: int) -> Seq<u8> {
    b.subrange(start, nul_index_from(b, start))
}

/// The text of the null-terminated string at the start of `b`, when it is
/// well-formed UTF-8.
pub open spec fn cstr_text(b: Seq<u8>) -> Option<Seq<char>> {
    let s = cstr_bytes_from(b, 0);
    if valid_utf8(s) {
        Some(decode_utf8(s))
    } else {
        None
    }
}

/// No byte of `b` is zero.
pub open spec fn nul_free(b: Seq<u8>) -> bool {
    forall|j: int| 0 <= j < b.len() ==> b[j] != 0
}

/// No character of `s` is the null character.
pub open spec fn nul_free_chars(s: Seq<char>) -> bool {
    forall|j: int| 0 <= j < s.len() ==> s[j] != '\0'
}

/// The four little-endian bytes of a result code.
pub open spec fn code_bytes(code: i32) -> Seq<u8> {
    let u = code as u32;
    seq![(u & 0xff) as u8, ((u >> 8u32) & 0xff) as u8, ((u >> 16u32) & 0xff) as u8, ((u >> 24u32) & 0xff) as u8]
}

/// The result code read from four little-endian bytes.
pub open spec fn code_from_bytes(b0: u8, b1: u8, b2: u8, b3: u8) -> i32 {
    ((b0 as u32) | ((b1 as u32) << 8u32) | ((b2 as u32) << 16u32) | ((b3 as u32) << 24u32)) as i32
}

/// The buffer that carries a failure `(code, msg)`.
pub open spec fn failure_buffer(code: i32, msg: Seq<char>) -> Seq<u8> {
    code_bytes(code) + encode_utf8(msg) + seq![0u8]
}

/// What crosses the boundary for the result `(code, msg)`: nothing for the
/// success code, the failure buffer otherwise.
pub open spec fn encoded_return(code: i32, msg: Seq<char>) -> Option<Seq<u8>> {
    if code == 0 {
        None
    } else {
        Some(failure_buffer(code, msg))
    }
}

/// The message carried by a failure buffer: the null-terminated text after the
/// code, or the empty text when those bytes are not UTF-8.
pub open spec fn buffer_message(b: Seq<u8>) -> Seq<char> {
    let m = cstr_bytes_from(b, 4);
    if valid_utf8(m) {
        decode_utf8(m)
    } else {
        Seq::empty()
    }
}

/// The `(code, msg)` read back from what crossed the boundary.
pub open spec fn decoded_return(buf: Option<Seq<u8>>) -> (i32, Seq<char>)
    recommends
        buf matches Some(b) ==> b.len() >= 4,
{
    match buf {
        None => (0i32, Seq::empty()),
        Some(b) => (code_from_bytes(b[0], b[1], b[2], b[3]), buffer_message(b)),
    }
}

/// Relies on `std::str::from_utf8`: it succeeds exactly on well-formed UTF-8,
/// and the text then has those bytes.
#[verifier::external_body]
fn utf8_text(b: &[u8]) -> (r: Option<String>)
    ensures
        r is Some <==> valid_utf8(b@),
        r matches Some(s) ==> s@ == decode_utf8(b@),
{
    std::str::from_utf8(b).ok().map(|s| s.to_owned())
}

/// The bytes of `b` from `start` up to (not including) the first zero byte.
pub fn cstr_bytes(b: &[u8], start: usize) -> (r: Vec<u8>)
    requires
        start <= b@.len(),
    ensures
        r@ == cstr_bytes_from(b@, start as int),
{
    let mut out: Vec<u8> = Vec::new();
    let mut i: usize = start;
    while i < b.len() && b[i] != 0
        invariant
            start <= i <= b@.len(),
            nul_index_from(b@, i as int) == nul_index_from(b@, start as int),
            out@ == b@.subrange(start as int, i as int),
        decreases b@.len() - i,
    {
        out.push(b[i]);
        i = i + 1;
        assert(out@ =~= b@.subrange(start as int, i as int));
    }
    out
}

/// Decodes a null-terminated UTF-8 string handed over by the host. `None`
/// when the bytes before the terminator are not UTF-8.
pub fn cstr_to_string(cstr: &[u8]) -> (r: Option<String>)
    ensures
        r is Some <==> cstr_text(cstr@) is Some,
        r matches Some(s) ==> cstr_text(cstr@) == Some(s@),
{
    let bytes = cstr_bytes(cstr, 0);
    utf8_text(bytes.as_slice())
}

/// The bytes of `s` with a terminating zero byte appended, ready to be handed
/// to the host.
pub fn str_to_cstr_ret(s: &str) -> (r: Vec<u8>)
    ensures
        r@ == s.spec_bytes() + seq![0u8],
{
    let mut out: Vec<u8> = Vec::new();
    out.extend_from_slice(s.as_bytes());
    out.push(0);
    out
}

/// The bytes of `s`, without a terminator; the host learns the length from
/// the buffer's size.
pub fn str_to_cstr(s: &str) -> (r: Vec<u8>)
    ensures
        r@ == s.spec_bytes(),
{
    let mut out: Vec<u8> = Vec::new();
    out.extend_from_slice(s.as_bytes());
    out
}

/// What crosses the boundary for `(code, msg)`: nothing for the success code,
/// so there is nothing to free; otherwise four little-endian code bytes, the
/// message, and a terminating zero byte.
pub fn make_return_code_msg(code: i32, msg: &str) -> (r: Option<Vec<u8>>)
    ensures
        r is None <==> code == 0,
        r matches Some(b) ==> b@ == failure_buffer(code, msg@),
{
    if code == 0 {
        return None;
    }
    let u = code as u32;
    let mut out: Vec<u8> = Vec::new();
    out.push((u & 0xff) as u8);
    out.push(((u >> 8u32) & 0xff) as u8);
    out.push(((u >> 16u32) & 0xff) as u8);
    out.push(((u >> 24u32) & 0xff) as u8);
    out.extend_from_slice(msg.as_bytes());
    out.push(0);
    assert(out@ =~= failure_buffer(code, msg@));
    Some(out)
}

/// Reads `(code, msg)` back from a failure buffer. A message that is not UTF-8
/// reads as the empty message.
pub fn get_code_msg_from_ret(ret: &[u8]) -> (r: (i32, String))
    requires
        ret@.len() >= 4,
    ensures
        (r.0, r.1@) == decoded_return(Some(ret@)),
{
    let u: u32 = (ret[0] as u32) | ((ret[1] as u32) << 8u32) | ((ret[2] as u32) << 16u32) | ((
    ret[3] as u32) << 24u32);
    let code = u as i32;
    let bytes = cstr_bytes(ret, 4);
    let msg = match utf8_text(bytes.as_slice()) {
        Some(s) => s,
        None => String::new(),
    };
    (code, msg)
}

/// The result of an entry point: a code, where 0 is the only success code, and
/// a message that accompanies a failure.
pub struct PluginReturn {
    pub code: i32,
    pub msg: String,
}

impl View for PluginReturn {
    type V = (i32, Seq<char>);

    open spec fn view(&self) -> (i32, Seq<char>) {
        (self.code, self.msg@)
    }
}

/// The result `(code, msg)` as an entry point reports it: a success carries no
/// message.
pub open spec fn return_of(code: i32, msg: Seq<char>) -> (i32, Seq<char>) {
    if code == 0 {
        (0i32, Seq::empty())
    } else {
        (code, msg)
    }
}

impl PluginReturn {
    pub fn success() -> (r: PluginReturn)
        ensures
            r@ == (0i32, Seq::<char>::empty()),
    {
        PluginReturn { code: 0, msg: String::new() }
    }

    pub fn new(code: i32, msg: &str) -> (r: PluginReturn)
        ensures
            r@ == return_of(code, msg@),
    {
        if code == 0 {
            PluginReturn::success()
        } else {
            PluginReturn { code, msg: msg.to_owned() }
        }
    }

    pub fn is_success(&self) -> (r: bool)
        ensures
            r == (self.code == 0),
    {
        self.code == 0
    }

    pub fn get_code_msg(&self) -> (r: (i32, String))
        ensures
            (r.0, r.1@) == self@,
    {
        (self.code, self.msg.clone())
    }

    /// What crosses the boundary for this result: nothing on success, else the
    /// failure buffer, which the receiver then owns.
    pub fn encode(&self) -> (r: Option<Vec<u8>>)
        ensures
            r matches Some(b) ==> encoded_return(self.code, self.msg@) == Some(b@),
            r is None <==> encoded_return(self.code, self.msg@) is None,
    {
        make_return_code_msg(self.code, self.msg.as_str())
    }

    /// Reads a result back from what crossed the boundary.
    pub fn decode(ret: Option<&[u8]>) -> (r: PluginReturn)
        requires
            ret matches Some(b) ==> b@.len() >= 4,
        ensures
            r@ == decoded_return(
                match ret {
                    Some(b) => Some(b@),
                    None => None,
                },
            ),
    {
        match ret {
            None => PluginReturn::success(),
            Some(b) => {
                let (code, msg) = get_code_msg_from_ret(b);
                PluginReturn { code, msg }
            },
        }
    }
}

proof fn lemma_code_bytes_round_trip(code: i32)
    ensures
        code_from_bytes(code_bytes(code)[0], code_bytes(code)[1], code_bytes(code)[2], code_bytes(code)[3]) == code,
{
    let u = code as u32;
    let b0 = (u & 0xff) as u8;
    let b1 = ((u >> 8u32) & 0xff) as u8;
    let b2 = ((u >> 16u32) & 0xff) as u8;
    let b3 = ((u >> 24u32) & 0xff) as u8;
    assert(((b0 as u32) | ((b1 as u32) << 8u32) | ((b2 as u32) << 16u32) | ((b3 as u32) << 24u32)) == u) by (bit_vector)
        requires
            b0 == (u & 0xff) as u8,
            b1 == ((u >> 8u32) & 0xff) as u8,
            b2 == ((u >> 16u32) & 0xff) as u8,
            b3 == ((u >> 24u32) & 0xff) as u8,
    ;
    assert((u as i32) == code) by (bit_vector)
        requires
            u == code as u32,
    ;
}

proof fn lemma_scalar_nul_free(c: char)
    requires
        c != '\0',
    ensures
        nul_free(encode_scalar(c as u32)),
{
    let v = c as u32;
    char_is_scalar(c);
    if v == 0 {
        char_u32_cast(c, v);
        assert(c == (0u32 as char));
    }
    assert(v != 0);
    if has_width_1_encoding(v) {
        assert(((v & 0x7F) as u8) != 0u8) by (bit_vector)
            requires
                0 < v <= 0x7F,
        ;
    } else {
        assert(forall|x: u8| #![auto] (0xC0u8 | x) != 0u8) by (bit_vector);
        assert(forall|x: u8| #![auto] (0xE0u8 | x) != 0u8) by (bit_vector);
        assert(forall|x: u8| #![auto] (0xF0u8 | x) != 0u8) by (bit_vector);
        assert(forall|x: u8| #![auto] (0x80u8 | x) != 0u8) by (bit_vector);
    }
}

proof fn lemma_encode_nul_free(s: Seq<char>)
    requires
        nul_free_chars(s),
    ensures
        nul_free(encode_utf8(s)),
    decreases s.len(),
{
    if s.len() > 0 {
        lemma_scalar_nul_free(s[0]);
        assert(nul_free_chars(s.drop_first()));
        lemma_encode_nul_free(s.drop_first());
        let a = encode_scalar(s[0] as u32);
        let b = encode_utf8(s.drop_first());
        assert forall|j: int| 0 <= j < (a + b).len() implies (a + b)[j] != 0 by {
            if j < a.len() {
                assert((a + b)[j] == a[j]);
            } else {
                assert((a + b)[j] == b[j - a.len()]);
            }
        }
    }
}

proof fn lemma_nul_index_of_terminated(b: Seq<u8>, start: int, end: int, i: int)
    requires
        0 <= start <= i <= end < b.len(),
        b[end] == 0,
        forall|j: int| start <= j < end ==> b[j] != 0,
    ensures
        nul_index_from(b, i) == end,
    decreases end - i,
{
    if i < end {
        lemma_nul_index_of_terminated(b, start, end, i + 1);
    }
}

/// Encoding a failure `(code, msg)` and reading it back gives `(code, msg)`
/// again, for every non-zero code and every message without a null character
/// (the empty message included).
pub proof fn lemma_return_round_trip(code: i32, msg: Seq<char>)
    requires
        code != 0,
        nul_free_chars(msg),
    ensures
        encoded_return(code, msg) is Some,
        decoded_return(encoded_return(code, msg)) == (code, msg),
{
    let b = failure_buffer(code, msg);
    let e = encode_utf8(msg);
    lemma_encode_nul_free(msg);
    lemma_code_bytes_round_trip(code);
    assert(b[0] == code_bytes(code)[0] && b[1] == code_bytes(code)[1] && b[2] == code_bytes(code)[2]
        && b[3] == code_bytes(code)[3]);
    let end: int = 4 + e.len() as int;
    assert forall|j: int| 4 <= j < end implies b[j] != 0 by {
        assert(b[j] == e[j - 4]);
    }
    lemma_nul_index_of_terminated(b, 4, end, 4);
    assert(cstr_bytes_from(b, 4) =~= e);
}

/// The success code is carried by no buffer at all, so there is nothing for
/// the receiver to free, and it reads back as success with the empty message.
pub proof fn lemma_success_sentinel(msg: Seq<char>)
    ensures
        encoded_return(0, msg) is None,
        decoded_return(encoded_return(0, msg)) == (0i32, Seq::<char>::empty()),
        return_of(0, msg) == (0i32, Seq::<char>::empty()),
{
}

} // verus!
