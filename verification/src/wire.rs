//! Primitives of the wire format.
//!
//! Every integer is written big-endian at its full width. A flag is one byte,
//! `0` or `1`. A text is the count of its UTF-8 bytes as a `u64`, followed by
//! those bytes. Each primitive has a function that gives its bytes and a
//! function that takes it off the front of a byte sequence; the two are proved
//! to be inverses of each other.

use vstd::prelude::*;
use vstd::slice::*;
use vstd::utf8::*;

verus! {

/// The four bytes of a `u32`, most significant first.
#[verifier::opaque]
pub open spec fn u32_bytes(v: u32) -> Seq<u8> {
    seq![
        (v / 0x100_0000) as u8,
        (v / 0x1_0000 % 0x100) as u8,
        (v / 0x100 % 0x100) as u8,
        (v % 0x100) as u8,
    ]
}

/// The `u32` that the first four bytes of `b` spell.
#[verifier::opaque]
pub open spec fn u32_value(b: Seq<u8>) -> u32
    recommends
        b.len() >= 4,
{
    (b[0] as int * 0x100_0000 + b[1] as int * 0x1_0000 + b[2] as int * 0x100 + b[3] as int) as u32
}

/// The eight bytes of a `u64`, most significant first.
#[verifier::opaque]
pub open spec fn u64_bytes(v: u64) -> Seq<u8> {
    u32_bytes((v / 0x1_0000_0000) as u32) + u32_bytes((v % 0x1_0000_0000) as u32)
}

/// The `u64` that the first eight bytes of `b` spell.
#[verifier::opaque]
pub open spec fn u64_value(b: Seq<u8>) -> u64
    recommends
        b.len() >= 8,
{
    (u32_value(b) as int * 0x1_0000_0000 + u32_value(b.skip(4)) as int) as u64
}

/// An `i64` as the `u64` with the same two's-complement bit pattern.
pub open spec fn i64_bits(v: i64) -> u64 {
    if v >= 0 {
        v as u64
    } else {
        (v + 0x1_0000_0000_0000_0000) as u64
    }
}

/// The `i64` whose two's-complement bit pattern is `u`.
pub open spec fn i64_of_bits(u: u64) -> i64 {
    if u < 0x8000_0000_0000_0000 {
        u as i64
    } else {
        (u - 0x1_0000_0000_0000_0000) as i64
    }
}

/// The eight bytes of an `i64` in two's complement, most significant first.
#[verifier::opaque]
pub open spec fn i64_bytes(v: i64) -> Seq<u8> {
    u64_bytes(i64_bits(v))
}

/// The single byte of a flag.
#[verifier::opaque]
pub open spec fn flag_bytes(v: bool) -> Seq<u8> {
    seq![if v { 1u8 } else { 0u8 }]
}

/// Whether a text is short enough for its byte count to fit the length field.
pub open spec fn text_fits(s: Seq<char>) -> bool {
    encode_utf8(s).len() <= u64::MAX
}

/// The bytes of a text: the count of its UTF-8 bytes, then the bytes.
#[verifier::opaque]
pub open spec fn text_bytes(s: Seq<char>) -> Seq<u8> {
    u64_bytes(encode_utf8(s).len() as u64) + encode_utf8(s)
}

/// Takes a `u32` off the front of `b`.
#[verifier::opaque]
pub open spec fn take_u32(b: Seq<u8>) -> Option<(u32, Seq<u8>)> {
    if b.len() >= 4 {
        Some((u32_value(b), b.skip(4)))
    } else {
        None
    }
}

/// Takes a `u64` off the front of `b`.
#[verifier::opaque]
pub open spec fn take_u64(b: Seq<u8>) -> Option<(u64, Seq<u8>)> {
    if b.len() >= 8 {
        Some((u64_value(b), b.skip(8)))
    } else {
        None
    }
}

/// Takes an `i64` off the front of `b`.
#[verifier::opaque]
pub open spec fn take_i64(b: Seq<u8>) -> Option<(i64, Seq<u8>)> {
    match take_u64(b) {
        Some((u, rest)) => Some((i64_of_bits(u), rest)),
        None => None,
    }
}

/// Takes a flag off the front of `b`. Any byte but `0` and `1` is refused.
#[verifier::opaque]
pub open spec fn take_flag(b: Seq<u8>) -> Option<(bool, Seq<u8>)> {
    if b.len() >= 1 && b[0] <= 1 {
        Some((b[0] == 1, b.skip(1)))
    } else {
        None
    }
}

/// Takes a text off the front of `b`. The counted bytes must all be there and
/// must be valid UTF-8.
#[verifier::opaque]
pub open spec fn take_text(b: Seq<u8>) -> Option<(Seq<char>, Seq<u8>)> {
    match take_u64(b) {
        Some((n, rest)) => {
            if n <= rest.len() && valid_utf8(rest.take(n as int)) {
                Some((decode_utf8(rest.take(n as int)), rest.skip(n as int)))
            } else {
                None
            }
        },
        None => None,
    }
}

/// Takes one byte off the front of `b`.
#[verifier::opaque]
pub open spec fn take_byte(b: Seq<u8>) -> Option<(u8, Seq<u8>)> {
    if b.len() >= 1 {
        Some((b[0], b.skip(1)))
    } else {
        None
    }
}

/// Takes the first `n` bytes off the front of `b`.
#[verifier::opaque]
pub open spec fn take_raw(b: Seq<u8>, n: nat) -> Option<(Seq<u8>, Seq<u8>)> {
    if b.len() >= n {
        Some((b.take(n as int), b.skip(n as int)))
    } else {
        None
    }
}

/// A `u32` written and followed by anything is read back, leaving what followed.
pub proof fn lemma_take_u32_of_bytes(v: u32, rest: Seq<u8>)
    ensures
        take_u32(u32_bytes(v) + rest) == Some((v, rest)),
        u32_bytes(v).len() == 4,
{
    reveal(u32_bytes);
    reveal(u32_value);
    reveal(take_u32);
}

/// Four bytes are recovered from the number they spell.
proof fn lemma_u32_digits(b0: u8, b1: u8, b2: u8, b3: u8)
    ensures
        u32_bytes(u32_value(seq![b0, b1, b2, b3])) == seq![b0, b1, b2, b3],
{
    reveal(u32_bytes);
    reveal(u32_value);
    let w: u32 = ((b0 as u32) << 24) | ((b1 as u32) << 16) | ((b2 as u32) << 8) | (b3 as u32);
    assert(b0 as int * 0x100_0000 + b1 as int * 0x1_0000 + b2 as int * 0x100 + b3 as int == w) by {
        assert((((b0 as u32) << 24) | ((b1 as u32) << 16) | ((b2 as u32) << 8) | (b3 as u32)) == (
        b0 as u32) * 0x100_0000 + (b1 as u32) * 0x1_0000 + (b2 as u32) * 0x100 + (b3 as u32))
            by (bit_vector);
    }
    assert({
        &&& w / 0x100_0000 == b0 as u32
        &&& w / 0x1_0000 % 0x100 == b1 as u32
        &&& w / 0x100 % 0x100 == b2 as u32
        &&& w % 0x100 == b3 as u32
    }) by (bit_vector)
        requires
            w == ((b0 as u32) << 24) | ((b1 as u32) << 16) | ((b2 as u32) << 8) | (b3 as u32),
    ;
}

/// What was read as a `u32` is what writing that `u32` gives.
pub proof fn lemma_bytes_of_take_u32(b: Seq<u8>)
    requires
        take_u32(b) is Some,
    ensures
        b == u32_bytes(take_u32(b).unwrap().0) + take_u32(b).unwrap().1,
{
    reveal(u32_value);
    reveal(take_u32);
    lemma_u32_digits(b[0], b[1], b[2], b[3]);
}

/// A `u64` written and followed by anything is read back, leaving what followed.
pub proof fn lemma_take_u64_of_bytes(v: u64, rest: Seq<u8>)
    ensures
        take_u64(u64_bytes(v) + rest) == Some((v, rest)),
        u64_bytes(v).len() == 8,
{
    reveal(u64_bytes);
    reveal(u64_value);
    reveal(take_u64);
    reveal(take_u32);
    let hi = (v / 0x1_0000_0000) as u32;
    let lo = (v % 0x1_0000_0000) as u32;
    let b = u64_bytes(v) + rest;
    lemma_take_u32_of_bytes(hi, u32_bytes(lo) + rest);
    lemma_take_u32_of_bytes(lo, rest);
    assert(b =~= u32_bytes(hi) + (u32_bytes(lo) + rest));
}

/// What was read as a `u64` is what writing that `u64` gives.
pub proof fn lemma_bytes_of_take_u64(b: Seq<u8>)
    requires
        take_u64(b) is Some,
    ensures
        b == u64_bytes(take_u64(b).unwrap().0) + take_u64(b).unwrap().1,
{
    reveal(u64_bytes);
    reveal(u64_value);
    reveal(take_u64);
    reveal(take_u32);
    lemma_bytes_of_take_u32(b);
    lemma_bytes_of_take_u32(b.skip(4));
}

/// The two's-complement bit pattern identifies the `i64`.
pub proof fn lemma_i64_bits_inverse(v: i64, u: u64)
    ensures
        i64_of_bits(i64_bits(v)) == v,
        i64_bits(i64_of_bits(u)) == u,
{
}

/// An `i64` written and followed by anything is read back, leaving what followed.
pub proof fn lemma_take_i64_of_bytes(v: i64, rest: Seq<u8>)
    ensures
        take_i64(i64_bytes(v) + rest) == Some((v, rest)),
        i64_bytes(v).len() == 8,
{
    reveal(i64_bytes);
    reveal(take_i64);
    lemma_take_u64_of_bytes(i64_bits(v), rest);
    lemma_i64_bits_inverse(v, 0);
}

/// What was read as an `i64` is what writing that `i64` gives.
pub proof fn lemma_bytes_of_take_i64(b: Seq<u8>)
    requires
        take_i64(b) is Some,
    ensures
        b == i64_bytes(take_i64(b).unwrap().0) + take_i64(b).unwrap().1,
{
    reveal(i64_bytes);
    reveal(take_i64);
    lemma_bytes_of_take_u64(b);
    lemma_i64_bits_inverse(0, take_u64(b).unwrap().0);
}

/// A flag written and followed by anything is read back, leaving what followed.
pub proof fn lemma_take_flag_of_bytes(v: bool, rest: Seq<u8>)
    ensures
        take_flag(flag_bytes(v) + rest) == Some((v, rest)),
        flag_bytes(v).len() == 1,
{
    reveal(flag_bytes);
    reveal(take_flag);
}

/// What was read as a flag is what writing that flag gives.
pub proof fn lemma_bytes_of_take_flag(b: Seq<u8>)
    requires
        take_flag(b) is Some,
    ensures
        b == flag_bytes(take_flag(b).unwrap().0) + take_flag(b).unwrap().1,
{
    reveal(flag_bytes);
    reveal(take_flag);
}

/// A text written and followed by anything is read back, leaving what followed.
pub proof fn lemma_take_text_of_bytes(s: Seq<char>, rest: Seq<u8>)
    requires
        text_fits(s),
    ensures
        take_text(text_bytes(s) + rest) == Some((s, rest)),
{
    reveal(text_bytes);
    reveal(take_text);
    let body = encode_utf8(s);
    let n = body.len() as u64;
    let b = text_bytes(s) + rest;
    lemma_take_u64_of_bytes(n, body + rest);
    assert(b =~= u64_bytes(n) + (body + rest));
    assert((body + rest).take(n as int) =~= body);
    encode_utf8_valid_utf8(s);
    encode_utf8_decode_utf8(s);
}

/// What was read as a text is what writing that text gives, and the text is
/// short enough to be written.
pub proof fn lemma_bytes_of_take_text(b: Seq<u8>)
    requires
        take_text(b) is Some,
    ensures
        b == text_bytes(take_text(b).unwrap().0) + take_text(b).unwrap().1,
        text_fits(take_text(b).unwrap().0),
{
    reveal(text_bytes);
    reveal(take_text);
    let (n, after) = take_u64(b).unwrap();
    let body = after.take(n as int);
    lemma_bytes_of_take_u64(b);
    decode_utf8_encode_utf8(body);
}

/// A byte followed by anything is read back, leaving what followed.
pub proof fn lemma_take_byte_of_bytes(v: u8, rest: Seq<u8>)
    ensures
        take_byte(seq![v] + rest) == Some((v, rest)),
{
    reveal(take_byte);
}

/// What was read as a byte is that byte, then the rest.
pub proof fn lemma_bytes_of_take_byte(b: Seq<u8>)
    requires
        take_byte(b) is Some,
    ensures
        b == seq![take_byte(b).unwrap().0] + take_byte(b).unwrap().1,
{
    reveal(take_byte);
}

/// Bytes followed by anything are read back, leaving what followed.
pub proof fn lemma_take_raw_of_bytes(v: Seq<u8>, rest: Seq<u8>)
    ensures
        take_raw(v + rest, v.len()) == Some((v, rest)),
{
    reveal(take_raw);
}

/// What was read as `n` bytes is those bytes, then the rest.
pub proof fn lemma_bytes_of_take_raw(b: Seq<u8>, n: nat)
    requires
        take_raw(b, n) is Some,
    ensures
        b == take_raw(b, n).unwrap().0 + take_raw(b, n).unwrap().1,
        take_raw(b, n).unwrap().0.len() == n,
{
    reveal(take_raw);
}

/// What was read off the front of some bytes is read off the front of the
/// same bytes with more behind them, and the more is left behind it.
pub proof fn lemma_take_is_stable(b: Seq<u8>, more: Seq<u8>)
    ensures
        take_u32(b) matches Some((v, rest)) ==> take_u32(b + more) == Some((v, rest + more)),
        take_u64(b) matches Some((v, rest)) ==> take_u64(b + more) == Some((v, rest + more)),
        take_byte(b) matches Some((v, rest)) ==> take_byte(b + more) == Some((v, rest + more)),
{
    if take_u32(b) is Some {
        let (v, rest) = take_u32(b).unwrap();
        lemma_bytes_of_take_u32(b);
        lemma_take_u32_of_bytes(v, rest + more);
        assert(b + more =~= u32_bytes(v) + (rest + more));
    }
    if take_u64(b) is Some {
        let (v, rest) = take_u64(b).unwrap();
        lemma_bytes_of_take_u64(b);
        lemma_take_u64_of_bytes(v, rest + more);
        assert(b + more =~= u64_bytes(v) + (rest + more));
    }
    if take_byte(b) is Some {
        let (v, rest) = take_byte(b).unwrap();
        lemma_bytes_of_take_byte(b);
        lemma_take_byte_of_bytes(v, rest + more);
        assert(b + more =~= seq![v] + (rest + more));
    }
}

/// Appends the bytes of `v` to `out`.
pub fn put_u32(out: &mut Vec<u8>, v: u32)
    ensures
        final(out)@ == old(out)@ + u32_bytes(v),
{
    proof {
        reveal(u32_bytes);
    }
    out.push((v / 0x100_0000) as u8);
    out.push((v / 0x1_0000 % 0x100) as u8);
    out.push((v / 0x100 % 0x100) as u8);
    out.push((v % 0x100) as u8);
}

/// Appends the bytes of `v` to `out`.
pub fn put_u64(out: &mut Vec<u8>, v: u64)
    ensures
        final(out)@ == old(out)@ + u64_bytes(v),
{
    proof {
        reveal(u64_bytes);
    }
    put_u32(out, (v / 0x1_0000_0000) as u32);
    put_u32(out, (v % 0x1_0000_0000) as u32);
}

/// Appends the bytes of `v` to `out`.
pub fn put_i64(out: &mut Vec<u8>, v: i64)
    ensures
        final(out)@ == old(out)@ + i64_bytes(v),
{
    proof {
        reveal(i64_bytes);
    }
    let bits: u64 = if v >= 0 {
        v as u64
    } else {
        ((v - i64::MIN) as u64) + 0x8000_0000_0000_0000u64
    };
    put_u64(out, bits);
}

/// Appends the byte of `v` to `out`.
pub fn put_flag(out: &mut Vec<u8>, v: bool)
    ensures
        final(out)@ == old(out)@ + flag_bytes(v),
{
    proof {
        reveal(flag_bytes);
    }
    out.push(if v { 1u8 } else { 0u8 });
}

/// Appends a copy of `src` to `out`.
pub fn put_raw(out: &mut Vec<u8>, src: &[u8])
    ensures
        final(out)@ == old(out)@ + src@,
{
    let mut copy = slice_to_vec(src);
    out.append(&mut copy);
}

/// Appends the bytes of the text `s` to `out`.
pub fn put_text(out: &mut Vec<u8>, s: &str)
    ensures
        final(out)@ == old(out)@ + text_bytes(s@),
        text_fits(s@),
{
    proof {
        reveal(text_bytes);
    }
    let body = s.as_bytes();
    put_u64(out, body.len() as u64);
    put_raw(out, body);
}

/// `String::from_utf8`, with its error dropped. A string comes back exactly
/// when the bytes are valid UTF-8, and its UTF-8 bytes are then the bytes
/// given.
#[verifier::external_body]
fn string_from_utf8(bytes: Vec<u8>) -> (r: Option<String>)
    ensures
        r is Some <==> valid_utf8(bytes@),
        r matches Some(s) ==> encode_utf8(s@) == bytes@,
{
    String::from_utf8(bytes).ok()
}

/// The `u32` spelled by the four bytes of `bytes` that start at `pos`.
fn u32_at(bytes: &[u8], pos: usize) -> (v: u32)
    requires
        pos + 4 <= bytes@.len(),
    ensures
        v == u32_value(bytes@.skip(pos as int)),
{
    proof {
        reveal(u32_value);
    }
    let b0 = bytes[pos] as u32;
    let b1 = bytes[pos + 1] as u32;
    let b2 = bytes[pos + 2] as u32;
    let b3 = bytes[pos + 3] as u32;
    b0 * 0x100_0000 + b1 * 0x1_0000 + b2 * 0x100 + b3
}

/// The `u64` spelled by the eight bytes of `bytes` that start at `pos`.
fn u64_at(bytes: &[u8], pos: usize) -> (v: u64)
    requires
        pos + 8 <= bytes@.len(),
    ensures
        v == u64_value(bytes@.skip(pos as int)),
{
    proof {
        reveal(u64_value);
    }
    let _ = bytes.len();
    let hi = u32_at(bytes, pos) as u64;
    let lo = u32_at(bytes, pos + 4) as u64;
    assert(bytes@.skip(pos as int).skip(4) =~= bytes@.skip(pos + 4));
    hi * 0x1_0000_0000 + lo
}

/// A position in a byte slice, from which values are taken one after another.
pub struct Reader<'a> {
    bytes: &'a [u8],
    pos: usize,
}

impl<'a> Reader<'a> {
    #[verifier::type_invariant]
    spec fn inv(self) -> bool {
        self.pos <= self.bytes@.len()
    }

    /// The bytes that have not been taken yet.
    pub closed spec fn remaining(self) -> Seq<u8> {
        self.bytes@.skip(self.pos as int)
    }

    /// A reader at the start of `bytes`.
    pub fn new(bytes: &'a [u8]) -> (r: Self)
        ensures
            r.remaining() == bytes@,
    {
        let r = Reader { bytes, pos: 0 };
        r
    }

    /// How many bytes have not been taken yet.
    pub fn left(&self) -> (n: usize)
        ensures
            n == self.remaining().len(),
    {
        proof {
            use_type_invariant(self);
        }
        self.bytes.len() - self.pos
    }

    /// Whether everything has been taken.
    pub fn at_end(&self) -> (b: bool)
        ensures
            b == (self.remaining().len() == 0),
    {
        self.left() == 0
    }

    /// Takes one byte. On failure nothing is taken.
    pub fn byte(&mut self) -> (r: Option<u8>)
        ensures
            r matches Some(v) ==> take_byte(old(self).remaining()) == Some(
                (v, final(self).remaining()),
            ),
            r is None ==> take_byte(old(self).remaining()) is None,
            r is None ==> final(self).remaining() == old(self).remaining(),
    {
        proof {
            reveal(take_byte);
            use_type_invariant(&*self);
        }
        if self.bytes.len() - self.pos < 1 {
            return None;
        }
        let b = self.bytes[self.pos];
        self.pos = self.pos + 1;
        Some(b)
    }

    /// Takes the next `n` bytes. On failure nothing is taken.
    pub fn raw(&mut self, n: usize) -> (r: Option<Vec<u8>>)
        ensures
            r matches Some(got) ==> take_raw(old(self).remaining(), n as nat) == Some(
                (got@, final(self).remaining()),
            ),
            r is None ==> take_raw(old(self).remaining(), n as nat) is None,
            r is None ==> final(self).remaining() == old(self).remaining(),
    {
        proof {
            reveal(take_raw);
            use_type_invariant(&*self);
        }
        if self.bytes.len() - self.pos < n {
            return None;
        }
        let to = self.pos + n;
        let got = slice_to_vec(slice_subrange(self.bytes, self.pos, to));
        self.pos = to;
        Some(got)
    }

    /// Takes a `u32`. On failure nothing is taken.
    pub fn u32(&mut self) -> (r: Option<u32>)
        ensures
            r matches Some(v) ==> take_u32(old(self).remaining()) == Some(
                (v, final(self).remaining()),
            ),
            r is None ==> take_u32(old(self).remaining()) is None,
            r is None ==> final(self).remaining() == old(self).remaining(),
    {
        proof {
            reveal(take_u32);
        }
        proof {
            use_type_invariant(&*self);
        }
        if self.bytes.len() - self.pos < 4 {
            return None;
        }
        let v = u32_at(self.bytes, self.pos);
        self.pos = self.pos + 4;
        Some(v)
    }

    /// Takes a `u64`. On failure nothing is taken.
    pub fn u64(&mut self) -> (r: Option<u64>)
        ensures
            r matches Some(v) ==> take_u64(old(self).remaining()) == Some(
                (v, final(self).remaining()),
            ),
            r is None ==> take_u64(old(self).remaining()) is None,
            r is None ==> final(self).remaining() == old(self).remaining(),
    {
        proof {
            reveal(take_u64);
        }
        proof {
            use_type_invariant(&*self);
        }
        if self.bytes.len() - self.pos < 8 {
            return None;
        }
        let v = u64_at(self.bytes, self.pos);
        self.pos = self.pos + 8;
        Some(v)
    }

    /// Takes an `i64`. On failure nothing is taken.
    pub fn i64(&mut self) -> (r: Option<i64>)
        ensures
            r matches Some(v) ==> take_i64(old(self).remaining()) == Some(
                (v, final(self).remaining()),
            ),
            r is None ==> take_i64(old(self).remaining()) is None,
            r is None ==> final(self).remaining() == old(self).remaining(),
    {
        proof {
            reveal(take_i64);
        }
        match self.u64() {
            Some(u) => {
                if u < 0x8000_0000_0000_0000u64 {
                    Some(u as i64)
                } else {
                    Some(((u - 0x8000_0000_0000_0000u64) as i64) + i64::MIN)
                }
            },
            None => None,
        }
    }

    /// Takes a flag. On failure nothing is taken.
    pub fn flag(&mut self) -> (r: Option<bool>)
        ensures
            r matches Some(v) ==> take_flag(old(self).remaining()) == Some(
                (v, final(self).remaining()),
            ),
            r is None ==> take_flag(old(self).remaining()) is None,
            r is None ==> final(self).remaining() == old(self).remaining(),
    {
        proof {
            reveal(take_flag);
        }
        proof {
            use_type_invariant(&*self);
        }
        if self.bytes.len() - self.pos < 1 {
            return None;
        }
        let b = self.bytes[self.pos];
        if b > 1 {
            return None;
        }
        self.pos = self.pos + 1;
        Some(b == 1)
    }

    /// Takes a text. On failure nothing is taken.
    pub fn text(&mut self) -> (r: Option<String>)
        ensures
            r matches Some(s) ==> take_text(old(self).remaining()) == Some(
                (s@, final(self).remaining()),
            ),
            r is None ==> take_text(old(self).remaining()) is None,
            r is None ==> final(self).remaining() == old(self).remaining(),
    {
        proof {
            reveal(take_text);
            reveal(take_u64);
        }
        proof {
            use_type_invariant(&*self);
        }
        let left = self.bytes.len() - self.pos;
        if left < 8 {
            return None;
        }
        let n = u64_at(self.bytes, self.pos);
        if n > (left - 8) as u64 {
            return None;
        }
        let from = self.pos + 8;
        let to = from + n as usize;
        let body = slice_to_vec(slice_subrange(self.bytes, from, to));
        assert(body@ =~= old(self).remaining().skip(8).take(n as int));
        match string_from_utf8(body) {
            Some(s) => {
                self.pos = to;
                proof {
                    encode_utf8_decode_utf8(s@);
                }
                Some(s)
            },
            None => None,
        }
    }
}

} // verus!
