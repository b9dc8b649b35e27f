//! The Minecraft wire format used on the first packets of a connection:
//! VarInts, length-prefixed strings, framing, and the handshake, status,
//! ping and login packets that the proxy reads and writes itself.
use vstd::prelude::*;
use vstd::string::*;
use vstd::slice::*;
use vstd::utf8::*;

use crate::text::{
    find_char, first_index_of, lemma_first_index_absent, lemma_first_index_of, lemma_first_index_past,
};

pub mod error;
pub mod packet_io;
pub mod protocol;
pub mod types;

use crate::minecraft::protocol::lemma_varint_i32_roundtrip;

verus! {

pub const MAX_HANDSHAKE_PACKET_SIZE: usize = 4096;

pub const MAX_STATUS_PACKET_SIZE: usize = 1024;

pub const MAX_LOGIN_PACKET_SIZE: usize = 1024;

pub const MAX_HOSTNAME_LEN: usize = 255;

pub const MAX_PLAYER_NAME_LEN: usize = 16;

pub const INTENT_STATUS: i32 = 1;

pub const INTENT_LOGIN: i32 = 2;

pub const INTENT_TRANSFER: i32 = 3;

/// Errors of the wire format.
#[derive(Debug, Clone, Copy, PartialEq, Eq, Structural)]
pub enum ProtocolError {
    /// The input ended before a complete value was read.
    UnexpectedEof,
    /// A string's bytes are not valid UTF-8.
    InvalidUtf8,
    PacketTooLarge(usize),
    InvalidPacketLength(i32),
    InvalidPacketId(i32),
    InvalidProtocolVersion(i32),
    InvalidNextState(i32),
    InvalidStringLength(i32),
    StringTooLong(usize),
    NegativeVarInt(i32),
    VarIntTooLong,
    TrailingBytes,
}

/// A read position over a byte slice.
pub struct ByteCursor<'a> {
    pub data: &'a [u8],
    pub pos: usize,
}

impl<'a> ByteCursor<'a> {
    /// The bytes that have not been read yet.
    pub open spec fn rest(&self) -> Seq<u8> {
        if self.pos <= self.data@.len() {
            self.data@.subrange(self.pos as int, self.data@.len() as int)
        } else {
            Seq::empty()
        }
    }

    pub fn new(data: &'a [u8]) -> (c: Self)
        ensures
            c.data@ == data@,
            c.pos == 0,
            c.rest() == data@,
    {
        let c = ByteCursor { data, pos: 0 };
        assert(c.rest() =~= data@);
        c
    }

    pub fn position(&self) -> (p: usize)
        ensures
            p == self.pos,
    {
        self.pos
    }

    /// Bytes left to read.
    pub fn remaining(&self) -> (n: usize)
        ensures
            n == self.rest().len(),
    {
        if self.pos <= self.data.len() {
            self.data.len() - self.pos
        } else {
            0
        }
    }

    /// Takes the next byte; the caller knows one is there.
    pub fn take_byte(&mut self) -> (b: u8)
        requires
            old(self).rest().len() >= 1,
        ensures
            b == old(self).rest()[0],
            final(self).data == old(self).data,
            final(self).pos == old(self).pos + 1,
            final(self).rest() == old(self).rest().skip(1),
    {
        let b = self.data[self.pos];
        self.pos = self.pos + 1;
        assert(self.rest() =~= old(self).rest().skip(1));
        b
    }
}

/// `128` to the power `i`, for the five byte positions of a VarInt.
pub open spec fn pow128(i: int) -> int {
    if i <= 0 {
        1
    } else if i == 1 {
        128
    } else if i == 2 {
        16384
    } else if i == 3 {
        2097152
    } else if i == 4 {
        268435456
    } else {
        34359738368
    }
}

/// The `i32` whose two's complement bits are the low 32 bits of `x`.
pub open spec fn wrap_i32(x: int) -> i32 {
    let r = x % 0x1_0000_0000;
    if r >= 0x8000_0000 {
        (r - 0x1_0000_0000) as i32
    } else {
        r as i32
    }
}

/// Reads a VarInt from `s` starting at byte `i`, with `acc` the value of the
/// bytes before it: the value and the number of bytes it took, or why not.
pub open spec fn varint_scan(s: Seq<u8>, i: nat, acc: int) -> Result<(i32, nat), ProtocolError>
    decreases 5 - i,
{
    if i >= 5 {
        Err(ProtocolError::VarIntTooLong)
    } else if i >= s.len() {
        Err(ProtocolError::UnexpectedEof)
    } else {
        let acc2 = acc + (s[i as int] % 128) * pow128(i as int);
        if s[i as int] < 128 {
            Ok((wrap_i32(acc2), i + 1))
        } else {
            varint_scan(s, i + 1, acc2)
        }
    }
}

/// The VarInt at the start of `s`: its value and length in bytes.
pub open spec fn spec_read_varint(s: Seq<u8>) -> Result<(i32, nat), ProtocolError> {
    varint_scan(s, 0, 0)
}

/// The VarInt encoding of a non-negative value: seven bits a byte, least
/// significant first, the high bit set on every byte but the last.
pub open spec fn spec_varint_bytes(v: nat) -> Seq<u8>
    decreases v,
{
    if v < 128 {
        seq![v as u8]
    } else {
        seq![(v % 128 + 128) as u8] + spec_varint_bytes(v / 128)
    }
}


/// The low 32 bits of `x`, read as a two's complement `i32`.
fn low_bits_i32(x: u64) -> (v: i32)
    ensures
        v == wrap_i32(x as int),
{
    let r = x % 0x1_0000_0000;
    if r >= 0x8000_0000 {
        let d: i64 = (r as i64) - 0x1_0000_0000i64;
        d as i32
    } else {
        r as i32
    }
}

/// Reads a VarInt; on success the cursor moves past it, on failure it
/// stays where it was.
pub fn read_varint_with_len(cursor: &mut ByteCursor) -> (res: Result<(i32, usize), ProtocolError>)
    ensures
        final(cursor).data == old(cursor).data,
        match spec_read_varint(old(cursor).rest()) {
            Ok((v, n)) => {
                &&& res == Ok::<(i32, usize), ProtocolError>((v, n as usize))
                &&& final(cursor).pos == old(cursor).pos + n
                &&& final(cursor).rest() == old(cursor).rest().skip(n as int)
            },
            Err(e) => {
                &&& res == Err::<(i32, usize), ProtocolError>(e)
                &&& final(cursor).pos == old(cursor).pos
            },
        },
{
    let ghost s = cursor.rest();
    let rest_len = cursor.remaining();
    let start = cursor.pos;
    let mut acc: u64 = 0;
    let mut mult: u64 = 1;
    let mut i: usize = 0;
    while i < 5
        invariant
            i <= 5,
            cursor.data == old(cursor).data,
            cursor.pos == old(cursor).pos,
            s == old(cursor).rest(),
            s == cursor.rest(),
            rest_len == s.len(),
            start == cursor.pos,
            rest_len > 0 ==> start + rest_len == cursor.data@.len(),
            mult == pow128(i as int),
            acc < pow128(i as int),
            spec_read_varint(s) == varint_scan(s, i as nat, acc as int),
        decreases 5 - i,
    {
        if i >= rest_len {
            return Err(ProtocolError::UnexpectedEof);
        }
        assert(cursor.data.len() == cursor.data@.len());
        let b = cursor.data[start + i];
        assert(b == s[i as int]);
        let low = (b % 128) as u64;
        assert(low * mult <= 127 * 268435456) by (nonlinear_arith)
            requires
                low < 128,
                mult <= 268435456,
        ;
        let acc2 = acc + low * mult;
        assert(acc2 < pow128(i as int) * 128) by (nonlinear_arith)
            requires
                acc < pow128(i as int),
                low < 128,
                mult == pow128(i as int),
                acc2 == acc + low * mult,
        ;
        if b < 128 {
            let v = low_bits_i32(acc2);
            cursor.pos = start + i + 1;
            assert(cursor.rest() =~= s.skip(i + 1));
            return Ok((v, i + 1));
        }
        acc = acc2;
        mult = mult * 128;
        i = i + 1;
    }
    Err(ProtocolError::VarIntTooLong)
}

/// Reads a VarInt; see `read_varint_with_len`.
pub fn read_varint(cursor: &mut ByteCursor) -> (res: Result<i32, ProtocolError>)
    ensures
        final(cursor).data == old(cursor).data,
        match spec_read_varint(old(cursor).rest()) {
            Ok((v, n)) => {
                &&& res == Ok::<i32, ProtocolError>(v)
                &&& final(cursor).pos == old(cursor).pos + n
                &&& final(cursor).rest() == old(cursor).rest().skip(n as int)
            },
            Err(e) => {
                &&& res == Err::<i32, ProtocolError>(e)
                &&& final(cursor).pos == old(cursor).pos
            },
        },
{
    match read_varint_with_len(cursor) {
        Ok((v, _)) => Ok(v),
        Err(e) => Err(e),
    }
}


/// The VarInt encoding of `w` takes at most `k` bytes when `w < 128^k`.
proof fn lemma_varint_bytes_len(w: nat, k: int)
    requires
        1 <= k <= 5,
        w < pow128(k),
    ensures
        1 <= spec_varint_bytes(w).len() <= k,
    decreases w,
{
    if w >= 128 {
        assert(w / 128 < pow128(k - 1));
        lemma_varint_bytes_len(w / 128, k - 1);
    }
}

/// Scanning an encoded VarInt placed at byte `i` adds its value, scaled to
/// position `i`, to what the earlier bytes gave.
proof fn lemma_scan_encoded(s: Seq<u8>, i: nat, acc: int, w: nat)
    requires
        i + spec_varint_bytes(w).len() <= 5,
        i + spec_varint_bytes(w).len() <= s.len(),
        s.subrange(i as int, (i + spec_varint_bytes(w).len()) as int) == spec_varint_bytes(w),
    ensures
        varint_scan(s, i, acc) == Ok::<(i32, nat), ProtocolError>(
            (wrap_i32(acc + w * pow128(i as int)), i + spec_varint_bytes(w).len()),
        ),
    decreases w,
{
    let e = spec_varint_bytes(w);
    let ii = i as int;
    let n = e.len() as int;
    assert(s[ii] == s.subrange(ii, ii + n)[0]);
    if w < 128 {
        assert(w % 128 == w);
    } else {
        let t = spec_varint_bytes(w / 128);
        let m = t.len() as int;
        assert(e == seq![(w % 128 + 128) as u8] + t);
        assert(s.subrange(ii + 1, ii + 1 + m) =~= t) by {
            assert forall|j: int| 0 <= j < m implies s.subrange(ii + 1, ii + 1 + m)[j] == t[j] by {
                assert(s[ii + 1 + j] == s.subrange(ii, ii + n)[1 + j]);
            }
        }
        let acc2 = acc + (s[ii] % 128) * pow128(ii);
        assert(s[ii] % 128 == w % 128);
        lemma_scan_encoded(s, i + 1, acc2, w / 128);
        assert(pow128(ii + 1) == 128 * pow128(ii));
        let p = pow128(ii);
        assert(acc2 + (w / 128) * pow128(ii + 1) == acc + w * p) by (nonlinear_arith)
            requires
                acc2 == acc + (w % 128) * p,
                pow128(ii + 1) == 128 * p,
                w == 128 * (w / 128) + w % 128,
        ;
    }
}

/// A VarInt takes between one and five bytes of its input.
pub proof fn lemma_read_varint_len(s: Seq<u8>)
    ensures
        spec_read_varint(s) matches Ok((_, n)) ==> 1 <= n <= 5 && n <= s.len(),
{
    lemma_scan_len(s, 0, 0);
}

proof fn lemma_scan_len(s: Seq<u8>, i: nat, acc: int)
    ensures
        varint_scan(s, i, acc) matches Ok((_, n)) ==> i < n <= 5 && n <= s.len(),
    decreases 5 - i,
{
    if i < 5 && i < s.len() {
        let acc2 = acc + (s[i as int] % 128) * pow128(i as int);
        lemma_scan_len(s, i + 1, acc2);
    }
}

/// Reading back what `write_varint` wrote gives the value and its length.
pub proof fn lemma_varint_roundtrip(v: nat, rest: Seq<u8>)
    requires
        v <= i32::MAX,
    ensures
        1 <= spec_varint_bytes(v).len() <= 5,
        spec_read_varint(spec_varint_bytes(v) + rest) == Ok::<(i32, nat), ProtocolError>(
            (v as i32, spec_varint_bytes(v).len()),
        ),
{
    lemma_varint_bytes_len(v, 5);
    let e = spec_varint_bytes(v);
    let s = e + rest;
    assert(s.subrange(0, e.len() as int) =~= e);
    assert(e.len() + 0 == e.len());
    lemma_scan_encoded(s, 0, 0, v);
}

/// Appends the VarInt encoding of `value`; negative values are refused and
/// leave the buffer as it was.
pub fn write_varint(buffer: &mut Vec<u8>, value: i32) -> (res: Result<(), ProtocolError>)
    ensures
        value < 0 ==> res == Err::<(), ProtocolError>(ProtocolError::NegativeVarInt(value))
            && final(buffer)@ == old(buffer)@,
        value >= 0 ==> res == Ok::<(), ProtocolError>(())
            && final(buffer)@ == old(buffer)@ + spec_varint_bytes(value as nat),
{
    if value < 0 {
        return Err(ProtocolError::NegativeVarInt(value));
    }
    let mut v: u32 = value as u32;
    loop
        invariant
            value >= 0,
            old(buffer)@ + spec_varint_bytes(value as nat) == buffer@ + spec_varint_bytes(v as nat),
        decreases v,
    {
        let ghost prev = buffer@;
        let ghost ev = spec_varint_bytes(v as nat);
        let low = (v % 128) as u8;
        let next = v / 128;
        if next != 0 {
            let byte = low + 128;
            buffer.push(byte);
            assert(ev == seq![byte] + spec_varint_bytes(next as nat));
            assert(buffer@ + spec_varint_bytes(next as nat) =~= prev + ev);
            v = next;
        } else {
            buffer.push(low);
            assert(ev == seq![low]);
            assert(buffer@ =~= prev + ev);
            return Ok(());
        }
    }
}


/// The VarInt encoding of the 32 bits of `value`: a negative value takes
/// five bytes.
pub open spec fn spec_varint_i32(value: i32) -> Seq<u8> {
    spec_varint_bytes((value as u32) as nat)
}

/// Appends the VarInt encoding of the 32 bits of `value`.
pub fn write_varint_bits(buffer: &mut Vec<u8>, value: i32)
    ensures
        final(buffer)@ == old(buffer)@ + spec_varint_i32(value),
{
    let mut v: u32 = value as u32;
    loop
        invariant
            old(buffer)@ + spec_varint_i32(value) == buffer@ + spec_varint_bytes(v as nat),
        decreases v,
    {
        let ghost prev = buffer@;
        let ghost ev = spec_varint_bytes(v as nat);
        let low = (v % 128) as u8;
        let next = v / 128;
        if next != 0 {
            let byte = low + 128;
            buffer.push(byte);
            assert(ev == seq![byte] + spec_varint_bytes(next as nat));
            assert(buffer@ + spec_varint_bytes(next as nat) =~= prev + ev);
            v = next;
        } else {
            buffer.push(low);
            assert(ev == seq![low]);
            assert(buffer@ =~= prev + ev);
            return;
        }
    }
}

/// The number of bytes the VarInt encoding of `value` takes.
pub fn varint_len(value: i32) -> (n: usize)
    ensures
        n == spec_varint_i32(value).len(),
        1 <= n <= 5,
{
    let mut v: u32 = value as u32;
    let mut n: usize = 1;
    proof {
        lemma_varint_bytes_len(v as nat, 5);
    }
    while v >= 128
        invariant
            1 <= n <= 5,
            n + spec_varint_bytes(v as nat).len() == spec_varint_i32(value).len() + 1,
            spec_varint_bytes(v as nat).len() <= 6 - n,
        decreases v,
    {
        assert(spec_varint_bytes(v as nat) == seq![(v % 128 + 128) as u8] + spec_varint_bytes(
            (v / 128) as nat,
        ));
        v = v / 128;
        n = n + 1;
    }
    n
}

/// Appends `bytes` to `buffer`.
pub fn extend_bytes(buffer: &mut Vec<u8>, bytes: &[u8])
    ensures
        final(buffer)@ == old(buffer)@ + bytes@,
{
    let mut i: usize = 0;
    while i < bytes.len()
        invariant
            i <= bytes@.len(),
            buffer@ == old(buffer)@ + bytes@.subrange(0, i as int),
        decreases bytes@.len() - i,
    {
        buffer.push(bytes[i]);
        assert(bytes@.subrange(0, i + 1) =~= bytes@.subrange(0, i as int).push(bytes@[i as int]));
        i = i + 1;
    }
    assert(bytes@.subrange(0, i as int) =~= bytes@);
}

/// `String::from_utf8`: it succeeds exactly on valid UTF-8, and then the
/// string holds the characters that the bytes encode.
#[verifier::external_body]
pub(crate) fn string_from_utf8(bytes: Vec<u8>) -> (res: Option<String>)
    ensures
        res is Some <==> valid_utf8(bytes@),
        res matches Some(text) ==> text@ == decode_utf8(bytes@),
{
    String::from_utf8(bytes).ok()
}

/// A big-endian `u16` at the start of `s`, and its length.
pub open spec fn spec_read_u16(s: Seq<u8>) -> Result<(u16, nat), ProtocolError> {
    if s.len() < 2 {
        Err(ProtocolError::UnexpectedEof)
    } else {
        Ok(((s[0] * 256 + s[1]) as u16, 2))
    }
}

/// The two big-endian bytes of `v`.
pub open spec fn spec_u16_bytes(v: u16) -> Seq<u8> {
    seq![(v / 256) as u8, (v % 256) as u8]
}

/// Reads a big-endian `u16`; on failure the cursor stays where it was.
pub fn read_u16(cursor: &mut ByteCursor) -> (res: Result<u16, ProtocolError>)
    ensures
        final(cursor).data == old(cursor).data,
        match spec_read_u16(old(cursor).rest()) {
            Ok((v, n)) => {
                &&& res == Ok::<u16, ProtocolError>(v)
                &&& final(cursor).pos == old(cursor).pos + n
                &&& final(cursor).rest() == old(cursor).rest().skip(n as int)
            },
            Err(e) => {
                &&& res == Err::<u16, ProtocolError>(e)
                &&& final(cursor).pos == old(cursor).pos
            },
        },
{
    if cursor.remaining() < 2 {
        return Err(ProtocolError::UnexpectedEof);
    }
    let hi = cursor.take_byte();
    let lo = cursor.take_byte();
    assert(old(cursor).rest().skip(1).skip(1) =~= old(cursor).rest().skip(2));
    Ok((hi as u16) * 256 + (lo as u16))
}

/// A length-prefixed UTF-8 string at the start of `s`, at most `max_len`
/// bytes long: its characters and the bytes it took, or why not.
pub open spec fn spec_read_string(s: Seq<u8>, max_len: nat) -> Result<(Seq<char>, nat), ProtocolError> {
    match spec_read_varint(s) {
        Err(e) => Err(e),
        Ok((len, n)) => {
            if len < 0 {
                Err(ProtocolError::InvalidStringLength(len))
            } else if len > max_len {
                Err(ProtocolError::StringTooLong(len as usize))
            } else if s.len() < n + len {
                Err(ProtocolError::UnexpectedEof)
            } else {
                let b = s.subrange(n as int, n + len);
                if valid_utf8(b) {
                    Ok((decode_utf8(b), (n + len) as nat))
                } else {
                    Err(ProtocolError::InvalidUtf8)
                }
            }
        },
    }
}

/// Reads a length-prefixed UTF-8 string of at most `max_len` bytes; on
/// failure the cursor stays where it was.
pub fn read_string(cursor: &mut ByteCursor, max_len: usize) -> (res: Result<String, ProtocolError>)
    ensures
        final(cursor).data == old(cursor).data,
        match spec_read_string(old(cursor).rest(), max_len as nat) {
            Ok((text, n)) => {
                &&& res matches Ok(r) && r@ == text
                &&& final(cursor).pos == old(cursor).pos + n
                &&& final(cursor).rest() == old(cursor).rest().skip(n as int)
            },
            Err(e) => {
                &&& res matches Err(r) && r == e
                &&& final(cursor).pos == old(cursor).pos
            },
        },
{
    let ghost s = cursor.rest();
    let start = cursor.pos;
    let len = match read_varint(cursor) {
        Ok(len) => len,
        Err(e) => return Err(e),
    };
    let ghost n = (cursor.pos - start) as nat;
    proof {
        lemma_read_varint_len(s);
    }
    if len < 0 {
        cursor.pos = start;
        return Err(ProtocolError::InvalidStringLength(len));
    }
    let len = len as usize;
    if len > max_len {
        cursor.pos = start;
        return Err(ProtocolError::StringTooLong(len));
    }
    if cursor.remaining() < len {
        cursor.pos = start;
        return Err(ProtocolError::UnexpectedEof);
    }
    let from = cursor.pos;
    assert(cursor.data.len() == cursor.data@.len());
    let bytes = slice_to_vec(slice_subrange(cursor.data, from, from + len));
    assert(bytes@ =~= s.subrange(n as int, n + len));
    match string_from_utf8(bytes) {
        Some(text) => {
            cursor.pos = from + len;
            assert(cursor.rest() =~= s.skip(n + len));
            Ok(text)
        },
        None => {
            cursor.pos = start;
            Err(ProtocolError::InvalidUtf8)
        },
    }
}

/// The length-prefixed encoding of a string whose UTF-8 bytes are `b`.
pub open spec fn spec_string_bytes(b: Seq<u8>) -> Seq<u8> {
    spec_varint_bytes(b.len()) + b
}

/// Appends `value` as a length-prefixed string; values longer than
/// `MAX_HOSTNAME_LEN` bytes are refused and leave the buffer as it was.
pub fn write_string(buffer: &mut Vec<u8>, value: &str) -> (res: Result<(), ProtocolError>)
    ensures
        value.spec_bytes().len() > MAX_HOSTNAME_LEN ==> res == Err::<(), ProtocolError>(
            ProtocolError::StringTooLong(value.spec_bytes().len() as usize),
        ) && final(buffer)@ == old(buffer)@,
        value.spec_bytes().len() <= MAX_HOSTNAME_LEN ==> res == Ok::<(), ProtocolError>(())
            && final(buffer)@ == old(buffer)@ + spec_string_bytes(value.spec_bytes()),
{
    let bytes = value.as_bytes();
    let len = bytes.len();
    if len > MAX_HOSTNAME_LEN {
        return Err(ProtocolError::StringTooLong(len));
    }
    let r = write_varint(buffer, len as i32);
    assert(r is Ok);
    extend_bytes(buffer, bytes);
    assert(buffer@ =~= old(buffer)@ + spec_string_bytes(value.spec_bytes()));
    Ok(())
}


/// The host part of a handshake address replaced by `new_host`: whatever
/// follows the first NUL (a Forge marker such as `FML`) is kept after it.
pub open spec fn spec_rewrite_host(address: Seq<char>, new_host: Seq<char>) -> Seq<char> {
    match first_index_of(address, '\0', 0) {
        Some(k) => new_host + seq!['\0'] + address.skip(k + 1 as int),
        None => new_host,
    }
}

/// Rewriting an address twice is rewriting it once with the second host:
/// whatever followed the first NUL survives both.
pub proof fn lemma_rewrite_host_twice(address: Seq<char>, first: Seq<char>, second: Seq<char>)
    requires
        first_index_of(first, '\0', 0) is None,
    ensures
        spec_rewrite_host(spec_rewrite_host(address, first), second) == spec_rewrite_host(
            address,
            second,
        ),
{
    match first_index_of(address, '\0', 0) {
        Some(k) => {
            let once = first + seq!['\0'] + address.skip(k + 1 as int);
            assert forall|j: int| 0 <= j < first.len() implies once[j] != '\0' by {
                lemma_first_index_absent(first, '\0', 0, j);
            }
            lemma_first_index_past(once, '\0', 0, first.len());
            assert(once[first.len() as int] == '\0');
            assert(first_index_of(once, '\0', first.len()) == Some(first.len()));
            assert(once.skip((first.len() + 1) as int) =~= address.skip(k + 1 as int));
        },
        None => {
            assert forall|j: int| 0 <= j < first.len() implies first[j] != '\0' by {
                lemma_first_index_absent(first, '\0', 0, j);
            }
        },
    }
}

/// Replaces the host of a handshake address, keeping what follows its
/// first NUL.
pub fn rewrite_host(address: &str, new_host: &str) -> (res: String)
    ensures
        res@ == spec_rewrite_host(address@, new_host@),
{
    match find_char(address, '\0') {
        Some(k) => {
            proof {
                lemma_first_index_of(address@, '\0', 0);
            }
            let mut rewritten = String::from_str(new_host);
            let nul = "\0";
            proof {
                reveal_strlit("\0");
            }
            rewritten.append(nul);
            let n = address.unicode_len();
            let suffix = address.substring_char(k + 1, n);
            rewritten.append(suffix);
            assert(rewritten@ =~= new_host@ + seq!['\0'] + address@.skip(k + 1));
            rewritten
        },
        None => String::from_str(new_host),
    }
}

/// A packet as framed on the wire: a VarInt length, then that many bytes.
pub open spec fn spec_frame(payload: Seq<u8>) -> Seq<u8> {
    spec_varint_bytes(payload.len()) + payload
}

/// Frames `payload`.
pub fn encode_packet(payload: &[u8]) -> (res: Result<Vec<u8>, ProtocolError>)
    requires
        payload@.len() <= i32::MAX,
    ensures
        res matches Ok(packet) && packet@ == spec_frame(payload@),
{
    let mut packet: Vec<u8> = Vec::new();
    let r = write_varint(&mut packet, payload.len() as i32);
    assert(r is Ok);
    extend_bytes(&mut packet, payload);
    assert(packet@ =~= spec_frame(payload@));
    Ok(packet)
}

/// A packet read off the wire: its payload, and how many bytes the frame
/// took, length prefix included.
#[derive(Debug)]
pub struct FramedPacket {
    pub payload: Vec<u8>,
    pub wire_len: usize,
}

/// The frame at the start of `s`, with a payload of at most `max_size`
/// bytes: the payload and the frame's length, or why not.
pub open spec fn spec_read_frame(s: Seq<u8>, max_size: nat) -> Result<(Seq<u8>, nat), ProtocolError> {
    match spec_read_varint(s) {
        Err(e) => Err(e),
        Ok((len, n)) => {
            if len <= 0 {
                Err(ProtocolError::InvalidPacketLength(len))
            } else if len > max_size {
                Err(ProtocolError::PacketTooLarge(len as usize))
            } else if s.len() < n + len {
                Err(ProtocolError::UnexpectedEof)
            } else {
                Ok((s.subrange(n as int, n + len), (n + len) as nat))
            }
        },
    }
}

/// Reads one frame; on failure the cursor stays where it was.
pub fn read_framed_packet_with_len(cursor: &mut ByteCursor, max_size: usize) -> (res: Result<
    FramedPacket,
    ProtocolError,
>)
    ensures
        final(cursor).data == old(cursor).data,
        match spec_read_frame(old(cursor).rest(), max_size as nat) {
            Ok((payload, n)) => {
                &&& res matches Ok(f) && f.payload@ == payload && f.wire_len == n
                &&& final(cursor).pos == old(cursor).pos + n
                &&& final(cursor).rest() == old(cursor).rest().skip(n as int)
            },
            Err(e) => {
                &&& res matches Err(r) && r == e
                &&& final(cursor).pos == old(cursor).pos
            },
        },
{
    let ghost s = cursor.rest();
    let start = cursor.pos;
    let (packet_len, header_len) = match read_varint_with_len(cursor) {
        Ok(r) => r,
        Err(e) => return Err(e),
    };
    proof {
        lemma_read_varint_len(s);
    }
    if packet_len <= 0 {
        cursor.pos = start;
        return Err(ProtocolError::InvalidPacketLength(packet_len));
    }
    let packet_len = packet_len as usize;
    if packet_len > max_size {
        cursor.pos = start;
        return Err(ProtocolError::PacketTooLarge(packet_len));
    }
    if cursor.remaining() < packet_len {
        cursor.pos = start;
        return Err(ProtocolError::UnexpectedEof);
    }
    let from = cursor.pos;
    assert(cursor.data.len() == cursor.data@.len());
    let payload = slice_to_vec(slice_subrange(cursor.data, from, from + packet_len));
    assert(payload@ =~= s.subrange(header_len as int, header_len + packet_len));
    cursor.pos = from + packet_len;
    assert(cursor.rest() =~= s.skip(header_len + packet_len));
    Ok(FramedPacket { payload, wire_len: packet_len + header_len })
}

/// Reads one frame and gives its payload; see `read_framed_packet_with_len`.
pub fn read_framed_packet(cursor: &mut ByteCursor, max_size: usize) -> (res: Result<
    Vec<u8>,
    ProtocolError,
>)
    ensures
        final(cursor).data == old(cursor).data,
        match spec_read_frame(old(cursor).rest(), max_size as nat) {
            Ok((payload, n)) => {
                &&& res matches Ok(p) && p@ == payload
                &&& final(cursor).pos == old(cursor).pos + n
            },
            Err(e) => {
                &&& res matches Err(r) && r == e
                &&& final(cursor).pos == old(cursor).pos
            },
        },
{
    match read_framed_packet_with_len(cursor, max_size) {
        Ok(frame) => Ok(frame.payload),
        Err(e) => Err(e),
    }
}

/// Reading a frame back gives its payload and the frame's length.
pub proof fn lemma_frame_roundtrip(payload: Seq<u8>, rest: Seq<u8>, max_size: nat)
    requires
        0 < payload.len() <= max_size,
        payload.len() <= i32::MAX,
    ensures
        spec_read_frame(spec_frame(payload) + rest, max_size) == Ok::<(Seq<u8>, nat), ProtocolError>(
            (payload, spec_frame(payload).len()),
        ),
{
    let e = spec_varint_bytes(payload.len());
    lemma_varint_roundtrip(payload.len(), payload + rest);
    assert(spec_frame(payload) + rest =~= e + (payload + rest));
    assert((spec_frame(payload) + rest).subrange(e.len() as int, (e.len() + payload.len()) as int) =~= payload);
}


/// The first packet of a connection: protocol version, the address the
/// client typed, and whether it wants the status or to log in.
#[derive(Debug)]
pub struct Handshake {
    packet_id: i32,
    protocol_version: i32,
    server_address: String,
    server_port: u16,
    next_state: i32,
}

/// What a `Handshake` holds.
pub struct HandshakeView {
    pub packet_id: i32,
    pub protocol_version: i32,
    pub server_address: Seq<char>,
    pub server_port: u16,
    pub next_state: i32,
}

impl View for Handshake {
    type V = HandshakeView;

    closed spec fn view(&self) -> HandshakeView {
        HandshakeView {
            packet_id: self.packet_id,
            protocol_version: self.protocol_version,
            server_address: self.server_address@,
            server_port: self.server_port,
            next_state: self.next_state,
        }
    }
}

/// The handshake at the start of a payload, which it must fill exactly.
pub open spec fn spec_decode_handshake(s: Seq<u8>) -> Result<HandshakeView, ProtocolError> {
    match spec_read_varint(s) {
        Err(e) => Err(e),
        Ok((packet_id, n1)) => if packet_id != 0 {
            Err(ProtocolError::InvalidPacketId(packet_id))
        } else {
            let s1 = s.skip(n1 as int);
            match spec_read_varint(s1) {
                Err(e) => Err(e),
                Ok((protocol_version, n2)) => if protocol_version <= 0 {
                    Err(ProtocolError::InvalidProtocolVersion(protocol_version))
                } else {
                    let s2 = s1.skip(n2 as int);
                    match spec_read_string(s2, MAX_HOSTNAME_LEN as nat) {
                        Err(e) => Err(e),
                        Ok((server_address, n3)) => {
                            let s3 = s2.skip(n3 as int);
                            match spec_read_u16(s3) {
                                Err(e) => Err(e),
                                Ok((server_port, n4)) => {
                                    let s4 = s3.skip(n4 as int);
                                    match spec_read_varint(s4) {
                                        Err(e) => Err(e),
                                        Ok((next_state, n5)) => if next_state <= 0 {
                                            Err(ProtocolError::InvalidNextState(next_state))
                                        } else if n5 != s4.len() {
                                            Err(ProtocolError::TrailingBytes)
                                        } else {
                                            Ok(
                                                HandshakeView {
                                                    packet_id,
                                                    protocol_version,
                                                    server_address,
                                                    server_port,
                                                    next_state,
                                                },
                                            )
                                        },
                                    }
                                },
                            }
                        },
                    }
                },
            }
        },
    }
}

/// The payload of a handshake, or the first field that cannot be written.
pub open spec fn spec_handshake_payload(h: HandshakeView) -> Result<Seq<u8>, ProtocolError> {
    let address = encode_utf8(h.server_address);
    if h.packet_id < 0 {
        Err(ProtocolError::NegativeVarInt(h.packet_id))
    } else if h.protocol_version < 0 {
        Err(ProtocolError::NegativeVarInt(h.protocol_version))
    } else if address.len() > MAX_HOSTNAME_LEN {
        Err(ProtocolError::StringTooLong(address.len() as usize))
    } else if h.next_state < 0 {
        Err(ProtocolError::NegativeVarInt(h.next_state))
    } else {
        Ok(
            spec_varint_bytes(h.packet_id as nat) + spec_varint_bytes(h.protocol_version as nat)
                + spec_string_bytes(address) + spec_u16_bytes(h.server_port) + spec_varint_bytes(
                h.next_state as nat,
            ),
        )
    }
}

/// A handshake as sent on the wire, framed.
pub open spec fn spec_encode_handshake(h: HandshakeView) -> Result<Seq<u8>, ProtocolError> {
    match spec_handshake_payload(h) {
        Ok(p) => Ok(spec_frame(p)),
        Err(e) => Err(e),
    }
}

impl Handshake {
    pub fn new(
        packet_id: i32,
        protocol_version: i32,
        server_address: String,
        server_port: u16,
        next_state: i32,
    ) -> (h: Self)
        ensures
            h@ == (HandshakeView {
                packet_id,
                protocol_version,
                server_address: server_address@,
                server_port,
                next_state,
            }),
    {
        Handshake { packet_id, protocol_version, server_address, server_port, next_state }
    }

    /// Decodes a handshake payload.
    pub fn decode(payload: &[u8]) -> (res: Result<Self, ProtocolError>)
        ensures
            match spec_decode_handshake(payload@) {
                Ok(v) => res matches Ok(h) && h@ == v,
                Err(e) => res matches Err(r) && r == e,
            },
    {
        let mut cursor = ByteCursor::new(payload);
        let ghost s0 = cursor.rest();
        let packet_id = read_varint(&mut cursor)?;
        if packet_id != 0 {
            return Err(ProtocolError::InvalidPacketId(packet_id));
        }
        let ghost s1 = cursor.rest();
        let protocol_version = read_varint(&mut cursor)?;
        if protocol_version <= 0 {
            return Err(ProtocolError::InvalidProtocolVersion(protocol_version));
        }
        let ghost s2 = cursor.rest();
        let server_address = read_string(&mut cursor, MAX_HOSTNAME_LEN)?;
        let ghost s3 = cursor.rest();
        let server_port = read_u16(&mut cursor)?;
        let ghost s4 = cursor.rest();
        let next_state = read_varint(&mut cursor)?;
        if next_state <= 0 {
            return Err(ProtocolError::InvalidNextState(next_state));
        }
        proof {
            lemma_read_varint_len(s4);
        }
        if cursor.remaining() != 0 {
            assert(spec_read_varint(s4) matches Ok((_, n5)) && n5 != s4.len());
            return Err(ProtocolError::TrailingBytes);
        }
        Ok(Handshake { packet_id, protocol_version, server_address, server_port, next_state })
    }

    /// Points the handshake at `host:port`, keeping a Forge marker.
    pub fn rewrite(&mut self, host: &str, port: u16)
        ensures
            final(self)@ == (HandshakeView {
                server_address: spec_rewrite_host(old(self)@.server_address, host@),
                server_port: port,
                ..old(self)@
            }),
    {
        self.server_address = rewrite_host(&self.server_address, host);
        self.server_port = port;
    }

    pub fn protocol_version(&self) -> (v: i32)
        ensures
            v == self@.protocol_version,
    {
        self.protocol_version
    }

    pub fn server_address(&self) -> (a: &str)
        ensures
            a@ == self@.server_address,
    {
        self.server_address.as_str()
    }

    pub fn server_port(&self) -> (p: u16)
        ensures
            p == self@.server_port,
    {
        self.server_port
    }

    pub fn next_state(&self) -> (n: i32)
        ensures
            n == self@.next_state,
    {
        self.next_state
    }

    /// Encodes the handshake as a framed packet.
    pub fn encode(&self) -> (res: Result<Vec<u8>, ProtocolError>)
        ensures
            match spec_encode_handshake(self@) {
                Ok(b) => res matches Ok(r) && r@ == b,
                Err(e) => res matches Err(r) && r == e,
            },
    {
        let mut payload: Vec<u8> = Vec::new();
        write_varint(&mut payload, self.packet_id)?;
        write_varint(&mut payload, self.protocol_version)?;
        write_string(&mut payload, self.server_address.as_str())?;
        let port = self.server_port;
        payload.push((port / 256) as u8);
        payload.push((port % 256) as u8);
        write_varint(&mut payload, self.next_state)?;
        let ghost address = encode_utf8(self@.server_address);
        proof {
            lemma_varint_bytes_len(self.packet_id as nat, 5);
            lemma_varint_bytes_len(self.protocol_version as nat, 5);
            lemma_varint_bytes_len(address.len(), 5);
            lemma_varint_bytes_len(self.next_state as nat, 5);
        }
        assert(payload@ =~= spec_varint_bytes(self.packet_id as nat) + spec_varint_bytes(
            self.protocol_version as nat,
        ) + spec_string_bytes(address) + spec_u16_bytes(port) + spec_varint_bytes(
            self.next_state as nat,
        ));
        encode_packet(payload.as_slice())
    }
}


impl PartialEq for Handshake {
    fn eq(&self, other: &Self) -> (r: bool) {
        self.packet_id == other.packet_id && self.protocol_version == other.protocol_version
            && self.server_address == other.server_address && self.server_port
            == other.server_port && self.next_state == other.next_state
    }
}

impl vstd::std_specs::cmp::PartialEqSpecImpl for Handshake {
    open spec fn obeys_eq_spec() -> bool {
        true
    }

    open spec fn eq_spec(&self, other: &Self) -> bool {
        self@ == other@
    }
}

/// Reading back a written string gives its characters and its length.
pub proof fn lemma_string_roundtrip(text: Seq<char>, rest: Seq<u8>, max_len: nat)
    requires
        encode_utf8(text).len() <= max_len,
        encode_utf8(text).len() <= i32::MAX,
    ensures
        spec_read_string(spec_string_bytes(encode_utf8(text)) + rest, max_len) == Ok::<
            (Seq<char>, nat),
            ProtocolError,
        >((text, spec_string_bytes(encode_utf8(text)).len())),
{
    broadcast use encode_utf8_valid_utf8, encode_utf8_decode_utf8;

    let b = encode_utf8(text);
    let e = spec_varint_bytes(b.len());
    let s = spec_string_bytes(b) + rest;
    lemma_varint_roundtrip(b.len(), b + rest);
    assert(s =~= e + (b + rest));
    assert(s.subrange(e.len() as int, (e.len() + b.len()) as int) =~= b);
}

/// Reading back two written bytes gives the `u16`.
pub proof fn lemma_u16_roundtrip(v: u16, rest: Seq<u8>)
    ensures
        spec_read_u16(spec_u16_bytes(v) + rest) == Ok::<(u16, nat), ProtocolError>((v, 2)),
{
    let s = spec_u16_bytes(v) + rest;
    assert(s[0] == v / 256 && s[1] == v % 256);
}

/// A handshake that can be written frames into a packet whose payload
/// decodes to the same handshake.
#[verifier::spinoff_prover]
#[verifier::rlimit(40)]
pub proof fn lemma_handshake_roundtrip(h: HandshakeView, rest: Seq<u8>)
    requires
        h.packet_id == 0,
        h.protocol_version > 0,
        h.next_state > 0,
        encode_utf8(h.server_address).len() <= MAX_HOSTNAME_LEN,
    ensures
        spec_handshake_payload(h) is Ok,
        ({
            let p = spec_handshake_payload(h)->Ok_0;
            &&& spec_encode_handshake(h) == Ok::<Seq<u8>, ProtocolError>(spec_frame(p))
            &&& spec_read_frame(spec_frame(p) + rest, MAX_HANDSHAKE_PACKET_SIZE as nat) == Ok::<
                (Seq<u8>, nat),
                ProtocolError,
            >((p, spec_frame(p).len()))
            &&& spec_decode_handshake(p) == Ok::<HandshakeView, ProtocolError>(h)
        }),
{
    let b = encode_utf8(h.server_address);
    let v1 = spec_varint_bytes(h.packet_id as nat);
    let v2 = spec_varint_bytes(h.protocol_version as nat);
    let st = spec_string_bytes(b);
    let pt = spec_u16_bytes(h.server_port);
    let v5 = spec_varint_bytes(h.next_state as nat);
    let p = v1 + v2 + st + pt + v5;
    assert(spec_handshake_payload(h) == Ok::<Seq<u8>, ProtocolError>(p));
    lemma_varint_bytes_len(h.packet_id as nat, 5);
    lemma_varint_bytes_len(h.protocol_version as nat, 5);
    lemma_varint_bytes_len(b.len(), 5);
    lemma_varint_bytes_len(h.next_state as nat, 5);
    assert(p.len() <= 5 + 5 + 5 + 255 + 2 + 5);
    lemma_frame_roundtrip(p, rest, MAX_HANDSHAKE_PACKET_SIZE as nat);
    let s1 = v2 + st + pt + v5;
    let s2 = st + pt + v5;
    let s3 = pt + v5;
    lemma_varint_roundtrip(h.packet_id as nat, s1);
    assert(p =~= v1 + s1);
    assert((v1 + s1).skip(v1.len() as int) =~= s1);
    lemma_varint_roundtrip(h.protocol_version as nat, s2);
    assert(s1 =~= v2 + s2);
    assert((v2 + s2).skip(v2.len() as int) =~= s2);
    lemma_string_roundtrip(h.server_address, s3, MAX_HOSTNAME_LEN as nat);
    assert(s2 =~= st + s3);
    assert((st + s3).skip(st.len() as int) =~= s3);
    lemma_u16_roundtrip(h.server_port, v5);
    assert(s3.skip(2) =~= v5);
    lemma_varint_roundtrip(h.next_state as nat, Seq::empty());
    assert(v5 + Seq::<u8>::empty() =~= v5);
}


/// The eight big-endian bytes of `u`.
pub open spec fn spec_u64_be_bytes(u: u64) -> Seq<u8> {
    seq![
        (u >> 56u64) as u8,
        (u >> 48u64) as u8,
        (u >> 40u64) as u8,
        (u >> 32u64) as u8,
        (u >> 24u64) as u8,
        (u >> 16u64) as u8,
        (u >> 8u64) as u8,
        u as u8,
    ]
}

/// The `u64` whose big-endian bytes start `b`.
pub open spec fn spec_be_u64(b: Seq<u8>) -> u64 {
    (b[0] as u64) << 56u64 | (b[1] as u64) << 48u64 | (b[2] as u64) << 40u64 | (b[3] as u64)
        << 32u64 | (b[4] as u64) << 24u64 | (b[5] as u64) << 16u64 | (b[6] as u64) << 8u64 | (
    b[7] as u64)
}

proof fn lemma_be_u64_roundtrip(u: u64)
    ensures
        spec_be_u64(spec_u64_be_bytes(u)) == u,
{
    let b = spec_u64_be_bytes(u);
    let (a0, a1, a2, a3, a4, a5, a6, a7) = (b[0], b[1], b[2], b[3], b[4], b[5], b[6], b[7]);
    assert((a0 as u64) << 56u64 | (a1 as u64) << 48u64 | (a2 as u64) << 40u64 | (a3 as u64) << 32u64
        | (a4 as u64) << 24u64 | (a5 as u64) << 16u64 | (a6 as u64) << 8u64 | (a7 as u64) == u)
        by (bit_vector)
        requires
            a0 == (u >> 56u64) as u8,
            a1 == (u >> 48u64) as u8,
            a2 == (u >> 40u64) as u8,
            a3 == (u >> 32u64) as u8,
            a4 == (u >> 24u64) as u8,
            a5 == (u >> 16u64) as u8,
            a6 == (u >> 8u64) as u8,
            a7 == u as u8,
    ;
}

proof fn lemma_i64_u64_roundtrip(x: i64)
    ensures
        (x as u64) as i64 == x,
{
    assert((x as u64) as i64 == x) by (bit_vector);
}

/// The ping (packet id 1) payload carried by a status-ping packet.
pub open spec fn spec_decode_ping_request(s: Seq<u8>) -> Result<i64, ProtocolError> {
    match spec_read_varint(s) {
        Err(e) => Err(e),
        Ok((packet_id, n)) => if packet_id != 1 {
            Err(ProtocolError::InvalidPacketId(packet_id))
        } else {
            let s1 = s.skip(n as int);
            if s1.len() < 8 {
                Err(ProtocolError::UnexpectedEof)
            } else if s1.len() != 8 {
                Err(ProtocolError::TrailingBytes)
            } else {
                Ok(spec_be_u64(s1) as i64)
            }
        },
    }
}

/// A status request (packet id 0, no fields).
pub open spec fn spec_decode_status_request(s: Seq<u8>) -> Result<(), ProtocolError> {
    match spec_read_varint(s) {
        Err(e) => Err(e),
        Ok((packet_id, n)) => if packet_id != 0 {
            Err(ProtocolError::InvalidPacketId(packet_id))
        } else if n != s.len() {
            Err(ProtocolError::TrailingBytes)
        } else {
            Ok(())
        },
    }
}

/// The player name of a login-start packet (packet id 0); what follows the
/// name, such as a profile id, is left alone.
pub open spec fn spec_decode_login_start(s: Seq<u8>) -> Result<Seq<char>, ProtocolError> {
    match spec_read_varint(s) {
        Err(e) => Err(e),
        Ok((packet_id, n)) => if packet_id != 0 {
            Err(ProtocolError::InvalidPacketId(packet_id))
        } else {
            match spec_read_string(s.skip(n as int), MAX_PLAYER_NAME_LEN as nat) {
                Err(e) => Err(e),
                Ok((name, _)) => Ok(name),
            }
        },
    }
}

/// Checks a status request payload.
pub fn decode_status_request(payload: &[u8]) -> (res: Result<(), ProtocolError>)
    ensures
        res == spec_decode_status_request(payload@),
{
    let mut cursor = ByteCursor::new(payload);
    let packet_id = read_varint(&mut cursor)?;
    if packet_id != 0 {
        return Err(ProtocolError::InvalidPacketId(packet_id));
    }
    proof {
        lemma_read_varint_len(payload@);
    }
    if cursor.remaining() != 0 {
        return Err(ProtocolError::TrailingBytes);
    }
    Ok(())
}

/// Reads the payload of a status ping.
pub fn decode_ping_request(payload: &[u8]) -> (res: Result<i64, ProtocolError>)
    ensures
        res == spec_decode_ping_request(payload@),
{
    let mut cursor = ByteCursor::new(payload);
    let packet_id = read_varint(&mut cursor)?;
    if packet_id != 1 {
        return Err(ProtocolError::InvalidPacketId(packet_id));
    }
    proof {
        lemma_read_varint_len(payload@);
    }
    let ghost s1 = cursor.rest();
    let left = cursor.remaining();
    if left < 8 {
        return Err(ProtocolError::UnexpectedEof);
    }
    if left != 8 {
        return Err(ProtocolError::TrailingBytes);
    }
    let b0 = cursor.take_byte();
    let b1 = cursor.take_byte();
    let b2 = cursor.take_byte();
    let b3 = cursor.take_byte();
    let b4 = cursor.take_byte();
    let b5 = cursor.take_byte();
    let b6 = cursor.take_byte();
    let b7 = cursor.take_byte();
    assert(b0 == s1[0] && b1 == s1[1] && b2 == s1[2] && b3 == s1[3]);
    assert(b4 == s1[4] && b5 == s1[5] && b6 == s1[6] && b7 == s1[7]);
    let u: u64 = (b0 as u64) << 56u64 | (b1 as u64) << 48u64 | (b2 as u64) << 40u64 | (b3 as u64)
        << 32u64 | (b4 as u64) << 24u64 | (b5 as u64) << 16u64 | (b6 as u64) << 8u64 | (b7 as u64);
    Ok(#[verifier::truncate] (u as i64))
}

/// Reads the player name of a login-start packet.
pub fn decode_login_start(payload: &[u8]) -> (res: Result<String, ProtocolError>)
    ensures
        match spec_decode_login_start(payload@) {
            Ok(name) => res matches Ok(r) && r@ == name,
            Err(e) => res matches Err(r) && r == e,
        },
{
    let mut cursor = ByteCursor::new(payload);
    let packet_id = read_varint(&mut cursor)?;
    if packet_id != 0 {
        return Err(ProtocolError::InvalidPacketId(packet_id));
    }
    read_string(&mut cursor, MAX_PLAYER_NAME_LEN)
}

/// A packet carrying one JSON string after a packet id of 0, as the status
/// response and the login disconnect are.
pub open spec fn spec_json_packet(json: Seq<char>) -> Result<Seq<u8>, ProtocolError> {
    let b = encode_utf8(json);
    if b.len() > MAX_HOSTNAME_LEN {
        Err(ProtocolError::StringTooLong(b.len() as usize))
    } else {
        Ok(spec_frame(spec_varint_bytes(0) + spec_string_bytes(b)))
    }
}

fn json_packet(json: &str) -> (res: Result<Vec<u8>, ProtocolError>)
    ensures
        match spec_json_packet(json@) {
            Ok(b) => res matches Ok(r) && r@ == b,
            Err(e) => res matches Err(r) && r == e,
        },
{
    let mut payload: Vec<u8> = Vec::new();
    let r = write_varint(&mut payload, 0);
    assert(r is Ok);
    write_string(&mut payload, json)?;
    proof {
        lemma_varint_bytes_len(json.spec_bytes().len(), 5);
    }
    encode_packet(payload.as_slice())
}

/// The status response packet carrying `json`.
pub fn status_response_packet(json: &str) -> (res: Result<Vec<u8>, ProtocolError>)
    ensures
        match spec_json_packet(json@) {
            Ok(b) => res matches Ok(r) && r@ == b,
            Err(e) => res matches Err(r) && r == e,
        },
{
    json_packet(json)
}

/// The login disconnect packet carrying the reason `message_json`.
pub fn login_disconnect_packet(message_json: &str) -> (res: Result<Vec<u8>, ProtocolError>)
    ensures
        match spec_json_packet(message_json@) {
            Ok(b) => res matches Ok(r) && r@ == b,
            Err(e) => res matches Err(r) && r == e,
        },
{
    json_packet(message_json)
}

/// The pong packet (packet id 1) echoing `payload`.
pub open spec fn spec_ping_response_packet(payload: i64) -> Seq<u8> {
    spec_frame(spec_varint_bytes(1) + spec_u64_be_bytes(payload as u64))
}

/// The pong packet echoing `payload`.
pub fn ping_response_packet(payload: i64) -> (res: Result<Vec<u8>, ProtocolError>)
    ensures
        res matches Ok(r) && r@ == spec_ping_response_packet(payload),
{
    let mut buffer: Vec<u8> = Vec::new();
    let r = write_varint(&mut buffer, 1);
    assert(r is Ok);
    let u: u64 = #[verifier::truncate] (payload as u64);
    buffer.push((u >> 56u64) as u8);
    buffer.push((u >> 48u64) as u8);
    buffer.push((u >> 40u64) as u8);
    buffer.push((u >> 32u64) as u8);
    buffer.push((u >> 24u64) as u8);
    buffer.push((u >> 16u64) as u8);
    buffer.push((u >> 8u64) as u8);
    buffer.push(#[verifier::truncate] (u as u8));
    assert(buffer@ =~= spec_varint_bytes(1) + spec_u64_be_bytes(payload as u64));
    encode_packet(buffer.as_slice())
}

/// A handshake payload laid out as packet id 0, the protocol version `pv`,
/// a string length `n` followed by the bytes `addr`, the port and the next
/// state `ns`, then `rest`, decodes as its checks are ordered: the protocol
/// version, the string's length, its size, its UTF-8, the next state, and
/// nothing left over; otherwise to the handshake it lays out.
#[verifier::rlimit(60)]
#[verifier::spinoff_prover]
pub proof fn lemma_decode_handshake_order(
    pv: i32,
    n: i32,
    addr: Seq<u8>,
    port: u16,
    ns: i32,
    rest: Seq<u8>,
)
    requires
        n < 0 ==> addr.len() == 0,
        n >= 0 ==> addr.len() == n,
    ensures
        spec_decode_handshake(
            spec_varint_i32(0) + spec_varint_i32(pv) + spec_varint_i32(n) + addr + spec_u16_bytes(port)
                + spec_varint_i32(ns) + rest,
        ) == if pv <= 0 {
            Err::<HandshakeView, ProtocolError>(ProtocolError::InvalidProtocolVersion(pv))
        } else if n < 0 {
            Err(ProtocolError::InvalidStringLength(n))
        } else if n > MAX_HOSTNAME_LEN {
            Err(ProtocolError::StringTooLong(n as usize))
        } else if !valid_utf8(addr) {
            Err(ProtocolError::InvalidUtf8)
        } else if ns <= 0 {
            Err(ProtocolError::InvalidNextState(ns))
        } else if rest.len() > 0 {
            Err(ProtocolError::TrailingBytes)
        } else {
            Ok(
                HandshakeView {
                    packet_id: 0,
                    protocol_version: pv,
                    server_address: decode_utf8(addr),
                    server_port: port,
                    next_state: ns,
                },
            )
        },
{
    let v0 = spec_varint_i32(0);
    let vp = spec_varint_i32(pv);
    let vn = spec_varint_i32(n);
    let p = spec_u16_bytes(port);
    let vs = spec_varint_i32(ns);
    let tail4 = p + vs + rest;
    let tail3 = addr + tail4;
    let tail2 = vn + tail3;
    let tail1 = vp + tail2;
    let s = v0 + tail1;
    assert(s =~= v0 + vp + vn + addr + p + vs + rest);
    lemma_varint_i32_roundtrip(0, tail1);
    assert(s.skip(v0.len() as int) =~= tail1);
    lemma_varint_i32_roundtrip(pv, tail2);
    assert(tail1.skip(vp.len() as int) =~= tail2);
    lemma_varint_i32_roundtrip(n, tail3);
    assert(tail2.skip(vn.len() as int) =~= tail3);
    if pv > 0 && 0 <= n <= MAX_HOSTNAME_LEN {
        assert(tail2.subrange(vn.len() as int, vn.len() + n) =~= addr);
        assert(tail2.skip(vn.len() + n) =~= tail4);
        lemma_u16_roundtrip(port, vs + rest);
        assert(tail4 =~= p + (vs + rest));
        assert(tail4.skip(2) =~= vs + rest);
        lemma_varint_i32_roundtrip(ns, rest);
    }
}

/// A pong packet, read back as a ping request, gives the payload it echoed.
pub proof fn lemma_ping_roundtrip(payload: i64, rest: Seq<u8>)
    ensures
        spec_read_frame(spec_ping_response_packet(payload) + rest, MAX_STATUS_PACKET_SIZE as nat)
            matches Ok((p, n)) && spec_decode_ping_request(p) == Ok::<i64, ProtocolError>(payload)
            && n == 10,
{
    let body = spec_u64_be_bytes(payload as u64);
    let p = spec_varint_bytes(1) + body;
    assert(spec_varint_bytes(1) == seq![1u8]);
    lemma_frame_roundtrip(p, rest, MAX_STATUS_PACKET_SIZE as nat);
    assert(spec_varint_bytes(p.len()) == seq![9u8]);
    lemma_varint_roundtrip(1, body);
    assert(p.skip(1) =~= body);
    lemma_be_u64_roundtrip(payload as u64);
    lemma_i64_u64_roundtrip(payload);
}

/// A status response or login disconnect packet reads back as packet id 0
/// followed by the JSON string.
pub proof fn lemma_json_packet_roundtrip(json: Seq<char>, rest: Seq<u8>, max_size: nat)
    requires
        encode_utf8(json).len() <= MAX_HOSTNAME_LEN,
        encode_utf8(json).len() + 3 <= max_size,
    ensures
        spec_json_packet(json) matches Ok(bytes) && spec_read_frame(bytes + rest, max_size) matches Ok(
            (p, n),
        ) && n == bytes.len() && spec_read_varint(p) == Ok::<(i32, nat), ProtocolError>((0, 1))
            && spec_read_string(p.skip(1), max_size) == Ok::<(Seq<char>, nat), ProtocolError>(
            (json, (p.len() - 1) as nat),
        ),
{
    let b = encode_utf8(json);
    let st = spec_string_bytes(b);
    let p = spec_varint_bytes(0) + st;
    assert(spec_varint_bytes(0) == seq![0u8]);
    lemma_varint_bytes_len(b.len(), 2);
    lemma_frame_roundtrip(p, rest, max_size);
    lemma_varint_roundtrip(0, st);
    assert(p.skip(1) =~= st);
    lemma_string_roundtrip(json, Seq::empty(), max_size);
    assert(st + Seq::<u8>::empty() =~= st);
}

} // verus!
