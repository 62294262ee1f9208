use vstd::prelude::*;

verus! {

/// Largest payload a frame may carry (32 MiB).
pub const MAX_MESSAGE_SIZE: usize = 32 * 1024 * 1024;

/// Why a frame could not be produced or taken apart.
#[derive(Debug, Clone, Copy, PartialEq, Eq, Structural)]
pub enum CodecError {
    /// The payload, or the length a peer declared, exceeds `MAX_MESSAGE_SIZE`.
    PayloadTooLarge { len: u64 },
    /// The buffer ends before the header or the declared payload does.
    Truncated,
    /// The payload does not decode as a message.
    MalformedPayload,
}

/// The four little-endian bytes of `n`.
pub open spec fn le_bytes(n: u32) -> Seq<u8> {
    seq![
        (n % 256) as u8,
        ((n / 256) % 256) as u8,
        ((n / 65536) % 256) as u8,
        (n / 16777216) as u8,
    ]
}

/// The number that four little-endian bytes spell.
pub open spec fn le_value(b: Seq<u8>) -> nat
    recommends
        b.len() >= 4,
{
    (b[0] + 256 * b[1] + 65536 * b[2] + 16777216 * b[3]) as nat
}

/// A frame on the wire: the payload's length as a little-endian `u32`, then the payload.
pub open spec fn frame_of(payload: Seq<u8>) -> Seq<u8> {
    le_bytes(payload.len() as u32) + payload
}

/// Reading back the bytes of `n` gives `n`.
pub proof fn lemma_le_round_trip(n: u32)
    ensures
        le_value(le_bytes(n)) == n,
{
    let b = le_bytes(n);
    let q1 = n / 256;
    let q2 = n / 65536;
    let q3 = n / 16777216;
    assert(q2 == q1 / 256) by (nonlinear_arith)
        requires q1 == n / 256, q2 == n / 65536;
    assert(q3 == q2 / 256) by (nonlinear_arith)
        requires q2 == n / 65536, q3 == n / 16777216;
    assert(q3 < 256) by (nonlinear_arith)
        requires q3 == n / 16777216, n < 0x1_0000_0000;
    assert(n == n % 256 + 256 * q1) by (nonlinear_arith)
        requires q1 == n / 256;
    assert(q1 == q1 % 256 + 256 * q2) by (nonlinear_arith)
        requires q2 == q1 / 256;
    assert(q2 == q2 % 256 + 256 * q3) by (nonlinear_arith)
        requires q3 == q2 / 256;
    assert(b[0] == n % 256);
    assert(b[1] == q1 % 256);
    assert(b[2] == q2 % 256);
    assert(b[3] == q3);
}

/// The little-endian `u32` in the first four bytes of `b`.
pub fn read_u32_le(b: &[u8]) -> (r: u32)
    requires
        b@.len() >= 4,
    ensures
        r == le_value(b@),
{
    b[0] as u32 + (b[1] as u32) * 256 + (b[2] as u32) * 65536 + (b[3] as u32) * 16777216
}

/// Checks a length declared by a peer before anything of that size is allocated.
pub fn check_declared_length(declared: u32) -> (r: Result<usize, CodecError>)
    ensures
        declared > MAX_MESSAGE_SIZE ==> r == Err::<usize, CodecError>(
            CodecError::PayloadTooLarge { len: declared as u64 },
        ),
        declared <= MAX_MESSAGE_SIZE ==> r == Ok::<usize, CodecError>(declared as usize),
{
    if declared as u64 > MAX_MESSAGE_SIZE as u64 {
        Err(CodecError::PayloadTooLarge { len: declared as u64 })
    } else {
        Ok(declared as usize)
    }
}

/// Frames a serialized message: a four-byte little-endian length, then the payload.
pub fn encode_frame(payload: Vec<u8>) -> (r: Result<Vec<u8>, CodecError>)
    ensures
        payload@.len() > MAX_MESSAGE_SIZE ==> r == Err::<Vec<u8>, CodecError>(
            CodecError::PayloadTooLarge { len: payload@.len() as u64 },
        ),
        payload@.len() <= MAX_MESSAGE_SIZE ==> (r matches Ok(f) && f@ == frame_of(payload@)),
{
    let n = payload.len();
    if n > MAX_MESSAGE_SIZE {
        return Err(CodecError::PayloadTooLarge { len: n as u64 });
    }
    let len = n as u32;
    let mut out: Vec<u8> = Vec::with_capacity(n + 4);
    out.push((len % 256) as u8);
    out.push(((len / 256) % 256) as u8);
    out.push(((len / 65536) % 256) as u8);
    out.push((len / 16777216) as u8);
    let mut body = payload;
    let ghost p = body@;
    out.append(&mut body);
    assert(out@ =~= frame_of(p));
    Ok(out)
}

/// Takes one frame off the front of `buf`: the payload and the number of bytes used.
pub fn decode_frame(buf: &[u8]) -> (r: Result<(Vec<u8>, usize), CodecError>)
    ensures
        buf@.len() < 4 ==> r == Err::<(Vec<u8>, usize), CodecError>(CodecError::Truncated),
        buf@.len() >= 4 && le_value(buf@) > MAX_MESSAGE_SIZE ==> r == Err::<
            (Vec<u8>, usize),
            CodecError,
        >(CodecError::PayloadTooLarge { len: le_value(buf@) as u64 }),
        buf@.len() >= 4 && le_value(buf@) <= MAX_MESSAGE_SIZE && buf@.len() < 4 + le_value(buf@)
            ==> r == Err::<(Vec<u8>, usize), CodecError>(CodecError::Truncated),
        buf@.len() >= 4 && le_value(buf@) <= MAX_MESSAGE_SIZE && buf@.len() >= 4 + le_value(
            buf@,
        ) ==> (r matches Ok((p, used)) && used == 4 + le_value(buf@) && p@ == buf@.subrange(
            4,
            used as int,
        )),
{
    if buf.len() < 4 {
        return Err(CodecError::Truncated);
    }
    let declared = read_u32_le(buf);
    let n = match check_declared_length(declared) {
        Ok(n) => n,
        Err(e) => return Err(e),
    };
    if buf.len() - 4 < n {
        return Err(CodecError::Truncated);
    }
    let blen = buf.len();
    let mut p: Vec<u8> = Vec::with_capacity(n);
    let mut i: usize = 0;
    while i < n
        invariant
            blen == buf@.len(),
            4 <= blen,
            n <= blen - 4,
            i <= n,
            p@ == buf@.subrange(4, 4 + i),
        decreases n - i,
    {
        p.push(buf[4 + i]);
        i = i + 1;
        assert(p@ =~= buf@.subrange(4, 4 + i));
    }
    Ok((p, 4 + n))
}

/// A framed payload comes back out of the frame whole, and the frame is used up.
pub proof fn lemma_frame_round_trip(payload: Seq<u8>)
    requires
        payload.len() <= MAX_MESSAGE_SIZE,
    ensures
        frame_of(payload).len() >= 4,
        le_value(frame_of(payload)) == payload.len(),
        frame_of(payload).len() == 4 + payload.len(),
        frame_of(payload).subrange(4, frame_of(payload).len() as int) == payload,
{
    let f = frame_of(payload);
    lemma_le_round_trip(payload.len() as u32);
    assert(f.subrange(0, 4) =~= le_bytes(payload.len() as u32));
    assert(le_value(f) == le_value(le_bytes(payload.len() as u32)));
    assert(f.subrange(4, f.len() as int) =~= payload);
}

} // verus!
