//! Wire codec: framing and argument encoding for the binary protocol.
//!
//! A message is an 8-byte header (`u32` object id, `u16` opcode, `u16` total
//! length) followed by `total_length - 8` bytes of arguments. Integers use a
//! single connection-wide byte order (least significant byte first). String
//! payloads carry their length plus a terminating NUL; string and array
//! payloads are zero-padded to a 4-byte boundary.

use crate::utf8::is_utf8;
use vstd::prelude::*;

verus! {

broadcast use vstd::std_specs::vec::group_vec_axioms;

/// Payload length of a string or array argument once padded to the next
/// 4-byte boundary.
pub open spec fn pad4(n: int) -> int {
    ((n + 3) / 4) * 4
}

pub proof fn lemma_pad4(n: int)
    requires
        n >= 0,
    ensures
        n <= pad4(n) < n + 4,
        pad4(n) % 4 == 0,
{
    assert(n <= ((n + 3) / 4) * 4 < n + 4 && (((n + 3) / 4) * 4) % 4 == 0) by (nonlinear_arith);
}

/// Round a payload length up to the next multiple of four, as the wire
/// format requires for string and array arguments.
pub fn pad_to_4(n: usize) -> (r: usize)
    requires
        n + 3 <= usize::MAX,
    ensures
        r == pad4(n as int),
{
    ((n + 3) / 4) * 4
}

/// The four bytes of `x`, least significant first.
pub open spec fn le32(x: u32) -> Seq<u8> {
    seq![
        (x & 0xff) as u8,
        ((x >> 8) & 0xff) as u8,
        ((x >> 16) & 0xff) as u8,
        ((x >> 24) & 0xff) as u8,
    ]
}

/// The two bytes of `x`, least significant first.
pub open spec fn le16(x: u16) -> Seq<u8> {
    seq![(x & 0xff) as u8, ((x >> 8) & 0xff) as u8]
}

/// The `u32` whose bytes, least significant first, are `b0 b1 b2 b3`.
pub open spec fn from_le32(b0: u8, b1: u8, b2: u8, b3: u8) -> u32 {
    (b0 as u32) | ((b1 as u32) << 8) | ((b2 as u32) << 16) | ((b3 as u32) << 24)
}

/// The `u16` whose bytes, least significant first, are `b0 b1`.
pub open spec fn from_le16(b0: u8, b1: u8) -> u16 {
    (b0 as u16) | ((b1 as u16) << 8)
}

pub proof fn lemma_le32_round_trip(x: u32)
    ensures
        from_le32(le32(x)[0], le32(x)[1], le32(x)[2], le32(x)[3]) == x,
{
    assert(((x & 0xff) as u8 as u32) | ((((x >> 8) & 0xff) as u8 as u32) << 8) | ((((x >> 16)
        & 0xff) as u8 as u32) << 16) | ((((x >> 24) & 0xff) as u8 as u32) << 24) == x)
        by (bit_vector);
}

pub proof fn lemma_le16_round_trip(x: u16)
    ensures
        from_le16(le16(x)[0], le16(x)[1]) == x,
{
    assert(((x & 0xff) as u8 as u16) | ((((x >> 8) & 0xff) as u8 as u16) << 8) == x)
        by (bit_vector);
}

/// The signed reading of `x` as a two's-complement 32-bit value.
pub open spec fn i32_of_u32(x: u32) -> i32 {
    if x < 0x8000_0000 {
        x as i32
    } else {
        (x - 0x1_0000_0000) as i32
    }
}

/// The unsigned two's-complement carrier of `x`.
pub open spec fn u32_of_i32(x: i32) -> u32 {
    if x >= 0 {
        x as u32
    } else {
        (x + 0x1_0000_0000) as u32
    }
}

pub proof fn lemma_i32_round_trip(x: i32)
    ensures
        i32_of_u32(u32_of_i32(x)) == x,
{
}

/// The unsigned carrier of a signed value, computed without overflow.
pub fn to_wire_u32(x: i32) -> (r: u32)
    ensures
        r == u32_of_i32(x),
{
    if x >= 0 {
        x as u32
    } else {
        0xFFFF_FFFFu32 - ((-(x + 1)) as u32)
    }
}

/// The signed reading of an unsigned carrier, computed without overflow.
pub fn from_wire_u32(x: u32) -> (r: i32)
    ensures
        r == i32_of_u32(x),
{
    if x < 0x8000_0000 {
        x as i32
    } else {
        -((0xFFFF_FFFFu32 - x) as i32) - 1
    }
}

/// Append the four bytes of `x`, least significant first.
pub fn push_u32(dst: &mut Vec<u8>, x: u32)
    ensures
        final(dst)@ == old(dst)@ + le32(x),
{
    let ghost d0 = dst@;
    assert(x & 0xff <= 0xff && (x >> 8) & 0xff <= 0xff && (x >> 16) & 0xff <= 0xff && (x >> 24)
        & 0xff <= 0xff) by (bit_vector);
    dst.push((x & 0xff) as u8);
    dst.push(((x >> 8) & 0xff) as u8);
    dst.push(((x >> 16) & 0xff) as u8);
    dst.push(((x >> 24) & 0xff) as u8);
    assert(dst@ =~= d0 + le32(x));
}

/// Append the two bytes of `x`, least significant first.
pub fn push_u16(dst: &mut Vec<u8>, x: u16)
    ensures
        final(dst)@ == old(dst)@ + le16(x),
{
    let ghost d0 = dst@;
    assert(x & 0xff <= 0xff && (x >> 8) & 0xff <= 0xff) by (bit_vector);
    dst.push((x & 0xff) as u8);
    dst.push(((x >> 8) & 0xff) as u8);
    assert(dst@ =~= d0 + le16(x));
}

/// Read the `u32` stored at `pos`, least significant byte first.
pub fn read_u32(buf: &Vec<u8>, pos: usize) -> (r: u32)
    requires
        pos + 4 <= buf.len(),
    ensures
        r == from_le32(buf@[pos as int], buf@[pos + 1], buf@[pos + 2], buf@[pos + 3]),
{
    (buf[pos] as u32) | ((buf[pos + 1] as u32) << 8) | ((buf[pos + 2] as u32) << 16) | ((buf[pos
        + 3] as u32) << 24)
}

/// Read the `u16` stored at `pos`, least significant byte first.
pub fn read_u16(buf: &Vec<u8>, pos: usize) -> (r: u16)
    requires
        pos + 2 <= buf.len(),
    ensures
        r == from_le16(buf@[pos as int], buf@[pos + 1]),
{
    (buf[pos] as u16) | ((buf[pos + 1] as u16) << 8)
}

/// One decoded request or event argument.
#[derive(Debug, Clone, PartialEq, Eq)]
pub enum Arg {
    /// An unsigned 32-bit integer.
    Uint(u32),
    /// A signed 32-bit integer.
    Int(i32),
    /// A signed 24.8 fixed-point number, carried by its raw bits.
    Fixed(i32),
    /// The id of an existing protocol object.
    Object(u32),
    /// An id naming a freshly created protocol object.
    NewId(u32),
    /// A UTF-8 string, without its terminating NUL.
    Str(Vec<u8>),
    /// An opaque byte array.
    Array(Vec<u8>),
}

/// The mathematical value of an argument.
pub enum ArgV {
    Uint(u32),
    Int(i32),
    Fixed(i32),
    Object(u32),
    NewId(u32),
    Str(Seq<u8>),
    Array(Seq<u8>),
}

impl View for Arg {
    type V = ArgV;

    open spec fn view(&self) -> ArgV {
        match self {
            Arg::Uint(x) => ArgV::Uint(*x),
            Arg::Int(x) => ArgV::Int(*x),
            Arg::Fixed(x) => ArgV::Fixed(*x),
            Arg::Object(x) => ArgV::Object(*x),
            Arg::NewId(x) => ArgV::NewId(*x),
            Arg::Str(s) => ArgV::Str(s@),
            Arg::Array(a) => ArgV::Array(a@),
        }
    }
}

/// The values of a whole argument list.
pub open spec fn args_view(s: Seq<Arg>) -> Seq<ArgV> {
    s.map_values(|a: Arg| a@)
}

/// The wire type of an argument, as an interface's request signature lists it.
#[derive(Debug, Clone, Copy, PartialEq, Eq, Structural)]
pub enum ArgKind {
    Uint,
    Int,
    Fixed,
    Object,
    NewId,
    Str,
    Array,
}

/// The wire type of a decoded argument.
pub open spec fn kind_of(a: ArgV) -> ArgKind {
    match a {
        ArgV::Uint(_) => ArgKind::Uint,
        ArgV::Int(_) => ArgKind::Int,
        ArgV::Fixed(_) => ArgKind::Fixed,
        ArgV::Object(_) => ArgKind::Object,
        ArgV::NewId(_) => ArgKind::NewId,
        ArgV::Str(_) => ArgKind::Str,
        ArgV::Array(_) => ArgKind::Array,
    }
}

/// The wire types of an argument list.
pub open spec fn kinds_of(args: Seq<ArgV>) -> Seq<ArgKind> {
    args.map_values(|a: ArgV| kind_of(a))
}

/// A string argument must be UTF-8; it is re-validated on decode, so an
/// ill-formed one could never round-trip.
pub open spec fn wf_arg(a: ArgV) -> bool {
    match a {
        ArgV::Str(s) => is_utf8(s),
        _ => true,
    }
}

pub open spec fn wf_args(args: Seq<ArgV>) -> bool {
    forall|i: int| 0 <= i < args.len() ==> wf_arg(#[trigger] args[i])
}

/// Bytes an argument occupies on the wire.
pub open spec fn arg_wire_size(a: ArgV) -> int {
    match a {
        ArgV::Uint(_) => 4,
        ArgV::Int(_) => 4,
        ArgV::Fixed(_) => 4,
        ArgV::Object(_) => 4,
        ArgV::NewId(_) => 4,
        ArgV::Str(s) => 4 + pad4(s.len() as int + 1),
        ArgV::Array(b) => 4 + pad4(b.len() as int),
    }
}

/// Bytes an argument list occupies on the wire.
pub open spec fn args_wire_size(args: Seq<ArgV>) -> int
    decreases args.len(),
{
    if args.len() == 0 {
        0
    } else {
        arg_wire_size(args[0]) + args_wire_size(args.skip(1))
    }
}

/// `n` zero bytes.
pub open spec fn zeros(n: int) -> Seq<u8> {
    Seq::new(n as nat, |i: int| 0u8)
}

/// The encoding of one argument. A string's length field counts its
/// terminating NUL; the NUL itself is the first of the trailing zero bytes.
pub open spec fn spec_arg_bytes(a: ArgV) -> Seq<u8> {
    match a {
        ArgV::Uint(x) => le32(x),
        ArgV::Int(x) => le32(u32_of_i32(x)),
        ArgV::Fixed(x) => le32(u32_of_i32(x)),
        ArgV::Object(x) => le32(x),
        ArgV::NewId(x) => le32(x),
        ArgV::Str(s) => le32((s.len() + 1) as u32) + s + zeros(pad4(s.len() as int + 1) - s.len()),
        ArgV::Array(b) => le32(b.len() as u32) + b + zeros(pad4(b.len() as int) - b.len()),
    }
}

/// The concatenated encoding of an argument list.
pub open spec fn spec_args_bytes(args: Seq<ArgV>) -> Seq<u8>
    decreases args.len(),
{
    if args.len() == 0 {
        Seq::empty()
    } else {
        spec_arg_bytes(args[0]) + spec_args_bytes(args.skip(1))
    }
}

pub proof fn lemma_arg_bytes_len(a: ArgV)
    ensures
        spec_arg_bytes(a).len() == arg_wire_size(a),
        arg_wire_size(a) >= 4,
{
    match a {
        ArgV::Str(s) => {
            lemma_pad4(s.len() as int + 1);
        },
        ArgV::Array(b) => {
            lemma_pad4(b.len() as int);
        },
        _ => {},
    }
}

pub proof fn lemma_args_bytes_len(args: Seq<ArgV>)
    ensures
        spec_args_bytes(args).len() == args_wire_size(args),
        args_wire_size(args) >= 0,
    decreases args.len(),
{
    if args.len() > 0 {
        lemma_arg_bytes_len(args[0]);
        lemma_args_bytes_len(args.skip(1));
    }
}

pub proof fn lemma_singleton_arg(a: ArgV)
    ensures
        args_wire_size(seq![a]) == arg_wire_size(a),
        spec_args_bytes(seq![a]) == spec_arg_bytes(a),
{
    let s = seq![a];
    assert(s[0] == a);
    assert(s.skip(1) =~= Seq::<ArgV>::empty());
    assert(args_wire_size(Seq::<ArgV>::empty()) == 0);
    assert(spec_args_bytes(Seq::<ArgV>::empty()) =~= Seq::<u8>::empty());
    assert(spec_arg_bytes(a) + Seq::<u8>::empty() =~= spec_arg_bytes(a));
}

/// Splitting an argument list splits its wire size.
pub proof fn lemma_args_size_split(args: Seq<ArgV>, j: int)
    requires
        0 <= j <= args.len(),
    ensures
        args_wire_size(args) == args_wire_size(args.take(j)) + args_wire_size(args.skip(j)),
    decreases j,
{
    if j == 0 {
        assert(args.take(0) =~= Seq::empty());
        assert(args.skip(0) =~= args);
    } else {
        lemma_args_size_split(args.skip(1), j - 1);
        assert(args.take(j)[0] == args[0]);
        assert(args.take(j).skip(1) =~= args.skip(1).take(j - 1));
        assert(args.skip(j) =~= args.skip(1).skip(j - 1));
    }
}

/// Appending one argument appends its encoding.
pub proof fn lemma_args_bytes_snoc(args: Seq<ArgV>, j: int)
    requires
        0 <= j < args.len(),
    ensures
        spec_args_bytes(args.take(j + 1)) == spec_args_bytes(args.take(j)) + spec_arg_bytes(
            args[j],
        ),
    decreases j,
{
    if j == 0 {
        assert(args.take(1) =~= seq![args[0]]);
        assert(args.take(0) =~= Seq::empty());
        assert(seq![args[0]].skip(1) =~= Seq::<ArgV>::empty());
        assert(spec_args_bytes(args.take(0)) + spec_arg_bytes(args[0]) =~= spec_arg_bytes(
            args[0],
        ));
        assert(spec_args_bytes(args.take(1)) =~= spec_arg_bytes(args[0]) + Seq::empty());
        assert(spec_arg_bytes(args[0]) + Seq::<u8>::empty() =~= spec_arg_bytes(args[0]));
    } else {
        lemma_args_bytes_snoc(args.skip(1), j - 1);
        assert(args.take(j + 1)[0] == args[0]);
        assert(args.take(j)[0] == args[0]);
        assert(args.take(j + 1).skip(1) =~= args.skip(1).take(j));
        assert(args.take(j).skip(1) =~= args.skip(1).take(j - 1));
        assert(args.skip(1)[j - 1] == args[j]);
        assert(spec_args_bytes(args.take(j + 1)) =~= spec_arg_bytes(args[0]) + spec_args_bytes(
            args.skip(1).take(j),
        ));
        assert(spec_arg_bytes(args[0]) + (spec_args_bytes(args.skip(1).take(j - 1))
            + spec_arg_bytes(args[j])) =~= (spec_arg_bytes(args[0]) + spec_args_bytes(
            args.skip(1).take(j - 1),
        )) + spec_arg_bytes(args[j]));
    }
}

/// Codec failures. `Truncated`: fewer bytes than a message declares.
/// `MalformedArgument`: an argument overruns its buffer, a string has no
/// terminating NUL or is not UTF-8. `InvalidMethod`: the argument list does
/// not consume exactly the declared length, or an opcode is not recognized.
#[derive(Debug, Clone, Copy, PartialEq, Eq, Structural)]
pub enum DecodeError {
    Truncated,
    MalformedArgument,
    InvalidMethod,
}

/// Encoding fails only when the serialized message would not fit the 16-bit
/// length field.
#[derive(Debug, Clone, Copy, PartialEq, Eq, Structural)]
pub enum EncodeError {
    MessageTooLarge,
}

/// The 8-byte message header.
pub open spec fn spec_header(object_id: u32, opcode: u16, len: u16) -> Seq<u8> {
    le32(object_id) + le16(opcode) + le16(len)
}

/// A message fits on the wire when its total length fits the header's 16-bit
/// length field.
pub open spec fn msg_fits(args: Seq<ArgV>) -> bool {
    8 + args_wire_size(args) <= 0xFFFF
}

/// The full encoding of a message: header, then arguments.
pub open spec fn spec_message(object_id: u32, opcode: u16, args: Seq<ArgV>) -> Seq<u8> {
    spec_header(object_id, opcode, (8 + args_wire_size(args)) as u16) + spec_args_bytes(args)
}

/// Decoding one argument of kind `k` at offset `pos`: the value and the
/// offset just past it, or nothing when the bytes there are no well-formed
/// argument of that kind.
pub open spec fn spec_decode_arg(k: ArgKind, b: Seq<u8>, pos: int) -> Option<(ArgV, int)> {
    if pos < 0 || pos + 4 > b.len() {
        None
    } else {
        let x = from_le32(b[pos], b[pos + 1], b[pos + 2], b[pos + 3]);
        match k {
            ArgKind::Uint => Some((ArgV::Uint(x), pos + 4)),
            ArgKind::Int => Some((ArgV::Int(i32_of_u32(x)), pos + 4)),
            ArgKind::Fixed => Some((ArgV::Fixed(i32_of_u32(x)), pos + 4)),
            ArgKind::Object => Some((ArgV::Object(x), pos + 4)),
            ArgKind::NewId => Some((ArgV::NewId(x), pos + 4)),
            ArgKind::Str => {
                let l = x as int;
                if l == 0 || pos + 4 + pad4(l) > b.len() {
                    None
                } else if b[pos + 4 + l - 1] != 0 {
                    None
                } else {
                    let payload = b.subrange(pos + 4, pos + 4 + l - 1);
                    if is_utf8(payload) {
                        Some((ArgV::Str(payload), pos + 4 + pad4(l)))
                    } else {
                        None
                    }
                }
            },
            ArgKind::Array => {
                let l = x as int;
                if pos + 4 + pad4(l) > b.len() {
                    None
                } else {
                    Some((ArgV::Array(b.subrange(pos + 4, pos + 4 + l)), pos + 4 + pad4(l)))
                }
            },
        }
    }
}

/// Decoding a list of arguments of kinds `ks` from offset `pos`: the values
/// and the offset just past the last one.
pub open spec fn spec_decode_args(ks: Seq<ArgKind>, b: Seq<u8>, pos: int) -> Option<
    (Seq<ArgV>, int),
>
    decreases ks.len(),
{
    if ks.len() == 0 {
        Some((Seq::empty(), pos))
    } else {
        match spec_decode_arg(ks[0], b, pos) {
            None => None,
            Some((a, p)) => match spec_decode_args(ks.skip(1), b, p) {
                None => None,
                Some((rest, q)) => Some((seq![a] + rest, q)),
            },
        }
    }
}

/// Splitting a stream prefix into header fields and raw argument bytes.
pub open spec fn spec_decode_message(b: Seq<u8>) -> Result<(u32, u16, u16, Seq<u8>), DecodeError> {
    if b.len() < 8 {
        Err(DecodeError::Truncated)
    } else {
        let id = from_le32(b[0], b[1], b[2], b[3]);
        let op = from_le16(b[4], b[5]);
        let len = from_le16(b[6], b[7]);
        if len < 8 {
            Err(DecodeError::MalformedArgument)
        } else if b.len() < len {
            Err(DecodeError::Truncated)
        } else {
            Ok((id, op, len, b.subrange(8, len as int)))
        }
    }
}

/// An argument's encoding, read back at the offset where it was written,
/// yields the argument.
pub proof fn lemma_decode_one(a: ArgV, b: Seq<u8>, pos: int)
    requires
        wf_arg(a),
        arg_wire_size(a) <= 0xFFFF,
        0 <= pos,
        pos + arg_wire_size(a) <= b.len(),
        b.subrange(pos, pos + arg_wire_size(a)) == spec_arg_bytes(a),
    ensures
        spec_decode_arg(kind_of(a), b, pos) == Some((a, pos + arg_wire_size(a))),
{
    lemma_arg_bytes_len(a);
    let sz = arg_wire_size(a);
    let enc = spec_arg_bytes(a);
    assert(forall|i: int| 0 <= i < sz ==> b[pos + i] == #[trigger] enc[i]) by {
        assert(forall|i: int| 0 <= i < sz ==> b.subrange(pos, pos + sz)[i] == #[trigger] enc[i]);
    }
    assert(b[pos] == enc[0] && b[pos + 1] == enc[1] && b[pos + 2] == enc[2] && b[pos + 3] == enc[3]);
    match a {
        ArgV::Uint(x) => {
            lemma_le32_round_trip(x);
        },
        ArgV::Int(x) => {
            lemma_le32_round_trip(u32_of_i32(x));
            lemma_i32_round_trip(x);
        },
        ArgV::Fixed(x) => {
            lemma_le32_round_trip(u32_of_i32(x));
            lemma_i32_round_trip(x);
        },
        ArgV::Object(x) => {
            lemma_le32_round_trip(x);
        },
        ArgV::NewId(x) => {
            lemma_le32_round_trip(x);
        },
        ArgV::Str(s) => {
            let l = s.len() as int + 1;
            lemma_pad4(l);
            let x = (s.len() + 1) as u32;
            lemma_le32_round_trip(x);
            assert(enc[0] == le32(x)[0] && enc[1] == le32(x)[1] && enc[2] == le32(x)[2] && enc[3]
                == le32(x)[3]);
            assert(from_le32(b[pos], b[pos + 1], b[pos + 2], b[pos + 3]) == x);
            assert(x as int == l);
            assert(b[pos + 4 + l - 1] == enc[4 + l - 1]);
            assert(enc[4 + l - 1] == zeros(pad4(l) - s.len())[0]);
            assert(zeros(pad4(l) - s.len())[0] == 0);
            let payload = b.subrange(pos + 4, pos + 4 + l - 1);
            assert(payload =~= s) by {
                assert(forall|i: int| 0 <= i < s.len() ==> enc[4 + i] == s[i]);
                assert(forall|i: int|
                    0 <= i < s.len() ==> payload[i] == b[pos + 4 + i] && b[pos + 4 + i] == enc[4
                        + i]);
            }
        },
        ArgV::Array(d) => {
            let l = d.len() as int;
            lemma_pad4(l);
            let x = d.len() as u32;
            lemma_le32_round_trip(x);
            assert(enc[0] == le32(x)[0] && enc[1] == le32(x)[1] && enc[2] == le32(x)[2] && enc[3]
                == le32(x)[3]);
            assert(from_le32(b[pos], b[pos + 1], b[pos + 2], b[pos + 3]) == x);
            assert(x as int == l);
            let payload = b.subrange(pos + 4, pos + 4 + l);
            assert(payload =~= d) by {
                assert(forall|i: int| 0 <= i < d.len() ==> enc[4 + i] == d[i]);
                assert(forall|i: int|
                    0 <= i < d.len() ==> payload[i] == b[pos + 4 + i] && b[pos + 4 + i] == enc[4
                        + i]);
            }
        },
    }
}

/// An argument list's encoding, read back where it was written and running
/// to the end of the buffer, yields the list and consumes everything.
pub proof fn lemma_decode_args_of_encoding(args: Seq<ArgV>, b: Seq<u8>, pos: int)
    requires
        wf_args(args),
        args_wire_size(args) <= 0xFFFF,
        0 <= pos <= b.len(),
        b.subrange(pos, b.len() as int) == spec_args_bytes(args),
    ensures
        spec_decode_args(kinds_of(args), b, pos) == Some((args, b.len() as int)),
    decreases args.len(),
{
    lemma_args_bytes_len(args);
    assert(b.len() - pos == args_wire_size(args));
    if args.len() == 0 {
        assert(kinds_of(args) =~= Seq::<ArgKind>::empty());
        assert(spec_decode_args(kinds_of(args), b, pos) == Some((Seq::<ArgV>::empty(), pos)));
        assert(args =~= Seq::<ArgV>::empty());
    } else {
        let a0 = args[0];
        let rest = args.skip(1);
        let sz0 = arg_wire_size(a0);
        lemma_arg_bytes_len(a0);
        lemma_args_bytes_len(rest);
        assert(spec_args_bytes(args) == spec_arg_bytes(a0) + spec_args_bytes(rest));
        assert(b.subrange(pos, pos + sz0) =~= spec_arg_bytes(a0)) by {
            assert(forall|i: int|
                0 <= i < sz0 ==> b.subrange(pos, b.len() as int)[i] == #[trigger] spec_arg_bytes(
                    a0,
                )[i]);
        }
        assert(wf_arg(a0));
        lemma_decode_one(a0, b, pos);
        assert(kinds_of(args)[0] == kind_of(a0));
        assert(b.subrange(pos + sz0, b.len() as int) =~= spec_args_bytes(rest)) by {
            assert(forall|i: int|
                0 <= i < spec_args_bytes(rest).len() ==> b.subrange(pos, b.len() as int)[sz0 + i]
                    == #[trigger] spec_args_bytes(rest)[i]);
        }
        assert(forall|i: int| 0 <= i < rest.len() ==> wf_arg(#[trigger] rest[i]));
        lemma_decode_args_of_encoding(rest, b, pos + sz0);
        assert(kinds_of(args).skip(1) =~= kinds_of(rest));
        assert(seq![a0] + rest =~= args);
    }
}

/// Append the encoding of one argument.
fn encode_arg(dst: &mut Vec<u8>, a: &Arg)
    requires
        arg_wire_size(a@) <= 0xFFFF,
        old(dst)@.len() + arg_wire_size(a@) <= 0xFFFF,
    ensures
        final(dst)@ == old(dst)@ + spec_arg_bytes(a@),
{
    let ghost d0 = dst@;
    match a {
        Arg::Uint(x) => push_u32(dst, *x),
        Arg::Int(x) => {
            let u = to_wire_u32(*x);
            push_u32(dst, u);
        },
        Arg::Fixed(x) => {
            let u = to_wire_u32(*x);
            push_u32(dst, u);
        },
        Arg::Object(x) => push_u32(dst, *x),
        Arg::NewId(x) => push_u32(dst, *x),
        Arg::Str(s) => {
            proof {
                lemma_pad4(s@.len() as int + 1);
            }
            let l = s.len();
            push_u32(dst, (l + 1) as u32);
            let mut j: usize = 0;
            while j < l
                invariant
                    j <= l,
                    l == s@.len(),
                    dst@ == d0 + le32((l + 1) as u32) + s@.take(j as int),
                decreases l - j,
            {
                dst.push(s[j]);
                assert(dst@ =~= d0 + le32((l + 1) as u32) + s@.take(j as int + 1));
                j = j + 1;
            }
            assert(s@.take(l as int) =~= s@);
            let pad = pad_to_4(l + 1) - l;
            let mut k: usize = 0;
            while k < pad
                invariant
                    k <= pad,
                    l == s@.len(),
                    pad == pad4(l as int + 1) - l,
                    dst@ == d0 + le32((l + 1) as u32) + s@ + zeros(k as int),
                decreases pad - k,
            {
                dst.push(0);
                assert(dst@ =~= d0 + le32((l + 1) as u32) + s@ + zeros(k as int + 1));
                k = k + 1;
            }
            assert(dst@ =~= d0 + spec_arg_bytes(a@));
        },
        Arg::Array(b) => {
            proof {
                lemma_pad4(b@.len() as int);
            }
            let l = b.len();
            push_u32(dst, l as u32);
            let mut j: usize = 0;
            while j < l
                invariant
                    j <= l,
                    l == b@.len(),
                    dst@ == d0 + le32(l as u32) + b@.take(j as int),
                decreases l - j,
            {
                dst.push(b[j]);
                assert(dst@ =~= d0 + le32(l as u32) + b@.take(j as int + 1));
                j = j + 1;
            }
            assert(b@.take(l as int) =~= b@);
            let pad = pad_to_4(l) - l;
            let mut k: usize = 0;
            while k < pad
                invariant
                    k <= pad,
                    l == b@.len(),
                    pad == pad4(l as int) - l,
                    dst@ == d0 + le32(l as u32) + b@ + zeros(k as int),
                decreases pad - k,
            {
                dst.push(0);
                assert(dst@ =~= d0 + le32(l as u32) + b@ + zeros(k as int + 1));
                k = k + 1;
            }
            assert(dst@ =~= d0 + spec_arg_bytes(a@));
        },
    }
}

/// Wire size of one argument, or `None` when it alone would overflow the
/// 16-bit length field.
fn arg_size_checked(a: &Arg) -> (r: Option<usize>)
    ensures
        match r {
            Some(n) => n == arg_wire_size(a@) && n <= 0xFFFF,
            None => arg_wire_size(a@) > 0xFFFF,
        },
{
    match a {
        Arg::Uint(_) => Some(4),
        Arg::Int(_) => Some(4),
        Arg::Fixed(_) => Some(4),
        Arg::Object(_) => Some(4),
        Arg::NewId(_) => Some(4),
        Arg::Str(s) => {
            proof {
                lemma_pad4(s@.len() as int + 1);
            }
            let l = s.len();
            if l >= 0xFFFC {
                None
            } else {
                let sz = 4 + pad_to_4(l + 1);
                if sz > 0xFFFF {
                    None
                } else {
                    Some(sz)
                }
            }
        },
        Arg::Array(b) => {
            proof {
                lemma_pad4(b@.len() as int);
            }
            let l = b.len();
            if l >= 0xFFFC {
                None
            } else {
                let sz = 4 + pad_to_4(l);
                if sz > 0xFFFF {
                    None
                } else {
                    Some(sz)
                }
            }
        },
    }
}

/// Serialize an event: header (sender object id, opcode, total length) and
/// arguments. Fails exactly when the message would exceed the 0xFFFF-byte
/// limit the 16-bit length field imposes.
pub fn encode_event(object_id: u32, opcode: u16, args: &Vec<Arg>) -> (r: Result<
    Vec<u8>,
    EncodeError,
>)
    ensures
        match r {
            Ok(bytes) => msg_fits(args_view(args@)) && bytes@ == spec_message(
                object_id,
                opcode,
                args_view(args@),
            ),
            Err(e) => e == EncodeError::MessageTooLarge && !msg_fits(args_view(args@)),
        },
{
    let ghost av = args_view(args@);
    let n = args.len();
    let mut total: usize = 8;
    let mut k: usize = 0;
    while k < n
        invariant
            k <= n,
            n == args@.len(),
            av == args_view(args@),
            av.len() == n,
            forall|i: int| 0 <= i < n ==> av[i] == #[trigger] args@[i]@,
            total == 8 + args_wire_size(av.take(k as int)),
            total <= 0xFFFF,
        decreases n - k,
    {
        proof {
            lemma_singleton_arg(av[k as int]);
            lemma_args_size_split(av, k as int + 1);
            lemma_args_size_split(av.take(k as int + 1), k as int);
            lemma_args_bytes_len(av.skip(k as int + 1));
            assert(av.take(k as int + 1).take(k as int) =~= av.take(k as int));
            assert(av.take(k as int + 1).skip(k as int) =~= seq![av[k as int]]);
            assert(args_wire_size(av) >= total - 8 + arg_wire_size(av[k as int]));
        }
        let sz = match arg_size_checked(&args[k]) {
            Some(sz) => sz,
            None => {
                return Err(EncodeError::MessageTooLarge);
            },
        };
        if total > 0xFFFF - sz {
            return Err(EncodeError::MessageTooLarge);
        }
        total = total + sz;
        k = k + 1;
    }
    proof {
        assert(av.take(n as int) =~= av);
    }
    let mut out: Vec<u8> = Vec::new();
    push_u32(&mut out, object_id);
    push_u16(&mut out, opcode);
    push_u16(&mut out, total as u16);
    let ghost header = spec_header(object_id, opcode, (8 + args_wire_size(av)) as u16);
    assert(out@ =~= header);
    let mut k2: usize = 0;
    while k2 < n
        invariant
            k2 <= n,
            n == args@.len(),
            av == args_view(args@),
            av.len() == n,
            forall|i: int| 0 <= i < n ==> av[i] == #[trigger] args@[i]@,
            8 + args_wire_size(av) <= 0xFFFF,
            header == spec_header(object_id, opcode, (8 + args_wire_size(av)) as u16),
            header.len() == 8,
            out@ == header + spec_args_bytes(av.take(k2 as int)),
        decreases n - k2,
    {
        proof {
            lemma_singleton_arg(av[k2 as int]);
            lemma_args_size_split(av, k2 as int + 1);
            lemma_args_size_split(av.take(k2 as int + 1), k2 as int);
            lemma_args_bytes_len(av.take(k2 as int));
            lemma_args_bytes_len(av.skip(k2 as int + 1));
            assert(av.take(k2 as int + 1).take(k2 as int) =~= av.take(k2 as int));
            assert(av.take(k2 as int + 1).skip(k2 as int) =~= seq![av[k2 as int]]);
            assert(header.len() == 8) by {
                assert(le32(object_id).len() == 4);
                assert(le16(opcode).len() == 2);
                assert(le16((8 + args_wire_size(av)) as u16).len() == 2);
            }
            assert(out@.len() == 8 + args_wire_size(av.take(k2 as int)));
            assert(out@.len() + arg_wire_size(av[k2 as int]) <= 0xFFFF);
            lemma_args_bytes_snoc(av, k2 as int);
        }
        encode_arg(&mut out, &args[k2]);
        assert(out@ =~= header + spec_args_bytes(av.take(k2 as int + 1)));
        k2 = k2 + 1;
    }
    proof {
        assert(av.take(n as int) =~= av);
    }
    Ok(out)
}

/// Append a whole byte buffer to another.
pub fn append_bytes(dst: &mut Vec<u8>, src: &Vec<u8>)
    ensures
        final(dst)@ == old(dst)@ + src@,
{
    let ghost d0 = dst@;
    let n = src.len();
    let mut j: usize = 0;
    while j < n
        invariant
            j <= n,
            n == src@.len(),
            dst@ == d0 + src@.take(j as int),
        decreases n - j,
    {
        dst.push(src[j]);
        assert(dst@ =~= d0 + src@.take(j as int + 1));
        j = j + 1;
    }
    assert(dst@ =~= d0 + src@);
}

/// Split a stream prefix into header fields and raw argument bytes. Fails
/// with `Truncated` when fewer bytes are available than the message declares,
/// and with `MalformedArgument` when the declared length cannot even hold the
/// header.
pub fn decode_message(buf: &Vec<u8>) -> (r: Result<(u32, u16, u16, Vec<u8>), DecodeError>)
    ensures
        match r {
            Ok(t) => spec_decode_message(buf@) == Ok::<_, DecodeError>((t.0, t.1, t.2, t.3@)),
            Err(e) => spec_decode_message(buf@) == Err::<(u32, u16, u16, Seq<u8>), _>(e),
        },
{
    let n = buf.len();
    if n < 8 {
        return Err(DecodeError::Truncated);
    }
    let object_id = read_u32(buf, 0);
    let opcode = read_u16(buf, 4);
    let len = read_u16(buf, 6);
    if len < 8 {
        return Err(DecodeError::MalformedArgument);
    }
    if n < len as usize {
        return Err(DecodeError::Truncated);
    }
    let end = len as usize;
    let mut raw: Vec<u8> = Vec::new();
    let mut j: usize = 8;
    while j < end
        invariant
            8 <= j <= end,
            end <= n,
            n == buf@.len(),
            raw@ == buf@.subrange(8, j as int),
        decreases end - j,
    {
        raw.push(buf[j]);
        assert(raw@ =~= buf@.subrange(8, j as int + 1));
        j = j + 1;
    }
    Ok((object_id, opcode, len, raw))
}

/// Round a 32-bit payload length up to the next multiple of four, in 64-bit
/// arithmetic so that it cannot overflow.
fn pad4_u64(x: u32) -> (r: u64)
    ensures
        r == pad4(x as int),
{
    ((x as u64) + 3) / 4 * 4
}

/// Decode one argument of the given kind at `*pos`, advancing `*pos` past it.
fn decode_arg(buf: &Vec<u8>, pos: &mut usize, kind: ArgKind) -> (r: Result<Arg, DecodeError>)
    ensures
        match r {
            Ok(a) => {
                &&& spec_decode_arg(kind, buf@, *old(pos) as int) == Some((a@, *final(pos) as int))
                &&& *old(pos) <= *final(pos) <= buf@.len()
            },
            Err(e) => e == DecodeError::MalformedArgument && spec_decode_arg(
                kind,
                buf@,
                *old(pos) as int,
            ) is None,
        },
{
    let n = buf.len();
    let p = *pos;
    if p > n || n - p < 4 {
        return Err(DecodeError::MalformedArgument);
    }
    let x = read_u32(buf, p);
    match kind {
        ArgKind::Uint => {
            *pos = p + 4;
            Ok(Arg::Uint(x))
        },
        ArgKind::Int => {
            *pos = p + 4;
            Ok(Arg::Int(from_wire_u32(x)))
        },
        ArgKind::Fixed => {
            *pos = p + 4;
            Ok(Arg::Fixed(from_wire_u32(x)))
        },
        ArgKind::Object => {
            *pos = p + 4;
            Ok(Arg::Object(x))
        },
        ArgKind::NewId => {
            *pos = p + 4;
            Ok(Arg::NewId(x))
        },
        ArgKind::Str => {
            if x == 0 {
                return Err(DecodeError::MalformedArgument);
            }
            let pad64: u64 = pad4_u64(x);
            proof {
                lemma_pad4(x as int);
            }
            let avail: u64 = (n - (p + 4)) as u64;
            if pad64 > avail {
                return Err(DecodeError::MalformedArgument);
            }
            let l = x as usize;
            let pad = pad64 as usize;
            let start = p + 4;
            let mut v: Vec<u8> = Vec::new();
            let mut j: usize = 0;
            while j < l - 1
                invariant
                    j <= l - 1,
                    1 <= l,
                    start + l <= n,
                    n == buf@.len(),
                    v@ == buf@.subrange(start as int, start as int + j),
                decreases l - 1 - j,
            {
                v.push(buf[start + j]);
                assert(v@ =~= buf@.subrange(start as int, start as int + j + 1));
                j = j + 1;
            }
            if buf[start + l - 1] != 0 {
                return Err(DecodeError::MalformedArgument);
            }
            if !crate::utf8::validate_utf8(&v) {
                return Err(DecodeError::MalformedArgument);
            }
            *pos = start + pad;
            Ok(Arg::Str(v))
        },
        ArgKind::Array => {
            let pad64: u64 = pad4_u64(x);
            proof {
                lemma_pad4(x as int);
            }
            let avail: u64 = (n - (p + 4)) as u64;
            if pad64 > avail {
                return Err(DecodeError::MalformedArgument);
            }
            let l = x as usize;
            let pad = pad64 as usize;
            let start = p + 4;
            let mut v: Vec<u8> = Vec::new();
            let mut j: usize = 0;
            while j < l
                invariant
                    j <= l,
                    start + l <= n,
                    n == buf@.len(),
                    v@ == buf@.subrange(start as int, start as int + j),
                decreases l - j,
            {
                v.push(buf[start + j]);
                assert(v@ =~= buf@.subrange(start as int, start as int + j + 1));
                j = j + 1;
            }
            *pos = start + pad;
            Ok(Arg::Array(v))
        },
    }
}

/// A decoded argument list has one value per signature entry, each of the
/// kind the signature asks for.
pub proof fn lemma_decode_args_shape(ks: Seq<ArgKind>, b: Seq<u8>, pos: int)
    requires
        spec_decode_args(ks, b, pos) is Some,
    ensures
        ({
            let t = spec_decode_args(ks, b, pos).unwrap();
            &&& t.0.len() == ks.len()
            &&& forall|i: int| 0 <= i < ks.len() ==> kind_of(#[trigger] t.0[i]) == ks[i]
        }),
    decreases ks.len(),
{
    if ks.len() > 0 {
        let first = spec_decode_arg(ks[0], b, pos);
        let (a, p) = first.unwrap();
        assert(kind_of(a) == ks[0]) by {
            match ks[0] {
                ArgKind::Uint => {},
                ArgKind::Int => {},
                ArgKind::Fixed => {},
                ArgKind::Object => {},
                ArgKind::NewId => {},
                ArgKind::Str => {},
                ArgKind::Array => {},
            }
        }
        lemma_decode_args_shape(ks.skip(1), b, p);
        let rest = spec_decode_args(ks.skip(1), b, p).unwrap();
        let t = spec_decode_args(ks, b, pos).unwrap();
        assert(t.0 == seq![a] + rest.0);
        assert(forall|i: int| 1 <= i < ks.len() ==> t.0[i] == rest.0[i - 1]);
        assert(forall|i: int| 1 <= i < ks.len() ==> ks.skip(1)[i - 1] == ks[i]);
    }
}

/// Decode a full argument list against an interface's signature. The list
/// must consume the buffer exactly: leftover bytes are an `InvalidMethod`
/// protocol violation, never ignored.
pub fn decode_args(buf: &Vec<u8>, sig: &Vec<ArgKind>) -> (r: Result<Vec<Arg>, DecodeError>)
    ensures
        match r {
            Ok(v) => v@.len() == sig@.len() && spec_decode_args(sig@, buf@, 0) == Some(
                (args_view(v@), buf@.len() as int),
            ),
            Err(e) => match e {
                DecodeError::MalformedArgument => spec_decode_args(sig@, buf@, 0) is None,
                DecodeError::InvalidMethod => spec_decode_args(sig@, buf@, 0) matches Some(t)
                    && t.1 != buf@.len(),
                DecodeError::Truncated => false,
            },
        },
{
    let m = sig.len();
    let mut out: Vec<Arg> = Vec::new();
    let mut pos: usize = 0;
    let mut k: usize = 0;
    proof {
        assert(sig@.skip(0) =~= sig@);
        match spec_decode_args(sig@, buf@, 0) {
            None => {},
            Some(t) => {
                assert(args_view(out@) + t.0 =~= t.0);
            },
        }
    }
    while k < m
        invariant
            k <= m,
            m == sig@.len(),
            out@.len() == k,
            pos <= buf@.len(),
            match spec_decode_args(sig@.skip(k as int), buf@, pos as int) {
                None => spec_decode_args(sig@, buf@, 0) is None,
                Some(t) => spec_decode_args(sig@, buf@, 0) == Some(
                    (args_view(out@) + t.0, t.1),
                ),
            },
        decreases m - k,
    {
        let ghost pos0 = pos as int;
        let ghost out0 = out@;
        assert(sig@.skip(k as int)[0] == sig@[k as int]);
        let a = match decode_arg(buf, &mut pos, sig[k]) {
            Ok(a) => a,
            Err(e) => {
                return Err(e);
            },
        };
        out.push(a);
        proof {
            assert(sig@.skip(k as int).skip(1) =~= sig@.skip(k as int + 1));
            assert(args_view(out@) =~= args_view(out0) + seq![a@]) by {
                assert(out@ =~= out0.push(a));
            }
            match spec_decode_args(sig@.skip(k as int + 1), buf@, pos as int) {
                None => {},
                Some(t) => {
                    assert(args_view(out0) + (seq![a@] + t.0) =~= (args_view(out0) + seq![a@])
                        + t.0);
                },
            }
        }
        k = k + 1;
    }
    proof {
        assert(sig@.skip(m as int) =~= Seq::<ArgKind>::empty());
        assert(spec_decode_args(Seq::<ArgKind>::empty(), buf@, pos as int) == Some(
            (Seq::<ArgV>::empty(), pos as int),
        ));
        assert(args_view(out@) + Seq::<ArgV>::empty() =~= args_view(out@));
    }
    if pos != buf.len() {
        return Err(DecodeError::InvalidMethod);
    }
    Ok(out)
}

/// The unsigned value of an `Object` argument.
pub fn arg_object(v: &Vec<Arg>, i: usize) -> (r: u32)
    requires
        i < v@.len(),
        args_view(v@)[i as int] is Object,
    ensures
        args_view(v@)[i as int] == ArgV::Object(r),
{
    proof {
        assert(args_view(v@)[i as int] == v@[i as int]@);
    }
    match &v[i] {
        Arg::Object(x) => *x,
        _ => vstd::pervasive::unreached(),
    }
}

/// The unsigned value of a `NewId` argument.
pub fn arg_new_id(v: &Vec<Arg>, i: usize) -> (r: u32)
    requires
        i < v@.len(),
        args_view(v@)[i as int] is NewId,
    ensures
        args_view(v@)[i as int] == ArgV::NewId(r),
{
    proof {
        assert(args_view(v@)[i as int] == v@[i as int]@);
    }
    match &v[i] {
        Arg::NewId(x) => *x,
        _ => vstd::pervasive::unreached(),
    }
}

/// The value of an `Int` argument.
pub fn arg_int(v: &Vec<Arg>, i: usize) -> (r: i32)
    requires
        i < v@.len(),
        args_view(v@)[i as int] is Int,
    ensures
        args_view(v@)[i as int] == ArgV::Int(r),
{
    proof {
        assert(args_view(v@)[i as int] == v@[i as int]@);
    }
    match &v[i] {
        Arg::Int(x) => *x,
        _ => vstd::pervasive::unreached(),
    }
}

/// The value of a `Uint` argument.
pub fn arg_uint(v: &Vec<Arg>, i: usize) -> (r: u32)
    requires
        i < v@.len(),
        args_view(v@)[i as int] is Uint,
    ensures
        args_view(v@)[i as int] == ArgV::Uint(r),
{
    proof {
        assert(args_view(v@)[i as int] == v@[i as int]@);
    }
    match &v[i] {
        Arg::Uint(x) => *x,
        _ => vstd::pervasive::unreached(),
    }
}

/// A copy of the bytes of a `Str` argument.
pub fn arg_str(v: &Vec<Arg>, i: usize) -> (r: Vec<u8>)
    requires
        i < v@.len(),
        args_view(v@)[i as int] is Str,
    ensures
        args_view(v@)[i as int] == ArgV::Str(r@),
{
    proof {
        assert(args_view(v@)[i as int] == v@[i as int]@);
    }
    match &v[i] {
        Arg::Str(s) => {
            let mut out: Vec<u8> = Vec::new();
            append_bytes(&mut out, s);
            proof {
                assert(out@ =~= s@);
            }
            out
        },
        _ => vstd::pervasive::unreached(),
    }
}

/// Law: decoding an encoded message recovers the header fields and the raw
/// argument bytes, and decoding those bytes recovers every argument. This is
/// the round trip for every argument kind.
pub proof fn lemma_codec_round_trip(object_id: u32, opcode: u16, args: Seq<ArgV>)
    requires
        wf_args(args),
        msg_fits(args),
    ensures
        spec_decode_message(spec_message(object_id, opcode, args)) == Ok::<_, DecodeError>(
            (object_id, opcode, (8 + args_wire_size(args)) as u16, spec_args_bytes(args)),
        ),
        spec_decode_args(kinds_of(args), spec_args_bytes(args), 0) == Some(
            (args, args_wire_size(args)),
        ),
{
    lemma_args_bytes_len(args);
    let len16 = (8 + args_wire_size(args)) as u16;
    let m = spec_message(object_id, opcode, args);
    let h = spec_header(object_id, opcode, len16);
    assert(h.len() == 8);
    assert(m.len() == 8 + args_wire_size(args));
    lemma_le32_round_trip(object_id);
    lemma_le16_round_trip(opcode);
    lemma_le16_round_trip(len16);
    assert(m[0] == le32(object_id)[0] && m[1] == le32(object_id)[1] && m[2] == le32(object_id)[2]
        && m[3] == le32(object_id)[3]);
    assert(m[4] == le16(opcode)[0] && m[5] == le16(opcode)[1]);
    assert(m[6] == le16(len16)[0] && m[7] == le16(len16)[1]);
    assert(from_le32(m[0], m[1], m[2], m[3]) == object_id);
    assert(from_le16(m[4], m[5]) == opcode);
    assert(from_le16(m[6], m[7]) == len16);
    assert(m.subrange(8, len16 as int) =~= spec_args_bytes(args));
    let payload = spec_args_bytes(args);
    assert(payload.subrange(0, payload.len() as int) =~= payload);
    lemma_decode_args_of_encoding(args, payload, 0);
}

} // verus!
