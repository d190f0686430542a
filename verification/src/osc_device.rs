//! Sensor ingestion: from a received datagram to a typed sample.

use vstd::prelude::*;
use crate::msg::InputType;
use crate::msg::SenselMessage;

verus! {

/// Largest datagram that the receive buffer holds.
pub const MTU: usize = 1536;

/// One positional argument of a sensor message. A float is carried as the
/// bit pattern of its 32-bit value.
#[derive(PartialEq, Eq, Structural, Debug, Clone, Copy)]
pub enum Arg {
    Int(i32),
    Float(u32),
    Other,
}

/// A decoded datagram: a message with its address and arguments, or a bundle.
#[derive(Debug)]
pub enum Packet {
    Message { addr: String, args: Option<Vec<Arg>> },
    Bundle,
}

/// What a `Packet` holds.
pub ghost enum PacketView {
    Message { addr: Seq<char>, args: Option<Seq<Arg>> },
    Bundle,
}

impl View for Packet {
    type V = PacketView;

    open spec fn view(&self) -> PacketView {
        match self {
            Packet::Message { addr, args } => PacketView::Message {
                addr: addr@,
                args: match args {
                    Some(a) => Some(a@),
                    None => None,
                },
            },
            Packet::Bundle => PacketView::Bundle,
        }
    }
}

/// The packet that the bytes of a datagram decode to, `None` where they do
/// not decode.
pub uninterp spec fn decoded(bytes: Seq<u8>) -> Option<PacketView>;

/// Where the first zero byte at or after `from` stands; the length of the
/// bytes where there is none.
pub open spec fn first_nul(bytes: Seq<u8>, from: int) -> int
    decreases bytes.len() - from,
{
    if from < 0 || from >= bytes.len() {
        bytes.len() as int
    } else if bytes[from] == 0 {
        from
    } else {
        first_nul(bytes, from + 1)
    }
}

/// A position moved up to the next multiple of four.
pub open spec fn padded(pos: int) -> int {
    if pos % 4 == 0 {
        pos
    } else {
        pos + (4 - pos % 4)
    }
}

/// The number of bytes from `pos` to the end.
pub open spec fn remaining(bytes: Seq<u8>, pos: int) -> int {
    if pos >= bytes.len() {
        0
    } else {
        bytes.len() - pos
    }
}

/// Where reading goes on behind a string that begins at `from`: behind its
/// zero byte, or at the end where there is none, moved up to a multiple of
/// four.
pub open spec fn string_end(bytes: Seq<u8>, from: int) -> int {
    if first_nul(bytes, from) < bytes.len() {
        padded(first_nul(bytes, from) + 1)
    } else {
        padded(bytes.len() as int)
    }
}

/// The 32-bit number that stands at `at`, most significant byte first.
pub open spec fn size_at(bytes: Seq<u8>, at: int) -> int {
    bytes[at] * 0x100_0000 + bytes[at + 1] * 0x1_0000 + bytes[at + 2] * 0x100 + bytes[at + 3]
}

/// The number of bytes of the character that begins with `lead` in UTF-8;
/// zero for a byte that begins none.
pub open spec fn char_width(lead: u8) -> int {
    if lead < 0x80 {
        1
    } else if lead < 0xc0 {
        0
    } else if lead < 0xe0 {
        2
    } else if lead < 0xf0 {
        3
    } else if lead < 0xf8 {
        4
    } else {
        0
    }
}

/// The arguments that the type tags from `tag` up to `tags_end` announce
/// can be read from `pos` on without reading past the end: a MIDI message
/// and a colour have their four bytes, and a blob has the bytes that its
/// size announces. Reading stops, and nothing more is asked, at the first
/// argument of another kind that is cut short and at the first unknown tag.
pub open spec fn args_fit(bytes: Seq<u8>, tag: int, tags_end: int, pos: int) -> bool
    decreases tags_end - tag,
{
    if tag >= tags_end || tag < 0 || tags_end > bytes.len() {
        true
    } else {
        let t = bytes[tag];
        let left = remaining(bytes, pos);
        if t == 0x69 || t == 0x66 || t == 0x63 {
            left < 4 || args_fit(bytes, tag + 1, tags_end, pos + 4)
        } else if t == 0x6d || t == 0x72 {
            left >= 4 && args_fit(bytes, tag + 1, tags_end, pos + 4)
        } else if t == 0x64 || t == 0x68 || t == 0x74 {
            left < 8 || args_fit(bytes, tag + 1, tags_end, pos + 8)
        } else if t == 0x73 {
            args_fit(bytes, tag + 1, tags_end, string_end(bytes, pos))
        } else if t == 0x62 {
            left < 4 || (size_at(bytes, pos) <= left - 4 && args_fit(
                bytes,
                tag + 1,
                tags_end,
                padded(pos + 4 + size_at(bytes, pos)),
            ))
        } else if t == 0x54 || t == 0x46 || t == 0x4e || t == 0x49 {
            args_fit(bytes, tag + 1, tags_end, pos)
        } else {
            true
        }
    }
}

/// The arguments of a message fit: the type tags stand behind the address,
/// their first character is passed over, and the arguments stand behind the
/// tags.
pub open spec fn message_fits(bytes: Seq<u8>) -> bool {
    let tags = string_end(bytes, 0);
    let tags_end = first_nul(bytes, tags);
    if tags >= tags_end {
        true
    } else if char_width(bytes[tags]) == 0 {
        true
    } else {
        args_fit(bytes, tags + char_width(bytes[tags]), tags_end, string_end(bytes, tags))
    }
}

/// The elements of a bundle from `pos` on fit: each stands behind its size,
/// and each that lies wholly within the bytes is itself an intact packet.
pub open spec fn elements_fit(bytes: Seq<u8>, pos: int) -> bool
    decreases bytes.len(), 0int, remaining(bytes, pos),
{
    if pos < 0 || remaining(bytes, pos) < 4 {
        true
    } else if size_at(bytes, pos) > bytes.len() - (pos + 4) {
        true
    } else {
        is_intact(bytes.subrange(pos + 4, pos + 4 + size_at(bytes, pos))) && elements_fit(
            bytes,
            pos + 4 + size_at(bytes, pos),
        )
    }
}

/// A datagram can be decoded without reading past its end. A message is
/// intact if its arguments fit; a bundle, whose elements stand behind its
/// name and its eight bytes of time, if its elements fit; any other
/// datagram is, since it is refused at its first byte.
pub open spec fn is_intact(bytes: Seq<u8>) -> bool
    decreases bytes.len(), 1int, 0int,
{
    if bytes.len() == 0 {
        true
    } else if bytes[0] == 0x2f {
        message_fits(bytes)
    } else if bytes[0] == 0x23 {
        elements_fit(bytes, string_end(bytes, 0) + 8)
    } else {
        true
    }
}

/// Decodes a datagram with `rosc::decoder::decode`. The result is the packet
/// that the bytes stand for: a message keeps its address and its arguments in
/// order, integers and floats by value and every other argument as `Other`;
/// a failure to decode is `None`. The decoder reads a MIDI message and a
/// colour without looking at how many bytes are left and makes room for a
/// blob by the size that the datagram announces, so it is given intact
/// datagrams only.
#[verifier::external_body]
fn decode(bytes: &[u8]) -> (r: Option<Packet>)
    requires
        bytes@.len() <= MTU,
        is_intact(bytes@),
    ensures
        r matches Some(p) ==> decoded(bytes@) == Some(p@),
        r is None ==> decoded(bytes@) is None,
{
    match rosc::decoder::decode(bytes) {
        Ok(rosc::OscPacket::Message(m)) => Some(Packet::Message {
            addr: m.addr,
            args: m.args.map(|v| v.into_iter().map(|a| match a {
                rosc::OscType::Int(i) => Arg::Int(i),
                rosc::OscType::Float(f) => Arg::Float(f.to_bits()),
                _ => Arg::Other,
            }).collect()),
        }),
        Ok(rosc::OscPacket::Bundle(_)) => Some(Packet::Bundle),
        Err(_) => None,
    }
}

/// The integer of an argument as an unsigned number, two's complement for a
/// negative one; zero for an argument that is no integer.
pub open spec fn int_of(a: Arg) -> u32 {
    match a {
        Arg::Int(i) => if i >= 0 {
            i as u32
        } else {
            (i + 0x1_0000_0000) as u32
        },
        _ => 0,
    }
}

/// The float of an argument, as its bit pattern; positive zero for an
/// argument that is no float.
pub open spec fn float_of(a: Arg) -> u32 {
    match a {
        Arg::Float(f) => f,
        _ => 0,
    }
}

/// The sample that five arguments make.
pub open spec fn sample_from(args: Seq<Arg>) -> SenselMessage
    recommends
        args.len() == 5,
{
    (
        InputType::of_code(int_of(args[0])),
        float_of(args[1]),
        float_of(args[2]),
        float_of(args[3]),
        int_of(args[4]),
    )
}

/// A packet is material telemetry: a message to `/material` with exactly
/// five arguments.
pub open spec fn is_telemetry(p: PacketView) -> bool {
    match p {
        PacketView::Message { addr, args } => addr == "/material"@ && args is Some
            && args->0.len() == 5,
        PacketView::Bundle => false,
    }
}

/// What the ingestion loop does with one datagram.
#[derive(PartialEq, Eq, Debug, Clone, Copy)]
pub enum Ingest {
    /// The datagram does not decode: the stream is broken and the loop ends.
    Broken,
    /// Nothing is enqueued.
    Dropped,
    /// The sample is enqueued.
    Forward(SenselMessage),
}

/// What becomes of a decoded datagram.
pub open spec fn ingest_of(d: Option<PacketView>) -> Ingest {
    match d {
        None => Ingest::Broken,
        Some(p) => if is_telemetry(p) {
            Ingest::Forward(sample_from(p->Message_args->0))
        } else {
            Ingest::Dropped
        },
    }
}

pub struct OSC {}

impl OSC {
    pub fn match_int(v: Arg) -> (r: i32)
        ensures
            r == (if v is Int { v->Int_0 } else { 0 }),
    {
        match v {
            Arg::Int(i) => i,
            _ => 0,
        }
    }

    pub fn toFloat(osct: &Arg) -> (r: u32)
        ensures
            r == float_of(*osct),
    {
        match *osct {
            Arg::Float(f) => f,
            _ => 0,
        }
    }

    pub fn toInt(osct: &Arg) -> (r: u32)
        ensures
            r == int_of(*osct),
    {
        match *osct {
            Arg::Int(i) => {
                if i >= 0 {
                    i as u32
                } else {
                    let wide: i64 = i as i64;
                    (wide + 0x1_0000_0000) as u32
                }
            },
            _ => 0,
        }
    }

    /// The sample of a telemetry packet; nothing for any other packet.
    pub fn sample_of(packet: &Packet) -> (r: Option<SenselMessage>)
        ensures
            r is Some <==> is_telemetry(packet@),
            r matches Some(s) ==> s == sample_from(packet@->Message_args->0),
    {
        match packet {
            Packet::Message { addr, args } => {
                if *addr == "/material".to_owned() {
                    match args {
                        Some(vargs) => {
                            if vargs.len() == 5 {
                                Some(
                                    (
                                        InputType::new(Self::toInt(&vargs[0])),
                                        Self::toFloat(&vargs[1]),
                                        Self::toFloat(&vargs[2]),
                                        Self::toFloat(&vargs[3]),
                                        Self::toInt(&vargs[4]),
                                    ),
                                )
                            } else {
                                None
                            }
                        },
                        None => None,
                    }
                } else {
                    None
                }
            },
            Packet::Bundle => None,
        }
    }

    /// Decides on a decoded datagram: a packet that is not material telemetry
    /// is dropped, one that is yields its sample, and a datagram that did not
    /// decode breaks the stream.
    pub fn classify(packet: Option<Packet>) -> (r: Ingest)
        ensures
            r == ingest_of(
                match packet {
                    Some(p) => Some(p@),
                    None => None,
                },
            ),
    {
        match packet {
            None => Ingest::Broken,
            Some(p) => match Self::sample_of(&p) {
                Some(s) => Ingest::Forward(s),
                None => Ingest::Dropped,
            },
        }
    }

    /// Whether a datagram can be decoded without reading past its end.
    pub fn intact(bytes: &[u8]) -> (r: bool)
        requires
            bytes@.len() <= MTU,
        ensures
            r == is_intact(bytes@),
    {
        packet_is_intact(bytes)
    }

    /// One turn of the ingestion loop on the bytes of a received datagram.
    /// A datagram that is not intact does not decode and breaks the stream;
    /// any other is decoded and decided on.
    pub fn run(bytes: &[u8]) -> (r: Ingest)
        requires
            bytes@.len() <= MTU,
        ensures
            r == (if is_intact(bytes@) {
                ingest_of(decoded(bytes@))
            } else {
                Ingest::Broken
            }),
            !(is_intact(bytes@) && decoded(bytes@) is Some && is_telemetry(decoded(bytes@)->0))
                ==> !(r is Forward),
    {
        if Self::intact(bytes) {
            Self::classify(decode(bytes))
        } else {
            Ingest::Broken
        }
    }
}

/// Finds the first zero byte at or after `from`.
fn find_nul(bytes: &[u8], from: usize) -> (r: usize)
    ensures
        r == first_nul(bytes@, from as int),
        r <= bytes@.len(),
{
    let mut i: usize = from;
    while i < bytes.len() && bytes[i] != 0
        invariant
            from <= i,
            first_nul(bytes@, from as int) == first_nul(bytes@, i as int),
        decreases bytes@.len() - i,
    {
        i = i + 1;
    }
    if i < bytes.len() {
        i
    } else {
        bytes.len()
    }
}

fn pad(pos: usize) -> (r: usize)
    requires
        pos <= MTU + 8,
    ensures
        r == padded(pos as int),
        pos <= r <= pos + 3,
{
    if pos % 4 == 0 {
        pos
    } else {
        pos + (4 - pos % 4)
    }
}

fn left_from(bytes: &[u8], pos: usize) -> (r: usize)
    ensures
        r == remaining(bytes@, pos as int),
{
    if pos >= bytes.len() {
        0
    } else {
        bytes.len() - pos
    }
}

fn end_of_string(bytes: &[u8], from: usize) -> (r: usize)
    requires
        bytes@.len() <= MTU,
    ensures
        r == string_end(bytes@, from as int),
        r <= bytes@.len() + 3,
{
    let z = find_nul(bytes, from);
    if z < bytes.len() {
        pad(z + 1)
    } else {
        pad(bytes.len())
    }
}

fn read_size(bytes: &[u8], at: usize) -> (r: usize)
    requires
        at + 4 <= bytes@.len(),
    ensures
        r == size_at(bytes@, at as int),
        r <= 0xffff_ffff,
{
    let b0: u64 = bytes[at] as u64;
    let b1: u64 = bytes[at + 1] as u64;
    let b2: u64 = bytes[at + 2] as u64;
    let b3: u64 = bytes[at + 3] as u64;
    (b0 * 0x100_0000 + b1 * 0x1_0000 + b2 * 0x100 + b3) as usize
}

fn width_of(lead: u8) -> (r: usize)
    ensures
        r == char_width(lead),
        r <= 4,
{
    if lead < 0x80 {
        1
    } else if lead < 0xc0 {
        0
    } else if lead < 0xe0 {
        2
    } else if lead < 0xf0 {
        3
    } else if lead < 0xf8 {
        4
    } else {
        0
    }
}

fn arguments_fit(bytes: &[u8], tag: usize, tags_end: usize, pos: usize) -> (r: bool)
    requires
        bytes@.len() <= MTU,
        tags_end <= bytes@.len(),
        pos <= bytes@.len() + 3,
    ensures
        r == args_fit(bytes@, tag as int, tags_end as int, pos as int),
    decreases tags_end - tag,
{
    if tag >= tags_end {
        return true;
    }
    let t: u8 = bytes[tag];
    let left: usize = left_from(bytes, pos);
    if t == 0x69 || t == 0x66 || t == 0x63 {
        left < 4 || arguments_fit(bytes, tag + 1, tags_end, pos + 4)
    } else if t == 0x6d || t == 0x72 {
        left >= 4 && arguments_fit(bytes, tag + 1, tags_end, pos + 4)
    } else if t == 0x64 || t == 0x68 || t == 0x74 {
        left < 8 || arguments_fit(bytes, tag + 1, tags_end, pos + 8)
    } else if t == 0x73 {
        let next: usize = end_of_string(bytes, pos);
        arguments_fit(bytes, tag + 1, tags_end, next)
    } else if t == 0x62 {
        if left < 4 {
            true
        } else {
            let size: usize = read_size(bytes, pos);
            if size <= left - 4 {
                let next: usize = pad(pos + 4 + size);
                arguments_fit(bytes, tag + 1, tags_end, next)
            } else {
                false
            }
        }
    } else if t == 0x54 || t == 0x46 || t == 0x4e || t == 0x49 {
        arguments_fit(bytes, tag + 1, tags_end, pos)
    } else {
        true
    }
}

fn message_is_intact(bytes: &[u8]) -> (r: bool)
    requires
        bytes@.len() <= MTU,
    ensures
        r == message_fits(bytes@),
{
    let tags: usize = end_of_string(bytes, 0);
    let tags_end: usize = find_nul(bytes, tags);
    if tags >= tags_end {
        return true;
    }
    let width: usize = width_of(bytes[tags]);
    if width == 0 {
        return true;
    }
    let args: usize = end_of_string(bytes, tags);
    arguments_fit(bytes, tags + width, tags_end, args)
}

fn elements_are_intact(bytes: &[u8], pos: usize) -> (r: bool)
    requires
        bytes@.len() <= MTU,
        pos <= bytes@.len() + 11,
    ensures
        r == elements_fit(bytes@, pos as int),
    decreases bytes@.len(), 0int, remaining(bytes@, pos as int),
{
    if left_from(bytes, pos) < 4 {
        return true;
    }
    let size: usize = read_size(bytes, pos);
    let start: usize = pos + 4;
    if size > bytes.len() - start {
        return true;
    }
    let element = vstd::slice::slice_subrange(bytes, start, start + size);
    packet_is_intact(element) && elements_are_intact(bytes, start + size)
}

fn packet_is_intact(bytes: &[u8]) -> (r: bool)
    requires
        bytes@.len() <= MTU,
    ensures
        r == is_intact(bytes@),
    decreases bytes@.len(), 1int, 0int,
{
    if bytes.len() == 0 {
        true
    } else if bytes[0] == 0x2f {
        message_is_intact(bytes)
    } else if bytes[0] == 0x23 {
        let elements: usize = end_of_string(bytes, 0) + 8;
        elements_are_intact(bytes, elements)
    } else {
        true
    }
}

} // verus!
