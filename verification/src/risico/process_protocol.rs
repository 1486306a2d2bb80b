//! The messages exchanged with a process that backs a memory section: each is a big-endian
//! 16-bit tag followed by its big-endian 32-bit operands, an error by the length and the UTF-8
//! bytes of its text.
use vstd::prelude::*;
use vstd::utf8::{decode_utf8, encode_utf8, encode_utf8_decode_utf8, valid_utf8};

use super::repr::{Addr, Size};

verus! {

/// A message to or from a process that backs a memory section.
#[derive(Debug)]
pub enum ProcessCommand {
    Initialize,
    Ack,
    Size(Size),
    Get(Addr),
    SetValue(Addr, u32),
    Result(u32),
    Error(String),
}

/// The big-endian bytes of a halfword.
pub open spec fn be16(x: u16) -> Seq<u8> {
    seq![(x >> 8) as u8, x as u8]
}

/// The big-endian bytes of a word.
pub open spec fn be32(x: u32) -> Seq<u8> {
    seq![(x >> 24) as u8, (x >> 16) as u8, (x >> 8) as u8, x as u8]
}

/// Words in a message are sent most significant byte first: the bytes are the word's base-256
/// digits from the highest down.
pub proof fn law_big_endian(x: u32)
    ensures
        be32(x).len() == 4,
        be32(x)[0] as int == x / 0x100_0000,
        be32(x)[1] as int == (x / 0x1_0000) % 256,
        be32(x)[2] as int == (x / 0x100) % 256,
        be32(x)[3] as int == x % 256,
{
    crate::encoding::bitfields::lemma_byte_split(x);
}

/// The halfword of two big-endian bytes.
pub open spec fn be16_value(b: Seq<u8>) -> u16 {
    (((b[0] as u16) << 8) | (b[1] as u16)) as u16
}

/// The word of four big-endian bytes.
pub open spec fn be32_value(b: Seq<u8>) -> u32 {
    (((b[0] as u32) << 24) | ((b[1] as u32) << 16) | ((b[2] as u32) << 8) | (b[3] as u32)) as u32
}

/// The tag of a message.
pub open spec fn tag_of(c: ProcessCommand) -> u16 {
    match c {
        ProcessCommand::Initialize => 0,
        ProcessCommand::Ack => 1,
        ProcessCommand::Size(..) => 2,
        ProcessCommand::Get(..) => 8,
        ProcessCommand::SetValue(..) => 9,
        ProcessCommand::Result(..) => 10,
        ProcessCommand::Error(..) => 256,
    }
}

/// The bytes of a message.
pub open spec fn encoded(c: ProcessCommand) -> Seq<u8> {
    be16(tag_of(c)) + match c {
        ProcessCommand::Initialize => Seq::empty(),
        ProcessCommand::Ack => Seq::empty(),
        ProcessCommand::Size(s) => be32(s@),
        ProcessCommand::Get(a) => be32(a@),
        ProcessCommand::SetValue(a, v) => be32(a@) + be32(v),
        ProcessCommand::Result(v) => be32(v),
        ProcessCommand::Error(s) => be32(encode_utf8(s@).len() as u32) + encode_utf8(s@),
    }
}

/// What the first bytes received so far are: a whole message, a message that needs more bytes
/// (the number it needs in all), or a message with an unknown tag.
pub enum DecodeStep {
    Command(ProcessCommand),
    NeedBytes(u64),
    InvalidTag,
}

/// The number of bytes of a message with the tag `tag`, given its first bytes `b`; `None` for an
/// unknown tag.
pub open spec fn message_len(tag: u16, b: Seq<u8>) -> Option<int> {
    if tag == 0 || tag == 1 {
        Some(2)
    } else if tag == 2 || tag == 8 || tag == 10 {
        Some(6)
    } else if tag == 9 {
        Some(10)
    } else if tag == 256 {
        if b.len() < 6 {
            Some(6)
        } else {
            Some(6 + be32_value(b.subrange(2, 6)))
        }
    } else {
        None
    }
}

/// Whether the bytes hold a whole error message whose text is not UTF-8: reading it stops the
/// program.
pub open spec fn bad_error_text(b: Seq<u8>) -> bool {
    &&& b.len() >= 6
    &&& be16_value(b) == 256
    &&& b.len() >= 6 + be32_value(b.subrange(2, 6))
    &&& !valid_utf8(b.subrange(6, 6 + be32_value(b.subrange(2, 6))))
}

/// Whether `step` is what the bytes `b` received so far are.
pub open spec fn decodes_as(b: Seq<u8>, step: DecodeStep) -> bool {
    if b.len() < 2 {
        step == DecodeStep::NeedBytes(2)
    } else {
        let tag = be16_value(b);
        match message_len(tag, b) {
            None => step is InvalidTag,
            Some(n) => if b.len() < n {
                step == DecodeStep::NeedBytes(n as u64)
            } else {
                step matches DecodeStep::Command(c) && tag_of(c) == tag && match c {
                    ProcessCommand::Size(s) => s@ == be32_value(b.subrange(2, 6)),
                    ProcessCommand::Get(a) => a@ == be32_value(b.subrange(2, 6)),
                    ProcessCommand::SetValue(a, v) => a@ == be32_value(b.subrange(2, 6)) && v == be32_value(
                        b.subrange(6, 10),
                    ),
                    ProcessCommand::Result(v) => v == be32_value(b.subrange(2, 6)),
                    ProcessCommand::Error(s) => s@ == decode_utf8(b.subrange(6, n)),
                    _ => true,
                }
            },
        }
    }
}

/// The text of `bytes` by the standard library's `String::from_utf8`, which is taken to succeed
/// exactly where the bytes are UTF-8, with the text that they encode.
#[verifier::external_body]
fn string_from_utf8(bytes: Vec<u8>) -> (r: Option<String>)
    ensures
        r is Some <==> valid_utf8(bytes@),
        r matches Some(s) ==> s@ == decode_utf8(bytes@),
{
    String::from_utf8(bytes).ok()
}

/// The bytes of `s` in UTF-8.
fn utf8_bytes(s: &str) -> (r: &[u8])
    ensures
        r@ == encode_utf8(s@),
{
    s.as_bytes()
}

/// Append the big-endian bytes of `x` to `out`.
fn push_be32(out: &mut Vec<u8>, x: u32)
    ensures
        final(out)@ == old(out)@ + be32(x),
{
    let ghost before = old(out)@;
    out.push((x >> 24) as u8);
    out.push((x >> 16) as u8);
    out.push((x >> 8) as u8);
    out.push(x as u8);
    proof {
        assert(out@ =~= before + be32(x));
    }
}

/// The word of four big-endian bytes from `at` on.
fn read_be32(b: &[u8], at: usize) -> (r: u32)
    requires
        at + 4 <= b@.len(),
    ensures
        r == be32_value(b@.subrange(at as int, at + 4)),
{
    ((b[at] as u32) << 24) | ((b[at + 1] as u32) << 16) | ((b[at + 2] as u32) << 8) | (b[at + 3] as u32)
}

impl ProcessCommand {
    /// The tag of the message.
    pub fn to_tag(&self) -> (r: u16)
        ensures
            r == tag_of(*self),
    {
        match self {
            ProcessCommand::Initialize => 0,
            ProcessCommand::Ack => 1,
            ProcessCommand::Size(..) => 2,
            ProcessCommand::Get(..) => 8,
            ProcessCommand::SetValue(..) => 9,
            ProcessCommand::Result(..) => 10,
            ProcessCommand::Error(..) => 256,
        }
    }

    /// The bytes of the message.
    pub fn serialize(&self) -> (r: Vec<u8>)
        ensures
            r@ == encoded(*self),
    {
        let tag = self.to_tag();
        let mut out: Vec<u8> = Vec::new();
        out.push((tag >> 8) as u8);
        out.push(tag as u8);
        proof {
            assert(out@ =~= be16(tag));
        }
        match self {
            ProcessCommand::Initialize | ProcessCommand::Ack => {},
            ProcessCommand::Size(size) => push_be32(&mut out, size.as_usize() as u32),
            ProcessCommand::Get(addr) => push_be32(&mut out, addr.as_u32()),
            ProcessCommand::SetValue(addr, value) => {
                push_be32(&mut out, addr.as_u32());
                push_be32(&mut out, *value);
            },
            ProcessCommand::Result(value) => push_be32(&mut out, *value),
            ProcessCommand::Error(string) => {
                let bytes = utf8_bytes(string.as_str());
                push_be32(&mut out, bytes.len() as u32);
                let mut i: usize = 0;
                let ghost head = out@;
                while i < bytes.len()
                    invariant
                        i <= bytes@.len(),
                        out@ == head + bytes@.take(i as int),
                    decreases bytes@.len() - i,
                {
                    out.push(bytes[i]);
                    proof {
                        assert(bytes@.take(i + 1) =~= bytes@.take(i as int).push(bytes@[i as int]));
                    }
                    i = i + 1;
                }
                proof {
                    assert(bytes@.take(bytes@.len() as int) =~= bytes@);
                }
            },
        }
        proof {
            assert(out@ =~= encoded(*self));
        }
        out
    }

    /// What the bytes received so far are: a whole message read from their start, the number of
    /// bytes that the message needs in all, or an unknown tag.
    pub fn deserialize(bytes: &[u8]) -> (r: DecodeStep)
        requires
            !bad_error_text(bytes@),
        ensures
            decodes_as(bytes@, r),
    {
        let n = bytes.len();
        if n < 2 {
            return DecodeStep::NeedBytes(2);
        }
        let tag: u16 = ((bytes[0] as u16) << 8) | (bytes[1] as u16);
        proof {
            assert(tag == be16_value(bytes@));
        }
        if tag == 0 {
            DecodeStep::Command(ProcessCommand::Initialize)
        } else if tag == 1 {
            DecodeStep::Command(ProcessCommand::Ack)
        } else if tag == 2 || tag == 8 || tag == 10 {
            if n < 6 {
                return DecodeStep::NeedBytes(6);
            }
            let value = read_be32(bytes, 2);
            if tag == 2 {
                DecodeStep::Command(ProcessCommand::Size(Size::of(value)))
            } else if tag == 8 {
                DecodeStep::Command(ProcessCommand::Get(Addr::at(value)))
            } else {
                DecodeStep::Command(ProcessCommand::Result(value))
            }
        } else if tag == 9 {
            if n < 10 {
                return DecodeStep::NeedBytes(10);
            }
            let addr = read_be32(bytes, 2);
            let value = read_be32(bytes, 6);
            DecodeStep::Command(ProcessCommand::SetValue(Addr::at(addr), value))
        } else if tag == 256 {
            if n < 6 {
                return DecodeStep::NeedBytes(6);
            }
            let size = read_be32(bytes, 2);
            let total: u64 = 6 + size as u64;
            if (n as u64) < total {
                return DecodeStep::NeedBytes(total);
            }
            let mut text: Vec<u8> = Vec::new();
            let end = total as usize;
            let mut i: usize = 6;
            while i < end
                invariant
                    6 <= i <= end,
                    end <= bytes@.len(),
                    text@ == bytes@.subrange(6, i as int),
                decreases end - i,
            {
                text.push(bytes[i]);
                proof {
                    assert(text@ =~= bytes@.subrange(6, i + 1));
                }
                i = i + 1;
            }
            match string_from_utf8(text) {
                Some(s) => DecodeStep::Command(ProcessCommand::Error(s)),
                None => {
                    proof {
                        assert(bad_error_text(bytes@));
                    }
                    DecodeStep::InvalidTag
                },
            }
        } else {
            DecodeStep::InvalidTag
        }
    }
}

/// Whether two messages are the same: the same kind, the same operands and the same text.
pub open spec fn same_message(a: ProcessCommand, b: ProcessCommand) -> bool {
    match (a, b) {
        (ProcessCommand::Initialize, ProcessCommand::Initialize) => true,
        (ProcessCommand::Ack, ProcessCommand::Ack) => true,
        (ProcessCommand::Size(x), ProcessCommand::Size(y)) => x@ == y@,
        (ProcessCommand::Get(x), ProcessCommand::Get(y)) => x@ == y@,
        (ProcessCommand::SetValue(x, v), ProcessCommand::SetValue(y, w)) => x@ == y@ && v == w,
        (ProcessCommand::Result(v), ProcessCommand::Result(w)) => v == w,
        (ProcessCommand::Error(s), ProcessCommand::Error(t)) => s@ == t@,
        _ => false,
    }
}

/// The big-endian bytes of a halfword and of a word give it back.
proof fn lemma_big_endian(t: u16, x: u32)
    by (bit_vector)
    ensures
        ((((t >> 8) as u8) as u16) << 8 | ((t as u8) as u16)) == t,
        ((((x >> 24) as u8) as u32) << 24 | ((((x >> 16) as u8) as u32) << 16) | ((((x >> 8) as u8) as u32) << 8)
            | ((x as u8) as u32)) == x,
{
}

/// The word read from the big-endian bytes of `x` is `x`.
proof fn lemma_be32_value(x: u32)
    ensures
        be32_value(be32(x)) == x,
{
    lemma_big_endian(0, x);
}

/// A message read back from its own bytes is the message: the same kind, the same operands and,
/// for an error, the same text.
pub proof fn law_decode_encoded(c: ProcessCommand, step: DecodeStep)
    requires
        c matches ProcessCommand::Error(s) ==> encode_utf8(s@).len() <= u32::MAX,
        decodes_as(encoded(c), step),
    ensures
        step matches DecodeStep::Command(d) && same_message(c, d),
{
    let b = encoded(c);
    let t = tag_of(c);
    lemma_big_endian(t, 0);
    assert(be16_value(b) == t);
    match c {
        ProcessCommand::Size(x) => {
            lemma_be32_value(x@);
            assert(b.subrange(2, 6) =~= be32(x@));
        },
        ProcessCommand::Get(x) => {
            lemma_be32_value(x@);
            assert(b.subrange(2, 6) =~= be32(x@));
        },
        ProcessCommand::SetValue(x, v) => {
            lemma_be32_value(x@);
            lemma_be32_value(v);
            assert(b.subrange(2, 6) =~= be32(x@));
            assert(b.subrange(6, 10) =~= be32(v));
        },
        ProcessCommand::Result(v) => {
            lemma_be32_value(v);
            assert(b.subrange(2, 6) =~= be32(v));
        },
        ProcessCommand::Error(s) => {
            let text = encode_utf8(s@);
            lemma_be32_value(text.len() as u32);
            assert(b.subrange(2, 6) =~= be32(text.len() as u32));
            assert(b.subrange(6, 6 + text.len() as int) =~= text);
            encode_utf8_decode_utf8(s@);
        },
        _ => {},
    }
}

} // verus!
