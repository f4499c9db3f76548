//! Talking to the packet disassembler: how it is started, what it is sent for
//! a packet, and how its answer is read.
//!
//! The disassembler is `tcpdump`, reading a capture from its standard input.
//! It is sent the header of a capture file once, then one record for each
//! packet, and answers each record with one line.

use vstd::prelude::*;
use vstd::slice::slice_subrange;
use vstd::string::StringExecFns;
use vstd::string::StringSliceAdditionalSpecFns;
use vstd::utf8::{decode_utf8, encode_utf8_decode_utf8, valid_utf8};

use crate::display::Dissection;
use crate::skb::SkbPacketEvent;

verus! {

/// The program that disassembles packets.
pub const TCPDUMP: &'static str = "tcpdump";

/// The arguments the disassembler is started with, `-e` last where
/// link-layer information is shown.
pub open spec fn spec_tcpdump_args(print_ll: bool) -> Seq<Seq<char>> {
    let args = seq![
        "-l"@,
        "--absolute-tcp-sequence-number"@,
        "--dont-verify-checksums"@,
        "-nn"@,
        "-t"@,
        "-r"@,
        "-"@,
    ];
    if print_ll {
        args.push("-e"@)
    } else {
        args
    }
}

/// The arguments the disassembler is started with.
pub fn tcpdump_args(print_ll: bool) -> (r: Vec<&'static str>)
    ensures
        r@.map_values(|arg: &'static str| arg@) == spec_tcpdump_args(print_ll),
{
    let mut args: Vec<&'static str> = Vec::new();
    args.push("-l");
    args.push("--absolute-tcp-sequence-number");
    args.push("--dont-verify-checksums");
    args.push("-nn");
    args.push("-t");
    args.push("-r");
    args.push("-");
    if print_ll {
        args.push("-e");
    }
    assert(args@.map_values(|arg: &'static str| arg@) =~= spec_tcpdump_args(print_ll));
    args
}

/// The header of a capture file: magic number in little-endian order,
/// version 2.4, no time zone offset, no accuracy, a snapshot length of
/// 2^18 bytes, and Ethernet as the link type.
pub open spec fn spec_file_header() -> Seq<u8> {
    seq![
        0xd4u8, 0xc3, 0xb2, 0xa1,
        0x02, 0x00, 0x04, 0x00,
        0x00, 0x00, 0x00, 0x00,
        0x00, 0x00, 0x00, 0x00,
        0x00, 0x00, 0x04, 0x00,
        0x01, 0x00, 0x00, 0x00,
    ]
}

/// The header of a capture file.
pub fn pcap_file_header() -> (r: Vec<u8>)
    ensures
        r@ == spec_file_header(),
{
    let header: [u8; 24] = [
        0xd4, 0xc3, 0xb2, 0xa1,
        0x02, 0x00, 0x04, 0x00,
        0x00, 0x00, 0x00, 0x00,
        0x00, 0x00, 0x00, 0x00,
        0x00, 0x00, 0x04, 0x00,
        0x01, 0x00, 0x00, 0x00,
    ];
    let mut r: Vec<u8> = Vec::new();
    let mut i: usize = 0;
    while i < 24
        invariant
            i <= 24,
            r@ == header@.take(i as int),
        decreases 24 - i,
    {
        r.push(header[i]);
        i += 1;
    }
    assert(r@ =~= spec_file_header());
    r
}

/// The order in which the bytes of a number are stored.
#[derive(Debug, Clone, Copy, PartialEq, Eq, Structural)]
pub enum ByteOrder {
    /// Least significant byte first.
    Little,
    /// Most significant byte first.
    Big,
}

/// The four bytes of `x` in the given order.
pub open spec fn u32_bytes(x: u32, order: ByteOrder) -> Seq<u8> {
    let b0 = (x % 256) as u8;
    let b1 = (x / 0x100 % 256) as u8;
    let b2 = (x / 0x1_0000 % 256) as u8;
    let b3 = (x / 0x100_0000) as u8;
    match order {
        ByteOrder::Little => seq![b0, b1, b2, b3],
        ByteOrder::Big => seq![b3, b2, b1, b0],
    }
}

/// `u32::to_ne_bytes` of std: the bytes of the number in the order of the
/// machine, which is one of the two.
#[verifier::external_body]
fn ne_bytes(x: u32) -> (r: [u8; 4])
    ensures
        r@ == u32_bytes(x, ByteOrder::Little) || r@ == u32_bytes(x, ByteOrder::Big),
{
    x.to_ne_bytes()
}

/// The byte order of the machine.
pub fn native_order() -> ByteOrder {
    order_of(ne_bytes(1))
}

/// The byte order that `probe` shows, taken as the bytes of the number one:
/// its only byte that is not zero is the least significant, and stands first
/// in little-endian order.
pub open spec fn spec_order_of(probe: Seq<u8>) -> ByteOrder {
    if probe[0] == 1 {
        ByteOrder::Little
    } else {
        ByteOrder::Big
    }
}

/// The byte order of a machine that stores the number one as `probe`.
pub fn order_of(probe: [u8; 4]) -> (r: ByteOrder)
    ensures
        r == spec_order_of(probe@),
        forall|order: ByteOrder| probe@ == u32_bytes(1, order) ==> r == order,
{
    if probe[0] == 1 {
        ByteOrder::Little
    } else {
        ByteOrder::Big
    }
}

/// Appends the four bytes of `x` in the given order.
pub fn push_u32(out: &mut Vec<u8>, x: u32, order: ByteOrder)
    ensures
        final(out)@ == old(out)@ + u32_bytes(x, order),
{
    let b0 = (x % 256) as u8;
    let b1 = (x / 0x100 % 256) as u8;
    let b2 = (x / 0x1_0000 % 256) as u8;
    let b3 = (x / 0x100_0000) as u8;
    match order {
        ByteOrder::Little => {
            out.push(b0);
            out.push(b1);
            out.push(b2);
            out.push(b3);
        },
        ByteOrder::Big => {
            out.push(b3);
            out.push(b2);
            out.push(b1);
            out.push(b0);
        },
    }
    assert(out@ =~= old(out)@ + u32_bytes(x, order));
}

/// The record of a packet in a capture: both fields of the timestamp zero,
/// the length of the capture, the length of the packet, then the bytes that
/// were captured.
pub open spec fn spec_record(event: &SkbPacketEvent, order: ByteOrder) -> Seq<u8> {
    u32_bytes(0, order) + u32_bytes(0, order) + u32_bytes(event.capture_len, order) + u32_bytes(
        event.len,
        order,
    ) + event.packet.0@
}

/// The record of a packet, with its numbers in the given byte order.
pub fn pcap_record_in(event: &SkbPacketEvent, order: ByteOrder) -> (r: Vec<u8>)
    ensures
        r@ == spec_record(event, order),
{
    let mut buf: Vec<u8> = Vec::new();
    push_u32(&mut buf, 0, order);
    push_u32(&mut buf, 0, order);
    push_u32(&mut buf, event.capture_len, order);
    push_u32(&mut buf, event.len, order);
    let mut i: usize = 0;
    let ghost head = buf@;
    while i < event.packet.0.len()
        invariant
            i <= event.packet.0.len(),
            buf@ == head + event.packet.0@.take(i as int),
        decreases event.packet.0.len() - i,
    {
        buf.push(event.packet.0[i]);
        i += 1;
    }
    assert(event.packet.0@.take(i as int) =~= event.packet.0@);
    assert(buf@ =~= spec_record(event, order));
    buf
}

/// The record of a packet, with its numbers in the byte order of the
/// machine.
pub fn pcap_record(event: &SkbPacketEvent) -> (r: Vec<u8>)
    ensures
        r@ == spec_record(event, ByteOrder::Little) || r@ == spec_record(event, ByteOrder::Big),
{
    pcap_record_in(event, native_order())
}

/// How many bytes are asked of the disassembler in one read. A read that
/// returns fewer ends the answer.
pub const READ_SIZE: usize = 250;

/// `core::str::Utf8Error` of std.
#[verifier::external_type_specification]
#[verifier::external_body]
pub struct ExUtf8Error(core::str::Utf8Error);

/// `core::str::from_utf8` of std: the string slice over the bytes, where they
/// are UTF-8, and an error where they are not.
pub assume_specification<'a>[ core::str::from_utf8 ](v: &'a [u8]) -> (r: Result<
    &'a str,
    core::str::Utf8Error,
>)
    ensures
        r is Ok <==> valid_utf8(v@),
        r matches Ok(s) ==> s.spec_bytes() == v@,
;

/// Why the answer of the disassembler was given up.
#[derive(Debug, Clone, Copy, PartialEq, Eq, Structural)]
pub enum ReadError {
    /// What a read returned is not UTF-8.
    NotUtf8,
}

/// What to do after a read.
#[derive(Debug, Clone, Copy, PartialEq, Eq, Structural)]
pub enum ReadStep {
    /// The read filled its buffer: read again.
    More,
    /// The answer is complete.
    Done,
}

/// The part of a read that belongs to the answer: all of a full read, and
/// all but the last byte, the line break, of the read that ends the answer.
pub open spec fn payload(chunk: Seq<u8>) -> Seq<u8> {
    if chunk.len() < READ_SIZE {
        chunk.drop_last()
    } else {
        chunk
    }
}

/// Collects the answer of the disassembler to one record.
pub struct LineReader {
    line: String,
}

impl LineReader {
    /// What was read of the answer so far.
    pub closed spec fn line(&self) -> Seq<char> {
        self.line@
    }

    /// A reader that has read nothing.
    pub fn new() -> (r: LineReader)
        ensures
            r.line() == Seq::<char>::empty(),
    {
        LineReader { line: String::new() }
    }

    /// Takes what one read returned. The bytes of each read are text by
    /// themselves; where they are not, the reader stays as it was.
    pub fn feed(&mut self, chunk: &[u8]) -> (r: Result<ReadStep, ReadError>)
        requires
            chunk@.len() > 0,
        ensures
            match r {
                Ok(step) => valid_utf8(payload(chunk@)) && final(self).line() == old(self).line()
                    + decode_utf8(payload(chunk@)) && step == if chunk@.len() < READ_SIZE {
                    ReadStep::Done
                } else {
                    ReadStep::More
                },
                Err(e) => !valid_utf8(payload(chunk@)) && e == ReadError::NotUtf8
                    && final(self).line() == old(self).line(),
            },
    {
        let read = chunk.len();
        let (bytes, step) = if read < READ_SIZE {
            // Skip the newline at EOL.
            assert(chunk@.drop_last() =~= chunk@.subrange(0, read - 1));
            (slice_subrange(chunk, 0, read - 1), ReadStep::Done)
        } else {
            assert(chunk@ =~= chunk@.subrange(0, read as int));
            (slice_subrange(chunk, 0, read), ReadStep::More)
        };
        match core::str::from_utf8(bytes) {
            Ok(text) => {
                proof {
                    encode_utf8_decode_utf8(text@);
                }
                self.line.append(text);
                Ok(step)
            },
            Err(_) => Err(ReadError::NotUtf8),
        }
    }

    /// The answer, once it is complete.
    pub fn finish(self) -> (r: Dissection)
        ensures
            r matches Dissection::Text(line) && line@ == self.line(),
    {
        Dissection::Text(self.line)
    }
}

impl Dissection {
    /// What is shown when the disassembler cannot be asked or its answer
    /// cannot be read: nothing after a broken pipe, which is what an
    /// interrupted program sees, and a failure in every other case.
    pub fn of_failure(broken_pipe: bool) -> (r: Dissection)
        ensures
            r == if broken_pipe {
                Dissection::BrokenPipe
            } else {
                Dissection::Failed
            },
    {
        if broken_pipe {
            Dissection::BrokenPipe
        } else {
            Dissection::Failed
        }
    }
}

} // verus!
