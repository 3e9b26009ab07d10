//! The Ogg Opus stream that a recording is encoded into: its two header
//! packets, granule positions, stream serial number, and the Ogg writer.
use vstd::prelude::*;
use ogg::PacketWriter;
use ogg::PacketWriteEndInfo;
use crate::framing::{frame_size_for, frame_size_spec};

verus! {

/// `x` as two little-endian bytes.
pub open spec fn le16(x: int) -> Seq<u8> {
    seq![(x % 256) as u8, ((x / 256) % 256) as u8]
}

/// `x` as four little-endian bytes.
pub open spec fn le32(x: int) -> Seq<u8> {
    seq![
        (x % 256) as u8,
        ((x / 256) % 256) as u8,
        ((x / 65536) % 256) as u8,
        ((x / 16777216) % 256) as u8,
    ]
}

/// The number that four little-endian bytes stand for.
pub open spec fn from_le32(b: Seq<u8>) -> int
    recommends
        b.len() == 4,
{
    b[0] + 256 * b[1] + 65536 * b[2] + 16777216 * b[3]
}

/// `OpusHead`.
pub open spec fn opus_head_magic() -> Seq<u8> {
    seq![79u8, 112u8, 117u8, 115u8, 72u8, 101u8, 97u8, 100u8]
}

/// `OpusTags`.
pub open spec fn opus_tags_magic() -> Seq<u8> {
    seq![79u8, 112u8, 117u8, 115u8, 84u8, 97u8, 103u8, 115u8]
}

/// The vendor string of the comment header, `voxtral-speech-to-text`.
pub open spec fn vendor_bytes() -> Seq<u8> {
    seq![
        118u8, 111u8, 120u8, 116u8, 114u8, 97u8, 108u8, 45u8, 115u8, 112u8, 101u8, 101u8, 99u8,
        104u8, 45u8, 116u8, 111u8, 45u8, 116u8, 101u8, 120u8, 116u8,
    ]
}

/// The identification header of a mono stream recorded at `sample_rate` Hz:
/// version 1, one channel, no pre-skip, the input rate, no gain, mapping
/// family 0.
pub open spec fn opus_head(sample_rate: u32) -> Seq<u8> {
    opus_head_magic() + seq![1u8, 1u8] + le16(0) + le32(sample_rate as int) + le16(0) + seq![0u8]
}

/// The comment header: the vendor string and no user comments.
pub open spec fn opus_tags() -> Seq<u8> {
    opus_tags_magic() + le32(vendor_bytes().len() as int) + vendor_bytes() + le32(0)
}

/// The granule position after a frame of `frame_size` samples at
/// `sample_rate` Hz, counted in 48 kHz units and saturating at `u64::MAX`.
pub open spec fn granule_after(gp: int, frame_size: int, sample_rate: int) -> int {
    let next = gp + frame_size * 48000 / sample_rate;
    if next > u64::MAX {
        u64::MAX as int
    } else {
        next
    }
}

/// A granule position never moves back, and it moves on by exactly one
/// frame's worth of 48 kHz samples until it saturates.
pub proof fn law_granule_monotone(gp: u64, frame_size: usize, sample_rate: u32)
    requires
        sample_rate > 0,
    ensures
        granule_after(gp as int, frame_size as int, sample_rate as int) >= gp,
        granule_after(gp as int, frame_size as int, sample_rate as int) <= u64::MAX,
        gp + frame_size * 48000 / (sample_rate as int) <= u64::MAX ==> granule_after(
            gp as int,
            frame_size as int,
            sample_rate as int,
        ) == gp + frame_size * 48000 / (sample_rate as int),
{
    assert(frame_size * 48000 / (sample_rate as int) >= 0) by (nonlinear_arith)
        requires
            frame_size >= 0,
            sample_rate > 0,
    ;
}

/// Reading back four little-endian bytes gives the number written.
pub proof fn law_le32_round_trip(x: u32)
    ensures
        from_le32(le32(x as int)) == x,
{
    let v = x as int;
    let b0 = v % 256;
    let b1 = (v / 256) % 256;
    let b2 = (v / 65536) % 256;
    let b3 = (v / 16777216) % 256;
    assert(b0 + 256 * b1 + 65536 * b2 + 16777216 * b3 == v) by (nonlinear_arith)
        requires
            0 <= v < 0x1_0000_0000,
            b0 == v % 256,
            b1 == (v / 256) % 256,
            b2 == (v / 65536) % 256,
            b3 == (v / 16777216) % 256,
    ;
    assert(0 <= b0 < 256 && 0 <= b1 < 256 && 0 <= b2 < 256 && 0 <= b3 < 256);
}

/// The identification header is 19 bytes: the magic, version 1, one
/// channel, and at offset 12 the sample rate, which reads back as written.
pub proof fn law_opus_head_layout(sample_rate: u32)
    ensures
        opus_head(sample_rate).len() == 19,
        opus_head(sample_rate).subrange(0, 8) == opus_head_magic(),
        opus_head(sample_rate)[8] == 1,
        opus_head(sample_rate)[9] == 1,
        from_le32(opus_head(sample_rate).subrange(12, 16)) == sample_rate,
{
    let h = opus_head(sample_rate);
    assert(h.subrange(0, 8) =~= opus_head_magic());
    assert(h.subrange(12, 16) =~= le32(sample_rate as int));
    law_le32_round_trip(sample_rate);
}

/// The comment header is 38 bytes and its length field counts the vendor
/// string that follows it.
pub proof fn law_opus_tags_layout()
    ensures
        opus_tags().len() == 38,
        opus_tags().subrange(0, 8) == opus_tags_magic(),
        from_le32(opus_tags().subrange(8, 12)) == vendor_bytes().len(),
        opus_tags().subrange(12, 34) == vendor_bytes(),
{
    let t = opus_tags();
    assert(t.subrange(0, 8) =~= opus_tags_magic());
    assert(t.subrange(8, 12) =~= le32(22));
    assert(t.subrange(12, 34) =~= vendor_bytes());
    law_le32_round_trip(22);
}

fn push_le16(out: &mut Vec<u8>, x: u16)
    ensures
        final(out)@ == old(out)@ + le16(x as int),
{
    out.push((x % 256) as u8);
    out.push(((x / 256) % 256) as u8);
    proof {
        assert(final(out)@ =~= old(out)@ + le16(x as int));
    }
}

fn push_le32(out: &mut Vec<u8>, x: u32)
    ensures
        final(out)@ == old(out)@ + le32(x as int),
{
    out.push((x % 256) as u8);
    out.push(((x / 256) % 256) as u8);
    out.push(((x / 65536) % 256) as u8);
    out.push(((x / 16777216) % 256) as u8);
    proof {
        assert(final(out)@ =~= old(out)@ + le32(x as int));
    }
}

fn push_all(out: &mut Vec<u8>, bytes: &[u8])
    ensures
        final(out)@ == old(out)@ + bytes@,
{
    let mut k: usize = 0;
    while k < bytes.len()
        invariant
            k <= bytes.len(),
            out@ == old(out)@ + bytes@.take(k as int),
        decreases bytes.len() - k,
    {
        out.push(bytes[k]);
        proof {
            assert(bytes@.take(k + 1) =~= bytes@.take(k as int).push(bytes@[k as int]));
            assert(old(out)@ + bytes@.take(k + 1) =~= (old(out)@ + bytes@.take(k as int)).push(
                bytes@[k as int],
            ));
        }
        k = k + 1;
    }
    proof {
        assert(bytes@.take(k as int) =~= bytes@);
    }
}

/// The identification header for a mono stream at `sample_rate` Hz.
pub fn opus_head_packet(sample_rate: u32) -> (r: Vec<u8>)
    ensures
        r@ == opus_head(sample_rate),
{
    let magic: [u8; 8] = [79, 112, 117, 115, 72, 101, 97, 100];
    let mut out: Vec<u8> = Vec::new();
    push_all(&mut out, &magic);
    out.push(1);
    out.push(1);
    push_le16(&mut out, 0);
    push_le32(&mut out, sample_rate);
    push_le16(&mut out, 0);
    out.push(0);
    proof {
        assert(magic@ =~= opus_head_magic());
        assert(out@ =~= opus_head(sample_rate));
    }
    out
}

/// The comment header.
pub fn opus_tags_packet() -> (r: Vec<u8>)
    ensures
        r@ == opus_tags(),
{
    let magic: [u8; 8] = [79, 112, 117, 115, 84, 97, 103, 115];
    let vendor: [u8; 22] = [
        118, 111, 120, 116, 114, 97, 108, 45, 115, 112, 101, 101, 99, 104, 45, 116, 111, 45, 116,
        101, 120, 116,
    ];
    let mut out: Vec<u8> = Vec::new();
    push_all(&mut out, &magic);
    push_le32(&mut out, 22);
    push_all(&mut out, &vendor);
    push_le32(&mut out, 0);
    proof {
        assert(magic@ =~= opus_tags_magic());
        assert(vendor@ =~= vendor_bytes());
        assert(out@ =~= opus_tags());
    }
    out
}

/// The granule position after one more frame, saturating at `u64::MAX`.
pub fn next_granule(gp: u64, frame_size: usize, sample_rate: u32) -> (r: u64)
    requires
        sample_rate > 0,
        frame_size * 48000 <= u64::MAX,
    ensures
        r == granule_after(gp as int, frame_size as int, sample_rate as int),
{
    let step = (frame_size as u64) * 48_000u64 / (sample_rate as u64);
    gp.saturating_add(step)
}

/// The serial number of a stream started `nanos` nanoseconds after the Unix
/// epoch: the low 64 bits of the time, mixed with a constant, cut to 32 bits.
pub fn stream_serial(nanos: u128) -> (r: u32)
    ensures
        r == (nanos as u32) ^ 0xF00D_F00Du32,
{
    let low = nanos as u64;
    let r = (low ^ 0xA5A5_5A5A_F00D_F00Du64) as u32;
    proof {
        assert(((low ^ 0xA5A5_5A5A_F00D_F00Du64) as u32) == (low as u32) ^ 0xF00D_F00Du32)
            by (bit_vector);
        assert((nanos as u64) as u32 == nanos as u32) by (bit_vector);
    }
    r
}

/// An `ogg::PacketWriter` that frames packets into Ogg pages in a vector.
/// Its contents are opaque: what it has been given is known through
/// `ogg_packets_written`, and what it puts out through `ogg_stream_bytes`.
#[verifier::external_body]
pub struct OggWriter {
    inner: PacketWriter<'static, Vec<u8>>,
}

/// Declares `std::io::Error`, the error of the Ogg writer.
#[verifier::external_type_specification]
#[verifier::external_body]
pub struct ExIoError(std::io::Error);

/// How a packet ends: a plain packet, the end of a page, the end of the stream.
pub enum PacketEnd {
    Normal,
    EndPage,
    EndStream,
}

/// The code of a packet end in the packet log: 0, 1, 2.
pub open spec fn end_code(e: PacketEnd) -> u8 {
    match e {
        PacketEnd::Normal => 0,
        PacketEnd::EndPage => 1,
        PacketEnd::EndStream => 2,
    }
}

/// The packets handed to an Ogg writer so far, in order: contents, stream
/// serial number, end code, granule position.
pub uninterp spec fn ogg_packets_written(w: OggWriter) -> Seq<(Seq<u8>, u32, u8, u64)>;

/// The bytes of the Ogg stream that an `ogg::PacketWriter` on an empty vector
/// puts out for the packets `log`, written in order (contents, stream serial
/// number, end code, granule position). The writer's pages depend on these
/// writes alone.
pub uninterp spec fn ogg_stream_bytes(log: Seq<(Seq<u8>, u32, u8, u64)>) -> Seq<u8>;

/// `PacketWriter::new` on an empty vector: no packet written yet.
#[verifier::external_body]
fn ogg_writer_new() -> (w: OggWriter)
    ensures
        ogg_packets_written(w) == Seq::<(Seq<u8>, u32, u8, u64)>::empty(),
{
    OggWriter { inner: PacketWriter::new(Vec::new()) }
}

/// `PacketWriter::write_packet` into the writer's vector: the packet becomes
/// the last one written. The writer fails only when its sink fails, and a
/// `Vec<u8>` (with the `Cursor` it builds each page header in) never does, so
/// the write succeeds.
#[verifier::external_body]
fn ogg_write_packet(
    w: &mut OggWriter,
    data: Vec<u8>,
    serial: u32,
    end: PacketEnd,
    absgp: u64,
) -> (r: Result<(), std::io::Error>)
    ensures
        r is Ok,
        ogg_packets_written(*final(w)) == ogg_packets_written(*old(w)).push(
            (data@, serial, end_code(end), absgp),
        ),
{
    let inf = match end {
        PacketEnd::Normal => PacketWriteEndInfo::NormalPacket,
        PacketEnd::EndPage => PacketWriteEndInfo::EndPage,
        PacketEnd::EndStream => PacketWriteEndInfo::EndStream,
    };
    w.inner.write_packet(data, serial, inf, absgp)
}

/// `PacketWriter::into_inner`: the vector the pages were written into, which
/// holds the stream of the packets written, in order.
#[verifier::external_body]
fn ogg_writer_bytes(w: OggWriter) -> (r: Vec<u8>)
    ensures
        r@ == ogg_stream_bytes(ogg_packets_written(w)),
{
    w.inner.into_inner()
}

/// The `Display` text of an I/O error; nothing is stated of it.
#[verifier::external_body]
fn io_error_text(e: &std::io::Error) -> String {
    format!("{}", e)
}

/// `prefix` followed by the text of `e`.
fn error_message(prefix: &str, e: &std::io::Error) -> (m: String)
    ensures
        exists|t: Seq<char>| m@ == prefix@ + t,
{
    let mut m = prefix.to_owned();
    let t = io_error_text(e);
    m.append(t.as_str());
    m
}

/// The Ogg stream of one recording: header packets first, then one packet
/// per encoded 20 ms frame, each stamped with the running granule position.
pub struct OggOpusStream {
    writer: OggWriter,
    serial: u32,
    sample_rate: u32,
    frame_size: usize,
    granulepos: u64,
}

impl OggOpusStream {
    /// The stream's own bookkeeping holds together.
    pub closed spec fn wf(&self) -> bool {
        self.sample_rate > 0 && self.frame_size == frame_size_spec(self.sample_rate)
    }

    /// The packets written so far.
    pub closed spec fn packets(&self) -> Seq<(Seq<u8>, u32, u8, u64)> {
        ogg_packets_written(self.writer)
    }

    /// The granule position of the last packet.
    pub closed spec fn granule(&self) -> u64 {
        self.granulepos
    }

    /// The stream serial number.
    pub closed spec fn serial_number(&self) -> u32 {
        self.serial
    }

    /// The sample rate.
    pub closed spec fn rate(&self) -> u32 {
        self.sample_rate
    }

    /// Starts a stream at `sample_rate` Hz with serial number `serial`,
    /// writing the identification and comment headers, each on a page of its
    /// own at granule position 0.
    pub fn start(sample_rate: u32, serial: u32) -> (r: Result<Self, String>)
        requires
            sample_rate > 0,
        ensures
            r is Ok,
            r matches Ok(s) ==> s.wf() && s.packets() == seq![
                (opus_head(sample_rate), serial, 1u8, 0u64),
                (opus_tags(), serial, 1u8, 0u64),
            ] && s.granule() == 0 && s.serial_number() == serial && s.rate() == sample_rate,
    {
        let mut writer = ogg_writer_new();
        let head = opus_head_packet(sample_rate);
        match ogg_write_packet(&mut writer, head, serial, PacketEnd::EndPage, 0) {
            Ok(()) => {},
            Err(e) => {
                return Err(error_message("Failed to write Opus header: ", &e));
            },
        }
        let tags = opus_tags_packet();
        match ogg_write_packet(&mut writer, tags, serial, PacketEnd::EndPage, 0) {
            Ok(()) => {},
            Err(e) => {
                return Err(error_message("Failed to write Opus comments: ", &e));
            },
        }
        let s = OggOpusStream {
            writer,
            serial,
            sample_rate,
            frame_size: frame_size_for(sample_rate),
            granulepos: 0,
        };
        proof {
            assert(s.packets() =~= seq![
                (opus_head(sample_rate), serial, 1u8, 0u64),
                (opus_tags(), serial, 1u8, 0u64),
            ]);
        }
        Ok(s)
    }

    /// Writes the encoded packet of one frame; the granule position moves on
    /// by one frame first.
    pub fn write_frame(&mut self, packet: Vec<u8>) -> (r: Result<(), String>)
        requires
            old(self).wf(),
        ensures
            final(self).wf(),
            final(self).granule() == granule_after(
                old(self).granule() as int,
                frame_size_spec(old(self).rate()),
                old(self).rate() as int,
            ),
            final(self).serial_number() == old(self).serial_number(),
            final(self).rate() == old(self).rate(),
            r is Ok,
            final(self).packets() == old(self).packets().push(
                (packet@, old(self).serial_number(), 0u8, final(self).granule()),
            ),
    {
        self.granulepos = next_granule(self.granulepos, self.frame_size, self.sample_rate);
        match ogg_write_packet(
            &mut self.writer,
            packet,
            self.serial,
            PacketEnd::Normal,
            self.granulepos,
        ) {
            Ok(()) => Ok(()),
            Err(e) => Err(error_message("Failed to write Opus packet: ", &e)),
        }
    }

    /// Ends the stream with an empty packet at the current granule position
    /// and returns the bytes of the whole stream.
    pub fn finish(self) -> (r: Result<Vec<u8>, String>)
        ensures
            r is Ok,
            r matches Ok(bytes) ==> bytes@ == ogg_stream_bytes(
                self.packets().push((Seq::<u8>::empty(), self.serial_number(), 2u8, self.granule())),
            ),
    {
        let mut writer = self.writer;
        match ogg_write_packet(
            &mut writer,
            Vec::new(),
            self.serial,
            PacketEnd::EndStream,
            self.granulepos,
        ) {
            Ok(()) => {
                let ghost w = writer;
                let bytes = ogg_writer_bytes(writer);
                proof {
                    assert(ogg_packets_written(w) == self.packets().push(
                        (Seq::<u8>::empty(), self.serial_number(), 2u8, self.granule()),
                    ));
                }
                Ok(bytes)
            },
            Err(e) => Err(error_message("Failed to finalize Opus stream: ", &e)),
        }
    }
}

} // verus!
