//! Checking a finished recording for speech: reading its Ogg packets,
//! collecting the decoded samples, and preparing the input of the voice
//! activity detector.
use vstd::prelude::*;
use ogg::{OggReadError, PacketReader};
use std::io::Cursor;
use crate::framing::{full_frames, OpusFramer};

verus! {

/// Declares `ogg::OggReadError`.
#[verifier::external_type_specification]
#[verifier::external_body]
pub struct ExOggReadError(OggReadError);

/// An `ogg::PacketReader` over a cursor on an in-memory stream. Its contents
/// are opaque: the bytes it reads are known through `ogg_source_bytes`, the
/// reads made through `ogg_source_reads`.
#[verifier::external_body]
pub struct OggPacketSource {
    reader: PacketReader<Cursor<Vec<u8>>>,
}

/// What the read at position `k` (counting from 0) of an `ogg::PacketReader`
/// over an in-memory stream of `data` gives, after the `k` reads before it:
/// `None` for a read error, `Some(None)` at the end of the stream,
/// `Some(Some(p))` for a packet whose data is `p`.
pub uninterp spec fn ogg_read_outcome(data: Seq<u8>, k: nat) -> Option<Option<Seq<u8>>>;

/// The bytes of the stream a packet source reads.
pub uninterp spec fn ogg_source_bytes(src: OggPacketSource) -> Seq<u8>;

/// How many reads a packet source has made.
pub uninterp spec fn ogg_source_reads(src: OggPacketSource) -> nat;

/// `PacketReader::new` over a cursor on `data`: the reader reads `data` and
/// has made no read yet.
#[verifier::external_body]
fn ogg_reader_new(data: Vec<u8>) -> (r: OggPacketSource)
    ensures
        ogg_source_bytes(r) == data@,
        ogg_source_reads(r) == 0,
{
    OggPacketSource { reader: PacketReader::new(Cursor::new(data)) }
}

/// `PacketReader::read_packet`: the next packet's data, `None` at the end of
/// the stream. The reader works on an in-memory cursor, so what the read
/// gives depends on the bytes and on the reads made before it alone; that
/// is stated through `ogg_read_outcome`. What the error holds is not stated.
#[verifier::external_body]
fn ogg_read_packet(src: &mut OggPacketSource) -> (r: Result<Option<Vec<u8>>, OggReadError>)
    ensures
        ogg_source_bytes(*final(src)) == ogg_source_bytes(*old(src)),
        ogg_source_reads(*final(src)) == ogg_source_reads(*old(src)) + 1,
        ogg_read_outcome(ogg_source_bytes(*old(src)), ogg_source_reads(*old(src))) == match r {
            Ok(Some(p)) => Some(Some(p@)),
            Ok(None) => Some(None::<Seq<u8>>),
            Err(_) => None::<Option<Seq<u8>>>,
        },
{
    match src.reader.read_packet() {
        Ok(Some(p)) => Ok(Some(p.data)),
        Ok(None) => Ok(None),
        Err(e) => Err(e),
    }
}

/// The `Display` text of an Ogg read error; nothing is stated of it.
#[verifier::external_body]
fn ogg_error_text(e: &OggReadError) -> String {
    format!("{}", e)
}

impl OggPacketSource {
    /// The bytes of the stream being read.
    pub closed spec fn stream(&self) -> Seq<u8> {
        ogg_source_bytes(*self)
    }

    /// How many reads have been made.
    pub closed spec fn reads_made(&self) -> nat {
        ogg_source_reads(*self)
    }

    /// A reader over the bytes of an Ogg stream, before its first read.
    pub fn new(data: Vec<u8>) -> (r: Self)
        ensures
            r.stream() == data@,
            r.reads_made() == 0,
    {
        ogg_reader_new(data)
    }

    /// The next packet, `None` at the end: what the read at this position
    /// of the stream gives. A read error is reported as `OGG read error: `
    /// and the error's text.
    pub fn next_packet(&mut self) -> (r: Result<Option<Vec<u8>>, String>)
        ensures
            final(self).stream() == old(self).stream(),
            final(self).reads_made() == old(self).reads_made() + 1,
            ogg_read_outcome(old(self).stream(), old(self).reads_made()) == match r {
                Ok(Some(p)) => Some(Some(p@)),
                Ok(None) => Some(None::<Seq<u8>>),
                Err(_) => None::<Option<Seq<u8>>>,
            },
            r matches Err(m) ==> exists|t: Seq<char>| m@ == "OGG read error: "@ + t,
    {
        match ogg_read_packet(self) {
            Ok(p) => Ok(p),
            Err(e) => {
                let mut m = "OGG read error: ".to_owned();
                let t = ogg_error_text(&e);
                m.append(t.as_str());
                Err(m)
            },
        }
    }
}

/// The samples of a 16 kHz version of a 48 kHz recording: every third one,
/// starting with the first.
pub open spec fn every_third(s: Seq<i16>) -> Seq<i16> {
    Seq::new(((s.len() + 2) / 3) as nat, |i: int| s[3 * i])
}

/// Keeping every third sample works block by block: one to three samples
/// keep their first, and a stream cut after a multiple of three samples keeps
/// the samples of its two parts, one after the other.
pub proof fn law_every_third_blocks(a: Seq<i16>, b: Seq<i16>)
    ensures
        1 <= a.len() <= 3 ==> every_third(a) == seq![a[0]],
        a.len() == 0 ==> every_third(a) == Seq::<i16>::empty(),
        a.len() % 3 == 0 ==> every_third(a + b) == every_third(a) + every_third(b),
        3 * every_third(a).len() >= a.len() && 3 * every_third(a).len() < a.len() + 3,
{
    if 1 <= a.len() <= 3 {
        assert(every_third(a) =~= seq![a[0]]);
    }
    if a.len() == 0 {
        assert(every_third(a) =~= Seq::<i16>::empty());
    }
    if a.len() % 3 == 0 {
        let k = a.len() / 3;
        assert(((a + b).len() + 2) / 3 == k + (b.len() + 2) / 3);
        assert forall|i: int| 0 <= i < every_third(a + b).len() implies #[trigger] every_third(
            a + b,
        )[i] == (every_third(a) + every_third(b))[i] by {
            if i < k {
                assert((a + b)[3 * i] == a[3 * i]);
            } else {
                assert((a + b)[3 * i] == b[3 * (i - k)]);
            }
        }
        assert(every_third(a + b) =~= every_third(a) + every_third(b));
    }
}

/// The number of samples in one detector frame.
pub const VAD_CHUNK_SIZE: usize = 512;

/// The decoded audio of a recording's packets. The first packet is the
/// identification header and is not decoded.
pub struct SpeechScan {
    packets_seen: usize,
    samples: Vec<i16>,
}

impl SpeechScan {
    /// The samples decoded so far.
    pub closed spec fn samples_spec(&self) -> Seq<i16> {
        self.samples@
    }

    /// Whether a packet has been seen.
    pub closed spec fn past_header(&self) -> bool {
        self.packets_seen > 0
    }

    /// No packet seen, no samples.
    pub fn new() -> (r: Self)
        ensures
            !r.past_header(),
            r.samples_spec() == Seq::<i16>::empty(),
    {
        SpeechScan { packets_seen: 0, samples: Vec::new() }
    }

    /// Takes note of the next packet and says whether to decode it: every
    /// packet but the first.
    pub fn on_packet(&mut self) -> (decode: bool)
        ensures
            decode == old(self).past_header(),
            final(self).past_header(),
            final(self).samples_spec() == old(self).samples_spec(),
    {
        if self.packets_seen == 0 {
            self.packets_seen = 1;
            false
        } else {
            true
        }
    }

    /// Adds the first `count` samples of a decoded packet.
    pub fn add_decoded(&mut self, pcm: &Vec<i16>, count: usize)
        requires
            count <= pcm.len(),
        ensures
            final(self).samples_spec() == old(self).samples_spec() + pcm@.take(count as int),
            final(self).past_header() == old(self).past_header(),
    {
        let mut k: usize = 0;
        while k < count
            invariant
                k <= count <= pcm.len(),
                self.samples@ == old(self).samples@ + pcm@.take(k as int),
                self.packets_seen == old(self).packets_seen,
            decreases count - k,
        {
            self.samples.push(pcm[k]);
            proof {
                assert(pcm@.take(k + 1) =~= pcm@.take(k as int).push(pcm@[k as int]));
                assert(old(self).samples@ + pcm@.take(k + 1) =~= (old(self).samples@ + pcm@.take(
                    k as int,
                )).push(pcm@[k as int]));
            }
            k = k + 1;
        }
    }

    /// The detector's input: `None` when nothing was decoded (no speech);
    /// otherwise the complete 512-sample frames of every third sample, in
    /// order (a shorter tail is not looked at).
    pub fn vad_frames(&self) -> (r: Option<Vec<Vec<i16>>>)
        ensures
            r is None <==> self.samples_spec().len() == 0,
            r matches Some(fs) ==> fs.deep_view() == full_frames(
                VAD_CHUNK_SIZE as int,
                every_third(self.samples_spec()),
            ),
    {
        if self.samples.len() == 0 {
            return None;
        }
        let picked = every_third_sample(&self.samples);
        let mut framer = OpusFramer::new(VAD_CHUNK_SIZE);
        let frames = framer.push(picked);
        proof {
            assert(Seq::<i16>::empty() + every_third(self.samples@) =~= every_third(self.samples@));
        }
        Some(frames)
    }
}

/// Every third sample, starting with the first.
pub fn every_third_sample(s: &Vec<i16>) -> (r: Vec<i16>)
    ensures
        r@ == every_third(s@),
{
    let mut r: Vec<i16> = Vec::new();
    let mut i: usize = 0;
    let mut k: usize = 0;
    while i < s.len()
        invariant
            i == 3 * k,
            i <= s.len() + 2,
            r@ == Seq::new(k as nat, |j: int| s@[3 * j]),
        decreases s.len() + 3 - i,
    {
        r.push(s[i]);
        proof {
            assert(r@ =~= Seq::new((k + 1) as nat, |j: int| s@[3 * j]));
        }
        i = i + 3;
        k = k + 1;
    }
    proof {
        assert(k == (s.len() + 2) / 3) by (nonlinear_arith)
            requires
                i == 3 * k,
                s.len() <= i <= s.len() + 2,
        ;
    }
    r
}

/// Whether a finished recording is transcribed: it must have produced audio,
/// and the detector must not have ruled out speech (a detector failure
/// lets it through).
pub open spec fn transcribes(audio_len: int, speech: Option<bool>) -> bool {
    audio_len > 0 && speech != Some(false)
}

/// A recording is transcribed exactly when it produced audio and the
/// detector did not find it silent; a detector failure lets it through.
pub proof fn law_transcribes(audio_len: int, speech: Option<bool>)
    ensures
        audio_len <= 0 ==> !transcribes(audio_len, speech),
        speech == Some(false) ==> !transcribes(audio_len, speech),
        audio_len > 0 && (speech == Some(true) || speech is None) ==> transcribes(
            audio_len,
            speech,
        ),
{
}

/// Whether a finished recording is transcribed; `speech` is the detector's
/// verdict, `None` when the detector failed.
pub fn should_transcribe(audio_len: usize, speech: Option<bool>) -> (r: bool)
    ensures
        r == transcribes(audio_len as int, speech),
{
    audio_len > 0 && match speech {
        Some(false) => false,
        _ => true,
    }
}

} // verus!
