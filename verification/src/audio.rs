//! Audio frame handling: decoding raw big-endian PCM samples, fixed-point
//! volume scaling, and packaging encoded payloads for the transport.

use vstd::arithmetic::div_mod::{
    lemma_div_is_ordered, lemma_div_is_ordered_by_denominator, lemma_div_multiples_vanish,
};
use vstd::arithmetic::mul::{lemma_mul_inequality, lemma_mul_upper_bound};
use vstd::prelude::*;

use tsproto_packets::packets::OutPacket;

verus! {

/// Declares the outside packet type so that it can stand in signatures:
/// a fully built outbound transport packet, opaque to this crate.
#[verifier::external_type_specification]
#[verifier::external_body]
pub struct ExOutPacket(OutPacket);

/// Stereo samples per channel in one codec frame (20 ms at 48 kHz).
pub const FRAME_SIZE: usize = 960;

/// Upper bound on the size of one encoded packet, in bytes.
pub const MAX_PACKET_SIZE: usize = 3 * 1276;

/// Bytes of raw PCM read for one frame: two channels of two-byte samples.
pub const PCM_FRAME_BYTES: usize = FRAME_SIZE * 4;

/// The signed 16-bit value stored big-endian as the bytes `hi`, `lo`.
pub open spec fn be_i16_val(hi: u8, lo: u8) -> int {
    if hi >= 128 {
        hi * 256 + lo - 65536
    } else {
        hi * 256 + lo
    }
}

/// The samples held by a big-endian 16-bit PCM byte stream (a trailing odd
/// byte carries no sample).
pub open spec fn decoded_samples(bytes: Seq<u8>) -> Seq<i16> {
    Seq::new((bytes.len() / 2) as nat, |i: int| be_i16_val(bytes[2 * i], bytes[2 * i + 1]) as i16)
}

/// Reads interleaved big-endian signed 16-bit samples out of a byte buffer.
pub fn decode_pcm_be(bytes: &Vec<u8>) -> (r: Vec<i16>)
    ensures
        r@ == decoded_samples(bytes@),
{
    let n = bytes.len() / 2;
    proof {
        assert(2 * n <= bytes@.len());
    }
    let mut r: Vec<i16> = Vec::new();
    for i in 0..n
        invariant
            n == bytes@.len() / 2,
            2 * n <= bytes@.len(),
            bytes@.len() <= usize::MAX,
            r@.len() == i,
            forall|j: int| 0 <= j < i ==> r@[j] == decoded_samples(bytes@)[j],
    {
        let hi = bytes[2 * i];
        let lo = bytes[2 * i + 1];
        let v: u32 = hi as u32 * 256 + lo as u32;
        let s: i16 = if v >= 32768 {
            let m: u32 = 65536 - v;
            (-(m as i32)) as i16
        } else {
            v as i16
        };
        proof {
            assert(s as int == be_i16_val(bytes@[2 * i as int], bytes@[2 * i as int + 1]));
        }
        r.push(s);
    }
    proof {
        assert(r@ =~= decoded_samples(bytes@));
    }
    r
}

/// The volume curve applied to samples: the damped curve divides the
/// percentage by an extra factor of five; the linear curve applies it
/// directly.
#[derive(Clone, Copy, Debug, PartialEq, Eq, Structural)]
pub enum VolumeCurve {
    Damped,
    Linear,
}

/// The fixed-point denominator of a curve: a sample is multiplied by the
/// volume percentage and divided by this.
pub open spec fn curve_den(c: VolumeCurve) -> int {
    match c {
        VolumeCurve::Damped => 500,
        VolumeCurve::Linear => 100,
    }
}

/// One sample scaled by `percent / den`, the product truncated toward
/// zero.
pub open spec fn scale_val(s: int, percent: int, den: int) -> int {
    if s >= 0 {
        (s * percent) / den
    } else {
        -(((-s) * percent) / den)
    }
}

/// A whole frame scaled by the volume setting under the given curve.
pub open spec fn scaled_samples(samples: Seq<i16>, percent: u8, curve: VolumeCurve) -> Seq<i16> {
    samples.map_values(
        |s: i16| (scale_val(s as int, percent as int, curve_den(curve)) as i16),
    )
}

/// Scales one sample by `percent` under `curve`, truncating toward zero.
pub fn scale_sample(s: i16, percent: u8, curve: VolumeCurve) -> (r: i16)
    requires
        percent <= 100,
    ensures
        r as int == scale_val(s as int, percent as int, curve_den(curve)),
{
    let den: u32 = match curve {
        VolumeCurve::Damped => 500,
        VolumeCurve::Linear => 100,
    };
    if s >= 0 {
        let mag: u32 = s as u32;
        proof {
            lemma_mul_upper_bound(mag as int, 32768, percent as int, 100);
        }
        let prod: u32 = mag * percent as u32;
        let m: u32 = prod / den;
        proof {
            lemma_mul_inequality(percent as int, 100, mag as int);
            lemma_div_is_ordered(prod as int, 100 * mag as int, den as int);
            lemma_div_is_ordered_by_denominator(100 * mag as int, 100, den as int);
            lemma_div_multiples_vanish(mag as int, 100);
            assert(m <= mag);
        }
        m as i16
    } else {
        let mag: u32 = (-(s as i32)) as u32;
        proof {
            lemma_mul_upper_bound(mag as int, 32768, percent as int, 100);
        }
        let prod: u32 = mag * percent as u32;
        let m: u32 = prod / den;
        proof {
            lemma_mul_inequality(percent as int, 100, mag as int);
            lemma_div_is_ordered(prod as int, 100 * mag as int, den as int);
            lemma_div_is_ordered_by_denominator(100 * mag as int, 100, den as int);
            lemma_div_multiples_vanish(mag as int, 100);
            assert(m <= mag);
        }
        (-(m as i32)) as i16
    }
}

/// A fresh frame with every sample scaled by the volume setting.
pub fn scaled_frame(samples: &Vec<i16>, percent: u8, curve: VolumeCurve) -> (r: Vec<i16>)
    requires
        percent <= 100,
    ensures
        r@ == scaled_samples(samples@, percent, curve),
{
    let mut r: Vec<i16> = Vec::new();
    let n = samples.len();
    for i in 0..n
        invariant
            n == samples@.len(),
            percent <= 100,
            r@.len() == i,
            forall|j: int| 0 <= j < i ==> r@[j] == scaled_samples(samples@, percent, curve)[j],
    {
        r.push(scale_sample(samples[i], percent, curve));
    }
    proof {
        assert(r@ =~= scaled_samples(samples@, percent, curve));
    }
    r
}

/// Why a track's stream ended.
#[derive(Clone, Copy, Debug, PartialEq, Eq, Structural)]
pub enum EndReason {
    /// The track played to its natural end, or a stop was requested.
    Completed,
    /// The pipeline failed: a subprocess could not be spawned, a read
    /// failed, or the output channel was gone.
    Failed,
}

/// One message on the producer-to-supervisor frame channel: an encoded
/// audio payload, or the single terminal end-of-stream signal.
#[derive(Debug)]
pub enum AudioFrame {
    Payload(Vec<u8>),
    EndOfStream(EndReason),
}

/// The mathematical shape of an [`AudioFrame`].
pub enum FrameModel {
    Payload(Seq<u8>),
    EndOfStream(EndReason),
}

impl View for AudioFrame {
    type V = FrameModel;

    open spec fn view(&self) -> FrameModel {
        match self {
            AudioFrame::Payload(b) => FrameModel::Payload(b@),
            AudioFrame::EndOfStream(r) => FrameModel::EndOfStream(*r),
        }
    }
}

/// The frame carrying one encoder result: an encoder failure degrades to
/// an empty payload so that the stream keeps its cadence.
pub fn payload_frame(encoded: Option<Vec<u8>>) -> (f: AudioFrame)
    ensures
        f@ == (match encoded {
            Some(b) => FrameModel::Payload(b@),
            None => FrameModel::Payload(Seq::<u8>::empty()),
        }),
{
    match encoded {
        Some(b) => AudioFrame::Payload(b),
        None => {
            let empty: Vec<u8> = Vec::new();
            AudioFrame::Payload(empty)
        },
    }
}

/// Relies on `tsproto_packets::packets::OutAudio::new`: builds the
/// client-to-server voice packet that frames one encoded opus payload
/// (packet id 0, opus-music codec), writing the header and appending the
/// payload bytes.
#[verifier::external_body]
pub(crate) fn out_audio_packet(payload: &Vec<u8>) -> OutPacket {
    tsproto_packets::packets::OutAudio::new(&tsproto_packets::packets::AudioData::C2S {
        id: 0,
        codec: tsproto_packets::packets::CodecType::OpusMusic,
        data: payload.as_slice(),
    })
}

} // verus!
