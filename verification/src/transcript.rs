//! Deterministic, domain-separated transcript protocol for the Fiat-Shamir
//! transform. A transcript absorbs labeled byte strings in a fixed order and
//! yields challenge scalars that are a pure function of everything absorbed
//! so far.
//!
//! The hashing itself is delegated to an outside library and stays opaque;
//! this module keeps, as real bytes, an injectively framed record of every
//! event absorbed into the hash state, and the challenge contract names the
//! challenge as a function of that record alone.

use vstd::prelude::*;

use crate::curve::scalar_from_wide;
use crate::curve::scalar_ok;
use crate::curve::wide_scalar_of;
use crate::curve::CanonicalScalar;

verus! {

#[verifier::external_type_specification]
#[verifier::external_body]
pub struct ExMerlinTranscript(merlin::Transcript);

/// The 64 challenge bytes that the hash yields after absorbing the framed
/// event history `h`, when asked under `label`. A pure function of its
/// arguments: the hash state holds nothing but the absorbed events.
pub uninterp spec fn challenge_bytes_of(h: Seq<u8>, label: Seq<u8>) -> Seq<u8>;

/// Eight-byte little-endian encoding of a length, used to frame events
/// injectively.
pub open spec fn le8(n: u64) -> Seq<u8> {
    Seq::new(8, |i: int| ((n >> ((8 * i) as u64)) & 0xffu64) as u8)
}

/// The framed record of creating a transcript under a domain label.
pub open spec fn init_frame(label: Seq<u8>) -> Seq<u8> {
    seq![0u8] + le8(label.len() as u64) + label
}

/// The framed record of absorbing one labeled message.
pub open spec fn absorb_frame(label: Seq<u8>, msg: Seq<u8>) -> Seq<u8> {
    seq![1u8] + le8(label.len() as u64) + label + le8(msg.len() as u64) + msg
}

/// The framed record of drawing one challenge: drawing ratchets the hash
/// state, so later challenges depend on earlier ones.
pub open spec fn challenge_frame(label: Seq<u8>) -> Seq<u8> {
    seq![2u8] + le8(label.len() as u64) + label
}

/// The canonical encoding of the challenge scalar derived from history `h`
/// under `label`: the 64 challenge bytes reduced modulo the group order.
pub open spec fn challenge_scalar_of(h: Seq<u8>, label: Seq<u8>) -> Seq<u8> {
    wide_scalar_of(challenge_bytes_of(h, label))
}

/// A Fiat-Shamir transcript: the opaque hash state, and the framed record of
/// every event absorbed into it. The two are kept in lockstep by the methods
/// of this type, which are the only code that touches either; the view of a
/// transcript is the record.
pub struct ProofTranscript {
    inner: merlin::Transcript,
    hist: Vec<u8>,
}

impl View for ProofTranscript {
    type V = Seq<u8>;

    closed spec fn view(&self) -> Seq<u8> {
        self.hist@
    }
}

/// Relies on merlin::Transcript::new: fresh hash state under a domain
/// label. What it returns is opaque; nothing is claimed of it. The library
/// length-prefixes the label with 32 bits and panics beyond that, so longer
/// labels are excluded.
#[verifier::external_body]
fn merlin_new(label: &'static [u8]) -> merlin::Transcript
    requires
        label@.len() <= u32::MAX,
{
    merlin::Transcript::new(label)
}

/// Relies on merlin::Transcript::append_message: absorbs one labeled
/// message into the hash state. What it does is opaque; nothing is claimed.
/// The library length-prefixes the message with 32 bits and panics beyond
/// that, so longer messages are excluded.
#[verifier::external_body]
fn merlin_append(t: &mut merlin::Transcript, label: &'static [u8], msg: &[u8])
    requires
        label@.len() <= u32::MAX,
        msg@.len() <= u32::MAX,
{
    t.append_message(label, msg);
}

/// Relies on merlin::Transcript::challenge_bytes: the challenge is a
/// deterministic function of the domain label and the messages absorbed so
/// far, which `hist` records injectively (the callers of this module keep
/// `t` and `hist` in lockstep, see `ProofTranscript`).
#[verifier::external_body]
fn merlin_challenge(t: &mut merlin::Transcript, hist: &Vec<u8>, label: &'static [u8]) -> (r: [u8;
    64])
    ensures
        r@ == challenge_bytes_of(hist@, label@),
{
    let mut buf = [0u8; 64];
    t.challenge_bytes(label, &mut buf);
    buf
}

/// Appends the eight-byte little-endian encoding of `n` to `out`.
fn push_le8(out: &mut Vec<u8>, n: u64)
    ensures
        final(out)@ == old(out)@ + le8(n),
{
    let mut i: usize = 0;
    while i < 8
        invariant
            i <= 8,
            out@ == old(out)@ + le8(n).take(i as int),
        decreases 8 - i,
    {
        out.push(((n >> ((8 * i) as u64)) & 0xffu64) as u8);
        proof {
            assert(le8(n).take(i + 1) =~= le8(n).take(i as int).push(le8(n)[i as int]));
        }
        i += 1;
    }
    proof {
        assert(le8(n).take(8) =~= le8(n));
    }
}

/// Appends `tag`, then the length-prefixed `label`, to `out`.
fn push_tagged_label(out: &mut Vec<u8>, tag: u8, label: &[u8])
    ensures
        final(out)@ == old(out)@ + seq![tag] + le8(label@.len() as u64) + label@,
{
    out.push(tag);
    push_le8(out, label.len() as u64);
    let mut i: usize = 0;
    while i < label.len()
        invariant
            i <= label@.len(),
            out@ == old(out)@ + seq![tag] + le8(label@.len() as u64) + label@.take(i as int),
        decreases label@.len() - i,
    {
        out.push(label[i]);
        proof {
            assert(label@.take(i + 1) =~= label@.take(i as int).push(label@[i as int]));
        }
        i += 1;
    }
    proof {
        assert(label@.take(label@.len() as int) =~= label@);
    }
}

impl ProofTranscript {
    /// Creates an empty, domain-labeled transcript.
    pub fn new(label: &'static [u8]) -> (t: ProofTranscript)
        requires
            label@.len() <= u32::MAX,
        ensures
            t@ == init_frame(label@),
    {
        let mut hist: Vec<u8> = Vec::new();
        push_tagged_label(&mut hist, 0u8, label);
        proof {
            assert(hist@ =~= init_frame(label@));
        }
        ProofTranscript { inner: merlin_new(label), hist }
    }

    /// Absorbs one labeled message.
    pub fn append_message(&mut self, label: &'static [u8], msg: &[u8])
        requires
            label@.len() <= u32::MAX,
            msg@.len() <= u32::MAX,
        ensures
            final(self)@ == old(self)@ + absorb_frame(label@, msg@),
    {
        merlin_append(&mut self.inner, label, msg);
        push_tagged_label(&mut self.hist, 1u8, label);
        push_le8(&mut self.hist, msg.len() as u64);
        let ghost mid = self.hist@;
        let mut i: usize = 0;
        while i < msg.len()
            invariant
                i <= msg@.len(),
                self.hist@ == mid + msg@.take(i as int),
            decreases msg@.len() - i,
        {
            self.hist.push(msg[i]);
            proof {
                assert(msg@.take(i + 1) =~= msg@.take(i as int).push(msg@[i as int]));
            }
            i += 1;
        }
        proof {
            assert(msg@.take(msg@.len() as int) =~= msg@);
            assert(self.hist@ =~= old(self).hist@ + absorb_frame(label@, msg@));
        }
    }

    /// Derives the challenge scalar for the absorbed history. The result is
    /// a pure function of the history and the label; drawing it ratchets the
    /// history so that a later challenge would differ.
    pub fn challenge_scalar(&mut self, label: &'static [u8]) -> (r: CanonicalScalar)
        ensures
            r@ == challenge_scalar_of(old(self)@, label@),
            scalar_ok(r@),
            final(self)@ == old(self)@ + challenge_frame(label@),
    {
        let wide = merlin_challenge(&mut self.inner, &self.hist, label);
        push_tagged_label(&mut self.hist, 2u8, label);
        proof {
            assert(self.hist@ =~= old(self).hist@ + challenge_frame(label@));
        }
        scalar_from_wide(&wide)
    }
}

} // verus!
