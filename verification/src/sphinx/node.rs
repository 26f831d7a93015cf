//! Sphinx component of Xolotl: what a mix node decides about a packet.
//!
//! Processing a packet alternates cryptographic work (curve arithmetic, MAC
//! checks, stream ciphers, the replay filter and the ratchet store) with
//! decisions.  The decisions live here as a state machine: `Processing::step`
//! takes the outcome of the work last asked for and says what to do next,
//! while whoever drives it performs the work on the packet's `HeaderRefs`
//! and body.

use vstd::prelude::*;
use crate::bytes::{all_zero, append_bytes, copy_bytes, zero_bytes};
use crate::consttime::ct_u8_eq;
use crate::ratchet::branch::BranchId;
use crate::ratchet::twig::TwigIdx;

verus! {

/// Length of a packet name in bytes.
pub const PACKET_NAME_LENGTH: usize = 16;

/// Length of a compressed curve point `alpha` in a header.
pub const ALPHA_LENGTH: usize = 32;

/// Length of the MAC `gamma` in a header.
pub const GAMMA_LENGTH: usize = 16;

/// Name of a packet, derived from the hop's shared secret.
#[derive(Debug, Default, Clone, Copy, PartialEq, Eq, Hash)]
pub struct PacketName(pub [u8; 16]);

/// Name of a local mailbox.
#[derive(Debug, Default, Clone, Copy, PartialEq, Eq, Hash)]
pub struct MailboxName(pub [u8; 16]);

/// Name of the next hop of a packet.
#[derive(Debug, Default, Clone, Copy, PartialEq, Eq, Hash)]
pub struct RoutingName(pub [u8; 16]);

/// A twig of the ratchet: the branch it belongs to and its index there.
#[derive(Debug, Clone, Copy, PartialEq, Eq, Hash)]
pub struct TwigId(pub BranchId, pub TwigIdx);

/// Command found by onion decrypting the routing information `beta`.
#[derive(Debug, Clone, Copy)]
pub enum Command {
    /// Forward the packet to `route`, with the MAC `gamma` for that hop.
    Transmit { route: RoutingName, gamma: [u8; 16] },
    /// Deliver the packet to a local mailbox.
    Deliver { mailbox: MailboxName },
    /// The packet arrives through a SURB we issued.
    ArrivalSURB,
    /// The packet arrives directly for a local application.
    ArrivalDirect,
    /// Cross over to the SURB carried by the packet.
    CrossOver { alpha: [u8; 32], gamma: [u8; 16] },
    /// Advance the ratchet twig `twig`; `gamma` is the MAC under the new key.
    Ratchet { twig: TwigId, gamma: [u8; 16] },
}

/// Action the node should take with a given packet.
#[derive(Debug)]
pub enum Action {
    /// Deliver message to a local mailbox.
    Deliver { mailbox: MailboxName, surb_log: Vec<u8> },
    /// Forward this message to another hop.
    Transmit { route: RoutingName },
    /// Arrival of a message for some local application.
    ///
    /// There are situations where we could know the sender because
    /// either we could know who we gave every SURB to, or else by
    /// trusting them to identify themselves as a hint and doing the
    /// authentication later.  Yet, these cases seem tricky to exploit.
    Arrival { surbs: Vec<PacketName> },
}

/// Why a packet was refused as malformed.
#[derive(Debug, Clone, Copy, PartialEq, Eq)]
pub enum BadPacketReason {
    TwoRatchetSubhops,
    TwoCrossoverSubhops,
}

/// Errors of packet processing.
#[derive(Debug, Clone, Copy, PartialEq, Eq)]
pub enum SphinxError {
    /// The header or body has the wrong length.
    BadLength,
    /// `alpha` is no valid curve point.
    BadAlpha,
    /// The MAC `gamma` does not verify.
    InvalidMac,
    /// The packet was seen before.
    Replay,
    /// The ratchet store refused an operation.
    RatchetError,
    /// The packet is malformed.
    BadPacket(BadPacketReason),
    /// A cryptographic primitive failed.
    InternalError,
}

pub type SphinxResult<T> = Result<T, SphinxError>;

/// The parts of a header.  The layout of a header is `alpha`, `gamma`,
/// `beta`, the SURB log and the SURB, in that order.
#[derive(Debug)]
pub struct HeaderRefs {
    pub alpha: [u8; 32],
    pub gamma: [u8; 16],
    pub beta: Vec<u8>,
    pub surb_log: Vec<u8>,
    pub surb: Vec<u8>,
}

/// Whether the SURB log is all zero, which is how a header looks after it
/// crossed over to its SURB.
pub open spec fn surb_log_cleared(refs: HeaderRefs) -> bool {
    all_zero(refs.surb_log@)
}

/// The bytes of a header, in the layout order.
pub open spec fn header_bytes(refs: HeaderRefs) -> Seq<u8> {
    refs.alpha@ + refs.gamma@ + refs.beta@ + refs.surb_log@ + refs.surb@
}

/// A header holds `alpha` in its first 32 bytes, `gamma` in the next 16,
/// then `beta`, the SURB log and the SURB, one after the other.
pub proof fn header_bytes_parts(refs: HeaderRefs)
    ensures
        ({
            let h = header_bytes(refs);
            let b: int = 48 + refs.beta@.len() as int;
            let l: int = b + refs.surb_log@.len() as int;
            &&& h.len() == l + refs.surb@.len()
            &&& h.subrange(0, 32) == refs.alpha@
            &&& h.subrange(32, 48) == refs.gamma@
            &&& h.subrange(48, b) == refs.beta@
            &&& h.subrange(b, l) == refs.surb_log@
            &&& h.subrange(l, l + refs.surb@.len()) == refs.surb@
        }),
{
    let h = header_bytes(refs);
    let b: int = 48 + refs.beta@.len() as int;
    let l: int = b + refs.surb_log@.len() as int;
    assert(h.subrange(0, 32) =~= refs.alpha@);
    assert(h.subrange(32, 48) =~= refs.gamma@);
    assert(h.subrange(48, b) =~= refs.beta@);
    assert(h.subrange(b, l) =~= refs.surb_log@);
    assert(h.subrange(l, l + refs.surb@.len()) =~= refs.surb@);
}

impl HeaderRefs {
    /// A SURB fits in `beta`: both have the same length.
    pub open spec fn wf(self) -> bool {
        self.surb@.len() == self.beta@.len()
    }

    /// The header, reassembled from its parts.
    pub fn to_header(&self) -> (h: Vec<u8>)
        ensures
            h@ == header_bytes(*self),
    {
        let mut h: Vec<u8> = Vec::new();
        append_bytes(&mut h, &self.alpha);
        append_bytes(&mut h, &self.gamma);
        append_bytes(&mut h, self.beta.as_slice());
        append_bytes(&mut h, self.surb_log.as_slice());
        append_bytes(&mut h, self.surb.as_slice());
        assert(h@ =~= header_bytes(*self));
        h
    }
}

/// No need to be constant time here, but we are: whether the SURB log is
/// all zero.
pub fn already_crossed_over(surb_log: &[u8]) -> (r: bool)
    ensures
        r == all_zero(surb_log@),
{
    let n: usize = surb_log.len();
    let mut acc: u8 = 0;
    let mut i: usize = 0;
    while i < n
        invariant
            n == surb_log@.len(),
            i <= n,
            (acc == 0) == all_zero(surb_log@.take(i as int)),
        decreases n - i,
    {
        let b: u8 = surb_log[i];
        let a: u8 = acc;
        assert((a | b) == 0 <==> (a == 0 && b == 0)) by (bit_vector);
        acc = a | b;
        proof {
            let before = surb_log@.take(i as int);
            let after = surb_log@.take(i + 1);
            assert(after =~= before.push(b));
            if all_zero(after) {
                assert(after[i as int] == b);
                assert forall|j: int| 0 <= j < before.len() implies before[j] == 0 by {
                    assert(after[j] == before[j]);
                }
            }
        }
        i = i + 1;
    }
    assert(surb_log@.take(n as int) =~= surb_log@);
    ct_u8_eq(0u8, acc)
}

/// Where the processing of a packet stands.
#[derive(Debug)]
pub enum Stage {
    /// Waiting for `alpha` to be decompressed and the hop keys derived.
    DecompressAlpha,
    /// Waiting for the MAC `gamma` to be checked.
    VerifyGamma,
    /// Waiting for the replay filter.
    CheckReplay,
    /// Waiting for `beta` to be onion decrypted into a command.
    PealBeta,
    /// Waiting for the ratchet to advance `twig` and rekey the hop.
    AdvanceRatchet { twig: TwigId, gamma: [u8; 16] },
    /// Waiting for the MAC under the ratchet key to be checked.
    VerifyRatchetGamma,
    /// Waiting for the ratchet advance to be abandoned; `error` is the
    /// MAC failure to report afterwards.
    AbandonRatchet { error: SphinxError },
    /// Waiting for the ratchet advance to be confirmed.
    ConfirmRatchet,
    /// Waiting for the body to be decrypted.  `crossed_over` records whether
    /// the SURB log was all zero when the command was found.
    DecryptBody { command: Command, packet_name: PacketName, crossed_over: bool },
    /// Waiting for the SURB and SURB log to be masked and `alpha` blinded.
    MaskAndBlind { route: RoutingName, gamma: [u8; 16], packet_name: PacketName },
    /// Processing is over.
    Done { outcome: SphinxResult<(PacketName, Action)> },
}

/// The work the driver must do next on the packet.
#[derive(Debug, Clone, Copy, PartialEq, Eq)]
pub enum Request {
    /// Decompress `alpha`, do the key exchange and derive the hop keys;
    /// answer `AlphaDecompressed`.
    DecompressAlpha,
    /// Check `gamma` under the current hop key; answer `GammaVerified`.
    VerifyGamma,
    /// Check the replay filter; answer `ReplayChecked`.
    CheckReplay,
    /// Onion decrypt `beta`; answer `BetaPealed`.
    PealBeta,
    /// Advance this twig, click the ratchet and rekey the hop; answer
    /// `RatchetAdvanced`.
    AdvanceRatchet(TwigId),
    /// Abandon the ratchet advance; answer `RatchetAbandoned`.
    AbandonRatchet,
    /// Confirm the ratchet advance; answer `RatchetConfirmed`.
    ConfirmRatchet,
    /// Decrypt the body; answer `BodyDecrypted`.
    DecryptBody,
    /// Mask the SURB and SURB log for the next hop and blind `alpha`;
    /// answer `SurbMaskedAndBlinded`.
    MaskSurbAndBlind,
    /// Nothing: the outcome is ready.
    Finished,
}

/// The outcome of the work asked for by a `Request`.
#[derive(Debug, Clone, Copy)]
pub enum Event {
    AlphaDecompressed(SphinxResult<()>),
    GammaVerified(SphinxResult<()>),
    ReplayChecked(SphinxResult<()>),
    BetaPealed(Command, PacketName),
    RatchetAdvanced(SphinxResult<()>),
    RatchetAbandoned(SphinxResult<()>),
    RatchetConfirmed(SphinxResult<()>),
    BodyDecrypted(SphinxResult<()>),
    SurbMaskedAndBlinded(SphinxResult<[u8; 32]>),
}

/// The request that stands for a stage.
pub open spec fn request_of(stage: Stage) -> Request {
    match stage {
        Stage::DecompressAlpha => Request::DecompressAlpha,
        Stage::VerifyGamma => Request::VerifyGamma,
        Stage::CheckReplay => Request::CheckReplay,
        Stage::PealBeta => Request::PealBeta,
        Stage::AdvanceRatchet { twig, .. } => Request::AdvanceRatchet(twig),
        Stage::VerifyRatchetGamma => Request::VerifyGamma,
        Stage::AbandonRatchet { .. } => Request::AbandonRatchet,
        Stage::ConfirmRatchet => Request::ConfirmRatchet,
        Stage::DecryptBody { .. } => Request::DecryptBody,
        Stage::MaskAndBlind { .. } => Request::MaskSurbAndBlind,
        Stage::Done { .. } => Request::Finished,
    }
}

/// Whether `event` answers the request of `stage`.
pub open spec fn answers(stage: Stage, event: Event) -> bool {
    match request_of(stage) {
        Request::DecompressAlpha => event is AlphaDecompressed,
        Request::VerifyGamma => event is GammaVerified,
        Request::CheckReplay => event is ReplayChecked,
        Request::PealBeta => event is BetaPealed,
        Request::AdvanceRatchet(_) => event is RatchetAdvanced,
        Request::AbandonRatchet => event is RatchetAbandoned,
        Request::ConfirmRatchet => event is RatchetConfirmed,
        Request::DecryptBody => event is BodyDecrypted,
        Request::MaskSurbAndBlind => event is SurbMaskedAndBlinded,
        Request::Finished => false,
    }
}

/// The decisions taken while processing one packet.
pub struct Processing {
    stage: Stage,
    ratcheted: bool,
    verified: Ghost<bool>,
    fresh: Ghost<bool>,
}

impl Processing {
    /// Where processing stands.
    pub closed spec fn stage(self) -> Stage {
        self.stage
    }

    /// Whether the current hop already went through a ratchet subhop.
    pub closed spec fn ratcheted(self) -> bool {
        self.ratcheted
    }

    /// Whether the MAC of the current hop, under its current key, verified.
    pub closed spec fn verified(self) -> bool {
        self.verified@
    }

    /// Whether the current hop passed the replay filter.
    pub closed spec fn fresh(self) -> bool {
        self.fresh@
    }

    /// Past the MAC and replay checks, every stage has passed both, and a
    /// command left for the body decryption is neither a ratchet subhop nor
    /// a SURB arrival.
    pub closed spec fn wf(self) -> bool {
        &&& (self.stage is PealBeta || self.stage is ConfirmRatchet || self.stage is DecryptBody
            || self.stage is MaskAndBlind) ==> self.verified@ && self.fresh@
        &&& self.stage is CheckReplay ==> self.verified@
        &&& (self.stage is AdvanceRatchet || self.stage is VerifyRatchetGamma
            || self.stage is AbandonRatchet) ==> self.fresh@
        &&& self.stage matches Stage::Done { outcome: Ok(_) } ==> self.verified@ && self.fresh@
        &&& self.stage matches Stage::DecryptBody { command, .. } ==> !(command is Ratchet)
            && !(command is ArrivalSURB)
    }

    /// Processing of a fresh packet starts by decompressing `alpha`.
    pub fn new() -> (p: Processing)
        ensures
            p.wf(),
            p.stage() is DecompressAlpha,
            !p.ratcheted(),
            !p.verified(),
            !p.fresh(),
    {
        Processing {
            stage: Stage::DecompressAlpha,
            ratcheted: false,
            verified: Ghost(false),
            fresh: Ghost(false),
        }
    }

    /// The work to do next.
    pub fn request(&self) -> (r: Request)
        ensures
            r == request_of(self.stage()),
    {
        match &self.stage {
            Stage::DecompressAlpha => Request::DecompressAlpha,
            Stage::VerifyGamma => Request::VerifyGamma,
            Stage::CheckReplay => Request::CheckReplay,
            Stage::PealBeta => Request::PealBeta,
            Stage::AdvanceRatchet { twig, .. } => Request::AdvanceRatchet(*twig),
            Stage::VerifyRatchetGamma => Request::VerifyGamma,
            Stage::AbandonRatchet { .. } => Request::AbandonRatchet,
            Stage::ConfirmRatchet => Request::ConfirmRatchet,
            Stage::DecryptBody { .. } => Request::DecryptBody,
            Stage::MaskAndBlind { .. } => Request::MaskSurbAndBlind,
            Stage::Done { .. } => Request::Finished,
        }
    }

    /// Takes the outcome of the work last asked for and decides what comes
    /// next, updating the header where the decision calls for it.  An event
    /// that does not answer the current request changes nothing.
    #[verifier::rlimit(50)]
    pub fn step(&mut self, refs: &mut HeaderRefs, event: Event)
        requires
            old(self).wf(),
            old(refs).wf(),
        ensures
            final(self).wf(),
            final(refs).wf(),
            !answers(old(self).stage(), event) ==> *final(self) == *old(self) && *final(refs)
                == *old(refs),
            // Only a verifying MAC marks the hop verified, and only the replay
            // filter marks it fresh.
            final(self).verified() ==> old(self).verified() || ((old(self).stage() is VerifyGamma
                || old(self).stage() is VerifyRatchetGamma)
                && (event matches Event::GammaVerified(Ok(_)))),
            final(self).fresh() ==> old(self).fresh() || (old(self).stage() is CheckReplay
                && (event matches Event::ReplayChecked(Ok(_)))),
            !(old(self).stage() is AdvanceRatchet || old(self).stage() is DecryptBody
                || old(self).stage() is MaskAndBlind) ==> *final(refs) == *old(refs),
            // Decompressing alpha starts a hop: nothing of it is checked yet.
            old(self).stage() is DecompressAlpha ==> {
                &&& (event matches Event::AlphaDecompressed(Ok(_))) ==> final(self).stage()
                    is VerifyGamma
                    && !final(self).verified() && !final(self).fresh()
                    && final(self).ratcheted() == old(self).ratcheted()
                &&& event matches Event::AlphaDecompressed(Err(e)) ==> final(self).stage()
                    == Stage::Done { outcome: Err(e) }
            },
            // Abort if our MAC gamma fails to verify.
            old(self).stage() is VerifyGamma ==> {
                &&& (event matches Event::GammaVerified(Ok(_))) ==> final(self).stage() is CheckReplay
                    && final(self).verified() && final(self).fresh() == old(self).fresh()
                    && final(self).ratcheted() == old(self).ratcheted()
                &&& event matches Event::GammaVerified(Err(e)) ==> final(self).stage()
                    == Stage::Done { outcome: Err(e) }
            },
            // Abort if the packet is a replay.
            old(self).stage() is CheckReplay ==> {
                &&& (event matches Event::ReplayChecked(Ok(_))) ==> final(self).stage() is PealBeta
                    && final(self).fresh() && final(self).verified() == old(self).verified()
                    && final(self).ratcheted() == old(self).ratcheted()
                &&& event matches Event::ReplayChecked(Err(e)) ==> final(self).stage()
                    == Stage::Done { outcome: Err(e) }
            },
            // The command decides; a ratchet subhop comes before anything else
            // and at most once.
            old(self).stage() is PealBeta ==> (event matches Event::BetaPealed(c, n) ==> {
                &&& c matches Command::Ratchet { twig, gamma } ==> {
                    &&& old(self).ratcheted() ==> final(self).stage() == Stage::Done {
                        outcome: Err(SphinxError::BadPacket(BadPacketReason::TwoRatchetSubhops)),
                    }
                    &&& !old(self).ratcheted() ==> final(self).stage() == Stage::AdvanceRatchet {
                        twig,
                        gamma,
                    } && final(self).fresh() == old(self).fresh()
                }
                &&& c is ArrivalSURB ==> (final(self).stage() matches Stage::Done {
                    outcome: Ok((m, Action::Arrival { surbs })),
                } && m == n && surbs@ == Seq::<PacketName>::empty())
                &&& !(c is Ratchet) && !(c is ArrivalSURB) ==> final(self).stage()
                    == Stage::DecryptBody {
                    command: c,
                    packet_name: n,
                    crossed_over: surb_log_cleared(*old(refs)),
                } && final(self).ratcheted() == old(self).ratcheted()
            }),
            // A ratchet subhop rekeys the hop, whose new MAC must verify.
            old(self).stage() matches Stage::AdvanceRatchet { gamma, .. } ==> {
                &&& (event matches Event::RatchetAdvanced(Ok(_))) ==> final(self).stage()
                    is VerifyRatchetGamma
                    && !final(self).verified() && final(self).ratcheted() == old(self).ratcheted()
                    && final(refs).gamma == gamma && final(refs).alpha == old(refs).alpha
                    && final(refs).beta == old(refs).beta && final(refs).surb_log == old(refs).surb_log
                    && final(refs).surb == old(refs).surb
                &&& event matches Event::RatchetAdvanced(Err(e)) ==> final(self).stage()
                    == Stage::Done { outcome: Err(e) } && *final(refs) == *old(refs)
            },
            old(self).stage() is VerifyRatchetGamma ==> {
                &&& (event matches Event::GammaVerified(Ok(_))) ==> final(self).stage()
                    is ConfirmRatchet
                    && final(self).verified() && final(self).ratcheted() == old(self).ratcheted()
                &&& event matches Event::GammaVerified(Err(e)) ==> final(self).stage()
                    == Stage::AbandonRatchet { error: e }
            },
            old(self).stage() matches Stage::AbandonRatchet { error } ==> {
                &&& (event matches Event::RatchetAbandoned(Ok(_))) ==> final(self).stage() == Stage::Done {
                    outcome: Err(error),
                }
                &&& event matches Event::RatchetAbandoned(Err(e)) ==> final(self).stage()
                    == Stage::Done { outcome: Err(e) }
            },
            old(self).stage() is ConfirmRatchet ==> {
                &&& (event matches Event::RatchetConfirmed(Ok(_))) ==> final(self).stage() is PealBeta
                    && final(self).ratcheted()
                &&& event matches Event::RatchetConfirmed(Err(e)) ==> final(self).stage()
                    == Stage::Done { outcome: Err(e) }
            },
            // With the body decrypted, the command is carried out.
            old(self).stage() matches Stage::DecryptBody { command, packet_name, crossed_over } ==> {
                &&& event matches Event::BodyDecrypted(Err(e)) ==> final(self).stage()
                    == Stage::Done { outcome: Err(e) } && *final(refs) == *old(refs)
                &&& (event matches Event::BodyDecrypted(Ok(_))) ==> {
                    &&& command matches Command::CrossOver { alpha, gamma } ==> {
                        &&& crossed_over ==> final(self).stage() == Stage::Done {
                            outcome: Err(
                                SphinxError::BadPacket(BadPacketReason::TwoCrossoverSubhops),
                            ),
                        } && *final(refs) == *old(refs)
                        &&& !crossed_over ==> {
                            &&& final(self).stage() is DecompressAlpha
                            &&& !final(self).ratcheted()
                            &&& !final(self).verified()
                            &&& !final(self).fresh()
                            &&& final(refs).alpha == alpha
                            &&& final(refs).gamma == gamma
                            &&& final(refs).beta@ == old(refs).surb@
                            &&& final(refs).surb@.len() == old(refs).surb@.len()
                            &&& all_zero(final(refs).surb@)
                            &&& final(refs).surb_log@.len() == old(refs).surb_log@.len()
                            &&& all_zero(final(refs).surb_log@)
                        }
                    }
                    &&& command matches Command::Transmit { route, gamma } ==> final(self).stage()
                        == Stage::MaskAndBlind { route, gamma, packet_name } && *final(refs)
                        == *old(refs)
                    &&& command matches Command::Deliver { mailbox } ==> (final(self).stage() matches Stage::Done {
                        outcome: Ok((m, Action::Deliver { mailbox: b, surb_log })),
                    } && m == packet_name && b == mailbox && surb_log@ == old(refs).surb_log@
                        && *final(refs) == *old(refs))
                    &&& command is ArrivalDirect ==> (final(self).stage() matches Stage::Done {
                        outcome: Ok((m, Action::Arrival { surbs })),
                    } && m == packet_name && surbs@ == Seq::<PacketName>::empty() && *final(refs)
                        == *old(refs))
                }
            },
            // Prepare the packet for the next hop as usual in Sphinx.
            old(self).stage() matches Stage::MaskAndBlind { route, gamma, packet_name } ==> {
                &&& event matches Event::SurbMaskedAndBlinded(Ok(a)) ==> {
                    &&& final(self).stage() matches Stage::Done {
                        outcome: Ok((m, Action::Transmit { route: r })),
                    } && m == packet_name && r == route
                    &&& final(refs).alpha == a
                    &&& final(refs).gamma == gamma
                    &&& final(refs).beta == old(refs).beta
                    &&& final(refs).surb_log == old(refs).surb_log
                    &&& final(refs).surb == old(refs).surb
                }
                &&& event matches Event::SurbMaskedAndBlinded(Err(e)) ==> {
                    &&& final(self).stage() == Stage::Done { outcome: Err(e) }
                    &&& final(refs).alpha == old(refs).alpha
                    &&& final(refs).gamma == gamma
                    &&& final(refs).beta == old(refs).beta
                    &&& final(refs).surb_log == old(refs).surb_log
                    &&& final(refs).surb == old(refs).surb
                }
            },
    {
        let ratcheted: bool = self.ratcheted;
        let verified = self.verified;
        let fresh = self.fresh;
        let next: Option<Processing> = match &self.stage {
            Stage::DecompressAlpha => match event {
                Event::AlphaDecompressed(Ok(())) => Some(Processing {
                    stage: Stage::VerifyGamma,
                    ratcheted,
                    verified: Ghost(false),
                    fresh: Ghost(false),
                }),
                Event::AlphaDecompressed(Err(e)) => Some(Processing {
                    stage: Stage::Done { outcome: Err(e) },
                    ratcheted,
                    verified,
                    fresh,
                }),
                _ => None,
            },
            Stage::VerifyGamma => match event {
                Event::GammaVerified(Ok(())) => Some(Processing {
                    stage: Stage::CheckReplay,
                    ratcheted,
                    verified: Ghost(true),
                    fresh,
                }),
                Event::GammaVerified(Err(e)) => Some(Processing {
                    stage: Stage::Done { outcome: Err(e) },
                    ratcheted,
                    verified,
                    fresh,
                }),
                _ => None,
            },
            Stage::CheckReplay => match event {
                Event::ReplayChecked(Ok(())) => Some(Processing {
                    stage: Stage::PealBeta,
                    ratcheted,
                    verified,
                    fresh: Ghost(true),
                }),
                Event::ReplayChecked(Err(e)) => Some(Processing {
                    stage: Stage::Done { outcome: Err(e) },
                    ratcheted,
                    verified,
                    fresh,
                }),
                _ => None,
            },
            Stage::PealBeta => match event {
                Event::BetaPealed(command, packet_name) => {
                    let stage = match command {
                        Command::Ratchet { twig, gamma } => {
                            if ratcheted {
                                Stage::Done {
                                    outcome: Err(
                                        SphinxError::BadPacket(BadPacketReason::TwoRatchetSubhops),
                                    ),
                                }
                            } else {
                                Stage::AdvanceRatchet { twig, gamma }
                            }
                        },
                        Command::ArrivalSURB => {
                            // Short circuit decrypting the body, SURB and SURB log
                            // if we're unwinding an arriving SURB anyways.
                            let action = SphinxRouter::unwind_surbs(
                                packet_name,
                                refs.surb_log.as_slice(),
                            );
                            Stage::Done { outcome: Ok((packet_name, action)) }
                        },
                        _ => {
                            let crossed_over = already_crossed_over(refs.surb_log.as_slice());
                            Stage::DecryptBody { command, packet_name, crossed_over }
                        },
                    };
                    Some(Processing { stage, ratcheted, verified, fresh })
                },
                _ => None,
            },
            Stage::AdvanceRatchet { gamma, .. } => match event {
                Event::RatchetAdvanced(Ok(())) => {
                    refs.gamma = *gamma;
                    Some(Processing {
                        stage: Stage::VerifyRatchetGamma,
                        ratcheted,
                        verified: Ghost(false),
                        fresh,
                    })
                },
                Event::RatchetAdvanced(Err(e)) => Some(Processing {
                    stage: Stage::Done { outcome: Err(e) },
                    ratcheted,
                    verified,
                    fresh,
                }),
                _ => None,
            },
            Stage::VerifyRatchetGamma => match event {
                Event::GammaVerified(Ok(())) => Some(Processing {
                    stage: Stage::ConfirmRatchet,
                    ratcheted,
                    verified: Ghost(true),
                    fresh,
                }),
                Event::GammaVerified(Err(e)) => Some(Processing {
                    stage: Stage::AbandonRatchet { error: e },
                    ratcheted,
                    verified,
                    fresh,
                }),
                _ => None,
            },
            Stage::AbandonRatchet { error } => match event {
                Event::RatchetAbandoned(Ok(())) => Some(Processing {
                    stage: Stage::Done { outcome: Err(*error) },
                    ratcheted,
                    verified,
                    fresh,
                }),
                Event::RatchetAbandoned(Err(e)) => Some(Processing {
                    stage: Stage::Done { outcome: Err(e) },
                    ratcheted,
                    verified,
                    fresh,
                }),
                _ => None,
            },
            Stage::ConfirmRatchet => match event {
                Event::RatchetConfirmed(Ok(())) => Some(Processing {
                    stage: Stage::PealBeta,
                    ratcheted: true,
                    verified,
                    fresh,
                }),
                Event::RatchetConfirmed(Err(e)) => Some(Processing {
                    stage: Stage::Done { outcome: Err(e) },
                    ratcheted,
                    verified,
                    fresh,
                }),
                _ => None,
            },
            Stage::DecryptBody { command, packet_name, crossed_over } => match event {
                Event::BodyDecrypted(Ok(())) => {
                    let packet_name = *packet_name;
                    match *command {
                        Command::CrossOver { alpha, gamma } => {
                            if *crossed_over {
                                Some(Processing {
                                    stage: Stage::Done {
                                        outcome: Err(
                                            SphinxError::BadPacket(
                                                BadPacketReason::TwoCrossoverSubhops,
                                            ),
                                        ),
                                    },
                                    ratcheted,
                                    verified,
                                    fresh,
                                })
                            } else {
                                // Put the SURB in control of the packet.
                                refs.alpha = alpha;
                                refs.gamma = gamma;
                                refs.beta = copy_bytes(refs.surb.as_slice());
                                // We must zero the SURB field so that our SURB's gammas
                                // cover values known by its creator.
                                zero_bytes(&mut refs.surb);
                                zero_bytes(&mut refs.surb_log);
                                // Process the local SURB hop.
                                Some(Processing {
                                    stage: Stage::DecompressAlpha,
                                    ratcheted: false,
                                    verified: Ghost(false),
                                    fresh: Ghost(false),
                                })
                            }
                        },
                        Command::Transmit { route, gamma } => Some(Processing {
                            stage: Stage::MaskAndBlind { route, gamma, packet_name },
                            ratcheted,
                            verified,
                            fresh,
                        }),
                        Command::Deliver { mailbox } => {
                            let surb_log = copy_bytes(refs.surb_log.as_slice());
                            Some(Processing {
                                stage: Stage::Done {
                                    outcome: Ok((packet_name, Action::Deliver { mailbox, surb_log })),
                                },
                                ratcheted,
                                verified,
                                fresh,
                            })
                        },
                        _ => {
                            // Only a direct arrival is left.
                            let surbs: Vec<PacketName> = Vec::new();
                            Some(Processing {
                                stage: Stage::Done {
                                    outcome: Ok((packet_name, Action::Arrival { surbs })),
                                },
                                ratcheted,
                                verified,
                                fresh,
                            })
                        },
                    }
                },
                Event::BodyDecrypted(Err(e)) => Some(Processing {
                    stage: Stage::Done { outcome: Err(e) },
                    ratcheted,
                    verified,
                    fresh,
                }),
                _ => None,
            },
            Stage::MaskAndBlind { route, gamma, packet_name } => match event {
                Event::SurbMaskedAndBlinded(Ok(a)) => {
                    refs.gamma = *gamma;
                    refs.alpha = a;
                    Some(Processing {
                        stage: Stage::Done {
                            outcome: Ok((*packet_name, Action::Transmit { route: *route })),
                        },
                        ratcheted,
                        verified,
                        fresh,
                    })
                },
                Event::SurbMaskedAndBlinded(Err(e)) => {
                    refs.gamma = *gamma;
                    Some(Processing {
                        stage: Stage::Done { outcome: Err(e) },
                        ratcheted,
                        verified,
                        fresh,
                    })
                },
                _ => None,
            },
            Stage::Done { .. } => None,
        };
        match next {
            Some(p) => {
                *self = p;
            },
            None => {},
        }
    }

    /// The outcome, once processing is over.
    pub fn outcome(self) -> (r: Option<SphinxResult<(PacketName, Action)>>)
        ensures
            self.stage() matches Stage::Done { outcome } ==> r == Some(outcome),
            !(self.stage() is Done) ==> r is None,
    {
        match self.stage {
            Stage::Done { outcome } => Some(outcome),
            _ => None,
        }
    }
}

/// Sizes of the parts of headers and bodies, fixed by the protocol version.
#[derive(Debug, Clone, Copy, PartialEq, Eq)]
pub struct SphinxParams {
    /// Length of the routing information `beta`, and of a SURB.
    pub beta_length: usize,
    /// Longest tail that a hop may append to `beta`.
    pub max_beta_tail_length: usize,
    /// Length of the SURB log.
    pub surb_log_length: usize,
    /// Length of a packet body.
    pub body_length: usize,
}

impl SphinxParams {
    /// Length of a header: `alpha`, `gamma`, `beta`, the SURB log and a SURB.
    pub open spec fn header_length(self) -> int {
        ALPHA_LENGTH + GAMMA_LENGTH + self.beta_length + self.surb_log_length + self.beta_length
    }

    /// Refuses a body of the wrong length.
    pub fn check_body_length(&self, body: &[u8]) -> (r: SphinxResult<()>)
        ensures
            body@.len() == self.body_length ==> r == Ok::<(), SphinxError>(()),
            body@.len() != self.body_length ==> r == Err::<(), SphinxError>(SphinxError::BadLength),
    {
        if body.len() == self.body_length {
            Ok(())
        } else {
            Err(SphinxError::BadLength)
        }
    }

    /// Cuts a header into its parts, refusing one of the wrong length.
    pub fn slice_header(&self, header: &[u8]) -> (r: SphinxResult<HeaderRefs>)
        ensures
            header@.len() != self.header_length() ==> r == Err::<HeaderRefs, SphinxError>(
                SphinxError::BadLength,
            ),
            header@.len() == self.header_length() ==> (r matches Ok(refs) && header_bytes(refs)
                == header@ && refs.beta@.len() == self.beta_length && refs.surb_log@.len()
                == self.surb_log_length && refs.surb@.len() == self.beta_length),
    {
        let n: usize = header.len();
        let fixed: usize = ALPHA_LENGTH + GAMMA_LENGTH;
        if n < fixed || (n - fixed) / 2 < self.beta_length {
            return Err(SphinxError::BadLength);
        }
        let rest: usize = n - fixed - 2 * self.beta_length;
        if rest != self.surb_log_length {
            return Err(SphinxError::BadLength);
        }
        let beta_start: usize = fixed;
        let log_start: usize = beta_start + self.beta_length;
        let surb_start: usize = log_start + self.surb_log_length;
        let mut alpha = [0u8; 32];
        let mut gamma = [0u8; 16];
        let mut i: usize = 0;
        while i < 32
            invariant
                n == header@.len(),
                n >= 48,
                i <= 32,
                forall|j: int| 0 <= j < i ==> alpha@[j] == header@[j],
            decreases 32 - i,
        {
            alpha[i] = header[i];
            i = i + 1;
        }
        let mut i: usize = 0;
        while i < 16
            invariant
                n == header@.len(),
                n >= 48,
                i <= 16,
                forall|j: int| 0 <= j < i ==> gamma@[j] == header@[32 + j],
            decreases 16 - i,
        {
            gamma[i] = header[32 + i];
            i = i + 1;
        }
        let beta = copy_bytes(&header[beta_start..log_start]);
        let surb_log = copy_bytes(&header[log_start..surb_start]);
        let surb = copy_bytes(&header[surb_start..n]);
        let refs = HeaderRefs { alpha, gamma, beta, surb_log, surb };
        assert(alpha@ =~= header@.subrange(0, 32));
        assert(gamma@ =~= header@.subrange(32, 48));
        assert(header_bytes(refs) =~= header@);
        Ok(refs)
    }
}

/// A packet queued for its next hop.
#[derive(Debug)]
pub struct OutgoingPacket {
    pub route: RoutingName,
    pub name: PacketName,
    pub header: Vec<u8>,
    pub body: Vec<u8>,
}

/// A packet waiting in a local mailbox, with the SURB log to answer it.
#[derive(Debug)]
pub struct MailboxPacket {
    pub mailbox: MailboxName,
    pub name: PacketName,
    pub surb_log: Vec<u8>,
    pub body: Vec<u8>,
}

/// A packet that arrived for a local application.
#[derive(Debug)]
pub struct ArrivingPacket {
    pub surbs: Vec<PacketName>,
    pub body: Vec<u8>,
}

/// A mix node: its protocol parameters and the queues it fills.
pub struct SphinxRouter {
    pub params: SphinxParams,
    pub outgoing: Vec<OutgoingPacket>,
    pub mailboxes: Vec<MailboxPacket>,
    pub arrivals: Vec<ArrivingPacket>,
}

impl SphinxRouter {
    /// A node with empty queues.
    pub fn new(params: SphinxParams) -> (r: SphinxRouter)
        ensures
            r.params == params,
            r.outgoing@ == Seq::<OutgoingPacket>::empty(),
            r.mailboxes@ == Seq::<MailboxPacket>::empty(),
            r.arrivals@ == Seq::<ArrivingPacket>::empty(),
    {
        SphinxRouter {
            params,
            outgoing: Vec::new(),
            mailboxes: Vec::new(),
            arrivals: Vec::new(),
        }
    }

    /// Unwind a chain of SURBs: the local application learns which of its
    /// SURBs the packet came through.  The SURB archive is not consulted yet,
    /// so the list is empty.
    pub fn unwind_surbs(packet_name: PacketName, surb_log: &[u8]) -> (r: Action)
        ensures
            r matches Action::Arrival { surbs } && surbs@ == Seq::<PacketName>::empty(),
    {
        let cap: usize = surb_log.len() / PACKET_NAME_LENGTH + 1;
        let purposes: Vec<PacketName> = Vec::with_capacity(cap);
        Action::Arrival { surbs: purposes }
    }

    /// Process an incoming Sphinx packet: refuse a body or header of the
    /// wrong length, and otherwise cut the header into its parts and start
    /// the processing that `Processing::step` carries on.
    pub fn process(&self, header: &[u8], body: &[u8]) -> (r: SphinxResult<(HeaderRefs, Processing)>)
        requires
            self.params.max_beta_tail_length < self.params.beta_length,
        ensures
            (body@.len() != self.params.body_length || header@.len() != self.params.header_length())
                ==> r == Err::<(HeaderRefs, Processing), SphinxError>(SphinxError::BadLength),
            (body@.len() == self.params.body_length && header@.len() == self.params.header_length())
                ==> (r matches Ok((refs, p)) && header_bytes(refs) == header@ && refs.wf()
                && refs.beta@.len() == self.params.beta_length && refs.surb_log@.len()
                == self.params.surb_log_length && p.wf() && p.stage() is DecompressAlpha
                && !p.ratcheted()),
    {
        self.params.check_body_length(body)?;
        let refs = self.params.slice_header(header)?;
        Ok((refs, Processing::new()))
    }

    /// Queue a processed packet where its action says: for the next hop, in
    /// a mailbox, or as an arrival.  A packet refused during processing is
    /// dropped and its error returned.
    pub fn dispatch(
        &mut self,
        outcome: SphinxResult<(PacketName, Action)>,
        refs: &HeaderRefs,
        body: Vec<u8>,
    ) -> (r: SphinxResult<()>)
        ensures
            final(self).params == old(self).params,
            outcome matches Err(e) ==> r == Err::<(), SphinxError>(e) && *final(self) == *old(self),
            outcome is Ok ==> r == Ok::<(), SphinxError>(()),
            outcome matches Ok((name, Action::Transmit { route })) ==> {
                &&& final(self).outgoing@.len() == old(self).outgoing@.len() + 1
                &&& final(self).outgoing@.drop_last() == old(self).outgoing@
                &&& final(self).outgoing@.last().route == route
                &&& final(self).outgoing@.last().name == name
                &&& final(self).outgoing@.last().header@ == header_bytes(*refs)
                &&& final(self).outgoing@.last().body == body
                &&& final(self).mailboxes == old(self).mailboxes
                &&& final(self).arrivals == old(self).arrivals
            },
            outcome matches Ok((name, Action::Deliver { mailbox, surb_log })) ==> {
                &&& final(self).mailboxes@ == old(self).mailboxes@.push(
                    MailboxPacket { mailbox, name, surb_log, body },
                )
                &&& final(self).outgoing == old(self).outgoing
                &&& final(self).arrivals == old(self).arrivals
            },
            outcome matches Ok((name, Action::Arrival { surbs })) ==> {
                &&& final(self).arrivals@ == old(self).arrivals@.push(ArrivingPacket { surbs, body })
                &&& final(self).outgoing == old(self).outgoing
                &&& final(self).mailboxes == old(self).mailboxes
            },
    {
        match outcome {
            Err(e) => Err(e),
            Ok((name, Action::Transmit { route })) => {
                let header = refs.to_header();
                self.outgoing.push(OutgoingPacket { route, name, header, body });
                Ok(())
            },
            Ok((name, Action::Deliver { mailbox, surb_log })) => {
                self.mailboxes.push(MailboxPacket { mailbox, name, surb_log, body });
                Ok(())
            },
            Ok((_name, Action::Arrival { surbs })) => {
                self.arrivals.push(ArrivingPacket { surbs, body });
                Ok(())
            },
        }
    }
}

/// No packet is forwarded, delivered or accepted unless the MAC of its hop
/// verified under the hop's final key and the hop passed the replay filter.
pub proof fn accepted_packets_are_authenticated(p: Processing)
    requires
        p.wf(),
    ensures
        p.stage() matches Stage::Done { outcome: Ok(_) } ==> p.verified() && p.fresh(),
{
}

} // verus!
