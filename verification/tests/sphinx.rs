use xolotl::ratchet::branch::{BranchId, BranchName};
use xolotl::ratchet::twig::TwigIdx;
use xolotl::sphinx::node::{
    already_crossed_over, Action, BadPacketReason, Command, Event, HeaderRefs,
    MailboxName, PacketName, Processing, Request, RoutingName, SphinxError, SphinxParams,
    SphinxRouter, TwigId,
};

fn params() -> SphinxParams {
    SphinxParams { beta_length: 8, max_beta_tail_length: 2, surb_log_length: 4, body_length: 5 }
}

fn header() -> Vec<u8> {
    // alpha 32, gamma 16, beta 8, surb log 4, surb 8
    let mut h = Vec::new();
    h.extend_from_slice(&[1u8; 32]);
    h.extend_from_slice(&[2u8; 16]);
    h.extend_from_slice(&[3u8; 8]);
    h.extend_from_slice(&[4u8; 4]);
    h.extend_from_slice(&[5u8; 8]);
    h
}

fn start() -> (HeaderRefs, Processing) {
    let r = SphinxRouter::new(params());
    r.process(&header(), &[0u8; 5]).unwrap()
}

fn authenticated() -> (HeaderRefs, Processing) {
    let (mut refs, mut p) = start();
    p.step(&mut refs, Event::AlphaDecompressed(Ok(())));
    assert_eq!(p.request(), Request::VerifyGamma);
    p.step(&mut refs, Event::GammaVerified(Ok(())));
    assert_eq!(p.request(), Request::CheckReplay);
    p.step(&mut refs, Event::ReplayChecked(Ok(())));
    assert_eq!(p.request(), Request::PealBeta);
    (refs, p)
}

fn name() -> PacketName {
    PacketName([0x11; 16])
}

fn twig() -> TwigId {
    TwigId(BranchId { family: BranchName([1; 16]), berry: TwigIdx(2) }, TwigIdx(3))
}

#[test]
fn process_slices_header() {
    let (refs, p) = start();
    assert_eq!(refs.alpha, [1u8; 32]);
    assert_eq!(refs.gamma, [2u8; 16]);
    assert_eq!(refs.beta, vec![3u8; 8]);
    assert_eq!(refs.surb_log, vec![4u8; 4]);
    assert_eq!(refs.surb, vec![5u8; 8]);
    assert_eq!(refs.to_header(), header());
    assert_eq!(p.request(), Request::DecompressAlpha);
}

#[test]
fn process_refuses_bad_lengths() {
    let r = SphinxRouter::new(params());
    let mut short = header();
    short.pop();
    assert_eq!(r.process(&short, &[0u8; 5]).err(), Some(SphinxError::BadLength));
    let mut long = header();
    long.push(0);
    assert_eq!(r.process(&long, &[0u8; 5]).err(), Some(SphinxError::BadLength));
    assert_eq!(r.process(&header(), &[0u8; 4]).err(), Some(SphinxError::BadLength));
    assert_eq!(r.process(&[], &[]).err(), Some(SphinxError::BadLength));
}

#[test]
fn check_body_length_and_slice_header() {
    let ps = params();
    assert_eq!(ps.check_body_length(&[0u8; 5]), Ok(()));
    assert_eq!(ps.check_body_length(&[0u8; 6]), Err(SphinxError::BadLength));
    assert!(ps.slice_header(&header()).is_ok());
    assert_eq!(ps.slice_header(&[0u8; 47]).err(), Some(SphinxError::BadLength));
}

#[test]
fn failures_of_each_check_end_processing() {
    let (mut refs, mut p) = start();
    p.step(&mut refs, Event::AlphaDecompressed(Err(SphinxError::BadAlpha)));
    assert_eq!(p.request(), Request::Finished);
    assert_eq!(p.outcome().unwrap().err(), Some(SphinxError::BadAlpha));

    let (mut refs, mut p) = start();
    p.step(&mut refs, Event::AlphaDecompressed(Ok(())));
    p.step(&mut refs, Event::GammaVerified(Err(SphinxError::InvalidMac)));
    assert_eq!(p.outcome().unwrap().err(), Some(SphinxError::InvalidMac));

    let (mut refs, mut p) = start();
    p.step(&mut refs, Event::AlphaDecompressed(Ok(())));
    p.step(&mut refs, Event::GammaVerified(Ok(())));
    p.step(&mut refs, Event::ReplayChecked(Err(SphinxError::Replay)));
    assert_eq!(p.outcome().unwrap().err(), Some(SphinxError::Replay));
}

#[test]
fn events_out_of_turn_are_ignored() {
    let (mut refs, mut p) = start();
    p.step(&mut refs, Event::BodyDecrypted(Ok(())));
    assert_eq!(p.request(), Request::DecompressAlpha);
    p.step(&mut refs, Event::BetaPealed(Command::ArrivalDirect, name()));
    assert_eq!(p.request(), Request::DecompressAlpha);
    assert!(p.outcome().is_none());
}

#[test]
fn transmit_sets_gamma_and_blinded_alpha() {
    let (mut refs, mut p) = authenticated();
    let route = RoutingName([9; 16]);
    p.step(&mut refs, Event::BetaPealed(Command::Transmit { route, gamma: [7; 16] }, name()));
    assert_eq!(p.request(), Request::DecryptBody);
    p.step(&mut refs, Event::BodyDecrypted(Ok(())));
    assert_eq!(p.request(), Request::MaskSurbAndBlind);
    assert_eq!(refs.gamma, [2u8; 16]);
    p.step(&mut refs, Event::SurbMaskedAndBlinded(Ok([8; 32])));
    assert_eq!(refs.gamma, [7u8; 16]);
    assert_eq!(refs.alpha, [8u8; 32]);
    match p.outcome().unwrap().unwrap() {
        (n, Action::Transmit { route: r }) => {
            assert_eq!(n, name());
            assert_eq!(r, route);
        }
        _ => panic!("expected a transmit"),
    }
}

#[test]
fn transmit_blinding_failure() {
    let (mut refs, mut p) = authenticated();
    let route = RoutingName([9; 16]);
    p.step(&mut refs, Event::BetaPealed(Command::Transmit { route, gamma: [7; 16] }, name()));
    p.step(&mut refs, Event::BodyDecrypted(Ok(())));
    p.step(&mut refs, Event::SurbMaskedAndBlinded(Err(SphinxError::InternalError)));
    assert_eq!(refs.alpha, [1u8; 32]);
    assert_eq!(p.outcome().unwrap().err(), Some(SphinxError::InternalError));
}

#[test]
fn body_decryption_failure() {
    let (mut refs, mut p) = authenticated();
    p.step(&mut refs, Event::BetaPealed(Command::ArrivalDirect, name()));
    p.step(&mut refs, Event::BodyDecrypted(Err(SphinxError::InternalError)));
    assert_eq!(p.outcome().unwrap().err(), Some(SphinxError::InternalError));
}

#[test]
fn deliver_keeps_the_surb_log() {
    let (mut refs, mut p) = authenticated();
    let mailbox = MailboxName([6; 16]);
    p.step(&mut refs, Event::BetaPealed(Command::Deliver { mailbox }, name()));
    p.step(&mut refs, Event::BodyDecrypted(Ok(())));
    match p.outcome().unwrap().unwrap() {
        (n, Action::Deliver { mailbox: m, surb_log }) => {
            assert_eq!(n, name());
            assert_eq!(m, mailbox);
            assert_eq!(surb_log, vec![4u8; 4]);
        }
        _ => panic!("expected a delivery"),
    }
}

#[test]
fn direct_arrival() {
    let (mut refs, mut p) = authenticated();
    p.step(&mut refs, Event::BetaPealed(Command::ArrivalDirect, name()));
    p.step(&mut refs, Event::BodyDecrypted(Ok(())));
    match p.outcome().unwrap().unwrap() {
        (_, Action::Arrival { surbs }) => assert!(surbs.is_empty()),
        _ => panic!("expected an arrival"),
    }
}

#[test]
fn surb_arrival_skips_body_decryption() {
    let (mut refs, mut p) = authenticated();
    p.step(&mut refs, Event::BetaPealed(Command::ArrivalSURB, name()));
    assert_eq!(p.request(), Request::Finished);
    match p.outcome().unwrap().unwrap() {
        (n, Action::Arrival { surbs }) => {
            assert_eq!(n, name());
            assert!(surbs.is_empty());
        }
        _ => panic!("expected an arrival"),
    }
}

#[test]
fn crossover_moves_the_surb_then_refuses_a_second() {
    let (mut refs, mut p) = authenticated();
    let cmd = Command::CrossOver { alpha: [0xaa; 32], gamma: [0xbb; 16] };
    p.step(&mut refs, Event::BetaPealed(cmd, name()));
    p.step(&mut refs, Event::BodyDecrypted(Ok(())));
    assert_eq!(p.request(), Request::DecompressAlpha);
    assert_eq!(refs.alpha, [0xaa; 32]);
    assert_eq!(refs.gamma, [0xbb; 16]);
    assert_eq!(refs.beta, vec![5u8; 8]);
    assert_eq!(refs.surb, vec![0u8; 8]);
    assert_eq!(refs.surb_log, vec![0u8; 4]);
    // The SURB's own hop.
    p.step(&mut refs, Event::AlphaDecompressed(Ok(())));
    p.step(&mut refs, Event::GammaVerified(Ok(())));
    p.step(&mut refs, Event::ReplayChecked(Ok(())));
    p.step(&mut refs, Event::BetaPealed(cmd, name()));
    p.step(&mut refs, Event::BodyDecrypted(Ok(())));
    assert_eq!(
        p.outcome().unwrap().err(),
        Some(SphinxError::BadPacket(BadPacketReason::TwoCrossoverSubhops))
    );
}

#[test]
fn ratchet_subhop_rekeys_then_refuses_a_second() {
    let (mut refs, mut p) = authenticated();
    p.step(&mut refs, Event::BetaPealed(Command::Ratchet { twig: twig(), gamma: [0xcc; 16] }, name()));
    assert_eq!(p.request(), Request::AdvanceRatchet(twig()));
    p.step(&mut refs, Event::RatchetAdvanced(Ok(())));
    assert_eq!(refs.gamma, [0xcc; 16]);
    assert_eq!(p.request(), Request::VerifyGamma);
    p.step(&mut refs, Event::GammaVerified(Ok(())));
    assert_eq!(p.request(), Request::ConfirmRatchet);
    p.step(&mut refs, Event::RatchetConfirmed(Ok(())));
    assert_eq!(p.request(), Request::PealBeta);
    p.step(&mut refs, Event::BetaPealed(Command::Ratchet { twig: twig(), gamma: [0xcc; 16] }, name()));
    assert_eq!(
        p.outcome().unwrap().err(),
        Some(SphinxError::BadPacket(BadPacketReason::TwoRatchetSubhops))
    );
}

#[test]
fn ratchet_then_transmit() {
    let (mut refs, mut p) = authenticated();
    p.step(&mut refs, Event::BetaPealed(Command::Ratchet { twig: twig(), gamma: [0xcc; 16] }, name()));
    p.step(&mut refs, Event::RatchetAdvanced(Ok(())));
    p.step(&mut refs, Event::GammaVerified(Ok(())));
    p.step(&mut refs, Event::RatchetConfirmed(Ok(())));
    p.step(&mut refs, Event::BetaPealed(Command::ArrivalDirect, name()));
    p.step(&mut refs, Event::BodyDecrypted(Ok(())));
    assert!(p.outcome().unwrap().is_ok());
}

#[test]
fn ratchet_mac_failure_abandons() {
    let (mut refs, mut p) = authenticated();
    p.step(&mut refs, Event::BetaPealed(Command::Ratchet { twig: twig(), gamma: [0xcc; 16] }, name()));
    p.step(&mut refs, Event::RatchetAdvanced(Ok(())));
    p.step(&mut refs, Event::GammaVerified(Err(SphinxError::InvalidMac)));
    assert_eq!(p.request(), Request::AbandonRatchet);
    p.step(&mut refs, Event::RatchetAbandoned(Ok(())));
    assert_eq!(p.outcome().unwrap().err(), Some(SphinxError::InvalidMac));
}

#[test]
fn ratchet_store_failures() {
    let (mut refs, mut p) = authenticated();
    p.step(&mut refs, Event::BetaPealed(Command::Ratchet { twig: twig(), gamma: [0xcc; 16] }, name()));
    p.step(&mut refs, Event::RatchetAdvanced(Err(SphinxError::RatchetError)));
    assert_eq!(refs.gamma, [2u8; 16]);
    assert_eq!(p.outcome().unwrap().err(), Some(SphinxError::RatchetError));

    let (mut refs, mut p) = authenticated();
    p.step(&mut refs, Event::BetaPealed(Command::Ratchet { twig: twig(), gamma: [0xcc; 16] }, name()));
    p.step(&mut refs, Event::RatchetAdvanced(Ok(())));
    p.step(&mut refs, Event::GammaVerified(Err(SphinxError::InvalidMac)));
    p.step(&mut refs, Event::RatchetAbandoned(Err(SphinxError::RatchetError)));
    assert_eq!(p.outcome().unwrap().err(), Some(SphinxError::RatchetError));

    let (mut refs, mut p) = authenticated();
    p.step(&mut refs, Event::BetaPealed(Command::Ratchet { twig: twig(), gamma: [0xcc; 16] }, name()));
    p.step(&mut refs, Event::RatchetAdvanced(Ok(())));
    p.step(&mut refs, Event::GammaVerified(Ok(())));
    p.step(&mut refs, Event::RatchetConfirmed(Err(SphinxError::RatchetError)));
    assert_eq!(p.outcome().unwrap().err(), Some(SphinxError::RatchetError));
}

#[test]
fn crossed_over_means_all_zero_log() {
    assert!(already_crossed_over(&[]));
    assert!(already_crossed_over(&[0, 0, 0]));
    assert!(!already_crossed_over(&[0, 0, 1]));
    assert!(!already_crossed_over(&[0x80]));
}

#[test]
fn unwind_surbs_reports_no_purposes() {
    match SphinxRouter::unwind_surbs(name(), &[1u8; 40]) {
        Action::Arrival { surbs } => assert!(surbs.is_empty()),
        _ => panic!("expected an arrival"),
    }
}

#[test]
fn dispatch_queues_by_action() {
    let mut r = SphinxRouter::new(params());
    let (refs, _) = start();
    let route = RoutingName([9; 16]);
    assert_eq!(r.dispatch(Ok((name(), Action::Transmit { route })), &refs, vec![1, 2]), Ok(()));
    assert_eq!(r.outgoing.len(), 1);
    assert_eq!(r.outgoing[0].route, route);
    assert_eq!(r.outgoing[0].name, name());
    assert_eq!(r.outgoing[0].header, header());
    assert_eq!(r.outgoing[0].body, vec![1, 2]);

    let mailbox = MailboxName([6; 16]);
    let d = Action::Deliver { mailbox, surb_log: vec![4, 4] };
    assert_eq!(r.dispatch(Ok((name(), d)), &refs, vec![3]), Ok(()));
    assert_eq!(r.mailboxes.len(), 1);
    assert_eq!(r.mailboxes[0].mailbox, mailbox);
    assert_eq!(r.mailboxes[0].surb_log, vec![4, 4]);

    assert_eq!(r.dispatch(Ok((name(), Action::Arrival { surbs: vec![] })), &refs, vec![4]), Ok(()));
    assert_eq!(r.arrivals.len(), 1);
    assert_eq!(r.arrivals[0].body, vec![4]);

    assert_eq!(r.dispatch(Err(SphinxError::Replay), &refs, vec![5]), Err(SphinxError::Replay));
    assert_eq!(r.outgoing.len(), 1);
    assert_eq!(r.mailboxes.len(), 1);
    assert_eq!(r.arrivals.len(), 1);
}
