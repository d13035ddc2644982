use proof_of_hack::address::{derive_config_address, derive_protocol_address};
use proof_of_hack::commitment::commit;
use proof_of_hack::errors::ProofOfHackError;
use proof_of_hack::identity::Identity;
use proof_of_hack::instructions::acknowledge_disclosure::AcknowledgeDisclosure;
use proof_of_hack::instructions::claim_disclosure::ClaimDisclosure;
use proof_of_hack::instructions::create_protocol_config::CreateProtocolConfig;
use proof_of_hack::instructions::resolve_disclosure::ResolveDisclosure;
use proof_of_hack::instructions::reveal_proof::{reveal_with_digest, RevealProof};
use proof_of_hack::instructions::submit_disclosure::{
    find_policy_floor, submit_with_addresses, SubmitDisclosure, DEFAULT_GRACE_PERIOD,
};
use proof_of_hack::state::{
    AccountRecord, Disclosure, DisclosureStatus, Protocol, ResolutionType, Severity,
};
use proof_of_hack::{
    acknowledge_disclosure, claim_disclosure, create_protocol_config, resolve_disclosure,
    reveal_proof, submit_disclosure,
};

const PLAINTEXT: &[u8] = b"exploit: reentrancy in withdraw";

fn id(b: u8) -> Identity {
    Identity::new([b; 32])
}

fn program_id() -> Identity {
    id(7)
}

fn target() -> Identity {
    id(9)
}

fn hacker() -> Identity {
    id(50)
}

fn team() -> Identity {
    id(1)
}

fn protocol_key() -> Identity {
    derive_protocol_address(&target(), &program_id()).unwrap()
}

fn submission() -> SubmitDisclosure {
    SubmitDisclosure {
        hacker: hacker(),
        target_program: target(),
        target_executable: true,
        protocol: Identity::null(),
        bump: 249,
    }
}

fn submit(
    ctx: &SubmitDisclosure,
    accounts: &Vec<AccountRecord>,
    payload: Vec<u8>,
    severity: u8,
    grace_period: i64,
    now: i64,
) -> Result<Disclosure, ProofOfHackError> {
    submit_disclosure(
        ctx,
        &program_id(),
        accounts,
        commit(PLAINTEXT),
        payload,
        [6u8; 32],
        severity,
        grace_period,
        3,
        now,
    )
}

fn config_record(min_grace_period: i64) -> AccountRecord {
    let mut data = vec![207u8, 91, 250, 28, 152, 179, 215, 209];
    data.extend_from_slice(&protocol_key().bytes);
    data.extend_from_slice(&min_grace_period.to_le_bytes());
    data.push(250);
    AccountRecord {
        key: derive_config_address(&protocol_key(), &program_id()).unwrap(),
        owner: program_id(),
        data,
    }
}

fn protocol() -> Protocol {
    Protocol {
        authority: team(),
        program_address: target(),
        name: String::from("Lending Pool"),
        encryption_key: [4u8; 32],
        registered_at: 100,
        pending_authority: Identity::null(),
        bump: 251,
    }
}

fn submitted(linked: bool) -> Disclosure {
    let mut ctx = submission();
    if linked {
        ctx.protocol = protocol_key();
    }
    submit(&ctx, &Vec::new(), vec![1u8; 48], 3, 60, 1000).unwrap()
}

fn acknowledged() -> Disclosure {
    let mut ctx = AcknowledgeDisclosure {
        disclosure: submitted(true),
        protocol: protocol(),
        protocol_key: protocol_key(),
        authority: team(),
    };
    acknowledge_disclosure(&mut ctx, 1010).unwrap();
    ctx.disclosure
}

fn resolved() -> Disclosure {
    let mut ctx = ResolveDisclosure {
        disclosure: acknowledged(),
        protocol: protocol(),
        protocol_key: protocol_key(),
        authority: team(),
    };
    resolve_disclosure(&mut ctx, [8u8; 32], 2, 1020).unwrap();
    ctx.disclosure
}

#[test]
fn submit_creates_a_submitted_disclosure() {
    let d = submit(&submission(), &Vec::new(), vec![1u8; 48], 3, 60, 1000).unwrap();
    assert_eq!(d.hacker, hacker());
    assert!(d.protocol.is_null());
    assert_eq!(d.target_program, target());
    assert_eq!(d.proof_hash, commit(PLAINTEXT));
    assert_eq!(d.encrypted_proof, vec![1u8; 48]);
    assert_eq!(d.sender_encryption_key, [6u8; 32]);
    assert_eq!(d.severity, Severity::High);
    assert_eq!(d.status, DisclosureStatus::Submitted);
    assert_eq!(d.resolution_type, ResolutionType::Unresolved);
    assert_eq!(d.payment_hash, [0u8; 32]);
    assert_eq!(d.submitted_at, 1000);
    assert_eq!(d.acknowledged_at, 0);
    assert_eq!(d.resolved_at, 0);
    assert_eq!(d.grace_period, 60);
    assert_eq!(d.nonce, 3);
    assert_eq!(d.bump, 249);
}

#[test]
fn reveal_waits_for_the_grace_period() {
    let d = submit(&submission(), &Vec::new(), vec![1u8; 48], 3, 60, 1000).unwrap();
    let mut ctx = RevealProof { disclosure: d, hacker: hacker() };
    assert_eq!(
        reveal_proof(&mut ctx, PLAINTEXT.to_vec(), 1000),
        Err(ProofOfHackError::GracePeriodNotElapsed)
    );
    assert_eq!(
        reveal_proof(&mut ctx, PLAINTEXT.to_vec(), 1059),
        Err(ProofOfHackError::GracePeriodNotElapsed)
    );
    assert_eq!(ctx.disclosure.status, DisclosureStatus::Submitted);
    assert_eq!(ctx.disclosure.encrypted_proof, vec![1u8; 48]);
    assert_eq!(reveal_proof(&mut ctx, PLAINTEXT.to_vec(), 1060), Ok(()));
    assert_eq!(ctx.disclosure.status, DisclosureStatus::Revealed);
    assert_eq!(ctx.disclosure.encrypted_proof, PLAINTEXT.to_vec());
    assert_eq!(ctx.disclosure.proof_hash, commit(PLAINTEXT));
}

#[test]
fn protocol_minimum_binds_without_a_protocol_link() {
    let settings = CreateProtocolConfig {
        protocol: protocol(),
        protocol_key: protocol_key(),
        authority: team(),
        bump: 250,
    };
    let config = create_protocol_config(&settings, 3600).unwrap();
    let stored = AccountRecord {
        key: derive_config_address(&protocol_key(), &program_id()).unwrap(),
        owner: program_id(),
        data: config.serialize(),
    };
    assert_eq!(stored.data, config_record(3600).data);
    let accounts = vec![stored];
    let r = submit(&submission(), &accounts, vec![1u8; 48], 3, 60, 1000);
    assert_eq!(r.unwrap_err(), ProofOfHackError::GracePeriodBelowProtocolMinimum);
    let r = submit(&submission(), &accounts, vec![1u8; 48], 3, 3599, 1000);
    assert_eq!(r.unwrap_err(), ProofOfHackError::GracePeriodBelowProtocolMinimum);
    assert!(submit(&submission(), &accounts, vec![1u8; 48], 3, 3600, 1000).is_ok());
}

#[test]
fn protocol_minimum_binds_with_a_protocol_link() {
    let accounts = vec![config_record(3600)];
    let mut ctx = submission();
    ctx.protocol = protocol_key();
    let r = submit(&ctx, &accounts, vec![1u8; 48], 3, 60, 1000);
    assert_eq!(r.unwrap_err(), ProofOfHackError::GracePeriodBelowProtocolMinimum);
}

#[test]
fn a_zero_minimum_defers_to_the_global_minimum() {
    let accounts = vec![config_record(0)];
    assert!(submit(&submission(), &accounts, vec![1u8; 48], 3, 60, 1000).is_ok());
}

#[test]
fn records_that_are_not_the_settings_are_passed_over() {
    let mut elsewhere = config_record(3600);
    elsewhere.key = id(77);
    let mut foreign = config_record(3600);
    foreign.owner = id(78);
    let mut empty = config_record(3600);
    empty.data = Vec::new();
    let accounts = vec![elsewhere, foreign, empty];
    assert!(submit(&submission(), &accounts, vec![1u8; 48], 3, 60, 1000).is_ok());
    let config = derive_config_address(&protocol_key(), &program_id());
    assert_eq!(find_policy_floor(&accounts, &config, &program_id()), Ok(0));
}

#[test]
fn the_first_settings_record_decides() {
    let accounts = vec![config_record(0), config_record(3600)];
    assert!(submit(&submission(), &accounts, vec![1u8; 48], 3, 60, 1000).is_ok());
    let accounts = vec![config_record(3600), config_record(0)];
    let config = derive_config_address(&protocol_key(), &program_id());
    assert_eq!(find_policy_floor(&accounts, &config, &program_id()), Ok(3600));
    assert_eq!(find_policy_floor(&accounts, &None, &program_id()), Ok(0));
}

#[test]
fn unreadable_settings_fail_the_submission() {
    let mut broken = config_record(3600);
    broken.data[0] = 0;
    let r = submit(&submission(), &vec![broken], vec![1u8; 48], 3, 60, 1000);
    assert_eq!(r.unwrap_err(), ProofOfHackError::InvalidProtocolConfig);
    let mut short = config_record(3600);
    short.data.truncate(20);
    let r = submit(&submission(), &vec![short], vec![1u8; 48], 3, 60, 1000);
    assert_eq!(r.unwrap_err(), ProofOfHackError::InvalidProtocolConfig);
}

#[test]
fn a_payload_of_ten_bytes_is_too_small() {
    let r = submit(&submission(), &Vec::new(), vec![1u8; 10], 3, 60, 1000);
    assert_eq!(r.unwrap_err(), ProofOfHackError::EncryptedProofTooSmall);
}

#[test]
fn payload_length_bounds() {
    let ctx = submission();
    assert!(submit(&ctx, &Vec::new(), Vec::new(), 3, 60, 1000).is_ok());
    assert_eq!(
        submit(&ctx, &Vec::new(), vec![1u8; 1], 3, 60, 1000).unwrap_err(),
        ProofOfHackError::EncryptedProofTooSmall
    );
    assert_eq!(
        submit(&ctx, &Vec::new(), vec![1u8; 47], 3, 60, 1000).unwrap_err(),
        ProofOfHackError::EncryptedProofTooSmall
    );
    assert!(submit(&ctx, &Vec::new(), vec![1u8; 48], 3, 60, 1000).is_ok());
    assert!(submit(&ctx, &Vec::new(), vec![1u8; 1024], 3, 60, 1000).is_ok());
    assert_eq!(
        submit(&ctx, &Vec::new(), vec![1u8; 1025], 3, 60, 1000).unwrap_err(),
        ProofOfHackError::EncryptedProofTooLarge
    );
}

#[test]
fn severity_bounds() {
    let ctx = submission();
    assert_eq!(
        submit(&ctx, &Vec::new(), vec![1u8; 48], 0, 60, 1000).unwrap_err(),
        ProofOfHackError::InvalidSeverity
    );
    assert_eq!(
        submit(&ctx, &Vec::new(), vec![1u8; 48], 5, 60, 1000).unwrap_err(),
        ProofOfHackError::InvalidSeverity
    );
    assert_eq!(
        submit(&ctx, &Vec::new(), vec![1u8; 48], 1, 60, 1000).unwrap().severity,
        Severity::Low
    );
    assert_eq!(
        submit(&ctx, &Vec::new(), vec![1u8; 48], 4, 60, 1000).unwrap().severity,
        Severity::Critical
    );
}

#[test]
fn grace_period_bounds() {
    let ctx = submission();
    assert_eq!(
        submit(&ctx, &Vec::new(), vec![1u8; 48], 3, 59, 1000).unwrap_err(),
        ProofOfHackError::GracePeriodTooShort
    );
    assert_eq!(
        submit(&ctx, &Vec::new(), vec![1u8; 48], 3, -1, 1000).unwrap_err(),
        ProofOfHackError::GracePeriodTooShort
    );
    assert_eq!(
        submit(&ctx, &Vec::new(), vec![1u8; 48], 3, 31_536_001, 1000).unwrap_err(),
        ProofOfHackError::GracePeriodTooLong
    );
    assert!(submit(&ctx, &Vec::new(), vec![1u8; 48], 3, 31_536_000, 1000).is_ok());
    assert_eq!(
        submit(&ctx, &Vec::new(), vec![1u8; 48], 3, DEFAULT_GRACE_PERIOD, 1000)
            .unwrap()
            .grace_period,
        604800
    );
}

#[test]
fn the_target_must_be_executable() {
    let mut ctx = submission();
    ctx.target_executable = false;
    let r = submit(&ctx, &Vec::new(), vec![1u8; 48], 3, 60, 1000);
    assert_eq!(r.unwrap_err(), ProofOfHackError::InvalidTargetProgram);
}

#[test]
fn a_linked_protocol_must_govern_the_target() {
    let mut ctx = submission();
    ctx.protocol = protocol_key();
    let d = submit(&ctx, &Vec::new(), vec![1u8; 48], 3, 60, 1000).unwrap();
    assert_eq!(d.protocol, protocol_key());
    ctx.protocol = derive_protocol_address(&id(10), &program_id()).unwrap();
    let r = submit(&ctx, &Vec::new(), vec![1u8; 48], 3, 60, 1000);
    assert_eq!(r.unwrap_err(), ProofOfHackError::ProtocolMismatch);
}

#[test]
fn submit_with_addresses_takes_the_derived_addresses_as_given() {
    let mut ctx = submission();
    ctx.protocol = id(30);
    let accounts = vec![AccountRecord { key: id(31), ..config_record(3600) }];
    let r = submit_with_addresses(
        &ctx, &program_id(), &accounts, &Some(id(30)), &Some(id(31)), [0u8; 32], Vec::new(),
        [6u8; 32], 1, 3599, 0, 5,
    );
    assert_eq!(r.unwrap_err(), ProofOfHackError::GracePeriodBelowProtocolMinimum);
    let d = submit_with_addresses(
        &ctx, &program_id(), &accounts, &Some(id(30)), &Some(id(32)), [0u8; 32], Vec::new(),
        [6u8; 32], 1, 3599, 0, 5,
    )
    .unwrap();
    assert_eq!(d.protocol, id(30));
    let r = submit_with_addresses(
        &ctx, &program_id(), &accounts, &None, &None, [0u8; 32], Vec::new(), [6u8; 32], 1, 3599,
        0, 5,
    );
    assert_eq!(r.unwrap_err(), ProofOfHackError::ProtocolMismatch);
}

#[test]
fn a_late_protocol_adopts_an_unclaimed_disclosure() {
    let mut ctx = ClaimDisclosure {
        disclosure: submitted(false),
        protocol: protocol(),
        protocol_key: protocol_key(),
        authority: team(),
    };
    assert_eq!(claim_disclosure(&mut ctx), Ok(()));
    assert_eq!(ctx.disclosure.protocol, protocol_key());
    assert_eq!(ctx.disclosure.status, DisclosureStatus::Submitted);
    assert_eq!(claim_disclosure(&mut ctx), Err(ProofOfHackError::AlreadyClaimed));
}

#[test]
fn adoption_checks_target_status_and_caller() {
    let mut other = protocol();
    other.program_address = id(10);
    let mut ctx = ClaimDisclosure {
        disclosure: submitted(false),
        protocol: other,
        protocol_key: protocol_key(),
        authority: team(),
    };
    assert_eq!(claim_disclosure(&mut ctx), Err(ProofOfHackError::ProtocolMismatch));
    ctx.protocol = protocol();
    ctx.authority = id(2);
    assert_eq!(claim_disclosure(&mut ctx), Err(ProofOfHackError::UnauthorizedProtocolAction));
    ctx.authority = team();
    ctx.disclosure.status = DisclosureStatus::Acknowledged;
    assert_eq!(claim_disclosure(&mut ctx), Err(ProofOfHackError::InvalidStatus));
    assert!(ctx.disclosure.protocol.is_null());
}

#[test]
fn acknowledge_stamps_the_time() {
    let d = acknowledged();
    assert_eq!(d.status, DisclosureStatus::Acknowledged);
    assert_eq!(d.acknowledged_at, 1010);
    assert_eq!(d.resolved_at, 0);
}

#[test]
fn acknowledge_twice_fails() {
    let mut ctx = AcknowledgeDisclosure {
        disclosure: acknowledged(),
        protocol: protocol(),
        protocol_key: protocol_key(),
        authority: team(),
    };
    assert_eq!(acknowledge_disclosure(&mut ctx, 1011), Err(ProofOfHackError::InvalidStatus));
    assert_eq!(ctx.disclosure.acknowledged_at, 1010);
}

#[test]
fn acknowledge_checks_protocol_and_caller() {
    let mut ctx = AcknowledgeDisclosure {
        disclosure: submitted(true),
        protocol: protocol(),
        protocol_key: id(33),
        authority: team(),
    };
    assert_eq!(acknowledge_disclosure(&mut ctx, 1010), Err(ProofOfHackError::ProtocolMismatch));
    ctx.protocol_key = protocol_key();
    ctx.authority = hacker();
    assert_eq!(
        acknowledge_disclosure(&mut ctx, 1010),
        Err(ProofOfHackError::UnauthorizedProtocolAction)
    );
    assert_eq!(ctx.disclosure.status, DisclosureStatus::Submitted);
}

#[test]
fn an_unclaimed_disclosure_cannot_be_acknowledged() {
    let mut ctx = AcknowledgeDisclosure {
        disclosure: submitted(false),
        protocol: protocol(),
        protocol_key: Identity::null(),
        authority: team(),
    };
    assert_eq!(acknowledge_disclosure(&mut ctx, 1010), Err(ProofOfHackError::ProtocolMismatch));
}

#[test]
fn resolve_records_the_resolution() {
    let d = resolved();
    assert_eq!(d.status, DisclosureStatus::Resolved);
    assert_eq!(d.resolution_type, ResolutionType::OnchainBounty);
    assert_eq!(d.payment_hash, [8u8; 32]);
    assert_eq!(d.resolved_at, 1020);
    assert_eq!(d.acknowledged_at, 1010);
}

#[test]
fn resolution_type_bounds() {
    let ctx = ResolveDisclosure {
        disclosure: acknowledged(),
        protocol: protocol(),
        protocol_key: protocol_key(),
        authority: team(),
    };
    for code in [0u8, 4, 255] {
        let mut c = ctx.clone();
        assert_eq!(
            resolve_disclosure(&mut c, [8u8; 32], code, 1020),
            Err(ProofOfHackError::InvalidResolutionType)
        );
        assert_eq!(c.disclosure.status, DisclosureStatus::Acknowledged);
    }
    let mut c = ctx.clone();
    assert_eq!(resolve_disclosure(&mut c, [8u8; 32], 1, 1020), Ok(()));
    assert_eq!(c.disclosure.resolution_type, ResolutionType::OffchainAttestation);
    let mut c = ctx.clone();
    assert_eq!(resolve_disclosure(&mut c, [8u8; 32], 3, 1020), Ok(()));
    assert_eq!(c.disclosure.resolution_type, ResolutionType::NoPayment);
}

#[test]
fn resolve_needs_an_acknowledged_disclosure() {
    let mut ctx = ResolveDisclosure {
        disclosure: submitted(true),
        protocol: protocol(),
        protocol_key: protocol_key(),
        authority: team(),
    };
    assert_eq!(resolve_disclosure(&mut ctx, [8u8; 32], 2, 1020), Err(ProofOfHackError::InvalidStatus));
    ctx.disclosure = resolved();
    assert_eq!(resolve_disclosure(&mut ctx, [8u8; 32], 2, 1030), Err(ProofOfHackError::InvalidStatus));
    assert_eq!(ctx.disclosure.resolved_at, 1020);
}

#[test]
fn resolve_checks_protocol_and_caller() {
    let mut ctx = ResolveDisclosure {
        disclosure: acknowledged(),
        protocol: protocol(),
        protocol_key: id(33),
        authority: team(),
    };
    assert_eq!(
        resolve_disclosure(&mut ctx, [8u8; 32], 2, 1020),
        Err(ProofOfHackError::ProtocolMismatch)
    );
    ctx.protocol_key = protocol_key();
    ctx.authority = hacker();
    assert_eq!(
        resolve_disclosure(&mut ctx, [8u8; 32], 2, 1020),
        Err(ProofOfHackError::UnauthorizedProtocolAction)
    );
}

#[test]
fn reveal_is_open_from_every_earlier_state() {
    for d in [submitted(true), acknowledged(), resolved()] {
        let mut ctx = RevealProof { disclosure: d, hacker: hacker() };
        assert_eq!(reveal_proof(&mut ctx, PLAINTEXT.to_vec(), 2000), Ok(()));
        assert_eq!(ctx.disclosure.status, DisclosureStatus::Revealed);
        assert_eq!(ctx.disclosure.encrypted_proof, PLAINTEXT.to_vec());
    }
}

#[test]
fn reveal_happens_once() {
    let mut ctx = RevealProof { disclosure: submitted(true), hacker: hacker() };
    assert_eq!(reveal_proof(&mut ctx, PLAINTEXT.to_vec(), 2000), Ok(()));
    assert_eq!(
        reveal_proof(&mut ctx, PLAINTEXT.to_vec(), 2001),
        Err(ProofOfHackError::InvalidStatus)
    );
}

#[test]
fn reveal_rejects_another_plaintext() {
    let mut ctx = RevealProof { disclosure: submitted(true), hacker: hacker() };
    assert_eq!(
        reveal_proof(&mut ctx, b"exploit: reentrancy in deposit".to_vec(), 2000),
        Err(ProofOfHackError::ProofHashMismatch)
    );
    assert_eq!(ctx.disclosure.status, DisclosureStatus::Submitted);
    assert_eq!(ctx.disclosure.encrypted_proof, vec![1u8; 48]);
}

#[test]
fn reveal_is_for_the_hacker_alone() {
    let mut ctx = RevealProof { disclosure: submitted(true), hacker: team() };
    assert_eq!(
        reveal_proof(&mut ctx, PLAINTEXT.to_vec(), 2000),
        Err(ProofOfHackError::UnauthorizedHackerAction)
    );
}

#[test]
fn reveal_rejects_an_oversized_plaintext() {
    let big = vec![2u8; 1025];
    let mut d = submitted(true);
    d.proof_hash = commit(&big);
    let mut ctx = RevealProof { disclosure: d, hacker: hacker() };
    assert_eq!(reveal_proof(&mut ctx, big, 2000), Err(ProofOfHackError::PlaintextProofTooLarge));
    let fits = vec![2u8; 1024];
    ctx.disclosure.proof_hash = commit(&fits);
    assert_eq!(reveal_proof(&mut ctx, fits, 2000), Ok(()));
    assert_eq!(ctx.disclosure.encrypted_proof.len(), 1024);
}

#[test]
fn reveal_reports_a_deadline_beyond_the_clock() {
    let mut d = submitted(true);
    d.submitted_at = i64::MAX - 10;
    let mut ctx = RevealProof { disclosure: d, hacker: hacker() };
    assert_eq!(
        reveal_proof(&mut ctx, PLAINTEXT.to_vec(), i64::MAX),
        Err(ProofOfHackError::GracePeriodOverflow)
    );
}

#[test]
fn reveal_with_digest_compares_the_given_digest() {
    let mut ctx = RevealProof { disclosure: submitted(true), hacker: hacker() };
    assert_eq!(
        reveal_with_digest(&mut ctx, PLAINTEXT.to_vec(), 2000, &[0u8; 32]),
        Err(ProofOfHackError::ProofHashMismatch)
    );
    let digest = commit(PLAINTEXT);
    assert_eq!(reveal_with_digest(&mut ctx, vec![5u8; 3], 2000, &digest), Ok(()));
    assert_eq!(ctx.disclosure.encrypted_proof, vec![5u8; 3]);
}

#[test]
fn status_never_moves_back() {
    let mut ack = AcknowledgeDisclosure {
        disclosure: resolved(),
        protocol: protocol(),
        protocol_key: protocol_key(),
        authority: team(),
    };
    assert_eq!(acknowledge_disclosure(&mut ack, 3000), Err(ProofOfHackError::InvalidStatus));
    assert_eq!(ack.disclosure.status, DisclosureStatus::Resolved);

    let mut reveal = RevealProof { disclosure: resolved(), hacker: hacker() };
    assert_eq!(reveal_proof(&mut reveal, PLAINTEXT.to_vec(), 3000), Ok(()));
    let mut ack = AcknowledgeDisclosure {
        disclosure: reveal.disclosure.clone(),
        protocol: protocol(),
        protocol_key: protocol_key(),
        authority: team(),
    };
    assert_eq!(acknowledge_disclosure(&mut ack, 3001), Err(ProofOfHackError::InvalidStatus));
    let mut res = ResolveDisclosure {
        disclosure: reveal.disclosure.clone(),
        protocol: protocol(),
        protocol_key: protocol_key(),
        authority: team(),
    };
    assert_eq!(resolve_disclosure(&mut res, [8u8; 32], 2, 3001), Err(ProofOfHackError::InvalidStatus));
    assert_eq!(res.disclosure.status, DisclosureStatus::Revealed);
}

#[test]
fn a_negative_minimum_sets_no_floor() {
    let accounts = vec![config_record(-5)];
    assert!(submit(&submission(), &accounts, vec![1u8; 48], 3, 60, 1000).is_ok());
    let config = derive_config_address(&protocol_key(), &program_id());
    assert_eq!(find_policy_floor(&accounts, &config, &program_id()), Ok(-5));
}

#[test]
fn proof_hash_stays_through_the_lifecycle() {
    let hash = commit(PLAINTEXT);
    for d in [submitted(true), acknowledged(), resolved()] {
        assert_eq!(d.proof_hash, hash);
        assert_eq!(d.grace_period, 60);
        assert_eq!(d.submitted_at, 1000);
    }
}
