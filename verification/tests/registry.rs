use proof_of_hack::address::derive_program_data_address;
use proof_of_hack::errors::ProofOfHackError;
use proof_of_hack::identity::Identity;
use proof_of_hack::instructions::accept_authority::AcceptAuthority;
use proof_of_hack::instructions::create_protocol_config::CreateProtocolConfig;
use proof_of_hack::instructions::register_protocol::{
    check_name, upgrade_authority, RegisterProtocol,
};
use proof_of_hack::instructions::transfer_authority::TransferAuthority;
use proof_of_hack::instructions::update_encryption_key::UpdateEncryptionKey;
use proof_of_hack::instructions::update_protocol_config::UpdateProtocolConfig;
use proof_of_hack::state::{AccountRecord, Protocol, ProtocolConfig};
use proof_of_hack::{
    accept_authority, create_protocol_config, register_protocol, transfer_authority,
    update_encryption_key, update_protocol_config,
};

const LOADER: [u8; 32] = [
    2, 168, 246, 145, 78, 136, 161, 176, 226, 16, 21, 62, 247, 99, 174, 43, 0, 194, 185, 61, 22,
    193, 36, 210, 192, 83, 122, 16, 4, 128, 0, 0,
];

fn id(b: u8) -> Identity {
    Identity::new([b; 32])
}

fn program_data_bytes(option_tag: u8, authority: &Identity) -> Vec<u8> {
    let mut data = vec![3u8, 0, 0, 0];
    data.extend_from_slice(&77u64.to_le_bytes());
    data.push(option_tag);
    data.extend_from_slice(&authority.bytes);
    data
}

fn registration(program: &Identity, authority: &Identity) -> RegisterProtocol {
    RegisterProtocol {
        authority: *authority,
        program_data: AccountRecord {
            key: derive_program_data_address(program).unwrap(),
            owner: Identity::new(LOADER),
            data: program_data_bytes(1, authority),
        },
        bump: 251,
    }
}

fn protocol(authority: &Identity) -> Protocol {
    Protocol {
        authority: *authority,
        program_address: id(9),
        name: String::from("Lending Pool"),
        encryption_key: [4u8; 32],
        registered_at: 100,
        pending_authority: Identity::null(),
        bump: 251,
    }
}

#[test]
fn register_creates_the_protocol() {
    let program = id(9);
    let team = id(1);
    let ctx = registration(&program, &team);
    let p = register_protocol(&ctx, program, String::from("Lending Pool"), [4u8; 32], 1234).unwrap();
    assert_eq!(p.authority, team);
    assert_eq!(p.program_address, program);
    assert_eq!(p.name, "Lending Pool");
    assert_eq!(p.encryption_key, [4u8; 32]);
    assert_eq!(p.registered_at, 1234);
    assert!(p.pending_authority.is_null());
    assert_eq!(p.bump, 251);
}

#[test]
fn register_rejects_an_empty_name() {
    let ctx = registration(&id(9), &id(1));
    let r = register_protocol(&ctx, id(9), String::new(), [4u8; 32], 0);
    assert_eq!(r.unwrap_err(), ProofOfHackError::InvalidProtocolName);
}

#[test]
fn register_takes_names_of_one_and_of_sixty_four_bytes() {
    let ctx = registration(&id(9), &id(1));
    assert!(register_protocol(&ctx, id(9), String::from("a"), [4u8; 32], 0).is_ok());
    assert!(register_protocol(&ctx, id(9), "a".repeat(64), [4u8; 32], 0).is_ok());
}

#[test]
fn register_rejects_a_name_of_sixty_five_bytes() {
    let ctx = registration(&id(9), &id(1));
    let r = register_protocol(&ctx, id(9), "a".repeat(65), [4u8; 32], 0);
    assert_eq!(r.unwrap_err(), ProofOfHackError::InvalidProtocolName);
}

#[test]
fn register_rejects_names_outside_printable_ascii() {
    let ctx = registration(&id(9), &id(1));
    for name in ["Lending\u{430}Pool", "tab\there", "del\u{7f}", "caf\u{e9}"] {
        let r = register_protocol(&ctx, id(9), String::from(name), [4u8; 32], 0);
        assert_eq!(r.unwrap_err(), ProofOfHackError::InvalidProtocolName);
    }
}

#[test]
fn check_name_bounds() {
    assert!(check_name(" ~"));
    assert!(check_name("Proto-col_1.0 (main)"));
    assert!(!check_name(""));
    assert!(!check_name("\u{1f}"));
    assert!(!check_name("\u{7f}"));
    assert!(!check_name(&"x".repeat(65)));
}

#[test]
fn register_rejects_a_program_data_record_at_another_address() {
    let mut ctx = registration(&id(9), &id(1));
    ctx.program_data.key = derive_program_data_address(&id(8)).unwrap();
    let r = register_protocol(&ctx, id(9), String::from("Pool"), [4u8; 32], 0);
    assert_eq!(r.unwrap_err(), ProofOfHackError::InvalidProgramData);
}

#[test]
fn register_rejects_a_record_the_loader_does_not_own() {
    let mut almost = LOADER;
    almost[31] = 1;
    let mut ctx = registration(&id(9), &id(1));
    ctx.program_data.owner = Identity::new(almost);
    let r = register_protocol(&ctx, id(9), String::from("Pool"), [4u8; 32], 0);
    assert_eq!(r.unwrap_err(), ProofOfHackError::InvalidProgramData);
    ctx.program_data.owner = id(5);
    let r = register_protocol(&ctx, id(9), String::from("Pool"), [4u8; 32], 0);
    assert_eq!(r.unwrap_err(), ProofOfHackError::InvalidProgramData);
}

#[test]
fn register_rejects_short_or_mistyped_program_data() {
    let mut ctx = registration(&id(9), &id(1));
    ctx.program_data.data.truncate(44);
    let r = register_protocol(&ctx, id(9), String::from("Pool"), [4u8; 32], 0);
    assert_eq!(r.unwrap_err(), ProofOfHackError::InvalidProgramData);

    let mut ctx = registration(&id(9), &id(1));
    ctx.program_data.data[0] = 2;
    let r = register_protocol(&ctx, id(9), String::from("Pool"), [4u8; 32], 0);
    assert_eq!(r.unwrap_err(), ProofOfHackError::InvalidProgramData);

    let mut ctx = registration(&id(9), &id(1));
    ctx.program_data.data[3] = 1;
    let r = register_protocol(&ctx, id(9), String::from("Pool"), [4u8; 32], 0);
    assert_eq!(r.unwrap_err(), ProofOfHackError::InvalidProgramData);
}

#[test]
fn register_rejects_a_program_without_upgrade_authority() {
    let mut ctx = registration(&id(9), &id(1));
    ctx.program_data.data = program_data_bytes(0, &id(1));
    let r = register_protocol(&ctx, id(9), String::from("Pool"), [4u8; 32], 0);
    assert_eq!(r.unwrap_err(), ProofOfHackError::NotUpgradeAuthority);
}

#[test]
fn register_rejects_a_caller_who_is_not_the_upgrade_authority() {
    let mut ctx = registration(&id(9), &id(1));
    ctx.authority = id(2);
    let r = register_protocol(&ctx, id(9), String::from("Pool"), [4u8; 32], 0);
    assert_eq!(r.unwrap_err(), ProofOfHackError::NotUpgradeAuthority);
}

#[test]
fn upgrade_authority_is_read_from_program_data() {
    assert_eq!(upgrade_authority(&program_data_bytes(1, &id(6))), Some(id(6)));
    assert_eq!(upgrade_authority(&program_data_bytes(0, &id(6))), None);
    assert_eq!(upgrade_authority(&program_data_bytes(2, &id(6))), None);
}

#[test]
fn authority_transfer_needs_the_proposed_identity_to_accept() {
    let team = id(1);
    let x = id(2);
    let y = id(3);
    let mut propose =
        TransferAuthority { protocol: protocol(&team), authority: team, new_authority: x };
    assert_eq!(transfer_authority(&mut propose), Ok(()));
    assert_eq!(propose.protocol.pending_authority, x);
    assert_eq!(propose.protocol.authority, team);

    let mut as_y = AcceptAuthority { protocol: propose.protocol.clone(), new_authority: y };
    assert_eq!(accept_authority(&mut as_y), Err(ProofOfHackError::UnauthorizedProtocolAction));
    assert_eq!(as_y.protocol.authority, team);
    assert_eq!(as_y.protocol.pending_authority, x);

    let mut as_x = AcceptAuthority { protocol: propose.protocol.clone(), new_authority: x };
    assert_eq!(accept_authority(&mut as_x), Ok(()));
    assert_eq!(as_x.protocol.authority, x);
    assert!(as_x.protocol.pending_authority.is_null());
    assert_eq!(as_x.protocol.name, "Lending Pool");
}

#[test]
fn accept_without_a_pending_transfer_fails() {
    let mut ctx = AcceptAuthority { protocol: protocol(&id(1)), new_authority: Identity::null() };
    assert_eq!(accept_authority(&mut ctx), Err(ProofOfHackError::NoPendingTransfer));
    let mut ctx = AcceptAuthority { protocol: protocol(&id(1)), new_authority: id(2) };
    assert_eq!(accept_authority(&mut ctx), Err(ProofOfHackError::UnauthorizedProtocolAction));
}

#[test]
fn only_the_authority_proposes_a_transfer() {
    let mut ctx =
        TransferAuthority { protocol: protocol(&id(1)), authority: id(2), new_authority: id(2) };
    assert_eq!(transfer_authority(&mut ctx), Err(ProofOfHackError::UnauthorizedProtocolAction));
    assert!(ctx.protocol.pending_authority.is_null());
}

#[test]
fn the_null_identity_cannot_be_proposed() {
    let mut ctx = TransferAuthority {
        protocol: protocol(&id(1)),
        authority: id(1),
        new_authority: Identity::null(),
    };
    assert_eq!(transfer_authority(&mut ctx), Err(ProofOfHackError::InvalidNewAuthority));
}

#[test]
fn a_second_proposal_replaces_the_first() {
    let mut ctx =
        TransferAuthority { protocol: protocol(&id(1)), authority: id(1), new_authority: id(2) };
    assert_eq!(transfer_authority(&mut ctx), Ok(()));
    ctx.new_authority = id(3);
    assert_eq!(transfer_authority(&mut ctx), Ok(()));
    let mut late = AcceptAuthority { protocol: ctx.protocol.clone(), new_authority: id(2) };
    assert_eq!(accept_authority(&mut late), Err(ProofOfHackError::UnauthorizedProtocolAction));
}

#[test]
fn the_authority_rotates_the_encryption_key() {
    let mut ctx = UpdateEncryptionKey { protocol: protocol(&id(1)), authority: id(1) };
    assert_eq!(update_encryption_key(&mut ctx, [8u8; 32]), Ok(()));
    assert_eq!(ctx.protocol.encryption_key, [8u8; 32]);
    assert_eq!(ctx.protocol.authority, id(1));
}

#[test]
fn nobody_else_rotates_the_encryption_key() {
    let mut ctx = UpdateEncryptionKey { protocol: protocol(&id(1)), authority: id(2) };
    assert_eq!(
        update_encryption_key(&mut ctx, [8u8; 32]),
        Err(ProofOfHackError::UnauthorizedProtocolAction)
    );
    assert_eq!(ctx.protocol.encryption_key, [4u8; 32]);
}

#[test]
fn config_creation_bounds() {
    let ctx = CreateProtocolConfig {
        protocol: protocol(&id(1)),
        protocol_key: id(20),
        authority: id(1),
        bump: 250,
    };
    let c = create_protocol_config(&ctx, 3600).unwrap();
    assert_eq!(c.protocol, id(20));
    assert_eq!(c.min_grace_period, 3600);
    assert_eq!(c.bump, 250);
    assert_eq!(create_protocol_config(&ctx, 0).unwrap().min_grace_period, 0);
    assert_eq!(create_protocol_config(&ctx, 31_536_000).unwrap().min_grace_period, 31_536_000);
    assert_eq!(
        create_protocol_config(&ctx, 31_536_001).unwrap_err(),
        ProofOfHackError::InvalidMinGracePeriod
    );
    assert_eq!(
        create_protocol_config(&ctx, -1).unwrap_err(),
        ProofOfHackError::InvalidMinGracePeriod
    );
}

#[test]
fn only_the_authority_creates_the_config() {
    let ctx = CreateProtocolConfig {
        protocol: protocol(&id(1)),
        protocol_key: id(20),
        authority: id(2),
        bump: 250,
    };
    assert_eq!(
        create_protocol_config(&ctx, 3600).unwrap_err(),
        ProofOfHackError::UnauthorizedProtocolAction
    );
}

#[test]
fn config_update_changes_only_the_minimum() {
    let config = ProtocolConfig { protocol: id(20), min_grace_period: 3600, bump: 250 };
    let mut ctx = UpdateProtocolConfig {
        config,
        protocol: protocol(&id(1)),
        protocol_key: id(20),
        authority: id(1),
    };
    assert_eq!(update_protocol_config(&mut ctx, 7200), Ok(()));
    assert_eq!(ctx.config.min_grace_period, 7200);
    assert_eq!(ctx.config.protocol, id(20));
    assert_eq!(ctx.config.bump, 250);
    assert_eq!(
        update_protocol_config(&mut ctx, 31_536_001),
        Err(ProofOfHackError::InvalidMinGracePeriod)
    );
    assert_eq!(update_protocol_config(&mut ctx, -1), Err(ProofOfHackError::InvalidMinGracePeriod));
    assert_eq!(ctx.config.min_grace_period, 7200);
}

#[test]
fn config_update_checks_the_caller_and_the_link() {
    let config = ProtocolConfig { protocol: id(20), min_grace_period: 3600, bump: 250 };
    let mut ctx = UpdateProtocolConfig {
        config,
        protocol: protocol(&id(1)),
        protocol_key: id(20),
        authority: id(2),
    };
    assert_eq!(
        update_protocol_config(&mut ctx, 7200),
        Err(ProofOfHackError::UnauthorizedProtocolAction)
    );
    ctx.authority = id(1);
    ctx.protocol_key = id(21);
    assert_eq!(update_protocol_config(&mut ctx, 7200), Err(ProofOfHackError::InvalidProtocolConfig));
    assert_eq!(ctx.config.min_grace_period, 3600);
}
