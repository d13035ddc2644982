pub mod accept_authority;
pub mod acknowledge_disclosure;
pub mod claim_bounty_reward;
pub mod claim_disclosure;
pub mod create_bounty;
pub mod create_protocol_config;
pub mod deactivate_bounty;
pub mod fund_bounty;
pub mod register_protocol;
pub mod resolve_disclosure;
pub mod reveal_proof;
pub mod submit_disclosure;
pub mod transfer_authority;
pub mod update_encryption_key;
pub mod update_protocol_config;
pub mod withdraw_bounty;
