use crate::identity::Identity;
use vstd::prelude::*;

verus! {

/// Longest payload, ciphertext or plaintext, that a disclosure can hold.
pub const MAX_PROOF_LEN: usize = 1024;

/// How bad the reported vulnerability is.
#[derive(Clone, Copy, Debug, PartialEq, Eq, Structural)]
pub enum Severity {
    Low,
    Medium,
    High,
    Critical,
}

/// Where a disclosure stands in its lifecycle.
#[derive(Clone, Copy, Debug, PartialEq, Eq, Structural)]
pub enum DisclosureStatus {
    Submitted,
    Acknowledged,
    Resolved,
    Revealed,
}

/// How the protocol says it resolved a disclosure.
#[derive(Clone, Copy, Debug, PartialEq, Eq, Structural)]
pub enum ResolutionType {
    Unresolved,
    OffchainAttestation,
    OnchainBounty,
    NoPayment,
}

impl Severity {
    pub open spec fn spec_from_u8(code: u8) -> Option<Severity> {
        if code == 1 {
            Some(Severity::Low)
        } else if code == 2 {
            Some(Severity::Medium)
        } else if code == 3 {
            Some(Severity::High)
        } else if code == 4 {
            Some(Severity::Critical)
        } else {
            None
        }
    }

    /// Decodes a wire code: 1 is low, 2 medium, 3 high, 4 critical.
    pub fn from_u8(code: u8) -> (r: Option<Severity>)
        ensures
            r == Severity::spec_from_u8(code),
    {
        if code == 1 {
            Some(Severity::Low)
        } else if code == 2 {
            Some(Severity::Medium)
        } else if code == 3 {
            Some(Severity::High)
        } else if code == 4 {
            Some(Severity::Critical)
        } else {
            None
        }
    }

    pub open spec fn spec_to_u8(self) -> u8 {
        match self {
            Severity::Low => 1,
            Severity::Medium => 2,
            Severity::High => 3,
            Severity::Critical => 4,
        }
    }

    /// The wire code of this severity.
    pub fn to_u8(self) -> (code: u8)
        ensures
            code == self.spec_to_u8(),
            Severity::spec_from_u8(code) == Some(self),
    {
        match self {
            Severity::Low => 1,
            Severity::Medium => 2,
            Severity::High => 3,
            Severity::Critical => 4,
        }
    }
}

impl DisclosureStatus {
    /// Position in the lifecycle: a later state has a higher rank.
    pub open spec fn rank(self) -> nat {
        match self {
            DisclosureStatus::Submitted => 0,
            DisclosureStatus::Acknowledged => 1,
            DisclosureStatus::Resolved => 2,
            DisclosureStatus::Revealed => 3,
        }
    }

    /// The wire code of this status, which is its rank.
    pub fn to_u8(self) -> (code: u8)
        ensures
            code == self.rank(),
    {
        match self {
            DisclosureStatus::Submitted => 0,
            DisclosureStatus::Acknowledged => 1,
            DisclosureStatus::Resolved => 2,
            DisclosureStatus::Revealed => 3,
        }
    }
}

impl ResolutionType {
    pub open spec fn spec_from_u8(code: u8) -> Option<ResolutionType> {
        if code == 0 {
            Some(ResolutionType::Unresolved)
        } else if code == 1 {
            Some(ResolutionType::OffchainAttestation)
        } else if code == 2 {
            Some(ResolutionType::OnchainBounty)
        } else if code == 3 {
            Some(ResolutionType::NoPayment)
        } else {
            None
        }
    }

    /// Decodes a wire code: 0 is unresolved, 1 an off-chain attestation,
    /// 2 an on-chain bounty, 3 no payment.
    pub fn from_u8(code: u8) -> (r: Option<ResolutionType>)
        ensures
            r == ResolutionType::spec_from_u8(code),
    {
        if code == 0 {
            Some(ResolutionType::Unresolved)
        } else if code == 1 {
            Some(ResolutionType::OffchainAttestation)
        } else if code == 2 {
            Some(ResolutionType::OnchainBounty)
        } else if code == 3 {
            Some(ResolutionType::NoPayment)
        } else {
            None
        }
    }
}

/// A stored record as the environment presents it: where it lives, which
/// program owns it, and its bytes.
#[derive(Clone, Debug)]
pub struct AccountRecord {
    pub key: Identity,
    pub owner: Identity,
    pub data: Vec<u8>,
}

/// A registered team and the program it protects.
#[derive(Clone, Debug)]
pub struct Protocol {
    /// Who controls this entry.
    pub authority: Identity,
    /// The protected program.
    pub program_address: Identity,
    /// Display name, 1 to 64 printable ASCII characters.
    pub name: String,
    /// Public key to which reports for this protocol are encrypted.
    pub encryption_key: [u8; 32],
    pub registered_at: i64,
    /// Target of an ownership transfer in flight; the null identity if none.
    pub pending_authority: Identity,
    pub bump: u8,
}

/// A name is valid when it has 1 to 64 bytes, each a printable ASCII character.
pub open spec fn name_is_valid(bytes: Seq<u8>) -> bool {
    &&& 1 <= bytes.len() <= 64
    &&& forall|i: int| 0 <= i < bytes.len() ==> 0x20 <= #[trigger] bytes[i] <= 0x7E
}

/// The bytes of a name: its UTF-8 encoding.
pub open spec fn name_bytes(name: Seq<char>) -> Seq<u8> {
    vstd::utf8::encode_utf8(name)
}

/// The bytes of an identity that may be the null identity, for none.
pub open spec fn optional(id: Identity) -> Option<Seq<u8>> {
    if id.is_null_spec() {
        None
    } else {
        Some(id@)
    }
}

/// What a protocol record says, as plain values.
pub struct ProtocolModel {
    pub authority: Seq<u8>,
    pub program_address: Seq<u8>,
    pub name: Seq<char>,
    pub encryption_key: Seq<u8>,
    pub registered_at: int,
    /// Target of an ownership transfer in flight, if any.
    pub pending_authority: Option<Seq<u8>>,
}

impl ProtocolModel {
    /// A registered protocol always has an authority and a valid name.
    pub open spec fn wf(self) -> bool {
        &&& self.authority != crate::identity::null_bytes()
        &&& name_is_valid(name_bytes(self.name))
    }
}

impl View for Protocol {
    type V = ProtocolModel;

    open spec fn view(&self) -> ProtocolModel {
        ProtocolModel {
            authority: self.authority@,
            program_address: self.program_address@,
            name: self.name@,
            encryption_key: self.encryption_key@,
            registered_at: self.registered_at as int,
            pending_authority: optional(self.pending_authority),
        }
    }
}

impl Protocol {
    /// A registered protocol always has an authority and a valid name.
    pub open spec fn wf(&self) -> bool {
        self@.wf()
    }
}

/// One vulnerability report.
#[derive(Clone, Debug)]
pub struct Disclosure {
    pub hacker: Identity,
    /// Address of the owning protocol record; the null identity while unclaimed.
    pub protocol: Identity,
    pub target_program: Identity,
    /// Commitment to the plaintext, fixed at submission.
    pub proof_hash: [u8; 32],
    /// Ciphertext until the reveal, plaintext after it.
    pub encrypted_proof: Vec<u8>,
    pub sender_encryption_key: [u8; 32],
    pub severity: Severity,
    pub status: DisclosureStatus,
    pub resolution_type: ResolutionType,
    pub payment_hash: [u8; 32],
    pub submitted_at: i64,
    /// Zero until acknowledged.
    pub acknowledged_at: i64,
    /// Zero until resolved.
    pub resolved_at: i64,
    /// Seconds after submission before the hacker may reveal.
    pub grace_period: i64,
    pub nonce: u64,
    pub bump: u8,
}

/// What a disclosure says, as plain values.
pub struct DisclosureModel {
    pub hacker: Seq<u8>,
    /// Address of the owning protocol record, once there is one.
    pub protocol: Option<Seq<u8>>,
    pub target_program: Seq<u8>,
    pub proof_hash: Seq<u8>,
    /// Ciphertext until the reveal, plaintext after it.
    pub payload: Seq<u8>,
    pub sender_encryption_key: Seq<u8>,
    pub severity: Severity,
    pub status: DisclosureStatus,
    pub resolution_type: ResolutionType,
    pub payment_hash: Seq<u8>,
    pub submitted_at: int,
    pub acknowledged_at: int,
    pub resolved_at: int,
    pub grace_period: int,
    pub nonce: nat,
}

impl DisclosureModel {
    /// The payload never outgrows its bound, and the grace period lies
    /// between a minute and a year.
    pub open spec fn wf(self) -> bool {
        &&& self.payload.len() <= MAX_PROOF_LEN
        &&& 60 <= self.grace_period <= 31_536_000
    }

    /// The time from which the hacker may reveal.
    pub open spec fn deadline(self) -> int {
        self.submitted_at + self.grace_period
    }

    /// How a disclosure may differ after an operation: its status has not
    /// moved back, its commitment, its origin and its deadline are the
    /// same, and it is still well formed if it was before.
    pub open spec fn steps_to(self, after: DisclosureModel) -> bool {
        &&& self.status.rank() <= after.status.rank()
        &&& after.proof_hash == self.proof_hash
        &&& after.hacker == self.hacker
        &&& after.target_program == self.target_program
        &&& after.nonce == self.nonce
        &&& after.severity == self.severity
        &&& after.submitted_at == self.submitted_at
        &&& after.grace_period == self.grace_period
        &&& self.wf() ==> after.wf()
    }
}

impl View for Disclosure {
    type V = DisclosureModel;

    open spec fn view(&self) -> DisclosureModel {
        DisclosureModel {
            hacker: self.hacker@,
            protocol: optional(self.protocol),
            target_program: self.target_program@,
            proof_hash: self.proof_hash@,
            payload: self.encrypted_proof@,
            sender_encryption_key: self.sender_encryption_key@,
            severity: self.severity,
            status: self.status,
            resolution_type: self.resolution_type,
            payment_hash: self.payment_hash@,
            submitted_at: self.submitted_at as int,
            acknowledged_at: self.acknowledged_at as int,
            resolved_at: self.resolved_at as int,
            grace_period: self.grace_period as int,
            nonce: self.nonce as nat,
        }
    }
}

impl Disclosure {
    /// The payload never outgrows its bound, and the grace period lies
    /// between a minute and a year.
    pub open spec fn wf(&self) -> bool {
        self@.wf()
    }
}

/// Escrow of a protocol's bounty funds, with one payout rate per severity.
#[derive(Clone, Copy, Debug)]
pub struct BountyVault {
    /// Address of the owning protocol record.
    pub protocol: Identity,
    pub low_bounty: u64,
    pub medium_bounty: u64,
    pub high_bounty: u64,
    pub critical_bounty: u64,
    pub total_deposited: u64,
    pub total_paid: u64,
    /// Whether the vault takes deposits and pays claims.
    pub active: bool,
    pub created_at: i64,
    pub bump: u8,
}

/// What a vault says, as plain values.
pub struct BountyVaultModel {
    pub protocol: Seq<u8>,
    /// The payout for each severity.
    pub rates: Map<Severity, nat>,
    pub total_deposited: nat,
    pub total_paid: nat,
    pub active: bool,
    pub created_at: int,
}

impl BountyVaultModel {
    /// The vault never paid out more than was put in.
    pub open spec fn wf(self) -> bool {
        self.total_paid <= self.total_deposited
    }

    /// Funds not yet paid out.
    pub open spec fn available(self) -> int {
        self.total_deposited - self.total_paid
    }
}

impl View for BountyVault {
    type V = BountyVaultModel;

    open spec fn view(&self) -> BountyVaultModel {
        BountyVaultModel {
            protocol: self.protocol@,
            rates: Map::new(|s: Severity| true, |s: Severity| self.spec_rate(s) as nat),
            total_deposited: self.total_deposited as nat,
            total_paid: self.total_paid as nat,
            active: self.active,
            created_at: self.created_at as int,
        }
    }
}

impl BountyVault {
    /// The vault never paid out more than was put in.
    pub open spec fn wf(&self) -> bool {
        self@.wf()
    }

    /// Funds not yet paid out.
    pub open spec fn spec_available(&self) -> int {
        self@.available()
    }

    pub open spec fn spec_rate(&self, severity: Severity) -> u64 {
        match severity {
            Severity::Low => self.low_bounty,
            Severity::Medium => self.medium_bounty,
            Severity::High => self.high_bounty,
            Severity::Critical => self.critical_bounty,
        }
    }

    /// The payout this vault makes for a disclosure of the given severity.
    pub fn rate(&self, severity: Severity) -> (r: u64)
        ensures
            r == self.spec_rate(severity),
    {
        match severity {
            Severity::Low => self.low_bounty,
            Severity::Medium => self.medium_bounty,
            Severity::High => self.high_bounty,
            Severity::Critical => self.critical_bounty,
        }
    }
}

/// Marks that the bounty of one disclosure was paid from one vault.
#[derive(Clone, Copy, Debug)]
pub struct BountyClaim {
    pub bump: u8,
}

/// Optional settings of a protocol, kept in a record of their own.
#[derive(Clone, Copy, Debug)]
pub struct ProtocolConfig {
    /// Address of the protocol record these settings belong to.
    pub protocol: Identity,
    /// Shortest grace period a report against the protocol may ask for, in
    /// seconds; zero defers to the global minimum.
    pub min_grace_period: i64,
    pub bump: u8,
}

/// What a protocol's settings say, as plain values.
pub struct ProtocolConfigModel {
    pub protocol: Seq<u8>,
    pub min_grace_period: int,
}

impl ProtocolConfigModel {
    /// The minimum is zero, for none, or at most a year.
    pub open spec fn wf(self) -> bool {
        0 <= self.min_grace_period <= 31_536_000
    }
}

impl View for ProtocolConfig {
    type V = ProtocolConfigModel;

    open spec fn view(&self) -> ProtocolConfigModel {
        ProtocolConfigModel {
            protocol: self.protocol@,
            min_grace_period: self.min_grace_period as int,
        }
    }
}

impl ProtocolConfig {
    /// Length of the stored form: tag, protocol address, minimum, bump.
    pub const MAX_SIZE: usize = 8 + 32 + 8 + 1;

    /// The minimum is zero, for none, or at most a year.
    pub open spec fn wf(&self) -> bool {
        self@.wf()
    }
}

impl Protocol {
    /// Room for the stored form: tag, two addresses, a name of up to 64
    /// bytes behind its length, the key, the time, the pending authority,
    /// the bump.
    pub const MAX_SIZE: usize = 8 + 32 + 32 + (4 + 64) + 32 + 8 + 32 + 1;
}

impl Disclosure {
    /// Room for the stored form, with a payload of up to 1024 bytes behind
    /// its length.
    pub const MAX_SIZE: usize = 8 + 32 + 32 + 32 + 32 + (4 + 1024) + 32 + 1 + 1 + 1 + 32 + 8 + 8
        + 8 + 8 + 8 + 1;
}

impl BountyVault {
    /// Room for the stored form.
    pub const MAX_SIZE: usize = 8 + 32 + 8 + 8 + 8 + 8 + 8 + 8 + 1 + 8 + 1;
}

impl BountyClaim {
    /// Room for the stored form: tag and bump.
    pub const MAX_SIZE: usize = 8 + 1;
}

} // verus!
