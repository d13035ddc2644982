use crate::identity::Identity;
use crate::state::ProtocolConfig;
use vstd::prelude::*;

verus! {

/// The tag that opens the stored form of a protocol's settings: the first
/// eight bytes of the SHA-256 digest of the text `account:ProtocolConfig`.
pub open spec fn config_discriminator() -> Seq<u8> {
    seq![207u8, 91, 250, 28, 152, 179, 215, 209]
}

/// The number that eight bytes spell, least significant byte first.
pub open spec fn le_u64(s: Seq<u8>) -> int
    recommends
        s.len() == 8,
{
    s[0] + s[1] * 0x100 + s[2] * 0x1_0000 + s[3] * 0x100_0000 + s[4] * 0x1_0000_0000 + s[5]
        * 0x100_0000_0000 + s[6] * 0x1_0000_0000_0000 + s[7] * 0x100_0000_0000_0000
}

/// Reads eight bytes at `at` as a number, least significant byte first.
pub fn read_le_u64(data: &[u8], at: usize) -> (x: u64)
    requires
        at + 8 <= data@.len(),
    ensures
        x == le_u64(data@.subrange(at as int, at + 8)),
{
    let b0: u64 = data[at] as u64;
    let b1: u64 = data[at + 1] as u64;
    let b2: u64 = data[at + 2] as u64;
    let b3: u64 = data[at + 3] as u64;
    let b4: u64 = data[at + 4] as u64;
    let b5: u64 = data[at + 5] as u64;
    let b6: u64 = data[at + 6] as u64;
    let b7: u64 = data[at + 7] as u64;
    b0 + b1 * 0x100 + b2 * 0x1_0000 + b3 * 0x100_0000 + b4 * 0x1_0000_0000 + b5
        * 0x100_0000_0000 + b6 * 0x1_0000_0000_0000 + b7 * 0x100_0000_0000_0000
}

/// The number that eight bytes spell in two's complement, least significant
/// byte first.
pub open spec fn le_i64(s: Seq<u8>) -> int
    recommends
        s.len() == 8,
{
    if le_u64(s) < 0x8000_0000_0000_0000 {
        le_u64(s)
    } else {
        le_u64(s) - 0x1_0000_0000_0000_0000
    }
}

/// Reads eight bytes at `at` as a signed number, least significant byte first.
pub fn read_le_i64(data: &[u8], at: usize) -> (x: i64)
    requires
        at + 8 <= data@.len(),
    ensures
        x == le_i64(data@.subrange(at as int, at + 8)),
{
    let raw: u64 = read_le_u64(data, at);
    if raw < 0x8000_0000_0000_0000 {
        raw as i64
    } else {
        let low: i64 = (raw - 0x8000_0000_0000_0000) as i64;
        low + i64::MIN
    }
}

impl ProtocolConfig {
    /// Whether `data` opens with the settings tag and is long enough to hold
    /// every field.
    pub open spec fn spec_well_formed(data: Seq<u8>) -> bool {
        data.len() >= 49 && data.subrange(0, 8) == config_discriminator()
    }

    /// The minimum grace period that the stored form `data` holds: a 64-bit
    /// two's complement number, least significant byte first.
    pub open spec fn spec_min_grace_period(data: Seq<u8>) -> i64 {
        le_i64(data.subrange(40, 48)) as i64
    }

    /// Reads a protocol's settings from their stored form: the tag, then the
    /// protocol address, the minimum grace period and the bump. Bytes after
    /// these are ignored. `None` where the tag is wrong or bytes are missing.
    pub fn try_deserialize(data: &[u8]) -> (r: Option<ProtocolConfig>)
        ensures
            r is Some <==> ProtocolConfig::spec_well_formed(data@),
            r matches Some(c) ==> c.protocol@ == data@.subrange(8, 40) && c.min_grace_period
                == ProtocolConfig::spec_min_grace_period(data@) && c.bump == data@[48],
    {
        if data.len() < 49 {
            return None;
        }
        if data[0] != 207 || data[1] != 91 || data[2] != 250 || data[3] != 28 || data[4] != 152
            || data[5] != 179 || data[6] != 215 || data[7] != 209 {
            assert(data@.subrange(0, 8)[0] == data@[0]);
            assert(data@.subrange(0, 8)[1] == data@[1]);
            assert(data@.subrange(0, 8)[2] == data@[2]);
            assert(data@.subrange(0, 8)[3] == data@[3]);
            assert(data@.subrange(0, 8)[4] == data@[4]);
            assert(data@.subrange(0, 8)[5] == data@[5]);
            assert(data@.subrange(0, 8)[6] == data@[6]);
            assert(data@.subrange(0, 8)[7] == data@[7]);
            return None;
        }
        assert(data@.subrange(0, 8) =~= config_discriminator());
        let protocol = read_identity(data, 8);
        let min_grace_period: i64 = read_le_i64(data, 40);
        Some(ProtocolConfig { protocol, min_grace_period, bump: data[48] })
    }
}

/// Reads thirty-two bytes at `at` as an identity.
pub fn read_identity(data: &[u8], at: usize) -> (id: Identity)
    requires
        at + 32 <= data@.len(),
    ensures
        id@ == data@.subrange(at as int, at + 32),
{
    let n: usize = data.len();
    let mut bytes: [u8; 32] = [0u8; 32];
    let mut i: usize = 0;
    while i < 32
        invariant
            i <= 32,
            at + 32 <= n,
            n == data@.len(),
            forall|j: int| 0 <= j < i ==> bytes@[j] == data@[at + j],
        decreases 32 - i,
    {
        bytes[i] = data[at + i];
        i += 1;
    }
    assert(bytes@ =~= data@.subrange(at as int, at + 32));
    Identity { bytes }
}

/// The eight bytes that spell a number below 2^64, least significant byte
/// first: each is the remainder by 256 of what the bytes before it left.
pub open spec fn le_bytes(u: int) -> Seq<u8> {
    let u1 = u / 0x100;
    let u2 = u1 / 0x100;
    let u3 = u2 / 0x100;
    let u4 = u3 / 0x100;
    let u5 = u4 / 0x100;
    let u6 = u5 / 0x100;
    let u7 = u6 / 0x100;
    seq![
        (u % 0x100) as u8,
        (u1 % 0x100) as u8,
        (u2 % 0x100) as u8,
        (u3 % 0x100) as u8,
        (u4 % 0x100) as u8,
        (u5 % 0x100) as u8,
        (u6 % 0x100) as u8,
        (u7 % 0x100) as u8,
    ]
}

/// The number below 2^64 that stands for a signed number in two's complement.
pub open spec fn twos_complement(x: int) -> int {
    if x >= 0 {
        x
    } else {
        x + 0x1_0000_0000_0000_0000
    }
}

/// Reading back the bytes of a number gives the number.
pub proof fn lemma_le_round_trip(u: int)
    requires
        0 <= u < 0x1_0000_0000_0000_0000,
    ensures
        le_bytes(u).len() == 8,
        le_u64(le_bytes(u)) == u,
{
    let u1 = u / 0x100;
    let u2 = u1 / 0x100;
    let u3 = u2 / 0x100;
    let u4 = u3 / 0x100;
    let u5 = u4 / 0x100;
    let u6 = u5 / 0x100;
    let u7 = u6 / 0x100;
    assert(u == u1 * 0x100 + u % 0x100);
    assert(u1 == u2 * 0x100 + u1 % 0x100);
    assert(u2 == u3 * 0x100 + u2 % 0x100);
    assert(u3 == u4 * 0x100 + u3 % 0x100);
    assert(u4 == u5 * 0x100 + u4 % 0x100);
    assert(u5 == u6 * 0x100 + u5 % 0x100);
    assert(u6 == u7 * 0x100 + u6 % 0x100);
    assert(0 <= u7 < 0x100);
    let s = le_bytes(u);
    assert(s[0] == u % 0x100);
    assert(s[1] == u1 % 0x100);
    assert(s[2] == u2 % 0x100);
    assert(s[3] == u3 % 0x100);
    assert(s[4] == u4 % 0x100);
    assert(s[5] == u5 % 0x100);
    assert(s[6] == u6 % 0x100);
    assert(s[7] == u7);
}

/// Reading back the bytes of a signed number gives the number.
pub proof fn lemma_le_i64_round_trip(x: i64)
    ensures
        le_i64(le_bytes(twos_complement(x as int))) == x,
{
    lemma_le_round_trip(twos_complement(x as int));
}

/// Appends the eight bytes of `x`, least significant byte first.
pub fn write_le_u64(out: &mut Vec<u8>, x: u64)
    ensures
        final(out)@ == old(out)@ + le_bytes(x as int),
{
    let x1: u64 = x / 0x100;
    let x2: u64 = x1 / 0x100;
    let x3: u64 = x2 / 0x100;
    let x4: u64 = x3 / 0x100;
    let x5: u64 = x4 / 0x100;
    let x6: u64 = x5 / 0x100;
    let x7: u64 = x6 / 0x100;
    out.push((x % 0x100) as u8);
    out.push((x1 % 0x100) as u8);
    out.push((x2 % 0x100) as u8);
    out.push((x3 % 0x100) as u8);
    out.push((x4 % 0x100) as u8);
    out.push((x5 % 0x100) as u8);
    out.push((x6 % 0x100) as u8);
    out.push((x7 % 0x100) as u8);
    assert(out@ =~= old(out)@ + le_bytes(x as int));
}

/// Appends the eight bytes of `x` in two's complement, least significant
/// byte first.
pub fn write_le_i64(out: &mut Vec<u8>, x: i64)
    ensures
        final(out)@ == old(out)@ + le_bytes(twos_complement(x as int)),
{
    let raw: u64 = if x >= 0 {
        x as u64
    } else {
        let low: u64 = (x - i64::MIN) as u64;
        low + 0x8000_0000_0000_0000
    };
    write_le_u64(out, raw);
}

/// Appends the bytes of an identity.
pub fn write_identity(out: &mut Vec<u8>, id: &Identity)
    ensures
        final(out)@ == old(out)@ + id@,
{
    let mut i: usize = 0;
    while i < 32
        invariant
            i <= 32,
            out@ == old(out)@ + id@.subrange(0, i as int),
        decreases 32 - i,
    {
        out.push(id.bytes[i]);
        assert(out@ =~= old(out)@ + id@.subrange(0, i + 1));
        i += 1;
    }
    assert(id@.subrange(0, 32) =~= id@);
}

impl ProtocolConfig {
    /// The stored form of these settings: the tag, the protocol address, the
    /// minimum grace period and the bump.
    pub open spec fn spec_serialize(&self) -> Seq<u8> {
        config_discriminator() + self.protocol@ + le_bytes(
            twos_complement(self.min_grace_period as int),
        ) + seq![self.bump]
    }

    /// Writes these settings in their stored form.
    pub fn serialize(&self) -> (data: Vec<u8>)
        ensures
            data@ == self.spec_serialize(),
            data@.len() == ProtocolConfig::MAX_SIZE,
    {
        let mut data: Vec<u8> = vec![207u8, 91, 250, 28, 152, 179, 215, 209];
        assert(data@ =~= config_discriminator());
        write_identity(&mut data, &self.protocol);
        write_le_i64(&mut data, self.min_grace_period);
        data.push(self.bump);
        assert(data@ =~= self.spec_serialize());
        data
    }

    /// What is written can be read back: the stored form of any settings is
    /// well formed and holds their protocol, their minimum and their bump.
    pub proof fn lemma_round_trip(self)
        ensures
            ProtocolConfig::spec_well_formed(self.spec_serialize()),
            self.spec_serialize().subrange(8, 40) == self.protocol@,
            ProtocolConfig::spec_min_grace_period(self.spec_serialize()) == self.min_grace_period,
            self.spec_serialize()[48] == self.bump,
    {
        let data = self.spec_serialize();
        assert(data.subrange(0, 8) =~= config_discriminator());
        assert(data.subrange(8, 40) =~= self.protocol@);
        assert(data.subrange(40, 48) =~= le_bytes(twos_complement(self.min_grace_period as int)));
        lemma_le_i64_round_trip(self.min_grace_period);
    }
}

} // verus!
