//! Decisions of the macOS owner endpoint: the authentication broker's frame
//! format, the socket probe check, and the handshake start rate limit.

use vstd::prelude::*;
use crate::identity::{Bytes32, IdentityError, all_zero, slice_is_all_zero, slices_equal};
use crate::identity_digest::{be_u32, push_be_u32, push_bytes};
use crate::keychain::KeychainError;

verus! {

pub const MAX_HANDSHAKES: usize = 4;
pub const MAX_HANDSHAKE_STARTS_PER_SECOND: usize = 16;
/// The window of the handshake start rate limit, in milliseconds.
pub const HANDSHAKE_START_WINDOW_MS: u64 = 1000;
pub const BROKER_HEADER_BYTES: usize = 16;
pub const BROKER_REQUEST_PREFIX_BYTES: usize = 37;
pub const BROKER_MAX_CONFIG_BYTES: usize = 65536;
pub const BROKER_RESPONSE_PAYLOAD_BYTES: usize = 96;
pub const BROKER_RESPONSE_BYTES: usize = 112;
pub const BROKER_VERSION: u16 = 1;

#[derive(Clone, Copy, Debug, PartialEq, Eq, Structural)]
pub enum MacosEndpointError {
    RuntimeDirectory,
    Configuration,
    Handshake,
    Identity(IdentityError),
    Keychain(KeychainError),
}

/// What a broker is asked to authenticate for.
#[derive(Clone, Copy, Debug, PartialEq, Eq, Structural)]
pub enum BrokerPurpose {
    Observe,
    Capture,
    Maintenance,
}

pub open spec fn spec_purpose_tag(purpose: BrokerPurpose) -> u8 {
    match purpose {
        BrokerPurpose::Observe => 1,
        BrokerPurpose::Capture => 2,
        BrokerPurpose::Maintenance => 3,
    }
}

/// The one-byte tag of a purpose on the broker wire.
pub fn purpose_tag(purpose: BrokerPurpose) -> (tag: u8)
    ensures
        tag == spec_purpose_tag(purpose),
{
    match purpose {
        BrokerPurpose::Observe => 1,
        BrokerPurpose::Capture => 2,
        BrokerPurpose::Maintenance => 3,
    }
}

/// The purpose named by a tag; any other tag is a handshake error.
pub fn purpose_from_tag(tag: u8) -> (result: Result<BrokerPurpose, MacosEndpointError>)
    ensures
        result is Ok <==> 1 <= tag <= 3,
        result is Ok ==> spec_purpose_tag(result->Ok_0) == tag,
        result is Err ==> result == Err::<BrokerPurpose, MacosEndpointError>(
            MacosEndpointError::Handshake,
        ),
{
    match tag {
        1 => Ok(BrokerPurpose::Observe),
        2 => Ok(BrokerPurpose::Capture),
        3 => Ok(BrokerPurpose::Maintenance),
        _ => Err(MacosEndpointError::Handshake),
    }
}

/// Every purpose's tag decodes back to it.
pub proof fn law_purpose_tag_round_trip(purpose: BrokerPurpose)
    ensures
        1 <= spec_purpose_tag(purpose) <= 3,
{
}

/// The broker wire tags are fixed: Observe is 1, Capture is 2 and
/// Maintenance is 3, and distinct purposes never share a tag.
pub proof fn law_broker_purpose_wire_tags(a: BrokerPurpose, b: BrokerPurpose)
    ensures
        spec_purpose_tag(BrokerPurpose::Observe) == 1u8,
        spec_purpose_tag(BrokerPurpose::Capture) == 2u8,
        spec_purpose_tag(BrokerPurpose::Maintenance) == 3u8,
        spec_purpose_tag(a) == spec_purpose_tag(b) ==> a == b,
{
}

pub open spec fn request_magic() -> Seq<u8> {
    seq![0x54u8, 0x51, 0x4d, 0x42, 0x52, 0x45, 0x51, 0x31]
}

pub open spec fn response_magic() -> Seq<u8> {
    seq![0x54u8, 0x51, 0x4d, 0x42, 0x52, 0x53, 0x50, 0x31]
}

/// `TQMBREQ1`
pub fn broker_request_magic() -> (magic: [u8; 8])
    ensures
        magic@ == request_magic(),
{
    let magic: [u8; 8] = [0x54, 0x51, 0x4d, 0x42, 0x52, 0x45, 0x51, 0x31];
    assert(magic@ =~= request_magic());
    magic
}

/// `TQMBRSP1`
pub fn broker_response_magic() -> (magic: [u8; 8])
    ensures
        magic@ == response_magic(),
{
    let magic: [u8; 8] = [0x54, 0x51, 0x4d, 0x42, 0x52, 0x53, 0x50, 0x31];
    assert(magic@ =~= response_magic());
    magic
}

/// A broker frame header: magic, version 1 (big-endian), purpose tag, a zero
/// byte, and the payload length (big-endian).
pub open spec fn broker_header(magic: Seq<u8>, purpose: BrokerPurpose, payload_bytes: u32) -> Seq<u8> {
    magic + seq![0u8, 1u8, spec_purpose_tag(purpose), 0u8] + be_u32(payload_bytes)
}

/// The big-endian value of four bytes.
pub open spec fn be_value(b: Seq<u8>) -> int {
    b[0] * 0x100_0000 + b[1] * 0x1_0000 + b[2] * 0x100 + b[3]
}

/// Whether `header` is a valid broker header for `magic`, `purpose` and
/// `payload_bytes`.
pub open spec fn broker_header_valid(header: Seq<u8>, magic: Seq<u8>, purpose: BrokerPurpose, payload_bytes: int) -> bool {
    &&& header.len() == BROKER_HEADER_BYTES
    &&& header.subrange(0, 8) == magic
    &&& header[8] == 0
    &&& header[9] == 1
    &&& header[10] == spec_purpose_tag(purpose)
    &&& header[11] == 0
    &&& be_value(header.subrange(12, 16)) == payload_bytes
}

/// Encodes a broker frame header.
pub fn encode_broker_header(magic: &[u8; 8], purpose: BrokerPurpose, payload_bytes: u32) -> (header: Vec<u8>)
    ensures
        header@ == broker_header(magic@, purpose, payload_bytes),
        header@.len() == BROKER_HEADER_BYTES,
{
    let mut header: Vec<u8> = Vec::new();
    let mut i: usize = 0;
    while i < 8
        invariant
            0 <= i <= 8,
            magic@.len() == 8,
            header@ == magic@.subrange(0, i as int),
        decreases 8 - i,
    {
        header.push(magic[i]);
        assert(magic@.subrange(0, i + 1) =~= magic@.subrange(0, i as int).push(magic@[i as int]));
        i = i + 1;
    }
    assert(magic@.subrange(0, 8) =~= magic@);
    header.push(0);
    header.push(1);
    header.push(purpose_tag(purpose));
    header.push(0);
    push_be_u32(&mut header, payload_bytes);
    assert(header@ =~= broker_header(magic@, purpose, payload_bytes));
    header
}

/// Checks a broker frame header.
pub fn validate_broker_header(header: &[u8], magic: &[u8; 8], purpose: BrokerPurpose, payload_bytes: usize) -> (result: Result<(), MacosEndpointError>)
    ensures
        result is Ok <==> broker_header_valid(header@, magic@, purpose, payload_bytes as int),
        result is Err ==> result == Err::<(), MacosEndpointError>(MacosEndpointError::Handshake),
{
    if header.len() != BROKER_HEADER_BYTES {
        return Err(MacosEndpointError::Handshake);
    }
    let mut i: usize = 0;
    while i < 8
        invariant
            0 <= i <= 8,
            header@.len() == 16,
            magic@.len() == 8,
            forall|k: int| 0 <= k < i ==> header@[k] == magic@[k],
        decreases 8 - i,
    {
        if header[i] != magic[i] {
            assert(header@.subrange(0, 8)[i as int] != magic@[i as int]);
            return Err(MacosEndpointError::Handshake);
        }
        i = i + 1;
    }
    assert(header@.subrange(0, 8) =~= magic@);
    let length: u64 = (header[12] as u64) * 0x100_0000 + (header[13] as u64) * 0x1_0000
        + (header[14] as u64) * 0x100 + (header[15] as u64);
    assert(length == be_value(header@.subrange(12, 16)));
    if header[8] != 0 || header[9] != 1 || header[10] != purpose_tag(purpose) || header[11] != 0
        || length != payload_bytes as u64 {
        return Err(MacosEndpointError::Handshake);
    }
    Ok(())
}

/// The exact broker request frame for a purpose, nonce and validated
/// configuration.
pub open spec fn broker_request(purpose: BrokerPurpose, nonce: Seq<u8>, config: Seq<u8>) -> Seq<u8> {
    broker_header(
        request_magic(),
        purpose,
        (BROKER_REQUEST_PREFIX_BYTES + config.len()) as u32,
    ) + nonce + seq![spec_purpose_tag(purpose)] + be_u32(config.len() as u32) + config
}

/// Encodes a broker request; the configuration must be 1 to
/// `BROKER_MAX_CONFIG_BYTES` bytes.
pub fn encode_broker_request(purpose: BrokerPurpose, nonce: &Bytes32, validated_config: &[u8]) -> (result: Result<Vec<u8>, MacosEndpointError>)
    ensures
        result is Ok <==> 0 < validated_config@.len() <= BROKER_MAX_CONFIG_BYTES,
        result is Err ==> result == Err::<Vec<u8>, MacosEndpointError>(
            MacosEndpointError::Handshake,
        ),
        result is Ok ==> result->Ok_0@ == broker_request(purpose, nonce@, validated_config@),
{
    if validated_config.len() == 0 || validated_config.len() > BROKER_MAX_CONFIG_BYTES {
        return Err(MacosEndpointError::Handshake);
    }
    let payload_bytes = (BROKER_REQUEST_PREFIX_BYTES + validated_config.len()) as u32;
    let magic = broker_request_magic();
    let mut frame = encode_broker_header(&magic, purpose, payload_bytes);
    push_bytes(&mut frame, nonce.as_bytes().as_slice());
    frame.push(purpose_tag(purpose));
    push_be_u32(&mut frame, validated_config.len() as u32);
    push_bytes(&mut frame, validated_config);
    assert(frame@ =~= broker_request(purpose, nonce@, validated_config@));
    Ok(frame)
}

/// What a broker hands back for an authenticated peer.
pub struct BrokerAuthentication {
    pub connection_binding: Bytes32,
    pub secret: [u8; 32],
}

/// Whether a response frame is acceptable: a valid response header for the
/// purpose with a 96-byte payload, the request's nonce echoed, and a nonzero
/// binding and secret.
pub open spec fn broker_response_valid(frame: Seq<u8>, purpose: BrokerPurpose, nonce: Seq<u8>) -> bool {
    &&& broker_header_valid(
        frame.subrange(0, 16),
        response_magic(),
        purpose,
        BROKER_RESPONSE_PAYLOAD_BYTES as int,
    )
    &&& frame.subrange(16, 48) == nonce
    &&& !all_zero(frame.subrange(48, 80))
    &&& !all_zero(frame.subrange(80, 112))
}

fn copy_32(frame: &[u8], start: usize) -> (bytes: [u8; 32])
    requires
        start + 32 <= frame@.len(),
    ensures
        bytes@ == frame@.subrange(start as int, start + 32),
{
    let mut bytes: [u8; 32] = [0u8; 32];
    let mut i: usize = 0;
    while i < 32
        invariant
            0 <= i <= 32,
            start + 32 <= frame.len(),
            bytes@.len() == 32,
            forall|k: int| 0 <= k < i ==> bytes@[k] == frame@[start + k],
        decreases 32 - i,
    {
        bytes[i] = frame[start + i];
        i = i + 1;
    }
    assert(bytes@ =~= frame@.subrange(start as int, start + 32));
    bytes
}

/// Parses a broker response frame of at least `BROKER_RESPONSE_BYTES`
/// bytes; bytes after the response are not read.
pub fn parse_broker_response(frame: &[u8], purpose: BrokerPurpose, nonce: &Bytes32) -> (result: Result<BrokerAuthentication, MacosEndpointError>)
    requires
        frame@.len() >= BROKER_RESPONSE_BYTES,
    ensures
        result is Ok <==> broker_response_valid(frame@, purpose, nonce@),
        result is Err ==> result == Err::<BrokerAuthentication, MacosEndpointError>(
            MacosEndpointError::Handshake,
        ),
        result is Ok ==> result->Ok_0.connection_binding@ == frame@.subrange(48, 80),
        result is Ok ==> result->Ok_0.secret@ == frame@.subrange(80, 112),
{
    let magic = broker_response_magic();
    let header = copy_prefix_16(frame);
    match validate_broker_header(header.as_slice(), &magic, purpose, BROKER_RESPONSE_PAYLOAD_BYTES) {
        Err(e) => {
            return Err(e);
        },
        Ok(()) => {},
    }
    let echoed = copy_32(frame, 16);
    if !slices_equal(echoed.as_slice(), nonce.as_bytes().as_slice()) {
        return Err(MacosEndpointError::Handshake);
    }
    let binding = copy_32(frame, 48);
    if slice_is_all_zero(binding.as_slice()) {
        return Err(MacosEndpointError::Handshake);
    }
    let secret = copy_32(frame, 80);
    if slice_is_all_zero(secret.as_slice()) {
        return Err(MacosEndpointError::Handshake);
    }
    Ok(BrokerAuthentication { connection_binding: Bytes32::new(binding), secret })
}

fn copy_prefix_16(frame: &[u8]) -> (header: [u8; 16])
    requires
        16 <= frame@.len(),
    ensures
        header@ == frame@.subrange(0, 16),
{
    let mut header: [u8; 16] = [0u8; 16];
    let mut i: usize = 0;
    while i < 16
        invariant
            0 <= i <= 16,
            16 <= frame@.len(),
            header@.len() == 16,
            forall|k: int| 0 <= k < i ==> header@[k] == frame@[k],
        decreases 16 - i,
    {
        header[i] = frame[i];
        i = i + 1;
    }
    assert(header@ =~= frame@.subrange(0, 16));
    header
}

/// The device and inode of the published socket.
#[derive(Clone, Copy, Debug, PartialEq, Eq, Structural)]
pub struct SocketInode {
    pub device: u64,
    pub inode: u64,
}

/// A probe proves the published listener only when the socket node is the
/// expected one both before and after the probe, and the nonce came back.
pub fn probe_state_matches(
    before: Option<SocketInode>,
    expected: SocketInode,
    after: Option<SocketInode>,
    nonce_matches: bool,
) -> (matches: bool)
    ensures
        matches == (before == Some(expected) && after == Some(expected) && nonce_matches),
{
    let before_ok = match before {
        Some(b) => b.device == expected.device && b.inode == expected.inode,
        None => false,
    };
    let after_ok = match after {
        Some(a) => a.device == expected.device && a.inode == expected.inode,
        None => false,
    };
    before_ok && after_ok && nonce_matches
}

/// The recent handshake starts, oldest first, as monotonic millisecond
/// instants.
pub struct HandshakeStartLimiter {
    recent: Vec<u64>,
}

/// The starts that remain at `now`: the oldest ones are dropped while they
/// are at least one window old.
pub open spec fn starts_in_window(recent: Seq<u64>, now: u64) -> Seq<u64>
    decreases recent.len(),
{
    if recent.len() > 0 && now >= recent[0] && now - recent[0] >= HANDSHAKE_START_WINDOW_MS {
        starts_in_window(recent.subrange(1, recent.len() as int), now)
    } else {
        recent
    }
}

pub proof fn lemma_window_len(recent: Seq<u64>, now: u64)
    ensures
        starts_in_window(recent, now).len() <= recent.len(),
    decreases recent.len(),
{
    if recent.len() > 0 && now >= recent[0] && now - recent[0] >= HANDSHAKE_START_WINDOW_MS {
        lemma_window_len(recent.subrange(1, recent.len() as int), now);
    }
}

impl HandshakeStartLimiter {
    pub closed spec fn spec_recent(&self) -> Seq<u64> {
        self.recent@
    }

    /// At most `MAX_HANDSHAKE_STARTS_PER_SECOND` starts are ever recorded.
    pub closed spec fn wf(&self) -> bool {
        self.recent@.len() <= MAX_HANDSHAKE_STARTS_PER_SECOND
    }

    pub fn new() -> (limiter: Self)
        ensures
            limiter.wf(),
            limiter.spec_recent() == Seq::<u64>::empty(),
    {
        HandshakeStartLimiter { recent: Vec::new() }
    }

    /// Admits a handshake start at `now` when fewer than
    /// `MAX_HANDSHAKE_STARTS_PER_SECOND` starts remain in the window, and
    /// records it.
    pub fn permit_handshake_start_at(&mut self, now: u64) -> (permitted: bool)
        requires
            old(self).wf(),
        ensures
            final(self).wf(),
            permitted == (starts_in_window(old(self).spec_recent(), now).len()
                < MAX_HANDSHAKE_STARTS_PER_SECOND),
            permitted ==> final(self).spec_recent() == starts_in_window(
                old(self).spec_recent(),
                now,
            ).push(now),
            !permitted ==> final(self).spec_recent() == starts_in_window(
                old(self).spec_recent(),
                now,
            ),
    {
        proof {
            lemma_window_len(self.recent@, now);
        }
        let ghost original = self.recent@;
        while self.recent.len() > 0 && now >= self.recent[0] && now - self.recent[0]
            >= HANDSHAKE_START_WINDOW_MS
            invariant
                starts_in_window(self.recent@, now) == starts_in_window(original, now),
                self.recent@.len() <= MAX_HANDSHAKE_STARTS_PER_SECOND,
            decreases self.recent@.len(),
        {
            self.recent.remove(0);
        }
        if self.recent.len() >= MAX_HANDSHAKE_STARTS_PER_SECOND {
            false
        } else {
            self.recent.push(now);
            true
        }
    }
}

/// Whether recorded start times are in the order they were taken and none
/// lies after `now`.
pub open spec fn starts_ordered_before(recent: Seq<u64>, now: u64) -> bool {
    &&& forall|i: int, j: int| 0 <= i <= j < recent.len() ==> #[trigger] recent[i] <= #[trigger] recent[j]
    &&& forall|i: int| 0 <= i < recent.len() ==> #[trigger] recent[i] <= now
}

/// For starts taken in order, the starts kept at `now` are exactly those
/// less than one window old: a suffix of the record, every start before it
/// at least one window old and every start in it younger, whatever the
/// newer starts are.
pub proof fn law_window_keeps_exactly_the_young_starts(recent: Seq<u64>, now: u64)
    requires
        starts_ordered_before(recent, now),
    ensures
        exists|k: int|
            0 <= k <= recent.len() && #[trigger] starts_in_window(recent, now) == recent.subrange(k, recent.len() as int)
                && (forall|i: int| 0 <= i < k ==> now - #[trigger] recent[i] >= HANDSHAKE_START_WINDOW_MS)
                && (forall|i: int| k <= i < recent.len() ==> now - #[trigger] recent[i] < HANDSHAKE_START_WINDOW_MS),
    decreases recent.len(),
{
    if recent.len() > 0 && now >= recent[0] && now - recent[0] >= HANDSHAKE_START_WINDOW_MS {
        let rest = recent.subrange(1, recent.len() as int);
        assert(starts_ordered_before(rest, now)) by {
            assert forall|i: int, j: int| 0 <= i <= j < rest.len() implies #[trigger] rest[i] <= #[trigger] rest[j] by {
                assert(rest[i] == recent[i + 1] && rest[j] == recent[j + 1]);
            }
            assert forall|i: int| 0 <= i < rest.len() implies #[trigger] rest[i] <= now by {
                assert(rest[i] == recent[i + 1]);
            }
        }
        law_window_keeps_exactly_the_young_starts(rest, now);
        let k = choose|k: int|
            0 <= k <= rest.len() && #[trigger] starts_in_window(rest, now) == rest.subrange(k, rest.len() as int)
                && (forall|i: int| 0 <= i < k ==> now - #[trigger] rest[i] >= HANDSHAKE_START_WINDOW_MS)
                && (forall|i: int| k <= i < rest.len() ==> now - #[trigger] rest[i] < HANDSHAKE_START_WINDOW_MS);
        assert(rest.subrange(k, rest.len() as int) =~= recent.subrange(k + 1, recent.len() as int));
        assert forall|i: int| 0 <= i < k + 1 implies now - #[trigger] recent[i] >= HANDSHAKE_START_WINDOW_MS by {
            if i > 0 {
                assert(recent[i] == rest[i - 1]);
            }
        }
        assert forall|i: int| k + 1 <= i < recent.len() implies now - #[trigger] recent[i]
            < HANDSHAKE_START_WINDOW_MS by {
            assert(recent[i] == rest[i - 1]);
        }
        assert(starts_in_window(recent, now) == recent.subrange(k + 1, recent.len() as int));
    } else {
        assert(recent.subrange(0, recent.len() as int) =~= recent);
        if recent.len() > 0 {
            assert forall|i: int| 0 <= i < recent.len() implies now - #[trigger] recent[i]
                < HANDSHAKE_START_WINDOW_MS by {
                assert(recent[0] <= recent[i]);
            }
        }
        assert(starts_in_window(recent, now) == recent.subrange(0, recent.len() as int));
    }
}

/// However starts arrive, no more than `MAX_HANDSHAKE_STARTS_PER_SECOND`
/// of them are ever admitted inside one window.
pub proof fn law_start_rate_is_bounded(recent: Seq<u64>, now: u64)
    requires
        recent.len() <= MAX_HANDSHAKE_STARTS_PER_SECOND,
    ensures
        starts_in_window(recent, now).len() <= MAX_HANDSHAKE_STARTS_PER_SECOND,
{
    lemma_window_len(recent, now);
}

} // verus!
