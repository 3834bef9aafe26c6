//! Identity types of the fleet: service ids, correlation ids (UUIDs)
//! and OpenTelemetry-compatible trace ids.
use vstd::prelude::*;
use vstd::string::StringSliceAdditionalSpecFns;
use crate::encoding::{HexError, be_byte, decode_hex_exact, hex_char, hex_lower, hex_round_trip, uuid_text, v4_layout};

verus! {

/// Uniquely identifies a service in the SPECTRE fleet.
#[derive(Debug, Clone, PartialEq, Eq, Hash)]
pub struct ServiceId(String);

impl View for ServiceId {
    type V = Seq<char>;

    closed spec fn view(&self) -> Seq<char> {
        self.0@
    }
}

impl ServiceId {
    /// Create a new ServiceId
    pub fn new(id: &str) -> (r: Self)
        ensures
            r@ == id@,
    {
        ServiceId(String::from_str(id))
    }

    /// Create a ServiceId that owns `id`.
    pub fn from_string(id: String) -> (r: Self)
        ensures
            r@ == id@,
    {
        ServiceId(id)
    }

    /// Get the service ID as a string slice
    pub fn as_str(&self) -> (r: &str)
        ensures
            r@ == self@,
    {
        self.0.as_str()
    }

    /// The id as its `Display` rendering shows it.
    pub fn to_string(&self) -> (r: String)
        ensures
            r@ == self@,
    {
        self.0.clone()
    }
}

/// Correlation ID for request tracking: the 128-bit value of a UUID.
#[derive(Debug, Clone, Copy, PartialEq, Eq, Structural, Hash)]
pub struct CorrelationId(u128);

impl View for CorrelationId {
    type V = u128;

    closed spec fn view(&self) -> u128 {
        self.0
    }
}

/// `uuid::Uuid::new_v4`, as the value of the new UUID.
/// Claimed: the version nibble is 4 and the variant bits are `10`, as
/// `new_v4` sets them after drawing the other bits at random.
#[verifier::external_body]
pub(crate) fn random_uuid() -> (r: u128)
    ensures
        (r >> 76u128) & 0xf == 4,
        (r >> 62u128) & 0x3 == 2,
{
    uuid::Uuid::new_v4().as_u128()
}

/// `Uuid::hyphenated` rendered with `to_string`.
/// Claimed: the lowercase 8-4-4-4-12 hex form of the UUID's bytes, as
/// uuid's `format_hyphenated` writes it.
#[verifier::external_body]
fn uuid_hyphenated(v: u128) -> (r: String)
    ensures
        r@ == uuid_text(v),
{
    uuid::Uuid::from_u128(v).hyphenated().to_string()
}

impl CorrelationId {
    /// Generate a new random correlation ID (a version 4 UUID).
    pub fn generate() -> (r: Self)
        ensures
            (r@ >> 76u128) & 0xf == 4,
            (r@ >> 62u128) & 0x3 == 2,
    {
        CorrelationId(random_uuid())
    }

    /// Create from the value of an existing UUID.
    pub fn from_uuid(uuid: u128) -> (r: Self)
        ensures
            r@ == uuid,
    {
        CorrelationId(uuid)
    }

    /// The value of the inner UUID.
    pub fn as_uuid(&self) -> (r: u128)
        ensures
            r == self@,
    {
        self.0
    }

    /// Get as hyphenated string
    pub fn as_hyphenated(&self) -> (r: String)
        ensures
            r@ == uuid_text(self@),
            r@.len() == 36,
    {
        uuid_hyphenated(self.0)
    }

    /// The id as its `Display` rendering shows it (hyphenated form).
    pub fn to_string(&self) -> (r: String)
        ensures
            r@ == uuid_text(self@),
    {
        self.as_hyphenated()
    }
}

/// Trace ID for distributed tracing (OpenTelemetry compatible): 16 bytes.
#[derive(Debug, Clone, Copy, PartialEq, Eq, Hash)]
pub struct TraceId([u8; 16]);

impl View for TraceId {
    type V = Seq<u8>;

    closed spec fn view(&self) -> Seq<u8> {
        self.0@
    }
}

/// `hex::encode`. Claimed: two lowercase digits per byte, high nibble
/// first, as hex's `BytesToHexChars` with the lowercase table yields them.
#[verifier::external_body]
fn hex_encode(bytes: &[u8; 16]) -> (r: String)
    ensures
        r@ == hex_lower(bytes@),
{
    hex::encode(bytes)
}

/// `hex::decode_to_slice` into 16 bytes, its error turned into
/// [`HexError`] variant by variant. Claimed: the checks of
/// `decode_to_slice` in its order: odd length, then length, then the
/// first byte that is no hex digit.
#[verifier::external_body]
fn hex_decode_16(text: &str) -> (r: Result<[u8; 16], HexError>)
    ensures
        match r {
            Ok(b) => decode_hex_exact(text.spec_bytes(), 16) == Ok::<Seq<u8>, HexError>(b@),
            Err(e) => decode_hex_exact(text.spec_bytes(), 16) == Err::<Seq<u8>, HexError>(e),
        },
{
    let mut bytes = [0u8; 16];
    match hex::decode_to_slice(text, &mut bytes) {
        Ok(()) => Ok(bytes),
        Err(hex::FromHexError::InvalidHexCharacter { c, index }) => Err(
            HexError::InvalidHexCharacter { c, index },
        ),
        Err(hex::FromHexError::OddLength) => Err(HexError::OddLength),
        Err(hex::FromHexError::InvalidStringLength) => Err(HexError::InvalidStringLength),
    }
}

impl TraceId {
    /// Generate a new random trace ID: the bytes of a version 4 UUID.
    pub fn generate() -> (r: Self)
        ensures
            v4_layout(r@),
    {
        let v = random_uuid();
        let mut bytes = [0u8; 16];
        let mut j: usize = 0;
        while j < 16
            invariant
                j <= 16,
                forall|k: int| 0 <= k < j ==> #[trigger] bytes@[k] == be_byte(v, k),
            decreases 16 - j,
        {
            let shift: u128 = (120 - 8 * j) as u128;
            bytes[j] = ((v >> shift) & 0xff) as u8;
            j = j + 1;
        }
        proof {
            let b6 = bytes@[6];
            let b8 = bytes@[8];
            assert(b6 == be_byte(v, 6));
            assert(b8 == be_byte(v, 8));
            assert(((v >> 72u128) & 0xff) as u8 / 16 == (v >> 76u128) & 0xf) by (bit_vector);
            assert(((v >> 56u128) & 0xff) as u8 / 64 == (v >> 62u128) & 0x3) by (bit_vector);
        }
        TraceId(bytes)
    }

    /// Create from a 16-byte array
    pub fn from_bytes(bytes: [u8; 16]) -> (r: Self)
        ensures
            r@ == bytes@,
    {
        TraceId(bytes)
    }

    /// Get the bytes
    pub fn as_bytes(&self) -> (r: &[u8; 16])
        ensures
            r@ == self@,
    {
        &self.0
    }

    /// Get as hex string (32 lowercase characters)
    pub fn as_hex(&self) -> (r: String)
        ensures
            r@ == hex_lower(self@),
            r@.len() == 32,
    {
        hex_encode(&self.0)
    }

    /// Parse from hex string (upper or lower case, exactly 32 digits)
    pub fn from_hex(hex_str: &str) -> (r: Result<Self, HexError>)
        ensures
            match r {
                Ok(t) => decode_hex_exact(hex_str.spec_bytes(), 16) == Ok::<Seq<u8>, HexError>(t@),
                Err(e) => decode_hex_exact(hex_str.spec_bytes(), 16) == Err::<Seq<u8>, HexError>(e),
            },
    {
        match hex_decode_16(hex_str) {
            Ok(bytes) => Ok(TraceId(bytes)),
            Err(e) => Err(e),
        }
    }

    /// The id as its `Display` rendering shows it (hex form).
    pub fn to_string(&self) -> (r: String)
        ensures
            r@ == hex_lower(self@),
    {
        self.as_hex()
    }
}

impl Default for TraceId {
    /// A fresh random trace id.
    fn default() -> (r: Self)
        ensures
            v4_layout(r@),
    {
        TraceId::generate()
    }
}

/// A trace id survives its hex form: parsing the text that `as_hex`
/// produces gives the same id back.
pub proof fn trace_id_hex_round_trip(id: TraceId, text: &str)
    requires
        text@ == hex_lower(id@),
    ensures
        decode_hex_exact(text.spec_bytes(), 16) == Ok::<Seq<u8>, HexError>(id@),
{
    let bytes = id@;
    assert(bytes.len() == 16);
    assert forall|i: int| 0 <= i < text@.len() implies '\0' <= #[trigger] text@[i] <= '\u{7f}' by {
        let d = if i % 2 == 0 { (bytes[i / 2] / 16) as nat } else { (bytes[i / 2] % 16) as nat };
        assert(text@[i] == hex_char(d));
    }
    vstd::utf8::is_ascii_chars_encode_utf8(text@);
    hex_round_trip(bytes, text.spec_bytes());
}

/// A trace id is its bytes: two ids are equal exactly when their bytes
/// are, so ids built from equal bytes are equal and ids built from
/// different bytes differ.
pub proof fn trace_id_is_its_bytes(a: TraceId, b: TraceId)
    ensures
        (a == b) <==> (a@ == b@),
{
    if a@ == b@ {
        assert(a.0 =~= b.0);
    }
}

} // verus!
