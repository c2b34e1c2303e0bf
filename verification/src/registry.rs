//! The signed registry entry protocol: canonical hashing of an entry,
//! signing and verification, and the encoding and decoding that a fetch or a
//! publish needs around the transport.

use vstd::prelude::*;
use vstd::string::StrSliceExecFns;
use vstd::string::StringExecFns;
use vstd::utf8::encode_utf8;
use crate::encoding::dec_of;
use crate::encoding::extend_bytes;
use crate::encoding::hex_decoded;
use crate::encoding::hex_of;
use crate::encoding::is_hex;
use crate::encoding::is_lower_hex;
use crate::encoding::hex_decode;
use crate::encoding::hex_encode;
use crate::encoding::u64_to_dec;
use crate::keys::blake2b_hash;
use crate::keys::blake2b_of;
use crate::keys::ed25519_check;
use crate::keys::ed25519_sign;
use crate::keys::ed25519_sign_of;
use crate::keys::ed25519_verify_of;
use crate::keys::genuinely_signed;

verus! {

/// One logical version of a named record under a public key's namespace. The
/// payload is opaque to this layer; the caller chooses the revision and must
/// pick it strictly greater than any revision already published for the same
/// key pair and data key, which nothing here tracks or enforces.
#[derive(Debug)]
pub struct RegistryEntry {
    pub data_key: String,
    pub data: Vec<u8>,
    pub revision: u64,
}

/// The authenticated, transmissible form of an entry: the entry together
/// with a signature that must validate against the entry's canonical hash
/// and its owner's public key before the entry is trusted.
#[derive(Debug)]
pub struct SignedRegistryEntry {
    pub entry: RegistryEntry,
    pub signature: Vec<u8>,
}

/// How a registry call can fail short of the transport: a response body that
/// does not decode, carrying the text that failed, or a signature that does
/// not validate, after which the entry must be discarded.
#[derive(Debug)]
pub enum RegistryError {
    PortalResponse(String),
    InvalidSignature,
}

/// Options for one registry call: the endpoint path under the portal, an
/// optional API key and user agent for the transport, and whether the data
/// key is already the hex-encoded hash.
#[derive(Debug)]
pub struct EntryOptions {
    pub endpoint_path: String,
    pub api_key: Option<String>,
    pub custom_user_agent: Option<String>,
    pub hashed_data_key_hex: bool,
}

impl Default for EntryOptions {
    fn default() -> (r: Self)
        ensures
            r.endpoint_path@ == "/skynet/registry"@,
            r.api_key is None,
            r.custom_user_agent is None,
            !r.hashed_data_key_hex,
    {
        EntryOptions {
            endpoint_path: String::from_str("/skynet/registry"),
            api_key: None,
            custom_user_agent: None,
            hashed_data_key_hex: false,
        }
    }
}

/// The normalized, on-the-wire form of a data key: taken as given when the
/// caller says it is already the hex-encoded hash, otherwise the lower-case
/// hex rendering of a 32-byte BLAKE2b digest of its UTF-8 bytes.
pub open spec fn hashed_data_key_of(data_key: Seq<char>, already_hashed: bool) -> Seq<char> {
    if already_hashed {
        data_key
    } else {
        hex_of(blake2b_of(32, encode_utf8(data_key)))
    }
}

/// The exact byte sequence whose digest is signed: the UTF-8 bytes of the
/// normalized data key, then the raw payload, then the decimal rendering of
/// the revision.
pub open spec fn canonical_entry_bytes(
    data_key: Seq<char>,
    data: Seq<u8>,
    revision: u64,
    already_hashed: bool,
) -> Seq<u8> {
    encode_utf8(hashed_data_key_of(data_key, already_hashed)) + data + encode_utf8(
        dec_of(revision as nat),
    )
}

/// The canonical hash of an entry: a 32-byte BLAKE2b digest over the
/// canonical byte sequence. This layout is the wire contract; signatures only
/// cross-verify with implementations that reproduce it bit for bit.
pub open spec fn canonical_hash_of(
    data_key: Seq<char>,
    data: Seq<u8>,
    revision: u64,
    already_hashed: bool,
) -> Seq<u8> {
    blake2b_of(32, canonical_entry_bytes(data_key, data, revision, already_hashed))
}

/// Normalizes a data key into its on-the-wire hashed form: unchanged when the
/// caller asserts it is already the hex-encoded hash, otherwise the
/// lower-case hex of the 32-byte BLAKE2b digest of its UTF-8 bytes.
pub fn hash_data_key(data_key: &str, hashed_data_key_hex: bool) -> (r: String)
    ensures
        r@ == hashed_data_key_of(data_key@, hashed_data_key_hex),
{
    if hashed_data_key_hex {
        data_key.to_owned()
    } else {
        let digest = blake2b_hash(32, data_key.as_bytes());
        hex_encode(digest.as_slice())
    }
}

/// Computes the canonical hash of an entry: the digest that is signed on
/// publish and checked on fetch.
pub fn hash_registry_entry(entry: &RegistryEntry, hashed_data_key_hex: bool) -> (r: Vec<u8>)
    ensures
        r@ == canonical_hash_of(entry.data_key@, entry.data@, entry.revision, hashed_data_key_hex),
        r@.len() == 32,
{
    let normalized = hash_data_key(entry.data_key.as_str(), hashed_data_key_hex);
    let revision_text = u64_to_dec(entry.revision);
    let mut input: Vec<u8> = Vec::new();
    extend_bytes(&mut input, normalized.as_str().as_bytes());
    extend_bytes(&mut input, entry.data.as_slice());
    extend_bytes(&mut input, revision_text.as_str().as_bytes());
    proof {
        assert(input@ =~= canonical_entry_bytes(
            entry.data_key@,
            entry.data@,
            entry.revision,
            hashed_data_key_hex,
        ));
    }
    blake2b_hash(32, input.as_slice())
}

/// Signs an entry's canonical hash with the 64-byte private key, yielding
/// the 64-byte signature that travels with the entry on publish.
pub fn sign_entry(entry: &RegistryEntry, private_key: &[u8], hashed_data_key_hex: bool) -> (r: Vec<
    u8,
>)
    requires
        private_key@.len() == 64,
    ensures
        r@ == ed25519_sign_of(
            canonical_hash_of(entry.data_key@, entry.data@, entry.revision, hashed_data_key_hex),
            private_key@,
        ),
        r@.len() == 64,
{
    let hash = hash_registry_entry(entry, hashed_data_key_hex);
    ed25519_sign(hash.as_slice(), private_key)
}

/// Checks a signature against an entry's canonical hash and its owner's
/// public key. A signature honestly produced over this entry with the
/// matching derived private key always passes; a failing check means the
/// entry cannot be trusted.
pub fn verify_entry(
    entry: &RegistryEntry,
    public_key: &[u8],
    signature: &[u8],
    hashed_data_key_hex: bool,
) -> (r: bool)
    requires
        public_key@.len() == 32,
        signature@.len() == 64,
    ensures
        r == ed25519_verify_of(
            canonical_hash_of(entry.data_key@, entry.data@, entry.revision, hashed_data_key_hex),
            public_key@,
            signature@,
        ),
        genuinely_signed(
            canonical_hash_of(entry.data_key@, entry.data@, entry.revision, hashed_data_key_hex),
            public_key@,
            signature@,
        ) ==> r,
{
    let hash = hash_registry_entry(entry, hashed_data_key_hex);
    ed25519_check(hash.as_slice(), public_key, signature)
}

/// Rebuilds and checks a fetched entry from the decoded lookup response
/// fields. The payload and signature arrive hex-encoded; text that is not
/// valid hex is a portal-response error carrying that text, a signature that
/// does not validate against the rebuilt entry's canonical hash is an
/// invalid-signature error, and only a verified entry is returned.
pub fn decode_registry_response(
    data_key: &str,
    data_hex: &str,
    revision: u64,
    signature_hex: &str,
    public_key: &[u8],
    hashed_data_key_hex: bool,
) -> (r: Result<SignedRegistryEntry, RegistryError>)
    requires
        public_key@.len() == 32,
    ensures
        !is_hex(data_hex@) ==> (r matches Err(RegistryError::PortalResponse(b)) && b@
            == data_hex@),
        is_hex(data_hex@) && !is_hex(signature_hex@) ==> (r matches Err(
            RegistryError::PortalResponse(b),
        ) && b@ == signature_hex@),
        is_hex(data_hex@) && is_hex(signature_hex@) ==> {
            let sig = hex_decoded(signature_hex@);
            let hash = canonical_hash_of(
                data_key@,
                hex_decoded(data_hex@),
                revision,
                hashed_data_key_hex,
            );
            &&& (sig.len() == 64 && ed25519_verify_of(hash, public_key@, sig)) <==> r is Ok
            &&& !(sig.len() == 64 && ed25519_verify_of(hash, public_key@, sig)) ==> (r matches Err(
                e,
            ) && e is InvalidSignature)
            &&& (r matches Ok(se) ==> se.entry.data_key@ == data_key@ && se.entry.data@
                == hex_decoded(data_hex@) && se.entry.revision == revision && se.signature@ == sig)
        },
        is_hex(data_hex@) && is_hex(signature_hex@) && genuinely_signed(
            canonical_hash_of(data_key@, hex_decoded(data_hex@), revision, hashed_data_key_hex),
            public_key@,
            hex_decoded(signature_hex@),
        ) ==> r is Ok,
{
    let data = match hex_decode(data_hex) {
        Some(v) => v,
        None => {
            return Err(RegistryError::PortalResponse(data_hex.to_owned()));
        },
    };
    let signature = match hex_decode(signature_hex) {
        Some(v) => v,
        None => {
            return Err(RegistryError::PortalResponse(signature_hex.to_owned()));
        },
    };
    if signature.len() != 64 {
        return Err(RegistryError::InvalidSignature);
    }
    let entry = RegistryEntry { data_key: data_key.to_owned(), data, revision };
    if !verify_entry(&entry, public_key, signature.as_slice(), hashed_data_key_hex) {
        return Err(RegistryError::InvalidSignature);
    }
    Ok(SignedRegistryEntry { entry, signature })
}

/// The server-side lookup timeout sent with a fetch, in the portal's time
/// units.
pub const DEFAULT_GET_ENTRY_TIMEOUT: u32 = 5;

/// Builds the query parameters of a lookup request: the public key tagged
/// with its algorithm identifier, the normalized data key, and the fixed
/// lookup timeout.
pub fn registry_lookup_query(public_key: &[u8], data_key: &str, hashed_data_key_hex: bool) -> (r:
    Vec<(String, String)>)
    ensures
        r@.len() == 3,
        r@[0].0@ == "publickey"@ && r@[0].1@ == "ed25519:"@ + hex_of(public_key@),
        r@[1].0@ == "datakey"@ && r@[1].1@ == hashed_data_key_of(data_key@, hashed_data_key_hex),
        r@[2].0@ == "timeout"@ && r@[2].1@ == dec_of(DEFAULT_GET_ENTRY_TIMEOUT as nat),
{
    let mut tagged_key = String::from_str("ed25519:");
    let key_hex = hex_encode(public_key);
    tagged_key.append(key_hex.as_str());
    let mut query: Vec<(String, String)> = Vec::new();
    query.push((String::from_str("publickey"), tagged_key));
    query.push((String::from_str("datakey"), hash_data_key(data_key, hashed_data_key_hex)));
    query.push((String::from_str("timeout"), u64_to_dec(DEFAULT_GET_ENTRY_TIMEOUT as u64)));
    query
}

/// The items of a JSON array of byte values, separated by commas.
pub open spec fn json_byte_items(bytes: Seq<u8>) -> Seq<char>
    decreases bytes.len(),
{
    if bytes.len() == 0 {
        Seq::empty()
    } else if bytes.len() == 1 {
        dec_of(bytes[0] as nat)
    } else {
        json_byte_items(bytes.drop_last()) + seq![','] + dec_of(bytes.last() as nat)
    }
}

/// A JSON array holding byte values in decimal.
pub open spec fn json_byte_array(bytes: Seq<u8>) -> Seq<char> {
    seq!['['] + json_byte_items(bytes) + seq![']']
}

/// Renders bytes as a JSON array of decimal numbers.
fn json_byte_array_str(bytes: &[u8]) -> (r: String)
    ensures
        r@ == json_byte_array(bytes@),
{
    proof {
        reveal_strlit("[");
        reveal_strlit(",");
        reveal_strlit("]");
    }
    let mut s = String::from_str("[");
    proof {
        assert(s@ =~= seq!['['] + json_byte_items(bytes@.take(0)));
    }
    let mut i: usize = 0;
    while i < bytes.len()
        invariant
            i <= bytes@.len(),
            s@ == seq!['['] + json_byte_items(bytes@.take(i as int)),
            "["@ == seq!['['],
            ","@ == seq![','],
            "]"@ == seq![']'],
        decreases bytes@.len() - i,
    {
        if i > 0 {
            s.append(",");
        }
        let item = u64_to_dec(bytes[i] as u64);
        s.append(item.as_str());
        proof {
            assert(bytes@.take(i + 1).drop_last() =~= bytes@.take(i as int));
            assert(bytes@.take(i + 1).last() == bytes@[i as int]);
            assert(s@ =~= seq!['['] + json_byte_items(bytes@.take(i + 1)));
        }
        i = i + 1;
    }
    s.append("]");
    proof {
        assert(bytes@.take(bytes@.len() as int) =~= bytes@);
        assert(s@ =~= json_byte_array(bytes@));
    }
    s
}

/// The exact JSON body of a publish request: the raw payload, the normalized
/// data key, the algorithm-tagged public key, the revision, and the
/// signature, with object keys in alphabetical order and no added
/// whitespace.
pub open spec fn publish_body_of(
    public_key: Seq<u8>,
    data_key: Seq<char>,
    data: Seq<u8>,
    revision: u64,
    signature: Seq<u8>,
    already_hashed: bool,
) -> Seq<char> {
    "{\"data\":"@ + json_byte_array(data) + ",\"datakey\":\""@ + hashed_data_key_of(
        data_key,
        already_hashed,
    ) + "\",\"publickey\":{\"algorithm\":\"ed25519\",\"key\":"@ + json_byte_array(public_key)
        + "},\"revision\":"@ + dec_of(revision as nat) + ",\"signature\":"@ + json_byte_array(
        signature,
    ) + "}"@
}

/// Signs an entry and serializes the publish request body that submits it:
/// the canonical hash is signed with the private key and the signature is
/// embedded beside the payload, the normalized data key, the tagged public
/// key and the revision. A caller that normalized the data key itself must
/// hand it over in the lower-case hex alphabet.
pub fn registry_publish_body(
    public_key: &[u8],
    private_key: &[u8],
    entry: &RegistryEntry,
    hashed_data_key_hex: bool,
) -> (r: String)
    requires
        private_key@.len() == 64,
        hashed_data_key_hex ==> is_lower_hex(entry.data_key@),
    ensures
        r@ == publish_body_of(
            public_key@,
            entry.data_key@,
            entry.data@,
            entry.revision,
            ed25519_sign_of(
                canonical_hash_of(
                    entry.data_key@,
                    entry.data@,
                    entry.revision,
                    hashed_data_key_hex,
                ),
                private_key@,
            ),
            hashed_data_key_hex,
        ),
{
    let signature = sign_entry(entry, private_key, hashed_data_key_hex);
    let mut s = String::from_str("{\"data\":");
    let data_json = json_byte_array_str(entry.data.as_slice());
    s.append(data_json.as_str());
    s.append(",\"datakey\":\"");
    let normalized = hash_data_key(entry.data_key.as_str(), hashed_data_key_hex);
    s.append(normalized.as_str());
    s.append("\",\"publickey\":{\"algorithm\":\"ed25519\",\"key\":");
    let key_json = json_byte_array_str(public_key);
    s.append(key_json.as_str());
    s.append("},\"revision\":");
    let revision_text = u64_to_dec(entry.revision);
    s.append(revision_text.as_str());
    s.append(",\"signature\":");
    let signature_json = json_byte_array_str(signature.as_slice());
    s.append(signature_json.as_str());
    s.append("}");
    s
}

/// Normalizing a data key is idempotent: feeding a normalized key back with
/// the already-hashed flag set returns it unchanged.
pub proof fn lemma_hashed_data_key_idempotent(data_key: Seq<char>, already_hashed: bool)
    ensures
        hashed_data_key_of(hashed_data_key_of(data_key, already_hashed), true)
            == hashed_data_key_of(data_key, already_hashed),
{
}

} // verus!
