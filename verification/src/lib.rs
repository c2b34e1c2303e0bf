//! Client-side core of a signed, mutable registry on a content-addressed
//! storage network: deterministic key derivation, canonical entry hashing,
//! signature creation and checking, and the encoding and decoding of registry
//! requests and responses.

mod encoding;
mod keys;
mod options;
mod registry;

pub use encoding::dec_of;
pub use encoding::hex_decode;
pub use encoding::hex_decoded;
pub use encoding::hex_encode;
pub use encoding::hex_of;
pub use encoding::is_hex;
pub use encoding::is_lower_hex;
pub use encoding::is_lower_hex_str;
pub use encoding::lemma_hex_round_trip;
pub use keys::KeyPair;
pub use keys::blake2b_of;
pub use keys::derive_child_seed;
pub use keys::derived_keypair;
pub use keys::ed25519_keypair_of;
pub use keys::ed25519_sign_of;
pub use keys::ed25519_verify_of;
pub use keys::gen_keypair_and_seed;
pub use keys::gen_keypair_from_seed;
pub use keys::genuinely_signed;
pub use keys::kdf_of;
pub use keys::lemma_derived_keypair_deterministic;
pub use options::DownloadOptions;
pub use options::MetadataOptions;
pub use options::Skykey;
pub use options::SkykeyOptions;
pub use options::SkynetClientOptions;
pub use options::UploadOptions;
pub use registry::DEFAULT_GET_ENTRY_TIMEOUT;
pub use registry::EntryOptions;
pub use registry::RegistryEntry;
pub use registry::RegistryError;
pub use registry::SignedRegistryEntry;
pub use registry::canonical_entry_bytes;
pub use registry::canonical_hash_of;
pub use registry::decode_registry_response;
pub use registry::hash_data_key;
pub use registry::hash_registry_entry;
pub use registry::hashed_data_key_of;
pub use registry::lemma_hashed_data_key_idempotent;
pub use registry::publish_body_of;
pub use registry::registry_lookup_query;
pub use registry::registry_publish_body;
pub use registry::sign_entry;
pub use registry::verify_entry;
