//! Constant values used around the crypto crate: salt, nonce, key and tag
//! lengths, the STREAM block size and the key-derivation parameter sets.
//!
//! These values are part of the on-disk format: if they change, data written
//! with the old values can no longer be read.

use vstd::prelude::*;

verus! {

/// This is the salt size.
pub const SALT_LEN: usize = 16;

/// The nonce size for XChaCha20-Poly1305, minus the last 4 bytes (due to STREAM with a 31+1 bit counter).
pub const XCHACHA20_POLY1305_NONCE_LEN: usize = 20;

/// The nonce size for AES-256-GCM, minus the last 4 bytes (due to STREAM with a 31+1 bit counter).
pub const AES_256_GCM_NONCE_LEN: usize = 8;

/// The length of a secret key, in bytes.
pub const SECRET_KEY_LEN: usize = 18;

/// The block size used for STREAM encryption/decryption.
///
/// The file size gain is 16 bytes per 1048576 bytes (due to the AEAD tag), plus the size of the header.
pub const BLOCK_LEN: usize = 1_048_576;

/// This is the default AEAD tag size for all encryption algorithms used within the crate.
pub const AEAD_TAG_LEN: usize = 16;

/// Length of the AAD.
pub const AAD_LEN: usize = 32;

/// The length of plain master/hashed keys.
pub const KEY_LEN: usize = 32;

/// The length of encrypted master keys: a key sealed with its AEAD tag.
pub const ENCRYPTED_KEY_LEN: usize = KEY_LEN + AEAD_TAG_LEN;

/// Argon2id parameters (memory in KiB, iterations, parallelism) at the standard level.
pub const ARGON2ID_STANDARD: (u32, u32, u32) = (131_072, 8, 4);

/// Argon2id parameters at the hardened level.
pub const ARGON2ID_HARDENED: (u32, u32, u32) = (262_144, 8, 4);

/// Argon2id parameters at the paranoid level.
pub const ARGON2ID_PARANOID: (u32, u32, u32) = (524_288, 8, 4);

/// BLAKE3-Balloon parameters at the standard level.
pub const BLAKE3_BALLOON_STANDARD: (u32, u32, u32) = (131_072, 2, 1);

/// BLAKE3-Balloon parameters at the hardened level.
pub const BLAKE3_BALLOON_HARDENED: (u32, u32, u32) = (262_144, 2, 1);

/// BLAKE3-Balloon parameters at the paranoid level.
pub const BLAKE3_BALLOON_PARANOID: (u32, u32, u32) = (524_288, 2, 1);

/// An encrypted master key is exactly a plain key followed by one AEAD tag.
pub proof fn encrypted_key_is_key_and_tag()
    ensures
        ENCRYPTED_KEY_LEN == KEY_LEN + AEAD_TAG_LEN,
{
}

/// STREAM keeps the last 4 bytes of every nonce for its 31-bit block counter
/// and its last-block flag, so the stored nonces are 4 bytes shorter than the
/// ciphers' own: 24 bytes for XChaCha20-Poly1305 and 12 for AES-256-GCM.
pub proof fn stream_nonces_leave_room_for_the_counter()
    ensures
        XCHACHA20_POLY1305_NONCE_LEN + 4 == 24,
        AES_256_GCM_NONCE_LEN + 4 == 12,
{
}

} // verus!
