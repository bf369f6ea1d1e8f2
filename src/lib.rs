//! MD5 message digest of a byte sequence, rendered as lowercase hexadecimal.
pub mod buffer;
pub mod hex;
pub mod md5;
