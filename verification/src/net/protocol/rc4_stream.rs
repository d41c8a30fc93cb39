use vstd::prelude::*;

use rc4::consts::U16;
use rc4::{KeyInit, StreamCipher};

verus! {

/// The RC4 cipher of the v6 stream (`rc4::Rc4` with a 16-byte key), held as
/// it is. `rc4::Rc4<U16>` is `cipher::StreamCipherCoreWrapper`, whose bounds
/// are typenum types that Verus cannot take in a declaration, so the cipher is
/// kept in this opaque struct, which only `rc4_new` makes and only `rc4_apply`
/// uses.
#[verifier::external_body]
pub struct Rc4Cipher {
    cipher: rc4::Rc4<U16>,
}

/// The key that a cipher was made with.
pub uninterp spec fn rc4_cipher_key(c: Rc4Cipher) -> Seq<u8>;

/// How many keystream bytes a cipher has used.
pub uninterp spec fn rc4_cipher_offset(c: Rc4Cipher) -> nat;

/// The first `n` bytes of the RC4 keystream of `key`.
pub uninterp spec fn rc4_keystream(key: Seq<u8>, n: nat) -> Seq<u8>;

/// `data` with each byte XORed with the byte of `ks` at the same place.
pub open spec fn xor_bytes(data: Seq<u8>, ks: Seq<u8>) -> Seq<u8> {
    Seq::new(data.len(), |i: int| data[i] ^ ks[i])
}

/// What RC4 under `key` makes of `data`, `offset` bytes into its keystream.
pub open spec fn rc4_applied(key: Seq<u8>, offset: nat, data: Seq<u8>) -> Seq<u8> {
    xor_bytes(data, rc4_keystream(key, offset + data.len()).skip(offset as int))
}

/// `Rc4::<U16>::new_from_slice` (of `KeyInit`): a cipher at the start of the
/// keystream of `key` when the key has 16 bytes, none otherwise. Trusted.
#[verifier::external_body]
pub(crate) fn rc4_new(key: &[u8]) -> (r: Option<Rc4Cipher>)
    ensures
        r is Some <==> key@.len() == 16,
        r matches Some(c) ==> rc4_cipher_key(c) == key@ && rc4_cipher_offset(c) == 0,
{
    match rc4::Rc4::<U16>::new_from_slice(key) {
        Ok(cipher) => Some(Rc4Cipher { cipher }),
        Err(_) => None,
    }
}

/// `StreamCipher::apply_keystream`: XORs `data` with the cipher's next
/// keystream bytes, which the cipher then has used. Trusted: the keystream is
/// one stream of the key, however it is cut into calls.
#[verifier::external_body]
pub(crate) fn rc4_apply(c: &mut Rc4Cipher, data: &mut Vec<u8>)
    ensures
        rc4_cipher_key(*final(c)) == rc4_cipher_key(*old(c)),
        rc4_cipher_offset(*final(c)) == rc4_cipher_offset(*old(c)) + old(data)@.len(),
        final(data)@ == xor_bytes(
            old(data)@,
            rc4_keystream(
                rc4_cipher_key(*old(c)),
                rc4_cipher_offset(*old(c)) + old(data)@.len(),
            ).skip(rc4_cipher_offset(*old(c)) as int),
        ),
{
    c.cipher.apply_keystream(data.as_mut_slice());
}

} // verus!
