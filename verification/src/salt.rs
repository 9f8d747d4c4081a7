//! The salt of the MySQL handshake.
use rand::RngCore;
use vstd::prelude::*;

verus! {

/// The length of a salt.
pub const SALT_LEN: usize = 20;

/// The byte of a salt that comes of a random byte: its lower seven bits, or the next byte where
/// these are NUL or `$`, which a salt must not hold.
pub open spec fn scrambled_byte(b: u8) -> u8 {
    let low = b % 128;
    if low == 0 || low == 36 {
        (low + 1) as u8
    } else {
        low
    }
}

/// The salt that bytes make.
pub open spec fn scrambled(bs: Seq<u8>) -> Seq<u8> {
    Seq::new(SALT_LEN as nat, |i: int| scrambled_byte(bs[i]))
}

/// Whether a byte may stand in a salt: it is ASCII and neither NUL nor `$`.
pub open spec fn is_salt_byte(b: u8) -> bool {
    0 < b < 128 && b != 36
}

/// Whether bytes make a salt.
pub open spec fn is_salt(bytes: Seq<u8>) -> bool {
    &&& bytes.len() == SALT_LEN
    &&& forall|i: int| 0 <= i < bytes.len() ==> is_salt_byte(#[trigger] bytes[i])
}

/// Makes a salt of random bytes, one byte of each of the first twenty.
pub fn scramble(bs: &[u8]) -> (r: [u8; 20])
    requires
        bs@.len() >= SALT_LEN,
    ensures
        r@ == scrambled(bs@),
        is_salt(r@),
{
    let mut scramble: [u8; 20] = [0;20];
    for i in 0..SALT_LEN
        invariant
            bs@.len() >= SALT_LEN,
            forall|k: int| 0 <= k < i ==> #[trigger] scramble@[k] == scrambled_byte(bs@[k]),
    {
        let b = bs[i];
        assert(b & 0x7fu8 == b % 128) by (bit_vector);
        let mut low: u8 = b & 0x7fu8;
        if low == 0 || low == 36 {
            low = low + 1;
        }
        scramble[i] = low;
    }
    assert(scramble@ =~= scrambled(bs@));
    scramble
}

/// `rand::thread_rng` and its `fill_bytes`: overwrites the bytes with random ones and keeps
/// their number. Which bytes come is left to chance. The generator panics where the operating
/// system gives it no seed.
#[verifier::external_body]
fn fill_random(bs: &mut Vec<u8>)
    ensures
        final(bs)@.len() == old(bs)@.len(),
{
    rand::thread_rng().fill_bytes(bs.as_mut_slice());
}

/// As many random bytes as make a salt.
pub(crate) fn random_bytes() -> (r: Vec<u8>)
    ensures
        r@.len() == SALT_LEN,
{
    let mut bs: Vec<u8> = vec![0u8;SALT_LEN];
    fill_random(&mut bs);
    bs
}

/// Whatever the bytes, what they make is a salt.
pub proof fn scrambled_is_salt(bs: Seq<u8>)
    ensures
        is_salt(scrambled(bs)),
{
}

/// Making a salt of a salt changes nothing. So every salt can come out.
pub proof fn salt_is_stable(salt: Seq<u8>)
    requires
        is_salt(salt),
    ensures
        scrambled(salt) == salt,
{
    assert forall|i: int| 0 <= i < salt.len() implies scrambled(salt)[i] == salt[i] by {
        assert(is_salt_byte(salt[i]));
    }
    assert(scrambled(salt) =~= salt);
}

/// A salt has one byte of each of the first twenty bytes that it is made of: the lower seven bits
/// of that byte, but one more where they are NUL or `$`. So no byte of it is NUL, `$` or beyond
/// ASCII, and the byte at a place depends on the given byte at that place alone.
pub proof fn salt_bytes(bs: &[u8], salt: [u8; 20], i: int)
    requires
        call_ensures(scramble, (bs,), salt),
        bs@.len() >= 20,
        0 <= i < 20,
    ensures
        0 < salt@[i] < 128,
        salt@[i] != '$' as u8,
        bs@[i] % 128 != 0 && bs@[i] % 128 != '$' as u8 ==> salt@[i] == bs@[i] % 128,
        bs@[i] % 128 == 0 || bs@[i] % 128 == '$' as u8 ==> salt@[i] == bs@[i] % 128 + 1,
{
    assert(is_salt_byte(salt@[i]));
}

} // verus!
