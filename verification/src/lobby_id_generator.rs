//! The lobby id generator: a wrapping counter whose radix-32 digits are run
//! through a keyed format-preserving permutation, so that consecutive counter
//! values map to unrelated-looking four-character codes, then remapped into an
//! alphabet that avoids the characters 0 and 1.

use crate::text::{ascii_chars_of, lemma_ascii_bytes_decode};
use crate::LOBBY_ID_LEN;
use vstd::prelude::*;

verus! {

/// The number of distinct digit values at each id position.
pub const LOBBY_ID_RADIX: u32 = 32;

/// The radix-32 digit of a counter value at one of the four positions,
/// lowest first.
pub open spec fn counter_digit(c: u32, i: int) -> u16 {
    (((c as nat) / (if i == 0 {
        1nat
    } else if i == 1 {
        32nat
    } else if i == 2 {
        1024nat
    } else {
        32768nat
    })) % 32) as u16
}

/// The four radix-32 digits of a counter value, lowest first.
pub open spec fn counter_numerals(c: u32) -> Seq<u16> {
    Seq::new(LOBBY_ID_LEN as nat, |i: int| counter_digit(c, i))
}

/// The byte one encrypted numeral maps to: the digits two to nine for
/// numerals below eight, then letters from A on, so that an id never holds
/// the characters 0 and 1, which could be mixed up with O and I.
pub open spec fn numeral_byte(n: u16) -> u8 {
    if n < 8 {
        (n + 50) as u8
    } else {
        (n + 57) as u8
    }
}

/// The bytes a numeral string maps to.
pub open spec fn id_bytes_of(ns: Seq<u16>) -> Seq<u8> {
    ns.map_values(|n: u16| numeral_byte(n))
}

/// The characters a numeral string maps to.
pub open spec fn id_chars_of(ns: Seq<u16>) -> Seq<char> {
    ascii_chars_of(id_bytes_of(ns))
}

/// What fpe's FF1 encryption at radix 32 under an AES-256 key returns for a
/// numeral string: a function of the key and the string alone.
pub uninterp spec fn ff1_encrypt_radix32(key: Seq<u8>, numerals: Seq<u16>) -> Seq<u16>;

/// Relies on fpe's FF1 with an AES-256 cipher at radix 32: `encrypt` is
/// deterministic in the key and the numeral string, format-preserving (one
/// output numeral below the radix per input numeral), and succeeds on every
/// string of at least four numerals below the radix.
#[verifier::external_body]
fn ff1_encrypt(key: &[u8; 32], numerals: &Vec<u16>) -> (r: Vec<u16>)
    requires
        numerals@.len() == LOBBY_ID_LEN,
        forall|i: int| 0 <= i < numerals@.len() ==> numerals@[i] < 32,
    ensures
        r@ == ff1_encrypt_radix32(key@, numerals@),
        r@.len() == numerals@.len(),
        forall|i: int| 0 <= i < r@.len() ==> r@[i] < 32,
{
    let ff1 = fpe::ff1::FF1::<aes::Aes256>::new(key, LOBBY_ID_RADIX).unwrap();
    let input = fpe::ff1::FlexibleNumeralString::from(numerals.clone());
    Vec::from(ff1.encrypt(&[], &input).unwrap())
}

/// Produces unpredictable, unique, fixed-length lobby ids from a wrapping
/// counter and a key chosen once at process start.
pub struct LobbyIdGenerator {
    pub id_count: u32,
    pub key: [u8; 32],
}

impl LobbyIdGenerator {
    /// The id that a counter value maps to under a key.
    pub open spec fn spec_id(key: Seq<u8>, count: u32) -> Seq<char> {
        id_chars_of(ff1_encrypt_radix32(key, counter_numerals(count)))
    }

    /// A generator that starts at counter zero under the given key.
    pub fn new(key: &[u8; 32]) -> (r: Self)
        ensures
            r.id_count == 0,
            r.key@ == key@,
    {
        LobbyIdGenerator { id_count: 0, key: *key }
    }

    /// Returns the id of the current counter value and steps the counter on,
    /// wrapping at its width: after the wrap the same ids repeat, which
    /// callers accept because a lobby is long closed by the time its id comes
    /// round again.
    pub fn next_id(&mut self) -> (r: String)
        ensures
            r@ == Self::spec_id(old(self).key@, old(self).id_count),
            r@.len() == LOBBY_ID_LEN,
            final(self).key == old(self).key,
            final(self).id_count == if old(self).id_count == u32::MAX {
                0u32
            } else {
                (old(self).id_count + 1) as u32
            },
    {
        let c = self.id_count;
        let mut numerals: Vec<u16> = Vec::new();
        numerals.push((c % 32) as u16);
        numerals.push(((c / 32) % 32) as u16);
        numerals.push(((c / 1024) % 32) as u16);
        numerals.push(((c / 32768) % 32) as u16);
        proof {
            assert(numerals@ =~= counter_numerals(c));
        }
        self.id_count = self.id_count.wrapping_add(1);
        let encrypted = ff1_encrypt(&self.key, &numerals);
        let ghost encrypted_view = encrypted@;
        let mut id_bytes: Vec<u8> = Vec::new();
        let mut i: usize = 0;
        while i < encrypted.len()
            invariant
                i <= encrypted@.len(),
                encrypted@ == encrypted_view,
                forall|j: int| 0 <= j < encrypted@.len() ==> encrypted@[j] < 32,
                id_bytes@ == id_bytes_of(encrypted@.take(i as int)),
            decreases encrypted@.len() - i,
        {
            let n = encrypted[i];
            let b = if n < 8 {
                n as u8 + 50
            } else {
                n as u8 + 57
            };
            id_bytes.push(b);
            i = i + 1;
            proof {
                assert(id_bytes_of(encrypted@.take(i as int)) =~= id_bytes_of(
                    encrypted@.take(i as int - 1),
                ).push(numeral_byte(encrypted@[i as int - 1])));
            }
        }
        proof {
            assert(encrypted@.take(encrypted@.len() as int) =~= encrypted@);
            assert(forall|j: int|
                0 <= j < id_bytes@.len() ==> #[trigger] id_bytes@[j] == numeral_byte(
                    encrypted@[j],
                ));
            assert(forall|j: int| 0 <= j < id_bytes@.len() ==> id_bytes@[j] < 0x80);
            lemma_ascii_bytes_decode(id_bytes@);
        }
        match std::str::from_utf8(id_bytes.as_slice()) {
            Ok(s) => s.to_owned(),
            Err(_) => vstd::pervasive::unreached(),
        }
    }
}

/// Ids repeat with the counter's period: two counter values with the same low
/// twenty bits, the four radix-32 digits, generate the same id under any key.
/// Together with the generator's wrap this bounds the id space at the radix
/// raised to the id length.
pub proof fn lemma_id_period(key: Seq<u8>, c1: u32, c2: u32)
    requires
        c1 % 0x100000 == c2 % 0x100000,
    ensures
        LobbyIdGenerator::spec_id(key, c1) == LobbyIdGenerator::spec_id(key, c2),
{
    assert(c1 % 32 == c2 % 32 && (c1 / 32) % 32 == (c2 / 32) % 32 && (c1 / 1024) % 32 == (c2
        / 1024) % 32 && (c1 / 32768) % 32 == (c2 / 32768) % 32) by (bit_vector)
        requires
            c1 % 0x100000 == c2 % 0x100000,
    ;
    assert(counter_numerals(c1) =~= counter_numerals(c2));
}

} // verus!
