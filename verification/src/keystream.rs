//! The stream cipher of the audio payload: a key schedule over a table of
//! 256 bytes, a keystream of 256 bytes taken from that table once, and the
//! XOR of the payload with the keystream, repeated as often as needed.

use vstd::prelude::*;

verus! {

/// The table before the key schedule: entry `i` holds `i`.
pub open spec fn identity_table() -> Seq<u8> {
    Seq::new(256, |i: int| i as u8)
}

/// `table` with the entries at `i` and `j` exchanged.
pub open spec fn swapped(table: Seq<u8>, i: int, j: int) -> Seq<u8> {
    table.update(i, table[j]).update(j, table[i])
}

/// The table and the accumulator after the first `steps` steps of the key
/// schedule. Step `i` adds entry `i` and key byte `i mod key.len()` to the
/// accumulator, modulo 256, and exchanges entry `i` with the entry at the
/// accumulator.
pub open spec fn scheduled(key: Seq<u8>, steps: nat) -> (Seq<u8>, int)
    decreases steps,
{
    if steps == 0 {
        (identity_table(), 0)
    } else {
        let (table, j) = scheduled(key, (steps - 1) as nat);
        let i = steps - 1;
        let next = (table[i] + j + key[i % (key.len() as int)]) % 256;
        (swapped(table, i, next), next)
    }
}

/// The table that the key schedule leaves. With no key material nothing is
/// exchanged.
pub open spec fn key_table(key: Seq<u8>) -> Seq<u8> {
    if key.len() == 0 {
        identity_table()
    } else {
        scheduled(key, 256).0
    }
}

/// Byte `p` of the keystream that `table` gives: with `i = (p + 1) mod 256`,
/// `j = table[i]` and `k = table[(i + j) mod 256]`, it is
/// `table[(j + k) mod 256]`.
pub open spec fn keystream_byte(table: Seq<u8>, p: int) -> u8 {
    let i = (p + 1) % 256;
    let j = table[i] as int;
    let k = table[(i + j) % 256] as int;
    table[(j + k) % 256]
}

/// The 256 bytes of keystream that `table` gives.
pub open spec fn keystream_of(table: Seq<u8>) -> Seq<u8> {
    Seq::new(256, |p: int| keystream_byte(table, p))
}

/// The keystream that belongs to a key.
pub open spec fn keystream(key: Seq<u8>) -> Seq<u8> {
    keystream_of(key_table(key))
}

/// `data` with byte `p` XORed with byte `p mod 256` of `stream`.
pub open spec fn masked(stream: Seq<u8>, data: Seq<u8>) -> Seq<u8> {
    Seq::new(data.len(), |p: int| data[p] ^ stream[p % 256])
}

/// What the cipher makes of `data` under `key`.
pub open spec fn ciphered(key: Seq<u8>, data: Seq<u8>) -> Seq<u8> {
    masked(keystream(key), data)
}

/// Runs the key schedule.
pub fn key_schedule(key: &[u8]) -> (table: Vec<u8>)
    ensures
        table@ == key_table(key@),
        table@.len() == 256,
{
    let mut table: Vec<u8> = Vec::with_capacity(256);
    let mut n: usize = 0;
    while n < 256
        invariant
            n <= 256,
            table@.len() == n,
            forall|k: int| 0 <= k < n ==> #[trigger] table@[k] == k as u8,
        decreases 256 - n,
    {
        table.push(n as u8);
        n = n + 1;
    }
    if key.len() == 0 {
        return table;
    }
    let mut j: u8 = 0;
    let mut i: usize = 0;
    while i < 256
        invariant
            i <= 256,
            key@.len() > 0,
            table@.len() == 256,
            (table@, j as int) == scheduled(key@, i as nat),
        decreases 256 - i,
    {
        let key_byte = key[i % key.len()];
        let sum: u32 = table[i] as u32 + j as u32 + key_byte as u32;
        let next: u8 = (sum % 256) as u8;
        let held = table[i];
        let other = table[next as usize];
        proof {
            assert(scheduled(key@, (i + 1) as nat) == (
                swapped(table@, i as int, next as int),
                next as int,
            ));
        }
        table.set(i, other);
        table.set(next as usize, held);
        j = next;
        i = i + 1;
    }
    table
}

/// Takes the keystream from a scheduled table.
pub fn derive_keystream(table: &Vec<u8>) -> (stream: Vec<u8>)
    requires
        table@.len() == 256,
    ensures
        stream@ == keystream_of(table@),
        stream@.len() == 256,
{
    let mut stream: Vec<u8> = Vec::with_capacity(256);
    let mut p: usize = 0;
    while p < 256
        invariant
            p <= 256,
            table@.len() == 256,
            stream@.len() == p,
            forall|q: int| 0 <= q < p ==> #[trigger] stream@[q] == keystream_byte(table@, q),
        decreases 256 - p,
    {
        let i: usize = (p + 1) % 256;
        let j: usize = table[i] as usize;
        let k: usize = table[(i + j) % 256] as usize;
        stream.push(table[(j + k) % 256]);
        p = p + 1;
    }
    stream
}

/// XORs `data` in place with the keystream, repeated from offset 0 on.
pub fn apply_keystream(stream: &Vec<u8>, data: &mut Vec<u8>)
    requires
        stream@.len() == 256,
    ensures
        final(data)@ == masked(stream@, old(data)@),
{
    let len = data.len();
    let mut p: usize = 0;
    while p < len
        invariant
            p <= len,
            stream@.len() == 256,
            data@.len() == len,
            len == old(data)@.len(),
            forall|q: int| 0 <= q < p ==> #[trigger] data@[q] == old(data)@[q] ^ stream@[q % 256],
            forall|q: int| p <= q < len ==> #[trigger] data@[q] == old(data)@[q],
        decreases len - p,
    {
        let byte = data[p] ^ stream[p % 256];
        data.set(p, byte);
        p = p + 1;
    }
}

/// Deciphers, or enciphers, `data` in place under `key`.
pub fn cipher_in_place(key: &[u8], data: &mut Vec<u8>)
    ensures
        final(data)@ == ciphered(key@, old(data)@),
{
    let table = key_schedule(key);
    let stream = derive_keystream(&table);
    apply_keystream(&stream, data);
}

/// The mask is its own inverse: applied twice, it gives the data back.
pub proof fn lemma_masked_twice(stream: Seq<u8>, data: Seq<u8>)
    ensures
        masked(stream, masked(stream, data)) == data,
{
    assert forall|p: int| 0 <= p < data.len() implies #[trigger] masked(
        stream,
        masked(stream, data),
    )[p] == data[p] by {
        let a = data[p];
        let b = stream[p % 256];
        assert((a ^ b) ^ b == a) by (bit_vector);
    }
}

/// The cipher is its own inverse: a keystream derived afresh from the same
/// key gives the plain data back from the ciphered data, and the ciphered
/// data back from the plain.
pub proof fn lemma_cipher_round_trip(key: Seq<u8>, data: Seq<u8>)
    ensures
        ciphered(key, ciphered(key, data)) == data,
        ciphered(key, data).len() == data.len(),
{
    lemma_masked_twice(keystream(key), data);
}

} // verus!
