//! Big-endian numbers in byte sequences.

use vstd::prelude::*;

verus! {

/// The number that the bytes of `s` spell, most significant byte first.
pub open spec fn be_value(s: Seq<u8>) -> nat
    decreases s.len(),
{
    if s.len() == 0 {
        0
    } else {
        be_value(s.drop_last()) * 256 + s.last() as nat
    }
}

/// `s` followed by as many zero bytes as it lacks to `n` bytes.
pub open spec fn zero_extended(s: Seq<u8>, n: nat) -> Seq<u8> {
    Seq::new(
        if s.len() >= n {
            s.len()
        } else {
            n
        },
        |i: int|
            if i < s.len() {
                s[i]
            } else {
                0u8
            },
    )
}

/// Largest number that `n` bytes can spell, plus one.
pub open spec fn be_limit(n: nat) -> nat
    decreases n,
{
    if n == 0 {
        1
    } else {
        256 * be_limit((n - 1) as nat)
    }
}

/// `n` bytes spell a number below `256` to the `n`.
pub proof fn lemma_be_value_bound(s: Seq<u8>)
    ensures
        be_value(s) < be_limit(s.len()),
    decreases s.len(),
{
    if s.len() > 0 {
        lemma_be_value_bound(s.drop_last());
    }
}

/// Eight bytes spell a number that fits into 64 bits.
pub proof fn lemma_be_limit_8()
    ensures
        be_limit(8) == 0x1_0000_0000_0000_0000,
{
    reveal_with_fuel(be_limit, 9);
}

/// Reads the big-endian number in the eight bytes of `bytes` from `at` on.
pub fn read_be_u64(bytes: &[u8], at: usize) -> (r: u64)
    requires
        at + 8 <= bytes@.len(),
    ensures
        r == be_value(bytes@.subrange(at as int, at + 8)),
{
    let ghost window = bytes@.subrange(at as int, at + 8);
    let n: usize = bytes.len();
    let mut acc: u64 = 0;
    let mut i: usize = 0;
    proof {
        assert(window.take(0) =~= Seq::<u8>::empty());
    }
    while i < 8
        invariant
            n == bytes@.len(),
            at + 8 <= n,
            window == bytes@.subrange(at as int, at + 8),
            i <= 8,
            acc == be_value(window.take(i as int)),
        decreases 8 - i,
    {
        proof {
            lemma_be_value_bound(window.take(i as int));
            lemma_be_value_bound(window.take(i + 1));
            lemma_be_limit_8();
            reveal_with_fuel(be_limit, 9);
            assert(window.take(i + 1).drop_last() =~= window.take(i as int));
            assert(window.take(i + 1).last() == bytes@[at + i]);
            lemma_be_limit_monotonic((i + 1) as nat, 8);
        }
        acc = acc * 256 + bytes[at + i] as u64;
        i += 1;
    }
    proof {
        assert(window.take(8) =~= window);
    }
    acc
}

/// Reads the big-endian number in the four bytes of `bytes` from `at` on.
pub fn read_be_u32(bytes: &[u8], at: usize) -> (r: u32)
    requires
        at + 4 <= bytes@.len(),
    ensures
        r == be_value(bytes@.subrange(at as int, at + 4)),
{
    let ghost window = bytes@.subrange(at as int, at + 4);
    let n: usize = bytes.len();
    let mut acc: u32 = 0;
    let mut i: usize = 0;
    proof {
        assert(window.take(0) =~= Seq::<u8>::empty());
    }
    while i < 4
        invariant
            n == bytes@.len(),
            at + 4 <= n,
            window == bytes@.subrange(at as int, at + 4),
            i <= 4,
            acc == be_value(window.take(i as int)),
        decreases 4 - i,
    {
        proof {
            lemma_be_value_bound(window.take(i as int));
            lemma_be_value_bound(window.take(i + 1));
            reveal_with_fuel(be_limit, 5);
            assert(window.take(i + 1).drop_last() =~= window.take(i as int));
            assert(window.take(i + 1).last() == bytes@[at + i]);
            lemma_be_limit_monotonic((i + 1) as nat, 4);
        }
        acc = acc * 256 + bytes[at + i] as u32;
        i += 1;
    }
    proof {
        assert(window.take(4) =~= window);
    }
    acc
}

/// More bytes can spell larger numbers.
pub proof fn lemma_be_limit_monotonic(a: nat, b: nat)
    requires
        a <= b,
    ensures
        be_limit(a) <= be_limit(b),
    decreases b - a,
{
    if a < b {
        lemma_be_limit_monotonic(a, (b - 1) as nat);
        assert(be_limit(b) == 256 * be_limit((b - 1) as nat));
    }
}

/// Reads a machine word from up to eight bytes, most significant byte
/// first. Fewer than eight bytes are taken as the leading bytes of the word,
/// and the bytes that lack are zero. On a machine whose words are shorter
/// than eight bytes, the word is the low part of the number.
pub fn bytes_to_usize(bytes: &[u8]) -> (r: usize)
    requires
        bytes@.len() <= 8,
    ensures
        r == be_value(zero_extended(bytes@, 8)) as usize,
        usize::BITS == 64 ==> r == be_value(zero_extended(bytes@, 8)),
{
    let ghost word = zero_extended(bytes@, 8);
    let n: usize = bytes.len();
    let mut acc: u64 = 0;
    let mut i: usize = 0;
    proof {
        assert(word.take(0) =~= Seq::<u8>::empty());
    }
    while i < 8
        invariant
            n == bytes@.len(),
            n <= 8,
            word == zero_extended(bytes@, 8),
            i <= 8,
            acc == be_value(word.take(i as int)),
        decreases 8 - i,
    {
        proof {
            lemma_be_value_bound(word.take(i as int));
            lemma_be_value_bound(word.take(i + 1));
            lemma_be_limit_8();
            assert(word.take(i + 1).drop_last() =~= word.take(i as int));
            lemma_be_limit_monotonic((i + 1) as nat, 8);
        }
        let byte: u8 = if i < n {
            bytes[i]
        } else {
            0
        };
        acc = acc * 256 + byte as u64;
        i += 1;
    }
    proof {
        assert(word.take(8) =~= word);
    }
    acc as usize
}

} // verus!
