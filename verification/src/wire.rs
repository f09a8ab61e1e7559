//! Reading the Protobuf wire format, as far as the envelope of an
//! Ethereum-keyed account needs it: varints, field keys, and passing over
//! the value of a field of any wire type, groups included.

use vstd::prelude::*;

verus! {

/// 128 to the power of `i`.
pub open spec fn pow128(i: int) -> int
    decreases i,
{
    if i <= 0 {
        1
    } else {
        128 * pow128(i - 1)
    }
}

/// The number that the low seven bits of the `n` bytes from `at` on write,
/// least significant group first.
pub open spec fn varint_value(bytes: Seq<u8>, at: int, n: int) -> int
    decreases n,
{
    if n <= 0 {
        0
    } else {
        varint_value(bytes, at, n - 1) + (bytes[at + n - 1] % 128) * pow128(n - 1)
    }
}

/// The length of the varint at `at`, given that its first `k` bytes have the
/// continuation bit set. A varint ends with the first byte below 128, has at
/// most ten bytes, and its tenth byte is 0 or 1.
pub open spec fn varint_len_from(bytes: Seq<u8>, at: int, k: int) -> Option<int>
    decreases 10 - k,
{
    if k < 0 || k >= 10 || at + k >= bytes.len() {
        None
    } else if bytes[at + k] < 128 {
        if k == 9 && bytes[at + k] >= 2 {
            None
        } else {
            Some(k + 1)
        }
    } else {
        varint_len_from(bytes, at, k + 1)
    }
}

/// The varint at `at`: its value and the index behind it.
pub open spec fn varint_at(bytes: Seq<u8>, at: int) -> Option<(u64, int)> {
    match varint_len_from(bytes, at, 0) {
        Some(n) => Some((varint_value(bytes, at, n) as u64, at + n)),
        None => None,
    }
}

/// The wire type of a value that is a varint.
pub const WIRE_VARINT: u64 = 0;

/// The wire type of a value of eight bytes.
pub const WIRE_FIXED64: u64 = 1;

/// The wire type of a value that is a length and so many bytes.
pub const WIRE_LENGTH_DELIMITED: u64 = 2;

/// The wire type of the marker that opens a group.
pub const WIRE_START_GROUP: u64 = 3;

/// The wire type of the marker that closes a group.
pub const WIRE_END_GROUP: u64 = 4;

/// The wire type of a value of four bytes.
pub const WIRE_FIXED32: u64 = 5;

/// How many values may be nested in one another before a reader gives up.
pub const RECURSION_LIMIT: u32 = 100;

/// The key of a field: its number, how its value is laid out, and where the
/// value starts.
#[derive(Debug, Clone, Copy, PartialEq, Eq, Structural)]
pub struct Key {
    /// The field's number, at least 1.
    pub tag: u32,
    /// One of the six wire types.
    pub wire_type: u64,
    /// The index behind the key.
    pub next: usize,
}

/// The key at `at`: a varint of at most 32 bits whose low three bits are a
/// wire type and whose other bits are a field number that is not 0.
pub open spec fn key_at(bytes: Seq<u8>, at: int) -> Option<Key> {
    match varint_at(bytes, at) {
        None => None,
        Some((key, next)) => if key > u32::MAX || key % 8 > 5 || key / 8 == 0 {
            None
        } else {
            Some(Key { tag: (key / 8) as u32, wire_type: key % 8, next: next as usize })
        },
    }
}

/// The index behind the value of a field whose key ends at `at`. `budget` is
/// how many levels of nesting the reader may still enter; a value is not
/// read with a budget of 0. A group is read up to the marker that closes it,
/// with one level less for the fields inside. `None` where the value is
/// cut short, is a closing marker without its group, or nests too deep.
pub open spec fn value_end(bytes: Seq<u8>, at: int, wire_type: u64, tag: u32, budget: nat) -> Option<
    int,
>
    decreases bytes.len() - at, 1nat,
{
    if budget == 0 || at < 0 || at > bytes.len() {
        None
    } else if wire_type == WIRE_VARINT {
        match varint_at(bytes, at) {
            Some((value, end)) => Some(end),
            None => None,
        }
    } else if wire_type == WIRE_FIXED64 {
        if at + 8 <= bytes.len() {
            Some(at + 8)
        } else {
            None
        }
    } else if wire_type == WIRE_FIXED32 {
        if at + 4 <= bytes.len() {
            Some(at + 4)
        } else {
            None
        }
    } else if wire_type == WIRE_LENGTH_DELIMITED {
        match varint_at(bytes, at) {
            Some((len, start)) => if start + len <= bytes.len() {
                Some(start + len)
            } else {
                None
            },
            None => None,
        }
    } else if wire_type == WIRE_START_GROUP {
        group_end(bytes, at, tag, (budget - 1) as nat)
    } else {
        None
    }
}

/// The index behind the marker that closes the group of number `tag` whose
/// fields start at `at`; the fields are read with `budget`. `None` where a
/// field inside is malformed or the group is closed under another number or
/// not at all.
pub open spec fn group_end(bytes: Seq<u8>, at: int, tag: u32, budget: nat) -> Option<int>
    decreases bytes.len() - at, 0nat,
{
    match key_at(bytes, at) {
        None => None,
        Some(key) => if key.next <= at || key.next > bytes.len() {
            None
        } else if key.wire_type == WIRE_END_GROUP {
            if key.tag == tag {
                Some(key.next as int)
            } else {
                None
            }
        } else {
            match value_end(bytes, key.next as int, key.wire_type, key.tag, budget) {
                Some(after) => if after <= at || after > bytes.len() {
                    None
                } else {
                    group_end(bytes, after, tag, budget)
                },
                None => None,
            }
        },
    }
}

proof fn lemma_varint_value_bound(bytes: Seq<u8>, at: int, n: int)
    requires
        0 <= n,
    ensures
        0 <= varint_value(bytes, at, n) < pow128(n),
        pow128(n) > 0,
    decreases n,
{
    if n > 0 {
        lemma_varint_value_bound(bytes, at, n - 1);
        let digit = (bytes[at + n - 1] % 128) as int;
        let scale = pow128(n - 1);
        assert(0 <= digit * scale <= 127 * scale) by (nonlinear_arith)
            requires
                0 <= digit <= 127,
                scale > 0,
        ;
    }
}

proof fn lemma_pow128_values()
    ensures
        pow128(0) == 1,
        pow128(1) == 0x80,
        pow128(2) == 0x4000,
        pow128(3) == 0x20_0000,
        pow128(4) == 0x1000_0000,
        pow128(5) == 0x8_0000_0000,
        pow128(6) == 0x400_0000_0000,
        pow128(7) == 0x2_0000_0000_0000,
        pow128(8) == 0x100_0000_0000_0000,
        pow128(9) == 0x8000_0000_0000_0000,
{
    reveal_with_fuel(pow128, 11);
}

/// Reads the varint at `at`.
pub fn read_varint(bytes: &[u8], at: usize) -> (r: Option<(u64, usize)>)
    ensures
        match r {
            Some((value, next)) => varint_at(bytes@, at as int) == Some((value, next as int)) && at
                < next <= bytes.len(),
            None => varint_at(bytes@, at as int).is_none(),
        },
{
    let mut k: usize = 0;
    let mut value: u64 = 0;
    let mut scale: u64 = 1;
    proof {
        lemma_pow128_values();
    }
    while k < 10
        invariant
            k <= 10,
            k < 10 ==> scale == pow128(k as int),
            value == varint_value(bytes@, at as int, k as int),
            k < 10 ==> value < scale,
            varint_len_from(bytes@, at as int, 0) == varint_len_from(bytes@, at as int, k as int),
        decreases 10 - k,
    {
        if at >= bytes.len() || k >= bytes.len() - at {
            return None;
        }
        let byte = bytes[at + k];
        proof {
            lemma_pow128_values();
            lemma_varint_value_bound(bytes@, at as int, k as int);
            assert(scale <= 0x8000_0000_0000_0000);
            assert((byte % 128) * scale <= 127 * scale) by (nonlinear_arith)
                requires
                    0 <= byte % 128 <= 127,
                    scale >= 0,
            ;
        }
        if byte < 128 {
            if k == 9 && byte >= 2 {
                return None;
            }
            assert(k == 9 ==> (byte % 128) * scale <= scale) by (nonlinear_arith)
                requires
                    k == 9 ==> byte % 128 <= 1,
                    scale >= 0,
            ;
            let total: u64 = value + (byte as u64) * scale;
            assert(total == varint_value(bytes@, at as int, k + 1));
            return Some((total, at + k + 1));
        }
        if k == 9 {
            assert(varint_len_from(bytes@, at as int, 10).is_none());
            return None;
        }
        value = value + ((byte % 128) as u64) * scale;
        proof {
            lemma_pow128_values();
        }
        scale = scale * 128;
        k += 1;
    }
    None
}

/// Reads the key at `at`.
pub fn read_key(bytes: &[u8], at: usize) -> (r: Option<Key>)
    ensures
        r == key_at(bytes@, at as int),
        r matches Some(key) ==> at < key.next <= bytes.len() && key.tag >= 1 && key.wire_type <= 5,
{
    match read_varint(bytes, at) {
        Some((key, next)) => if key > u32::MAX as u64 || key % 8 > 5 || key / 8 == 0 {
            None
        } else {
            Some(Key { tag: (key / 8) as u32, wire_type: key % 8, next })
        },
        None => None,
    }
}

/// Passes over the value of a field whose key ends at `at` and hands out
/// the index behind it.
pub fn skip_value(bytes: &[u8], at: usize, wire_type: u64, tag: u32, budget: u32) -> (r: Option<
    usize,
>)
    ensures
        match r {
            Some(end) => value_end(bytes@, at as int, wire_type, tag, budget as nat) == Some(
                end as int,
            ) && at <= end <= bytes.len(),
            None => value_end(bytes@, at as int, wire_type, tag, budget as nat).is_none(),
        },
    decreases bytes.len() - at, 1nat,
{
    if budget == 0 || at > bytes.len() {
        return None;
    }
    if wire_type == WIRE_VARINT {
        match read_varint(bytes, at) {
            Some((_, end)) => Some(end),
            None => None,
        }
    } else if wire_type == WIRE_FIXED64 {
        if bytes.len() - at >= 8 {
            Some(at + 8)
        } else {
            None
        }
    } else if wire_type == WIRE_FIXED32 {
        if bytes.len() - at >= 4 {
            Some(at + 4)
        } else {
            None
        }
    } else if wire_type == WIRE_LENGTH_DELIMITED {
        match read_varint(bytes, at) {
            Some((len, start)) => if len <= (bytes.len() - start) as u64 {
                Some(start + len as usize)
            } else {
                None
            },
            None => None,
        }
    } else if wire_type == WIRE_START_GROUP {
        skip_group(bytes, at, tag, budget - 1)
    } else {
        None
    }
}

/// Passes over the fields of a group of number `tag` that start at `at`,
/// and over the marker that closes it.
pub fn skip_group(bytes: &[u8], at: usize, tag: u32, budget: u32) -> (r: Option<usize>)
    requires
        at <= bytes.len(),
    ensures
        match r {
            Some(end) => group_end(bytes@, at as int, tag, budget as nat) == Some(end as int) && at
                < end <= bytes.len(),
            None => group_end(bytes@, at as int, tag, budget as nat).is_none(),
        },
    decreases bytes.len() - at, 0nat,
{
    let mut cur: usize = at;
    loop
        invariant
            at <= cur <= bytes.len(),
            group_end(bytes@, at as int, tag, budget as nat) == group_end(
                bytes@,
                cur as int,
                tag,
                budget as nat,
            ),
        decreases bytes.len() - cur,
    {
        let key = match read_key(bytes, cur) {
            Some(key) => key,
            None => {
                return None;
            },
        };
        if key.wire_type == WIRE_END_GROUP {
            if key.tag == tag {
                return Some(key.next);
            }
            return None;
        }
        match skip_value(bytes, key.next, key.wire_type, key.tag, budget) {
            Some(after) => {
                cur = after;
            },
            None => {
                return None;
            },
        }
    }
}

/// Appends the bytes from `start` up to `end` to `out`.
pub fn append_range(out: &mut Vec<u8>, bytes: &[u8], start: usize, end: usize)
    requires
        start <= end <= bytes.len(),
    ensures
        final(out)@ == old(out)@ + bytes@.subrange(start as int, end as int),
{
    let mut i: usize = start;
    while i < end
        invariant
            start <= i <= end <= bytes.len(),
            out@ == old(out)@ + bytes@.subrange(start as int, i as int),
        decreases end - i,
    {
        out.push(bytes[i]);
        i += 1;
        assert(out@ =~= old(out)@ + bytes@.subrange(start as int, i as int));
    }
}

} // verus!
