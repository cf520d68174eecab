//! The lattice: 128 binary cells, addressed by index 0..=127.
//!
//! A lattice is modelled as a `Seq<u8>` of length 128 whose entry `i` is the
//! cell at index `i`. It has two concrete forms. In the packed form, bit `i`
//! of a `u128` holds cell `i`. In the sequence form the cells are listed from
//! index 127 down to index 0, so that the sequence reads like the packed
//! integer written out in binary, most significant bit first.

use vstd::prelude::*;

verus! {

/// Number of cells in a lattice.
pub const WIDTH: usize = 128;

/// `row` has exactly 128 entries, each of them 0 or 1. This is what makes a
/// `Seq<u8>` a lattice, and equally what makes it the sequence form of one.
pub open spec fn is_binary_row(row: Seq<u8>) -> bool {
    &&& row.len() == WIDTH
    &&& forall|i: int| 0 <= i < WIDTH ==> #[trigger] row[i] <= 1
}

/// The other ordering of the same 128 cells: entry `p` of the result is entry
/// `127 - p` of `row`. It turns a lattice into its sequence form and a
/// sequence form back into the lattice.
pub open spec fn mirrored(row: Seq<u8>) -> Seq<u8> {
    Seq::new(WIDTH as nat, |p: int| row[WIDTH - 1 - p])
}

/// The lattice whose cells all hold `value`.
pub open spec fn uniform(value: u8) -> Seq<u8> {
    Seq::new(WIDTH as nat, |i: int| value)
}

/// Bit `i` of `packed`, as a cell value.
pub open spec fn bit_at(packed: u128, i: int) -> u8 {
    if (packed >> (i as u128)) & 1 == 1 {
        1
    } else {
        0
    }
}

/// The lattice that `packed` stands for: cell `i` is bit `i`.
pub open spec fn unpack(packed: u128) -> Seq<u8> {
    Seq::new(WIDTH as nat, |i: int| bit_at(packed, i))
}

/// The integer whose bits below `k` are the cells of `l` below `k`, and whose
/// other bits are clear.
pub open spec fn pack_below(l: Seq<u8>, k: nat) -> u128
    decreases k,
{
    if k == 0 {
        0
    } else {
        pack_below(l, (k - 1) as nat) | ((l[k - 1] as u128) << ((k - 1) as u128))
    }
}

/// The packed form of lattice `l`.
pub open spec fn pack(l: Seq<u8>) -> u128 {
    pack_below(l, WIDTH as nat)
}

/// The integer whose bits below `k` are set and whose other bits are clear.
spec fn low_mask(k: nat) -> u128 {
    if k >= 128 {
        u128::MAX
    } else {
        ((1u128 << (k as u128)) - 1) as u128
    }
}

/// Mirroring twice gives the row back.
pub proof fn lemma_mirrored_twice(row: Seq<u8>)
    requires
        row.len() == WIDTH,
    ensures
        mirrored(mirrored(row)) == row,
{
}

/// Mirroring keeps a row of 128 binary cells a row of 128 binary cells.
pub proof fn lemma_mirrored_is_binary(row: Seq<u8>)
    requires
        is_binary_row(row),
    ensures
        is_binary_row(mirrored(row)),
{
}

/// Every packed integer stands for a lattice.
pub proof fn lemma_unpack_is_binary(packed: u128)
    ensures
        is_binary_row(unpack(packed)),
{
}

/// Packing the cells below `k` of an unpacked integer keeps exactly the bits
/// of that integer below `k`.
proof fn lemma_pack_below_unpack(packed: u128, k: nat)
    requires
        k <= WIDTH,
    ensures
        pack_below(unpack(packed), k) == packed & low_mask(k),
    decreases k,
{
    if k == 0 {
        assert(packed & (((1u128 << 0u128) - 1) as u128) == 0) by (bit_vector);
    } else {
        lemma_pack_below_unpack(packed, (k - 1) as nat);
        let j: u128 = (k - 1) as u128;
        let cell: u128 = unpack(packed)[k - 1] as u128;
        let below: u128 = low_mask((k - 1) as nat);
        let upto: u128 = low_mask(k);
        assert((packed & below) | (cell << j) == packed & upto) by (bit_vector)
            requires
                j < 128,
                cell == (if (packed >> j) & 1 == 1 {
                    1u128
                } else {
                    0u128
                }),
                below == ((1u128 << j) - 1) as u128,
                upto == (if j == 127 {
                    u128::MAX
                } else {
                    ((1u128 << ((j + 1) as u128)) - 1) as u128
                }),
        ;
    }
}

/// Unpacking and packing again gives the integer back.
pub proof fn lemma_pack_unpack(packed: u128)
    ensures
        pack(unpack(packed)) == packed,
{
    lemma_pack_below_unpack(packed, WIDTH as nat);
    assert(packed & u128::MAX == packed) by (bit_vector);
}

/// The bits below `k` of the packed cells below `k` are those cells, and no
/// bit from `k` on is set.
proof fn lemma_pack_below_bits(l: Seq<u8>, k: nat)
    requires
        is_binary_row(l),
        k <= WIDTH,
    ensures
        forall|i: int| 0 <= i < k ==> bit_at(pack_below(l, k), i) == #[trigger] l[i],
        k < WIDTH ==> pack_below(l, k) >> (k as u128) == 0,
    decreases k,
{
    if k == 0 {
        assert(0u128 >> 0u128 == 0) by (bit_vector);
    } else {
        lemma_pack_below_bits(l, (k - 1) as nat);
        let j: u128 = (k - 1) as u128;
        let cell: u128 = l[k - 1] as u128;
        let below: u128 = pack_below(l, (k - 1) as nat);
        assert forall|i: int| 0 <= i < k implies bit_at(pack_below(l, k), i) == #[trigger] l[i] by {
            let at: u128 = i as u128;
            if i == k - 1 {
                assert(((below | (cell << j)) >> j) & 1 == cell) by (bit_vector)
                    requires
                        j < 128,
                        cell <= 1,
                        below >> j == 0,
                ;
            } else {
                assert(((below | (cell << j)) >> at) & 1 == (below >> at) & 1) by (bit_vector)
                    requires
                        at < j,
                        j < 128,
                        cell <= 1,
                ;
            }
        }
        if k < WIDTH {
            let next: u128 = k as u128;
            assert((below | (cell << j)) >> next == 0) by (bit_vector)
                requires
                    j < 127,
                    next == j + 1,
                    cell <= 1,
                    below >> j == 0,
            ;
        }
    }
}

/// Packing a lattice and unpacking again gives the lattice back.
pub proof fn lemma_unpack_pack(l: Seq<u8>)
    requires
        is_binary_row(l),
    ensures
        unpack(pack(l)) == l,
{
    lemma_pack_below_bits(l, WIDTH as nat);
}

/// A packed integer survives the passage through the sequence form: unpacked,
/// written out as a sequence, read back and packed again, it is unchanged.
/// The sequence starts with the most significant bit.
pub proof fn lemma_packed_round_trip(packed: u128)
    ensures
        is_binary_row(mirrored(unpack(packed))),
        pack(mirrored(mirrored(unpack(packed)))) == packed,
        mirrored(unpack(packed))[0] == bit_at(packed, 127),
{
    lemma_unpack_is_binary(packed);
    lemma_mirrored_is_binary(unpack(packed));
    lemma_mirrored_twice(unpack(packed));
    lemma_pack_unpack(packed);
}

/// Reads bit `n` of `number`.
pub fn find_nth_bit(number: u128, n: usize) -> (bit: u8)
    requires
        n < WIDTH,
    ensures
        bit == bit_at(number, n as int),
{
    let low: u128 = (number >> n) & 1;
    assert((number >> n) & 1 <= 1) by (bit_vector);
    low as u8
}

} // verus!
