//! The classifier: which category an asset's numeric code falls into.
//!
//! Every asset is named after a chemical element and carries its atomic
//! number. The codes 1 to 119 are divided into four blocks, as in the periodic
//! table; each block has a weight and a fixed, ascending list of members.

use vstd::prelude::*;

verus! {

/// The weight of the first block.
pub const S_WEIGHT: u8 = 10;

/// The weight of the second block.
pub const P_WEIGHT: u8 = 20;

/// The weight of the third block.
pub const D_WEIGHT: u8 = 30;

/// The weight of the fourth block.
pub const F_WEIGHT: u8 = 40;

/// The members of the first block.
pub open spec fn s_block() -> Seq<u8> {
    seq![1u8, 2, 3, 4, 11, 12, 19, 20, 37, 38, 55, 56, 87, 88, 119]
}

/// The members of the second block.
pub open spec fn p_block() -> Seq<u8> {
    seq![
        5u8, 6, 7, 8, 9, 10, 13, 14, 15, 16, 17, 18, 31, 32, 33, 34, 35, 36, 49, 50, 51, 52, 53,
        54, 81, 82, 83, 84, 85, 86, 113, 114, 115, 116, 117, 118,
    ]
}

/// The members of the third block.
pub open spec fn d_block() -> Seq<u8> {
    seq![
        21u8, 22, 23, 24, 25, 26, 27, 28, 29, 30, 39, 40, 41, 42, 43, 44, 45, 46, 47, 48, 71, 72,
        73, 74, 75, 76, 77, 78, 79, 80, 103, 104, 105, 106, 107, 108, 109, 110, 111, 112,
    ]
}

/// The members of the fourth block.
pub open spec fn f_block() -> Seq<u8> {
    seq![
        57u8, 58, 59, 60, 61, 62, 63, 64, 65, 66, 67, 68, 69, 70, 89, 90, 91, 92, 93, 94, 95, 96,
        97, 98, 99, 100, 101, 102,
    ]
}

/// The weight and the size of the block that holds `atomic_number`, if any
/// does. The blocks are tried in order; the first that holds it wins.
pub open spec fn block_of(atomic_number: u8) -> Option<(u8, u8)> {
    if s_block().contains(atomic_number) {
        Some((S_WEIGHT, 15u8))
    } else if p_block().contains(atomic_number) {
        Some((P_WEIGHT, 36u8))
    } else if d_block().contains(atomic_number) {
        Some((D_WEIGHT, 40u8))
    } else if f_block().contains(atomic_number) {
        Some((F_WEIGHT, 28u8))
    } else {
        None
    }
}

/// How many of the four blocks hold `atomic_number`.
pub open spec fn blocks_holding(atomic_number: u8) -> int {
    (if s_block().contains(atomic_number) { 1int } else { 0 })
        + (if p_block().contains(atomic_number) { 1int } else { 0 })
        + (if d_block().contains(atomic_number) { 1int } else { 0 })
        + (if f_block().contains(atomic_number) { 1int } else { 0 })
}

/// Whether the members of `block` stand in strictly ascending order.
pub open spec fn ascending(block: Seq<u8>) -> bool {
    forall|i: int, j: int| 0 <= i < j < block.len() ==> block[i] < block[j]
}

spec fn in_s_range(n: int) -> bool {
    ||| 1 <= n <= 4
    ||| 11 <= n <= 12
    ||| 19 <= n <= 20
    ||| 37 <= n <= 38
    ||| 55 <= n <= 56
    ||| 87 <= n <= 88
    ||| n == 119
}

spec fn in_p_range(n: int) -> bool {
    ||| 5 <= n <= 10
    ||| 13 <= n <= 18
    ||| 31 <= n <= 36
    ||| 49 <= n <= 54
    ||| 81 <= n <= 86
    ||| 113 <= n <= 118
}

spec fn in_d_range(n: int) -> bool {
    ||| 21 <= n <= 30
    ||| 39 <= n <= 48
    ||| 71 <= n <= 80
    ||| 103 <= n <= 112
}

spec fn in_f_range(n: int) -> bool {
    ||| 57 <= n <= 70
    ||| 89 <= n <= 102
}

proof fn lemma_s_members(n: u8)
    ensures
        s_block().contains(n) <==> in_s_range(n as int),
{
    let b = s_block();
    assert forall|i: int| 0 <= i < b.len() implies in_s_range(#[trigger] b[i] as int) by {}
    if in_s_range(n as int) {
        let k: int = if n <= 4 {
            n - 1
        } else if n <= 12 {
            n - 7
        } else if n <= 20 {
            n - 13
        } else if n <= 38 {
            n - 29
        } else if n <= 56 {
            n - 45
        } else if n <= 88 {
            n - 75
        } else {
            14
        };
        assert(b[k] == n);
    }
}

proof fn lemma_p_members(n: u8)
    ensures
        p_block().contains(n) <==> in_p_range(n as int),
{
    let b = p_block();
    assert forall|i: int| 0 <= i < b.len() implies in_p_range(#[trigger] b[i] as int) by {}
    if in_p_range(n as int) {
        let k: int = if n <= 10 {
            n - 5
        } else if n <= 18 {
            n - 7
        } else if n <= 36 {
            n - 19
        } else if n <= 54 {
            n - 31
        } else if n <= 86 {
            n - 57
        } else {
            n - 83
        };
        assert(b[k] == n);
    }
}

proof fn lemma_d_members(n: u8)
    ensures
        d_block().contains(n) <==> in_d_range(n as int),
{
    let b = d_block();
    assert forall|i: int| 0 <= i < b.len() implies in_d_range(#[trigger] b[i] as int) by {}
    if in_d_range(n as int) {
        let k: int = if n <= 30 {
            n - 21
        } else if n <= 48 {
            n - 29
        } else if n <= 80 {
            n - 51
        } else {
            n - 73
        };
        assert(b[k] == n);
    }
}

proof fn lemma_f_members(n: u8)
    ensures
        f_block().contains(n) <==> in_f_range(n as int),
{
    let b = f_block();
    assert forall|i: int| 0 <= i < b.len() implies in_f_range(#[trigger] b[i] as int) by {}
    if in_f_range(n as int) {
        let k: int = if n <= 70 {
            n - 57
        } else {
            n - 75
        };
        assert(b[k] == n);
    }
}

/// The four blocks divide the codes 1 to 119 among themselves: each such code
/// lies in exactly one block, and a code outside that range lies in none.
pub proof fn blocks_partition(atomic_number: u8)
    ensures
        1 <= atomic_number <= 119 ==> blocks_holding(atomic_number) == 1,
        !(1 <= atomic_number <= 119) ==> blocks_holding(atomic_number) == 0,
        block_of(atomic_number) is Some <==> 1 <= atomic_number <= 119,
{
    lemma_s_members(atomic_number);
    lemma_p_members(atomic_number);
    lemma_d_members(atomic_number);
    lemma_f_members(atomic_number);
}

/// Each block lists its members in ascending order without a repeat, and the
/// size that `block_of` reports for a block is the length of its list.
pub proof fn blocks_sorted()
    ensures
        ascending(s_block()),
        ascending(p_block()),
        ascending(d_block()),
        ascending(f_block()),
        s_block().len() == 15,
        p_block().len() == 36,
        d_block().len() == 40,
        f_block().len() == 28,
{
}

/// The block that `block_of` names for a code is the one that holds it, with
/// the weight of that block and the number of its members.
pub proof fn block_of_names_holder(atomic_number: u8)
    ensures
        block_of(atomic_number) == Some((S_WEIGHT, 15u8)) <==> s_block().contains(atomic_number),
        block_of(atomic_number) == Some((P_WEIGHT, 36u8)) <==> p_block().contains(atomic_number),
        block_of(atomic_number) == Some((D_WEIGHT, 40u8)) <==> d_block().contains(atomic_number),
        block_of(atomic_number) == Some((F_WEIGHT, 28u8)) <==> f_block().contains(atomic_number),
{
    blocks_partition(atomic_number);
}

/// The four blocks, each as its list of members.
pub fn get_blocks_arrays() -> (blocks: ([u8; 15], [u8; 36], [u8; 40], [u8; 28]))
    ensures
        blocks.0@ == s_block(),
        blocks.1@ == p_block(),
        blocks.2@ == d_block(),
        blocks.3@ == f_block(),
{
    let s: [u8; 15] = [1, 2, 3, 4, 11, 12, 19, 20, 37, 38, 55, 56, 87, 88, 119];
    let p: [u8; 36] = [
        5, 6, 7, 8, 9, 10, 13, 14, 15, 16, 17, 18, 31, 32, 33, 34, 35, 36, 49, 50, 51, 52, 53, 54,
        81, 82, 83, 84, 85, 86, 113, 114, 115, 116, 117, 118,
    ];
    let d: [u8; 40] = [
        21, 22, 23, 24, 25, 26, 27, 28, 29, 30, 39, 40, 41, 42, 43, 44, 45, 46, 47, 48, 71, 72, 73,
        74, 75, 76, 77, 78, 79, 80, 103, 104, 105, 106, 107, 108, 109, 110, 111, 112,
    ];
    let f: [u8; 28] = [
        57, 58, 59, 60, 61, 62, 63, 64, 65, 66, 67, 68, 69, 70, 89, 90, 91, 92, 93, 94, 95, 96, 97,
        98, 99, 100, 101, 102,
    ];
    assert(s@ =~= s_block());
    assert(p@ =~= p_block());
    assert(d@ =~= d_block());
    assert(f@ =~= f_block());
    (s, p, d, f)
}

/// Whether `member` occurs in `table`.
fn holds<const N: usize>(table: &[u8; N], member: u8) -> (found: bool)
    ensures
        found == table@.contains(member),
{
    let mut i: usize = 0;
    while i < N
        invariant
            i <= N,
            table@.len() == N,
            forall|j: int| 0 <= j < i ==> table@[j] != member,
        decreases N - i,
    {
        if table[i] == member {
            assert(table@[i as int] == member);
            return true;
        }
        i += 1;
    }
    false
}

/// The weight and the size of the block that holds `atomic_number`, or `None`
/// where no block holds it.
pub fn get_block(atomic_number: u8) -> (block: Option<(u8, u8)>)
    ensures
        block == block_of(atomic_number),
{
    let (s, p, d, f) = get_blocks_arrays();
    if holds(&s, atomic_number) {
        Some((S_WEIGHT, 15))
    } else if holds(&p, atomic_number) {
        Some((P_WEIGHT, 36))
    } else if holds(&d, atomic_number) {
        Some((D_WEIGHT, 40))
    } else if holds(&f, atomic_number) {
        Some((F_WEIGHT, 28))
    } else {
        None
    }
}

} // verus!
