//! Layout of the packed coefficient tables of Krüger's series.
//!
//! The series for the transverse Mercator projection is carried to order
//! `TRANSVERSE_MERCATOR_ORDER`.  For each order `l` (0-based) the table holds
//! a block made of the `m + 1` coefficients of a polynomial of degree
//! `m = ORDER - l - 1`, highest power first, followed by the block's divisor.
//! All entries are integers, stored here as `i64`.
use vstd::prelude::*;

verus! {

/// Order of the Krüger series.
pub const TRANSVERSE_MERCATOR_ORDER: usize = 6;

/// Number of entries of a packed series table: `ORDER * (ORDER + 3) / 2`.
pub const SERIES_TABLE_LEN: usize = 27;

/// Number of entries of the table for the rectifying radius factor `b1`.
pub const B1_TABLE_LEN: usize = 5;

/// Coefficients of the series for the rectifying radius factor `b1`
/// (a polynomial in `n^2` of degree `ORDER / 2`, then its divisor).
pub const B1_COEFF: [i64; 5] = [1, 4, 64, 256, 256];

/// Coefficients of the forward series (alpha).
pub const ALP_COEFF: [i64; 27] = [
    31564, -66675, 34440, 47250, -100800, 75600, 151200,
    -1983433, 863232, 748608, -1161216, 524160, 1935360,
    670412, 406647, -533952, 184464, 725760,
    6601661, -7732800, 2230245, 7257600,
    -13675556, 3438171, 7983360,
    212378941, 319334400,
];

/// Coefficients of the reverse series (beta).
pub const BET_COEFF: [i64; 27] = [
    384796, -382725, -6720, 932400, -1612800, 1209600, 2419200,
    -1118711, 1695744, -1174656, 258048, 80640, 3870720,
    22276, -16929, -15984, 12852, 362880,
    -830251, -158400, 197865, 7257600,
    -435388, 453717, 15966720,
    20648693, 638668800,
];

/// Degree of the polynomial in block `l`.
pub open spec fn block_degree(l: int) -> int {
    TRANSVERSE_MERCATOR_ORDER - l - 1
}

/// Offset of block `l` in a packed series table: each earlier block takes
/// its `degree + 1` coefficients and one divisor.
pub open spec fn block_offset(l: nat) -> nat
    decreases l,
{
    if l == 0 {
        0
    } else {
        (block_offset((l - 1) as nat) + block_degree(l - 1) + 2) as nat
    }
}

/// Index of the divisor of block `l`.
pub open spec fn divisor_index(l: nat) -> int {
    block_offset(l) + block_degree(l as int) + 1
}

proof fn lemma_offset_values()
    ensures
        block_offset(0) == 0,
        block_offset(1) == 7,
        block_offset(2) == 13,
        block_offset(3) == 18,
        block_offset(4) == 22,
        block_offset(5) == 25,
        block_offset(6) == 27,
{
    reveal_with_fuel(block_offset, 7);
}

/// One block of a packed series table: the polynomial's coefficients stand at
/// `offset ..= offset + degree`, highest power first, and its divisor right
/// after them.
#[derive(Clone, Copy, Debug, PartialEq, Eq, Structural)]
pub struct SeriesBlock {
    pub offset: usize,
    pub degree: usize,
}

impl SeriesBlock {
    /// Index of the block's divisor.
    pub open spec fn spec_divisor_index(self) -> int {
        self.offset + self.degree + 1
    }

    /// Index of the block's divisor.
    pub fn divisor_index(&self) -> (i: usize)
        requires
            self.offset + self.degree + 1 <= usize::MAX,
        ensures
            i == self.spec_divisor_index(),
            i == self.offset + self.degree + 1,
    {
        self.offset + self.degree + 1
    }
}

/// The blocks of a packed series table (`ALP_COEFF` or `BET_COEFF`), one per
/// order of the series, in the order in which the series uses them.
pub fn series_blocks() -> (blocks: Vec<SeriesBlock>)
    ensures
        blocks.len() == TRANSVERSE_MERCATOR_ORDER,
        forall|l: int|
            0 <= l < TRANSVERSE_MERCATOR_ORDER ==> {
                &&& #[trigger] blocks[l].offset == block_offset(l as nat)
                &&& blocks[l].degree == block_degree(l)
                &&& blocks[l].degree == TRANSVERSE_MERCATOR_ORDER - l - 1
            },
        blocks[0].offset == 0,
        forall|l: int|
            0 <= l < TRANSVERSE_MERCATOR_ORDER - 1 ==> #[trigger] blocks[l + 1].offset
                == blocks[l].offset + blocks[l].degree + 2,
        blocks[5].offset + blocks[5].degree + 2 == SERIES_TABLE_LEN,
        blocks[0].offset == 0 && blocks[1].offset == 7 && blocks[2].offset == 13,
        blocks[3].offset == 18 && blocks[4].offset == 22 && blocks[5].offset == 25,
{
    let mut blocks: Vec<SeriesBlock> = Vec::new();
    let mut offset: usize = 0;
    let mut l: usize = 0;
    while l < TRANSVERSE_MERCATOR_ORDER
        invariant
            l <= TRANSVERSE_MERCATOR_ORDER,
            offset == block_offset(l as nat),
            offset <= SERIES_TABLE_LEN,
            blocks.len() == l,
            forall|j: int|
                0 <= j < l ==> {
                    &&& #[trigger] blocks[j].offset == block_offset(j as nat)
                    &&& blocks[j].degree == block_degree(j)
                },
        decreases TRANSVERSE_MERCATOR_ORDER - l,
    {
        proof {
            lemma_offset_values();
        }
        let m: usize = TRANSVERSE_MERCATOR_ORDER - l - 1;
        blocks.push(SeriesBlock { offset, degree: m });
        assert(block_offset((l + 1) as nat) == block_offset(l as nat) + m + 2);
        offset = offset + m + 2;
        l = l + 1;
    }
    proof {
        lemma_offset_values();
        assert forall|l: int| 0 <= l < TRANSVERSE_MERCATOR_ORDER - 1 implies #[trigger] blocks[l + 1].offset
            == blocks[l].offset + blocks[l].degree + 2 by {
            assert(blocks[l + 1].offset == block_offset((l + 1) as nat));
            assert(blocks[l].offset == block_offset(l as nat));
        }
        assert(blocks[5].offset == block_offset(5));
        assert(blocks[4].offset == block_offset(4));
        assert(blocks[3].offset == block_offset(3));
        assert(blocks[2].offset == block_offset(2));
        assert(blocks[1].offset == block_offset(1));
        assert(blocks[0].offset == block_offset(0));
    }
    blocks
}

/// The block of `B1_COEFF`: a polynomial in `n^2` of degree `ORDER / 2`.
pub fn b1_block() -> (block: SeriesBlock)
    ensures
        block.offset == 0,
        block.degree == TRANSVERSE_MERCATOR_ORDER / 2,
        block.spec_divisor_index() == B1_TABLE_LEN - 1,
        block.offset + block.degree + 1 == B1_TABLE_LEN - 1,
{
    SeriesBlock { offset: 0, degree: TRANSVERSE_MERCATOR_ORDER / 2 }
}

/// The blocks tile a packed series table: block `l + 1` starts right after
/// the divisor of block `l`, every divisor lies inside the table, and the
/// last block ends exactly at the table's end, `ORDER * (ORDER + 3) / 2`.
pub proof fn lemma_series_blocks_tile_table()
    ensures
        block_offset(0) == 0,
        block_offset(TRANSVERSE_MERCATOR_ORDER as nat) == SERIES_TABLE_LEN,
        SERIES_TABLE_LEN == TRANSVERSE_MERCATOR_ORDER * (TRANSVERSE_MERCATOR_ORDER + 3) / 2,
        ALP_COEFF@.len() == SERIES_TABLE_LEN,
        BET_COEFF@.len() == SERIES_TABLE_LEN,
        forall|l: nat|
            l < TRANSVERSE_MERCATOR_ORDER ==> {
                &&& block_degree(l as int) >= 0
                &&& #[trigger] block_offset(l + 1) == divisor_index(l) + 1
                &&& divisor_index(l) < SERIES_TABLE_LEN
            },
{
    lemma_offset_values();
    assert forall|l: nat| l < TRANSVERSE_MERCATOR_ORDER implies {
        &&& block_degree(l as int) >= 0
        &&& #[trigger] block_offset(l + 1) == divisor_index(l) + 1
        &&& divisor_index(l) < SERIES_TABLE_LEN
    } by {
        assert(block_offset(l + 1) == block_offset(l) + block_degree(l as int) + 2);
    }
}

/// Every divisor in the tables is positive, so the series set-up never
/// divides by zero.
pub proof fn lemma_divisors_positive()
    ensures
        forall|l: nat|
            l < TRANSVERSE_MERCATOR_ORDER ==> {
                &&& ALP_COEFF@[#[trigger] divisor_index(l)] > 0
                &&& BET_COEFF@[divisor_index(l)] > 0
            },
        B1_COEFF@[TRANSVERSE_MERCATOR_ORDER / 2 + 1] > 0,
{
    lemma_offset_values();
    assert forall|l: nat| l < TRANSVERSE_MERCATOR_ORDER implies {
        &&& ALP_COEFF@[#[trigger] divisor_index(l)] > 0
        &&& BET_COEFF@[divisor_index(l)] > 0
    } by {
        if l == 0 {
            assert(divisor_index(l) == 6);
        } else if l == 1 {
            assert(divisor_index(l) == 12);
        } else if l == 2 {
            assert(divisor_index(l) == 17);
        } else if l == 3 {
            assert(divisor_index(l) == 21);
        } else if l == 4 {
            assert(divisor_index(l) == 24);
        } else {
            assert(divisor_index(l) == 26);
        }
    }
}

/// Horner evaluation of the polynomial of degree `degree` whose coefficients
/// stand at `table[offset ..= offset + degree]`, highest power first.
pub open spec fn block_polynomial(table: Seq<i64>, offset: int, degree: nat, x: int) -> int
    decreases degree,
{
    if degree == 0 {
        table[offset] as int
    } else {
        block_polynomial(table, offset, (degree - 1) as nat, x) * x + table[offset + degree] as int
    }
}

/// On a sphere (`n == 0`) the rectifying radius factor `b1`, the `b1`
/// polynomial at zero over its divisor, is exactly one.
pub proof fn lemma_b1_is_one_on_sphere()
    ensures
        block_polynomial(B1_COEFF@, 0, (TRANSVERSE_MERCATOR_ORDER / 2) as nat, 0)
            == B1_COEFF@[TRANSVERSE_MERCATOR_ORDER / 2 + 1],
{
    reveal_with_fuel(block_polynomial, 4);
}

/// Every entry of the tables has magnitude below `2^53`, so each converts to
/// a double without rounding.
pub proof fn lemma_entries_exact_in_double()
    ensures
        forall|i: int|
            0 <= i < SERIES_TABLE_LEN ==> {
                &&& -0x20000000000000 < #[trigger] ALP_COEFF@[i] < 0x20000000000000
                &&& -0x20000000000000 < BET_COEFF@[i] < 0x20000000000000
            },
        forall|i: int|
            0 <= i < B1_TABLE_LEN ==> -0x20000000000000 < #[trigger] B1_COEFF@[i] < 0x20000000000000,
{
}

} // verus!
