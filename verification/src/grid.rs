//! Grid sizing policy: how many rows and columns the grid view uses for a
//! given number of tabs, and how the view modes are represented.

use vstd::prelude::*;

verus! {

/// `s` is the least natural number whose square reaches `n`.
pub open spec fn is_ceil_sqrt(n: nat, s: nat) -> bool {
    s * s >= n && (s == 0 || (s - 1) * (s - 1) < n)
}

/// The square root of `n`, rounded up.
pub open spec fn ceil_sqrt(n: nat) -> nat {
    choose|s: nat| is_ceil_sqrt(n, s)
}

/// Rows and columns of the grid view for `n` tabs: a fixed table up to
/// sixteen tabs, and a square of side `ceil_sqrt(n)` beyond.
pub open spec fn optimal_grid(n: nat) -> (nat, nat) {
    if n <= 1 {
        (1, 1)
    } else if n == 2 {
        (1, 2)
    } else if n <= 4 {
        (2, 2)
    } else if n <= 6 {
        (2, 3)
    } else if n <= 9 {
        (3, 3)
    } else if n <= 12 {
        (3, 4)
    } else if n <= 16 {
        (4, 4)
    } else {
        (ceil_sqrt(n), ceil_sqrt(n))
    }
}

/// At most one number is the rounded-up square root of `n`.
pub proof fn lemma_ceil_sqrt_unique(n: nat, a: nat, b: nat)
    requires
        is_ceil_sqrt(n, a),
        is_ceil_sqrt(n, b),
    ensures
        a == b,
{
    if a < b {
        assert(a * a <= (b - 1) * (b - 1)) by (nonlinear_arith)
            requires
                0 <= a <= b - 1,
        ;
    }
    if b < a {
        assert(b * b <= (a - 1) * (a - 1)) by (nonlinear_arith)
            requires
                0 <= b <= a - 1,
        ;
    }
}

/// Whoever exhibits a rounded-up square root of `n` has found `ceil_sqrt(n)`.
pub proof fn lemma_ceil_sqrt_is(n: nat, s: nat)
    requires
        is_ceil_sqrt(n, s),
    ensures
        ceil_sqrt(n) == s,
{
    lemma_ceil_sqrt_unique(n, ceil_sqrt(n), s);
}

/// The grid chosen for `n` tabs has a cell for each of them.
pub proof fn lemma_optimal_grid_has_room(n: nat, s: nat)
    requires
        n > 16 ==> is_ceil_sqrt(n, s),
    ensures
        optimal_grid(n).0 * optimal_grid(n).1 >= n,
        optimal_grid(n).0 >= 1,
        optimal_grid(n).1 >= 1,
{
    if n > 16 {
        lemma_ceil_sqrt_is(n, s);
        assert(s >= 1) by (nonlinear_arith)
            requires
                s * s >= n,
                n > 16,
        ;
    }
}

/// The square root of `n`, rounded up, found by bisection.
pub fn ceil_sqrt_of(n: usize) -> (s: usize)
    ensures
        is_ceil_sqrt(n as nat, s as nat),
        s == ceil_sqrt(n as nat),
{
    let mut lo: usize = 0;
    let mut hi: usize = n;
    assert(hi * hi >= n) by (nonlinear_arith)
        requires
            hi == n,
            n >= 0,
    ;
    while lo < hi
        invariant
            lo <= hi <= n,
            hi * hi >= n,
            lo == 0 || (lo - 1) * (lo - 1) < n,
        decreases hi - lo,
    {
        let mid: usize = lo + (hi - lo) / 2;
        assert(mid * mid <= 0xffff_ffff_ffff_ffff * 0xffff_ffff_ffff_ffff) by (nonlinear_arith)
            requires
                0 <= mid <= 0xffff_ffff_ffff_ffff,
        ;
        let square: u128 = (mid as u128) * (mid as u128);
        if square >= n as u128 {
            hi = mid;
        } else {
            lo = mid + 1;
        }
    }
    proof {
        lemma_ceil_sqrt_is(n as nat, lo as nat);
    }
    lo
}

/// Rows and columns of the grid view for `tab_count` tabs.
pub fn calculate_optimal_grid_size(tab_count: usize) -> (size: (usize, usize))
    ensures
        (size.0 as nat, size.1 as nat) == optimal_grid(tab_count as nat),
        size.0 * size.1 >= tab_count,
        size.0 >= 1 && size.1 >= 1,
{
    if tab_count <= 1 {
        (1, 1)
    } else if tab_count == 2 {
        (1, 2)
    } else if tab_count <= 4 {
        (2, 2)
    } else if tab_count <= 6 {
        (2, 3)
    } else if tab_count <= 9 {
        (3, 3)
    } else if tab_count <= 12 {
        (3, 4)
    } else if tab_count <= 16 {
        (4, 4)
    } else {
        let side = ceil_sqrt_of(tab_count);
        proof {
            lemma_optimal_grid_has_room(tab_count as nat, side as nat);
        }
        (side, side)
    }
}

/// How the open tabs are shown.
///
/// In the grid, column `i` takes `col_ratios[i]` parts of the width out of
/// the sum of `col_ratios`, and row `j` takes `row_ratios[j]` parts of the
/// height out of the sum of `row_ratios`: the fractions of an axis always
/// add up to one.
#[derive(Debug, Clone, PartialEq, Eq)]
pub enum ViewMode {
    /// One tab at a time.
    Single,
    /// All tabs at once, in `rows` by `cols` cells.
    Grid { rows: usize, cols: usize, col_ratios: Vec<u32>, row_ratios: Vec<u32> },
}

/// `count` equal parts.
pub open spec fn uniform_parts(count: nat) -> Seq<u32> {
    Seq::new(count, |i: int| 1u32)
}

impl ViewMode {
    /// A grid keeps one ratio for each of its rows and columns, none of
    /// them zero.
    pub open spec fn well_formed(self) -> bool {
        match self {
            ViewMode::Single => true,
            ViewMode::Grid { rows, cols, col_ratios, row_ratios } => {
                &&& rows >= 1
                &&& cols >= 1
                &&& col_ratios@.len() == cols
                &&& row_ratios@.len() == rows
                &&& forall|i: int| 0 <= i < col_ratios@.len() ==> col_ratios@[i] > 0
                &&& forall|i: int| 0 <= i < row_ratios@.len() ==> row_ratios@[i] > 0
            },
        }
    }

    /// The grid of `rows` by `cols` cells in which every row has the same
    /// height and every column the same width.
    pub open spec fn is_uniform_grid(self, rows: nat, cols: nat) -> bool {
        &&& self matches ViewMode::Grid { rows: r, cols: c, col_ratios, row_ratios }
        &&& r == rows
        &&& c == cols
        &&& col_ratios@ == uniform_parts(cols)
        &&& row_ratios@ == uniform_parts(rows)
    }

    /// Builds the grid of `rows` by `cols` cells with uniform ratios.
    pub fn uniform_grid(rows: usize, cols: usize) -> (mode: ViewMode)
        ensures
            mode.is_uniform_grid(rows as nat, cols as nat),
            rows >= 1 && cols >= 1 ==> mode.well_formed(),
    {
        let col_ratios = equal_parts(cols);
        let row_ratios = equal_parts(rows);
        ViewMode::Grid { rows, cols, col_ratios, row_ratios }
    }

    /// Whether all tabs are shown at once.
    pub fn is_grid(&self) -> (grid: bool)
        ensures
            grid == (*self is Grid),
    {
        match self {
            ViewMode::Single => false,
            ViewMode::Grid { .. } => true,
        }
    }
}

impl Default for ViewMode {
    fn default() -> (mode: Self)
        ensures
            mode == ViewMode::Single,
    {
        ViewMode::Single
    }
}

/// `count` parts of one unit each.
fn equal_parts(count: usize) -> (parts: Vec<u32>)
    ensures
        parts@ == uniform_parts(count as nat),
{
    let mut parts: Vec<u32> = Vec::new();
    let mut i: usize = 0;
    while i < count
        invariant
            i <= count,
            parts@ == uniform_parts(i as nat),
        decreases count - i,
    {
        parts.push(1);
        i = i + 1;
        assert(parts@ =~= uniform_parts(i as nat));
    }
    parts
}

} // verus!
