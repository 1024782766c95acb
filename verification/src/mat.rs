//! Dense matrices with rows and columns counted from 1.

use crate::dot::dot_defined;
use crate::dot::dot_exact;
use crate::dot::dot_of;
use crate::dot::is_dot;
use crate::dot::vec_dot;
use crate::scalar::eq_answer;
use crate::scalar::from_one;
use crate::scalar::from_zero;
use crate::scalar::negation_of;
use crate::scalar::one;
use crate::scalar::zero;
use crate::scalar::Scalar;
use crate::vec3::Vec3;
use crate::vec4::Vec4;
use core::ops::Mul;
use core::ops::Neg;
use vstd::prelude::*;
use vstd::std_specs::cmp::PartialEqSpec;
use vstd::std_specs::ops::NegSpec;

verus! {

/// A grid of scalars, row by row, with its numbers of rows and columns.
#[derive(Debug)]
pub struct Matrix<T> {
    rows: usize,
    cols: usize,
    content: Vec<Vec<T>>,
}

impl<T> View for Matrix<T> {
    type V = Seq<Seq<T>>;

    /// The rows in order, each a sequence of its entries.
    closed spec fn view(&self) -> Seq<Seq<T>> {
        Seq::new(self.content@.len(), |i: int| self.content@[i]@)
    }
}

/// The rows of a list of rows.
pub open spec fn grid_of<T>(content: Seq<Vec<T>>) -> Seq<Seq<T>> {
    Seq::new(content.len(), |i: int| content[i]@)
}

/// Every row of the grid has `cols` entries.
pub open spec fn rows_have<T>(grid: Seq<Seq<T>>, cols: nat) -> bool {
    forall|i: int| 0 <= i < grid.len() ==> (#[trigger] grid[i]).len() == cols
}

/// All rows of the grid have the same length.
pub open spec fn rectangular<T>(grid: Seq<Seq<T>>) -> bool {
    forall|i: int| 0 <= i < grid.len() ==> (#[trigger] grid[i]).len() == grid[0].len()
}

/// What the identity holds in row `i` and column `j`, counted from 0:
/// one on the diagonal and zero elsewhere.
pub open spec fn id_entry<T: Scalar>(i: int, j: int, x: T) -> bool {
    &&& i == j ==> from_one(x)
    &&& i != j ==> from_zero(x)
}

/// Whether all rows of `content` have the same length.
pub fn is_rectangular<T: Scalar>(content: &Vec<Vec<T>>) -> (b: bool)
    ensures
        b == rectangular(grid_of(content@)),
{
    let n = content.len();
    let mut i: usize = 0;
    while i < n
        invariant
            i <= n,
            n == content@.len(),
            forall|k: int| 0 <= k < i ==> (#[trigger] content@[k])@.len() == content@[0]@.len(),
        decreases n - i,
    {
        if content[i].len() != content[0].len() {
            assert(grid_of(content@)[i as int].len() != grid_of(content@)[0].len());
            return false;
        }
        i = i + 1;
    }
    true
}

impl<T> Matrix<T> {
    /// The number of rows.
    pub closed spec fn spec_rows(&self) -> nat {
        self.rows as nat
    }

    /// The number of columns.
    pub closed spec fn spec_cols(&self) -> nat {
        self.cols as nat
    }

    /// The grid has as many rows and columns as the matrix declares.
    pub open spec fn wf(&self) -> bool {
        self@.len() == self.spec_rows() && rows_have(self@, self.spec_cols())
    }

    /// `row` is the number of a row, counted from 1.
    pub open spec fn has_row(&self, row: int) -> bool {
        1 <= row <= self.spec_rows()
    }

    /// `col` is the number of a column, counted from 1.
    pub open spec fn has_col(&self, col: int) -> bool {
        1 <= col <= self.spec_cols()
    }

    /// The entry in row `row` and column `col`, both counted from 1.
    pub open spec fn entry(&self, row: int, col: int) -> T {
        self@[row - 1][col - 1]
    }

    /// The row with number `row`, counted from 1.
    pub open spec fn row_seq(&self, row: int) -> Seq<T> {
        self@[row - 1]
    }

    /// The column with number `col`, counted from 1.
    pub open spec fn col_seq(&self, col: int) -> Seq<T> {
        Seq::new(self@.len(), |i: int| self@[i][col - 1])
    }

    /// The matrix has the shape and the rows of `content`.
    pub open spec fn holds(&self, content: Seq<Seq<T>>, rows: nat, cols: nat) -> bool {
        self.wf() && self.spec_rows() == rows && self.spec_cols() == cols && self@ == content
    }
}

impl<T: Scalar> Matrix<T> {
    /// The matrix of `rows` rows and `cols` columns that holds zero
    /// everywhere.
    pub fn new(rows: usize, cols: usize) -> (m: Matrix<T>)
        ensures
            m.wf(),
            m.spec_rows() == rows,
            m.spec_cols() == cols,
            forall|i: int, j: int|
                0 <= i < rows && 0 <= j < cols ==> from_zero(#[trigger] m@[i][j]),
    {
        let z: T = zero::<T>();
        let mut content: Vec<Vec<T>> = Vec::new();
        let mut i: usize = 0;
        while i < rows
            invariant
                i <= rows,
                content@.len() == i,
                forall|k: int| 0 <= k < i ==> (#[trigger] content@[k])@.len() == cols,
                forall|k: int, j: int|
                    0 <= k < i && 0 <= j < cols ==> #[trigger] content@[k]@[j] == z,
            decreases rows - i,
        {
            let mut row: Vec<T> = Vec::new();
            let mut j: usize = 0;
            while j < cols
                invariant
                    j <= cols,
                    row@.len() == j,
                    forall|t: int| 0 <= t < j ==> #[trigger] row@[t] == z,
                decreases cols - j,
            {
                row.push(z);
                j = j + 1;
            }
            content.push(row);
            i = i + 1;
        }
        Matrix { rows, cols, content }
    }

    /// The matrix whose rows are the rows of `content`, which all have the
    /// same length; without rows it has no columns.
    pub fn from_rows(content: Vec<Vec<T>>) -> (m: Matrix<T>)
        requires
            rectangular(grid_of(content@)),
        ensures
            m.holds(
                grid_of(content@),
                content@.len(),
                if content@.len() > 0 {
                    content@[0]@.len()
                } else {
                    0
                },
            ),
    {
        let rows = content.len();
        let cols = if rows > 0 {
            content[0].len()
        } else {
            0
        };
        Matrix { rows, cols, content }
    }

    /// The product of two matrices can be computed: the left one has as
    /// many columns as the right one has rows, and each dot product of a
    /// row and a column can be computed.
    pub open spec fn mul_defined(&self, rhs: &Matrix<T>) -> bool {
        &&& self.wf()
        &&& rhs.wf()
        &&& self.spec_cols() == rhs.spec_rows()
        &&& forall|row: int, col: int|
            self.has_row(row) && rhs.has_col(col) ==> dot_defined(
                #[trigger] self.row_seq(row),
                #[trigger] rhs.col_seq(col),
                self.spec_cols(),
            )
    }

    /// `self` is a product of `m1` and `m2`: it has the rows of `m1` and
    /// the columns of `m2`, and each entry is the dot product of a row of
    /// `m1` and a column of `m2`.
    pub open spec fn is_product(&self, m1: &Matrix<T>, m2: &Matrix<T>) -> bool {
        &&& self.wf()
        &&& self.spec_rows() == m1.spec_rows()
        &&& self.spec_cols() == m2.spec_cols()
        &&& forall|row: int, col: int|
            self.has_row(row) && self.has_col(col) ==> is_dot(
                m1.row_seq(row),
                m2.col_seq(col),
                m1.spec_cols(),
                #[trigger] self.entry(row, col),
            )
        &&& dot_exact::<T>() ==> forall|row: int, col: int|
            self.has_row(row) && self.has_col(col) ==> #[trigger] self.entry(row, col) == dot_of(
                m1.row_seq(row),
                m2.col_seq(col),
                m1.spec_cols(),
            )
    }

    /// The matrix product `m1 * m2`.
    pub fn multiply(m1: &Matrix<T>, m2: &Matrix<T>) -> (m: Matrix<T>)
        requires
            m1.mul_defined(m2),
        ensures
            m.is_product(m1, m2),
    {
        let rows = m1.rows;
        let cols = m2.cols;
        let mut content: Vec<Vec<T>> = Vec::new();
        let mut i: usize = 0;
        while i < rows
            invariant
                i <= rows,
                rows == m1.rows,
                cols == m2.cols,
                m1.mul_defined(m2),
                content@.len() == i,
                forall|k: int| 0 <= k < i ==> (#[trigger] content@[k])@.len() == cols,
                forall|k: int, j: int|
                    0 <= k < i && 0 <= j < cols ==> is_dot(
                        m1.row_seq(k + 1),
                        m2.col_seq(j + 1),
                        m1.spec_cols(),
                        #[trigger] content@[k]@[j],
                    ),
                dot_exact::<T>() ==> forall|k: int, j: int|
                    0 <= k < i && 0 <= j < cols ==> #[trigger] content@[k]@[j] == dot_of(
                        m1.row_seq(k + 1),
                        m2.col_seq(j + 1),
                        m1.spec_cols(),
                    ),
            decreases rows - i,
        {
            let a = m1.get_row(i + 1);
            let mut row: Vec<T> = Vec::new();
            let mut j: usize = 0;
            while j < cols
                invariant
                    j <= cols,
                    i < rows,
                    rows == m1.rows,
                    cols == m2.cols,
                    m1.mul_defined(m2),
                    a@ == m1.row_seq(i + 1),
                    row@.len() == j,
                    forall|t: int|
                        0 <= t < j ==> is_dot(
                            m1.row_seq(i + 1),
                            m2.col_seq(t + 1),
                            m1.spec_cols(),
                            #[trigger] row@[t],
                        ),
                    dot_exact::<T>() ==> forall|t: int|
                        0 <= t < j ==> #[trigger] row@[t] == dot_of(
                            m1.row_seq(i + 1),
                            m2.col_seq(t + 1),
                            m1.spec_cols(),
                        ),
                decreases cols - j,
            {
                let b = m2.get_col(j + 1);
                let value = vec_dot(&a, &b);
                row.push(value);
                j = j + 1;
            }
            content.push(row);
            i = i + 1;
        }
        Matrix { rows, cols, content }
    }

    /// The 4×4 matrix of zeros.
    pub fn sqr4() -> (m: Matrix<T>)
        ensures
            m.wf(),
            m.spec_rows() == 4,
            m.spec_cols() == 4,
            forall|i: int, j: int| 0 <= i < 4 && 0 <= j < 4 ==> from_zero(#[trigger] m@[i][j]),
    {
        Matrix::new(4, 4)
    }

    /// `self` is the 4×4 identity: one on the diagonal and zero elsewhere.
    pub open spec fn is_id4(&self) -> bool {
        &&& self.wf()
        &&& self.spec_rows() == 4
        &&& self.spec_cols() == 4
        &&& forall|i: int, j: int|
            0 <= i < 4 && 0 <= j < 4 ==> id_entry(i, j, #[trigger] self@[i][j])
    }

    /// The 4×4 identity.
    pub fn id4() -> (m: Matrix<T>)
        ensures
            m.is_id4(),
    {
        let mut m = Self::sqr4();
        let o: T = one::<T>();
        m.set((1, 1), o);
        m.set((2, 2), o);
        m.set((3, 3), o);
        m.set((4, 4), o);
        m
    }

    /// `self` is the 4×4 identity but for the first three places of the
    /// diagonal, where it holds the components of `scale`.
    pub open spec fn is_scaling(&self, scale: Vec3<T>) -> bool {
        &&& self.wf()
        &&& self.spec_rows() == 4
        &&& self.spec_cols() == 4
        &&& forall|i: int| 0 <= i < 3 ==> (#[trigger] self@[i])[i] == scale@[i]
        &&& forall|i: int, j: int|
            0 <= i < 4 && 0 <= j < 4 && !(i == j && i < 3) ==> id_entry(
                i,
                j,
                #[trigger] self@[i][j],
            )
    }

    /// The matrix that scales by the components of `scale`: rows
    /// `[sx, 0, 0, 0]`, `[0, sy, 0, 0]`, `[0, 0, sz, 0]`, `[0, 0, 0, 1]`.
    pub fn m4_scale(scale: Vec3<T>) -> (m: Matrix<T>)
        ensures
            m.is_scaling(scale),
    {
        let mut m = Self::id4();
        m.set((1, 1), scale.0);
        m.set((2, 2), scale.1);
        m.set((3, 3), scale.2);
        m
    }

    /// `self` is the 4×4 identity but for the first three places of the
    /// last column, where it holds the components of `translation`.
    pub open spec fn is_translation(&self, translation: Vec3<T>) -> bool {
        &&& self.wf()
        &&& self.spec_rows() == 4
        &&& self.spec_cols() == 4
        &&& forall|i: int| 0 <= i < 3 ==> (#[trigger] self@[i])[3] == translation@[i]
        &&& forall|i: int, j: int|
            0 <= i < 4 && 0 <= j < 4 && !(j == 3 && i < 3) ==> id_entry(
                i,
                j,
                #[trigger] self@[i][j],
            )
    }

    /// The matrix that translates by `translation`: rows `[1, 0, 0, tx]`,
    /// `[0, 1, 0, ty]`, `[0, 0, 1, tz]`, `[0, 0, 0, 1]`.
    pub fn m4_translate(translation: Vec3<T>) -> (m: Matrix<T>)
        ensures
            m.is_translation(translation),
    {
        let mut m = Self::id4();
        m.set((1, 4), translation.0);
        m.set((2, 4), translation.1);
        m.set((3, 4), translation.2);
        m
    }

    /// `self` is the identity but for the plane of the axes `p` and `q`
    /// (counted from 0), where it holds
    /// `[cos, sin]` in row `p` and `[-sin, cos]` in row `q`.
    pub open spec fn is_rotation(&self, p: int, q: int, cos: T, sin: T) -> bool {
        &&& self.wf()
        &&& self.spec_rows() == 4
        &&& self.spec_cols() == 4
        &&& self@[p][p] == cos
        &&& self@[p][q] == sin
        &&& negation_of(sin, self@[q][p])
        &&& self@[q][q] == cos
        &&& forall|i: int, j: int|
            0 <= i < 4 && 0 <= j < 4 && !((i == p || i == q) && (j == p || j == q)) ==> id_entry(
                i,
                j,
                #[trigger] self@[i][j],
            )
    }

    /// The rotation in the plane of the axes `p` and `q`, counted from 1.
    fn m4_rotate(p: usize, q: usize, cos: T, sin: T) -> (m: Matrix<T>)
        requires
            1 <= p <= 4,
            1 <= q <= 4,
            p != q,
            sin.neg_req(),
        ensures
            m.is_rotation(p - 1, q - 1, cos, sin),
    {
        let mut m = Self::id4();
        let neg_sin: T = sin.neg();
        m.set((p, p), cos);
        m.set((p, q), sin);
        m.set((q, p), neg_sin);
        m.set((q, q), cos);
        m
    }

    /// The left-handed rotation about the z axis by the angle with the
    /// given cosine and sine: rows `[cos, sin, 0, 0]`, `[-sin, cos, 0, 0]`,
    /// `[0, 0, 1, 0]`, `[0, 0, 0, 1]`.
    pub fn m4_rotate_z(cos: T, sin: T) -> (m: Matrix<T>)
        requires
            sin.neg_req(),
        ensures
            m.is_rotation(0, 1, cos, sin),
    {
        Self::m4_rotate(1, 2, cos, sin)
    }

    /// The left-handed rotation about the x axis by the angle with the
    /// given cosine and sine: rows `[1, 0, 0, 0]`, `[0, cos, sin, 0]`,
    /// `[0, -sin, cos, 0]`, `[0, 0, 0, 1]`.
    pub fn m4_rotate_x(cos: T, sin: T) -> (m: Matrix<T>)
        requires
            sin.neg_req(),
        ensures
            m.is_rotation(1, 2, cos, sin),
    {
        Self::m4_rotate(2, 3, cos, sin)
    }

    /// The left-handed rotation about the y axis by the angle with the
    /// given cosine and sine: rows `[cos, 0, -sin, 0]`, `[0, 1, 0, 0]`,
    /// `[sin, 0, cos, 0]`, `[0, 0, 0, 1]`.
    pub fn m4_rotate_y(cos: T, sin: T) -> (m: Matrix<T>)
        requires
            sin.neg_req(),
        ensures
            m.is_rotation(2, 0, cos, sin),
    {
        Self::m4_rotate(3, 1, cos, sin)
    }

    /// The number of rows.
    pub fn rows(&self) -> (n: usize)
        ensures
            n == self.spec_rows(),
    {
        self.rows
    }

    /// The number of columns.
    pub fn cols(&self) -> (n: usize)
        ensures
            n == self.spec_cols(),
    {
        self.cols
    }

    /// Puts `value` in row `rc.0` and column `rc.1`, both counted from 1.
    pub fn set(&mut self, rc: (usize, usize), value: T)
        requires
            old(self).wf(),
            old(self).has_row(rc.0 as int),
            old(self).has_col(rc.1 as int),
        ensures
            final(self).wf(),
            final(self).spec_rows() == old(self).spec_rows(),
            final(self).spec_cols() == old(self).spec_cols(),
            final(self)@ == old(self)@.update(
                rc.0 - 1,
                old(self)@[rc.0 - 1].update(rc.1 - 1, value),
            ),
    {
        let r = rc.0 - 1;
        let c = rc.1 - 1;
        assert(self@[r as int] == self.content@[r as int]@);
        self.content[r][c] = value;
        assert(self@ =~= old(self)@.update(r as int, old(self)@[r as int].update(c as int, value)));
    }

    /// The entry in row `rc.0` and column `rc.1`, both counted from 1.
    pub fn get(&self, rc: (usize, usize)) -> (r: T)
        requires
            self.wf(),
            self.has_row(rc.0 as int),
            self.has_col(rc.1 as int),
        ensures
            r == self.entry(rc.0 as int, rc.1 as int),
    {
        assert(self@[rc.0 - 1] == self.content@[rc.0 - 1]@);
        self.content[rc.0 - 1][rc.1 - 1]
    }

    /// A copy of the row with number `index`, counted from 1.
    pub fn get_row(&self, index: usize) -> (row: Vec<T>)
        requires
            self.wf(),
            self.has_row(index as int),
        ensures
            row@ == self.row_seq(index as int),
    {
        let r = index - 1;
        assert(self@[r as int] == self.content@[r as int]@);
        let mut row: Vec<T> = Vec::new();
        let mut j: usize = 0;
        while j < self.cols
            invariant
                j <= self.cols,
                r < self.content@.len(),
                self.content@[r as int]@.len() == self.cols,
                row@.len() == j,
                forall|t: int| 0 <= t < j ==> #[trigger] row@[t] == self.content@[r as int]@[t],
            decreases self.cols - j,
        {
            row.push(self.content[r][j]);
            j = j + 1;
        }
        row
    }

    /// A copy of the column with number `col`, counted from 1.
    pub fn get_col(&self, col: usize) -> (column: Vec<T>)
        requires
            self.wf(),
            self.has_col(col as int),
        ensures
            column@ == self.col_seq(col as int),
    {
        let c = col - 1;
        let mut column: Vec<T> = Vec::new();
        let mut i: usize = 0;
        while i < self.rows
            invariant
                i <= self.rows,
                self.wf(),
                c < self.cols,
                column@.len() == i,
                forall|t: int| 0 <= t < i ==> #[trigger] column@[t] == self@[t][c as int],
            decreases self.rows - i,
        {
            assert(self@[i as int] == self.content@[i as int]@);
            column.push(self.content[i][c]);
            i = i + 1;
        }
        column
    }

    /// Replaces the whole grid by `mat`, which has the shape of the matrix.
    pub fn set_content(&mut self, mat: Vec<Vec<T>>)
        requires
            old(self).wf(),
            mat@.len() == old(self).spec_rows(),
            rows_have(grid_of(mat@), old(self).spec_cols()),
        ensures
            final(self).holds(grid_of(mat@), old(self).spec_rows(), old(self).spec_cols()),
    {
        self.content = mat;
    }

    /// Whether `row` is the number of a row, counted from 1.
    pub fn verify_row_index(&self, row: usize) -> (b: bool)
        ensures
            b == self.has_row(row as int),
    {
        1 <= row && row <= self.rows
    }

    /// Whether `col` is the number of a column, counted from 1.
    pub fn verify_col_index(&self, col: usize) -> (b: bool)
        ensures
            b == self.has_col(col as int),
    {
        1 <= col && col <= self.cols
    }

    /// Whether `rc` names an entry: a row and a column, counted from 1.
    pub fn verify_mat_index(&self, rc: (usize, usize)) -> (b: bool)
        ensures
            b == (self.has_row(rc.0 as int) && self.has_col(rc.1 as int)),
    {
        self.verify_row_index(rc.0) && self.verify_col_index(rc.1)
    }

    /// Whether `content` has the shape of the matrix.
    pub fn verify_content(&self, content: &Vec<Vec<T>>) -> (b: bool)
        ensures
            b == (content@.len() == self.spec_rows() && rows_have(
                grid_of(content@),
                self.spec_cols(),
            )),
    {
        if content.len() != self.rows {
            return false;
        }
        let mut i: usize = 0;
        while i < self.rows
            invariant
                i <= self.rows,
                content@.len() == self.rows,
                forall|k: int| 0 <= k < i ==> (#[trigger] content@[k])@.len() == self.cols,
            decreases self.rows - i,
        {
            if content[i].len() != self.cols {
                assert(grid_of(content@)[i as int].len() != self.spec_cols());
                return false;
            }
            i = i + 1;
        }
        true
    }
}

impl<T: Scalar> vstd::std_specs::convert::FromSpecImpl<Vec3<T>> for Matrix<T> {
    /// Two matrices of the same shape and rows need not be one value, so
    /// the result is not promised to be the one that `from_spec` picks:
    /// the contract of `from` gives its shape and rows.
    open spec fn obeys_from_spec() -> bool {
        false
    }

    /// Some matrix of one column that holds the components of `v`.
    open spec fn from_spec(v: Vec3<T>) -> Matrix<T> {
        choose|m: Matrix<T>| m.holds(seq![seq![v.0], seq![v.1], seq![v.2]], 3, 1)
    }
}

impl<T: Scalar> From<Vec3<T>> for Matrix<T> {
    /// The matrix of one column that holds the components of `v`.
    fn from(v: Vec3<T>) -> (m: Matrix<T>)
        ensures
            m.holds(seq![seq![v.0], seq![v.1], seq![v.2]], 3, 1),
    {
        let mut content: Vec<Vec<T>> = Vec::new();
        let mut row0: Vec<T> = Vec::new();
        row0.push(v.0);
        content.push(row0);
        let mut row1: Vec<T> = Vec::new();
        row1.push(v.1);
        content.push(row1);
        let mut row2: Vec<T> = Vec::new();
        row2.push(v.2);
        content.push(row2);
        let m = Matrix { rows: 3, cols: 1, content };
        assert(m@ =~= seq![seq![v.0], seq![v.1], seq![v.2]]);
        m
    }
}

impl<T: Scalar> vstd::std_specs::convert::FromSpecImpl<Vec4<T>> for Matrix<T> {
    /// Two matrices of the same shape and rows need not be one value, so
    /// the result is not promised to be the one that `from_spec` picks:
    /// the contract of `from` gives its shape and rows.
    open spec fn obeys_from_spec() -> bool {
        false
    }

    /// Some matrix of one column that holds the components of `v`.
    open spec fn from_spec(v: Vec4<T>) -> Matrix<T> {
        choose|m: Matrix<T>| m.holds(seq![seq![v.0], seq![v.1], seq![v.2], seq![v.3]], 4, 1)
    }
}

impl<T: Scalar> From<Vec4<T>> for Matrix<T> {
    /// The matrix of one column that holds the components of `v`.
    fn from(v: Vec4<T>) -> (m: Matrix<T>)
        ensures
            m.holds(seq![seq![v.0], seq![v.1], seq![v.2], seq![v.3]], 4, 1),
    {
        let mut content: Vec<Vec<T>> = Vec::new();
        let mut row0: Vec<T> = Vec::new();
        row0.push(v.0);
        content.push(row0);
        let mut row1: Vec<T> = Vec::new();
        row1.push(v.1);
        content.push(row1);
        let mut row2: Vec<T> = Vec::new();
        row2.push(v.2);
        content.push(row2);
        let mut row3: Vec<T> = Vec::new();
        row3.push(v.3);
        content.push(row3);
        let m = Matrix { rows: 4, cols: 1, content };
        assert(m@ =~= seq![seq![v.0], seq![v.1], seq![v.2], seq![v.3]]);
        m
    }
}

impl<T: Scalar> vstd::std_specs::ops::MulSpecImpl<&Matrix<T>> for &Matrix<T> {
    /// Two matrices of the same shape and entries need not be one value,
    /// so the product is not promised to be the one that `mul_spec` picks:
    /// the contract of `mul` gives its shape and entries.
    open spec fn obeys_mul_spec() -> bool {
        false
    }

    open spec fn mul_req(self, rhs: &Matrix<T>) -> bool {
        self.mul_defined(rhs)
    }

    /// Some product of the two matrices.
    open spec fn mul_spec(self, rhs: &Matrix<T>) -> Matrix<T> {
        choose|m: Matrix<T>| m.is_product(self, rhs)
    }
}

impl<T: Scalar> Mul<&Matrix<T>> for &Matrix<T> {
    type Output = Matrix<T>;

    /// The matrix product `self * rhs`.
    fn mul(self, rhs: &Matrix<T>) -> (m: Matrix<T>)
        ensures
            m.is_product(self, rhs),
    {
        Matrix::multiply(self, rhs)
    }
}

impl<T: Scalar> vstd::std_specs::ops::MulSpecImpl<Matrix<T>> for Matrix<T> {
    /// Two matrices of the same shape and entries need not be one value,
    /// so the product is not promised to be the one that `mul_spec` picks:
    /// the contract of `mul` gives its shape and entries.
    open spec fn obeys_mul_spec() -> bool {
        false
    }

    open spec fn mul_req(self, rhs: Matrix<T>) -> bool {
        self.mul_defined(&rhs)
    }

    /// Some product of the two matrices.
    open spec fn mul_spec(self, rhs: Matrix<T>) -> Matrix<T> {
        choose|m: Matrix<T>| m.is_product(&self, &rhs)
    }
}

impl<T: Scalar> Mul<Matrix<T>> for Matrix<T> {
    type Output = Matrix<T>;

    /// The matrix product `self * rhs`.
    fn mul(self, rhs: Matrix<T>) -> (m: Matrix<T>)
        ensures
            m.is_product(&self, &rhs),
    {
        Matrix::multiply(&self, &rhs)
    }
}

impl<T: Scalar> vstd::std_specs::ops::MulSpecImpl<&Matrix<T>> for Matrix<T> {
    /// Two matrices of the same shape and entries need not be one value,
    /// so the product is not promised to be the one that `mul_spec` picks:
    /// the contract of `mul` gives its shape and entries.
    open spec fn obeys_mul_spec() -> bool {
        false
    }

    open spec fn mul_req(self, rhs: &Matrix<T>) -> bool {
        self.mul_defined(rhs)
    }

    /// Some product of the two matrices.
    open spec fn mul_spec(self, rhs: &Matrix<T>) -> Matrix<T> {
        choose|m: Matrix<T>| m.is_product(&self, rhs)
    }
}

impl<T: Scalar> Mul<&Matrix<T>> for Matrix<T> {
    type Output = Matrix<T>;

    /// The matrix product `self * rhs`.
    fn mul(self, rhs: &Matrix<T>) -> (m: Matrix<T>)
        ensures
            m.is_product(&self, rhs),
    {
        Matrix::multiply(&self, rhs)
    }
}

impl<T: Scalar> vstd::std_specs::ops::MulSpecImpl<Matrix<T>> for &Matrix<T> {
    /// Two matrices of the same shape and entries need not be one value,
    /// so the product is not promised to be the one that `mul_spec` picks:
    /// the contract of `mul` gives its shape and entries.
    open spec fn obeys_mul_spec() -> bool {
        false
    }

    open spec fn mul_req(self, rhs: Matrix<T>) -> bool {
        self.mul_defined(&rhs)
    }

    /// Some product of the two matrices.
    open spec fn mul_spec(self, rhs: Matrix<T>) -> Matrix<T> {
        choose|m: Matrix<T>| m.is_product(self, &rhs)
    }
}

impl<T: Scalar> Mul<Matrix<T>> for &Matrix<T> {
    type Output = Matrix<T>;

    /// The matrix product `self * rhs`.
    fn mul(self, rhs: Matrix<T>) -> (m: Matrix<T>)
        ensures
            m.is_product(self, &rhs),
    {
        Matrix::multiply(self, &rhs)
    }
}

impl<T: Scalar> vstd::std_specs::cmp::PartialEqSpecImpl for Matrix<T> {
    open spec fn obeys_eq_spec() -> bool {
        T::obeys_eq_spec()
    }

    /// The same shape, and entries that compare equal in every place.
    open spec fn eq_spec(&self, other: &Matrix<T>) -> bool {
        &&& self.spec_rows() == other.spec_rows()
        &&& self.spec_cols() == other.spec_cols()
        &&& self@.len() == other@.len()
        &&& forall|i: int| 0 <= i < self@.len() ==> rows_equal(#[trigger] self@[i], other@[i])
    }
}

/// Two rows have the same length and entries that compare equal in every
/// place.
pub open spec fn rows_equal<T: Scalar>(a: Seq<T>, b: Seq<T>) -> bool {
    a.len() == b.len() && forall|j: int| 0 <= j < a.len() ==> (#[trigger] a[j]).eq_spec(&b[j])
}

/// The two rows have the same length, and `==` may say of the entries in
/// every place that they are equal.
pub open spec fn rows_may_agree<T: Scalar>(a: Seq<T>, b: Seq<T>) -> bool {
    a.len() == b.len() && forall|j: int| 0 <= j < a.len() ==> eq_answer(#[trigger] a[j], b[j], true)
}

/// The two rows differ in length, or `==` may say of the entries in some
/// place that they differ.
pub open spec fn rows_may_differ<T: Scalar>(a: Seq<T>, b: Seq<T>) -> bool {
    a.len() != b.len() || exists|j: int| 0 <= j < a.len() && eq_answer(#[trigger] a[j], b[j], false)
}

/// Whether two rows have the same length and entries that compare equal
/// in every place.
fn row_eq<T: Scalar>(a: &Vec<T>, b: &Vec<T>) -> (r: bool)
    ensures
        r ==> rows_may_agree(a@, b@),
        !r ==> rows_may_differ(a@, b@),
        T::obeys_eq_spec() ==> r == rows_equal(a@, b@),
{
    if a.len() != b.len() {
        return false;
    }
    let n = a.len();
    let mut j: usize = 0;
    while j < n
        invariant
            j <= n,
            n == a@.len(),
            n == b@.len(),
            forall|t: int| 0 <= t < j ==> eq_answer(#[trigger] a@[t], b@[t], true),
            T::obeys_eq_spec() ==> forall|t: int| 0 <= t < j ==> (#[trigger] a@[t]).eq_spec(&b@[t]),
        decreases n - j,
    {
        if !(a[j] == b[j]) {
            return false;
        }
        j = j + 1;
    }
    true
}

impl<T: Scalar> Matrix<T> {
    /// The two matrices have the same shape, and `==` may say of the
    /// entries in every place that they are equal.
    pub open spec fn may_agree(&self, other: &Matrix<T>) -> bool {
        &&& self.spec_rows() == other.spec_rows()
        &&& self.spec_cols() == other.spec_cols()
        &&& self@.len() == other@.len()
        &&& forall|i: int| 0 <= i < self@.len() ==> rows_may_agree(#[trigger] self@[i], other@[i])
    }

    /// The two matrices differ in shape, or `==` may say of the entries in
    /// some place that they differ.
    pub open spec fn may_differ(&self, other: &Matrix<T>) -> bool {
        ||| self.spec_rows() != other.spec_rows()
        ||| self.spec_cols() != other.spec_cols()
        ||| self@.len() != other@.len()
        ||| exists|i: int| 0 <= i < self@.len() && rows_may_differ(#[trigger] self@[i], other@[i])
    }
}

impl<T: Scalar> PartialEq for Matrix<T> {
    /// Whether the two matrices have the same shape and entries that
    /// compare equal in every place: true only if `==` said so of every
    /// pair of entries, false only if the shapes differ or `==` said
    /// otherwise of one pair.
    fn eq(&self, other: &Matrix<T>) -> (r: bool)
        ensures
            r ==> self.may_agree(other),
            !r ==> self.may_differ(other),
    {
        if self.rows != other.rows || self.cols != other.cols {
            return false;
        }
        if self.content.len() != other.content.len() {
            return false;
        }
        let n = self.content.len();
        let mut i: usize = 0;
        while i < n
            invariant
                i <= n,
                n == self.content@.len(),
                n == other.content@.len(),
                forall|k: int| 0 <= k < i ==> rows_may_agree(#[trigger] self@[k], other@[k]),
                T::obeys_eq_spec() ==> forall|k: int|
                    0 <= k < i ==> rows_equal(#[trigger] self@[k], other@[k]),
            decreases n - i,
        {
            if !row_eq(&self.content[i], &other.content[i]) {
                assert(rows_may_differ(self@[i as int], other@[i as int]));
                return false;
            }
            i = i + 1;
        }
        true
    }
}

} // verus!
