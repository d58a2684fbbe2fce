//! A matrix of fixed size, stored line by line.

use vstd::prelude::*;

verus! {

/// Matrix of `width * height` cells, stored line by line in a vector.
pub struct Mat<T> {
    width: usize,
    height: usize,
    data: Vec<T>,
}

impl<T> Mat<T> {
    /// The vector always holds exactly `width * height` cells.
    #[verifier::type_invariant]
    spec fn well_formed(self) -> bool {
        self.data@.len() == self.width * self.height
    }

    /// The width of the matrix.
    pub closed spec fn w(&self) -> nat {
        self.width as nat
    }

    /// The height of the matrix.
    pub closed spec fn h(&self) -> nat {
        self.height as nat
    }

    /// The cells, line after line.
    pub closed spec fn cells(&self) -> Seq<T> {
        self.data@
    }

    /// Creates a matrix of the given size, each cell the default value.
    pub fn new(width: usize, height: usize) -> (m: Self) where T: Default
        requires
            width * height <= usize::MAX,
        ensures
            m.w() == width,
            m.h() == height,
            m.cells().len() == width * height,
            forall|i: int| 0 <= i < m.cells().len() ==> call_ensures(
                T::default,
                (),
                #[trigger] m.cells()[i],
            ),
    {
        let n = width * height;
        let mut data: Vec<T> = Vec::new();
        while data.len() < n
            invariant
                data@.len() <= n,
                forall|i: int| 0 <= i < data@.len() ==> call_ensures(
                    T::default,
                    (),
                    #[trigger] data@[i],
                ),
            decreases n - data@.len(),
        {
            data.push(T::default());
        }
        Mat { width, height, data }
    }

    /// Creates a matrix of the given size from its cells, line after line.
    pub fn from_vec(width: usize, height: usize, data: Vec<T>) -> (m: Self)
        requires
            data@.len() == width * height,
        ensures
            m.w() == width,
            m.h() == height,
            m.cells() == data@,
    {
        Mat { width, height, data }
    }

    /// The width of the matrix.
    pub fn width(&self) -> (w: usize)
        ensures
            w == self.w(),
            self.cells().len() == self.w() * self.h(),
    {
        proof {
            use_type_invariant(self);
        }
        self.width
    }

    /// The height of the matrix.
    pub fn height(&self) -> (h: usize)
        ensures
            h == self.h(),
            self.cells().len() == self.w() * self.h(),
    {
        proof {
            use_type_invariant(self);
        }
        self.height
    }

    /// The line `y` of the matrix.
    pub fn get_line(&self, y: usize) -> (line: &[T])
        requires
            self.w() == 0 || y < self.h(),
        ensures
            line@ == self.cells().subrange(y * self.w(), y * self.w() + self.w()),
    {
        proof {
            use_type_invariant(self);
            if self.width > 0 {
                assert((y as int) * (self.width as int) + (self.width as int) <= (self.height as int)
                    * (self.width as int)) by (nonlinear_arith)
                    requires
                        y < self.height,
                ;
                assert((self.height as int) * (self.width as int) == (self.width as int) * (
                self.height as int)) by (nonlinear_arith);
            }
        }
        let n = self.data.len();
        assert(n == self.data@.len());
        let start = if self.width == 0 { 0 } else { y * self.width };
        &self.data[start..start + self.width]
    }

    /// The cell at column `x` and line `y`.
    pub fn get(&self, x: usize, y: usize) -> (c: &T)
        requires
            x <= self.w(),
            y <= self.h(),
            y * self.w() + x < self.cells().len(),
        ensures
            *c == self.cells()[y * self.w() + x],
    {
        let n = self.data.len();
        proof {
            use_type_invariant(self);
            assert((y as int) * (self.width as int) <= (y as int) * (self.width as int) + x);
        }
        &self.data[y * self.width + x]
    }

    /// Replaces the cell at column `x` and line `y`.
    pub fn set(&mut self, x: usize, y: usize, value: T)
        requires
            x <= old(self).w(),
            y <= old(self).h(),
            y * old(self).w() + x < old(self).cells().len(),
        ensures
            final(self).w() == old(self).w(),
            final(self).h() == old(self).h(),
            final(self).cells() == old(self).cells().update(y * old(self).w() + x, value),
    {
        let n = self.data.len();
        proof {
            use_type_invariant(&*self);
            assert((y as int) * (self.width as int) <= (y as int) * (self.width as int) + x);
        }
        let i = y * self.width + x;
        let mut tmp = Mat { width: 0, height: 0, data: Vec::new() };
        std::mem::swap(self, &mut tmp);
        proof {
            use_type_invariant(&tmp);
        }
        let Mat { width, height, mut data } = tmp;
        data.set(i, value);
        *self = Mat { width, height, data };
    }
}

/// Writing a cell changes that cell alone: reading it back gives what was
/// written, and every other cell of the matrix keeps its value.
pub proof fn lemma_read_after_write<T>(
    before: Mat<T>,
    after: Mat<T>,
    x: nat,
    y: nat,
    value: T,
    x2: nat,
    y2: nat,
)
    requires
        before.cells().len() == before.w() * before.h(),
        x < before.w(),
        y < before.h(),
        x2 < before.w(),
        y2 < before.h(),
        after.w() == before.w(),
        after.h() == before.h(),
        after.cells() == before.cells().update((y * before.w() + x) as int, value),
    ensures
        after.cells()[(y2 * after.w() + x2) as int] == (if x2 == x && y2 == y {
            value
        } else {
            before.cells()[(y2 * before.w() + x2) as int]
        }),
{
    let w = before.w();
    let h = before.h();
    assert(y2 * w + x2 < w * h) by (nonlinear_arith)
        requires
            x2 < w,
            y2 < h,
    ;
    assert(y * w + x < w * h) by (nonlinear_arith)
        requires
            x < w,
            y < h,
    ;
    if !(x2 == x && y2 == y) {
        assert(y * w + x != y2 * w + x2) by (nonlinear_arith)
            requires
                x < w,
                x2 < w,
                !(x2 == x && y2 == y),
        ;
    }
}

} // verus!
