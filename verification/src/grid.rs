//! The playing field: a rectangle of cells and what happens at its edge.

use vstd::prelude::*;

verus! {

/// What crossing the edge of the grid means for the head.
#[derive(PartialEq, Eq, Debug, Copy, Clone, Structural)]
pub enum BoundaryPolicy {
    /// The session ends.
    Lethal,
    /// The head comes back in at the opposite edge.
    Wrap,
}

/// A grid of `width` by `height` cells. The cells are `(x, y)` with
/// `0 <= x < width` and `0 <= y < height`.
#[derive(PartialEq, Eq, Debug, Copy, Clone, Structural)]
pub struct Grid {
    pub width: i32,
    pub height: i32,
    pub policy: BoundaryPolicy,
}

/// Where a coordinate that may have left `0..n` comes back in: past the far
/// edge at 0, before the near edge at `n - 1`.
pub open spec fn wrap_coord(v: i32, n: i32) -> i32 {
    if v >= n {
        0i32
    } else if v < 0 {
        (n - 1) as i32
    } else {
        v
    }
}

impl Grid {
    /// A grid has at least one cell.
    pub open spec fn wf(self) -> bool {
        self.width >= 1 && self.height >= 1
    }

    /// Whether the grid has at least one cell.
    pub fn is_valid(&self) -> (ok: bool)
        ensures
            ok == self.wf(),
    {
        self.width >= 1 && self.height >= 1
    }

    /// Whether `(x, y)` is a cell of the grid.
    pub open spec fn spec_contains(self, x: i32, y: i32) -> bool {
        0 <= x < self.width && 0 <= y < self.height
    }

    /// The grid of the given size, or `None` where it would have no cell.
    pub fn new(width: i32, height: i32, policy: BoundaryPolicy) -> (g: Option<Grid>)
        ensures
            g == if width >= 1 && height >= 1 {
                Some(Grid { width, height, policy })
            } else {
                None
            },
            g is Some ==> g->0.wf(),
    {
        if width >= 1 && height >= 1 {
            Some(Grid { width, height, policy })
        } else {
            None
        }
    }

    /// Where the grid puts something that has come to `(x, y)`: on a wrapping
    /// grid each coordinate that has left the grid comes back in at the
    /// opposite edge, on a lethal grid it stays where it is.
    pub open spec fn settle(self, x: i32, y: i32) -> (i32, i32) {
        match self.policy {
            BoundaryPolicy::Wrap => (wrap_coord(x, self.width), wrap_coord(y, self.height)),
            BoundaryPolicy::Lethal => (x, y),
        }
    }

    #[verifier::when_used_as_spec(spec_contains)]
    pub fn contains(self, x: i32, y: i32) -> (r: bool)
        ensures
            r == self.spec_contains(x, y),
    {
        0 <= x && x < self.width && 0 <= y && y < self.height
    }
}

impl Default for Grid {
    /// Ten by ten cells, wrapping at the edge.
    fn default() -> (g: Grid)
        ensures
            g == (Grid { width: 10, height: 10, policy: BoundaryPolicy::Wrap }),
            g.wf(),
    {
        Grid { width: 10, height: 10, policy: BoundaryPolicy::Wrap }
    }
}

} // verus!
