use vstd::prelude::*;
use crate::bodies::MoleculeInfo;
use crate::geometry::{Point, POS_LIMIT};

verus! {

/// The reactor at the middle of the arena; molecules are emitted from an
/// aperture just below its center.
#[derive(Clone, Copy, Debug, PartialEq, Eq, Structural)]
pub struct Reactor {
    pub center: Point,
}

/// Distance of the emission aperture below the reactor's center.
pub const APERTURE_DROP: i64 = 48_000;

/// Largest magnitude of a reactor's center coordinates.
pub const REACTOR_LIMIT: i64 = 1_000_000;

impl Reactor {
    pub open spec fn wf(self) -> bool {
        self.center.in_range(REACTOR_LIMIT as int)
    }

    pub open spec fn aperture_spec(self) -> Point {
        Point { x: self.center.x, y: (self.center.y - APERTURE_DROP) as i64 }
    }

    /// The point at which scripted molecules appear.
    pub fn aperture(&self) -> (r: Point)
        requires
            self.wf(),
        ensures
            r == self.aperture_spec(),
            r.in_range(POS_LIMIT as int),
    {
        Point { x: self.center.x, y: self.center.y - APERTURE_DROP }
    }
}

/// Right edge of the play field for a body of radius `r`: the field is the
/// window less the chrome of the heads-up display on each side.
pub open spec fn x_max(r: int) -> int {
    518_500 - r
}

pub open spec fn x_min(r: int) -> int {
    -516_500 + r
}

pub open spec fn y_max(r: int) -> int {
    340_000 - r
}

pub open spec fn y_min(r: int) -> int {
    -329_000 + r
}

pub open spec fn confine_coord(v: int, lo: int, hi: int) -> int {
    if v < lo {
        lo
    } else if v > hi {
        hi
    } else {
        v
    }
}

/// A molecule with its center moved back inside the play field.
pub open spec fn confined(m: MoleculeInfo) -> MoleculeInfo {
    MoleculeInfo {
        pos: Point {
            x: confine_coord(m.pos.x as int, x_min(m.radius as int), x_max(m.radius as int)) as i64,
            y: confine_coord(m.pos.y as int, y_min(m.radius as int), y_max(m.radius as int)) as i64,
        },
        ..m
    }
}

fn confine_one(m: MoleculeInfo) -> (r: MoleculeInfo)
    requires
        m.wf(),
    ensures
        r == confined(m),
        r.wf(),
{
    let r = m.radius;
    let (xlo, xhi) = (-516_500 + r, 518_500 - r);
    let (ylo, yhi) = (-329_000 + r, 340_000 - r);
    let mut out = m;
    if m.pos.x > xhi {
        out.pos.x = xhi;
    }
    if m.pos.x < xlo {
        out.pos.x = xlo;
    }
    if m.pos.y > yhi {
        out.pos.y = yhi;
    }
    if m.pos.y < ylo {
        out.pos.y = ylo;
    }
    out
}

/// Moves every molecule's center back inside the play field, its radius
/// included; velocities are left alone.
pub fn clamp_inside_reactor(molecules: &mut Vec<MoleculeInfo>)
    requires
        forall|i: int| 0 <= i < old(molecules).len() ==> #[trigger] old(molecules)[i].wf(),
    ensures
        final(molecules).len() == old(molecules).len(),
        forall|i: int|
            0 <= i < final(molecules).len() ==> #[trigger] final(molecules)[i] == confined(
                old(molecules)[i],
            ),
        forall|i: int| 0 <= i < final(molecules).len() ==> #[trigger] final(molecules)[i].wf(),
{
    let n = molecules.len();
    let mut i: usize = 0;
    while i < n
        invariant
            n == molecules.len(),
            n == old(molecules).len(),
            i <= n,
            forall|j: int| 0 <= j < i ==> #[trigger] molecules[j] == confined(old(molecules)[j]),
            forall|j: int| i <= j < n ==> #[trigger] molecules[j] == old(molecules)[j],
            forall|j: int| 0 <= j < n ==> #[trigger] molecules[j].wf(),
        decreases n - i,
    {
        let m = confine_one(molecules[i]);
        molecules.set(i, m);
        i += 1;
    }
}

/// A molecule pushed past an edge by some overflow is brought back by
/// exactly that overflow, whatever its velocity.
pub proof fn lemma_confine_removes_overflow(m: MoleculeInfo, overflow: int)
    requires
        m.wf(),
        overflow > 0,
    ensures
        m.pos.x == x_max(m.radius as int) + overflow ==> confined(m).pos.x == m.pos.x - overflow,
        m.pos.x == x_min(m.radius as int) - overflow ==> confined(m).pos.x == m.pos.x + overflow,
        m.pos.y == y_max(m.radius as int) + overflow ==> confined(m).pos.y == m.pos.y - overflow,
        m.pos.y == y_min(m.radius as int) - overflow ==> confined(m).pos.y == m.pos.y + overflow,
        confined(m).vel == m.vel,
{
}

} // verus!
