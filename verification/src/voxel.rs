//! Dense 3-D voxel storage in x-fastest order, as used by the resonance
//! field solver. The placement of the grid in space (voxel size, origin)
//! and interpolation are handled by the caller.

use vstd::prelude::*;

verus! {

/// Linear index of voxel (x, y, z) in a grid of `dx` × `dy` × `dz` voxels.
pub open spec fn linear_index(dx: nat, dy: nat, x: nat, y: nat, z: nat) -> nat {
    x + y * dx + z * dx * dy
}

/// Dense voxel grid of `T` values.
#[derive(Clone, Debug)]
pub struct VoxelGrid<T> {
    data: Vec<T>,
    dim_x: usize,
    dim_y: usize,
    dim_z: usize,
}

impl<T> VoxelGrid<T> {
    /// Grid dimensions (X, Y, Z).
    pub closed spec fn dims(&self) -> (nat, nat, nat) {
        (self.dim_x as nat, self.dim_y as nat, self.dim_z as nat)
    }

    /// Storage holds exactly one value per voxel.
    pub closed spec fn wf(&self) -> bool {
        self.data@.len() == self.dim_x * self.dim_y * self.dim_z
    }

    /// Is (x, y, z) inside the grid?
    pub open spec fn in_bounds(&self, x: int, y: int, z: int) -> bool {
        0 <= x < self.dims().0 && 0 <= y < self.dims().1 && 0 <= z < self.dims().2
    }

    /// Value stored at an in-bounds voxel.
    pub closed spec fn at(&self, x: int, y: int, z: int) -> T {
        self.data@[linear_index(self.dims().0, self.dims().1, x as nat, y as nat, z as nat) as int]
    }
}

/// Row-major packing of (x, y) with rows of width `w` and `h` rows is in
/// range and one-to-one.
proof fn lemma_row_major(x: int, y: int, x2: int, y2: int, w: int, h: int)
    requires
        0 <= x < w,
        0 <= y < h,
        0 <= x2 < w,
        0 <= y2 < h,
    ensures
        0 <= x + y * w < w * h,
        x + y * w == x2 + y2 * w ==> x == x2 && y == y2,
{
    broadcast use vstd::arithmetic::mul::lemma_mul_is_distributive_add_other_way;
    broadcast use vstd::arithmetic::mul::lemma_mul_is_commutative;
    vstd::arithmetic::mul::lemma_mul_inequality(y + 1, h, w);
    vstd::arithmetic::mul::lemma_mul_nonnegative(y, w);
    assert((y + 1) * w == y * w + 1 * w);
    if y < y2 {
        vstd::arithmetic::mul::lemma_mul_inequality(y + 1, y2, w);
        assert((y + 1) * w == y * w + 1 * w);
    } else if y2 < y {
        vstd::arithmetic::mul::lemma_mul_inequality(y2 + 1, y, w);
        assert((y2 + 1) * w == y2 * w + 1 * w);
    }
}

/// In-bounds voxels have distinct linear indices within the storage.
pub proof fn law_index_in_range_and_injective(
    dx: nat,
    dy: nat,
    dz: nat,
    x: nat,
    y: nat,
    z: nat,
    x2: nat,
    y2: nat,
    z2: nat,
)
    requires
        x < dx && y < dy && z < dz,
        x2 < dx && y2 < dy && z2 < dz,
    ensures
        linear_index(dx, dy, x, y, z) < dx * dy * dz,
        linear_index(dx, dy, x, y, z) == linear_index(dx, dy, x2, y2, z2) ==> (x == x2 && y == y2 && z == z2),
{
    lemma_row_major(x as int, y as int, x2 as int, y2 as int, dx as int, dy as int);
    lemma_row_major(x2 as int, y2 as int, x as int, y as int, dx as int, dy as int);
    let p = x + y * dx;
    let p2 = x2 + y2 * dx;
    lemma_row_major(p as int, z as int, p2 as int, z2 as int, (dx * dy) as int, dz as int);
    vstd::arithmetic::mul::lemma_mul_is_associative(z as int, dx as int, dy as int);
    vstd::arithmetic::mul::lemma_mul_is_associative(z2 as int, dx as int, dy as int);
}

/// The `k`-th lattice point of a `dx` × `dy` × `dz` grid when points are
/// enumerated with x outermost and z innermost.
pub open spec fn lattice_point(dy: nat, dz: nat, k: nat) -> (nat, nat, nat) {
    (k / (dy * dz), (k / dz) % dy, k % dz)
}

/// Every lattice point (x, y, z) of a `dx` × `dy` × `dz` grid, x outermost
/// and z innermost: the order in which the light-probe grid is laid out and
/// in which voxels are visited.
pub fn lattice_points(dx: u32, dy: u32, dz: u32) -> (r: Vec<(u32, u32, u32)>)
    requires
        dx * dy * dz <= usize::MAX,
    ensures
        r@.len() == dx * dy * dz,
        forall|k: int|
            0 <= k < r@.len() ==> {
                let p = #[trigger] r@[k];
                &&& (p.0 as nat, p.1 as nat, p.2 as nat) == lattice_point(dy as nat, dz as nat, k as nat)
                &&& p.0 < dx && p.1 < dy && p.2 < dz
            },
{
    let mut r: Vec<(u32, u32, u32)> = Vec::new();
    let ghost yz = (dy * dz) as nat;
    for x in 0..dx
        invariant
            dx * dy * dz <= usize::MAX,
            yz == dy * dz,
            r@.len() == x * yz,
            forall|k: int|
                0 <= k < r@.len() ==> {
                    let p = #[trigger] r@[k];
                    &&& (p.0 as nat, p.1 as nat, p.2 as nat) == lattice_point(dy as nat, dz as nat, k as nat)
                    &&& p.0 < dx && p.1 < dy && p.2 < dz
                },
    {
        assert(r@.len() == x * yz + 0 * dz);
        for y in 0..dy
            invariant
                x < dx,
                dx * dy * dz <= usize::MAX,
                yz == dy * dz,
                r@.len() == x * yz + y * dz,
                forall|k: int|
                    0 <= k < r@.len() ==> {
                        let p = #[trigger] r@[k];
                        &&& (p.0 as nat, p.1 as nat, p.2 as nat) == lattice_point(dy as nat, dz as nat, k as nat)
                        &&& p.0 < dx && p.1 < dy && p.2 < dz
                    },
        {
            for z in 0..dz
                invariant
                    x < dx,
                    y < dy,
                    dx * dy * dz <= usize::MAX,
                    yz == dy * dz,
                    r@.len() == x * yz + y * dz + z,
                    forall|k: int|
                        0 <= k < r@.len() ==> {
                            let p = #[trigger] r@[k];
                            &&& (p.0 as nat, p.1 as nat, p.2 as nat) == lattice_point(dy as nat, dz as nat, k as nat)
                            &&& p.0 < dx && p.1 < dy && p.2 < dz
                        },
            {
                proof {
                    lemma_lattice_decompose(x as nat, y as nat, z as nat, dy as nat, dz as nat);
                    lemma_lattice_len_fits(x as nat, y as nat, z as nat, dx as nat, dy as nat, dz as nat);
                }
                r.push((x, y, z));
            }
            proof {
                vstd::arithmetic::mul::lemma_mul_is_distributive_add_other_way(dz as int, y as int, 1);
            }
        }
        proof {
            vstd::arithmetic::mul::lemma_mul_is_distributive_add_other_way(yz as int, x as int, 1);
            assert(dy * dz == yz);
        }
    }
    proof {
        vstd::arithmetic::mul::lemma_mul_is_associative(dx as int, dy as int, dz as int);
    }
    r
}

/// Position `x·dy·dz + y·dz + z` decomposes back into (x, y, z).
proof fn lemma_lattice_decompose(x: nat, y: nat, z: nat, dy: nat, dz: nat)
    requires
        y < dy,
        z < dz,
    ensures
        lattice_point(dy, dz, x * (dy * dz) + y * dz + z) == (x, y, z),
{
    let k = x * (dy * dz) + y * dz + z;
    let row = x * dy + y;
    assert(k == row * dz + z) by (nonlinear_arith)
        requires k == x * (dy * dz) + y * dz + z, row == x * dy + y;
    vstd::arithmetic::div_mod::lemma_fundamental_div_mod_converse(k as int, dz as int, row as int, z as int);
    vstd::arithmetic::div_mod::lemma_fundamental_div_mod_converse(row as int, dy as int, x as int, y as int);
    assert(y * dz + z < dy * dz) by (nonlinear_arith)
        requires y < dy, z < dz;
    vstd::arithmetic::div_mod::lemma_fundamental_div_mod_converse(k as int, (dy * dz) as int, x as int, (y * dz + z) as int);
}

/// While filling a grid that fits in memory, the running length fits too.
proof fn lemma_lattice_len_fits(x: nat, y: nat, z: nat, dx: nat, dy: nat, dz: nat)
    requires
        x < dx,
        y < dy,
        z < dz,
    ensures
        x * (dy * dz) + y * dz + z < dx * dy * dz,
{
    assert(y * dz + z < dy * dz) by (nonlinear_arith)
        requires y < dy, z < dz;
    assert(x * (dy * dz) + (dy * dz) <= dx * (dy * dz)) by (nonlinear_arith)
        requires x < dx;
    vstd::arithmetic::mul::lemma_mul_is_associative(dx as int, dy as int, dz as int);
}

/// Material class of a voxel of a room's shell.
#[derive(Debug, Clone, Copy, PartialEq, Eq, Structural)]
pub enum MaterialKind {
    Air,
    Drywall,
    Concrete,
}

/// Material of voxel (x, y, z) in a `dx` × `dy` × `dz` room: concrete
/// floor and ceiling (y at either end), drywall on the four walls (x or z at
/// either end), air inside.
pub open spec fn shell_kind(dx: nat, dy: nat, dz: nat, x: nat, y: nat, z: nat) -> MaterialKind {
    if y == 0 || y == dy - 1 {
        MaterialKind::Concrete
    } else if x == 0 || x == dx - 1 || z == 0 || z == dz - 1 {
        MaterialKind::Drywall
    } else {
        MaterialKind::Air
    }
}

/// In a room shell a voxel is concrete exactly on the floor (y = 0) and
/// the ceiling (y = dim_y - 1); otherwise it is drywall exactly on the four
/// walls (x or z at either end); every voxel strictly inside on all three
/// axes is air.
pub proof fn law_room_shell_layers(dx: nat, dy: nat, dz: nat, x: nat, y: nat, z: nat)
    requires
        x < dx,
        y < dy,
        z < dz,
    ensures
        (shell_kind(dx, dy, dz, x, y, z) == MaterialKind::Concrete) <==> (y == 0 || y + 1 == dy),
        (shell_kind(dx, dy, dz, x, y, z) == MaterialKind::Drywall) <==> (0 < y && y + 1 < dy && (x == 0 || x
            + 1 == dx || z == 0 || z + 1 == dz)),
        (0 < x && x + 1 < dx && 0 < y && y + 1 < dy && 0 < z && z + 1 < dz) ==> shell_kind(dx, dy, dz, x, y, z)
            == MaterialKind::Air,
{
}

/// Material of one voxel of the room shell.
fn shell_kind_at(dx: usize, dy: usize, dz: usize, x: usize, y: usize, z: usize) -> (r: MaterialKind)
    requires
        x < dx,
        y < dy,
        z < dz,
    ensures
        r == shell_kind(dx as nat, dy as nat, dz as nat, x as nat, y as nat, z as nat),
{
    if y == 0 || y == dy - 1 {
        MaterialKind::Concrete
    } else if x == 0 || x == dx - 1 || z == 0 || z == dz - 1 {
        MaterialKind::Drywall
    } else {
        MaterialKind::Air
    }
}

/// The material grid of a box-shaped room of `dim_x` × `dim_y` × `dim_z`
/// voxels: air inside drywall walls, with a concrete floor and ceiling.
pub fn room_shell(dim_x: usize, dim_y: usize, dim_z: usize) -> (r: VoxelGrid<MaterialKind>)
    requires
        dim_x * dim_y * dim_z <= usize::MAX,
    ensures
        r.wf(),
        r.dims() == (dim_x as nat, dim_y as nat, dim_z as nat),
        forall|x: int, y: int, z: int|
            #![trigger r.at(x, y, z)]
            r.in_bounds(x, y, z) ==> r.at(x, y, z) == shell_kind(
                dim_x as nat,
                dim_y as nat,
                dim_z as nat,
                x as nat,
                y as nat,
                z as nat,
            ),
{
    let mut data: Vec<MaterialKind> = Vec::new();
    let ghost xy = (dim_x * dim_y) as nat;
    assert(data@.len() == 0 * xy);
    for z in 0..dim_z
        invariant
            dim_x * dim_y * dim_z <= usize::MAX,
            xy == dim_x * dim_y,
            data@.len() == z * xy,
            forall|k: int|
                0 <= k < data@.len() ==> {
                    let p = lattice_point(dim_y as nat, dim_x as nat, k as nat);
                    #[trigger] data@[k] == shell_kind(dim_x as nat, dim_y as nat, dim_z as nat, p.2, p.1, p.0)
                },
    {
        assert(data@.len() == z * xy + 0 * dim_x);
        for y in 0..dim_y
            invariant
                z < dim_z,
                dim_x * dim_y * dim_z <= usize::MAX,
                xy == dim_x * dim_y,
                data@.len() == z * xy + y * dim_x,
                forall|k: int|
                    0 <= k < data@.len() ==> {
                        let p = lattice_point(dim_y as nat, dim_x as nat, k as nat);
                        #[trigger] data@[k] == shell_kind(dim_x as nat, dim_y as nat, dim_z as nat, p.2, p.1, p.0)
                    },
        {
            for x in 0..dim_x
                invariant
                    z < dim_z,
                    y < dim_y,
                    dim_x * dim_y * dim_z <= usize::MAX,
                    xy == dim_x * dim_y,
                    data@.len() == z * xy + y * dim_x + x,
                    forall|k: int|
                        0 <= k < data@.len() ==> {
                            let p = lattice_point(dim_y as nat, dim_x as nat, k as nat);
                            #[trigger] data@[k] == shell_kind(dim_x as nat, dim_y as nat, dim_z as nat, p.2, p.1, p.0)
                        },
            {
                proof {
                    assert(dim_y * dim_x == xy) by (nonlinear_arith)
                        requires xy == dim_x * dim_y;
                    lemma_lattice_decompose(z as nat, y as nat, x as nat, dim_y as nat, dim_x as nat);
                    lemma_lattice_len_fits(z as nat, y as nat, x as nat, dim_z as nat, dim_y as nat, dim_x as nat);
                    assert(dim_z * dim_y * dim_x == dim_x * dim_y * dim_z) by (nonlinear_arith);
                }
                let kind = shell_kind_at(dim_x, dim_y, dim_z, x, y, z);
                data.push(kind);
            }
            proof {
                vstd::arithmetic::mul::lemma_mul_is_distributive_add_other_way(dim_x as int, y as int, 1);
            }
        }
        proof {
            vstd::arithmetic::mul::lemma_mul_is_distributive_add_other_way(xy as int, z as int, 1);
            vstd::arithmetic::mul::lemma_mul_is_commutative(dim_x as int, dim_y as int);
        }
    }
    proof {
        vstd::arithmetic::mul::lemma_mul_is_associative(dim_x as int, dim_y as int, dim_z as int);
        vstd::arithmetic::mul::lemma_mul_is_commutative((dim_x * dim_y) as int, dim_z as int);
    }
    let r = VoxelGrid { data, dim_x, dim_y, dim_z };
    assert forall|x: int, y: int, z: int|
        #![trigger r.at(x, y, z)]
        r.in_bounds(x, y, z) implies r.at(x, y, z) == shell_kind(
            dim_x as nat,
            dim_y as nat,
            dim_z as nat,
            x as nat,
            y as nat,
            z as nat,
        ) by {
        let k = linear_index(dim_x as nat, dim_y as nat, x as nat, y as nat, z as nat);
        assert(k == z * (dim_y * dim_x) + y * dim_x + x) by (nonlinear_arith)
            requires k == x + y * dim_x + z * dim_x * dim_y;
        lemma_lattice_decompose(z as nat, y as nat, x as nat, dim_y as nat, dim_x as nat);
        law_index_in_range_and_injective(dim_x as nat, dim_y as nat, dim_z as nat, x as nat, y as nat, z as nat, x as nat, y as nat, z as nat);
    }
    r
}

impl<T: Clone + Default> VoxelGrid<T> {
    /// A `size`³ grid filled with default values.
    pub fn new(size: usize) -> (r: Self)
        requires
            size * size * size <= usize::MAX,
        ensures
            r.wf(),
            r.dims() == (size as nat, size as nat, size as nat),
    {
        Self::with_dimensions(size, size, size)
    }

    /// A `dim_x` × `dim_y` × `dim_z` grid filled with default values.
    pub fn with_dimensions(dim_x: usize, dim_y: usize, dim_z: usize) -> (r: Self)
        requires
            dim_x * dim_y * dim_z <= usize::MAX,
        ensures
            r.wf(),
            r.dims() == (dim_x as nat, dim_y as nat, dim_z as nat),
    {
        let n = if dim_z == 0 || dim_y == 0 {
            assert(dim_x * dim_y * dim_z == 0) by (nonlinear_arith)
                requires dim_z == 0 || dim_y == 0;
            0
        } else {
            assert(dim_x * dim_y <= dim_x * dim_y * dim_z) by (nonlinear_arith)
                requires dim_z >= 1;
            dim_x * dim_y * dim_z
        };
        VoxelGrid { data: vec![T::default(); n], dim_x, dim_y, dim_z }
    }

    /// Clone of the value at (x, y, z), or the default value outside the grid.
    pub fn get(&self, x: usize, y: usize, z: usize) -> (r: T)
        requires
            self.wf(),
        ensures
            self.in_bounds(x as int, y as int, z as int) ==> cloned(self.at(x as int, y as int, z as int), r),
    {
        if x < self.dim_x && y < self.dim_y && z < self.dim_z {
            let ghost (dx, dy, dz) = self.dims();
            let _len = self.data.len();
            proof {
                self.lemma_index_fits(x, y, z);
            }
            let idx = self.index(x, y, z);
            self.data[idx].clone()
        } else {
            T::default()
        }
    }

}

impl<T> VoxelGrid<T> {
    /// Grid dimensions (X, Y, Z).
    pub fn dimensions(&self) -> (r: (usize, usize, usize))
        ensures
            (r.0 as nat, r.1 as nat, r.2 as nat) == self.dims(),
    {
        (self.dim_x, self.dim_y, self.dim_z)
    }

    /// Linear storage index of voxel (x, y, z).
    pub fn index(&self, x: usize, y: usize, z: usize) -> (r: usize)
        requires
            z * self.dims().0 <= usize::MAX,
            linear_index(self.dims().0, self.dims().1, x as nat, y as nat, z as nat) <= usize::MAX,
        ensures
            r == linear_index(self.dims().0, self.dims().1, x as nat, y as nat, z as nat),
    {
        let dx = self.dim_x;
        let dy = self.dim_y;
        proof {
            vstd::arithmetic::mul::lemma_mul_nonnegative(y as int, dx as int);
            vstd::arithmetic::mul::lemma_mul_nonnegative(z as int, dx as int);
            vstd::arithmetic::mul::lemma_mul_nonnegative((z * dx) as int, dy as int);
        }
        x + y * dx + z * dx * dy
    }

    /// For an in-bounds voxel of a well-formed grid, computing its index
    /// cannot overflow and lands inside the storage.
    proof fn lemma_index_fits(&self, x: usize, y: usize, z: usize)
        requires
            self.wf(),
            self.in_bounds(x as int, y as int, z as int),
            self.data@.len() <= usize::MAX,
        ensures
            z * self.dims().0 <= usize::MAX,
            linear_index(self.dims().0, self.dims().1, x as nat, y as nat, z as nat) < self.data@.len(),
    {
        let (dx, dy, dz) = self.dims();
        law_index_in_range_and_injective(dx, dy, dz, x as nat, y as nat, z as nat, x as nat, y as nat, z as nat);
        vstd::arithmetic::mul::lemma_mul_nonnegative(z as int, dx as int);
        if z * dx > 0 {
            vstd::arithmetic::mul::lemma_mul_increases(dy as int, (z * dx) as int);
            vstd::arithmetic::mul::lemma_mul_is_commutative(dy as int, (z * dx) as int);
        }
        vstd::arithmetic::mul::lemma_mul_nonnegative(y as int, dx as int);
    }

    /// Store `value` at (x, y, z); out-of-bounds writes are ignored.
    pub fn set(&mut self, x: usize, y: usize, z: usize, value: T)
        requires
            old(self).wf(),
        ensures
            final(self).wf(),
            final(self).dims() == old(self).dims(),
            forall|a: int, b: int, c: int|
                #![trigger final(self).at(a, b, c)]
                final(self).in_bounds(a, b, c) ==> final(self).at(a, b, c) == (if old(self).in_bounds(
                    x as int,
                    y as int,
                    z as int,
                ) && a == x && b == y && c == z {
                    value
                } else {
                    old(self).at(a, b, c)
                }),
    {
        if x < self.dim_x && y < self.dim_y && z < self.dim_z {
            let ghost (dx, dy, dz) = self.dims();
            let _len = self.data.len();
            proof {
                self.lemma_index_fits(x, y, z);
            }
            let idx = self.index(x, y, z);
            let ghost before = self.data@;
            self.data[idx] = value;
            assert forall|a: int, b: int, c: int|
                #![trigger self.at(a, b, c)]
                self.in_bounds(a, b, c) implies self.at(a, b, c) == (if a == x && b == y && c == z {
                    value
                } else {
                    old(self).at(a, b, c)
                }) by {
                law_index_in_range_and_injective(dx, dy, dz, x as nat, y as nat, z as nat, a as nat, b as nat, c as nat);
                law_index_in_range_and_injective(dx, dy, dz, a as nat, b as nat, c as nat, x as nat, y as nat, z as nat);
            }
        }
    }

    /// Reference to the value at (x, y, z), or `None` outside the grid.
    pub fn get_ref(&self, x: usize, y: usize, z: usize) -> (r: Option<&T>)
        requires
            self.wf(),
        ensures
            self.in_bounds(x as int, y as int, z as int) ==> r == Some(&self.at(x as int, y as int, z as int)),
            !self.in_bounds(x as int, y as int, z as int) ==> r is None,
    {
        if x < self.dim_x && y < self.dim_y && z < self.dim_z {
            let ghost (dx, dy, dz) = self.dims();
            let _len = self.data.len();
            proof {
                self.lemma_index_fits(x, y, z);
            }
            let idx = self.index(x, y, z);
            Some(&self.data[idx])
        } else {
            None
        }
    }
}

} // verus!
