//! Copying subresource data into an upload buffer and planning the copies that move it into the destination resource.

use vstd::prelude::*;
use vstd::arithmetic::div_mod::lemma_fundamental_div_mod_converse;

use crate::barrier::{TextureCopyLocation, TextureCopySource};
use crate::enums::ResourceDimension;
use crate::resource::{PlacedSubresourceFootprint, Resource, ResourceDesc, SubresourceData};
use crate::utils::ByteCount;

verus! {

/// Where the rows and slices of a subresource lie in a byte buffer (`D3D12_MEMCPY_DEST`):
/// row `y` of slice `z` starts at `offset + z * slice_pitch + y * row_pitch`.
#[derive(Clone, Copy, Debug, PartialEq, Eq)]
pub struct MemcpyDest {
    pub offset: usize,
    pub row_pitch: usize,
    pub slice_pitch: usize,
}

impl MemcpyDest {
    /// Position of byte `k` of row `y` of slice `z`.
    pub open spec fn byte_index(self, z: int, y: int, k: int) -> int {
        self.offset + z * self.slice_pitch + y * self.row_pitch + k
    }

    /// Position `i` lies in the first `len` bytes of row `y` of slice `z`.
    pub open spec fn in_row(self, i: int, z: int, y: int, len: int) -> bool {
        self.byte_index(z, y, 0) <= i < self.byte_index(z, y, 0) + len
    }

    /// `num_slices` slices of `num_rows` rows of `row_size` bytes fit in `len` bytes.
    pub open spec fn holds_rows(self, len: int, row_size: int, num_rows: int, num_slices: int) -> bool {
        num_rows == 0 || num_slices == 0 || self.byte_index(num_slices - 1, num_rows - 1, row_size) <= len
    }

    /// Rows of `row_size` bytes, `num_rows` to a slice, never share a byte.
    pub open spec fn rows_disjoint(self, row_size: int, num_rows: int) -> bool {
        row_size <= self.row_pitch && num_rows * self.row_pitch <= self.slice_pitch
    }

    /// Position `i` lies in none of the rows.
    pub open spec fn outside_rows(self, i: int, row_size: int, num_rows: int, num_slices: int) -> bool {
        forall|z: int, y: int|
            0 <= z < num_slices && 0 <= y < num_rows ==> !#[trigger] self.in_row(i, z, y, row_size)
    }

    /// No row after row `y` of slice `z`, in slice-major order, covers position `i`: a copy
    /// that writes the rows in that order leaves the byte that row `(z, y)` wrote there.
    pub open spec fn not_overwritten(self, i: int, z: int, y: int, row_size: int, num_rows: int, num_slices: int) -> bool {
        forall|z2: int, y2: int|
            0 <= z2 < num_slices && 0 <= y2 < num_rows && row_before(z, y, z2, y2) ==> !#[trigger] self.in_row(
                i,
                z2,
                y2,
                row_size,
            )
    }
}

/// Row `(z2, y2)` comes before row `(z, y)` in slice-major order.
pub open spec fn row_before(z2: int, y2: int, z: int, y: int) -> bool {
    z2 < z || (z2 == z && y2 < y)
}

/// No row strictly between row `(z1, y1)` and row `(z, y)` covers position `i`.
spec fn untouched_between(l: MemcpyDest, i: int, z1: int, y1: int, z: int, y: int, row_size: int, num_rows: int) -> bool {
    forall|z2: int, y2: int|
        0 <= z2 && 0 <= y2 < num_rows && row_before(z1, y1, z2, y2) && row_before(z2, y2, z, y) ==> !#[trigger] l.in_row(
            i,
            z2,
            y2,
            row_size,
        )
}

proof fn lemma_index_bound(l: MemcpyDest, z: int, y: int, k: int, num_slices: int, num_rows: int, row_size: int)
    requires
        0 <= z < num_slices,
        0 <= y < num_rows,
        0 <= k <= row_size,
    ensures
        l.offset <= l.byte_index(z, y, k) <= l.byte_index(num_slices - 1, num_rows - 1, row_size),
{
    assert(0 <= z * l.slice_pitch <= (num_slices - 1) * l.slice_pitch) by (nonlinear_arith)
        requires 0 <= z <= num_slices - 1, l.slice_pitch >= 0;
    assert(0 <= y * l.row_pitch <= (num_rows - 1) * l.row_pitch) by (nonlinear_arith)
        requires 0 <= y <= num_rows - 1, l.row_pitch >= 0;
}

proof fn lemma_rows_disjoint(
    l: MemcpyDest,
    row_size: int,
    num_rows: int,
    z1: int,
    y1: int,
    k1: int,
    z2: int,
    y2: int,
    k2: int,
)
    requires
        l.rows_disjoint(row_size, num_rows),
        0 <= z1 && 0 <= z2,
        0 <= y1 < num_rows && 0 <= y2 < num_rows,
        0 <= k1 < row_size && 0 <= k2 < row_size,
        l.byte_index(z1, y1, k1) == l.byte_index(z2, y2, k2),
    ensures
        z1 == z2 && y1 == y2 && k1 == k2,
{
    let rp = l.row_pitch as int;
    let sp = l.slice_pitch as int;
    assert(0 <= y1 * rp + k1 < sp) by (nonlinear_arith)
        requires 0 <= y1 < num_rows, 0 <= k1 < row_size, row_size <= rp, num_rows * rp <= sp;
    assert(0 <= y2 * rp + k2 < sp) by (nonlinear_arith)
        requires 0 <= y2 < num_rows, 0 <= k2 < row_size, row_size <= rp, num_rows * rp <= sp;
    let x = z1 * sp + (y1 * rp + k1);
    assert(x == z2 * sp + (y2 * rp + k2));
    assert(z1 * sp == sp * z1 && z2 * sp == sp * z2) by (nonlinear_arith);
    lemma_fundamental_div_mod_converse(x, sp, z1, y1 * rp + k1);
    lemma_fundamental_div_mod_converse(x, sp, z2, y2 * rp + k2);
    let w = y1 * rp + k1;
    assert(y1 * rp == rp * y1 && y2 * rp == rp * y2) by (nonlinear_arith);
    lemma_fundamental_div_mod_converse(w, rp, y1, k1);
    lemma_fundamental_div_mod_converse(w, rp, y2, k2);
}

/// When the rows of a layout never share a byte, no row is written over by a later one.
pub proof fn lemma_disjoint_rows_not_overwritten(
    l: MemcpyDest,
    row_size: int,
    num_rows: int,
    num_slices: int,
    z: int,
    y: int,
    k: int,
)
    requires
        l.rows_disjoint(row_size, num_rows),
        0 <= z < num_slices,
        0 <= y < num_rows,
        0 <= k < row_size,
    ensures
        l.not_overwritten(l.byte_index(z, y, k), z, y, row_size, num_rows, num_slices),
{
    let p = l.byte_index(z, y, k);
    assert forall|z2: int, y2: int|
        0 <= z2 < num_slices && 0 <= y2 < num_rows && row_before(z, y, z2, y2) implies !#[trigger] l.in_row(
        p,
        z2,
        y2,
        row_size,
    ) by {
        if l.in_row(p, z2, y2, row_size) {
            let k2 = p - l.byte_index(z2, y2, 0);
            assert(l.byte_index(z2, y2, k2) == p);
            lemma_rows_disjoint(l, row_size, num_rows, z, y, k, z2, y2, k2);
        }
    }
}

/// Copies `len` bytes from `src[src_start..]` over `dest[dest_start..]`.
fn copy_row(dest: &mut Vec<u8>, dest_start: usize, src: &[u8], src_start: usize, len: usize)
    requires
        dest_start + len <= old(dest)@.len(),
        src_start + len <= src@.len(),
    ensures
        final(dest)@.len() == old(dest)@.len(),
        forall|i: int| dest_start <= i < dest_start + len ==> #[trigger] final(dest)@[i] == src@[src_start + (i - dest_start)],
        forall|i: int|
            0 <= i < old(dest)@.len() && !(dest_start <= i < dest_start + len) ==> final(dest)@[i]
                == old(dest)@[i],
{
    let dest_len = dest.len();
    let src_len = src.len();
    let mut k: usize = 0;
    while k < len
        invariant
            k <= len,
            dest_len == old(dest)@.len() && src_len == src@.len(),
            dest_start + len <= dest@.len(),
            src_start + len <= src@.len(),
            dest@.len() == old(dest)@.len(),
            forall|i: int| dest_start <= i < dest_start + k ==> #[trigger] dest@[i] == src@[src_start + (i - dest_start)],
            forall|i: int|
                0 <= i < old(dest)@.len() && !(dest_start <= i < dest_start + k) ==> dest@[i]
                    == old(dest)@[i],
        decreases len - k,
    {
        dest.set(dest_start + k, src[src_start + k]);
        k = k + 1;
    }
}

/// Copies `num_slices` slices of `num_rows` rows of `row_size` bytes each from `src`, laid out
/// as `src_layout` says, into `dest`, laid out as `dest_layout` says, one row after another in
/// slice-major order. A byte of a row holds its source byte unless a later row covers it
/// (never, when the rows are disjoint: `lemma_disjoint_rows_not_overwritten`); every byte
/// outside the rows keeps its value.
pub fn memcpy_subresource(
    dest: &mut Vec<u8>,
    dest_layout: MemcpyDest,
    src: &[u8],
    src_layout: MemcpyDest,
    row_size: usize,
    num_rows: u32,
    num_slices: u32,
)
    requires
        dest_layout.holds_rows(old(dest)@.len() as int, row_size as int, num_rows as int, num_slices as int),
        src_layout.holds_rows(src@.len() as int, row_size as int, num_rows as int, num_slices as int),
    ensures
        final(dest)@.len() == old(dest)@.len(),
        forall|z: int, y: int, k: int|
            0 <= z < num_slices && 0 <= y < num_rows && 0 <= k < row_size && dest_layout.not_overwritten(
                dest_layout.byte_index(z, y, k),
                z,
                y,
                row_size as int,
                num_rows as int,
                num_slices as int,
            ) ==> final(dest)@[#[trigger] dest_layout.byte_index(z, y, k)] == src@[src_layout.byte_index(z, y, k)],
        forall|i: int|
            0 <= i < old(dest)@.len() && dest_layout.outside_rows(
                i,
                row_size as int,
                num_rows as int,
                num_slices as int,
            ) ==> final(dest)@[i] == old(dest)@[i],
{
    let ghost d = dest_layout;
    let ghost s = src_layout;
    let ghost rs = row_size as int;
    let ghost nr = num_rows as int;
    let ghost ns = num_slices as int;
    let ghost old_dest = dest@;
    let dest_len = dest.len();
    let src_len = src.len();
    let mut z: u32 = 0;
    while z < num_slices
        invariant
            z <= num_slices,
            d == dest_layout && s == src_layout && rs == row_size && nr == num_rows && ns == num_slices,
            d.holds_rows(old_dest.len() as int, rs, nr, ns),
            s.holds_rows(src@.len() as int, rs, nr, ns),
            dest@.len() == old_dest.len(),
            dest_len == old_dest.len() && src_len == src@.len(),
            forall|z2: int, y2: int, k2: int|
                0 <= z2 && 0 <= y2 < nr && row_before(z2, y2, z as int, 0) && 0 <= k2 < rs && untouched_between(
                    d,
                    d.byte_index(z2, y2, k2),
                    z2,
                    y2,
                    z as int,
                    0,
                    rs,
                    nr,
                ) ==> dest@[#[trigger] d.byte_index(z2, y2, k2)] == src@[s.byte_index(z2, y2, k2)],
            forall|i: int|
                0 <= i < old_dest.len() && d.outside_rows(i, rs, nr, z as int) ==> dest@[i] == old_dest[i],
        decreases num_slices - z,
    {
        let mut y: u32 = 0;
        while y < num_rows
            invariant
                z < num_slices,
                y <= num_rows,
                d == dest_layout && s == src_layout && rs == row_size && nr == num_rows && ns == num_slices,
                d.holds_rows(old_dest.len() as int, rs, nr, ns),
                s.holds_rows(src@.len() as int, rs, nr, ns),
                dest@.len() == old_dest.len(),
                dest_len == old_dest.len() && src_len == src@.len(),
                forall|z2: int, y2: int, k2: int|
                    0 <= z2 && 0 <= y2 < nr && row_before(z2, y2, z as int, y as int) && 0 <= k2 < rs
                        && untouched_between(d, d.byte_index(z2, y2, k2), z2, y2, z as int, y as int, rs, nr)
                        ==> dest@[#[trigger] d.byte_index(z2, y2, k2)] == src@[s.byte_index(z2, y2, k2)],
                forall|i: int|
                    0 <= i < old_dest.len() && (forall|z2: int, y2: int|
                        0 <= z2 && 0 <= y2 < nr && row_before(z2, y2, z as int, y as int)
                            ==> !#[trigger] d.in_row(i, z2, y2, rs)) ==> dest@[i] == old_dest[i],
            decreases num_rows - y,
        {
            proof {
                lemma_index_bound(d, z as int, y as int, 0, ns, nr, rs);
                lemma_index_bound(d, z as int, y as int, rs, ns, nr, rs);
                lemma_index_bound(s, z as int, y as int, 0, ns, nr, rs);
                lemma_index_bound(s, z as int, y as int, rs, ns, nr, rs);
                assert(z as int * d.slice_pitch <= d.byte_index(z as int, y as int, 0));
                assert(z as int * s.slice_pitch <= s.byte_index(z as int, y as int, 0));
                assert(0 <= y as int * d.row_pitch) by (nonlinear_arith) requires d.row_pitch >= 0, y >= 0;
                assert(0 <= z as int * d.slice_pitch) by (nonlinear_arith) requires d.slice_pitch >= 0, z >= 0;
                assert(0 <= y as int * s.row_pitch) by (nonlinear_arith) requires s.row_pitch >= 0, y >= 0;
                assert(0 <= z as int * s.slice_pitch) by (nonlinear_arith) requires s.slice_pitch >= 0, z >= 0;
            }
            let dest_start = dest_layout.offset + (z as usize) * dest_layout.slice_pitch + (y as usize)
                * dest_layout.row_pitch;
            let src_start = src_layout.offset + (z as usize) * src_layout.slice_pitch + (y as usize)
                * src_layout.row_pitch;
            let ghost before = dest@;
            copy_row(dest, dest_start, src, src_start, row_size);
            proof {
                let zi = z as int;
                let yi = y as int;
                assert forall|z2: int, y2: int, k2: int|
                    0 <= z2 && 0 <= y2 < nr && row_before(z2, y2, zi, yi + 1) && 0 <= k2 < rs
                        && untouched_between(d, d.byte_index(z2, y2, k2), z2, y2, zi, yi + 1, rs, nr)
                        implies dest@[#[trigger] d.byte_index(z2, y2, k2)] == src@[s.byte_index(z2, y2, k2)] by {
                    if z2 == zi && y2 == yi {
                        assert(d.byte_index(z2, y2, k2) == dest_start + k2);
                        assert(s.byte_index(z2, y2, k2) == src_start + k2);
                    } else {
                        let p = d.byte_index(z2, y2, k2);
                        assert(row_before(z2, y2, zi, yi));
                        assert(row_before(zi, yi, zi, yi + 1));
                        assert(!d.in_row(p, zi, yi, rs));
                        assert(untouched_between(d, p, z2, y2, zi, yi, rs, nr)) by {
                            assert forall|z3: int, y3: int|
                                0 <= z3 && 0 <= y3 < nr && row_before(z2, y2, z3, y3) && row_before(z3, y3, zi, yi)
                                    implies !#[trigger] d.in_row(p, z3, y3, rs) by {
                                assert(row_before(z3, y3, zi, yi + 1));
                            }
                        }
                        lemma_index_bound(d, z2, y2, k2, ns, nr, rs);
                        lemma_index_bound(d, z2, y2, rs, ns, nr, rs);
                        assert(dest@[p] == before[p]);
                    }
                }
                assert forall|i: int|
                    0 <= i < old_dest.len() && (forall|z2: int, y2: int|
                        0 <= z2 && 0 <= y2 < nr && row_before(z2, y2, zi, yi + 1)
                            ==> !#[trigger] d.in_row(i, z2, y2, rs)) implies dest@[i] == old_dest[i] by {
                    assert(!d.in_row(i, zi, yi, rs));
                    assert forall|z2: int, y2: int|
                        0 <= z2 && 0 <= y2 < nr && row_before(z2, y2, zi, yi)
                            implies !#[trigger] d.in_row(i, z2, y2, rs) by {
                        assert(row_before(z2, y2, zi, yi + 1));
                    }
                }
            }
            y = y + 1;
        }
        proof {
            let zi = z as int;
            let yi = y as int;
            assert forall|z2: int, y2: int, k2: int|
                0 <= z2 && 0 <= y2 < nr && row_before(z2, y2, zi + 1, 0) && 0 <= k2 < rs && untouched_between(
                    d,
                    d.byte_index(z2, y2, k2),
                    z2,
                    y2,
                    zi + 1,
                    0,
                    rs,
                    nr,
                ) implies dest@[#[trigger] d.byte_index(z2, y2, k2)] == src@[s.byte_index(z2, y2, k2)] by {
                let p = d.byte_index(z2, y2, k2);
                assert(row_before(z2, y2, zi, yi));
                assert(untouched_between(d, p, z2, y2, zi, yi, rs, nr)) by {
                    assert forall|z3: int, y3: int|
                        0 <= z3 && 0 <= y3 < nr && row_before(z2, y2, z3, y3) && row_before(z3, y3, zi, yi)
                            implies !#[trigger] d.in_row(p, z3, y3, rs) by {
                        assert(row_before(z3, y3, zi + 1, 0));
                    }
                }
            }
            assert forall|i: int|
                0 <= i < old_dest.len() && d.outside_rows(i, rs, nr, zi + 1) implies dest@[i] == old_dest[i] by {
                assert forall|z2: int, y2: int|
                    0 <= z2 && 0 <= y2 < nr && row_before(z2, y2, zi, yi)
                        implies !#[trigger] d.in_row(i, z2, y2, rs) by {
                    assert(0 <= z2 < zi + 1);
                }
            }
        }
        z = z + 1;
    }
    proof {
        assert forall|z2: int, y2: int, k2: int|
            0 <= z2 < ns && 0 <= y2 < nr && 0 <= k2 < rs && d.not_overwritten(d.byte_index(z2, y2, k2), z2, y2, rs, nr, ns)
                implies dest@[#[trigger] d.byte_index(z2, y2, k2)] == src@[s.byte_index(z2, y2, k2)] by {
            let p = d.byte_index(z2, y2, k2);
            assert(row_before(z2, y2, ns, 0));
            assert(untouched_between(d, p, z2, y2, ns, 0, rs, nr)) by {
                assert forall|z3: int, y3: int|
                    0 <= z3 && 0 <= y3 < nr && row_before(z2, y2, z3, y3) && row_before(z3, y3, ns, 0)
                        implies !#[trigger] d.in_row(p, z3, y3, rs) by {
                    assert(0 <= z3 < ns);
                }
            }
        }
    }
}

/// A copy that the upload of subresources records on the command list.
#[allow(inconsistent_fields)]
#[derive(Clone, Copy, Debug, PartialEq, Eq)]
pub enum CopyCommand {
    /// `copy_buffer_region(dest, dest_offset, source, source_offset, span)`.
    Buffer {
        dest: Resource,
        dest_offset: ByteCount,
        source: Resource,
        source_offset: ByteCount,
        span: ByteCount,
    },
    /// `copy_texture_region(dest, 0, 0, 0, source, None)`.
    Texture { dest: TextureCopyLocation, source: TextureCopyLocation },
}

/// Where subresource `layout` with `num_rows` rows lands in the intermediate buffer.
pub open spec fn upload_dest(layout: PlacedSubresourceFootprint, num_rows: u32) -> MemcpyDest {
    MemcpyDest {
        offset: layout.offset as usize,
        row_pitch: layout.footprint.row_pitch as usize,
        slice_pitch: (layout.footprint.row_pitch as u64 * num_rows as u64) as usize,
    }
}

/// Where the rows of `data` lie in its bytes.
pub open spec fn upload_src(data: SubresourceData) -> MemcpyDest {
    MemcpyDest { offset: 0, row_pitch: data.row_pitch as usize, slice_pitch: data.slice_pitch as usize }
}

/// The bytes that subresource `i` of an upload occupies in the intermediate buffer.
pub open spec fn upload_region(layouts: Seq<PlacedSubresourceFootprint>, num_rows: Seq<u32>, i: int) -> (int, int) {
    let d = upload_dest(layouts[i], num_rows[i]);
    (d.offset as int, d.offset + layouts[i].footprint.depth * d.slice_pitch)
}

/// No two of the first `n` subresources of an upload share a byte of the intermediate buffer.
pub open spec fn upload_regions_disjoint(layouts: Seq<PlacedSubresourceFootprint>, num_rows: Seq<u32>, n: int) -> bool {
    forall|i: int, j: int|
        0 <= i < n && 0 <= j < n && i != j ==> #[trigger] upload_region(layouts, num_rows, i).1 <= #[trigger] upload_region(
            layouts,
            num_rows,
            j,
        ).0 || upload_region(layouts, num_rows, j).1 <= upload_region(layouts, num_rows, i).0
}

/// Where an upload puts and takes its bytes: byte `k` of row `y` of slice `z` lands at
/// `offset + z * (row_pitch * num_rows) + y * row_pitch + k` of the intermediate buffer (a slice
/// is `num_rows` rows of `row_pitch` bytes) and comes from `z * slice_pitch + y * row_pitch + k`
/// of the source data, whenever those values are machine-sized.
pub proof fn lemma_upload_positions(
    layout: PlacedSubresourceFootprint,
    num_rows: u32,
    source: SubresourceData,
    z: int,
    y: int,
    k: int,
)
    requires
        layout.offset <= usize::MAX,
        layout.footprint.row_pitch * num_rows <= usize::MAX,
        0 <= source.row_pitch <= usize::MAX,
        0 <= source.slice_pitch <= usize::MAX,
    ensures
        upload_dest(layout, num_rows).byte_index(z, y, k) == layout.offset + z * (layout.footprint.row_pitch
            * num_rows) + y * layout.footprint.row_pitch + k,
        upload_src(source).byte_index(z, y, k) == z * source.slice_pitch + y * source.row_pitch + k,
{
    let a = layout.footprint.row_pitch as int;
    let b = num_rows as int;
    assert(a * b <= 0xffff_ffff_ffff_ffff) by (nonlinear_arith)
        requires 0 <= a <= 0xffff_ffff, 0 <= b <= 0xffff_ffff;
    assert((layout.footprint.row_pitch as u64 * num_rows as u64) as int == a * b);
}

/// When every row of a subresource is at most `row_pitch` bytes long, no row of it is written
/// over by a later one: the slices of `num_rows` rows of `row_pitch` bytes never overlap.
pub proof fn lemma_pitched_rows_survive(
    layout: PlacedSubresourceFootprint,
    num_rows: u32,
    row_size: ByteCount,
    z: int,
    y: int,
    k: int,
)
    requires
        (row_size.0 as usize) <= layout.footprint.row_pitch,
        layout.footprint.row_pitch * num_rows <= usize::MAX,
        0 <= z < layout.footprint.depth,
        0 <= y < num_rows,
        0 <= k < (row_size.0 as usize),
    ensures
        upload_dest(layout, num_rows).not_overwritten(
            upload_dest(layout, num_rows).byte_index(z, y, k),
            z,
            y,
            (row_size.0 as usize) as int,
            num_rows as int,
            layout.footprint.depth as int,
        ),
{
    let a = layout.footprint.row_pitch as int;
    let b = num_rows as int;
    assert(a * b <= 0xffff_ffff_ffff_ffff) by (nonlinear_arith)
        requires 0 <= a <= 0xffff_ffff, 0 <= b <= 0xffff_ffff;
    let d = upload_dest(layout, num_rows);
    assert(d.slice_pitch == a * b);
    assert(b * a == a * b) by (nonlinear_arith);
    assert(d.rows_disjoint((row_size.0 as usize) as int, num_rows as int));
    lemma_disjoint_rows_not_overwritten(
        d,
        (row_size.0 as usize) as int,
        num_rows as int,
        layout.footprint.depth as int,
        z,
        y,
        k,
    );
}

/// Subresource `i` can be copied from `source` into an intermediate buffer of `len` bytes.
pub open spec fn upload_fits(
    len: int,
    layout: PlacedSubresourceFootprint,
    num_rows: u32,
    row_size: ByteCount,
    source: SubresourceData,
) -> bool {
    let rs = (row_size.0 as usize) as int;
    &&& upload_dest(layout, num_rows).holds_rows(len, rs, num_rows as int, layout.footprint.depth as int)
    &&& upload_src(source).holds_rows(source.data@.len() as int, rs, num_rows as int, layout.footprint.depth as int)
}

/// The copies that move the uploaded subresources from the intermediate resource into the
/// destination: one buffer copy of the first layout for a buffer, one texture copy per
/// subresource otherwise.
pub open spec fn upload_copies(
    destination: Resource,
    destination_dimension: ResourceDimension,
    intermediate: Resource,
    first_subresource: u32,
    num_subresources: u32,
    layouts: Seq<PlacedSubresourceFootprint>,
) -> Seq<CopyCommand> {
    if destination_dimension == ResourceDimension::Buffer {
        seq![CopyCommand::Buffer {
            dest: destination,
            dest_offset: ByteCount(0),
            source: intermediate,
            source_offset: ByteCount(layouts[0].offset),
            span: ByteCount(layouts[0].footprint.width as u64),
        }]
    } else {
        Seq::new(
            num_subresources as nat,
            |i: int| CopyCommand::Texture {
                dest: TextureCopyLocation {
                    resource: destination,
                    location: TextureCopySource::SubresourceIndex((i + first_subresource) as u32),
                },
                source: TextureCopyLocation {
                    resource: intermediate,
                    location: TextureCopySource::PlacedFootprint(layouts[i]),
                },
            },
        )
    }
}

proof fn lemma_rows_in_region(l: MemcpyDest, rs: int, nr: int, depth: int, z: int, y: int, k: int)
    requires
        l.rows_disjoint(rs, nr),
        0 <= z < depth,
        0 <= y < nr,
        0 <= k < rs,
    ensures
        l.offset <= l.byte_index(z, y, k) < l.offset + depth * l.slice_pitch,
{
    assert(0 <= y * l.row_pitch + k < l.slice_pitch) by (nonlinear_arith)
        requires 0 <= y < nr, 0 <= k < rs, rs <= l.row_pitch, nr * l.row_pitch <= l.slice_pitch;
    assert(0 <= z * l.slice_pitch && z * l.slice_pitch + l.slice_pitch <= depth * l.slice_pitch) by (nonlinear_arith)
        requires 0 <= z < depth, l.slice_pitch >= 0;
}

/// Position `p` of the intermediate buffer lies in none of the rows that subresources
/// `lo..hi` of an upload write.
pub open spec fn upload_rows_avoid(
    layouts: Seq<PlacedSubresourceFootprint>,
    num_rows: Seq<u32>,
    row_sizes: Seq<ByteCount>,
    p: int,
    lo: int,
    hi: int,
) -> bool {
    forall|j: int|
        lo <= j < hi ==> #[trigger] upload_dest(layouts[j], num_rows[j]).outside_rows(
            p,
            (row_sizes[j].0 as usize) as int,
            num_rows[j] as int,
            layouts[j].footprint.depth as int,
        )
}

/// Byte `k` of row `y` of slice `z` of subresource `i` is a byte of subresource `i`'s rows.
pub open spec fn upload_byte_in_rows(
    layouts: Seq<PlacedSubresourceFootprint>,
    num_rows: Seq<u32>,
    row_sizes: Seq<ByteCount>,
    i: int,
    z: int,
    y: int,
    k: int,
) -> bool {
    0 <= z < layouts[i].footprint.depth && 0 <= y < num_rows[i] && 0 <= k < (row_sizes[i].0 as usize)
}

/// The byte that row `y` of slice `z` of subresource `i` writes at column `k` is still there
/// once subresources up to `hi` have been written: no later row of subresource `i`, and no
/// row of subresources `i + 1 .. hi`, covers it.
pub open spec fn upload_byte_survives(
    layouts: Seq<PlacedSubresourceFootprint>,
    num_rows: Seq<u32>,
    row_sizes: Seq<ByteCount>,
    i: int,
    z: int,
    y: int,
    k: int,
    hi: int,
) -> bool {
    let d = upload_dest(layouts[i], num_rows[i]);
    let p = d.byte_index(z, y, k);
    &&& d.not_overwritten(
        p,
        z,
        y,
        (row_sizes[i].0 as usize) as int,
        num_rows[i] as int,
        layouts[i].footprint.depth as int,
    )
    &&& upload_rows_avoid(layouts, num_rows, row_sizes, p, i + 1, hi)
}

/// When the rows of each of the first `n` subresources of an upload never share a byte and
/// their regions do not overlap, every byte a row writes survives to the end of the upload.
pub proof fn lemma_disjoint_upload_rows_survive(
    layouts: Seq<PlacedSubresourceFootprint>,
    num_rows: Seq<u32>,
    row_sizes: Seq<ByteCount>,
    n: int,
    i: int,
    z: int,
    y: int,
    k: int,
)
    requires
        0 <= i < n <= layouts.len(),
        n <= num_rows.len(),
        n <= row_sizes.len(),
        upload_regions_disjoint(layouts, num_rows, n),
        forall|j: int|
            0 <= j < n ==> #[trigger] upload_dest(layouts[j], num_rows[j]).rows_disjoint(
                (row_sizes[j].0 as usize) as int,
                num_rows[j] as int,
            ),
        upload_byte_in_rows(layouts, num_rows, row_sizes, i, z, y, k),
    ensures
        upload_byte_survives(layouts, num_rows, row_sizes, i, z, y, k, n),
{
    let di = upload_dest(layouts[i], num_rows[i]);
    let p = di.byte_index(z, y, k);
    let rsi = (row_sizes[i].0 as usize) as int;
    assert(di.rows_disjoint(rsi, num_rows[i] as int));
    lemma_disjoint_rows_not_overwritten(di, rsi, num_rows[i] as int, layouts[i].footprint.depth as int, z, y, k);
    lemma_rows_in_region(di, rsi, num_rows[i] as int, layouts[i].footprint.depth as int, z, y, k);
    assert forall|j: int| i + 1 <= j < n implies #[trigger] upload_dest(layouts[j], num_rows[j]).outside_rows(
        p,
        (row_sizes[j].0 as usize) as int,
        num_rows[j] as int,
        layouts[j].footprint.depth as int,
    ) by {
        let dj = upload_dest(layouts[j], num_rows[j]);
        let rsj = (row_sizes[j].0 as usize) as int;
        assert(dj.rows_disjoint(rsj, num_rows[j] as int));
        let ri = upload_region(layouts, num_rows, i);
        let rj = upload_region(layouts, num_rows, j);
        assert(ri.1 <= rj.0 || rj.1 <= ri.0);
        assert forall|z2: int, y2: int|
            0 <= z2 < layouts[j].footprint.depth && 0 <= y2 < num_rows[j] implies !#[trigger] dj.in_row(p, z2, y2, rsj) by {
            if rsj > 0 {
                lemma_rows_in_region(dj, rsj, num_rows[j] as int, layouts[j].footprint.depth as int, z2, y2, 0);
                lemma_rows_in_region(dj, rsj, num_rows[j] as int, layouts[j].footprint.depth as int, z2, y2, rsj - 1);
            }
        }
    }
}

/// Writes the rows of every source subresource into the mapped intermediate buffer, in
/// order, then lists the copies that move them into the destination resource. Returns those
/// copies and `required_size`.
///
/// A byte of subresource `i`'s rows holds its source byte unless a later row writes over it
/// (never, when rows and regions are disjoint: `lemma_disjoint_upload_rows_survive`); bytes
/// outside every subresource's rows keep their value.
pub fn update_subresources(
    destination_resource: &Resource,
    destination_desc: &ResourceDesc,
    intermediate_resource: &Resource,
    intermediate_data: &mut Vec<u8>,
    first_subresource: u32,
    num_subresources: u32,
    required_size: ByteCount,
    layouts: &[PlacedSubresourceFootprint],
    num_rows: &[u32],
    row_sizes_in_bytes: &[ByteCount],
    source_data: &[SubresourceData],
) -> (r: (Vec<CopyCommand>, ByteCount))
    requires
        layouts@.len() >= num_subresources,
        num_rows@.len() >= num_subresources,
        row_sizes_in_bytes@.len() >= num_subresources,
        source_data@.len() >= num_subresources,
        destination_desc.dimension == ResourceDimension::Buffer ==> layouts@.len() >= 1,
        destination_desc.dimension != ResourceDimension::Buffer ==> first_subresource + num_subresources
            <= u32::MAX + 1,
        forall|i: int|
            0 <= i < num_subresources ==> upload_fits(
                old(intermediate_data)@.len() as int,
                #[trigger] layouts@[i],
                num_rows@[i],
                row_sizes_in_bytes@[i],
                source_data@[i],
            ),
    ensures
        r.0@ == upload_copies(
            *destination_resource,
            destination_desc.dimension,
            *intermediate_resource,
            first_subresource,
            num_subresources,
            layouts@,
        ),
        r.1 == required_size,
        final(intermediate_data)@.len() == old(intermediate_data)@.len(),
        forall|i: int, z: int, y: int, k: int|
            0 <= i < num_subresources && upload_byte_in_rows(layouts@, num_rows@, row_sizes_in_bytes@, i, z, y, k)
                && upload_byte_survives(layouts@, num_rows@, row_sizes_in_bytes@, i, z, y, k, num_subresources as int)
                ==> final(intermediate_data)@[#[trigger] upload_dest(layouts@[i], num_rows@[i]).byte_index(z, y, k)]
                == source_data@[i].data@[upload_src(source_data@[i]).byte_index(z, y, k)],
        forall|p: int|
            0 <= p < old(intermediate_data)@.len() && #[trigger] upload_rows_avoid(
                layouts@,
                num_rows@,
                row_sizes_in_bytes@,
                p,
                0,
                num_subresources as int,
            ) ==> final(intermediate_data)@[p] == old(intermediate_data)@[p],
        forall|i: int, z: int, y: int, k: int|
            0 <= i < num_subresources && #[trigger] upload_byte_in_rows(
                layouts@,
                num_rows@,
                row_sizes_in_bytes@,
                i,
                z,
                y,
                k,
            ) && upload_byte_survives(layouts@, num_rows@, row_sizes_in_bytes@, i, z, y, k, num_subresources as int)
                && layouts@[i].offset <= usize::MAX && layouts@[i].footprint.row_pitch * num_rows@[i] <= usize::MAX
                && 0 <= source_data@[i].row_pitch <= usize::MAX && 0 <= source_data@[i].slice_pitch <= usize::MAX
                ==> final(intermediate_data)@[layouts@[i].offset + z * (layouts@[i].footprint.row_pitch * num_rows@[i])
                + y * layouts@[i].footprint.row_pitch + k] == source_data@[i].data@[z * source_data@[i].slice_pitch + y
                * source_data@[i].row_pitch + k],
{
    let ghost old_data = intermediate_data@;
    let ghost n = num_subresources as int;
    let mut i: u32 = 0;
    while i < num_subresources
        invariant
            i <= num_subresources,
            n == num_subresources,
            layouts@.len() >= num_subresources,
            num_rows@.len() >= num_subresources,
            row_sizes_in_bytes@.len() >= num_subresources,
            source_data@.len() >= num_subresources,
            intermediate_data@.len() == old_data.len(),
            forall|j: int|
                0 <= j < num_subresources ==> upload_fits(
                    old_data.len() as int,
                    #[trigger] layouts@[j],
                    num_rows@[j],
                    row_sizes_in_bytes@[j],
                    source_data@[j],
                ),
            forall|m: int, z: int, y: int, k: int|
                0 <= m < i && upload_byte_in_rows(layouts@, num_rows@, row_sizes_in_bytes@, m, z, y, k)
                    && upload_byte_survives(layouts@, num_rows@, row_sizes_in_bytes@, m, z, y, k, i as int)
                    ==> intermediate_data@[#[trigger] upload_dest(layouts@[m], num_rows@[m]).byte_index(z, y, k)]
                    == source_data@[m].data@[upload_src(source_data@[m]).byte_index(z, y, k)],
            forall|p: int|
                0 <= p < old_data.len() && #[trigger] upload_rows_avoid(
                    layouts@,
                    num_rows@,
                    row_sizes_in_bytes@,
                    p,
                    0,
                    i as int,
                ) ==> intermediate_data@[p] == old_data[p],
        decreases num_subresources - i,
    {
        let layout = layouts[i as usize];
        let rows = num_rows[i as usize];
        proof {
            let a = layout.footprint.row_pitch as int;
            let b = rows as int;
            assert(a * b <= 0xffff_ffff_ffff_ffff) by (nonlinear_arith)
                requires 0 <= a <= 0xffff_ffff, 0 <= b <= 0xffff_ffff;
        }
        let dest_layout = MemcpyDest {
            offset: layout.offset as usize,
            row_pitch: layout.footprint.row_pitch as usize,
            slice_pitch: (layout.footprint.row_pitch as u64 * rows as u64) as usize,
        };
        let source = source_data[i as usize];
        let src_layout = MemcpyDest {
            offset: 0,
            row_pitch: source.row_pitch as usize,
            slice_pitch: source.slice_pitch as usize,
        };
        let row_size = row_sizes_in_bytes[i as usize].0 as usize;
        proof {
            assert(upload_fits(old_data.len() as int, layouts@[i as int], num_rows@[i as int], row_sizes_in_bytes@[i as int], source_data@[i as int]));
            assert(dest_layout == upload_dest(layout, rows));
            assert(src_layout == upload_src(source));
        }
        let ghost before = intermediate_data@;
        memcpy_subresource(intermediate_data, dest_layout, source.data, src_layout, row_size, rows, layout.footprint.depth);
        proof {
            let ii = i as int;
            assert forall|m: int, z: int, y: int, k: int|
                0 <= m < ii + 1 && upload_byte_in_rows(layouts@, num_rows@, row_sizes_in_bytes@, m, z, y, k)
                    && upload_byte_survives(layouts@, num_rows@, row_sizes_in_bytes@, m, z, y, k, ii + 1)
                    implies intermediate_data@[#[trigger] upload_dest(layouts@[m], num_rows@[m]).byte_index(z, y, k)]
                    == source_data@[m].data@[upload_src(source_data@[m]).byte_index(z, y, k)] by {
                if m < ii {
                    let p = upload_dest(layouts@[m], num_rows@[m]).byte_index(z, y, k);
                    assert(upload_dest(layouts@[ii], num_rows@[ii]).outside_rows(
                        p,
                        (row_sizes_in_bytes@[ii].0 as usize) as int,
                        num_rows@[ii] as int,
                        layouts@[ii].footprint.depth as int,
                    ));
                    assert(upload_rows_avoid(layouts@, num_rows@, row_sizes_in_bytes@, p, m + 1, ii)) by {
                        assert forall|j: int| m + 1 <= j < ii implies #[trigger] upload_dest(layouts@[j], num_rows@[j]).outside_rows(
                            p,
                            (row_sizes_in_bytes@[j].0 as usize) as int,
                            num_rows@[j] as int,
                            layouts@[j].footprint.depth as int,
                        ) by {
                            assert(m + 1 <= j < ii + 1);
                        }
                    }
                    let dm = upload_dest(layouts@[m], num_rows@[m]);
                    let rsm = (row_sizes_in_bytes@[m].0 as usize) as int;
                    assert(upload_fits(old_data.len() as int, layouts@[m], num_rows@[m], row_sizes_in_bytes@[m], source_data@[m]));
                    lemma_index_bound(dm, z, y, k, layouts@[m].footprint.depth as int, num_rows@[m] as int, rsm);
                    lemma_index_bound(dm, z, y, rsm, layouts@[m].footprint.depth as int, num_rows@[m] as int, rsm);
                    assert(intermediate_data@[p] == before[p]);
                }
            }
            assert forall|p: int|
                0 <= p < old_data.len() && #[trigger] upload_rows_avoid(
                    layouts@,
                    num_rows@,
                    row_sizes_in_bytes@,
                    p,
                    0,
                    ii + 1,
                ) implies intermediate_data@[p] == old_data[p] by {
                assert(upload_dest(layouts@[ii], num_rows@[ii]).outside_rows(
                    p,
                    (row_sizes_in_bytes@[ii].0 as usize) as int,
                    num_rows@[ii] as int,
                    layouts@[ii].footprint.depth as int,
                ));
                assert(upload_rows_avoid(layouts@, num_rows@, row_sizes_in_bytes@, p, 0, ii)) by {
                    assert forall|j: int| 0 <= j < ii implies #[trigger] upload_dest(layouts@[j], num_rows@[j]).outside_rows(
                        p,
                        (row_sizes_in_bytes@[j].0 as usize) as int,
                        num_rows@[j] as int,
                        layouts@[j].footprint.depth as int,
                    ) by {
                        assert(0 <= j < ii + 1);
                    }
                }
            }
        }
        i = i + 1;
    }
    let mut commands: Vec<CopyCommand> = Vec::new();
    if matches!(destination_desc.dimension, ResourceDimension::Buffer) {
        commands.push(CopyCommand::Buffer {
            dest: *destination_resource,
            dest_offset: ByteCount(0),
            source: *intermediate_resource,
            source_offset: ByteCount(layouts[0].offset),
            span: ByteCount(layouts[0].footprint.width as u64),
        });
        proof {
            assert(commands@ =~= upload_copies(*destination_resource, destination_desc.dimension, *intermediate_resource, first_subresource, num_subresources, layouts@));
        }
    } else {
        let mut j: u32 = 0;
        while j < num_subresources
            invariant
                j <= num_subresources,
                destination_desc.dimension != ResourceDimension::Buffer,
                first_subresource + num_subresources <= u32::MAX + 1,
                layouts@.len() >= num_subresources,
                commands@.len() == j,
                forall|m: int| 0 <= m < j ==> #[trigger] commands@[m] == upload_copies(
                    *destination_resource,
                    destination_desc.dimension,
                    *intermediate_resource,
                    first_subresource,
                    num_subresources,
                    layouts@,
                )[m],
            decreases num_subresources - j,
        {
            let dest_location = TextureCopyLocation::new_subresource_index(destination_resource, j + first_subresource);
            let source_location = TextureCopyLocation::new_placed_footprint(intermediate_resource, layouts[j as usize]);
            commands.push(CopyCommand::Texture { dest: dest_location, source: source_location });
            j = j + 1;
        }
        proof {
            assert(commands@ =~= upload_copies(*destination_resource, destination_desc.dimension, *intermediate_resource, first_subresource, num_subresources, layouts@));
        }
    }
    proof {
        assert forall|i: int, z: int, y: int, k: int|
            0 <= i < num_subresources && #[trigger] upload_byte_in_rows(
                layouts@,
                num_rows@,
                row_sizes_in_bytes@,
                i,
                z,
                y,
                k,
            ) && upload_byte_survives(layouts@, num_rows@, row_sizes_in_bytes@, i, z, y, k, num_subresources as int)
                && layouts@[i].offset <= usize::MAX && layouts@[i].footprint.row_pitch * num_rows@[i] <= usize::MAX
                && 0 <= source_data@[i].row_pitch <= usize::MAX && 0 <= source_data@[i].slice_pitch <= usize::MAX
                implies intermediate_data@[layouts@[i].offset + z * (layouts@[i].footprint.row_pitch * num_rows@[i])
                + y * layouts@[i].footprint.row_pitch + k] == source_data@[i].data@[z * source_data@[i].slice_pitch + y
                * source_data@[i].row_pitch + k] by {
            lemma_upload_positions(layouts@[i], num_rows@[i], source_data@[i], z, y, k);
            assert(intermediate_data@[upload_dest(layouts@[i], num_rows@[i]).byte_index(z, y, k)]
                == source_data@[i].data@[upload_src(source_data@[i]).byte_index(z, y, k)]);
        }
    }
    (commands, required_size)
}

} // verus!
