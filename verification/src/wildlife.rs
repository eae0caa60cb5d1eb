//! Baking the dragon's GLB mesh: finding it among the model's meshes,
//! tinting its vertex colors, and keeping the triangles whose corners all
//! exist, each with its average color.

use vstd::prelude::*;
use crate::text::{chars_of, lower, lower_string_of};

verus! {

/// The bronze-gold tint of a dragon model without a color texture.
pub const DRAGON_TINT: [u8; 3] = [0xeb, 0xa3, 0x10];

/// Does `s` contain `t` as a contiguous part?
pub open spec fn has_part(s: Seq<char>, t: Seq<char>) -> bool {
    exists|i: int| 0 <= i <= s.len() - t.len() && #[trigger] s.subrange(i, i + t.len()) == t
}

/// Does the text `v` contain `t`?
fn contains_text(v: &Vec<char>, t: &Vec<char>) -> (b: bool)
    ensures
        b == has_part(v@, t@),
{
    if t.len() > v.len() {
        return false;
    }
    let mut i: usize = 0;
    while i <= v.len() - t.len()
        invariant
            t@.len() <= v@.len(),
            i <= v@.len() - t@.len() + 1,
            forall|j: int| 0 <= j < i ==> #[trigger] v@.subrange(j, j + t@.len()) != t@,
        decreases v@.len() - t@.len() + 1 - i,
    {
        let mut k: usize = 0;
        let mut same = true;
        while k < t.len()
            invariant
                i + t@.len() <= v@.len(),
                v@.len() <= usize::MAX,
                k <= t@.len(),
                same <==> forall|m: int| 0 <= m < k ==> v@[i + m] == t@[m],
            decreases t@.len() - k,
        {
            if v[i + k] != t[k] {
                same = false;
            }
            k = k + 1;
        }
        if same {
            assert(v@.subrange(i as int, i + t@.len()) =~= t@);
            return true;
        }
        assert(v@.subrange(i as int, i + t@.len()) != t@) by {
            let m = choose|m: int| 0 <= m < t@.len() && v@[i + m] != t@[m];
            assert(v@.subrange(i as int, i + t@.len())[m] == v@[i + m]);
        }
        i = i + 1;
    }
    false
}

/// The first mesh whose name, in ASCII lowercase, contains "dragon".
pub fn find_dragon(names: &Vec<String>) -> (r: Option<usize>)
    ensures
        match r {
            Some(i) => i < names@.len() && has_part(lower(names@[i as int]@), "dragon"@) && forall|
                j: int,
            | 0 <= j < i ==> !has_part(lower(#[trigger] names@[j]@), "dragon"@),
            None => forall|j: int|
                0 <= j < names@.len() ==> !has_part(lower(#[trigger] names@[j]@), "dragon"@),
        },
{
    let t = chars_of("dragon");
    let mut i: usize = 0;
    while i < names.len()
        invariant
            i <= names@.len(),
            t@ == "dragon"@,
            forall|j: int| 0 <= j < i ==> !has_part(lower(#[trigger] names@[j]@), "dragon"@),
        decreases names@.len() - i,
    {
        let n = chars_of(names[i].as_str());
        let low = lower_string_of(&n, 0, n.len());
        assert(n@.subrange(0, n@.len() as int) =~= n@);
        let lc = chars_of(low.as_str());
        if contains_text(&lc, &t) {
            return Some(i);
        }
        i = i + 1;
    }
    None
}

/// `i` is the first mesh whose name, in ASCII lowercase, contains "dragon".
pub open spec fn is_first_dragon(names: Seq<String>, i: int) -> bool {
    &&& 0 <= i < names.len()
    &&& has_part(lower(names[i]@), "dragon"@)
    &&& forall|j: int| 0 <= j < i ==> !has_part(lower(#[trigger] names[j]@), "dragon"@)
}

/// The `i`-th count of a list (0 past its end).
pub open spec fn count_at(v: Seq<usize>, i: int) -> int {
    if 0 <= i < v.len() {
        v[i] as int
    } else {
        0
    }
}

/// The mesh the dragon is baked from: the first mesh named like a dragon,
/// provided it has vertices and indices (`vertices[i]` and `indices[i]` are
/// the counts of mesh `i`); `None` if there is no such mesh or it is empty.
pub fn dragon_mesh(names: &Vec<String>, vertices: &Vec<usize>, indices: &Vec<usize>) -> (r: Option<
    usize,
>)
    ensures
        match r {
            Some(i) => is_first_dragon(names@, i as int) && count_at(vertices@, i as int) > 0
                && count_at(indices@, i as int) > 0,
            None => forall|i: int|
                is_first_dragon(names@, i) ==> count_at(vertices@, i) == 0 || count_at(
                    indices@,
                    i,
                ) == 0,
        },
{
    match find_dragon(names) {
        Some(i) => {
            if i < vertices.len() && i < indices.len() && vertices[i] > 0 && indices[i] > 0 {
                Some(i)
            } else {
                proof {
                    assert forall|j: int| is_first_dragon(names@, j) implies count_at(vertices@, j)
                        == 0 || count_at(indices@, j) == 0 by {
                        if j < i {
                            assert(!has_part(lower(names@[j]@), "dragon"@));
                        } else if j > i {
                            assert(!has_part(lower(names@[i as int]@), "dragon"@));
                        }
                    }
                }
                None
            }
        },
        None => None,
    }
}

/// A color packed as 0xRRGGBB.
pub open spec fn packed(r: int, g: int, b: int) -> int {
    r * 0x1_0000 + g * 0x100 + b
}

/// The baked color of a vertex of color `c`: as is when the model has a
/// color texture, else each channel scaled by the bronze tint (`c * t /
/// 255`), packed as 0xRRGGBB.
pub open spec fn baked(c: Seq<u8>, textured: bool) -> int {
    if textured {
        packed(c[0] as int, c[1] as int, c[2] as int)
    } else {
        packed(c[0] * 0xeb / 255, c[1] * 0xa3 / 255, c[2] * 0x10 / 255)
    }
}

/// Bake one vertex color (see [`baked`]).
pub fn bake_color(c: [u8; 3], textured: bool) -> (r: u32)
    ensures
        r == baked(c@, textured),
        r <= 0xff_ffff,
{
    let (r, g, b) = if textured {
        (c[0] as u32, c[1] as u32, c[2] as u32)
    } else {
        (
            c[0] as u32 * DRAGON_TINT[0] as u32 / 255,
            c[1] as u32 * DRAGON_TINT[1] as u32 / 255,
            c[2] as u32 * DRAGON_TINT[2] as u32 / 255,
        )
    };
    assert(r <= 255 && g <= 255 && b <= 255) by (nonlinear_arith)
        requires
            textured ==> r == c[0] as u32 && g == c[1] as u32 && b == c[2] as u32,
            !textured ==> r == c[0] as u32 * 0xeb / 255 && g == c[1] as u32 * 0xa3 / 255 && b
                == c[2] as u32 * 0x10 / 255,
            c[0] <= 255 && c[1] <= 255 && c[2] <= 255,
    ;
    let v = (r << 16) | (g << 8) | b;
    assert(v == r * 0x1_0000 + g * 0x100 + b) by (bit_vector)
        requires
            v == (r << 16) | (g << 8) | b,
            r <= 255 && g <= 255 && b <= 255,
    ;
    v
}

/// Channel `s` of a packed color: 2 is red, 1 green, 0 blue.
pub open spec fn chan(c: u32, s: int) -> int {
    if s == 2 {
        (c as int / 0x1_0000) % 0x100
    } else if s == 1 {
        (c as int / 0x100) % 0x100
    } else {
        c as int % 0x100
    }
}

/// The average of three packed colors, channel by channel (each rounded
/// down), packed again.
pub open spec fn avg3(a: u32, b: u32, c: u32) -> int {
    packed(
        (chan(a, 2) + chan(b, 2) + chan(c, 2)) / 3,
        (chan(a, 1) + chan(b, 1) + chan(c, 1)) / 3,
        (chan(a, 0) + chan(b, 0) + chan(c, 0)) / 3,
    )
}

/// The average color of a triangle with corner colors `a`, `b`, `c`.
fn average_color(a: u32, b: u32, c: u32) -> (r: u32)
    ensures
        r == avg3(a, b, c),
{
    let ra = (a >> 16) & 0xff;
    let rb = (b >> 16) & 0xff;
    let rc = (c >> 16) & 0xff;
    let ga = (a >> 8) & 0xff;
    let gb = (b >> 8) & 0xff;
    let gc = (c >> 8) & 0xff;
    let ba = a & 0xff;
    let bb = b & 0xff;
    let bc = c & 0xff;
    assert(ra == chan(a, 2) && ga == chan(a, 1) && ba == chan(a, 0)) by (bit_vector)
        requires
            ra == (a >> 16) & 0xff,
            ga == (a >> 8) & 0xff,
            ba == a & 0xff,
    ;
    assert(rb == chan(b, 2) && gb == chan(b, 1) && bb == chan(b, 0)) by (bit_vector)
        requires
            rb == (b >> 16) & 0xff,
            gb == (b >> 8) & 0xff,
            bb == b & 0xff,
    ;
    assert(rc == chan(c, 2) && gc == chan(c, 1) && bc == chan(c, 0)) by (bit_vector)
        requires
            rc == (c >> 16) & 0xff,
            gc == (c >> 8) & 0xff,
            bc == c & 0xff,
    ;
    let r = (ra + rb + rc) / 3;
    let g = (ga + gb + gc) / 3;
    let bl = (ba + bb + bc) / 3;
    let v = (r << 16) | (g << 8) | bl;
    assert(v == r * 0x1_0000 + g * 0x100 + bl) by (bit_vector)
        requires
            v == (r << 16) | (g << 8) | bl,
            r <= 255 && g <= 255 && bl <= 255,
    ;
    v
}

/// The triangles of an index list: each whole triple of indices (a
/// trailing partial triple is ignored) whose corners are all below `n`,
/// in order, each with the channel-wise average (rounded down) of its
/// corners' packed colors.
pub open spec fn baked_tris(idx: Seq<u32>, col: Seq<u32>, k: int) -> Seq<([u32; 3], u32)>
    decreases k,
{
    if k <= 0 {
        Seq::empty()
    } else {
        let rest = baked_tris(idx, col, k - 1);
        let a = idx[3 * (k - 1)];
        let b = idx[3 * (k - 1) + 1];
        let c = idx[3 * (k - 1) + 2];
        if a < col.len() && b < col.len() && c < col.len() {
            rest.push(([a, b, c], avg3(col[a as int], col[b as int], col[c as int]) as u32))
        } else {
            rest
        }
    }
}

/// Keep the triangles of `indices` whose corners all have a color in `vcol`
/// (one per vertex), with their channel-wise average colors.
pub fn bake_triangles(indices: &[u32], vcol: &[u32]) -> (r: (Vec<[u32; 3]>, Vec<u32>))
    ensures
        r.0@.len() == r.1@.len(),
        forall|i: int|
            0 <= i < r.0@.len() ==> (#[trigger] r.0@[i], r.1@[i]) == baked_tris(
                indices@,
                vcol@,
                (indices@.len() / 3) as int,
            )[i],
        r.0@.len() == baked_tris(indices@, vcol@, (indices@.len() / 3) as int).len(),
{
    let n = vcol.len();
    let mut tris: Vec<[u32; 3]> = Vec::new();
    let mut tric: Vec<u32> = Vec::new();
    let mut t: usize = 0;
    let len = indices.len();
    let count = len / 3;
    assert(3 * count <= len) by (nonlinear_arith)
        requires
            count == len / 3,
    ;
    while t < count
        invariant
            count == indices@.len() / 3,
            len == indices@.len(),
            3 * count <= len,
            n == vcol@.len(),
            t <= count,
            tris@.len() == tric@.len(),
            tris@.len() == baked_tris(indices@, vcol@, t as int).len(),
            forall|i: int|
                0 <= i < tris@.len() ==> (#[trigger] tris@[i], tric@[i]) == baked_tris(
                    indices@,
                    vcol@,
                    t as int,
                )[i],
        decreases count - t,
    {
        assert(3 * t + 2 < len);
        let base: usize = 3 * t;
        let a = indices[base];
        let b = indices[base + 1];
        let c = indices[base + 2];
        if (a as usize) < n && (b as usize) < n && (c as usize) < n {
            let avg = average_color(vcol[a as usize], vcol[b as usize], vcol[c as usize]);
            tris.push([a, b, c]);
            tric.push(avg);
            assert(tris@.last() == [a, b, c]);
        }
        t = t + 1;
    }
    (tris, tric)
}

/// A packed color's channels are the ones it was packed from.
pub proof fn lemma_packed_channels(r: int, g: int, b: int)
    requires
        0 <= r < 256,
        0 <= g < 256,
        0 <= b < 256,
    ensures
        0 <= packed(r, g, b) < 0x100_0000,
        (packed(r, g, b) / 0x1_0000) % 0x100 == r,
        (packed(r, g, b) / 0x100) % 0x100 == g,
        packed(r, g, b) % 0x100 == b,
{
    assert(0 <= packed(r, g, b) < 0x100_0000) by (nonlinear_arith)
        requires
            0 <= r < 256,
            0 <= g < 256,
            0 <= b < 256,
    ;
    assert((r * 0x1_0000 + g * 0x100 + b) / 0x1_0000 == r) by (nonlinear_arith)
        requires
            0 <= r < 256,
            0 <= g < 256,
            0 <= b < 256,
    ;
    assert((r * 0x1_0000 + g * 0x100 + b) / 0x100 == r * 0x100 + g) by (nonlinear_arith)
        requires
            0 <= r < 256,
            0 <= g < 256,
            0 <= b < 256,
    ;
    assert((r * 0x100 + g) % 0x100 == g) by (nonlinear_arith)
        requires
            0 <= r < 256,
            0 <= g < 256,
    ;
    assert((r * 0x1_0000 + g * 0x100 + b) % 0x100 == b) by (nonlinear_arith)
        requires
            0 <= r < 256,
            0 <= g < 256,
            0 <= b < 256,
    ;
}

/// Baking keeps each channel where it was: with a texture the vertex color
/// is kept as is, red, green, blue; without one each channel is scaled by
/// the bronze tint, never growing.
pub proof fn lemma_bake_channels(c: [u8; 3], textured: bool)
    ensures
        ({
            let k = baked(c@, textured);
            &&& 0 <= k < 0x100_0000
            &&& textured ==> (k / 0x1_0000) % 0x100 == c@[0] && (k / 0x100) % 0x100 == c@[1] && k
                % 0x100 == c@[2]
            &&& !textured ==> (k / 0x1_0000) % 0x100 == c@[0] * 0xeb / 255 && (k / 0x100) % 0x100
                == c@[1] * 0xa3 / 255 && k % 0x100 == c@[2] * 0x10 / 255
            &&& !textured ==> (k / 0x1_0000) % 0x100 <= c@[0] && (k / 0x100) % 0x100 <= c@[1] && k
                % 0x100 <= c@[2]
        }),
{
    let (r, g, b) = (c@[0] as int, c@[1] as int, c@[2] as int);
    if textured {
        lemma_packed_channels(r, g, b);
    } else {
        assert(0 <= r * 0xeb / 255 <= r && 0 <= g * 0xa3 / 255 <= g && 0 <= b * 0x10 / 255 <= b)
            by (nonlinear_arith)
            requires
                0 <= r < 256,
                0 <= g < 256,
                0 <= b < 256,
        ;
        lemma_packed_channels(r * 0xeb / 255, g * 0xa3 / 255, b * 0x10 / 255);
    }
}

/// A triangle's color is, channel by channel, the average of its corners'
/// (rounded down): no channel spills into the next.
pub proof fn lemma_average_channels(a: u32, b: u32, c: u32)
    ensures
        0 <= avg3(a, b, c) < 0x100_0000,
        (avg3(a, b, c) / 0x1_0000) % 0x100 == (chan(a, 2) + chan(b, 2) + chan(c, 2)) / 3,
        (avg3(a, b, c) / 0x100) % 0x100 == (chan(a, 1) + chan(b, 1) + chan(c, 1)) / 3,
        avg3(a, b, c) % 0x100 == (chan(a, 0) + chan(b, 0) + chan(c, 0)) / 3,
{
    lemma_packed_channels(
        (chan(a, 2) + chan(b, 2) + chan(c, 2)) / 3,
        (chan(a, 1) + chan(b, 1) + chan(c, 1)) / 3,
        (chan(a, 0) + chan(b, 0) + chan(c, 0)) / 3,
    );
}

} // verus!
