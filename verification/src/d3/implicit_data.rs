//! The marching cubes lookup tables.
//!
//! For each of the 256 corner-sign configurations, the edge table holds a
//! 12-bit mask of the cube edges crossed by the surface, and the triangle
//! table lists up to five triangles as triples of edge numbers, terminated
//! by a negative sentinel. The corner and edge numbering is the classic one:
//! corners 0..8 at offsets (0,0,0), (1,0,0), (1,0,1), (0,0,1), (0,1,0),
//! (1,1,0), (1,1,1), (0,1,1); edge e joins the corner pairs listed in
//! `edge_corner_a` / `edge_corner_b` of the surface solver.
//!
//! The tables exist twice: as spec-level sequences (`edge_table_sp`,
//! `tri_table_sp`) that the surface solver's contracts are stated over, and
//! as the vectors `McTables::new` builds, proved equal to them entry for
//! entry.

use vstd::prelude::*;

verus! {

pub open spec fn edge_chunk_0_sp() -> Seq<u16> {
    seq![
        0u16, 265u16, 515u16, 778u16, 1030u16, 1295u16, 1541u16, 1804u16,
        2060u16, 2309u16, 2575u16, 2822u16, 3082u16, 3331u16, 3593u16, 3840u16,
        400u16, 153u16, 915u16, 666u16, 1430u16, 1183u16, 1941u16, 1692u16,
        2460u16, 2197u16, 2975u16, 2710u16, 3482u16, 3219u16, 3993u16, 3728u16,
        560u16, 825u16, 51u16, 314u16, 1590u16, 1855u16, 1077u16, 1340u16,
        2620u16, 2869u16, 2111u16, 2358u16, 3642u16, 3891u16, 3129u16, 3376u16,
        928u16, 681u16, 419u16, 170u16, 1958u16, 1711u16, 1445u16, 1196u16,
        2988u16, 2725u16, 2479u16, 2214u16, 4010u16, 3747u16, 3497u16, 3232u16,
    ]
}

pub open spec fn edge_chunk_1_sp() -> Seq<u16> {
    seq![
        1120u16, 1385u16, 1635u16, 1898u16, 102u16, 367u16, 613u16, 876u16,
        3180u16, 3429u16, 3695u16, 3942u16, 2154u16, 2403u16, 2665u16, 2912u16,
        1520u16, 1273u16, 2035u16, 1786u16, 502u16, 255u16, 1013u16, 764u16,
        3580u16, 3317u16, 4095u16, 3830u16, 2554u16, 2291u16, 3065u16, 2800u16,
        1616u16, 1881u16, 1107u16, 1370u16, 598u16, 863u16, 85u16, 348u16,
        3676u16, 3925u16, 3167u16, 3414u16, 2650u16, 2899u16, 2137u16, 2384u16,
        1984u16, 1737u16, 1475u16, 1226u16, 966u16, 719u16, 453u16, 204u16,
        4044u16, 3781u16, 3535u16, 3270u16, 3018u16, 2755u16, 2505u16, 2240u16,
    ]
}

pub open spec fn edge_chunk_2_sp() -> Seq<u16> {
    seq![
        2240u16, 2505u16, 2755u16, 3018u16, 3270u16, 3535u16, 3781u16, 4044u16,
        204u16, 453u16, 719u16, 966u16, 1226u16, 1475u16, 1737u16, 1984u16,
        2384u16, 2137u16, 2899u16, 2650u16, 3414u16, 3167u16, 3925u16, 3676u16,
        348u16, 85u16, 863u16, 598u16, 1370u16, 1107u16, 1881u16, 1616u16,
        2800u16, 3065u16, 2291u16, 2554u16, 3830u16, 4095u16, 3317u16, 3580u16,
        764u16, 1013u16, 255u16, 502u16, 1786u16, 2035u16, 1273u16, 1520u16,
        2912u16, 2665u16, 2403u16, 2154u16, 3942u16, 3695u16, 3429u16, 3180u16,
        876u16, 613u16, 367u16, 102u16, 1898u16, 1635u16, 1385u16, 1120u16,
    ]
}

pub open spec fn edge_chunk_3_sp() -> Seq<u16> {
    seq![
        3232u16, 3497u16, 3747u16, 4010u16, 2214u16, 2479u16, 2725u16, 2988u16,
        1196u16, 1445u16, 1711u16, 1958u16, 170u16, 419u16, 681u16, 928u16,
        3376u16, 3129u16, 3891u16, 3642u16, 2358u16, 2111u16, 2869u16, 2620u16,
        1340u16, 1077u16, 1855u16, 1590u16, 314u16, 51u16, 825u16, 560u16,
        3728u16, 3993u16, 3219u16, 3482u16, 2710u16, 2975u16, 2197u16, 2460u16,
        1692u16, 1941u16, 1183u16, 1430u16, 666u16, 915u16, 153u16, 400u16,
        3840u16, 3593u16, 3331u16, 3082u16, 2822u16, 2575u16, 2309u16, 2060u16,
        1804u16, 1541u16, 1295u16, 1030u16, 778u16, 515u16, 265u16, 0u16,
    ]
}

/// The 256 edge-crossing masks, as spec-level data.
pub open spec fn edge_table_sp() -> Seq<u16> {
    edge_chunk_0_sp() + edge_chunk_1_sp() + edge_chunk_2_sp() + edge_chunk_3_sp()
}

pub open spec fn tri_chunk_0_0_sp() -> Seq<i8> {
    seq![
        -1i8, -1i8, -1i8, -1i8, -1i8, -1i8, -1i8, -1i8, -1i8, -1i8, -1i8, -1i8, -1i8, -1i8, -1i8, -1i8,
        0i8, 8i8, 3i8, -1i8, -1i8, -1i8, -1i8, -1i8, -1i8, -1i8, -1i8, -1i8, -1i8, -1i8, -1i8, -1i8,
        0i8, 1i8, 9i8, -1i8, -1i8, -1i8, -1i8, -1i8, -1i8, -1i8, -1i8, -1i8, -1i8, -1i8, -1i8, -1i8,
        1i8, 8i8, 3i8, 9i8, 8i8, 1i8, -1i8, -1i8, -1i8, -1i8, -1i8, -1i8, -1i8, -1i8, -1i8, -1i8,
    ]
}

pub open spec fn tri_chunk_0_1_sp() -> Seq<i8> {
    seq![
        1i8, 2i8, 10i8, -1i8, -1i8, -1i8, -1i8, -1i8, -1i8, -1i8, -1i8, -1i8, -1i8, -1i8, -1i8, -1i8,
        0i8, 8i8, 3i8, 1i8, 2i8, 10i8, -1i8, -1i8, -1i8, -1i8, -1i8, -1i8, -1i8, -1i8, -1i8, -1i8,
        9i8, 2i8, 10i8, 0i8, 2i8, 9i8, -1i8, -1i8, -1i8, -1i8, -1i8, -1i8, -1i8, -1i8, -1i8, -1i8,
        2i8, 8i8, 3i8, 2i8, 10i8, 8i8, 10i8, 9i8, 8i8, -1i8, -1i8, -1i8, -1i8, -1i8, -1i8, -1i8,
    ]
}

pub open spec fn tri_chunk_0_2_sp() -> Seq<i8> {
    seq![
        3i8, 11i8, 2i8, -1i8, -1i8, -1i8, -1i8, -1i8, -1i8, -1i8, -1i8, -1i8, -1i8, -1i8, -1i8, -1i8,
        0i8, 11i8, 2i8, 8i8, 11i8, 0i8, -1i8, -1i8, -1i8, -1i8, -1i8, -1i8, -1i8, -1i8, -1i8, -1i8,
        1i8, 9i8, 0i8, 2i8, 3i8, 11i8, -1i8, -1i8, -1i8, -1i8, -1i8, -1i8, -1i8, -1i8, -1i8, -1i8,
        1i8, 11i8, 2i8, 1i8, 9i8, 11i8, 9i8, 8i8, 11i8, -1i8, -1i8, -1i8, -1i8, -1i8, -1i8, -1i8,
    ]
}

pub open spec fn tri_chunk_0_3_sp() -> Seq<i8> {
    seq![
        3i8, 10i8, 1i8, 11i8, 10i8, 3i8, -1i8, -1i8, -1i8, -1i8, -1i8, -1i8, -1i8, -1i8, -1i8, -1i8,
        0i8, 10i8, 1i8, 0i8, 8i8, 10i8, 8i8, 11i8, 10i8, -1i8, -1i8, -1i8, -1i8, -1i8, -1i8, -1i8,
        3i8, 9i8, 0i8, 3i8, 11i8, 9i8, 11i8, 10i8, 9i8, -1i8, -1i8, -1i8, -1i8, -1i8, -1i8, -1i8,
        9i8, 8i8, 10i8, 10i8, 8i8, 11i8, -1i8, -1i8, -1i8, -1i8, -1i8, -1i8, -1i8, -1i8, -1i8, -1i8,
    ]
}

pub open spec fn tri_rows_0_sp() -> Seq<i8> {
    tri_chunk_0_0_sp() + tri_chunk_0_1_sp() + tri_chunk_0_2_sp() + tri_chunk_0_3_sp()
}

pub open spec fn tri_chunk_1_0_sp() -> Seq<i8> {
    seq![
        4i8, 7i8, 8i8, -1i8, -1i8, -1i8, -1i8, -1i8, -1i8, -1i8, -1i8, -1i8, -1i8, -1i8, -1i8, -1i8,
        4i8, 3i8, 0i8, 7i8, 3i8, 4i8, -1i8, -1i8, -1i8, -1i8, -1i8, -1i8, -1i8, -1i8, -1i8, -1i8,
        0i8, 1i8, 9i8, 8i8, 4i8, 7i8, -1i8, -1i8, -1i8, -1i8, -1i8, -1i8, -1i8, -1i8, -1i8, -1i8,
        4i8, 1i8, 9i8, 4i8, 7i8, 1i8, 7i8, 3i8, 1i8, -1i8, -1i8, -1i8, -1i8, -1i8, -1i8, -1i8,
    ]
}

pub open spec fn tri_chunk_1_1_sp() -> Seq<i8> {
    seq![
        1i8, 2i8, 10i8, 8i8, 4i8, 7i8, -1i8, -1i8, -1i8, -1i8, -1i8, -1i8, -1i8, -1i8, -1i8, -1i8,
        3i8, 4i8, 7i8, 3i8, 0i8, 4i8, 1i8, 2i8, 10i8, -1i8, -1i8, -1i8, -1i8, -1i8, -1i8, -1i8,
        9i8, 2i8, 10i8, 9i8, 0i8, 2i8, 8i8, 4i8, 7i8, -1i8, -1i8, -1i8, -1i8, -1i8, -1i8, -1i8,
        2i8, 10i8, 9i8, 2i8, 9i8, 7i8, 2i8, 7i8, 3i8, 7i8, 9i8, 4i8, -1i8, -1i8, -1i8, -1i8,
    ]
}

pub open spec fn tri_chunk_1_2_sp() -> Seq<i8> {
    seq![
        8i8, 4i8, 7i8, 3i8, 11i8, 2i8, -1i8, -1i8, -1i8, -1i8, -1i8, -1i8, -1i8, -1i8, -1i8, -1i8,
        11i8, 4i8, 7i8, 11i8, 2i8, 4i8, 2i8, 0i8, 4i8, -1i8, -1i8, -1i8, -1i8, -1i8, -1i8, -1i8,
        9i8, 0i8, 1i8, 8i8, 4i8, 7i8, 2i8, 3i8, 11i8, -1i8, -1i8, -1i8, -1i8, -1i8, -1i8, -1i8,
        4i8, 7i8, 11i8, 9i8, 4i8, 11i8, 9i8, 11i8, 2i8, 9i8, 2i8, 1i8, -1i8, -1i8, -1i8, -1i8,
    ]
}

pub open spec fn tri_chunk_1_3_sp() -> Seq<i8> {
    seq![
        3i8, 10i8, 1i8, 3i8, 11i8, 10i8, 7i8, 8i8, 4i8, -1i8, -1i8, -1i8, -1i8, -1i8, -1i8, -1i8,
        1i8, 11i8, 10i8, 1i8, 4i8, 11i8, 1i8, 0i8, 4i8, 7i8, 11i8, 4i8, -1i8, -1i8, -1i8, -1i8,
        4i8, 7i8, 8i8, 9i8, 0i8, 11i8, 9i8, 11i8, 10i8, 11i8, 0i8, 3i8, -1i8, -1i8, -1i8, -1i8,
        4i8, 7i8, 11i8, 4i8, 11i8, 9i8, 9i8, 11i8, 10i8, -1i8, -1i8, -1i8, -1i8, -1i8, -1i8, -1i8,
    ]
}

pub open spec fn tri_rows_1_sp() -> Seq<i8> {
    tri_chunk_1_0_sp() + tri_chunk_1_1_sp() + tri_chunk_1_2_sp() + tri_chunk_1_3_sp()
}

pub open spec fn tri_chunk_2_0_sp() -> Seq<i8> {
    seq![
        9i8, 5i8, 4i8, -1i8, -1i8, -1i8, -1i8, -1i8, -1i8, -1i8, -1i8, -1i8, -1i8, -1i8, -1i8, -1i8,
        9i8, 5i8, 4i8, 0i8, 8i8, 3i8, -1i8, -1i8, -1i8, -1i8, -1i8, -1i8, -1i8, -1i8, -1i8, -1i8,
        0i8, 5i8, 4i8, 1i8, 5i8, 0i8, -1i8, -1i8, -1i8, -1i8, -1i8, -1i8, -1i8, -1i8, -1i8, -1i8,
        8i8, 5i8, 4i8, 8i8, 3i8, 5i8, 3i8, 1i8, 5i8, -1i8, -1i8, -1i8, -1i8, -1i8, -1i8, -1i8,
    ]
}

pub open spec fn tri_chunk_2_1_sp() -> Seq<i8> {
    seq![
        1i8, 2i8, 10i8, 9i8, 5i8, 4i8, -1i8, -1i8, -1i8, -1i8, -1i8, -1i8, -1i8, -1i8, -1i8, -1i8,
        3i8, 0i8, 8i8, 1i8, 2i8, 10i8, 4i8, 9i8, 5i8, -1i8, -1i8, -1i8, -1i8, -1i8, -1i8, -1i8,
        5i8, 2i8, 10i8, 5i8, 4i8, 2i8, 4i8, 0i8, 2i8, -1i8, -1i8, -1i8, -1i8, -1i8, -1i8, -1i8,
        2i8, 10i8, 5i8, 3i8, 2i8, 5i8, 3i8, 5i8, 4i8, 3i8, 4i8, 8i8, -1i8, -1i8, -1i8, -1i8,
    ]
}

pub open spec fn tri_chunk_2_2_sp() -> Seq<i8> {
    seq![
        9i8, 5i8, 4i8, 2i8, 3i8, 11i8, -1i8, -1i8, -1i8, -1i8, -1i8, -1i8, -1i8, -1i8, -1i8, -1i8,
        0i8, 11i8, 2i8, 0i8, 8i8, 11i8, 4i8, 9i8, 5i8, -1i8, -1i8, -1i8, -1i8, -1i8, -1i8, -1i8,
        0i8, 5i8, 4i8, 0i8, 1i8, 5i8, 2i8, 3i8, 11i8, -1i8, -1i8, -1i8, -1i8, -1i8, -1i8, -1i8,
        2i8, 1i8, 5i8, 2i8, 5i8, 8i8, 2i8, 8i8, 11i8, 4i8, 8i8, 5i8, -1i8, -1i8, -1i8, -1i8,
    ]
}

pub open spec fn tri_chunk_2_3_sp() -> Seq<i8> {
    seq![
        10i8, 3i8, 11i8, 10i8, 1i8, 3i8, 9i8, 5i8, 4i8, -1i8, -1i8, -1i8, -1i8, -1i8, -1i8, -1i8,
        4i8, 9i8, 5i8, 0i8, 8i8, 1i8, 8i8, 10i8, 1i8, 8i8, 11i8, 10i8, -1i8, -1i8, -1i8, -1i8,
        5i8, 4i8, 0i8, 5i8, 0i8, 11i8, 5i8, 11i8, 10i8, 11i8, 0i8, 3i8, -1i8, -1i8, -1i8, -1i8,
        5i8, 4i8, 8i8, 5i8, 8i8, 10i8, 10i8, 8i8, 11i8, -1i8, -1i8, -1i8, -1i8, -1i8, -1i8, -1i8,
    ]
}

pub open spec fn tri_rows_2_sp() -> Seq<i8> {
    tri_chunk_2_0_sp() + tri_chunk_2_1_sp() + tri_chunk_2_2_sp() + tri_chunk_2_3_sp()
}

pub open spec fn tri_chunk_3_0_sp() -> Seq<i8> {
    seq![
        9i8, 7i8, 8i8, 5i8, 7i8, 9i8, -1i8, -1i8, -1i8, -1i8, -1i8, -1i8, -1i8, -1i8, -1i8, -1i8,
        9i8, 3i8, 0i8, 9i8, 5i8, 3i8, 5i8, 7i8, 3i8, -1i8, -1i8, -1i8, -1i8, -1i8, -1i8, -1i8,
        0i8, 7i8, 8i8, 0i8, 1i8, 7i8, 1i8, 5i8, 7i8, -1i8, -1i8, -1i8, -1i8, -1i8, -1i8, -1i8,
        1i8, 5i8, 3i8, 3i8, 5i8, 7i8, -1i8, -1i8, -1i8, -1i8, -1i8, -1i8, -1i8, -1i8, -1i8, -1i8,
    ]
}

pub open spec fn tri_chunk_3_1_sp() -> Seq<i8> {
    seq![
        9i8, 7i8, 8i8, 9i8, 5i8, 7i8, 10i8, 1i8, 2i8, -1i8, -1i8, -1i8, -1i8, -1i8, -1i8, -1i8,
        10i8, 1i8, 2i8, 9i8, 5i8, 0i8, 5i8, 3i8, 0i8, 5i8, 7i8, 3i8, -1i8, -1i8, -1i8, -1i8,
        8i8, 0i8, 2i8, 8i8, 2i8, 5i8, 8i8, 5i8, 7i8, 10i8, 5i8, 2i8, -1i8, -1i8, -1i8, -1i8,
        2i8, 10i8, 5i8, 2i8, 5i8, 3i8, 3i8, 5i8, 7i8, -1i8, -1i8, -1i8, -1i8, -1i8, -1i8, -1i8,
    ]
}

pub open spec fn tri_chunk_3_2_sp() -> Seq<i8> {
    seq![
        7i8, 9i8, 5i8, 7i8, 8i8, 9i8, 3i8, 11i8, 2i8, -1i8, -1i8, -1i8, -1i8, -1i8, -1i8, -1i8,
        9i8, 5i8, 7i8, 9i8, 7i8, 2i8, 9i8, 2i8, 0i8, 2i8, 7i8, 11i8, -1i8, -1i8, -1i8, -1i8,
        2i8, 3i8, 11i8, 0i8, 1i8, 8i8, 1i8, 7i8, 8i8, 1i8, 5i8, 7i8, -1i8, -1i8, -1i8, -1i8,
        11i8, 2i8, 1i8, 11i8, 1i8, 7i8, 7i8, 1i8, 5i8, -1i8, -1i8, -1i8, -1i8, -1i8, -1i8, -1i8,
    ]
}

pub open spec fn tri_chunk_3_3_sp() -> Seq<i8> {
    seq![
        9i8, 5i8, 8i8, 8i8, 5i8, 7i8, 10i8, 1i8, 3i8, 10i8, 3i8, 11i8, -1i8, -1i8, -1i8, -1i8,
        5i8, 7i8, 0i8, 5i8, 0i8, 9i8, 7i8, 11i8, 0i8, 1i8, 0i8, 10i8, 11i8, 10i8, 0i8, -1i8,
        11i8, 10i8, 0i8, 11i8, 0i8, 3i8, 10i8, 5i8, 0i8, 8i8, 0i8, 7i8, 5i8, 7i8, 0i8, -1i8,
        11i8, 10i8, 5i8, 7i8, 11i8, 5i8, -1i8, -1i8, -1i8, -1i8, -1i8, -1i8, -1i8, -1i8, -1i8, -1i8,
    ]
}

pub open spec fn tri_rows_3_sp() -> Seq<i8> {
    tri_chunk_3_0_sp() + tri_chunk_3_1_sp() + tri_chunk_3_2_sp() + tri_chunk_3_3_sp()
}

pub open spec fn tri_chunk_4_0_sp() -> Seq<i8> {
    seq![
        10i8, 6i8, 5i8, -1i8, -1i8, -1i8, -1i8, -1i8, -1i8, -1i8, -1i8, -1i8, -1i8, -1i8, -1i8, -1i8,
        0i8, 8i8, 3i8, 5i8, 10i8, 6i8, -1i8, -1i8, -1i8, -1i8, -1i8, -1i8, -1i8, -1i8, -1i8, -1i8,
        9i8, 0i8, 1i8, 5i8, 10i8, 6i8, -1i8, -1i8, -1i8, -1i8, -1i8, -1i8, -1i8, -1i8, -1i8, -1i8,
        1i8, 8i8, 3i8, 1i8, 9i8, 8i8, 5i8, 10i8, 6i8, -1i8, -1i8, -1i8, -1i8, -1i8, -1i8, -1i8,
    ]
}

pub open spec fn tri_chunk_4_1_sp() -> Seq<i8> {
    seq![
        1i8, 6i8, 5i8, 2i8, 6i8, 1i8, -1i8, -1i8, -1i8, -1i8, -1i8, -1i8, -1i8, -1i8, -1i8, -1i8,
        1i8, 6i8, 5i8, 1i8, 2i8, 6i8, 3i8, 0i8, 8i8, -1i8, -1i8, -1i8, -1i8, -1i8, -1i8, -1i8,
        9i8, 6i8, 5i8, 9i8, 0i8, 6i8, 0i8, 2i8, 6i8, -1i8, -1i8, -1i8, -1i8, -1i8, -1i8, -1i8,
        5i8, 9i8, 8i8, 5i8, 8i8, 2i8, 5i8, 2i8, 6i8, 3i8, 2i8, 8i8, -1i8, -1i8, -1i8, -1i8,
    ]
}

pub open spec fn tri_chunk_4_2_sp() -> Seq<i8> {
    seq![
        2i8, 3i8, 11i8, 10i8, 6i8, 5i8, -1i8, -1i8, -1i8, -1i8, -1i8, -1i8, -1i8, -1i8, -1i8, -1i8,
        11i8, 0i8, 8i8, 11i8, 2i8, 0i8, 10i8, 6i8, 5i8, -1i8, -1i8, -1i8, -1i8, -1i8, -1i8, -1i8,
        0i8, 1i8, 9i8, 2i8, 3i8, 11i8, 5i8, 10i8, 6i8, -1i8, -1i8, -1i8, -1i8, -1i8, -1i8, -1i8,
        5i8, 10i8, 6i8, 1i8, 9i8, 2i8, 9i8, 11i8, 2i8, 9i8, 8i8, 11i8, -1i8, -1i8, -1i8, -1i8,
    ]
}

pub open spec fn tri_chunk_4_3_sp() -> Seq<i8> {
    seq![
        6i8, 3i8, 11i8, 6i8, 5i8, 3i8, 5i8, 1i8, 3i8, -1i8, -1i8, -1i8, -1i8, -1i8, -1i8, -1i8,
        0i8, 8i8, 11i8, 0i8, 11i8, 5i8, 0i8, 5i8, 1i8, 5i8, 11i8, 6i8, -1i8, -1i8, -1i8, -1i8,
        3i8, 11i8, 6i8, 0i8, 3i8, 6i8, 0i8, 6i8, 5i8, 0i8, 5i8, 9i8, -1i8, -1i8, -1i8, -1i8,
        6i8, 5i8, 9i8, 6i8, 9i8, 11i8, 11i8, 9i8, 8i8, -1i8, -1i8, -1i8, -1i8, -1i8, -1i8, -1i8,
    ]
}

pub open spec fn tri_rows_4_sp() -> Seq<i8> {
    tri_chunk_4_0_sp() + tri_chunk_4_1_sp() + tri_chunk_4_2_sp() + tri_chunk_4_3_sp()
}

pub open spec fn tri_chunk_5_0_sp() -> Seq<i8> {
    seq![
        5i8, 10i8, 6i8, 4i8, 7i8, 8i8, -1i8, -1i8, -1i8, -1i8, -1i8, -1i8, -1i8, -1i8, -1i8, -1i8,
        4i8, 3i8, 0i8, 4i8, 7i8, 3i8, 6i8, 5i8, 10i8, -1i8, -1i8, -1i8, -1i8, -1i8, -1i8, -1i8,
        1i8, 9i8, 0i8, 5i8, 10i8, 6i8, 8i8, 4i8, 7i8, -1i8, -1i8, -1i8, -1i8, -1i8, -1i8, -1i8,
        10i8, 6i8, 5i8, 1i8, 9i8, 7i8, 1i8, 7i8, 3i8, 7i8, 9i8, 4i8, -1i8, -1i8, -1i8, -1i8,
    ]
}

pub open spec fn tri_chunk_5_1_sp() -> Seq<i8> {
    seq![
        6i8, 1i8, 2i8, 6i8, 5i8, 1i8, 4i8, 7i8, 8i8, -1i8, -1i8, -1i8, -1i8, -1i8, -1i8, -1i8,
        1i8, 2i8, 5i8, 5i8, 2i8, 6i8, 3i8, 0i8, 4i8, 3i8, 4i8, 7i8, -1i8, -1i8, -1i8, -1i8,
        8i8, 4i8, 7i8, 9i8, 0i8, 5i8, 0i8, 6i8, 5i8, 0i8, 2i8, 6i8, -1i8, -1i8, -1i8, -1i8,
        7i8, 3i8, 9i8, 7i8, 9i8, 4i8, 3i8, 2i8, 9i8, 5i8, 9i8, 6i8, 2i8, 6i8, 9i8, -1i8,
    ]
}

pub open spec fn tri_chunk_5_2_sp() -> Seq<i8> {
    seq![
        3i8, 11i8, 2i8, 7i8, 8i8, 4i8, 10i8, 6i8, 5i8, -1i8, -1i8, -1i8, -1i8, -1i8, -1i8, -1i8,
        5i8, 10i8, 6i8, 4i8, 7i8, 2i8, 4i8, 2i8, 0i8, 2i8, 7i8, 11i8, -1i8, -1i8, -1i8, -1i8,
        0i8, 1i8, 9i8, 4i8, 7i8, 8i8, 2i8, 3i8, 11i8, 5i8, 10i8, 6i8, -1i8, -1i8, -1i8, -1i8,
        9i8, 2i8, 1i8, 9i8, 11i8, 2i8, 9i8, 4i8, 11i8, 7i8, 11i8, 4i8, 5i8, 10i8, 6i8, -1i8,
    ]
}

pub open spec fn tri_chunk_5_3_sp() -> Seq<i8> {
    seq![
        8i8, 4i8, 7i8, 3i8, 11i8, 5i8, 3i8, 5i8, 1i8, 5i8, 11i8, 6i8, -1i8, -1i8, -1i8, -1i8,
        5i8, 1i8, 11i8, 5i8, 11i8, 6i8, 1i8, 0i8, 11i8, 7i8, 11i8, 4i8, 0i8, 4i8, 11i8, -1i8,
        0i8, 5i8, 9i8, 0i8, 6i8, 5i8, 0i8, 3i8, 6i8, 11i8, 6i8, 3i8, 8i8, 4i8, 7i8, -1i8,
        6i8, 5i8, 9i8, 6i8, 9i8, 11i8, 4i8, 7i8, 9i8, 7i8, 11i8, 9i8, -1i8, -1i8, -1i8, -1i8,
    ]
}

pub open spec fn tri_rows_5_sp() -> Seq<i8> {
    tri_chunk_5_0_sp() + tri_chunk_5_1_sp() + tri_chunk_5_2_sp() + tri_chunk_5_3_sp()
}

pub open spec fn tri_chunk_6_0_sp() -> Seq<i8> {
    seq![
        10i8, 4i8, 9i8, 6i8, 4i8, 10i8, -1i8, -1i8, -1i8, -1i8, -1i8, -1i8, -1i8, -1i8, -1i8, -1i8,
        4i8, 10i8, 6i8, 4i8, 9i8, 10i8, 0i8, 8i8, 3i8, -1i8, -1i8, -1i8, -1i8, -1i8, -1i8, -1i8,
        10i8, 0i8, 1i8, 10i8, 6i8, 0i8, 6i8, 4i8, 0i8, -1i8, -1i8, -1i8, -1i8, -1i8, -1i8, -1i8,
        8i8, 3i8, 1i8, 8i8, 1i8, 6i8, 8i8, 6i8, 4i8, 6i8, 1i8, 10i8, -1i8, -1i8, -1i8, -1i8,
    ]
}

pub open spec fn tri_chunk_6_1_sp() -> Seq<i8> {
    seq![
        1i8, 4i8, 9i8, 1i8, 2i8, 4i8, 2i8, 6i8, 4i8, -1i8, -1i8, -1i8, -1i8, -1i8, -1i8, -1i8,
        3i8, 0i8, 8i8, 1i8, 2i8, 9i8, 2i8, 4i8, 9i8, 2i8, 6i8, 4i8, -1i8, -1i8, -1i8, -1i8,
        0i8, 2i8, 4i8, 4i8, 2i8, 6i8, -1i8, -1i8, -1i8, -1i8, -1i8, -1i8, -1i8, -1i8, -1i8, -1i8,
        8i8, 3i8, 2i8, 8i8, 2i8, 4i8, 4i8, 2i8, 6i8, -1i8, -1i8, -1i8, -1i8, -1i8, -1i8, -1i8,
    ]
}

pub open spec fn tri_chunk_6_2_sp() -> Seq<i8> {
    seq![
        10i8, 4i8, 9i8, 10i8, 6i8, 4i8, 11i8, 2i8, 3i8, -1i8, -1i8, -1i8, -1i8, -1i8, -1i8, -1i8,
        0i8, 8i8, 2i8, 2i8, 8i8, 11i8, 4i8, 9i8, 10i8, 4i8, 10i8, 6i8, -1i8, -1i8, -1i8, -1i8,
        3i8, 11i8, 2i8, 0i8, 1i8, 6i8, 0i8, 6i8, 4i8, 6i8, 1i8, 10i8, -1i8, -1i8, -1i8, -1i8,
        6i8, 4i8, 1i8, 6i8, 1i8, 10i8, 4i8, 8i8, 1i8, 2i8, 1i8, 11i8, 8i8, 11i8, 1i8, -1i8,
    ]
}

pub open spec fn tri_chunk_6_3_sp() -> Seq<i8> {
    seq![
        9i8, 6i8, 4i8, 9i8, 3i8, 6i8, 9i8, 1i8, 3i8, 11i8, 6i8, 3i8, -1i8, -1i8, -1i8, -1i8,
        8i8, 11i8, 1i8, 8i8, 1i8, 0i8, 11i8, 6i8, 1i8, 9i8, 1i8, 4i8, 6i8, 4i8, 1i8, -1i8,
        3i8, 11i8, 6i8, 3i8, 6i8, 0i8, 0i8, 6i8, 4i8, -1i8, -1i8, -1i8, -1i8, -1i8, -1i8, -1i8,
        6i8, 4i8, 8i8, 11i8, 6i8, 8i8, -1i8, -1i8, -1i8, -1i8, -1i8, -1i8, -1i8, -1i8, -1i8, -1i8,
    ]
}

pub open spec fn tri_rows_6_sp() -> Seq<i8> {
    tri_chunk_6_0_sp() + tri_chunk_6_1_sp() + tri_chunk_6_2_sp() + tri_chunk_6_3_sp()
}

pub open spec fn tri_chunk_7_0_sp() -> Seq<i8> {
    seq![
        7i8, 10i8, 6i8, 7i8, 8i8, 10i8, 8i8, 9i8, 10i8, -1i8, -1i8, -1i8, -1i8, -1i8, -1i8, -1i8,
        0i8, 7i8, 3i8, 0i8, 10i8, 7i8, 0i8, 9i8, 10i8, 6i8, 7i8, 10i8, -1i8, -1i8, -1i8, -1i8,
        10i8, 6i8, 7i8, 1i8, 10i8, 7i8, 1i8, 7i8, 8i8, 1i8, 8i8, 0i8, -1i8, -1i8, -1i8, -1i8,
        10i8, 6i8, 7i8, 10i8, 7i8, 1i8, 1i8, 7i8, 3i8, -1i8, -1i8, -1i8, -1i8, -1i8, -1i8, -1i8,
    ]
}

pub open spec fn tri_chunk_7_1_sp() -> Seq<i8> {
    seq![
        1i8, 2i8, 6i8, 1i8, 6i8, 8i8, 1i8, 8i8, 9i8, 8i8, 6i8, 7i8, -1i8, -1i8, -1i8, -1i8,
        2i8, 6i8, 9i8, 2i8, 9i8, 1i8, 6i8, 7i8, 9i8, 0i8, 9i8, 3i8, 7i8, 3i8, 9i8, -1i8,
        7i8, 8i8, 0i8, 7i8, 0i8, 6i8, 6i8, 0i8, 2i8, -1i8, -1i8, -1i8, -1i8, -1i8, -1i8, -1i8,
        7i8, 3i8, 2i8, 6i8, 7i8, 2i8, -1i8, -1i8, -1i8, -1i8, -1i8, -1i8, -1i8, -1i8, -1i8, -1i8,
    ]
}

pub open spec fn tri_chunk_7_2_sp() -> Seq<i8> {
    seq![
        2i8, 3i8, 11i8, 10i8, 6i8, 8i8, 10i8, 8i8, 9i8, 8i8, 6i8, 7i8, -1i8, -1i8, -1i8, -1i8,
        2i8, 0i8, 7i8, 2i8, 7i8, 11i8, 0i8, 9i8, 7i8, 6i8, 7i8, 10i8, 9i8, 10i8, 7i8, -1i8,
        1i8, 8i8, 0i8, 1i8, 7i8, 8i8, 1i8, 10i8, 7i8, 6i8, 7i8, 10i8, 2i8, 3i8, 11i8, -1i8,
        11i8, 2i8, 1i8, 11i8, 1i8, 7i8, 10i8, 6i8, 1i8, 6i8, 7i8, 1i8, -1i8, -1i8, -1i8, -1i8,
    ]
}

pub open spec fn tri_chunk_7_3_sp() -> Seq<i8> {
    seq![
        8i8, 9i8, 6i8, 8i8, 6i8, 7i8, 9i8, 1i8, 6i8, 11i8, 6i8, 3i8, 1i8, 3i8, 6i8, -1i8,
        0i8, 9i8, 1i8, 11i8, 6i8, 7i8, -1i8, -1i8, -1i8, -1i8, -1i8, -1i8, -1i8, -1i8, -1i8, -1i8,
        7i8, 8i8, 0i8, 7i8, 0i8, 6i8, 3i8, 11i8, 0i8, 11i8, 6i8, 0i8, -1i8, -1i8, -1i8, -1i8,
        7i8, 11i8, 6i8, -1i8, -1i8, -1i8, -1i8, -1i8, -1i8, -1i8, -1i8, -1i8, -1i8, -1i8, -1i8, -1i8,
    ]
}

pub open spec fn tri_rows_7_sp() -> Seq<i8> {
    tri_chunk_7_0_sp() + tri_chunk_7_1_sp() + tri_chunk_7_2_sp() + tri_chunk_7_3_sp()
}

pub open spec fn tri_chunk_8_0_sp() -> Seq<i8> {
    seq![
        7i8, 6i8, 11i8, -1i8, -1i8, -1i8, -1i8, -1i8, -1i8, -1i8, -1i8, -1i8, -1i8, -1i8, -1i8, -1i8,
        3i8, 0i8, 8i8, 11i8, 7i8, 6i8, -1i8, -1i8, -1i8, -1i8, -1i8, -1i8, -1i8, -1i8, -1i8, -1i8,
        0i8, 1i8, 9i8, 11i8, 7i8, 6i8, -1i8, -1i8, -1i8, -1i8, -1i8, -1i8, -1i8, -1i8, -1i8, -1i8,
        8i8, 1i8, 9i8, 8i8, 3i8, 1i8, 11i8, 7i8, 6i8, -1i8, -1i8, -1i8, -1i8, -1i8, -1i8, -1i8,
    ]
}

pub open spec fn tri_chunk_8_1_sp() -> Seq<i8> {
    seq![
        10i8, 1i8, 2i8, 6i8, 11i8, 7i8, -1i8, -1i8, -1i8, -1i8, -1i8, -1i8, -1i8, -1i8, -1i8, -1i8,
        1i8, 2i8, 10i8, 3i8, 0i8, 8i8, 6i8, 11i8, 7i8, -1i8, -1i8, -1i8, -1i8, -1i8, -1i8, -1i8,
        2i8, 9i8, 0i8, 2i8, 10i8, 9i8, 6i8, 11i8, 7i8, -1i8, -1i8, -1i8, -1i8, -1i8, -1i8, -1i8,
        6i8, 11i8, 7i8, 2i8, 10i8, 3i8, 10i8, 8i8, 3i8, 10i8, 9i8, 8i8, -1i8, -1i8, -1i8, -1i8,
    ]
}

pub open spec fn tri_chunk_8_2_sp() -> Seq<i8> {
    seq![
        7i8, 2i8, 3i8, 6i8, 2i8, 7i8, -1i8, -1i8, -1i8, -1i8, -1i8, -1i8, -1i8, -1i8, -1i8, -1i8,
        7i8, 0i8, 8i8, 7i8, 6i8, 0i8, 6i8, 2i8, 0i8, -1i8, -1i8, -1i8, -1i8, -1i8, -1i8, -1i8,
        2i8, 7i8, 6i8, 2i8, 3i8, 7i8, 0i8, 1i8, 9i8, -1i8, -1i8, -1i8, -1i8, -1i8, -1i8, -1i8,
        1i8, 6i8, 2i8, 1i8, 8i8, 6i8, 1i8, 9i8, 8i8, 8i8, 7i8, 6i8, -1i8, -1i8, -1i8, -1i8,
    ]
}

pub open spec fn tri_chunk_8_3_sp() -> Seq<i8> {
    seq![
        10i8, 7i8, 6i8, 10i8, 1i8, 7i8, 1i8, 3i8, 7i8, -1i8, -1i8, -1i8, -1i8, -1i8, -1i8, -1i8,
        10i8, 7i8, 6i8, 1i8, 7i8, 10i8, 1i8, 8i8, 7i8, 1i8, 0i8, 8i8, -1i8, -1i8, -1i8, -1i8,
        0i8, 3i8, 7i8, 0i8, 7i8, 10i8, 0i8, 10i8, 9i8, 6i8, 10i8, 7i8, -1i8, -1i8, -1i8, -1i8,
        7i8, 6i8, 10i8, 7i8, 10i8, 8i8, 8i8, 10i8, 9i8, -1i8, -1i8, -1i8, -1i8, -1i8, -1i8, -1i8,
    ]
}

pub open spec fn tri_rows_8_sp() -> Seq<i8> {
    tri_chunk_8_0_sp() + tri_chunk_8_1_sp() + tri_chunk_8_2_sp() + tri_chunk_8_3_sp()
}

pub open spec fn tri_chunk_9_0_sp() -> Seq<i8> {
    seq![
        6i8, 8i8, 4i8, 11i8, 8i8, 6i8, -1i8, -1i8, -1i8, -1i8, -1i8, -1i8, -1i8, -1i8, -1i8, -1i8,
        3i8, 6i8, 11i8, 3i8, 0i8, 6i8, 0i8, 4i8, 6i8, -1i8, -1i8, -1i8, -1i8, -1i8, -1i8, -1i8,
        8i8, 6i8, 11i8, 8i8, 4i8, 6i8, 9i8, 0i8, 1i8, -1i8, -1i8, -1i8, -1i8, -1i8, -1i8, -1i8,
        9i8, 4i8, 6i8, 9i8, 6i8, 3i8, 9i8, 3i8, 1i8, 11i8, 3i8, 6i8, -1i8, -1i8, -1i8, -1i8,
    ]
}

pub open spec fn tri_chunk_9_1_sp() -> Seq<i8> {
    seq![
        6i8, 8i8, 4i8, 6i8, 11i8, 8i8, 2i8, 10i8, 1i8, -1i8, -1i8, -1i8, -1i8, -1i8, -1i8, -1i8,
        1i8, 2i8, 10i8, 3i8, 0i8, 11i8, 0i8, 6i8, 11i8, 0i8, 4i8, 6i8, -1i8, -1i8, -1i8, -1i8,
        4i8, 11i8, 8i8, 4i8, 6i8, 11i8, 0i8, 2i8, 9i8, 2i8, 10i8, 9i8, -1i8, -1i8, -1i8, -1i8,
        10i8, 9i8, 3i8, 10i8, 3i8, 2i8, 9i8, 4i8, 3i8, 11i8, 3i8, 6i8, 4i8, 6i8, 3i8, -1i8,
    ]
}

pub open spec fn tri_chunk_9_2_sp() -> Seq<i8> {
    seq![
        8i8, 2i8, 3i8, 8i8, 4i8, 2i8, 4i8, 6i8, 2i8, -1i8, -1i8, -1i8, -1i8, -1i8, -1i8, -1i8,
        0i8, 4i8, 2i8, 4i8, 6i8, 2i8, -1i8, -1i8, -1i8, -1i8, -1i8, -1i8, -1i8, -1i8, -1i8, -1i8,
        1i8, 9i8, 0i8, 2i8, 3i8, 4i8, 2i8, 4i8, 6i8, 4i8, 3i8, 8i8, -1i8, -1i8, -1i8, -1i8,
        1i8, 9i8, 4i8, 1i8, 4i8, 2i8, 2i8, 4i8, 6i8, -1i8, -1i8, -1i8, -1i8, -1i8, -1i8, -1i8,
    ]
}

pub open spec fn tri_chunk_9_3_sp() -> Seq<i8> {
    seq![
        8i8, 1i8, 3i8, 8i8, 6i8, 1i8, 8i8, 4i8, 6i8, 6i8, 10i8, 1i8, -1i8, -1i8, -1i8, -1i8,
        10i8, 1i8, 0i8, 10i8, 0i8, 6i8, 6i8, 0i8, 4i8, -1i8, -1i8, -1i8, -1i8, -1i8, -1i8, -1i8,
        4i8, 6i8, 3i8, 4i8, 3i8, 8i8, 6i8, 10i8, 3i8, 0i8, 3i8, 9i8, 10i8, 9i8, 3i8, -1i8,
        10i8, 9i8, 4i8, 6i8, 10i8, 4i8, -1i8, -1i8, -1i8, -1i8, -1i8, -1i8, -1i8, -1i8, -1i8, -1i8,
    ]
}

pub open spec fn tri_rows_9_sp() -> Seq<i8> {
    tri_chunk_9_0_sp() + tri_chunk_9_1_sp() + tri_chunk_9_2_sp() + tri_chunk_9_3_sp()
}

pub open spec fn tri_chunk_10_0_sp() -> Seq<i8> {
    seq![
        4i8, 9i8, 5i8, 7i8, 6i8, 11i8, -1i8, -1i8, -1i8, -1i8, -1i8, -1i8, -1i8, -1i8, -1i8, -1i8,
        0i8, 8i8, 3i8, 4i8, 9i8, 5i8, 11i8, 7i8, 6i8, -1i8, -1i8, -1i8, -1i8, -1i8, -1i8, -1i8,
        5i8, 0i8, 1i8, 5i8, 4i8, 0i8, 7i8, 6i8, 11i8, -1i8, -1i8, -1i8, -1i8, -1i8, -1i8, -1i8,
        11i8, 7i8, 6i8, 8i8, 3i8, 4i8, 3i8, 5i8, 4i8, 3i8, 1i8, 5i8, -1i8, -1i8, -1i8, -1i8,
    ]
}

pub open spec fn tri_chunk_10_1_sp() -> Seq<i8> {
    seq![
        9i8, 5i8, 4i8, 10i8, 1i8, 2i8, 7i8, 6i8, 11i8, -1i8, -1i8, -1i8, -1i8, -1i8, -1i8, -1i8,
        6i8, 11i8, 7i8, 1i8, 2i8, 10i8, 0i8, 8i8, 3i8, 4i8, 9i8, 5i8, -1i8, -1i8, -1i8, -1i8,
        7i8, 6i8, 11i8, 5i8, 4i8, 10i8, 4i8, 2i8, 10i8, 4i8, 0i8, 2i8, -1i8, -1i8, -1i8, -1i8,
        3i8, 4i8, 8i8, 3i8, 5i8, 4i8, 3i8, 2i8, 5i8, 10i8, 5i8, 2i8, 11i8, 7i8, 6i8, -1i8,
    ]
}

pub open spec fn tri_chunk_10_2_sp() -> Seq<i8> {
    seq![
        7i8, 2i8, 3i8, 7i8, 6i8, 2i8, 5i8, 4i8, 9i8, -1i8, -1i8, -1i8, -1i8, -1i8, -1i8, -1i8,
        9i8, 5i8, 4i8, 0i8, 8i8, 6i8, 0i8, 6i8, 2i8, 6i8, 8i8, 7i8, -1i8, -1i8, -1i8, -1i8,
        3i8, 6i8, 2i8, 3i8, 7i8, 6i8, 1i8, 5i8, 0i8, 5i8, 4i8, 0i8, -1i8, -1i8, -1i8, -1i8,
        6i8, 2i8, 8i8, 6i8, 8i8, 7i8, 2i8, 1i8, 8i8, 4i8, 8i8, 5i8, 1i8, 5i8, 8i8, -1i8,
    ]
}

pub open spec fn tri_chunk_10_3_sp() -> Seq<i8> {
    seq![
        9i8, 5i8, 4i8, 10i8, 1i8, 6i8, 1i8, 7i8, 6i8, 1i8, 3i8, 7i8, -1i8, -1i8, -1i8, -1i8,
        1i8, 6i8, 10i8, 1i8, 7i8, 6i8, 1i8, 0i8, 7i8, 8i8, 7i8, 0i8, 9i8, 5i8, 4i8, -1i8,
        4i8, 0i8, 10i8, 4i8, 10i8, 5i8, 0i8, 3i8, 10i8, 6i8, 10i8, 7i8, 3i8, 7i8, 10i8, -1i8,
        7i8, 6i8, 10i8, 7i8, 10i8, 8i8, 5i8, 4i8, 10i8, 4i8, 8i8, 10i8, -1i8, -1i8, -1i8, -1i8,
    ]
}

pub open spec fn tri_rows_10_sp() -> Seq<i8> {
    tri_chunk_10_0_sp() + tri_chunk_10_1_sp() + tri_chunk_10_2_sp() + tri_chunk_10_3_sp()
}

pub open spec fn tri_chunk_11_0_sp() -> Seq<i8> {
    seq![
        6i8, 9i8, 5i8, 6i8, 11i8, 9i8, 11i8, 8i8, 9i8, -1i8, -1i8, -1i8, -1i8, -1i8, -1i8, -1i8,
        3i8, 6i8, 11i8, 0i8, 6i8, 3i8, 0i8, 5i8, 6i8, 0i8, 9i8, 5i8, -1i8, -1i8, -1i8, -1i8,
        0i8, 11i8, 8i8, 0i8, 5i8, 11i8, 0i8, 1i8, 5i8, 5i8, 6i8, 11i8, -1i8, -1i8, -1i8, -1i8,
        6i8, 11i8, 3i8, 6i8, 3i8, 5i8, 5i8, 3i8, 1i8, -1i8, -1i8, -1i8, -1i8, -1i8, -1i8, -1i8,
    ]
}

pub open spec fn tri_chunk_11_1_sp() -> Seq<i8> {
    seq![
        1i8, 2i8, 10i8, 9i8, 5i8, 11i8, 9i8, 11i8, 8i8, 11i8, 5i8, 6i8, -1i8, -1i8, -1i8, -1i8,
        0i8, 11i8, 3i8, 0i8, 6i8, 11i8, 0i8, 9i8, 6i8, 5i8, 6i8, 9i8, 1i8, 2i8, 10i8, -1i8,
        11i8, 8i8, 5i8, 11i8, 5i8, 6i8, 8i8, 0i8, 5i8, 10i8, 5i8, 2i8, 0i8, 2i8, 5i8, -1i8,
        6i8, 11i8, 3i8, 6i8, 3i8, 5i8, 2i8, 10i8, 3i8, 10i8, 5i8, 3i8, -1i8, -1i8, -1i8, -1i8,
    ]
}

pub open spec fn tri_chunk_11_2_sp() -> Seq<i8> {
    seq![
        5i8, 8i8, 9i8, 5i8, 2i8, 8i8, 5i8, 6i8, 2i8, 3i8, 8i8, 2i8, -1i8, -1i8, -1i8, -1i8,
        9i8, 5i8, 6i8, 9i8, 6i8, 0i8, 0i8, 6i8, 2i8, -1i8, -1i8, -1i8, -1i8, -1i8, -1i8, -1i8,
        1i8, 5i8, 8i8, 1i8, 8i8, 0i8, 5i8, 6i8, 8i8, 3i8, 8i8, 2i8, 6i8, 2i8, 8i8, -1i8,
        1i8, 5i8, 6i8, 2i8, 1i8, 6i8, -1i8, -1i8, -1i8, -1i8, -1i8, -1i8, -1i8, -1i8, -1i8, -1i8,
    ]
}

pub open spec fn tri_chunk_11_3_sp() -> Seq<i8> {
    seq![
        1i8, 3i8, 6i8, 1i8, 6i8, 10i8, 3i8, 8i8, 6i8, 5i8, 6i8, 9i8, 8i8, 9i8, 6i8, -1i8,
        10i8, 1i8, 0i8, 10i8, 0i8, 6i8, 9i8, 5i8, 0i8, 5i8, 6i8, 0i8, -1i8, -1i8, -1i8, -1i8,
        0i8, 3i8, 8i8, 5i8, 6i8, 10i8, -1i8, -1i8, -1i8, -1i8, -1i8, -1i8, -1i8, -1i8, -1i8, -1i8,
        10i8, 5i8, 6i8, -1i8, -1i8, -1i8, -1i8, -1i8, -1i8, -1i8, -1i8, -1i8, -1i8, -1i8, -1i8, -1i8,
    ]
}

pub open spec fn tri_rows_11_sp() -> Seq<i8> {
    tri_chunk_11_0_sp() + tri_chunk_11_1_sp() + tri_chunk_11_2_sp() + tri_chunk_11_3_sp()
}

pub open spec fn tri_chunk_12_0_sp() -> Seq<i8> {
    seq![
        11i8, 5i8, 10i8, 7i8, 5i8, 11i8, -1i8, -1i8, -1i8, -1i8, -1i8, -1i8, -1i8, -1i8, -1i8, -1i8,
        11i8, 5i8, 10i8, 11i8, 7i8, 5i8, 8i8, 3i8, 0i8, -1i8, -1i8, -1i8, -1i8, -1i8, -1i8, -1i8,
        5i8, 11i8, 7i8, 5i8, 10i8, 11i8, 1i8, 9i8, 0i8, -1i8, -1i8, -1i8, -1i8, -1i8, -1i8, -1i8,
        10i8, 7i8, 5i8, 10i8, 11i8, 7i8, 9i8, 8i8, 1i8, 8i8, 3i8, 1i8, -1i8, -1i8, -1i8, -1i8,
    ]
}

pub open spec fn tri_chunk_12_1_sp() -> Seq<i8> {
    seq![
        11i8, 1i8, 2i8, 11i8, 7i8, 1i8, 7i8, 5i8, 1i8, -1i8, -1i8, -1i8, -1i8, -1i8, -1i8, -1i8,
        0i8, 8i8, 3i8, 1i8, 2i8, 7i8, 1i8, 7i8, 5i8, 7i8, 2i8, 11i8, -1i8, -1i8, -1i8, -1i8,
        9i8, 7i8, 5i8, 9i8, 2i8, 7i8, 9i8, 0i8, 2i8, 2i8, 11i8, 7i8, -1i8, -1i8, -1i8, -1i8,
        7i8, 5i8, 2i8, 7i8, 2i8, 11i8, 5i8, 9i8, 2i8, 3i8, 2i8, 8i8, 9i8, 8i8, 2i8, -1i8,
    ]
}

pub open spec fn tri_chunk_12_2_sp() -> Seq<i8> {
    seq![
        2i8, 5i8, 10i8, 2i8, 3i8, 5i8, 3i8, 7i8, 5i8, -1i8, -1i8, -1i8, -1i8, -1i8, -1i8, -1i8,
        8i8, 2i8, 0i8, 8i8, 5i8, 2i8, 8i8, 7i8, 5i8, 10i8, 2i8, 5i8, -1i8, -1i8, -1i8, -1i8,
        9i8, 0i8, 1i8, 5i8, 10i8, 3i8, 5i8, 3i8, 7i8, 3i8, 10i8, 2i8, -1i8, -1i8, -1i8, -1i8,
        9i8, 8i8, 2i8, 9i8, 2i8, 1i8, 8i8, 7i8, 2i8, 10i8, 2i8, 5i8, 7i8, 5i8, 2i8, -1i8,
    ]
}

pub open spec fn tri_chunk_12_3_sp() -> Seq<i8> {
    seq![
        1i8, 3i8, 5i8, 3i8, 7i8, 5i8, -1i8, -1i8, -1i8, -1i8, -1i8, -1i8, -1i8, -1i8, -1i8, -1i8,
        0i8, 8i8, 7i8, 0i8, 7i8, 1i8, 1i8, 7i8, 5i8, -1i8, -1i8, -1i8, -1i8, -1i8, -1i8, -1i8,
        9i8, 0i8, 3i8, 9i8, 3i8, 5i8, 5i8, 3i8, 7i8, -1i8, -1i8, -1i8, -1i8, -1i8, -1i8, -1i8,
        9i8, 8i8, 7i8, 5i8, 9i8, 7i8, -1i8, -1i8, -1i8, -1i8, -1i8, -1i8, -1i8, -1i8, -1i8, -1i8,
    ]
}

pub open spec fn tri_rows_12_sp() -> Seq<i8> {
    tri_chunk_12_0_sp() + tri_chunk_12_1_sp() + tri_chunk_12_2_sp() + tri_chunk_12_3_sp()
}

pub open spec fn tri_chunk_13_0_sp() -> Seq<i8> {
    seq![
        5i8, 8i8, 4i8, 5i8, 10i8, 8i8, 10i8, 11i8, 8i8, -1i8, -1i8, -1i8, -1i8, -1i8, -1i8, -1i8,
        5i8, 0i8, 4i8, 5i8, 11i8, 0i8, 5i8, 10i8, 11i8, 11i8, 3i8, 0i8, -1i8, -1i8, -1i8, -1i8,
        0i8, 1i8, 9i8, 8i8, 4i8, 10i8, 8i8, 10i8, 11i8, 10i8, 4i8, 5i8, -1i8, -1i8, -1i8, -1i8,
        10i8, 11i8, 4i8, 10i8, 4i8, 5i8, 11i8, 3i8, 4i8, 9i8, 4i8, 1i8, 3i8, 1i8, 4i8, -1i8,
    ]
}

pub open spec fn tri_chunk_13_1_sp() -> Seq<i8> {
    seq![
        2i8, 5i8, 1i8, 2i8, 8i8, 5i8, 2i8, 11i8, 8i8, 4i8, 5i8, 8i8, -1i8, -1i8, -1i8, -1i8,
        0i8, 4i8, 11i8, 0i8, 11i8, 3i8, 4i8, 5i8, 11i8, 2i8, 11i8, 1i8, 5i8, 1i8, 11i8, -1i8,
        0i8, 2i8, 5i8, 0i8, 5i8, 9i8, 2i8, 11i8, 5i8, 4i8, 5i8, 8i8, 11i8, 8i8, 5i8, -1i8,
        9i8, 4i8, 5i8, 2i8, 11i8, 3i8, -1i8, -1i8, -1i8, -1i8, -1i8, -1i8, -1i8, -1i8, -1i8, -1i8,
    ]
}

pub open spec fn tri_chunk_13_2_sp() -> Seq<i8> {
    seq![
        2i8, 5i8, 10i8, 3i8, 5i8, 2i8, 3i8, 4i8, 5i8, 3i8, 8i8, 4i8, -1i8, -1i8, -1i8, -1i8,
        5i8, 10i8, 2i8, 5i8, 2i8, 4i8, 4i8, 2i8, 0i8, -1i8, -1i8, -1i8, -1i8, -1i8, -1i8, -1i8,
        3i8, 10i8, 2i8, 3i8, 5i8, 10i8, 3i8, 8i8, 5i8, 4i8, 5i8, 8i8, 0i8, 1i8, 9i8, -1i8,
        5i8, 10i8, 2i8, 5i8, 2i8, 4i8, 1i8, 9i8, 2i8, 9i8, 4i8, 2i8, -1i8, -1i8, -1i8, -1i8,
    ]
}

pub open spec fn tri_chunk_13_3_sp() -> Seq<i8> {
    seq![
        8i8, 4i8, 5i8, 8i8, 5i8, 3i8, 3i8, 5i8, 1i8, -1i8, -1i8, -1i8, -1i8, -1i8, -1i8, -1i8,
        0i8, 4i8, 5i8, 1i8, 0i8, 5i8, -1i8, -1i8, -1i8, -1i8, -1i8, -1i8, -1i8, -1i8, -1i8, -1i8,
        8i8, 4i8, 5i8, 8i8, 5i8, 3i8, 9i8, 0i8, 5i8, 0i8, 3i8, 5i8, -1i8, -1i8, -1i8, -1i8,
        9i8, 4i8, 5i8, -1i8, -1i8, -1i8, -1i8, -1i8, -1i8, -1i8, -1i8, -1i8, -1i8, -1i8, -1i8, -1i8,
    ]
}

pub open spec fn tri_rows_13_sp() -> Seq<i8> {
    tri_chunk_13_0_sp() + tri_chunk_13_1_sp() + tri_chunk_13_2_sp() + tri_chunk_13_3_sp()
}

pub open spec fn tri_chunk_14_0_sp() -> Seq<i8> {
    seq![
        4i8, 11i8, 7i8, 4i8, 9i8, 11i8, 9i8, 10i8, 11i8, -1i8, -1i8, -1i8, -1i8, -1i8, -1i8, -1i8,
        0i8, 8i8, 3i8, 4i8, 9i8, 7i8, 9i8, 11i8, 7i8, 9i8, 10i8, 11i8, -1i8, -1i8, -1i8, -1i8,
        1i8, 10i8, 11i8, 1i8, 11i8, 4i8, 1i8, 4i8, 0i8, 7i8, 4i8, 11i8, -1i8, -1i8, -1i8, -1i8,
        3i8, 1i8, 4i8, 3i8, 4i8, 8i8, 1i8, 10i8, 4i8, 7i8, 4i8, 11i8, 10i8, 11i8, 4i8, -1i8,
    ]
}

pub open spec fn tri_chunk_14_1_sp() -> Seq<i8> {
    seq![
        4i8, 11i8, 7i8, 9i8, 11i8, 4i8, 9i8, 2i8, 11i8, 9i8, 1i8, 2i8, -1i8, -1i8, -1i8, -1i8,
        9i8, 7i8, 4i8, 9i8, 11i8, 7i8, 9i8, 1i8, 11i8, 2i8, 11i8, 1i8, 0i8, 8i8, 3i8, -1i8,
        11i8, 7i8, 4i8, 11i8, 4i8, 2i8, 2i8, 4i8, 0i8, -1i8, -1i8, -1i8, -1i8, -1i8, -1i8, -1i8,
        11i8, 7i8, 4i8, 11i8, 4i8, 2i8, 8i8, 3i8, 4i8, 3i8, 2i8, 4i8, -1i8, -1i8, -1i8, -1i8,
    ]
}

pub open spec fn tri_chunk_14_2_sp() -> Seq<i8> {
    seq![
        2i8, 9i8, 10i8, 2i8, 7i8, 9i8, 2i8, 3i8, 7i8, 7i8, 4i8, 9i8, -1i8, -1i8, -1i8, -1i8,
        9i8, 10i8, 7i8, 9i8, 7i8, 4i8, 10i8, 2i8, 7i8, 8i8, 7i8, 0i8, 2i8, 0i8, 7i8, -1i8,
        3i8, 7i8, 10i8, 3i8, 10i8, 2i8, 7i8, 4i8, 10i8, 1i8, 10i8, 0i8, 4i8, 0i8, 10i8, -1i8,
        1i8, 10i8, 2i8, 8i8, 7i8, 4i8, -1i8, -1i8, -1i8, -1i8, -1i8, -1i8, -1i8, -1i8, -1i8, -1i8,
    ]
}

pub open spec fn tri_chunk_14_3_sp() -> Seq<i8> {
    seq![
        4i8, 9i8, 1i8, 4i8, 1i8, 7i8, 7i8, 1i8, 3i8, -1i8, -1i8, -1i8, -1i8, -1i8, -1i8, -1i8,
        4i8, 9i8, 1i8, 4i8, 1i8, 7i8, 0i8, 8i8, 1i8, 8i8, 7i8, 1i8, -1i8, -1i8, -1i8, -1i8,
        4i8, 0i8, 3i8, 7i8, 4i8, 3i8, -1i8, -1i8, -1i8, -1i8, -1i8, -1i8, -1i8, -1i8, -1i8, -1i8,
        4i8, 8i8, 7i8, -1i8, -1i8, -1i8, -1i8, -1i8, -1i8, -1i8, -1i8, -1i8, -1i8, -1i8, -1i8, -1i8,
    ]
}

pub open spec fn tri_rows_14_sp() -> Seq<i8> {
    tri_chunk_14_0_sp() + tri_chunk_14_1_sp() + tri_chunk_14_2_sp() + tri_chunk_14_3_sp()
}

pub open spec fn tri_chunk_15_0_sp() -> Seq<i8> {
    seq![
        9i8, 10i8, 8i8, 10i8, 11i8, 8i8, -1i8, -1i8, -1i8, -1i8, -1i8, -1i8, -1i8, -1i8, -1i8, -1i8,
        3i8, 0i8, 9i8, 3i8, 9i8, 11i8, 11i8, 9i8, 10i8, -1i8, -1i8, -1i8, -1i8, -1i8, -1i8, -1i8,
        0i8, 1i8, 10i8, 0i8, 10i8, 8i8, 8i8, 10i8, 11i8, -1i8, -1i8, -1i8, -1i8, -1i8, -1i8, -1i8,
        3i8, 1i8, 10i8, 11i8, 3i8, 10i8, -1i8, -1i8, -1i8, -1i8, -1i8, -1i8, -1i8, -1i8, -1i8, -1i8,
    ]
}

pub open spec fn tri_chunk_15_1_sp() -> Seq<i8> {
    seq![
        1i8, 2i8, 11i8, 1i8, 11i8, 9i8, 9i8, 11i8, 8i8, -1i8, -1i8, -1i8, -1i8, -1i8, -1i8, -1i8,
        3i8, 0i8, 9i8, 3i8, 9i8, 11i8, 1i8, 2i8, 9i8, 2i8, 11i8, 9i8, -1i8, -1i8, -1i8, -1i8,
        0i8, 2i8, 11i8, 8i8, 0i8, 11i8, -1i8, -1i8, -1i8, -1i8, -1i8, -1i8, -1i8, -1i8, -1i8, -1i8,
        3i8, 2i8, 11i8, -1i8, -1i8, -1i8, -1i8, -1i8, -1i8, -1i8, -1i8, -1i8, -1i8, -1i8, -1i8, -1i8,
    ]
}

pub open spec fn tri_chunk_15_2_sp() -> Seq<i8> {
    seq![
        2i8, 3i8, 8i8, 2i8, 8i8, 10i8, 10i8, 8i8, 9i8, -1i8, -1i8, -1i8, -1i8, -1i8, -1i8, -1i8,
        9i8, 10i8, 2i8, 0i8, 9i8, 2i8, -1i8, -1i8, -1i8, -1i8, -1i8, -1i8, -1i8, -1i8, -1i8, -1i8,
        2i8, 3i8, 8i8, 2i8, 8i8, 10i8, 0i8, 1i8, 8i8, 1i8, 10i8, 8i8, -1i8, -1i8, -1i8, -1i8,
        1i8, 10i8, 2i8, -1i8, -1i8, -1i8, -1i8, -1i8, -1i8, -1i8, -1i8, -1i8, -1i8, -1i8, -1i8, -1i8,
    ]
}

pub open spec fn tri_chunk_15_3_sp() -> Seq<i8> {
    seq![
        1i8, 3i8, 8i8, 9i8, 1i8, 8i8, -1i8, -1i8, -1i8, -1i8, -1i8, -1i8, -1i8, -1i8, -1i8, -1i8,
        0i8, 9i8, 1i8, -1i8, -1i8, -1i8, -1i8, -1i8, -1i8, -1i8, -1i8, -1i8, -1i8, -1i8, -1i8, -1i8,
        0i8, 3i8, 8i8, -1i8, -1i8, -1i8, -1i8, -1i8, -1i8, -1i8, -1i8, -1i8, -1i8, -1i8, -1i8, -1i8,
        -1i8, -1i8, -1i8, -1i8, -1i8, -1i8, -1i8, -1i8, -1i8, -1i8, -1i8, -1i8, -1i8, -1i8, -1i8, -1i8,
    ]
}

pub open spec fn tri_rows_15_sp() -> Seq<i8> {
    tri_chunk_15_0_sp() + tri_chunk_15_1_sp() + tri_chunk_15_2_sp() + tri_chunk_15_3_sp()
}

/// The flattened 256 x 16 triangle table, as spec-level data.
pub open spec fn tri_table_sp() -> Seq<i8> {
    tri_rows_0_sp() + tri_rows_1_sp() + tri_rows_2_sp() + tri_rows_3_sp() + tri_rows_4_sp()
        + tri_rows_5_sp() + tri_rows_6_sp() + tri_rows_7_sp() + tri_rows_8_sp()
        + tri_rows_9_sp() + tri_rows_10_sp() + tri_rows_11_sp() + tri_rows_12_sp()
        + tri_rows_13_sp() + tri_rows_14_sp() + tri_rows_15_sp()
}

/// The two lookup tables, one mask per configuration and one flattened
/// 256 x 16 triangle list.
pub struct McTables {
    pub edge: Vec<u16>,
    pub tri: Vec<i8>,
}

/// The table sizes the cell walker relies on.
pub open spec fn mc_tables_wf(t: &McTables) -> bool {
    t.edge@.len() == 256 && t.tri@.len() == 4096
}

/// The tables hold exactly the classic data.
pub open spec fn mc_tables_canonical(t: &McTables) -> bool {
    t.edge@ == edge_table_sp() && t.tri@ == tri_table_sp()
}

/// The 256 edge-crossing masks.
fn edge_masks() -> (r: Vec<u16>)
    ensures
        r@ == edge_table_sp(),
        r@.len() == 256,
{
    let mut e: Vec<u16> = Vec::new();
    let mut e0: Vec<u16> = vec![
        0u16, 265u16, 515u16, 778u16, 1030u16, 1295u16, 1541u16, 1804u16,
        2060u16, 2309u16, 2575u16, 2822u16, 3082u16, 3331u16, 3593u16, 3840u16,
        400u16, 153u16, 915u16, 666u16, 1430u16, 1183u16, 1941u16, 1692u16,
        2460u16, 2197u16, 2975u16, 2710u16, 3482u16, 3219u16, 3993u16, 3728u16,
        560u16, 825u16, 51u16, 314u16, 1590u16, 1855u16, 1077u16, 1340u16,
        2620u16, 2869u16, 2111u16, 2358u16, 3642u16, 3891u16, 3129u16, 3376u16,
        928u16, 681u16, 419u16, 170u16, 1958u16, 1711u16, 1445u16, 1196u16,
        2988u16, 2725u16, 2479u16, 2214u16, 4010u16, 3747u16, 3497u16, 3232u16,
    ];
    proof {
        assert(e0@ =~= edge_chunk_0_sp());
    }
    e.append(&mut e0);
    let mut e1: Vec<u16> = vec![
        1120u16, 1385u16, 1635u16, 1898u16, 102u16, 367u16, 613u16, 876u16,
        3180u16, 3429u16, 3695u16, 3942u16, 2154u16, 2403u16, 2665u16, 2912u16,
        1520u16, 1273u16, 2035u16, 1786u16, 502u16, 255u16, 1013u16, 764u16,
        3580u16, 3317u16, 4095u16, 3830u16, 2554u16, 2291u16, 3065u16, 2800u16,
        1616u16, 1881u16, 1107u16, 1370u16, 598u16, 863u16, 85u16, 348u16,
        3676u16, 3925u16, 3167u16, 3414u16, 2650u16, 2899u16, 2137u16, 2384u16,
        1984u16, 1737u16, 1475u16, 1226u16, 966u16, 719u16, 453u16, 204u16,
        4044u16, 3781u16, 3535u16, 3270u16, 3018u16, 2755u16, 2505u16, 2240u16,
    ];
    proof {
        assert(e1@ =~= edge_chunk_1_sp());
    }
    e.append(&mut e1);
    let mut e2: Vec<u16> = vec![
        2240u16, 2505u16, 2755u16, 3018u16, 3270u16, 3535u16, 3781u16, 4044u16,
        204u16, 453u16, 719u16, 966u16, 1226u16, 1475u16, 1737u16, 1984u16,
        2384u16, 2137u16, 2899u16, 2650u16, 3414u16, 3167u16, 3925u16, 3676u16,
        348u16, 85u16, 863u16, 598u16, 1370u16, 1107u16, 1881u16, 1616u16,
        2800u16, 3065u16, 2291u16, 2554u16, 3830u16, 4095u16, 3317u16, 3580u16,
        764u16, 1013u16, 255u16, 502u16, 1786u16, 2035u16, 1273u16, 1520u16,
        2912u16, 2665u16, 2403u16, 2154u16, 3942u16, 3695u16, 3429u16, 3180u16,
        876u16, 613u16, 367u16, 102u16, 1898u16, 1635u16, 1385u16, 1120u16,
    ];
    proof {
        assert(e2@ =~= edge_chunk_2_sp());
    }
    e.append(&mut e2);
    let mut e3: Vec<u16> = vec![
        3232u16, 3497u16, 3747u16, 4010u16, 2214u16, 2479u16, 2725u16, 2988u16,
        1196u16, 1445u16, 1711u16, 1958u16, 170u16, 419u16, 681u16, 928u16,
        3376u16, 3129u16, 3891u16, 3642u16, 2358u16, 2111u16, 2869u16, 2620u16,
        1340u16, 1077u16, 1855u16, 1590u16, 314u16, 51u16, 825u16, 560u16,
        3728u16, 3993u16, 3219u16, 3482u16, 2710u16, 2975u16, 2197u16, 2460u16,
        1692u16, 1941u16, 1183u16, 1430u16, 666u16, 915u16, 153u16, 400u16,
        3840u16, 3593u16, 3331u16, 3082u16, 2822u16, 2575u16, 2309u16, 2060u16,
        1804u16, 1541u16, 1295u16, 1030u16, 778u16, 515u16, 265u16, 0u16,
    ];
    proof {
        assert(e3@ =~= edge_chunk_3_sp());
    }
    e.append(&mut e3);
    e
}

/// Rows 0 to 15 of the triangle table.
fn tri_rows_0() -> (r: Vec<i8>)
    ensures
        r@ == tri_rows_0_sp(),
        r@.len() == 256,
{
    let mut t: Vec<i8> = Vec::new();
    let mut t0: Vec<i8> = vec![
        -1i8, -1i8, -1i8, -1i8, -1i8, -1i8, -1i8, -1i8, -1i8, -1i8, -1i8, -1i8, -1i8, -1i8, -1i8, -1i8,
        0i8, 8i8, 3i8, -1i8, -1i8, -1i8, -1i8, -1i8, -1i8, -1i8, -1i8, -1i8, -1i8, -1i8, -1i8, -1i8,
        0i8, 1i8, 9i8, -1i8, -1i8, -1i8, -1i8, -1i8, -1i8, -1i8, -1i8, -1i8, -1i8, -1i8, -1i8, -1i8,
        1i8, 8i8, 3i8, 9i8, 8i8, 1i8, -1i8, -1i8, -1i8, -1i8, -1i8, -1i8, -1i8, -1i8, -1i8, -1i8,
    ];
    proof {
        assert(t0@ =~= tri_chunk_0_0_sp());
    }
    t.append(&mut t0);
    let mut t1: Vec<i8> = vec![
        1i8, 2i8, 10i8, -1i8, -1i8, -1i8, -1i8, -1i8, -1i8, -1i8, -1i8, -1i8, -1i8, -1i8, -1i8, -1i8,
        0i8, 8i8, 3i8, 1i8, 2i8, 10i8, -1i8, -1i8, -1i8, -1i8, -1i8, -1i8, -1i8, -1i8, -1i8, -1i8,
        9i8, 2i8, 10i8, 0i8, 2i8, 9i8, -1i8, -1i8, -1i8, -1i8, -1i8, -1i8, -1i8, -1i8, -1i8, -1i8,
        2i8, 8i8, 3i8, 2i8, 10i8, 8i8, 10i8, 9i8, 8i8, -1i8, -1i8, -1i8, -1i8, -1i8, -1i8, -1i8,
    ];
    proof {
        assert(t1@ =~= tri_chunk_0_1_sp());
    }
    t.append(&mut t1);
    let mut t2: Vec<i8> = vec![
        3i8, 11i8, 2i8, -1i8, -1i8, -1i8, -1i8, -1i8, -1i8, -1i8, -1i8, -1i8, -1i8, -1i8, -1i8, -1i8,
        0i8, 11i8, 2i8, 8i8, 11i8, 0i8, -1i8, -1i8, -1i8, -1i8, -1i8, -1i8, -1i8, -1i8, -1i8, -1i8,
        1i8, 9i8, 0i8, 2i8, 3i8, 11i8, -1i8, -1i8, -1i8, -1i8, -1i8, -1i8, -1i8, -1i8, -1i8, -1i8,
        1i8, 11i8, 2i8, 1i8, 9i8, 11i8, 9i8, 8i8, 11i8, -1i8, -1i8, -1i8, -1i8, -1i8, -1i8, -1i8,
    ];
    proof {
        assert(t2@ =~= tri_chunk_0_2_sp());
    }
    t.append(&mut t2);
    let mut t3: Vec<i8> = vec![
        3i8, 10i8, 1i8, 11i8, 10i8, 3i8, -1i8, -1i8, -1i8, -1i8, -1i8, -1i8, -1i8, -1i8, -1i8, -1i8,
        0i8, 10i8, 1i8, 0i8, 8i8, 10i8, 8i8, 11i8, 10i8, -1i8, -1i8, -1i8, -1i8, -1i8, -1i8, -1i8,
        3i8, 9i8, 0i8, 3i8, 11i8, 9i8, 11i8, 10i8, 9i8, -1i8, -1i8, -1i8, -1i8, -1i8, -1i8, -1i8,
        9i8, 8i8, 10i8, 10i8, 8i8, 11i8, -1i8, -1i8, -1i8, -1i8, -1i8, -1i8, -1i8, -1i8, -1i8, -1i8,
    ];
    proof {
        assert(t3@ =~= tri_chunk_0_3_sp());
    }
    t.append(&mut t3);
    t
}

/// Rows 16 to 31 of the triangle table.
fn tri_rows_1() -> (r: Vec<i8>)
    ensures
        r@ == tri_rows_1_sp(),
        r@.len() == 256,
{
    let mut t: Vec<i8> = Vec::new();
    let mut t0: Vec<i8> = vec![
        4i8, 7i8, 8i8, -1i8, -1i8, -1i8, -1i8, -1i8, -1i8, -1i8, -1i8, -1i8, -1i8, -1i8, -1i8, -1i8,
        4i8, 3i8, 0i8, 7i8, 3i8, 4i8, -1i8, -1i8, -1i8, -1i8, -1i8, -1i8, -1i8, -1i8, -1i8, -1i8,
        0i8, 1i8, 9i8, 8i8, 4i8, 7i8, -1i8, -1i8, -1i8, -1i8, -1i8, -1i8, -1i8, -1i8, -1i8, -1i8,
        4i8, 1i8, 9i8, 4i8, 7i8, 1i8, 7i8, 3i8, 1i8, -1i8, -1i8, -1i8, -1i8, -1i8, -1i8, -1i8,
    ];
    proof {
        assert(t0@ =~= tri_chunk_1_0_sp());
    }
    t.append(&mut t0);
    let mut t1: Vec<i8> = vec![
        1i8, 2i8, 10i8, 8i8, 4i8, 7i8, -1i8, -1i8, -1i8, -1i8, -1i8, -1i8, -1i8, -1i8, -1i8, -1i8,
        3i8, 4i8, 7i8, 3i8, 0i8, 4i8, 1i8, 2i8, 10i8, -1i8, -1i8, -1i8, -1i8, -1i8, -1i8, -1i8,
        9i8, 2i8, 10i8, 9i8, 0i8, 2i8, 8i8, 4i8, 7i8, -1i8, -1i8, -1i8, -1i8, -1i8, -1i8, -1i8,
        2i8, 10i8, 9i8, 2i8, 9i8, 7i8, 2i8, 7i8, 3i8, 7i8, 9i8, 4i8, -1i8, -1i8, -1i8, -1i8,
    ];
    proof {
        assert(t1@ =~= tri_chunk_1_1_sp());
    }
    t.append(&mut t1);
    let mut t2: Vec<i8> = vec![
        8i8, 4i8, 7i8, 3i8, 11i8, 2i8, -1i8, -1i8, -1i8, -1i8, -1i8, -1i8, -1i8, -1i8, -1i8, -1i8,
        11i8, 4i8, 7i8, 11i8, 2i8, 4i8, 2i8, 0i8, 4i8, -1i8, -1i8, -1i8, -1i8, -1i8, -1i8, -1i8,
        9i8, 0i8, 1i8, 8i8, 4i8, 7i8, 2i8, 3i8, 11i8, -1i8, -1i8, -1i8, -1i8, -1i8, -1i8, -1i8,
        4i8, 7i8, 11i8, 9i8, 4i8, 11i8, 9i8, 11i8, 2i8, 9i8, 2i8, 1i8, -1i8, -1i8, -1i8, -1i8,
    ];
    proof {
        assert(t2@ =~= tri_chunk_1_2_sp());
    }
    t.append(&mut t2);
    let mut t3: Vec<i8> = vec![
        3i8, 10i8, 1i8, 3i8, 11i8, 10i8, 7i8, 8i8, 4i8, -1i8, -1i8, -1i8, -1i8, -1i8, -1i8, -1i8,
        1i8, 11i8, 10i8, 1i8, 4i8, 11i8, 1i8, 0i8, 4i8, 7i8, 11i8, 4i8, -1i8, -1i8, -1i8, -1i8,
        4i8, 7i8, 8i8, 9i8, 0i8, 11i8, 9i8, 11i8, 10i8, 11i8, 0i8, 3i8, -1i8, -1i8, -1i8, -1i8,
        4i8, 7i8, 11i8, 4i8, 11i8, 9i8, 9i8, 11i8, 10i8, -1i8, -1i8, -1i8, -1i8, -1i8, -1i8, -1i8,
    ];
    proof {
        assert(t3@ =~= tri_chunk_1_3_sp());
    }
    t.append(&mut t3);
    t
}

/// Rows 32 to 47 of the triangle table.
fn tri_rows_2() -> (r: Vec<i8>)
    ensures
        r@ == tri_rows_2_sp(),
        r@.len() == 256,
{
    let mut t: Vec<i8> = Vec::new();
    let mut t0: Vec<i8> = vec![
        9i8, 5i8, 4i8, -1i8, -1i8, -1i8, -1i8, -1i8, -1i8, -1i8, -1i8, -1i8, -1i8, -1i8, -1i8, -1i8,
        9i8, 5i8, 4i8, 0i8, 8i8, 3i8, -1i8, -1i8, -1i8, -1i8, -1i8, -1i8, -1i8, -1i8, -1i8, -1i8,
        0i8, 5i8, 4i8, 1i8, 5i8, 0i8, -1i8, -1i8, -1i8, -1i8, -1i8, -1i8, -1i8, -1i8, -1i8, -1i8,
        8i8, 5i8, 4i8, 8i8, 3i8, 5i8, 3i8, 1i8, 5i8, -1i8, -1i8, -1i8, -1i8, -1i8, -1i8, -1i8,
    ];
    proof {
        assert(t0@ =~= tri_chunk_2_0_sp());
    }
    t.append(&mut t0);
    let mut t1: Vec<i8> = vec![
        1i8, 2i8, 10i8, 9i8, 5i8, 4i8, -1i8, -1i8, -1i8, -1i8, -1i8, -1i8, -1i8, -1i8, -1i8, -1i8,
        3i8, 0i8, 8i8, 1i8, 2i8, 10i8, 4i8, 9i8, 5i8, -1i8, -1i8, -1i8, -1i8, -1i8, -1i8, -1i8,
        5i8, 2i8, 10i8, 5i8, 4i8, 2i8, 4i8, 0i8, 2i8, -1i8, -1i8, -1i8, -1i8, -1i8, -1i8, -1i8,
        2i8, 10i8, 5i8, 3i8, 2i8, 5i8, 3i8, 5i8, 4i8, 3i8, 4i8, 8i8, -1i8, -1i8, -1i8, -1i8,
    ];
    proof {
        assert(t1@ =~= tri_chunk_2_1_sp());
    }
    t.append(&mut t1);
    let mut t2: Vec<i8> = vec![
        9i8, 5i8, 4i8, 2i8, 3i8, 11i8, -1i8, -1i8, -1i8, -1i8, -1i8, -1i8, -1i8, -1i8, -1i8, -1i8,
        0i8, 11i8, 2i8, 0i8, 8i8, 11i8, 4i8, 9i8, 5i8, -1i8, -1i8, -1i8, -1i8, -1i8, -1i8, -1i8,
        0i8, 5i8, 4i8, 0i8, 1i8, 5i8, 2i8, 3i8, 11i8, -1i8, -1i8, -1i8, -1i8, -1i8, -1i8, -1i8,
        2i8, 1i8, 5i8, 2i8, 5i8, 8i8, 2i8, 8i8, 11i8, 4i8, 8i8, 5i8, -1i8, -1i8, -1i8, -1i8,
    ];
    proof {
        assert(t2@ =~= tri_chunk_2_2_sp());
    }
    t.append(&mut t2);
    let mut t3: Vec<i8> = vec![
        10i8, 3i8, 11i8, 10i8, 1i8, 3i8, 9i8, 5i8, 4i8, -1i8, -1i8, -1i8, -1i8, -1i8, -1i8, -1i8,
        4i8, 9i8, 5i8, 0i8, 8i8, 1i8, 8i8, 10i8, 1i8, 8i8, 11i8, 10i8, -1i8, -1i8, -1i8, -1i8,
        5i8, 4i8, 0i8, 5i8, 0i8, 11i8, 5i8, 11i8, 10i8, 11i8, 0i8, 3i8, -1i8, -1i8, -1i8, -1i8,
        5i8, 4i8, 8i8, 5i8, 8i8, 10i8, 10i8, 8i8, 11i8, -1i8, -1i8, -1i8, -1i8, -1i8, -1i8, -1i8,
    ];
    proof {
        assert(t3@ =~= tri_chunk_2_3_sp());
    }
    t.append(&mut t3);
    t
}

/// Rows 48 to 63 of the triangle table.
fn tri_rows_3() -> (r: Vec<i8>)
    ensures
        r@ == tri_rows_3_sp(),
        r@.len() == 256,
{
    let mut t: Vec<i8> = Vec::new();
    let mut t0: Vec<i8> = vec![
        9i8, 7i8, 8i8, 5i8, 7i8, 9i8, -1i8, -1i8, -1i8, -1i8, -1i8, -1i8, -1i8, -1i8, -1i8, -1i8,
        9i8, 3i8, 0i8, 9i8, 5i8, 3i8, 5i8, 7i8, 3i8, -1i8, -1i8, -1i8, -1i8, -1i8, -1i8, -1i8,
        0i8, 7i8, 8i8, 0i8, 1i8, 7i8, 1i8, 5i8, 7i8, -1i8, -1i8, -1i8, -1i8, -1i8, -1i8, -1i8,
        1i8, 5i8, 3i8, 3i8, 5i8, 7i8, -1i8, -1i8, -1i8, -1i8, -1i8, -1i8, -1i8, -1i8, -1i8, -1i8,
    ];
    proof {
        assert(t0@ =~= tri_chunk_3_0_sp());
    }
    t.append(&mut t0);
    let mut t1: Vec<i8> = vec![
        9i8, 7i8, 8i8, 9i8, 5i8, 7i8, 10i8, 1i8, 2i8, -1i8, -1i8, -1i8, -1i8, -1i8, -1i8, -1i8,
        10i8, 1i8, 2i8, 9i8, 5i8, 0i8, 5i8, 3i8, 0i8, 5i8, 7i8, 3i8, -1i8, -1i8, -1i8, -1i8,
        8i8, 0i8, 2i8, 8i8, 2i8, 5i8, 8i8, 5i8, 7i8, 10i8, 5i8, 2i8, -1i8, -1i8, -1i8, -1i8,
        2i8, 10i8, 5i8, 2i8, 5i8, 3i8, 3i8, 5i8, 7i8, -1i8, -1i8, -1i8, -1i8, -1i8, -1i8, -1i8,
    ];
    proof {
        assert(t1@ =~= tri_chunk_3_1_sp());
    }
    t.append(&mut t1);
    let mut t2: Vec<i8> = vec![
        7i8, 9i8, 5i8, 7i8, 8i8, 9i8, 3i8, 11i8, 2i8, -1i8, -1i8, -1i8, -1i8, -1i8, -1i8, -1i8,
        9i8, 5i8, 7i8, 9i8, 7i8, 2i8, 9i8, 2i8, 0i8, 2i8, 7i8, 11i8, -1i8, -1i8, -1i8, -1i8,
        2i8, 3i8, 11i8, 0i8, 1i8, 8i8, 1i8, 7i8, 8i8, 1i8, 5i8, 7i8, -1i8, -1i8, -1i8, -1i8,
        11i8, 2i8, 1i8, 11i8, 1i8, 7i8, 7i8, 1i8, 5i8, -1i8, -1i8, -1i8, -1i8, -1i8, -1i8, -1i8,
    ];
    proof {
        assert(t2@ =~= tri_chunk_3_2_sp());
    }
    t.append(&mut t2);
    let mut t3: Vec<i8> = vec![
        9i8, 5i8, 8i8, 8i8, 5i8, 7i8, 10i8, 1i8, 3i8, 10i8, 3i8, 11i8, -1i8, -1i8, -1i8, -1i8,
        5i8, 7i8, 0i8, 5i8, 0i8, 9i8, 7i8, 11i8, 0i8, 1i8, 0i8, 10i8, 11i8, 10i8, 0i8, -1i8,
        11i8, 10i8, 0i8, 11i8, 0i8, 3i8, 10i8, 5i8, 0i8, 8i8, 0i8, 7i8, 5i8, 7i8, 0i8, -1i8,
        11i8, 10i8, 5i8, 7i8, 11i8, 5i8, -1i8, -1i8, -1i8, -1i8, -1i8, -1i8, -1i8, -1i8, -1i8, -1i8,
    ];
    proof {
        assert(t3@ =~= tri_chunk_3_3_sp());
    }
    t.append(&mut t3);
    t
}

/// Rows 64 to 79 of the triangle table.
fn tri_rows_4() -> (r: Vec<i8>)
    ensures
        r@ == tri_rows_4_sp(),
        r@.len() == 256,
{
    let mut t: Vec<i8> = Vec::new();
    let mut t0: Vec<i8> = vec![
        10i8, 6i8, 5i8, -1i8, -1i8, -1i8, -1i8, -1i8, -1i8, -1i8, -1i8, -1i8, -1i8, -1i8, -1i8, -1i8,
        0i8, 8i8, 3i8, 5i8, 10i8, 6i8, -1i8, -1i8, -1i8, -1i8, -1i8, -1i8, -1i8, -1i8, -1i8, -1i8,
        9i8, 0i8, 1i8, 5i8, 10i8, 6i8, -1i8, -1i8, -1i8, -1i8, -1i8, -1i8, -1i8, -1i8, -1i8, -1i8,
        1i8, 8i8, 3i8, 1i8, 9i8, 8i8, 5i8, 10i8, 6i8, -1i8, -1i8, -1i8, -1i8, -1i8, -1i8, -1i8,
    ];
    proof {
        assert(t0@ =~= tri_chunk_4_0_sp());
    }
    t.append(&mut t0);
    let mut t1: Vec<i8> = vec![
        1i8, 6i8, 5i8, 2i8, 6i8, 1i8, -1i8, -1i8, -1i8, -1i8, -1i8, -1i8, -1i8, -1i8, -1i8, -1i8,
        1i8, 6i8, 5i8, 1i8, 2i8, 6i8, 3i8, 0i8, 8i8, -1i8, -1i8, -1i8, -1i8, -1i8, -1i8, -1i8,
        9i8, 6i8, 5i8, 9i8, 0i8, 6i8, 0i8, 2i8, 6i8, -1i8, -1i8, -1i8, -1i8, -1i8, -1i8, -1i8,
        5i8, 9i8, 8i8, 5i8, 8i8, 2i8, 5i8, 2i8, 6i8, 3i8, 2i8, 8i8, -1i8, -1i8, -1i8, -1i8,
    ];
    proof {
        assert(t1@ =~= tri_chunk_4_1_sp());
    }
    t.append(&mut t1);
    let mut t2: Vec<i8> = vec![
        2i8, 3i8, 11i8, 10i8, 6i8, 5i8, -1i8, -1i8, -1i8, -1i8, -1i8, -1i8, -1i8, -1i8, -1i8, -1i8,
        11i8, 0i8, 8i8, 11i8, 2i8, 0i8, 10i8, 6i8, 5i8, -1i8, -1i8, -1i8, -1i8, -1i8, -1i8, -1i8,
        0i8, 1i8, 9i8, 2i8, 3i8, 11i8, 5i8, 10i8, 6i8, -1i8, -1i8, -1i8, -1i8, -1i8, -1i8, -1i8,
        5i8, 10i8, 6i8, 1i8, 9i8, 2i8, 9i8, 11i8, 2i8, 9i8, 8i8, 11i8, -1i8, -1i8, -1i8, -1i8,
    ];
    proof {
        assert(t2@ =~= tri_chunk_4_2_sp());
    }
    t.append(&mut t2);
    let mut t3: Vec<i8> = vec![
        6i8, 3i8, 11i8, 6i8, 5i8, 3i8, 5i8, 1i8, 3i8, -1i8, -1i8, -1i8, -1i8, -1i8, -1i8, -1i8,
        0i8, 8i8, 11i8, 0i8, 11i8, 5i8, 0i8, 5i8, 1i8, 5i8, 11i8, 6i8, -1i8, -1i8, -1i8, -1i8,
        3i8, 11i8, 6i8, 0i8, 3i8, 6i8, 0i8, 6i8, 5i8, 0i8, 5i8, 9i8, -1i8, -1i8, -1i8, -1i8,
        6i8, 5i8, 9i8, 6i8, 9i8, 11i8, 11i8, 9i8, 8i8, -1i8, -1i8, -1i8, -1i8, -1i8, -1i8, -1i8,
    ];
    proof {
        assert(t3@ =~= tri_chunk_4_3_sp());
    }
    t.append(&mut t3);
    t
}

/// Rows 80 to 95 of the triangle table.
fn tri_rows_5() -> (r: Vec<i8>)
    ensures
        r@ == tri_rows_5_sp(),
        r@.len() == 256,
{
    let mut t: Vec<i8> = Vec::new();
    let mut t0: Vec<i8> = vec![
        5i8, 10i8, 6i8, 4i8, 7i8, 8i8, -1i8, -1i8, -1i8, -1i8, -1i8, -1i8, -1i8, -1i8, -1i8, -1i8,
        4i8, 3i8, 0i8, 4i8, 7i8, 3i8, 6i8, 5i8, 10i8, -1i8, -1i8, -1i8, -1i8, -1i8, -1i8, -1i8,
        1i8, 9i8, 0i8, 5i8, 10i8, 6i8, 8i8, 4i8, 7i8, -1i8, -1i8, -1i8, -1i8, -1i8, -1i8, -1i8,
        10i8, 6i8, 5i8, 1i8, 9i8, 7i8, 1i8, 7i8, 3i8, 7i8, 9i8, 4i8, -1i8, -1i8, -1i8, -1i8,
    ];
    proof {
        assert(t0@ =~= tri_chunk_5_0_sp());
    }
    t.append(&mut t0);
    let mut t1: Vec<i8> = vec![
        6i8, 1i8, 2i8, 6i8, 5i8, 1i8, 4i8, 7i8, 8i8, -1i8, -1i8, -1i8, -1i8, -1i8, -1i8, -1i8,
        1i8, 2i8, 5i8, 5i8, 2i8, 6i8, 3i8, 0i8, 4i8, 3i8, 4i8, 7i8, -1i8, -1i8, -1i8, -1i8,
        8i8, 4i8, 7i8, 9i8, 0i8, 5i8, 0i8, 6i8, 5i8, 0i8, 2i8, 6i8, -1i8, -1i8, -1i8, -1i8,
        7i8, 3i8, 9i8, 7i8, 9i8, 4i8, 3i8, 2i8, 9i8, 5i8, 9i8, 6i8, 2i8, 6i8, 9i8, -1i8,
    ];
    proof {
        assert(t1@ =~= tri_chunk_5_1_sp());
    }
    t.append(&mut t1);
    let mut t2: Vec<i8> = vec![
        3i8, 11i8, 2i8, 7i8, 8i8, 4i8, 10i8, 6i8, 5i8, -1i8, -1i8, -1i8, -1i8, -1i8, -1i8, -1i8,
        5i8, 10i8, 6i8, 4i8, 7i8, 2i8, 4i8, 2i8, 0i8, 2i8, 7i8, 11i8, -1i8, -1i8, -1i8, -1i8,
        0i8, 1i8, 9i8, 4i8, 7i8, 8i8, 2i8, 3i8, 11i8, 5i8, 10i8, 6i8, -1i8, -1i8, -1i8, -1i8,
        9i8, 2i8, 1i8, 9i8, 11i8, 2i8, 9i8, 4i8, 11i8, 7i8, 11i8, 4i8, 5i8, 10i8, 6i8, -1i8,
    ];
    proof {
        assert(t2@ =~= tri_chunk_5_2_sp());
    }
    t.append(&mut t2);
    let mut t3: Vec<i8> = vec![
        8i8, 4i8, 7i8, 3i8, 11i8, 5i8, 3i8, 5i8, 1i8, 5i8, 11i8, 6i8, -1i8, -1i8, -1i8, -1i8,
        5i8, 1i8, 11i8, 5i8, 11i8, 6i8, 1i8, 0i8, 11i8, 7i8, 11i8, 4i8, 0i8, 4i8, 11i8, -1i8,
        0i8, 5i8, 9i8, 0i8, 6i8, 5i8, 0i8, 3i8, 6i8, 11i8, 6i8, 3i8, 8i8, 4i8, 7i8, -1i8,
        6i8, 5i8, 9i8, 6i8, 9i8, 11i8, 4i8, 7i8, 9i8, 7i8, 11i8, 9i8, -1i8, -1i8, -1i8, -1i8,
    ];
    proof {
        assert(t3@ =~= tri_chunk_5_3_sp());
    }
    t.append(&mut t3);
    t
}

/// Rows 96 to 111 of the triangle table.
fn tri_rows_6() -> (r: Vec<i8>)
    ensures
        r@ == tri_rows_6_sp(),
        r@.len() == 256,
{
    let mut t: Vec<i8> = Vec::new();
    let mut t0: Vec<i8> = vec![
        10i8, 4i8, 9i8, 6i8, 4i8, 10i8, -1i8, -1i8, -1i8, -1i8, -1i8, -1i8, -1i8, -1i8, -1i8, -1i8,
        4i8, 10i8, 6i8, 4i8, 9i8, 10i8, 0i8, 8i8, 3i8, -1i8, -1i8, -1i8, -1i8, -1i8, -1i8, -1i8,
        10i8, 0i8, 1i8, 10i8, 6i8, 0i8, 6i8, 4i8, 0i8, -1i8, -1i8, -1i8, -1i8, -1i8, -1i8, -1i8,
        8i8, 3i8, 1i8, 8i8, 1i8, 6i8, 8i8, 6i8, 4i8, 6i8, 1i8, 10i8, -1i8, -1i8, -1i8, -1i8,
    ];
    proof {
        assert(t0@ =~= tri_chunk_6_0_sp());
    }
    t.append(&mut t0);
    let mut t1: Vec<i8> = vec![
        1i8, 4i8, 9i8, 1i8, 2i8, 4i8, 2i8, 6i8, 4i8, -1i8, -1i8, -1i8, -1i8, -1i8, -1i8, -1i8,
        3i8, 0i8, 8i8, 1i8, 2i8, 9i8, 2i8, 4i8, 9i8, 2i8, 6i8, 4i8, -1i8, -1i8, -1i8, -1i8,
        0i8, 2i8, 4i8, 4i8, 2i8, 6i8, -1i8, -1i8, -1i8, -1i8, -1i8, -1i8, -1i8, -1i8, -1i8, -1i8,
        8i8, 3i8, 2i8, 8i8, 2i8, 4i8, 4i8, 2i8, 6i8, -1i8, -1i8, -1i8, -1i8, -1i8, -1i8, -1i8,
    ];
    proof {
        assert(t1@ =~= tri_chunk_6_1_sp());
    }
    t.append(&mut t1);
    let mut t2: Vec<i8> = vec![
        10i8, 4i8, 9i8, 10i8, 6i8, 4i8, 11i8, 2i8, 3i8, -1i8, -1i8, -1i8, -1i8, -1i8, -1i8, -1i8,
        0i8, 8i8, 2i8, 2i8, 8i8, 11i8, 4i8, 9i8, 10i8, 4i8, 10i8, 6i8, -1i8, -1i8, -1i8, -1i8,
        3i8, 11i8, 2i8, 0i8, 1i8, 6i8, 0i8, 6i8, 4i8, 6i8, 1i8, 10i8, -1i8, -1i8, -1i8, -1i8,
        6i8, 4i8, 1i8, 6i8, 1i8, 10i8, 4i8, 8i8, 1i8, 2i8, 1i8, 11i8, 8i8, 11i8, 1i8, -1i8,
    ];
    proof {
        assert(t2@ =~= tri_chunk_6_2_sp());
    }
    t.append(&mut t2);
    let mut t3: Vec<i8> = vec![
        9i8, 6i8, 4i8, 9i8, 3i8, 6i8, 9i8, 1i8, 3i8, 11i8, 6i8, 3i8, -1i8, -1i8, -1i8, -1i8,
        8i8, 11i8, 1i8, 8i8, 1i8, 0i8, 11i8, 6i8, 1i8, 9i8, 1i8, 4i8, 6i8, 4i8, 1i8, -1i8,
        3i8, 11i8, 6i8, 3i8, 6i8, 0i8, 0i8, 6i8, 4i8, -1i8, -1i8, -1i8, -1i8, -1i8, -1i8, -1i8,
        6i8, 4i8, 8i8, 11i8, 6i8, 8i8, -1i8, -1i8, -1i8, -1i8, -1i8, -1i8, -1i8, -1i8, -1i8, -1i8,
    ];
    proof {
        assert(t3@ =~= tri_chunk_6_3_sp());
    }
    t.append(&mut t3);
    t
}

/// Rows 112 to 127 of the triangle table.
fn tri_rows_7() -> (r: Vec<i8>)
    ensures
        r@ == tri_rows_7_sp(),
        r@.len() == 256,
{
    let mut t: Vec<i8> = Vec::new();
    let mut t0: Vec<i8> = vec![
        7i8, 10i8, 6i8, 7i8, 8i8, 10i8, 8i8, 9i8, 10i8, -1i8, -1i8, -1i8, -1i8, -1i8, -1i8, -1i8,
        0i8, 7i8, 3i8, 0i8, 10i8, 7i8, 0i8, 9i8, 10i8, 6i8, 7i8, 10i8, -1i8, -1i8, -1i8, -1i8,
        10i8, 6i8, 7i8, 1i8, 10i8, 7i8, 1i8, 7i8, 8i8, 1i8, 8i8, 0i8, -1i8, -1i8, -1i8, -1i8,
        10i8, 6i8, 7i8, 10i8, 7i8, 1i8, 1i8, 7i8, 3i8, -1i8, -1i8, -1i8, -1i8, -1i8, -1i8, -1i8,
    ];
    proof {
        assert(t0@ =~= tri_chunk_7_0_sp());
    }
    t.append(&mut t0);
    let mut t1: Vec<i8> = vec![
        1i8, 2i8, 6i8, 1i8, 6i8, 8i8, 1i8, 8i8, 9i8, 8i8, 6i8, 7i8, -1i8, -1i8, -1i8, -1i8,
        2i8, 6i8, 9i8, 2i8, 9i8, 1i8, 6i8, 7i8, 9i8, 0i8, 9i8, 3i8, 7i8, 3i8, 9i8, -1i8,
        7i8, 8i8, 0i8, 7i8, 0i8, 6i8, 6i8, 0i8, 2i8, -1i8, -1i8, -1i8, -1i8, -1i8, -1i8, -1i8,
        7i8, 3i8, 2i8, 6i8, 7i8, 2i8, -1i8, -1i8, -1i8, -1i8, -1i8, -1i8, -1i8, -1i8, -1i8, -1i8,
    ];
    proof {
        assert(t1@ =~= tri_chunk_7_1_sp());
    }
    t.append(&mut t1);
    let mut t2: Vec<i8> = vec![
        2i8, 3i8, 11i8, 10i8, 6i8, 8i8, 10i8, 8i8, 9i8, 8i8, 6i8, 7i8, -1i8, -1i8, -1i8, -1i8,
        2i8, 0i8, 7i8, 2i8, 7i8, 11i8, 0i8, 9i8, 7i8, 6i8, 7i8, 10i8, 9i8, 10i8, 7i8, -1i8,
        1i8, 8i8, 0i8, 1i8, 7i8, 8i8, 1i8, 10i8, 7i8, 6i8, 7i8, 10i8, 2i8, 3i8, 11i8, -1i8,
        11i8, 2i8, 1i8, 11i8, 1i8, 7i8, 10i8, 6i8, 1i8, 6i8, 7i8, 1i8, -1i8, -1i8, -1i8, -1i8,
    ];
    proof {
        assert(t2@ =~= tri_chunk_7_2_sp());
    }
    t.append(&mut t2);
    let mut t3: Vec<i8> = vec![
        8i8, 9i8, 6i8, 8i8, 6i8, 7i8, 9i8, 1i8, 6i8, 11i8, 6i8, 3i8, 1i8, 3i8, 6i8, -1i8,
        0i8, 9i8, 1i8, 11i8, 6i8, 7i8, -1i8, -1i8, -1i8, -1i8, -1i8, -1i8, -1i8, -1i8, -1i8, -1i8,
        7i8, 8i8, 0i8, 7i8, 0i8, 6i8, 3i8, 11i8, 0i8, 11i8, 6i8, 0i8, -1i8, -1i8, -1i8, -1i8,
        7i8, 11i8, 6i8, -1i8, -1i8, -1i8, -1i8, -1i8, -1i8, -1i8, -1i8, -1i8, -1i8, -1i8, -1i8, -1i8,
    ];
    proof {
        assert(t3@ =~= tri_chunk_7_3_sp());
    }
    t.append(&mut t3);
    t
}

/// Rows 128 to 143 of the triangle table.
fn tri_rows_8() -> (r: Vec<i8>)
    ensures
        r@ == tri_rows_8_sp(),
        r@.len() == 256,
{
    let mut t: Vec<i8> = Vec::new();
    let mut t0: Vec<i8> = vec![
        7i8, 6i8, 11i8, -1i8, -1i8, -1i8, -1i8, -1i8, -1i8, -1i8, -1i8, -1i8, -1i8, -1i8, -1i8, -1i8,
        3i8, 0i8, 8i8, 11i8, 7i8, 6i8, -1i8, -1i8, -1i8, -1i8, -1i8, -1i8, -1i8, -1i8, -1i8, -1i8,
        0i8, 1i8, 9i8, 11i8, 7i8, 6i8, -1i8, -1i8, -1i8, -1i8, -1i8, -1i8, -1i8, -1i8, -1i8, -1i8,
        8i8, 1i8, 9i8, 8i8, 3i8, 1i8, 11i8, 7i8, 6i8, -1i8, -1i8, -1i8, -1i8, -1i8, -1i8, -1i8,
    ];
    proof {
        assert(t0@ =~= tri_chunk_8_0_sp());
    }
    t.append(&mut t0);
    let mut t1: Vec<i8> = vec![
        10i8, 1i8, 2i8, 6i8, 11i8, 7i8, -1i8, -1i8, -1i8, -1i8, -1i8, -1i8, -1i8, -1i8, -1i8, -1i8,
        1i8, 2i8, 10i8, 3i8, 0i8, 8i8, 6i8, 11i8, 7i8, -1i8, -1i8, -1i8, -1i8, -1i8, -1i8, -1i8,
        2i8, 9i8, 0i8, 2i8, 10i8, 9i8, 6i8, 11i8, 7i8, -1i8, -1i8, -1i8, -1i8, -1i8, -1i8, -1i8,
        6i8, 11i8, 7i8, 2i8, 10i8, 3i8, 10i8, 8i8, 3i8, 10i8, 9i8, 8i8, -1i8, -1i8, -1i8, -1i8,
    ];
    proof {
        assert(t1@ =~= tri_chunk_8_1_sp());
    }
    t.append(&mut t1);
    let mut t2: Vec<i8> = vec![
        7i8, 2i8, 3i8, 6i8, 2i8, 7i8, -1i8, -1i8, -1i8, -1i8, -1i8, -1i8, -1i8, -1i8, -1i8, -1i8,
        7i8, 0i8, 8i8, 7i8, 6i8, 0i8, 6i8, 2i8, 0i8, -1i8, -1i8, -1i8, -1i8, -1i8, -1i8, -1i8,
        2i8, 7i8, 6i8, 2i8, 3i8, 7i8, 0i8, 1i8, 9i8, -1i8, -1i8, -1i8, -1i8, -1i8, -1i8, -1i8,
        1i8, 6i8, 2i8, 1i8, 8i8, 6i8, 1i8, 9i8, 8i8, 8i8, 7i8, 6i8, -1i8, -1i8, -1i8, -1i8,
    ];
    proof {
        assert(t2@ =~= tri_chunk_8_2_sp());
    }
    t.append(&mut t2);
    let mut t3: Vec<i8> = vec![
        10i8, 7i8, 6i8, 10i8, 1i8, 7i8, 1i8, 3i8, 7i8, -1i8, -1i8, -1i8, -1i8, -1i8, -1i8, -1i8,
        10i8, 7i8, 6i8, 1i8, 7i8, 10i8, 1i8, 8i8, 7i8, 1i8, 0i8, 8i8, -1i8, -1i8, -1i8, -1i8,
        0i8, 3i8, 7i8, 0i8, 7i8, 10i8, 0i8, 10i8, 9i8, 6i8, 10i8, 7i8, -1i8, -1i8, -1i8, -1i8,
        7i8, 6i8, 10i8, 7i8, 10i8, 8i8, 8i8, 10i8, 9i8, -1i8, -1i8, -1i8, -1i8, -1i8, -1i8, -1i8,
    ];
    proof {
        assert(t3@ =~= tri_chunk_8_3_sp());
    }
    t.append(&mut t3);
    t
}

/// Rows 144 to 159 of the triangle table.
fn tri_rows_9() -> (r: Vec<i8>)
    ensures
        r@ == tri_rows_9_sp(),
        r@.len() == 256,
{
    let mut t: Vec<i8> = Vec::new();
    let mut t0: Vec<i8> = vec![
        6i8, 8i8, 4i8, 11i8, 8i8, 6i8, -1i8, -1i8, -1i8, -1i8, -1i8, -1i8, -1i8, -1i8, -1i8, -1i8,
        3i8, 6i8, 11i8, 3i8, 0i8, 6i8, 0i8, 4i8, 6i8, -1i8, -1i8, -1i8, -1i8, -1i8, -1i8, -1i8,
        8i8, 6i8, 11i8, 8i8, 4i8, 6i8, 9i8, 0i8, 1i8, -1i8, -1i8, -1i8, -1i8, -1i8, -1i8, -1i8,
        9i8, 4i8, 6i8, 9i8, 6i8, 3i8, 9i8, 3i8, 1i8, 11i8, 3i8, 6i8, -1i8, -1i8, -1i8, -1i8,
    ];
    proof {
        assert(t0@ =~= tri_chunk_9_0_sp());
    }
    t.append(&mut t0);
    let mut t1: Vec<i8> = vec![
        6i8, 8i8, 4i8, 6i8, 11i8, 8i8, 2i8, 10i8, 1i8, -1i8, -1i8, -1i8, -1i8, -1i8, -1i8, -1i8,
        1i8, 2i8, 10i8, 3i8, 0i8, 11i8, 0i8, 6i8, 11i8, 0i8, 4i8, 6i8, -1i8, -1i8, -1i8, -1i8,
        4i8, 11i8, 8i8, 4i8, 6i8, 11i8, 0i8, 2i8, 9i8, 2i8, 10i8, 9i8, -1i8, -1i8, -1i8, -1i8,
        10i8, 9i8, 3i8, 10i8, 3i8, 2i8, 9i8, 4i8, 3i8, 11i8, 3i8, 6i8, 4i8, 6i8, 3i8, -1i8,
    ];
    proof {
        assert(t1@ =~= tri_chunk_9_1_sp());
    }
    t.append(&mut t1);
    let mut t2: Vec<i8> = vec![
        8i8, 2i8, 3i8, 8i8, 4i8, 2i8, 4i8, 6i8, 2i8, -1i8, -1i8, -1i8, -1i8, -1i8, -1i8, -1i8,
        0i8, 4i8, 2i8, 4i8, 6i8, 2i8, -1i8, -1i8, -1i8, -1i8, -1i8, -1i8, -1i8, -1i8, -1i8, -1i8,
        1i8, 9i8, 0i8, 2i8, 3i8, 4i8, 2i8, 4i8, 6i8, 4i8, 3i8, 8i8, -1i8, -1i8, -1i8, -1i8,
        1i8, 9i8, 4i8, 1i8, 4i8, 2i8, 2i8, 4i8, 6i8, -1i8, -1i8, -1i8, -1i8, -1i8, -1i8, -1i8,
    ];
    proof {
        assert(t2@ =~= tri_chunk_9_2_sp());
    }
    t.append(&mut t2);
    let mut t3: Vec<i8> = vec![
        8i8, 1i8, 3i8, 8i8, 6i8, 1i8, 8i8, 4i8, 6i8, 6i8, 10i8, 1i8, -1i8, -1i8, -1i8, -1i8,
        10i8, 1i8, 0i8, 10i8, 0i8, 6i8, 6i8, 0i8, 4i8, -1i8, -1i8, -1i8, -1i8, -1i8, -1i8, -1i8,
        4i8, 6i8, 3i8, 4i8, 3i8, 8i8, 6i8, 10i8, 3i8, 0i8, 3i8, 9i8, 10i8, 9i8, 3i8, -1i8,
        10i8, 9i8, 4i8, 6i8, 10i8, 4i8, -1i8, -1i8, -1i8, -1i8, -1i8, -1i8, -1i8, -1i8, -1i8, -1i8,
    ];
    proof {
        assert(t3@ =~= tri_chunk_9_3_sp());
    }
    t.append(&mut t3);
    t
}

/// Rows 160 to 175 of the triangle table.
fn tri_rows_10() -> (r: Vec<i8>)
    ensures
        r@ == tri_rows_10_sp(),
        r@.len() == 256,
{
    let mut t: Vec<i8> = Vec::new();
    let mut t0: Vec<i8> = vec![
        4i8, 9i8, 5i8, 7i8, 6i8, 11i8, -1i8, -1i8, -1i8, -1i8, -1i8, -1i8, -1i8, -1i8, -1i8, -1i8,
        0i8, 8i8, 3i8, 4i8, 9i8, 5i8, 11i8, 7i8, 6i8, -1i8, -1i8, -1i8, -1i8, -1i8, -1i8, -1i8,
        5i8, 0i8, 1i8, 5i8, 4i8, 0i8, 7i8, 6i8, 11i8, -1i8, -1i8, -1i8, -1i8, -1i8, -1i8, -1i8,
        11i8, 7i8, 6i8, 8i8, 3i8, 4i8, 3i8, 5i8, 4i8, 3i8, 1i8, 5i8, -1i8, -1i8, -1i8, -1i8,
    ];
    proof {
        assert(t0@ =~= tri_chunk_10_0_sp());
    }
    t.append(&mut t0);
    let mut t1: Vec<i8> = vec![
        9i8, 5i8, 4i8, 10i8, 1i8, 2i8, 7i8, 6i8, 11i8, -1i8, -1i8, -1i8, -1i8, -1i8, -1i8, -1i8,
        6i8, 11i8, 7i8, 1i8, 2i8, 10i8, 0i8, 8i8, 3i8, 4i8, 9i8, 5i8, -1i8, -1i8, -1i8, -1i8,
        7i8, 6i8, 11i8, 5i8, 4i8, 10i8, 4i8, 2i8, 10i8, 4i8, 0i8, 2i8, -1i8, -1i8, -1i8, -1i8,
        3i8, 4i8, 8i8, 3i8, 5i8, 4i8, 3i8, 2i8, 5i8, 10i8, 5i8, 2i8, 11i8, 7i8, 6i8, -1i8,
    ];
    proof {
        assert(t1@ =~= tri_chunk_10_1_sp());
    }
    t.append(&mut t1);
    let mut t2: Vec<i8> = vec![
        7i8, 2i8, 3i8, 7i8, 6i8, 2i8, 5i8, 4i8, 9i8, -1i8, -1i8, -1i8, -1i8, -1i8, -1i8, -1i8,
        9i8, 5i8, 4i8, 0i8, 8i8, 6i8, 0i8, 6i8, 2i8, 6i8, 8i8, 7i8, -1i8, -1i8, -1i8, -1i8,
        3i8, 6i8, 2i8, 3i8, 7i8, 6i8, 1i8, 5i8, 0i8, 5i8, 4i8, 0i8, -1i8, -1i8, -1i8, -1i8,
        6i8, 2i8, 8i8, 6i8, 8i8, 7i8, 2i8, 1i8, 8i8, 4i8, 8i8, 5i8, 1i8, 5i8, 8i8, -1i8,
    ];
    proof {
        assert(t2@ =~= tri_chunk_10_2_sp());
    }
    t.append(&mut t2);
    let mut t3: Vec<i8> = vec![
        9i8, 5i8, 4i8, 10i8, 1i8, 6i8, 1i8, 7i8, 6i8, 1i8, 3i8, 7i8, -1i8, -1i8, -1i8, -1i8,
        1i8, 6i8, 10i8, 1i8, 7i8, 6i8, 1i8, 0i8, 7i8, 8i8, 7i8, 0i8, 9i8, 5i8, 4i8, -1i8,
        4i8, 0i8, 10i8, 4i8, 10i8, 5i8, 0i8, 3i8, 10i8, 6i8, 10i8, 7i8, 3i8, 7i8, 10i8, -1i8,
        7i8, 6i8, 10i8, 7i8, 10i8, 8i8, 5i8, 4i8, 10i8, 4i8, 8i8, 10i8, -1i8, -1i8, -1i8, -1i8,
    ];
    proof {
        assert(t3@ =~= tri_chunk_10_3_sp());
    }
    t.append(&mut t3);
    t
}

/// Rows 176 to 191 of the triangle table.
fn tri_rows_11() -> (r: Vec<i8>)
    ensures
        r@ == tri_rows_11_sp(),
        r@.len() == 256,
{
    let mut t: Vec<i8> = Vec::new();
    let mut t0: Vec<i8> = vec![
        6i8, 9i8, 5i8, 6i8, 11i8, 9i8, 11i8, 8i8, 9i8, -1i8, -1i8, -1i8, -1i8, -1i8, -1i8, -1i8,
        3i8, 6i8, 11i8, 0i8, 6i8, 3i8, 0i8, 5i8, 6i8, 0i8, 9i8, 5i8, -1i8, -1i8, -1i8, -1i8,
        0i8, 11i8, 8i8, 0i8, 5i8, 11i8, 0i8, 1i8, 5i8, 5i8, 6i8, 11i8, -1i8, -1i8, -1i8, -1i8,
        6i8, 11i8, 3i8, 6i8, 3i8, 5i8, 5i8, 3i8, 1i8, -1i8, -1i8, -1i8, -1i8, -1i8, -1i8, -1i8,
    ];
    proof {
        assert(t0@ =~= tri_chunk_11_0_sp());
    }
    t.append(&mut t0);
    let mut t1: Vec<i8> = vec![
        1i8, 2i8, 10i8, 9i8, 5i8, 11i8, 9i8, 11i8, 8i8, 11i8, 5i8, 6i8, -1i8, -1i8, -1i8, -1i8,
        0i8, 11i8, 3i8, 0i8, 6i8, 11i8, 0i8, 9i8, 6i8, 5i8, 6i8, 9i8, 1i8, 2i8, 10i8, -1i8,
        11i8, 8i8, 5i8, 11i8, 5i8, 6i8, 8i8, 0i8, 5i8, 10i8, 5i8, 2i8, 0i8, 2i8, 5i8, -1i8,
        6i8, 11i8, 3i8, 6i8, 3i8, 5i8, 2i8, 10i8, 3i8, 10i8, 5i8, 3i8, -1i8, -1i8, -1i8, -1i8,
    ];
    proof {
        assert(t1@ =~= tri_chunk_11_1_sp());
    }
    t.append(&mut t1);
    let mut t2: Vec<i8> = vec![
        5i8, 8i8, 9i8, 5i8, 2i8, 8i8, 5i8, 6i8, 2i8, 3i8, 8i8, 2i8, -1i8, -1i8, -1i8, -1i8,
        9i8, 5i8, 6i8, 9i8, 6i8, 0i8, 0i8, 6i8, 2i8, -1i8, -1i8, -1i8, -1i8, -1i8, -1i8, -1i8,
        1i8, 5i8, 8i8, 1i8, 8i8, 0i8, 5i8, 6i8, 8i8, 3i8, 8i8, 2i8, 6i8, 2i8, 8i8, -1i8,
        1i8, 5i8, 6i8, 2i8, 1i8, 6i8, -1i8, -1i8, -1i8, -1i8, -1i8, -1i8, -1i8, -1i8, -1i8, -1i8,
    ];
    proof {
        assert(t2@ =~= tri_chunk_11_2_sp());
    }
    t.append(&mut t2);
    let mut t3: Vec<i8> = vec![
        1i8, 3i8, 6i8, 1i8, 6i8, 10i8, 3i8, 8i8, 6i8, 5i8, 6i8, 9i8, 8i8, 9i8, 6i8, -1i8,
        10i8, 1i8, 0i8, 10i8, 0i8, 6i8, 9i8, 5i8, 0i8, 5i8, 6i8, 0i8, -1i8, -1i8, -1i8, -1i8,
        0i8, 3i8, 8i8, 5i8, 6i8, 10i8, -1i8, -1i8, -1i8, -1i8, -1i8, -1i8, -1i8, -1i8, -1i8, -1i8,
        10i8, 5i8, 6i8, -1i8, -1i8, -1i8, -1i8, -1i8, -1i8, -1i8, -1i8, -1i8, -1i8, -1i8, -1i8, -1i8,
    ];
    proof {
        assert(t3@ =~= tri_chunk_11_3_sp());
    }
    t.append(&mut t3);
    t
}

/// Rows 192 to 207 of the triangle table.
fn tri_rows_12() -> (r: Vec<i8>)
    ensures
        r@ == tri_rows_12_sp(),
        r@.len() == 256,
{
    let mut t: Vec<i8> = Vec::new();
    let mut t0: Vec<i8> = vec![
        11i8, 5i8, 10i8, 7i8, 5i8, 11i8, -1i8, -1i8, -1i8, -1i8, -1i8, -1i8, -1i8, -1i8, -1i8, -1i8,
        11i8, 5i8, 10i8, 11i8, 7i8, 5i8, 8i8, 3i8, 0i8, -1i8, -1i8, -1i8, -1i8, -1i8, -1i8, -1i8,
        5i8, 11i8, 7i8, 5i8, 10i8, 11i8, 1i8, 9i8, 0i8, -1i8, -1i8, -1i8, -1i8, -1i8, -1i8, -1i8,
        10i8, 7i8, 5i8, 10i8, 11i8, 7i8, 9i8, 8i8, 1i8, 8i8, 3i8, 1i8, -1i8, -1i8, -1i8, -1i8,
    ];
    proof {
        assert(t0@ =~= tri_chunk_12_0_sp());
    }
    t.append(&mut t0);
    let mut t1: Vec<i8> = vec![
        11i8, 1i8, 2i8, 11i8, 7i8, 1i8, 7i8, 5i8, 1i8, -1i8, -1i8, -1i8, -1i8, -1i8, -1i8, -1i8,
        0i8, 8i8, 3i8, 1i8, 2i8, 7i8, 1i8, 7i8, 5i8, 7i8, 2i8, 11i8, -1i8, -1i8, -1i8, -1i8,
        9i8, 7i8, 5i8, 9i8, 2i8, 7i8, 9i8, 0i8, 2i8, 2i8, 11i8, 7i8, -1i8, -1i8, -1i8, -1i8,
        7i8, 5i8, 2i8, 7i8, 2i8, 11i8, 5i8, 9i8, 2i8, 3i8, 2i8, 8i8, 9i8, 8i8, 2i8, -1i8,
    ];
    proof {
        assert(t1@ =~= tri_chunk_12_1_sp());
    }
    t.append(&mut t1);
    let mut t2: Vec<i8> = vec![
        2i8, 5i8, 10i8, 2i8, 3i8, 5i8, 3i8, 7i8, 5i8, -1i8, -1i8, -1i8, -1i8, -1i8, -1i8, -1i8,
        8i8, 2i8, 0i8, 8i8, 5i8, 2i8, 8i8, 7i8, 5i8, 10i8, 2i8, 5i8, -1i8, -1i8, -1i8, -1i8,
        9i8, 0i8, 1i8, 5i8, 10i8, 3i8, 5i8, 3i8, 7i8, 3i8, 10i8, 2i8, -1i8, -1i8, -1i8, -1i8,
        9i8, 8i8, 2i8, 9i8, 2i8, 1i8, 8i8, 7i8, 2i8, 10i8, 2i8, 5i8, 7i8, 5i8, 2i8, -1i8,
    ];
    proof {
        assert(t2@ =~= tri_chunk_12_2_sp());
    }
    t.append(&mut t2);
    let mut t3: Vec<i8> = vec![
        1i8, 3i8, 5i8, 3i8, 7i8, 5i8, -1i8, -1i8, -1i8, -1i8, -1i8, -1i8, -1i8, -1i8, -1i8, -1i8,
        0i8, 8i8, 7i8, 0i8, 7i8, 1i8, 1i8, 7i8, 5i8, -1i8, -1i8, -1i8, -1i8, -1i8, -1i8, -1i8,
        9i8, 0i8, 3i8, 9i8, 3i8, 5i8, 5i8, 3i8, 7i8, -1i8, -1i8, -1i8, -1i8, -1i8, -1i8, -1i8,
        9i8, 8i8, 7i8, 5i8, 9i8, 7i8, -1i8, -1i8, -1i8, -1i8, -1i8, -1i8, -1i8, -1i8, -1i8, -1i8,
    ];
    proof {
        assert(t3@ =~= tri_chunk_12_3_sp());
    }
    t.append(&mut t3);
    t
}

/// Rows 208 to 223 of the triangle table.
fn tri_rows_13() -> (r: Vec<i8>)
    ensures
        r@ == tri_rows_13_sp(),
        r@.len() == 256,
{
    let mut t: Vec<i8> = Vec::new();
    let mut t0: Vec<i8> = vec![
        5i8, 8i8, 4i8, 5i8, 10i8, 8i8, 10i8, 11i8, 8i8, -1i8, -1i8, -1i8, -1i8, -1i8, -1i8, -1i8,
        5i8, 0i8, 4i8, 5i8, 11i8, 0i8, 5i8, 10i8, 11i8, 11i8, 3i8, 0i8, -1i8, -1i8, -1i8, -1i8,
        0i8, 1i8, 9i8, 8i8, 4i8, 10i8, 8i8, 10i8, 11i8, 10i8, 4i8, 5i8, -1i8, -1i8, -1i8, -1i8,
        10i8, 11i8, 4i8, 10i8, 4i8, 5i8, 11i8, 3i8, 4i8, 9i8, 4i8, 1i8, 3i8, 1i8, 4i8, -1i8,
    ];
    proof {
        assert(t0@ =~= tri_chunk_13_0_sp());
    }
    t.append(&mut t0);
    let mut t1: Vec<i8> = vec![
        2i8, 5i8, 1i8, 2i8, 8i8, 5i8, 2i8, 11i8, 8i8, 4i8, 5i8, 8i8, -1i8, -1i8, -1i8, -1i8,
        0i8, 4i8, 11i8, 0i8, 11i8, 3i8, 4i8, 5i8, 11i8, 2i8, 11i8, 1i8, 5i8, 1i8, 11i8, -1i8,
        0i8, 2i8, 5i8, 0i8, 5i8, 9i8, 2i8, 11i8, 5i8, 4i8, 5i8, 8i8, 11i8, 8i8, 5i8, -1i8,
        9i8, 4i8, 5i8, 2i8, 11i8, 3i8, -1i8, -1i8, -1i8, -1i8, -1i8, -1i8, -1i8, -1i8, -1i8, -1i8,
    ];
    proof {
        assert(t1@ =~= tri_chunk_13_1_sp());
    }
    t.append(&mut t1);
    let mut t2: Vec<i8> = vec![
        2i8, 5i8, 10i8, 3i8, 5i8, 2i8, 3i8, 4i8, 5i8, 3i8, 8i8, 4i8, -1i8, -1i8, -1i8, -1i8,
        5i8, 10i8, 2i8, 5i8, 2i8, 4i8, 4i8, 2i8, 0i8, -1i8, -1i8, -1i8, -1i8, -1i8, -1i8, -1i8,
        3i8, 10i8, 2i8, 3i8, 5i8, 10i8, 3i8, 8i8, 5i8, 4i8, 5i8, 8i8, 0i8, 1i8, 9i8, -1i8,
        5i8, 10i8, 2i8, 5i8, 2i8, 4i8, 1i8, 9i8, 2i8, 9i8, 4i8, 2i8, -1i8, -1i8, -1i8, -1i8,
    ];
    proof {
        assert(t2@ =~= tri_chunk_13_2_sp());
    }
    t.append(&mut t2);
    let mut t3: Vec<i8> = vec![
        8i8, 4i8, 5i8, 8i8, 5i8, 3i8, 3i8, 5i8, 1i8, -1i8, -1i8, -1i8, -1i8, -1i8, -1i8, -1i8,
        0i8, 4i8, 5i8, 1i8, 0i8, 5i8, -1i8, -1i8, -1i8, -1i8, -1i8, -1i8, -1i8, -1i8, -1i8, -1i8,
        8i8, 4i8, 5i8, 8i8, 5i8, 3i8, 9i8, 0i8, 5i8, 0i8, 3i8, 5i8, -1i8, -1i8, -1i8, -1i8,
        9i8, 4i8, 5i8, -1i8, -1i8, -1i8, -1i8, -1i8, -1i8, -1i8, -1i8, -1i8, -1i8, -1i8, -1i8, -1i8,
    ];
    proof {
        assert(t3@ =~= tri_chunk_13_3_sp());
    }
    t.append(&mut t3);
    t
}

/// Rows 224 to 239 of the triangle table.
fn tri_rows_14() -> (r: Vec<i8>)
    ensures
        r@ == tri_rows_14_sp(),
        r@.len() == 256,
{
    let mut t: Vec<i8> = Vec::new();
    let mut t0: Vec<i8> = vec![
        4i8, 11i8, 7i8, 4i8, 9i8, 11i8, 9i8, 10i8, 11i8, -1i8, -1i8, -1i8, -1i8, -1i8, -1i8, -1i8,
        0i8, 8i8, 3i8, 4i8, 9i8, 7i8, 9i8, 11i8, 7i8, 9i8, 10i8, 11i8, -1i8, -1i8, -1i8, -1i8,
        1i8, 10i8, 11i8, 1i8, 11i8, 4i8, 1i8, 4i8, 0i8, 7i8, 4i8, 11i8, -1i8, -1i8, -1i8, -1i8,
        3i8, 1i8, 4i8, 3i8, 4i8, 8i8, 1i8, 10i8, 4i8, 7i8, 4i8, 11i8, 10i8, 11i8, 4i8, -1i8,
    ];
    proof {
        assert(t0@ =~= tri_chunk_14_0_sp());
    }
    t.append(&mut t0);
    let mut t1: Vec<i8> = vec![
        4i8, 11i8, 7i8, 9i8, 11i8, 4i8, 9i8, 2i8, 11i8, 9i8, 1i8, 2i8, -1i8, -1i8, -1i8, -1i8,
        9i8, 7i8, 4i8, 9i8, 11i8, 7i8, 9i8, 1i8, 11i8, 2i8, 11i8, 1i8, 0i8, 8i8, 3i8, -1i8,
        11i8, 7i8, 4i8, 11i8, 4i8, 2i8, 2i8, 4i8, 0i8, -1i8, -1i8, -1i8, -1i8, -1i8, -1i8, -1i8,
        11i8, 7i8, 4i8, 11i8, 4i8, 2i8, 8i8, 3i8, 4i8, 3i8, 2i8, 4i8, -1i8, -1i8, -1i8, -1i8,
    ];
    proof {
        assert(t1@ =~= tri_chunk_14_1_sp());
    }
    t.append(&mut t1);
    let mut t2: Vec<i8> = vec![
        2i8, 9i8, 10i8, 2i8, 7i8, 9i8, 2i8, 3i8, 7i8, 7i8, 4i8, 9i8, -1i8, -1i8, -1i8, -1i8,
        9i8, 10i8, 7i8, 9i8, 7i8, 4i8, 10i8, 2i8, 7i8, 8i8, 7i8, 0i8, 2i8, 0i8, 7i8, -1i8,
        3i8, 7i8, 10i8, 3i8, 10i8, 2i8, 7i8, 4i8, 10i8, 1i8, 10i8, 0i8, 4i8, 0i8, 10i8, -1i8,
        1i8, 10i8, 2i8, 8i8, 7i8, 4i8, -1i8, -1i8, -1i8, -1i8, -1i8, -1i8, -1i8, -1i8, -1i8, -1i8,
    ];
    proof {
        assert(t2@ =~= tri_chunk_14_2_sp());
    }
    t.append(&mut t2);
    let mut t3: Vec<i8> = vec![
        4i8, 9i8, 1i8, 4i8, 1i8, 7i8, 7i8, 1i8, 3i8, -1i8, -1i8, -1i8, -1i8, -1i8, -1i8, -1i8,
        4i8, 9i8, 1i8, 4i8, 1i8, 7i8, 0i8, 8i8, 1i8, 8i8, 7i8, 1i8, -1i8, -1i8, -1i8, -1i8,
        4i8, 0i8, 3i8, 7i8, 4i8, 3i8, -1i8, -1i8, -1i8, -1i8, -1i8, -1i8, -1i8, -1i8, -1i8, -1i8,
        4i8, 8i8, 7i8, -1i8, -1i8, -1i8, -1i8, -1i8, -1i8, -1i8, -1i8, -1i8, -1i8, -1i8, -1i8, -1i8,
    ];
    proof {
        assert(t3@ =~= tri_chunk_14_3_sp());
    }
    t.append(&mut t3);
    t
}

/// Rows 240 to 255 of the triangle table.
fn tri_rows_15() -> (r: Vec<i8>)
    ensures
        r@ == tri_rows_15_sp(),
        r@.len() == 256,
{
    let mut t: Vec<i8> = Vec::new();
    let mut t0: Vec<i8> = vec![
        9i8, 10i8, 8i8, 10i8, 11i8, 8i8, -1i8, -1i8, -1i8, -1i8, -1i8, -1i8, -1i8, -1i8, -1i8, -1i8,
        3i8, 0i8, 9i8, 3i8, 9i8, 11i8, 11i8, 9i8, 10i8, -1i8, -1i8, -1i8, -1i8, -1i8, -1i8, -1i8,
        0i8, 1i8, 10i8, 0i8, 10i8, 8i8, 8i8, 10i8, 11i8, -1i8, -1i8, -1i8, -1i8, -1i8, -1i8, -1i8,
        3i8, 1i8, 10i8, 11i8, 3i8, 10i8, -1i8, -1i8, -1i8, -1i8, -1i8, -1i8, -1i8, -1i8, -1i8, -1i8,
    ];
    proof {
        assert(t0@ =~= tri_chunk_15_0_sp());
    }
    t.append(&mut t0);
    let mut t1: Vec<i8> = vec![
        1i8, 2i8, 11i8, 1i8, 11i8, 9i8, 9i8, 11i8, 8i8, -1i8, -1i8, -1i8, -1i8, -1i8, -1i8, -1i8,
        3i8, 0i8, 9i8, 3i8, 9i8, 11i8, 1i8, 2i8, 9i8, 2i8, 11i8, 9i8, -1i8, -1i8, -1i8, -1i8,
        0i8, 2i8, 11i8, 8i8, 0i8, 11i8, -1i8, -1i8, -1i8, -1i8, -1i8, -1i8, -1i8, -1i8, -1i8, -1i8,
        3i8, 2i8, 11i8, -1i8, -1i8, -1i8, -1i8, -1i8, -1i8, -1i8, -1i8, -1i8, -1i8, -1i8, -1i8, -1i8,
    ];
    proof {
        assert(t1@ =~= tri_chunk_15_1_sp());
    }
    t.append(&mut t1);
    let mut t2: Vec<i8> = vec![
        2i8, 3i8, 8i8, 2i8, 8i8, 10i8, 10i8, 8i8, 9i8, -1i8, -1i8, -1i8, -1i8, -1i8, -1i8, -1i8,
        9i8, 10i8, 2i8, 0i8, 9i8, 2i8, -1i8, -1i8, -1i8, -1i8, -1i8, -1i8, -1i8, -1i8, -1i8, -1i8,
        2i8, 3i8, 8i8, 2i8, 8i8, 10i8, 0i8, 1i8, 8i8, 1i8, 10i8, 8i8, -1i8, -1i8, -1i8, -1i8,
        1i8, 10i8, 2i8, -1i8, -1i8, -1i8, -1i8, -1i8, -1i8, -1i8, -1i8, -1i8, -1i8, -1i8, -1i8, -1i8,
    ];
    proof {
        assert(t2@ =~= tri_chunk_15_2_sp());
    }
    t.append(&mut t2);
    let mut t3: Vec<i8> = vec![
        1i8, 3i8, 8i8, 9i8, 1i8, 8i8, -1i8, -1i8, -1i8, -1i8, -1i8, -1i8, -1i8, -1i8, -1i8, -1i8,
        0i8, 9i8, 1i8, -1i8, -1i8, -1i8, -1i8, -1i8, -1i8, -1i8, -1i8, -1i8, -1i8, -1i8, -1i8, -1i8,
        0i8, 3i8, 8i8, -1i8, -1i8, -1i8, -1i8, -1i8, -1i8, -1i8, -1i8, -1i8, -1i8, -1i8, -1i8, -1i8,
        -1i8, -1i8, -1i8, -1i8, -1i8, -1i8, -1i8, -1i8, -1i8, -1i8, -1i8, -1i8, -1i8, -1i8, -1i8, -1i8,
    ];
    proof {
        assert(t3@ =~= tri_chunk_15_3_sp());
    }
    t.append(&mut t3);
    t
}

impl McTables {
    /// Build the tables, entry for entry the spec-level data.
    pub fn new() -> (r: McTables)
        ensures
            mc_tables_wf(&r),
            mc_tables_canonical(&r),
    {
        let edge: Vec<u16> = edge_masks();
        let mut tri: Vec<i8> = Vec::new();
        let mut p0: Vec<i8> = tri_rows_0();
        tri.append(&mut p0);
        let mut p1: Vec<i8> = tri_rows_1();
        tri.append(&mut p1);
        let mut p2: Vec<i8> = tri_rows_2();
        tri.append(&mut p2);
        let mut p3: Vec<i8> = tri_rows_3();
        tri.append(&mut p3);
        let mut p4: Vec<i8> = tri_rows_4();
        tri.append(&mut p4);
        let mut p5: Vec<i8> = tri_rows_5();
        tri.append(&mut p5);
        let mut p6: Vec<i8> = tri_rows_6();
        tri.append(&mut p6);
        let mut p7: Vec<i8> = tri_rows_7();
        tri.append(&mut p7);
        let mut p8: Vec<i8> = tri_rows_8();
        tri.append(&mut p8);
        let mut p9: Vec<i8> = tri_rows_9();
        tri.append(&mut p9);
        let mut p10: Vec<i8> = tri_rows_10();
        tri.append(&mut p10);
        let mut p11: Vec<i8> = tri_rows_11();
        tri.append(&mut p11);
        let mut p12: Vec<i8> = tri_rows_12();
        tri.append(&mut p12);
        let mut p13: Vec<i8> = tri_rows_13();
        tri.append(&mut p13);
        let mut p14: Vec<i8> = tri_rows_14();
        tri.append(&mut p14);
        let mut p15: Vec<i8> = tri_rows_15();
        tri.append(&mut p15);
        proof {
            assert(tri@ =~= tri_table_sp());
        }
        McTables { edge, tri }
    }
}

} // verus!
