//! Where each piece lies in the texture of each skin format, as fractions of the
//! texture's width and height, and which connection map cuts a piece's region into
//! its connected blocks.
use vstd::prelude::*;

use crate::import_types::SkinType;
use crate::splicer::{x_max, y_max, ConnectionSubmap, Piece};

verus! {

/// An exact fraction `num / den` of a texture's width or height.
#[derive(Debug, Clone, Copy, PartialEq, Eq, Structural)]
pub struct Fraction {
    pub num: u32,
    pub den: u32,
}

/// The connection map that tells where each connected block of a piece lies in the
/// piece's region.
#[derive(Debug, Clone, Copy, PartialEq, Eq, Structural)]
pub enum ConnectionMapKind {
    /// One block, with no connections.
    NoConnections,
    /// The connected TETR.IO 6.1 blocks: the garbage sides and the corners and elbows.
    TetrioConnections,
    /// The connected TETR.IO 6.1 garbage blocks.
    TetrioGarbageConnections,
    /// The connected Jstris blocks, some drawn in several layers.
    JstrisConnections,
}

/// A region of a skin texture that holds one piece: its left edge, top edge, width and
/// height, each a fraction of the texture's size, and the map of its connected blocks.
#[derive(Debug, Clone, Copy, PartialEq, Eq, Structural)]
pub struct SkinSlice {
    pub x: Fraction,
    pub y: Fraction,
    pub w: Fraction,
    pub h: Fraction,
    pub connections: ConnectionMapKind,
}

/// The slice with the given fractions and connection map.
pub open spec fn spec_slice(
    xn: u32,
    xd: u32,
    yn: u32,
    yd: u32,
    wn: u32,
    wd: u32,
    hn: u32,
    hd: u32,
    c: ConnectionMapKind,
) -> SkinSlice {
    SkinSlice {
        x: Fraction { num: xn, den: xd },
        y: Fraction { num: yn, den: yd },
        w: Fraction { num: wn, den: wd },
        h: Fraction { num: hn, den: hd },
        connections: c,
    }
}

fn slice(
    xn: u32,
    xd: u32,
    yn: u32,
    yd: u32,
    wn: u32,
    wd: u32,
    hn: u32,
    hd: u32,
    c: ConnectionMapKind,
) -> (r: SkinSlice)
    ensures
        r == spec_slice(xn, xd, yn, yd, wn, wd, hn, hd, c),
{
    SkinSlice {
        x: Fraction { num: xn, den: xd },
        y: Fraction { num: yn, den: yd },
        w: Fraction { num: wn, den: wd },
        h: Fraction { num: hn, den: hd },
        connections: c,
    }
}

/// The layout of the old TETR.IO skins: one row of twelve blocks.
pub open spec fn spec_tetrio_map(piece: Piece) -> Option<SkinSlice> {
    match piece {
        Piece::Z => Some(spec_slice(0, 12, 0, 1, 5, 62, 1, 1, ConnectionMapKind::NoConnections)),
        Piece::L => Some(spec_slice(1, 12, 0, 1, 5, 62, 1, 1, ConnectionMapKind::NoConnections)),
        Piece::O => Some(spec_slice(2, 12, 0, 1, 5, 62, 1, 1, ConnectionMapKind::NoConnections)),
        Piece::S => Some(spec_slice(3, 12, 0, 1, 5, 62, 1, 1, ConnectionMapKind::NoConnections)),
        Piece::I => Some(spec_slice(4, 12, 0, 1, 5, 62, 1, 1, ConnectionMapKind::NoConnections)),
        Piece::J => Some(spec_slice(5, 12, 0, 1, 5, 62, 1, 1, ConnectionMapKind::NoConnections)),
        Piece::T => Some(spec_slice(6, 12, 0, 1, 5, 62, 1, 1, ConnectionMapKind::NoConnections)),
        Piece::HoldDisabled => Some(spec_slice(8, 12, 0, 1, 5, 62, 1, 1, ConnectionMapKind::NoConnections)),
        Piece::Garbage => Some(spec_slice(9, 12, 0, 1, 5, 62, 1, 1, ConnectionMapKind::NoConnections)),
        Piece::DarkGarbage => Some(spec_slice(10, 12, 0, 1, 5, 62, 1, 1, ConnectionMapKind::NoConnections)),
        Piece::GhostBlock => Some(spec_slice(7, 12, 0, 1, 5, 62, 1, 1, ConnectionMapKind::NoConnections)),
        Piece::Topout => Some(spec_slice(11, 12, 0, 1, 5, 62, 1, 1, ConnectionMapKind::NoConnections)),
    }
}

/// Where a piece lies in the old TETR.IO layout, if that layout has it.
pub fn tetrio_map(piece: Piece) -> (r: Option<SkinSlice>)
    ensures
        r == spec_tetrio_map(piece),
{
    match piece {
        Piece::Z => Some(slice(0, 12, 0, 1, 5, 62, 1, 1, ConnectionMapKind::NoConnections)),
        Piece::L => Some(slice(1, 12, 0, 1, 5, 62, 1, 1, ConnectionMapKind::NoConnections)),
        Piece::O => Some(slice(2, 12, 0, 1, 5, 62, 1, 1, ConnectionMapKind::NoConnections)),
        Piece::S => Some(slice(3, 12, 0, 1, 5, 62, 1, 1, ConnectionMapKind::NoConnections)),
        Piece::I => Some(slice(4, 12, 0, 1, 5, 62, 1, 1, ConnectionMapKind::NoConnections)),
        Piece::J => Some(slice(5, 12, 0, 1, 5, 62, 1, 1, ConnectionMapKind::NoConnections)),
        Piece::T => Some(slice(6, 12, 0, 1, 5, 62, 1, 1, ConnectionMapKind::NoConnections)),
        Piece::HoldDisabled => Some(slice(8, 12, 0, 1, 5, 62, 1, 1, ConnectionMapKind::NoConnections)),
        Piece::Garbage => Some(slice(9, 12, 0, 1, 5, 62, 1, 1, ConnectionMapKind::NoConnections)),
        Piece::DarkGarbage => Some(slice(10, 12, 0, 1, 5, 62, 1, 1, ConnectionMapKind::NoConnections)),
        Piece::GhostBlock => Some(slice(7, 12, 0, 1, 5, 62, 1, 1, ConnectionMapKind::NoConnections)),
        Piece::Topout => Some(slice(11, 12, 0, 1, 5, 62, 1, 1, ConnectionMapKind::NoConnections)),
    }
}

/// The layout of the TETR.IO 6.1 minos skin: two rows of five blocks.
pub open spec fn spec_tetrio_61_map(piece: Piece) -> Option<SkinSlice> {
    match piece {
        Piece::Z => Some(spec_slice(0, 32, 0, 32, 6, 32, 6, 32, ConnectionMapKind::NoConnections)),
        Piece::L => Some(spec_slice(6, 32, 0, 32, 6, 32, 6, 32, ConnectionMapKind::NoConnections)),
        Piece::O => Some(spec_slice(12, 32, 0, 32, 6, 32, 6, 32, ConnectionMapKind::NoConnections)),
        Piece::S => Some(spec_slice(18, 32, 0, 32, 6, 32, 6, 32, ConnectionMapKind::NoConnections)),
        Piece::I => Some(spec_slice(24, 32, 0, 32, 6, 32, 6, 32, ConnectionMapKind::NoConnections)),
        Piece::J => Some(spec_slice(0, 32, 6, 32, 6, 32, 6, 32, ConnectionMapKind::NoConnections)),
        Piece::T => Some(spec_slice(6, 32, 6, 32, 6, 32, 6, 32, ConnectionMapKind::NoConnections)),
        Piece::HoldDisabled => Some(spec_slice(12, 32, 6, 32, 6, 32, 6, 32, ConnectionMapKind::NoConnections)),
        Piece::Garbage => Some(spec_slice(18, 32, 6, 32, 6, 32, 6, 32, ConnectionMapKind::NoConnections)),
        Piece::DarkGarbage => Some(spec_slice(24, 32, 6, 32, 6, 32, 6, 32, ConnectionMapKind::NoConnections)),
        Piece::GhostBlock => None,
        Piece::Topout => None,
    }
}

/// Where a piece lies in the TETR.IO 6.1 minos layout, if that layout has it.
pub fn tetrio_61_map(piece: Piece) -> (r: Option<SkinSlice>)
    ensures
        r == spec_tetrio_61_map(piece),
{
    match piece {
        Piece::Z => Some(slice(0, 32, 0, 32, 6, 32, 6, 32, ConnectionMapKind::NoConnections)),
        Piece::L => Some(slice(6, 32, 0, 32, 6, 32, 6, 32, ConnectionMapKind::NoConnections)),
        Piece::O => Some(slice(12, 32, 0, 32, 6, 32, 6, 32, ConnectionMapKind::NoConnections)),
        Piece::S => Some(slice(18, 32, 0, 32, 6, 32, 6, 32, ConnectionMapKind::NoConnections)),
        Piece::I => Some(slice(24, 32, 0, 32, 6, 32, 6, 32, ConnectionMapKind::NoConnections)),
        Piece::J => Some(slice(0, 32, 6, 32, 6, 32, 6, 32, ConnectionMapKind::NoConnections)),
        Piece::T => Some(slice(6, 32, 6, 32, 6, 32, 6, 32, ConnectionMapKind::NoConnections)),
        Piece::HoldDisabled => Some(slice(12, 32, 6, 32, 6, 32, 6, 32, ConnectionMapKind::NoConnections)),
        Piece::Garbage => Some(slice(18, 32, 6, 32, 6, 32, 6, 32, ConnectionMapKind::NoConnections)),
        Piece::DarkGarbage => Some(slice(24, 32, 6, 32, 6, 32, 6, 32, ConnectionMapKind::NoConnections)),
        Piece::GhostBlock => None,
        Piece::Topout => None,
    }
}

/// The layout of the TETR.IO 6.1 ghost skin: the ghost and the topout block.
pub open spec fn spec_tetrio_61_ghost_map(piece: Piece) -> Option<SkinSlice> {
    match piece {
        Piece::Z => None,
        Piece::L => None,
        Piece::O => None,
        Piece::S => None,
        Piece::I => None,
        Piece::J => None,
        Piece::T => None,
        Piece::HoldDisabled => None,
        Piece::Garbage => None,
        Piece::DarkGarbage => None,
        Piece::GhostBlock => Some(spec_slice(0, 8, 0, 1, 3, 8, 3, 8, ConnectionMapKind::NoConnections)),
        Piece::Topout => Some(spec_slice(3, 8, 0, 1, 3, 8, 3, 8, ConnectionMapKind::NoConnections)),
    }
}

/// Where a piece lies in the TETR.IO 6.1 ghost layout, if that layout has it.
pub fn tetrio_61_ghost_map(piece: Piece) -> (r: Option<SkinSlice>)
    ensures
        r == spec_tetrio_61_ghost_map(piece),
{
    match piece {
        Piece::Z => None,
        Piece::L => None,
        Piece::O => None,
        Piece::S => None,
        Piece::I => None,
        Piece::J => None,
        Piece::T => None,
        Piece::HoldDisabled => None,
        Piece::Garbage => None,
        Piece::DarkGarbage => None,
        Piece::GhostBlock => Some(slice(0, 8, 0, 1, 3, 8, 3, 8, ConnectionMapKind::NoConnections)),
        Piece::Topout => Some(slice(3, 8, 0, 1, 3, 8, 3, 8, ConnectionMapKind::NoConnections)),
    }
}

/// The layout of the connected TETR.IO 6.1 minos skin: two rows of four connected pieces, then the two garbage blocks.
pub open spec fn spec_tetrio_61_conn_map(piece: Piece) -> Option<SkinSlice> {
    match piece {
        Piece::Z => Some(spec_slice(0, 32, 0, 32, 6, 32, 9, 32, ConnectionMapKind::TetrioConnections)),
        Piece::L => Some(spec_slice(6, 32, 0, 32, 6, 32, 9, 32, ConnectionMapKind::TetrioConnections)),
        Piece::O => Some(spec_slice(12, 32, 0, 32, 6, 32, 9, 32, ConnectionMapKind::TetrioConnections)),
        Piece::S => Some(spec_slice(18, 32, 0, 32, 6, 32, 9, 32, ConnectionMapKind::TetrioConnections)),
        Piece::I => Some(spec_slice(0, 32, 9, 32, 6, 32, 9, 32, ConnectionMapKind::TetrioConnections)),
        Piece::J => Some(spec_slice(6, 32, 9, 32, 6, 32, 9, 32, ConnectionMapKind::TetrioConnections)),
        Piece::T => Some(spec_slice(12, 32, 9, 32, 6, 32, 9, 32, ConnectionMapKind::TetrioConnections)),
        Piece::HoldDisabled => Some(spec_slice(18, 32, 9, 32, 6, 32, 9, 32, ConnectionMapKind::TetrioConnections)),
        Piece::Garbage => Some(spec_slice(24, 32, 0, 32, 6, 32, 6, 32, ConnectionMapKind::TetrioGarbageConnections)),
        Piece::DarkGarbage => Some(spec_slice(24, 32, 6, 32, 6, 32, 6, 32, ConnectionMapKind::TetrioGarbageConnections)),
        Piece::GhostBlock => None,
        Piece::Topout => None,
    }
}

/// Where a piece lies in the connected TETR.IO 6.1 minos layout, if that layout has it.
pub fn tetrio_61_conn_map(piece: Piece) -> (r: Option<SkinSlice>)
    ensures
        r == spec_tetrio_61_conn_map(piece),
{
    match piece {
        Piece::Z => Some(slice(0, 32, 0, 32, 6, 32, 9, 32, ConnectionMapKind::TetrioConnections)),
        Piece::L => Some(slice(6, 32, 0, 32, 6, 32, 9, 32, ConnectionMapKind::TetrioConnections)),
        Piece::O => Some(slice(12, 32, 0, 32, 6, 32, 9, 32, ConnectionMapKind::TetrioConnections)),
        Piece::S => Some(slice(18, 32, 0, 32, 6, 32, 9, 32, ConnectionMapKind::TetrioConnections)),
        Piece::I => Some(slice(0, 32, 9, 32, 6, 32, 9, 32, ConnectionMapKind::TetrioConnections)),
        Piece::J => Some(slice(6, 32, 9, 32, 6, 32, 9, 32, ConnectionMapKind::TetrioConnections)),
        Piece::T => Some(slice(12, 32, 9, 32, 6, 32, 9, 32, ConnectionMapKind::TetrioConnections)),
        Piece::HoldDisabled => Some(slice(18, 32, 9, 32, 6, 32, 9, 32, ConnectionMapKind::TetrioConnections)),
        Piece::Garbage => Some(slice(24, 32, 0, 32, 6, 32, 6, 32, ConnectionMapKind::TetrioGarbageConnections)),
        Piece::DarkGarbage => Some(slice(24, 32, 6, 32, 6, 32, 6, 32, ConnectionMapKind::TetrioGarbageConnections)),
        Piece::GhostBlock => None,
        Piece::Topout => None,
    }
}

/// The layout of the connected TETR.IO 6.1 ghost skin: the connected ghost and topout.
pub open spec fn spec_tetrio_61_conn_ghost_map(piece: Piece) -> Option<SkinSlice> {
    match piece {
        Piece::Z => None,
        Piece::L => None,
        Piece::O => None,
        Piece::S => None,
        Piece::I => None,
        Piece::J => None,
        Piece::T => None,
        Piece::HoldDisabled => None,
        Piece::Garbage => None,
        Piece::DarkGarbage => None,
        Piece::GhostBlock => Some(spec_slice(0, 16, 0, 1, 6, 16, 9, 16, ConnectionMapKind::TetrioConnections)),
        Piece::Topout => Some(spec_slice(6, 16, 0, 1, 6, 16, 9, 16, ConnectionMapKind::TetrioConnections)),
    }
}

/// Where a piece lies in the connected TETR.IO 6.1 ghost layout, if that layout has it.
pub fn tetrio_61_conn_ghost_map(piece: Piece) -> (r: Option<SkinSlice>)
    ensures
        r == spec_tetrio_61_conn_ghost_map(piece),
{
    match piece {
        Piece::Z => None,
        Piece::L => None,
        Piece::O => None,
        Piece::S => None,
        Piece::I => None,
        Piece::J => None,
        Piece::T => None,
        Piece::HoldDisabled => None,
        Piece::Garbage => None,
        Piece::DarkGarbage => None,
        Piece::GhostBlock => Some(slice(0, 16, 0, 1, 6, 16, 9, 16, ConnectionMapKind::TetrioConnections)),
        Piece::Topout => Some(slice(6, 16, 0, 1, 6, 16, 9, 16, ConnectionMapKind::TetrioConnections)),
    }
}

/// The layout of Jstris skins: one row of nine blocks, garbage first.
pub open spec fn spec_jstris_map(piece: Piece) -> Option<SkinSlice> {
    match piece {
        Piece::Z => Some(spec_slice(2, 9, 0, 1, 1, 9, 1, 1, ConnectionMapKind::NoConnections)),
        Piece::L => Some(spec_slice(3, 9, 0, 1, 1, 9, 1, 1, ConnectionMapKind::NoConnections)),
        Piece::O => Some(spec_slice(4, 9, 0, 1, 1, 9, 1, 1, ConnectionMapKind::NoConnections)),
        Piece::S => Some(spec_slice(5, 9, 0, 1, 1, 9, 1, 1, ConnectionMapKind::NoConnections)),
        Piece::I => Some(spec_slice(6, 9, 0, 1, 1, 9, 1, 1, ConnectionMapKind::NoConnections)),
        Piece::J => Some(spec_slice(7, 9, 0, 1, 1, 9, 1, 1, ConnectionMapKind::NoConnections)),
        Piece::T => Some(spec_slice(8, 9, 0, 1, 1, 9, 1, 1, ConnectionMapKind::NoConnections)),
        Piece::HoldDisabled => None,
        Piece::Garbage => Some(spec_slice(0, 9, 0, 1, 1, 9, 1, 1, ConnectionMapKind::NoConnections)),
        Piece::DarkGarbage => None,
        Piece::GhostBlock => Some(spec_slice(1, 9, 0, 1, 1, 9, 1, 1, ConnectionMapKind::NoConnections)),
        Piece::Topout => None,
    }
}

/// Where a piece lies in the Jstris layout, if that layout has it.
pub fn jstris_map(piece: Piece) -> (r: Option<SkinSlice>)
    ensures
        r == spec_jstris_map(piece),
{
    match piece {
        Piece::Z => Some(slice(2, 9, 0, 1, 1, 9, 1, 1, ConnectionMapKind::NoConnections)),
        Piece::L => Some(slice(3, 9, 0, 1, 1, 9, 1, 1, ConnectionMapKind::NoConnections)),
        Piece::O => Some(slice(4, 9, 0, 1, 1, 9, 1, 1, ConnectionMapKind::NoConnections)),
        Piece::S => Some(slice(5, 9, 0, 1, 1, 9, 1, 1, ConnectionMapKind::NoConnections)),
        Piece::I => Some(slice(6, 9, 0, 1, 1, 9, 1, 1, ConnectionMapKind::NoConnections)),
        Piece::J => Some(slice(7, 9, 0, 1, 1, 9, 1, 1, ConnectionMapKind::NoConnections)),
        Piece::T => Some(slice(8, 9, 0, 1, 1, 9, 1, 1, ConnectionMapKind::NoConnections)),
        Piece::HoldDisabled => None,
        Piece::Garbage => Some(slice(0, 9, 0, 1, 1, 9, 1, 1, ConnectionMapKind::NoConnections)),
        Piece::DarkGarbage => None,
        Piece::GhostBlock => Some(slice(1, 9, 0, 1, 1, 9, 1, 1, ConnectionMapKind::NoConnections)),
        Piece::Topout => None,
    }
}

/// The layout of connected Jstris skins: that of Jstris skins, with connected blocks.
pub open spec fn spec_jstris_conn_map(piece: Piece) -> Option<SkinSlice> {
    match spec_jstris_map(piece) {
        Some(s) => Some(SkinSlice { connections: ConnectionMapKind::JstrisConnections, ..s }),
        None => None,
    }
}

/// Where a piece lies in the connected Jstris layout, if that layout has it.
pub fn jstris_conn_map(piece: Piece) -> (r: Option<SkinSlice>)
    ensures
        r == spec_jstris_conn_map(piece),
{
    match jstris_map(piece) {
        Some(s) => Some(SkinSlice { connections: ConnectionMapKind::JstrisConnections, ..s }),
        None => None,
    }
}

/// Where a piece lies in a texture of the given skin format, if the format has it.
pub open spec fn spec_lookup_skin(skin_type: SkinType, piece: Piece) -> Option<SkinSlice> {
    match skin_type {
        SkinType::Tetrio61 => spec_tetrio_61_map(piece),
        SkinType::Tetrio61Ghost => spec_tetrio_61_ghost_map(piece),
        SkinType::Tetrio61Connected => spec_tetrio_61_conn_map(piece),
        SkinType::Tetrio61ConnectedGhost => spec_tetrio_61_conn_ghost_map(piece),
        SkinType::Tetrio61ConnectedAnimated { .. } => spec_tetrio_61_conn_map(piece),
        SkinType::Tetrio61ConnectedGhostAnimated { .. } => spec_tetrio_61_conn_ghost_map(piece),
        SkinType::TetrioAnimated { .. } => spec_tetrio_map(piece),
        SkinType::TetrioRaster => spec_tetrio_map(piece),
        SkinType::TetrioSVG => spec_tetrio_map(piece),
        SkinType::JstrisRaster => spec_jstris_map(piece),
        SkinType::JstrisAnimated { .. } => spec_jstris_map(piece),
        SkinType::JstrisConnected => spec_jstris_conn_map(piece),
    }
}

/// Looks up where a piece lies in a texture of the given skin format.
pub fn lookup_skin(skin_type: SkinType, piece: Piece) -> (r: Option<SkinSlice>)
    ensures
        r == spec_lookup_skin(skin_type, piece),
{
    match skin_type {
        SkinType::Tetrio61 => tetrio_61_map(piece),
        SkinType::Tetrio61Ghost => tetrio_61_ghost_map(piece),
        SkinType::Tetrio61Connected => tetrio_61_conn_map(piece),
        SkinType::Tetrio61ConnectedGhost => tetrio_61_conn_ghost_map(piece),
        SkinType::Tetrio61ConnectedAnimated { .. } => tetrio_61_conn_map(piece),
        SkinType::Tetrio61ConnectedGhostAnimated { .. } => tetrio_61_conn_ghost_map(piece),
        SkinType::TetrioAnimated { .. } => tetrio_map(piece),
        SkinType::TetrioRaster => tetrio_map(piece),
        SkinType::TetrioSVG => tetrio_map(piece),
        SkinType::JstrisRaster => jstris_map(piece),
        SkinType::JstrisAnimated { .. } => jstris_map(piece),
        SkinType::JstrisConnected => jstris_conn_map(piece),
    }
}

/// Whether a connection map holds exactly the locations of `t`, by connection.
pub open spec fn holds_table(m: ConnectionSubmap, t: Map<u8, Seq<(u8, u8)>>) -> bool {
    m.connections@.map_values(|v: Vec<(u8, u8)>| v@) == t
}

/// The locations of the map of blocks without connections: the one block.
pub open spec fn spec_no_connections_table() -> Map<u8, Seq<(u8, u8)>> {
    map![
        0b00000u8 => seq![(0u8, 0u8)],
    ]
}

fn no_connections_submap() -> (r: ConnectionSubmap)
    ensures
        holds_table(r, spec_no_connections_table()),
        r.default == 0,
        r.max_x == 0,
        r.max_y == 0,
{
    proof {
        reveal_with_fuel(x_max, 6);
        reveal_with_fuel(y_max, 6);
    }
    let mut m = ConnectionSubmap::new(0b00000u8, vec![(0u8, 0u8)]);
    assert(m.connections@.map_values(|v: Vec<(u8, u8)>| v@) =~~= spec_no_connections_table());
    m
}

/// The locations of the connected TETR.IO 6.1 garbage blocks, by connection: the key
/// holds whether the corner, top, right, bottom and left sides are open.
pub open spec fn spec_tetrio_garbage_connections_table() -> Map<u8, Seq<(u8, u8)>> {
    map![
        0b00000u8 => seq![(0u8, 3u8)],
        0b00010u8 => seq![(0u8, 0u8)],
        0b00110u8 => seq![(1u8, 0u8)],
        0b00111u8 => seq![(2u8, 0u8)],
        0b00011u8 => seq![(3u8, 0u8)],
        0b01010u8 => seq![(0u8, 1u8)],
        0b01110u8 => seq![(1u8, 1u8)],
        0b01111u8 => seq![(2u8, 1u8)],
        0b01011u8 => seq![(3u8, 1u8)],
        0b01000u8 => seq![(0u8, 2u8)],
        0b01100u8 => seq![(1u8, 2u8)],
        0b01101u8 => seq![(2u8, 2u8)],
        0b01001u8 => seq![(3u8, 2u8)],
        0b00100u8 => seq![(1u8, 3u8)],
        0b00101u8 => seq![(2u8, 3u8)],
        0b00001u8 => seq![(3u8, 3u8)],
    ]
}

fn tetrio_garbage_connections_submap() -> (r: ConnectionSubmap)
    ensures
        holds_table(r, spec_tetrio_garbage_connections_table()),
        r.default == 0,
        r.max_x == 3,
        r.max_y == 3,
{
    proof {
        reveal_with_fuel(x_max, 6);
        reveal_with_fuel(y_max, 6);
    }
    let mut m = ConnectionSubmap::new(0b00000u8, vec![(0u8, 3u8)]);
    m.insert(0b00010u8, vec![(0u8, 0u8)]);
    m.insert(0b00110u8, vec![(1u8, 0u8)]);
    m.insert(0b00111u8, vec![(2u8, 0u8)]);
    m.insert(0b00011u8, vec![(3u8, 0u8)]);
    m.insert(0b01010u8, vec![(0u8, 1u8)]);
    m.insert(0b01110u8, vec![(1u8, 1u8)]);
    m.insert(0b01111u8, vec![(2u8, 1u8)]);
    m.insert(0b01011u8, vec![(3u8, 1u8)]);
    m.insert(0b01000u8, vec![(0u8, 2u8)]);
    m.insert(0b01100u8, vec![(1u8, 2u8)]);
    m.insert(0b01101u8, vec![(2u8, 2u8)]);
    m.insert(0b01001u8, vec![(3u8, 2u8)]);
    m.insert(0b00100u8, vec![(1u8, 3u8)]);
    m.insert(0b00101u8, vec![(2u8, 3u8)]);
    m.insert(0b00001u8, vec![(3u8, 3u8)]);
    assert(m.connections@.map_values(|v: Vec<(u8, u8)>| v@) =~~= spec_tetrio_garbage_connections_table());
    m
}

/// The locations of the connected TETR.IO 6.1 blocks, by connection: those of the garbage
/// blocks, and the corners and elbows below them.
pub open spec fn spec_tetrio_connections_table() -> Map<u8, Seq<(u8, u8)>> {
    map![
        0b00000u8 => seq![(0u8, 3u8)],
        0b00010u8 => seq![(0u8, 0u8)],
        0b00110u8 => seq![(1u8, 0u8)],
        0b00111u8 => seq![(2u8, 0u8)],
        0b00011u8 => seq![(3u8, 0u8)],
        0b01010u8 => seq![(0u8, 1u8)],
        0b01110u8 => seq![(1u8, 1u8)],
        0b01111u8 => seq![(2u8, 1u8)],
        0b01011u8 => seq![(3u8, 1u8)],
        0b01000u8 => seq![(0u8, 2u8)],
        0b01100u8 => seq![(1u8, 2u8)],
        0b01101u8 => seq![(2u8, 2u8)],
        0b01001u8 => seq![(3u8, 2u8)],
        0b00100u8 => seq![(1u8, 3u8)],
        0b00101u8 => seq![(2u8, 3u8)],
        0b00001u8 => seq![(3u8, 3u8)],
        0b10110u8 => seq![(0u8, 4u8)],
        0b10011u8 => seq![(1u8, 4u8)],
        0b11101u8 => seq![(2u8, 4u8)],
        0b11110u8 => seq![(3u8, 4u8)],
        0b11100u8 => seq![(0u8, 5u8)],
        0b11001u8 => seq![(1u8, 5u8)],
        0b10111u8 => seq![(2u8, 5u8)],
        0b11011u8 => seq![(3u8, 5u8)],
    ]
}

fn tetrio_connections_submap() -> (r: ConnectionSubmap)
    ensures
        holds_table(r, spec_tetrio_connections_table()),
        r.default == 0,
        r.max_x == 3,
        r.max_y == 5,
{
    proof {
        reveal_with_fuel(x_max, 6);
        reveal_with_fuel(y_max, 6);
    }
    let mut m = ConnectionSubmap::new(0b00000u8, vec![(0u8, 3u8)]);
    m.insert(0b00010u8, vec![(0u8, 0u8)]);
    m.insert(0b00110u8, vec![(1u8, 0u8)]);
    m.insert(0b00111u8, vec![(2u8, 0u8)]);
    m.insert(0b00011u8, vec![(3u8, 0u8)]);
    m.insert(0b01010u8, vec![(0u8, 1u8)]);
    m.insert(0b01110u8, vec![(1u8, 1u8)]);
    m.insert(0b01111u8, vec![(2u8, 1u8)]);
    m.insert(0b01011u8, vec![(3u8, 1u8)]);
    m.insert(0b01000u8, vec![(0u8, 2u8)]);
    m.insert(0b01100u8, vec![(1u8, 2u8)]);
    m.insert(0b01101u8, vec![(2u8, 2u8)]);
    m.insert(0b01001u8, vec![(3u8, 2u8)]);
    m.insert(0b00100u8, vec![(1u8, 3u8)]);
    m.insert(0b00101u8, vec![(2u8, 3u8)]);
    m.insert(0b00001u8, vec![(3u8, 3u8)]);
    m.insert(0b10110u8, vec![(0u8, 4u8)]);
    m.insert(0b10011u8, vec![(1u8, 4u8)]);
    m.insert(0b11101u8, vec![(2u8, 4u8)]);
    m.insert(0b11110u8, vec![(3u8, 4u8)]);
    m.insert(0b11100u8, vec![(0u8, 5u8)]);
    m.insert(0b11001u8, vec![(1u8, 5u8)]);
    m.insert(0b10111u8, vec![(2u8, 5u8)]);
    m.insert(0b11011u8, vec![(3u8, 5u8)]);
    assert(m.connections@.map_values(|v: Vec<(u8, u8)>| v@) =~~= spec_tetrio_connections_table());
    m
}

/// The locations of the connected Jstris blocks, by connection; some are drawn in
/// layers, the block first and then its dimples.
pub open spec fn spec_jstris_connections_table() -> Map<u8, Seq<(u8, u8)>> {
    map![
        0b00000u8 => seq![(0u8, 0u8)],
        0b01000u8 => seq![(0u8, 1u8)],
        0b00010u8 => seq![(0u8, 2u8)],
        0b01010u8 => seq![(0u8, 3u8)],
        0b00001u8 => seq![(0u8, 4u8)],
        0b11001u8 => seq![(0u8, 5u8)],
        0b10011u8 => seq![(0u8, 6u8)],
        0b11011u8 => seq![(0u8, 7u8)],
        0b00100u8 => seq![(0u8, 8u8)],
        0b11100u8 => seq![(0u8, 9u8)],
        0b10110u8 => seq![(0u8, 10u8)],
        0b11110u8 => seq![(0u8, 11u8)],
        0b00101u8 => seq![(0u8, 12u8)],
        0b11101u8 => seq![(0u8, 13u8)],
        0b10111u8 => seq![(0u8, 14u8)],
        0b11111u8 => seq![(0u8, 15u8)],
        0b01100u8 => seq![(0u8, 9u8), (0u8, 16u8)],
        0b00110u8 => seq![(0u8, 10u8), (0u8, 17u8)],
        0b00011u8 => seq![(0u8, 6u8), (0u8, 18u8)],
        0b01001u8 => seq![(0u8, 5u8), (0u8, 19u8)],
        0b00111u8 => seq![(0u8, 14u8), (0u8, 17u8), (0u8, 18u8)],
        0b01011u8 => seq![(0u8, 7u8), (0u8, 19u8), (0u8, 18u8)],
        0b01101u8 => seq![(0u8, 13u8), (0u8, 19u8), (0u8, 16u8)],
        0b01110u8 => seq![(0u8, 11u8), (0u8, 17u8), (0u8, 16u8)],
        0b01111u8 => seq![(0u8, 15u8), (0u8, 16u8), (0u8, 17u8), (0u8, 18u8), (0u8, 19u8)],
    ]
}

fn jstris_connections_submap() -> (r: ConnectionSubmap)
    ensures
        holds_table(r, spec_jstris_connections_table()),
        r.default == 0,
        r.max_x == 0,
        r.max_y == 19,
{
    proof {
        reveal_with_fuel(x_max, 6);
        reveal_with_fuel(y_max, 6);
    }
    let mut m = ConnectionSubmap::new(0b00000u8, vec![(0u8, 0u8)]);
    m.insert(0b01000u8, vec![(0u8, 1u8)]);
    m.insert(0b00010u8, vec![(0u8, 2u8)]);
    m.insert(0b01010u8, vec![(0u8, 3u8)]);
    m.insert(0b00001u8, vec![(0u8, 4u8)]);
    m.insert(0b11001u8, vec![(0u8, 5u8)]);
    m.insert(0b10011u8, vec![(0u8, 6u8)]);
    m.insert(0b11011u8, vec![(0u8, 7u8)]);
    m.insert(0b00100u8, vec![(0u8, 8u8)]);
    m.insert(0b11100u8, vec![(0u8, 9u8)]);
    m.insert(0b10110u8, vec![(0u8, 10u8)]);
    m.insert(0b11110u8, vec![(0u8, 11u8)]);
    m.insert(0b00101u8, vec![(0u8, 12u8)]);
    m.insert(0b11101u8, vec![(0u8, 13u8)]);
    m.insert(0b10111u8, vec![(0u8, 14u8)]);
    m.insert(0b11111u8, vec![(0u8, 15u8)]);
    m.insert(0b01100u8, vec![(0u8, 9u8), (0u8, 16u8)]);
    m.insert(0b00110u8, vec![(0u8, 10u8), (0u8, 17u8)]);
    m.insert(0b00011u8, vec![(0u8, 6u8), (0u8, 18u8)]);
    m.insert(0b01001u8, vec![(0u8, 5u8), (0u8, 19u8)]);
    m.insert(0b00111u8, vec![(0u8, 14u8), (0u8, 17u8), (0u8, 18u8)]);
    m.insert(0b01011u8, vec![(0u8, 7u8), (0u8, 19u8), (0u8, 18u8)]);
    m.insert(0b01101u8, vec![(0u8, 13u8), (0u8, 19u8), (0u8, 16u8)]);
    m.insert(0b01110u8, vec![(0u8, 11u8), (0u8, 17u8), (0u8, 16u8)]);
    m.insert(0b01111u8, vec![(0u8, 15u8), (0u8, 16u8), (0u8, 17u8), (0u8, 18u8), (0u8, 19u8)]);
    assert(m.connections@.map_values(|v: Vec<(u8, u8)>| v@) =~~= spec_jstris_connections_table());
    m
}

/// The locations of a connection map, by connection.
pub open spec fn spec_connection_table(kind: ConnectionMapKind) -> Map<u8, Seq<(u8, u8)>> {
    match kind {
        ConnectionMapKind::NoConnections => spec_no_connections_table(),
        ConnectionMapKind::TetrioConnections => spec_tetrio_connections_table(),
        ConnectionMapKind::TetrioGarbageConnections => spec_tetrio_garbage_connections_table(),
        ConnectionMapKind::JstrisConnections => spec_jstris_connections_table(),
    }
}

/// The largest coordinates of a connection map's locations.
pub open spec fn spec_connection_extent(kind: ConnectionMapKind) -> (u8, u8) {
    match kind {
        ConnectionMapKind::NoConnections => (0, 0),
        ConnectionMapKind::TetrioConnections => (3, 5),
        ConnectionMapKind::TetrioGarbageConnections => (3, 3),
        ConnectionMapKind::JstrisConnections => (0, 19),
    }
}

/// Builds a connection map: every connection it has with its locations, the unconnected
/// block as its default, and its largest coordinates.
pub fn connection_submap(kind: ConnectionMapKind) -> (r: ConnectionSubmap)
    ensures
        holds_table(r, spec_connection_table(kind)),
        r.default == 0,
        (r.max_x, r.max_y) == spec_connection_extent(kind),
{
    match kind {
        ConnectionMapKind::NoConnections => no_connections_submap(),
        ConnectionMapKind::TetrioConnections => tetrio_connections_submap(),
        ConnectionMapKind::TetrioGarbageConnections => tetrio_garbage_connections_submap(),
        ConnectionMapKind::JstrisConnections => jstris_connections_submap(),
    }
}

/// A skin format carries minos exactly when its layout has a place for the Z piece, and
/// ghosts exactly when its layout has a place for the ghost; so every format has a place
/// for one of the two.
pub proof fn lemma_minos_and_ghost_match_layout(s: SkinType)
    ensures
        s.spec_has_minos_and_ghost() == (
            spec_lookup_skin(s, Piece::Z) is Some,
            spec_lookup_skin(s, Piece::GhostBlock) is Some,
        ),
        spec_lookup_skin(s, Piece::Z) is Some || spec_lookup_skin(s, Piece::GhostBlock) is Some,
{
}

} // verus!
