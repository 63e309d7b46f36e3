//! Pieces of a skin and the maps of where each connected block sits in a piece's region.
use vstd::prelude::*;

use std::collections::HashMap;
use std::str::FromStr;

use crate::text::str_equals;

verus! {

broadcast use vstd::std_specs::hash::group_hash_axioms;

/// A kind of block that a skin draws.
#[derive(Debug, Clone, Copy, PartialEq, Eq, Structural)]
pub enum Piece {
    Z,
    L,
    O,
    S,
    I,
    J,
    T,
    HoldDisabled,
    Garbage,
    DarkGarbage,
    /// The ghost piece that shows where the falling piece will land.
    GhostBlock,
    Topout,
}

/// The error of a name that names no piece: it carries the name.
pub struct PieceStringFailure(pub String);

impl Piece {
    /// Every piece, in the order in which skins lay them out.
    pub open spec fn spec_values() -> Seq<Piece> {
        seq![
            Piece::Z,
            Piece::L,
            Piece::O,
            Piece::S,
            Piece::I,
            Piece::J,
            Piece::T,
            Piece::HoldDisabled,
            Piece::Garbage,
            Piece::DarkGarbage,
            Piece::GhostBlock,
            Piece::Topout,
        ]
    }

    /// Every piece, in the order in which skins lay them out.
    pub fn values() -> (r: Vec<Piece>)
        ensures
            r@ == Self::spec_values(),
    {
        let r = vec![
            Piece::Z,
            Piece::L,
            Piece::O,
            Piece::S,
            Piece::I,
            Piece::J,
            Piece::T,
            Piece::HoldDisabled,
            Piece::Garbage,
            Piece::DarkGarbage,
            Piece::GhostBlock,
            Piece::Topout,
        ];
        assert(r@ =~= Self::spec_values());
        r
    }

    /// The piece that a name stands for, if any.
    pub open spec fn spec_parse(s: Seq<char>) -> Option<Piece> {
        if s == "z"@ || s == "Z"@ {
            Some(Piece::Z)
        } else if s == "l"@ || s == "L"@ {
            Some(Piece::L)
        } else if s == "o"@ || s == "O"@ {
            Some(Piece::O)
        } else if s == "s"@ || s == "S"@ {
            Some(Piece::S)
        } else if s == "i"@ || s == "I"@ {
            Some(Piece::I)
        } else if s == "j"@ || s == "J"@ {
            Some(Piece::J)
        } else if s == "t"@ || s == "T"@ {
            Some(Piece::T)
        } else if s == "hold"@ {
            Some(Piece::HoldDisabled)
        } else if s == "garbage"@ || s == "gb"@ || s == "#"@ {
            Some(Piece::Garbage)
        } else if s == "dark garbage"@ || s == "darkgarbage"@ || s == "dgb"@ || s == "@"@ {
            Some(Piece::DarkGarbage)
        } else if s == "ghost"@ {
            Some(Piece::GhostBlock)
        } else if s == "topout"@ {
            Some(Piece::Topout)
        } else {
            None
        }
    }

    /// The piece that a name stands for; a name that stands for none is handed back in the error.
    pub fn parse(s: &str) -> (r: Result<Piece, PieceStringFailure>)
        ensures
            match Self::spec_parse(s@) {
                Some(p) => r matches Ok(q) && q == p,
                None => r matches Err(e) && e.0@ == s@,
            },
    {
        if str_equals(s, "z") || str_equals(s, "Z") {
            Ok(Piece::Z)
        } else if str_equals(s, "l") || str_equals(s, "L") {
            Ok(Piece::L)
        } else if str_equals(s, "o") || str_equals(s, "O") {
            Ok(Piece::O)
        } else if str_equals(s, "s") || str_equals(s, "S") {
            Ok(Piece::S)
        } else if str_equals(s, "i") || str_equals(s, "I") {
            Ok(Piece::I)
        } else if str_equals(s, "j") || str_equals(s, "J") {
            Ok(Piece::J)
        } else if str_equals(s, "t") || str_equals(s, "T") {
            Ok(Piece::T)
        } else if str_equals(s, "hold") {
            Ok(Piece::HoldDisabled)
        } else if str_equals(s, "garbage") || str_equals(s, "gb") || str_equals(s, "#") {
            Ok(Piece::Garbage)
        } else if str_equals(s, "dark garbage") || str_equals(s, "darkgarbage") || str_equals(
            s,
            "dgb",
        ) || str_equals(s, "@") {
            Ok(Piece::DarkGarbage)
        } else if str_equals(s, "ghost") {
            Ok(Piece::GhostBlock)
        } else if str_equals(s, "topout") {
            Ok(Piece::Topout)
        } else {
            Err(PieceStringFailure(s.to_string()))
        }
    }
}

impl FromStr for Piece {
    type Err = PieceStringFailure;

    /// Reads a piece from its name, as `Piece::parse` does.
    fn from_str(s: &str) -> (r: Result<Piece, PieceStringFailure>)
        ensures
            match Piece::spec_parse(s@) {
                Some(p) => r matches Ok(q) && q == p,
                None => r matches Err(e) && e.0@ == s@,
            },
    {
        Piece::parse(s)
    }
}

/// Every piece is listed once among the values, and only pieces are listed.
pub proof fn lemma_values_list_each_piece_once(p: Piece)
    ensures
        Piece::spec_values().contains(p),
        Piece::spec_values().len() == 12,
        forall|i: int, j: int|
            0 <= i < j < 12 ==> Piece::spec_values()[i] != Piece::spec_values()[j],
{
    let v = Piece::spec_values();
    match p {
        Piece::Z => assert(v[0] == p),
        Piece::L => assert(v[1] == p),
        Piece::O => assert(v[2] == p),
        Piece::S => assert(v[3] == p),
        Piece::I => assert(v[4] == p),
        Piece::J => assert(v[5] == p),
        Piece::T => assert(v[6] == p),
        Piece::HoldDisabled => assert(v[7] == p),
        Piece::Garbage => assert(v[8] == p),
        Piece::DarkGarbage => assert(v[9] == p),
        Piece::GhostBlock => assert(v[10] == p),
        Piece::Topout => assert(v[11] == p),
    }
}

/// The largest first coordinate among `locations`, or 0 where there are none.
pub open spec fn x_max(locations: Seq<(u8, u8)>) -> int
    decreases locations.len(),
{
    if locations.len() == 0 {
        0
    } else {
        max_int(x_max(locations.drop_last()), locations.last().0 as int)
    }
}

/// The largest second coordinate among `locations`, or 0 where there are none.
pub open spec fn y_max(locations: Seq<(u8, u8)>) -> int
    decreases locations.len(),
{
    if locations.len() == 0 {
        0
    } else {
        max_int(y_max(locations.drop_last()), locations.last().1 as int)
    }
}

/// The larger of two integers.
pub open spec fn max_int(a: int, b: int) -> int {
    if a < b {
        b
    } else {
        a
    }
}

/// Whether `locations` can be stored in a map: it is not empty.
pub open spec fn valid_locations(locations: Seq<(u8, u8)>) -> bool {
    locations.len() > 0
}

/// Where each connection of a block sits within a piece's region of a skin. Each connection
/// has its own key; the largest coordinates stored decide how finely the region is divided:
/// into one more column than `max_x` and one more row than `max_y`.
pub struct ConnectionSubmap {
    pub connections: HashMap<u8, Vec<(u8, u8)>>,
    /// The connection that is always present in the map.
    pub default: u8,
    /// The largest first coordinate stored in `connections`.
    pub max_x: u8,
    /// The largest second coordinate stored in `connections`.
    pub max_y: u8,
}

/// Computes the largest coordinate of each kind among `locations`.
fn largest_coordinates(locations: &Vec<(u8, u8)>) -> (r: (u8, u8))
    ensures
        r.0 == x_max(locations@),
        r.1 == y_max(locations@),
{
    let mut x: u8 = 0;
    let mut y: u8 = 0;
    let mut i: usize = 0;
    while i < locations.len()
        invariant
            i <= locations@.len(),
            x == x_max(locations@.take(i as int)),
            y == y_max(locations@.take(i as int)),
        decreases locations@.len() - i,
    {
        assert(locations@.take(i + 1).drop_last() =~= locations@.take(i as int));
        let (a, b) = locations[i];
        if x < a {
            x = a;
        }
        if y < b {
            y = b;
        }
        i = i + 1;
    }
    assert(locations@.take(locations@.len() as int) =~= locations@);
    (x, y)
}

impl ConnectionSubmap {
    /// A map that holds only the default connection, at the given locations.
    pub fn new(default_connection: u8, default_location: Vec<(u8, u8)>) -> (r: ConnectionSubmap)
        requires
            valid_locations(default_location@),
        ensures
            r.connections@ == Map::<u8, Vec<(u8, u8)>>::empty().insert(
                default_connection,
                default_location,
            ),
            r.default == default_connection,
            r.max_x == x_max(default_location@),
            r.max_y == y_max(default_location@),
    {
        let mut conn_submap = ConnectionSubmap {
            connections: HashMap::new(),
            default: default_connection,
            max_x: 0,
            max_y: 0,
        };
        conn_submap.insert(default_connection, default_location);
        conn_submap
    }

    /// Stores where `connection` sits, in place of what was stored for it before, and raises
    /// the largest coordinates to cover the new locations.
    pub fn insert(&mut self, connection: u8, location: Vec<(u8, u8)>)
        requires
            valid_locations(location@),
        ensures
            final(self).connections@ == old(self).connections@.insert(connection, location),
            final(self).default == old(self).default,
            final(self).max_x == max_int(old(self).max_x as int, x_max(location@)),
            final(self).max_y == max_int(old(self).max_y as int, y_max(location@)),
    {
        let (x, y) = largest_coordinates(&location);
        self.connections.insert(connection, location);
        if self.max_x < x {
            self.max_x = x;
        }
        if self.max_y < y {
            self.max_y = y;
        }
    }

    /// The locations stored for `connection`, if any.
    pub fn get(&self, connection: u8) -> (r: Option<&Vec<(u8, u8)>>)
        ensures
            match r {
                Some(v) => self.connections@.contains_key(connection) && *v == self.connections@[connection],
                None => !self.connections@.contains_key(connection),
            },
    {
        self.connections.get(&connection)
    }
}

} // verus!
