use tpsecore::import_types::{AnimatedOptions, SkinType};
use tpsecore::packjson::PackMetadata;
use tpsecore::skin_maps::{connection_submap, jstris_conn_map, lookup_skin, tetrio_61_map, ConnectionMapKind, Fraction, SkinSlice};
use tpsecore::splicer::Piece;

fn all_skin_types() -> Vec<SkinType> {
    let opts = AnimatedOptions { delay: None, combine: None };
    vec![
        SkinType::Tetrio61,
        SkinType::Tetrio61Ghost,
        SkinType::Tetrio61Connected,
        SkinType::Tetrio61ConnectedGhost,
        SkinType::Tetrio61ConnectedAnimated { opts },
        SkinType::Tetrio61ConnectedGhostAnimated { opts },
        SkinType::TetrioSVG,
        SkinType::TetrioRaster,
        SkinType::TetrioAnimated { opts },
        SkinType::JstrisRaster,
        SkinType::JstrisAnimated { opts },
        SkinType::JstrisConnected,
    ]
}

#[test]
fn minos_and_ghost_follow_the_layouts() {
    for s in all_skin_types() {
        let expected = (lookup_skin(s, Piece::Z).is_some(), lookup_skin(s, Piece::GhostBlock).is_some());
        assert_eq!(s.has_minos_and_ghost(), expected);
        assert_ne!(expected, (false, false));
    }
}

#[test]
fn layout_regions() {
    let f = |num, den| Fraction { num, den };
    assert_eq!(
        tetrio_61_map(Piece::J),
        Some(SkinSlice { x: f(0, 32), y: f(6, 32), w: f(6, 32), h: f(6, 32), connections: ConnectionMapKind::NoConnections })
    );
    assert_eq!(tetrio_61_map(Piece::GhostBlock), None);
    assert_eq!(
        lookup_skin(SkinType::TetrioRaster, Piece::Topout),
        Some(SkinSlice { x: f(11, 12), y: f(0, 1), w: f(5, 62), h: f(1, 1), connections: ConnectionMapKind::NoConnections })
    );
    assert_eq!(
        lookup_skin(SkinType::Tetrio61Connected, Piece::DarkGarbage),
        Some(SkinSlice {
            x: f(24, 32),
            y: f(6, 32),
            w: f(6, 32),
            h: f(6, 32),
            connections: ConnectionMapKind::TetrioGarbageConnections
        })
    );
    assert_eq!(jstris_conn_map(Piece::HoldDisabled), None);
    assert_eq!(jstris_conn_map(Piece::Garbage).map(|s| (s.x, s.connections)), Some((f(0, 9), ConnectionMapKind::JstrisConnections)));
}

#[test]
fn pack_metadata_has_data_when_described() {
    let none = PackMetadata::default();
    assert!(!none.has_data());
    assert_eq!(none.describe(), "Untitled content pack (no description)");
    let authored = PackMetadata { title: None, author: Some("me".to_string()), version: None, description: None };
    assert!(authored.has_data());
    assert_eq!(authored.describe(), "Untitled content pack by me (no description)");
}

#[test]
fn connection_maps() {
    let tetrio = connection_submap(ConnectionMapKind::TetrioConnections);
    assert_eq!((tetrio.default, tetrio.max_x, tetrio.max_y), (0, 3, 5));
    assert_eq!(tetrio.get(0b10110), Some(&vec![(0, 4)]));
    assert_eq!(tetrio.get(0b00000), Some(&vec![(0, 3)]));
    assert_eq!(tetrio.connections.len(), 24);
    let garbage = connection_submap(ConnectionMapKind::TetrioGarbageConnections);
    assert_eq!((garbage.max_x, garbage.max_y), (3, 3));
    assert_eq!(garbage.get(0b10110), None);
    assert_eq!(garbage.connections.len(), 16);
    let jstris = connection_submap(ConnectionMapKind::JstrisConnections);
    assert_eq!((jstris.max_x, jstris.max_y), (0, 19));
    assert_eq!(jstris.get(0b01111), Some(&vec![(0, 15), (0, 16), (0, 17), (0, 18), (0, 19)]));
    let none = connection_submap(ConnectionMapKind::NoConnections);
    assert_eq!(none.get(0), Some(&vec![(0, 0)]));
    assert_eq!(none.connections.len(), 1);
}
