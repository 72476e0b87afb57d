use jgdtrans::mesh::{MeshCell, MeshCoord, MeshNode, MeshTryFromError, MeshUnit};

fn node(lat: (u8, u8, u8), lng: (u8, u8, u8)) -> MeshNode {
    MeshNode::try_from((lat, lng)).unwrap()
}

#[test]
fn node_new_longitude_bound() {
    let lat = MeshCoord::new(54, 1, 2).unwrap();
    assert!(MeshNode::new(lat, MeshCoord::new(80, 0, 0).unwrap()).is_some());
    assert!(MeshNode::new(lat, MeshCoord::new(80, 0, 1).unwrap()).is_none());
    assert!(MeshNode::new(lat, MeshCoord::new(81, 0, 0).unwrap()).is_none());
    assert_eq!(
        MeshNode::try_from(((54, 1, 2), (80, 1, 0))),
        Err(MeshTryFromError::new())
    );
    assert_eq!(
        MeshNode::try_from(((54, 9, 2), (40, 1, 0))),
        Err(MeshTryFromError::new())
    );
    assert_eq!(
        MeshNode::try_from((lat, MeshCoord::new(40, 0, 7).unwrap())),
        Ok(node((54, 1, 2), (40, 0, 7)))
    );
}

#[test]
fn node_meshcode_conversions() {
    assert_eq!(MeshNode::try_from(&54401027), Ok(node((54, 1, 2), (40, 0, 7))));
    assert_eq!(MeshNode::try_from(&54401827), Err(MeshTryFromError::new()));
    assert_eq!(u32::from(node((54, 1, 2), (40, 0, 7))), 54401027);
    assert_eq!(node((99, 7, 9), (80, 0, 0)).to_meshcode(), 99807090);
    assert_eq!(node((0, 0, 0), (0, 0, 0)).to_meshcode(), 0);
    // longitude out of bounds
    assert!(MeshNode::try_from_meshcode(&54810000).is_none());
    assert!(MeshNode::try_from_meshcode(&54800001).is_none());
    assert!(MeshNode::try_from_meshcode(&54800000).is_some());
}

#[test]
fn node_meshcode_roundtrip_sampled() {
    // to_meshcode after try_from_meshcode gives the code back
    let mut code: u32 = 0;
    let mut found = 0;
    while code < 100_000_000 {
        if let Some(n) = MeshNode::try_from_meshcode(&code) {
            assert_eq!(n.to_meshcode(), code);
            assert_eq!(MeshNode::try_from_meshcode(&n.to_meshcode()), Some(n));
            found += 1;
        }
        code += 997;
    }
    assert!(found > 0);
}

#[test]
fn node_is_mesh_unit() {
    let n = node((54, 1, 2), (40, 0, 7));
    assert!(n.is_mesh_unit(&MeshUnit::One));
    assert!(!n.is_mesh_unit(&MeshUnit::Five));
    let n = node((54, 1, 0), (40, 0, 5));
    assert!(n.is_mesh_unit(&MeshUnit::Five));
}

#[test]
fn node_neighbours() {
    let n = MeshNode::try_from_meshcode(&54401027).unwrap();
    assert_eq!(
        n.next_north(&MeshUnit::One),
        MeshNode::try_from_meshcode(&54401037)
    );
    assert_eq!(
        n.next_south(&MeshUnit::One),
        MeshNode::try_from_meshcode(&54401017)
    );
    assert_eq!(
        n.next_east(&MeshUnit::One),
        MeshNode::try_from_meshcode(&54401028)
    );
    assert_eq!(
        n.next_west(&MeshUnit::One),
        MeshNode::try_from_meshcode(&54401026)
    );
    // not a node of the 5 km mesh
    assert_eq!(n.next_north(&MeshUnit::Five), None);

    let n = MeshNode::try_from_meshcode(&54401005).unwrap();
    assert_eq!(
        n.next_east(&MeshUnit::Five),
        MeshNode::try_from_meshcode(&54401100)
    );
    assert_eq!(
        n.next_north(&MeshUnit::Five),
        MeshNode::try_from_meshcode(&54401055)
    );
}

#[test]
fn node_neighbours_at_bounds() {
    let top = node((99, 7, 9), (80, 0, 0));
    assert_eq!(top.next_north(&MeshUnit::One), None);
    // the longitude of a node is at most (80, 0, 0)
    assert_eq!(top.next_east(&MeshUnit::One), None);
    assert_eq!(top.next_east(&MeshUnit::Five), None);
    assert_eq!(
        top.next_west(&MeshUnit::One),
        Some(node((99, 7, 9), (79, 7, 9)))
    );

    let bottom = node((0, 0, 0), (0, 0, 0));
    assert_eq!(bottom.next_south(&MeshUnit::One), None);
    assert_eq!(bottom.next_west(&MeshUnit::One), None);
}

#[test]
fn node_neighbours_inverse() {
    for unit in [MeshUnit::One, MeshUnit::Five] {
        for code in [54401005u32, 54401027, 99807090, 0, 99800000, 80005] {
            let n = match MeshNode::try_from_meshcode(&code) {
                Some(n) => n,
                None => continue,
            };
            if let Some(m) = n.next_north(&unit) {
                assert_eq!(m.next_south(&unit), Some(n.clone()));
            }
            if let Some(m) = n.next_south(&unit) {
                assert_eq!(m.next_north(&unit), Some(n.clone()));
            }
            if let Some(m) = n.next_east(&unit) {
                assert_eq!(m.next_west(&unit), Some(n.clone()));
            }
            if let Some(m) = n.next_west(&unit) {
                assert_eq!(m.next_east(&unit), Some(n.clone()));
            }
        }
    }
}

#[test]
fn cell_corners_are_neighbours() {
    for (code, unit) in [(54401027u32, MeshUnit::One), (54401005, MeshUnit::Five)] {
        let cell = MeshCell::try_from_meshcode(&code, unit).unwrap();
        let sw = cell.south_west();
        assert_eq!(sw.to_meshcode(), code);
        assert_eq!(sw.next_east(&unit).as_ref(), Some(cell.south_east()));
        assert_eq!(sw.next_north(&unit).as_ref(), Some(cell.north_west()));
        assert_eq!(
            cell.south_east().next_north(&unit).as_ref(),
            Some(cell.north_east())
        );
        assert_eq!(
            cell.north_west().next_east(&unit).as_ref(),
            Some(cell.north_east())
        );
        assert_eq!(
            MeshCell::new(
                *cell.south_west(),
                *cell.south_east(),
                *cell.north_west(),
                *cell.north_east(),
                *cell.mesh_unit()
            ),
            Some(cell)
        );
    }
}

#[test]
fn cell_at_bounds() {
    // no cell beyond the largest latitude or longitude
    assert!(MeshCell::try_from_node(node((99, 7, 9), (0, 0, 0)), MeshUnit::One).is_none());
    assert!(MeshCell::try_from_node(node((0, 0, 0), (80, 0, 0)), MeshUnit::One).is_none());
    assert!(MeshCell::try_from_node(node((0, 0, 0), (79, 7, 9)), MeshUnit::One).is_some());
    assert!(MeshCell::try_from_node(node((0, 0, 0), (79, 7, 5)), MeshUnit::Five).is_some());
    assert!(MeshCell::try_from_meshcode(&100000000, MeshUnit::One).is_none());
}
