use jgdtrans::mesh::{MeshCoord, MeshNode, MeshUnit};

#[test]
fn node_test_try_new() {
    let mut coord = MeshCoord::new(0, 0, 0).unwrap();

    while coord <= MeshCoord::new(80, 0, 0).unwrap() {
        let temp = MeshNode::new(MeshCoord::new(0, 0, 0).unwrap(), coord.clone());
        assert!(temp.is_some());
        coord = coord.next_up(&MeshUnit::One).unwrap();
    }

    while coord < MeshCoord::new(99, 7, 9).unwrap() {
        let temp = MeshNode::new(MeshCoord::new(0, 0, 0).unwrap(), coord.clone());
        assert!(temp.is_none());
        coord = coord.next_up(&MeshUnit::One).unwrap();
    }
    assert!(MeshNode::new(MeshCoord::new(0, 0, 0).unwrap(), coord).is_none());
}

#[test]
fn node_test_getter() {
    let node = MeshNode::new(
        MeshCoord::new(54, 1, 2).unwrap(),
        MeshCoord::new(40, 0, 7).unwrap(),
    )
    .unwrap();

    assert_eq!(node.latitude(), &MeshCoord::new(54, 1, 2).unwrap());
    assert_eq!(node.longitude(), &MeshCoord::new(40, 0, 7).unwrap());
}

#[test]
fn node_test_try_from_meshcode() {
    // error
    assert!(MeshNode::try_from_meshcode(&54401827).is_none());
    assert!(MeshNode::try_from_meshcode(&54408027).is_none());
    assert!(MeshNode::try_from_meshcode(&54801021).is_none());
    assert!(MeshNode::try_from_meshcode(&54801120).is_none());
    assert!(MeshNode::try_from_meshcode(&54811020).is_none());
    assert!(MeshNode::try_from_meshcode(&100000000).is_none());

    // healthy
    assert_eq!(
        MeshNode::try_from_meshcode(&54401027).unwrap(),
        MeshNode::new(
            MeshCoord::new(54, 1, 2).unwrap(),
            MeshCoord::new(40, 0, 7).unwrap(),
        )
        .unwrap()
    );
    assert_eq!(
        MeshNode::try_from_meshcode(&0).unwrap(),
        MeshNode::new(
            MeshCoord::new(0, 0, 0).unwrap(),
            MeshCoord::new(0, 0, 0).unwrap(),
        )
        .unwrap()
    );
}

#[test]
fn test_to_meshcode() {
    assert_eq!(
        MeshNode::new(
            MeshCoord::new(54, 1, 2).unwrap(),
            MeshCoord::new(40, 0, 7).unwrap(),
        )
        .unwrap()
        .to_meshcode(),
        54401027
    )
}

#[test]
fn node_test_identity() {
    // on latitude and longitude is
    // tested by tests_mesh_coord::test_identity

    //
    // latitude
    //
    let bound = MeshNode::new(
        MeshCoord::new(99, 7, 9).unwrap(),
        MeshCoord::new(0, 0, 0).unwrap(),
    )
    .unwrap();
    let mut node = MeshNode::new(
        MeshCoord::new(0, 0, 0).unwrap(),
        MeshCoord::new(0, 0, 0).unwrap(),
    )
    .unwrap();
    while node != bound {
        assert_eq!(
            node,
            MeshNode::try_from_meshcode(&node.to_meshcode()).unwrap()
        );
        node = MeshNode::new(
            node.latitude().next_up(&MeshUnit::One).unwrap(),
            MeshCoord::new(0, 0, 0).unwrap(),
        )
        .unwrap();
    }

    // for MeshCoord(99, 7, 9)
    assert_eq!(
        node,
        MeshNode::try_from_meshcode(&node.to_meshcode()).unwrap()
    );

    //
    // longitude
    //
    let bound = MeshNode::new(
        MeshCoord::new(0, 0, 0).unwrap(),
        MeshCoord::new(80, 0, 0).unwrap(),
    )
    .unwrap();
    let mut node = MeshNode::new(
        MeshCoord::new(0, 0, 0).unwrap(),
        MeshCoord::new(0, 0, 0).unwrap(),
    )
    .unwrap();

    while node != bound {
        assert_eq!(
            node,
            MeshNode::try_from_meshcode(&node.to_meshcode()).unwrap()
        );
        node = MeshNode::new(
            MeshCoord::new(0, 0, 0).unwrap(),
            node.longitude().next_up(&MeshUnit::One).unwrap(),
        )
        .unwrap();
    }

    // for MeshCoord(80, 0,0 )
    assert_eq!(
        node,
        MeshNode::try_from_meshcode(&node.to_meshcode()).unwrap()
    );
}

#[test]
fn test_try_from() {
    let coord = MeshCoord::new(0, 0, 0).unwrap();

    assert_eq!(
        MeshNode::new(coord.clone(), coord.clone()).unwrap(),
        MeshNode::try_from(((0, 0, 0), (0, 0, 0))).unwrap()
    );
}
