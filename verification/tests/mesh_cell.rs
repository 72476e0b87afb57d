use jgdtrans::mesh::{MeshCell, MeshNode, MeshUnit};

#[test]
fn cell_test_try_new() {
    // healty
    assert!(MeshCell::new(
        MeshNode::try_from_meshcode(&54401027).unwrap(),
        MeshNode::try_from_meshcode(&54401028).unwrap(),
        MeshNode::try_from_meshcode(&54401037).unwrap(),
        MeshNode::try_from_meshcode(&54401038).unwrap(),
        MeshUnit::One,
    )
    .is_some());
    assert!(MeshCell::new(
        MeshNode::try_from_meshcode(&54401005).unwrap(),
        MeshNode::try_from_meshcode(&54401100).unwrap(),
        MeshNode::try_from_meshcode(&54401055).unwrap(),
        MeshNode::try_from_meshcode(&54401150).unwrap(),
        MeshUnit::Five,
    )
    .is_some());

    // error
    // incorrect unit
    assert!(MeshCell::new(
        MeshNode::try_from_meshcode(&54401027).unwrap(),
        MeshNode::try_from_meshcode(&54401028).unwrap(),
        MeshNode::try_from_meshcode(&54401037).unwrap(),
        MeshNode::try_from_meshcode(&54401038).unwrap(),
        MeshUnit::Five,
    )
    .is_none());
    assert!(MeshCell::new(
        MeshNode::try_from_meshcode(&54401005).unwrap(),
        MeshNode::try_from_meshcode(&54401100).unwrap(),
        MeshNode::try_from_meshcode(&54401055).unwrap(),
        MeshNode::try_from_meshcode(&54401150).unwrap(),
        MeshUnit::One,
    )
    .is_none());

    // not a unit cell
    // longitude
    assert!(MeshCell::new(
        MeshNode::try_from_meshcode(&54401027).unwrap(),
        MeshNode::try_from_meshcode(&54401027).unwrap(),
        MeshNode::try_from_meshcode(&54401037).unwrap(),
        MeshNode::try_from_meshcode(&54401038).unwrap(),
        MeshUnit::One,
    )
    .is_none());
    assert!(MeshCell::new(
        MeshNode::try_from_meshcode(&54401027).unwrap(),
        MeshNode::try_from_meshcode(&54401028).unwrap(),
        MeshNode::try_from_meshcode(&54401036).unwrap(),
        MeshNode::try_from_meshcode(&54401038).unwrap(),
        MeshUnit::One,
    )
    .is_none());
    assert!(MeshCell::new(
        MeshNode::try_from_meshcode(&54401027).unwrap(),
        MeshNode::try_from_meshcode(&54401028).unwrap(),
        MeshNode::try_from_meshcode(&54401037).unwrap(),
        MeshNode::try_from_meshcode(&54401037).unwrap(),
        MeshUnit::One,
    )
    .is_none());

    // latitude
    assert!(MeshCell::new(
        MeshNode::try_from_meshcode(&54401027).unwrap(),
        MeshNode::try_from_meshcode(&54401018).unwrap(),
        MeshNode::try_from_meshcode(&54401037).unwrap(),
        MeshNode::try_from_meshcode(&54401038).unwrap(),
        MeshUnit::One,
    )
    .is_none());
    assert!(MeshCell::new(
        MeshNode::try_from_meshcode(&54401027).unwrap(),
        MeshNode::try_from_meshcode(&54401028).unwrap(),
        MeshNode::try_from_meshcode(&54401027).unwrap(),
        MeshNode::try_from_meshcode(&54401038).unwrap(),
        MeshUnit::One,
    )
    .is_none());
    assert!(MeshCell::new(
        MeshNode::try_from_meshcode(&54401027).unwrap(),
        MeshNode::try_from_meshcode(&54401028).unwrap(),
        MeshNode::try_from_meshcode(&54401037).unwrap(),
        MeshNode::try_from_meshcode(&54401028).unwrap(),
        MeshUnit::One,
    )
    .is_none());
}

#[test]
fn cell_test_getter() {
    let cell = MeshCell::new(
        MeshNode::try_from_meshcode(&54401027).unwrap(),
        MeshNode::try_from_meshcode(&54401028).unwrap(),
        MeshNode::try_from_meshcode(&54401037).unwrap(),
        MeshNode::try_from_meshcode(&54401038).unwrap(),
        MeshUnit::One,
    )
    .unwrap();

    assert_eq!(
        cell.south_west(),
        &MeshNode::try_from_meshcode(&54401027).unwrap()
    );
    assert_eq!(
        cell.south_east(),
        &MeshNode::try_from_meshcode(&54401028).unwrap()
    );
    assert_eq!(
        cell.north_west(),
        &MeshNode::try_from_meshcode(&54401037).unwrap()
    );
    assert_eq!(
        cell.north_east(),
        &MeshNode::try_from_meshcode(&54401038).unwrap()
    );
    assert_eq!(cell.mesh_unit(), &MeshUnit::One);
}

#[test]
fn cell_test_try_from_meshcode() {
    assert_eq!(
        MeshCell::try_from_meshcode(&54401027, MeshUnit::One).unwrap(),
        MeshCell::new(
            MeshNode::try_from_meshcode(&54401027).unwrap(),
            MeshNode::try_from_meshcode(&54401028).unwrap(),
            MeshNode::try_from_meshcode(&54401037).unwrap(),
            MeshNode::try_from_meshcode(&54401038).unwrap(),
            MeshUnit::One,
        )
        .unwrap()
    );
    assert_eq!(
        MeshCell::try_from_meshcode(&54401005, MeshUnit::Five).unwrap(),
        MeshCell::new(
            MeshNode::try_from_meshcode(&54401005).unwrap(),
            MeshNode::try_from_meshcode(&54401100).unwrap(),
            MeshNode::try_from_meshcode(&54401055).unwrap(),
            MeshNode::try_from_meshcode(&54401150).unwrap(),
            MeshUnit::Five,
        )
        .unwrap()
    );

    // error
    assert!(MeshCell::try_from_meshcode(&54401027, MeshUnit::Five).is_none());
}

#[test]
fn test_try_from_sw_node() {
    assert_eq!(
        MeshCell::try_from_node(
            MeshNode::try_from_meshcode(&54401027).unwrap(),
            MeshUnit::One,
        )
        .unwrap(),
        MeshCell::new(
            MeshNode::try_from_meshcode(&54401027).unwrap(),
            MeshNode::try_from_meshcode(&54401028).unwrap(),
            MeshNode::try_from_meshcode(&54401037).unwrap(),
            MeshNode::try_from_meshcode(&54401038).unwrap(),
            MeshUnit::One,
        )
        .unwrap()
    );
    assert_eq!(
        MeshCell::try_from_node(
            MeshNode::try_from_meshcode(&54401005).unwrap(),
            MeshUnit::Five,
        )
        .unwrap(),
        MeshCell::new(
            MeshNode::try_from_meshcode(&54401005).unwrap(),
            MeshNode::try_from_meshcode(&54401100).unwrap(),
            MeshNode::try_from_meshcode(&54401055).unwrap(),
            MeshNode::try_from_meshcode(&54401150).unwrap(),
            MeshUnit::Five,
        )
        .unwrap()
    );

    // error
    assert!(MeshCell::try_from_node(
        MeshNode::try_from_meshcode(&54401027).unwrap(),
        MeshUnit::Five,
    )
    .is_none());
}
