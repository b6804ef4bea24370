use hexgrid::hex::Hex;
use hexgrid::hex::HexDirection;

#[test]
fn test_hexes_add() {
    let h1 = Hex::from_eisenstein_integer(1, 2);
    let h2 = Hex::from_eisenstein_integer(3, 4);

    assert_eq!(h1 + h2, Hex::from_eisenstein_integer(4, 6));
}

#[test]
fn test_hex_gets_neighbors() {
    let center = Hex::origin();

    assert_eq!(
        center.get_neighbor(HexDirection::Above),
        Hex::from_eisenstein_integer(1, 2)
    );
    assert_eq!(
        center.get_neighbor(HexDirection::Below),
        Hex::from_eisenstein_integer(-1, -2)
    );
    assert_eq!(
        center.get_neighbor(HexDirection::LeftAbove),
        Hex::from_eisenstein_integer(-1, 1)
    );
    assert_eq!(
        center.get_neighbor(HexDirection::LeftBelow),
        Hex::from_eisenstein_integer(-2, -1)
    );
    assert_eq!(
        center.get_neighbor(HexDirection::RightAbove),
        Hex::from_eisenstein_integer(2, 1)
    );
    assert_eq!(
        center.get_neighbor(HexDirection::RightBelow),
        Hex::from_eisenstein_integer(1, -1)
    );
}

#[test]
fn test_hex_add_calling_forms_agree() {
    let h1 = Hex::from_eisenstein_integer(1, 2);
    let h2 = Hex::from_eisenstein_integer(3, 4);

    assert_eq!(h1 + h2, h1 + &h2);
    assert_eq!(h1 + h2, &h1 + h2);
}

#[test]
fn test_hex_neighbor_antipodal_pairs() {
    let center = Hex::origin();
    let pairs = [
        (HexDirection::Above, HexDirection::Below),
        (HexDirection::LeftAbove, HexDirection::RightBelow),
        (HexDirection::LeftBelow, HexDirection::RightAbove),
    ];
    for (there, back) in pairs {
        assert_eq!(center.get_neighbor(there).get_neighbor(back), center);
        assert_eq!(center.get_neighbor(back).get_neighbor(there), center);
    }

    let elsewhere = Hex::from_eisenstein_integer(10, -20);
    for (there, back) in pairs {
        assert_eq!(elsewhere.get_neighbor(there).get_neighbor(back), elsewhere);
    }
}

#[test]
fn test_hex_default_is_origin() {
    assert_eq!(Hex::default(), Hex::origin());
}
