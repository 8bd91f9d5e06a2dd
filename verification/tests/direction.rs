use astrora_core::direction::TransferKind;

#[test]
fn auto_resolves_short_way_for_prograde_normal() {
    assert!(TransferKind::Auto.resolve(true));
}

#[test]
fn auto_resolves_long_way_for_retrograde_normal() {
    assert!(!TransferKind::Auto.resolve(false));
}

#[test]
fn explicit_choices_ignore_the_normal() {
    assert!(TransferKind::ShortWay.resolve(true));
    assert!(TransferKind::ShortWay.resolve(false));
    assert!(!TransferKind::LongWay.resolve(true));
    assert!(!TransferKind::LongWay.resolve(false));
}

#[test]
fn quarter_turn_geometry_resolves_short_way() {
    // r1 = (7000 km, 0, 0), r2 = (0, 7000 km, 0): the orbit normal r1 x r2
    // points along +z, so Auto must take the short way.
    let r1 = [7000.0e3_f64, 0.0, 0.0];
    let r2 = [0.0_f64, 7000.0e3, 0.0];
    let normal_z = r1[0] * r2[1] - r1[1] * r2[0];
    assert!(normal_z > 0.0);
    assert!(TransferKind::Auto.resolve(normal_z >= 0.0));
    assert_eq!(
        TransferKind::Auto.resolve(normal_z >= 0.0),
        TransferKind::ShortWay.resolve(normal_z >= 0.0)
    );
}
