use osm4routing::categorize::Accessibility;
use osm4routing::categorize::BikeAccessibility;
use osm4routing::categorize::CarAccessibility;
use osm4routing::categorize::EdgeProperties;
use osm4routing::categorize::FootAccessibility;
use osm4routing::categorize::TrainAccessibility;

#[test]
fn test_accessible() {
    let mut p = EdgeProperties::default();
    p.normalize();
    assert!(!p.accessible());

    p.foot = FootAccessibility::Allowed;
    assert!(p.accessible())
}

#[test]
fn test_normalize() {
    let mut p = EdgeProperties::default();
    p.bike_forward = BikeAccessibility::Lane;
    p.normalize();
    assert_eq!(BikeAccessibility::Lane, p.bike_backward);
    p.bike_forward = BikeAccessibility::Allowed;
    p.normalize();
    assert_eq!(BikeAccessibility::Lane, p.bike_backward);

    p.car_forward = CarAccessibility::Secondary;
    p.car_backward = CarAccessibility::Unknown;
    p.normalize();
    assert_eq!(CarAccessibility::Secondary, p.car_backward)
}

#[test]
fn test_update() {
    let mut p = EdgeProperties::default();
    p.update_with_str("highway", "secondary");
    assert_eq!(CarAccessibility::Secondary, p.car_forward);

    p.update_with_str("highway", "primary_link");
    assert_eq!(CarAccessibility::Primary, p.car_forward);

    p.update_with_str("highway", "motorway");
    assert_eq!(CarAccessibility::Motorway, p.car_forward);

    p.update_with_str("highway", "residential");
    assert_eq!(CarAccessibility::Residential, p.car_forward);

    p.update_with_str("highway", "tertiary");
    assert_eq!(CarAccessibility::Tertiary, p.car_forward);

    p.update_with_str("highway", "trunk");
    assert_eq!(CarAccessibility::Trunk, p.car_forward);

    p.update_with_str("highway", "cycleway");
    assert_eq!(BikeAccessibility::Track, p.bike_forward);
    assert_eq!(FootAccessibility::Allowed, p.foot);

    p.update_with_str("foot", "designated");
    assert_eq!(FootAccessibility::Allowed, p.foot);

    p.update_with_str("foot", "no");
    assert_eq!(FootAccessibility::Forbidden, p.foot);

    p.update_with_str("cycleway", "lane");
    assert_eq!(BikeAccessibility::Lane, p.bike_forward);

    p.update_with_str("cycleway", "track");
    assert_eq!(BikeAccessibility::Track, p.bike_forward);

    p.update_with_str("cycleway", "opposite_lane");
    assert_eq!(BikeAccessibility::Lane, p.bike_backward);

    p.update_with_str("cycleway", "opposite_track");
    assert_eq!(BikeAccessibility::Track, p.bike_backward);

    p.update_with_str("cycleway", "opposite");
    assert_eq!(BikeAccessibility::Allowed, p.bike_backward);

    p.update_with_str("cycleway", "share_busway");
    assert_eq!(BikeAccessibility::Busway, p.bike_forward);

    p.update_with_str("cycleway", "lane_left");
    assert_eq!(BikeAccessibility::Lane, p.bike_backward);

    p.update_with_str("bicycle", "yes");
    assert_eq!(BikeAccessibility::Allowed, p.bike_forward);

    p.update_with_str("bicycle", "no");
    assert_eq!(BikeAccessibility::Forbidden, p.bike_forward);

    // bike_forward is explicitly forbidden here, and busway only grants a
    // plain allow, which a forbid absorbs
    p.update_with_str("busway", "yes");
    assert_eq!(BikeAccessibility::Forbidden, p.bike_forward);

    p.update_with_str("busway", "opposite_track");
    assert_eq!(BikeAccessibility::Busway, p.bike_backward);

    p.update_with_str("oneway", "yes");
    assert_eq!(CarAccessibility::Forbidden, p.car_backward);
    assert!(p.bike_backward != BikeAccessibility::Forbidden);

    p.bike_backward = BikeAccessibility::Unknown;
    p.update_with_str("oneway", "yes");
    assert_eq!(BikeAccessibility::Forbidden, p.bike_backward);

    p.update_with_str("junction", "roundabout");
    assert_eq!(CarAccessibility::Forbidden, p.car_backward);

    p.bike_backward = BikeAccessibility::Unknown;
    p.update_with_str("junction", "roundabout");
    assert_eq!(BikeAccessibility::Forbidden, p.bike_backward);
}

#[test]
fn empty_attribute_set_is_not_accessible() {
    let mut p = EdgeProperties::default();
    p.normalize();
    assert_eq!(FootAccessibility::Unknown, p.foot);
    assert_eq!(CarAccessibility::Forbidden, p.car_forward);
    assert_eq!(CarAccessibility::Forbidden, p.car_backward);
    assert_eq!(BikeAccessibility::Forbidden, p.bike_forward);
    assert_eq!(BikeAccessibility::Forbidden, p.bike_backward);
    assert_eq!(TrainAccessibility::Forbidden, p.train);
    assert!(!p.accessible());
}

#[test]
fn residential_highway_grants_all_road_modes() {
    let mut p = EdgeProperties::default();
    p.update_with_str("highway", "residential");
    assert_eq!(CarAccessibility::Residential, p.car_forward);
    assert_eq!(FootAccessibility::Allowed, p.foot);
    assert_eq!(BikeAccessibility::Allowed, p.bike_forward);
    p.normalize();
    assert_eq!(CarAccessibility::Residential, p.car_backward);
    assert_eq!(BikeAccessibility::Allowed, p.bike_backward);
    assert!(p.accessible());
}

#[test]
fn motorway_soft_forbids_foot_and_bike() {
    let mut p = EdgeProperties::default();
    p.update_with_str("highway", "motorway");
    assert_eq!(CarAccessibility::Motorway, p.car_forward);
    assert_eq!(FootAccessibility::Forbidden, p.foot);
    assert_eq!(BikeAccessibility::Forbidden, p.bike_forward);
    p.normalize();
    assert_eq!(BikeAccessibility::Forbidden, p.bike_backward);
    assert_eq!(CarAccessibility::Motorway, p.car_backward);
    assert!(p.accessible());
}

#[test]
fn oneway_forbids_backward_directions() {
    let mut p = EdgeProperties::default();
    p.update_with_str("highway", "residential");
    p.update_with_str("oneway", "yes");
    assert_eq!(CarAccessibility::Forbidden, p.car_backward);
    assert_eq!(BikeAccessibility::Forbidden, p.bike_backward);
    p.normalize();
    assert_eq!(CarAccessibility::Forbidden, p.car_backward);
    assert_eq!(BikeAccessibility::Forbidden, p.bike_backward);
    assert_eq!(CarAccessibility::Residential, p.car_forward);
}

#[test]
fn bicycle_tags_are_order_sensitive() {
    let mut p = EdgeProperties::default();
    p.update_with_str("bicycle", "no");
    p.update_with_str("bicycle", "yes");
    assert_eq!(BikeAccessibility::Allowed, p.bike_forward);

    let mut q = EdgeProperties::default();
    q.update_with_str("bicycle", "yes");
    q.update_with_str("bicycle", "no");
    assert_eq!(BikeAccessibility::Forbidden, q.bike_forward);
}

#[test]
fn abandoned_railway_forbids_train_only() {
    let mut p = EdgeProperties::default();
    p.update_with_str("railway", "abandoned");
    assert_eq!(TrainAccessibility::Forbidden, p.train);
    assert_eq!(FootAccessibility::Unknown, p.foot);
}

#[test]
fn active_railway_allows_train_and_soft_forbids_foot() {
    let mut p = EdgeProperties::default();
    p.update_with_str("railway", "rail");
    assert_eq!(TrainAccessibility::Allowed, p.train);
    assert_eq!(FootAccessibility::Forbidden, p.foot);

    let mut q = EdgeProperties::default();
    q.update_with_str("foot", "yes");
    q.update_with_str("railway", "rail");
    assert_eq!(FootAccessibility::Allowed, q.foot);
}

#[test]
fn normalize_twice_equals_normalize_once() {
    let mut p = EdgeProperties::default();
    p.update_with_str("highway", "tertiary");
    p.update_with_str("oneway", "yes");
    p.normalize();
    let once = p;
    p.normalize();
    assert_eq!(once, p);
}

#[test]
fn forbid_absorbs_allow_but_not_force_allow() {
    let mut f = FootAccessibility::Unknown;
    f.forbid();
    f.allow(FootAccessibility::Allowed);
    assert_eq!(FootAccessibility::Forbidden, f);
    f.force_allow(FootAccessibility::Allowed);
    assert_eq!(FootAccessibility::Allowed, f);

    let mut c = CarAccessibility::Unknown;
    c.forbid();
    c.allow(CarAccessibility::Primary);
    assert_eq!(CarAccessibility::Forbidden, c);
    c.force_allow(CarAccessibility::Primary);
    assert_eq!(CarAccessibility::Primary, c);
}

#[test]
fn soft_forbid_only_touches_unknown() {
    let mut b = BikeAccessibility::Lane;
    b.soft_forbid();
    assert_eq!(BikeAccessibility::Lane, b);

    let mut t = TrainAccessibility::Allowed;
    t.soft_forbid();
    assert_eq!(TrainAccessibility::Allowed, t);

    let mut u = BikeAccessibility::Unknown;
    u.soft_forbid();
    assert_eq!(BikeAccessibility::Forbidden, u);
}

#[test]
fn unrecognized_tags_are_no_ops() {
    let mut p = EdgeProperties::default();
    p.update_with_str("surface", "asphalt");
    p.update_with_str("highway", "proposed");
    p.update_with_str("oneway", "no");
    p.update_with_str("junction", "y_junction");
    assert_eq!(EdgeProperties::default(), p);
}

#[test]
fn update_all_applies_pairs_in_caller_order() {
    let tags = vec![
        ("highway".to_string(), "residential".to_string()),
        ("bicycle".to_string(), "yes".to_string()),
        ("bicycle".to_string(), "no".to_string()),
    ];
    let mut p = EdgeProperties::default();
    p.update_all(&tags);
    assert_eq!(CarAccessibility::Residential, p.car_forward);
    assert_eq!(BikeAccessibility::Forbidden, p.bike_forward);

    let reversed = vec![
        ("bicycle".to_string(), "no".to_string()),
        ("bicycle".to_string(), "yes".to_string()),
    ];
    let mut q = EdgeProperties::default();
    q.update_all(&reversed);
    assert_eq!(BikeAccessibility::Allowed, q.bike_forward);
}

#[test]
fn labels_equal_variant_names() {
    assert_eq!("Unknown", FootAccessibility::Unknown.label());
    assert_eq!("Forbidden", FootAccessibility::Forbidden.label());
    assert_eq!("Allowed", FootAccessibility::Allowed.label());
    assert_eq!("Residential", CarAccessibility::Residential.label());
    assert_eq!("Tertiary", CarAccessibility::Tertiary.label());
    assert_eq!("Secondary", CarAccessibility::Secondary.label());
    assert_eq!("Primary", CarAccessibility::Primary.label());
    assert_eq!("Trunk", CarAccessibility::Trunk.label());
    assert_eq!("Motorway", CarAccessibility::Motorway.label());
    assert_eq!("Lane", BikeAccessibility::Lane.label());
    assert_eq!("Busway", BikeAccessibility::Busway.label());
    assert_eq!("Track", BikeAccessibility::Track.label());
    assert_eq!("Allowed", TrainAccessibility::Allowed.label());
}

#[test]
fn update_applies_owned_strings() {
    let mut p = EdgeProperties::default();
    p.update("highway".to_string(), "secondary".to_string());
    assert_eq!(CarAccessibility::Secondary, p.car_forward);
    assert_eq!(FootAccessibility::Allowed, p.foot);
    assert_eq!(BikeAccessibility::Allowed, p.bike_forward);
}
