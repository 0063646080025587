//! Per-mode accessibility states and the merge interface that the tag
//! dispatcher uses to combine evidence from several attribute pairs.

use vstd::prelude::*;
use crate::text::str_eq;

verus! {

/// Accessibility of an edge for pedestrians.
#[derive(Clone, Copy, Debug, PartialEq, Eq, Structural)]
pub enum FootAccessibility {
    Unknown,
    Forbidden,
    Allowed,
}

/// Accessibility of an edge for cars, by road class.
#[derive(Clone, Copy, Debug, PartialEq, Eq, Structural)]
pub enum CarAccessibility {
    Unknown,
    Forbidden,
    Residential,
    Tertiary,
    Secondary,
    Primary,
    Trunk,
    Motorway,
}

/// Accessibility of an edge for bicycles, by kind of cycling facility.
#[derive(Clone, Copy, Debug, PartialEq, Eq, Structural)]
pub enum BikeAccessibility {
    Unknown,
    Forbidden,
    Allowed,
    Lane,
    Busway,
    Track,
}

/// Accessibility of an edge for trains.
#[derive(Clone, Copy, Debug, PartialEq, Eq, Structural)]
pub enum TrainAccessibility {
    Unknown,
    Forbidden,
    Allowed,
}

impl FootAccessibility {
    /// The stable textual label of the variant, equal to its name.
    pub fn label(&self) -> (r: &'static str)
        ensures
            r@ == (match *self {
                FootAccessibility::Unknown => "Unknown"@,
                FootAccessibility::Forbidden => "Forbidden"@,
                FootAccessibility::Allowed => "Allowed"@,
            }),
    {
        match *self {
            FootAccessibility::Unknown => "Unknown",
            FootAccessibility::Forbidden => "Forbidden",
            FootAccessibility::Allowed => "Allowed",
        }
    }
}

impl CarAccessibility {
    /// The stable textual label of the variant, equal to its name.
    pub fn label(&self) -> (r: &'static str)
        ensures
            r@ == (match *self {
                CarAccessibility::Unknown => "Unknown"@,
                CarAccessibility::Forbidden => "Forbidden"@,
                CarAccessibility::Residential => "Residential"@,
                CarAccessibility::Tertiary => "Tertiary"@,
                CarAccessibility::Secondary => "Secondary"@,
                CarAccessibility::Primary => "Primary"@,
                CarAccessibility::Trunk => "Trunk"@,
                CarAccessibility::Motorway => "Motorway"@,
            }),
    {
        match *self {
            CarAccessibility::Unknown => "Unknown",
            CarAccessibility::Forbidden => "Forbidden",
            CarAccessibility::Residential => "Residential",
            CarAccessibility::Tertiary => "Tertiary",
            CarAccessibility::Secondary => "Secondary",
            CarAccessibility::Primary => "Primary",
            CarAccessibility::Trunk => "Trunk",
            CarAccessibility::Motorway => "Motorway",
        }
    }
}

impl BikeAccessibility {
    /// The stable textual label of the variant, equal to its name.
    pub fn label(&self) -> (r: &'static str)
        ensures
            r@ == (match *self {
                BikeAccessibility::Unknown => "Unknown"@,
                BikeAccessibility::Forbidden => "Forbidden"@,
                BikeAccessibility::Allowed => "Allowed"@,
                BikeAccessibility::Lane => "Lane"@,
                BikeAccessibility::Busway => "Busway"@,
                BikeAccessibility::Track => "Track"@,
            }),
    {
        match *self {
            BikeAccessibility::Unknown => "Unknown",
            BikeAccessibility::Forbidden => "Forbidden",
            BikeAccessibility::Allowed => "Allowed",
            BikeAccessibility::Lane => "Lane",
            BikeAccessibility::Busway => "Busway",
            BikeAccessibility::Track => "Track",
        }
    }
}

impl TrainAccessibility {
    /// The stable textual label of the variant, equal to its name.
    pub fn label(&self) -> (r: &'static str)
        ensures
            r@ == (match *self {
                TrainAccessibility::Unknown => "Unknown"@,
                TrainAccessibility::Forbidden => "Forbidden"@,
                TrainAccessibility::Allowed => "Allowed"@,
            }),
    {
        match *self {
            TrainAccessibility::Unknown => "Unknown",
            TrainAccessibility::Forbidden => "Forbidden",
            TrainAccessibility::Allowed => "Allowed",
        }
    }
}

/// What `allow` leaves in a field: a forbid absorbs a plain allow.
pub open spec fn allow_spec<T: Accessibility>(cur: T, value: T) -> T {
    if cur == T::forbidden_value() {
        cur
    } else {
        value
    }
}

/// What `force_allow` leaves in a field: the new value, unconditionally.
pub open spec fn force_allow_spec<T: Accessibility>(cur: T, value: T) -> T {
    value
}

/// What `forbid` leaves in a field: `Forbidden`, unconditionally.
pub open spec fn forbid_spec<T: Accessibility>(cur: T) -> T {
    T::forbidden_value()
}

/// What `soft_forbid` leaves in a field: `Forbidden` only where nothing
/// had been decided yet.
pub open spec fn soft_forbid_spec<T: Accessibility>(cur: T) -> T {
    if cur == T::unknown_value() {
        T::forbidden_value()
    } else {
        cur
    }
}

/// The merge interface shared by the four mode-state types.
///
/// Each operation carries a different authority: `allow` never demotes an
/// explicit forbid, `force_allow` and `forbid` always win, and `soft_forbid`
/// only resolves a still-undecided field.
pub trait Accessibility: Sized + Copy {
    /// The variant that stands for "no decision yet".
    spec fn unknown_value() -> Self;

    /// The variant that stands for an explicit exclusion.
    spec fn forbidden_value() -> Self;

    /// Set the field to `value` unless it was explicitly forbidden.
    fn allow(&mut self, value: Self)
        ensures
            *final(self) == (if *old(self) == Self::forbidden_value() {
                *old(self)
            } else {
                value
            }),
    ;

    /// Set the field to `value` unconditionally.
    fn force_allow(&mut self, value: Self)
        ensures
            *final(self) == value,
    ;

    /// Set the field to `Forbidden` unconditionally.
    fn forbid(&mut self)
        ensures
            *final(self) == Self::forbidden_value(),
    ;

    /// Set the field to `Forbidden` only if it is still `Unknown`.
    fn soft_forbid(&mut self)
        ensures
            *final(self) == (if *old(self) == Self::unknown_value() {
                Self::forbidden_value()
            } else {
                *old(self)
            }),
    ;
}

impl Accessibility for FootAccessibility {
    open spec fn unknown_value() -> Self {
        FootAccessibility::Unknown
    }

    open spec fn forbidden_value() -> Self {
        FootAccessibility::Forbidden
    }

    fn allow(&mut self, value: Self) {
        if *self != FootAccessibility::Forbidden {
            *self = value;
        }
    }

    fn force_allow(&mut self, value: Self) {
        *self = value;
    }

    fn forbid(&mut self) {
        *self = FootAccessibility::Forbidden;
    }

    fn soft_forbid(&mut self) {
        if *self == FootAccessibility::Unknown {
            *self = FootAccessibility::Forbidden;
        }
    }
}

impl Accessibility for CarAccessibility {
    open spec fn unknown_value() -> Self {
        CarAccessibility::Unknown
    }

    open spec fn forbidden_value() -> Self {
        CarAccessibility::Forbidden
    }

    fn allow(&mut self, value: Self) {
        if *self != CarAccessibility::Forbidden {
            *self = value;
        }
    }

    fn force_allow(&mut self, value: Self) {
        *self = value;
    }

    fn forbid(&mut self) {
        *self = CarAccessibility::Forbidden;
    }

    fn soft_forbid(&mut self) {
        if *self == CarAccessibility::Unknown {
            *self = CarAccessibility::Forbidden;
        }
    }
}

impl Accessibility for BikeAccessibility {
    open spec fn unknown_value() -> Self {
        BikeAccessibility::Unknown
    }

    open spec fn forbidden_value() -> Self {
        BikeAccessibility::Forbidden
    }

    fn allow(&mut self, value: Self) {
        if *self != BikeAccessibility::Forbidden {
            *self = value;
        }
    }

    fn force_allow(&mut self, value: Self) {
        *self = value;
    }

    fn forbid(&mut self) {
        *self = BikeAccessibility::Forbidden;
    }

    fn soft_forbid(&mut self) {
        if *self == BikeAccessibility::Unknown {
            *self = BikeAccessibility::Forbidden;
        }
    }
}

impl Accessibility for TrainAccessibility {
    open spec fn unknown_value() -> Self {
        TrainAccessibility::Unknown
    }

    open spec fn forbidden_value() -> Self {
        TrainAccessibility::Forbidden
    }

    fn allow(&mut self, value: Self) {
        if *self != TrainAccessibility::Forbidden {
            *self = value;
        }
    }

    fn force_allow(&mut self, value: Self) {
        *self = value;
    }

    fn forbid(&mut self) {
        *self = TrainAccessibility::Forbidden;
    }

    fn soft_forbid(&mut self) {
        if *self == TrainAccessibility::Unknown {
            *self = TrainAccessibility::Forbidden;
        }
    }
}

/// Which mode can traverse the edge, per direction.
#[derive(Clone, Copy, Debug, PartialEq, Eq, Structural)]
pub struct EdgeProperties {
    pub foot: FootAccessibility,
    pub car_forward: CarAccessibility,
    pub car_backward: CarAccessibility,
    pub bike_forward: BikeAccessibility,
    pub bike_backward: BikeAccessibility,
    pub train: TrainAccessibility,
}

/// The record that `normalize` produces: a still-undecided backward
/// direction first inherits the forward value, then every directional or
/// train field still undecided falls back to `Forbidden`; the foot field is
/// left as it stands.
pub open spec fn normalize_spec(e: EdgeProperties) -> EdgeProperties {
    let car_backward = if e.car_backward == CarAccessibility::Unknown {
        e.car_forward
    } else {
        e.car_backward
    };
    let bike_backward = if e.bike_backward == BikeAccessibility::Unknown {
        e.bike_forward
    } else {
        e.bike_backward
    };
    EdgeProperties {
        foot: e.foot,
        car_forward: if e.car_forward == CarAccessibility::Unknown {
            CarAccessibility::Forbidden
        } else {
            e.car_forward
        },
        car_backward: if car_backward == CarAccessibility::Unknown {
            CarAccessibility::Forbidden
        } else {
            car_backward
        },
        bike_forward: if e.bike_forward == BikeAccessibility::Unknown {
            BikeAccessibility::Forbidden
        } else {
            e.bike_forward
        },
        bike_backward: if bike_backward == BikeAccessibility::Unknown {
            BikeAccessibility::Forbidden
        } else {
            bike_backward
        },
        train: if e.train == TrainAccessibility::Unknown {
            TrainAccessibility::Forbidden
        } else {
            e.train
        },
    }
}

/// The value that `accessible` returns: some mode can use the edge in some
/// direction, and an unresolved foot signal is never the sole evidence.
pub open spec fn accessible_spec(e: EdgeProperties) -> bool {
    (e.bike_forward != BikeAccessibility::Forbidden
        || e.bike_backward != BikeAccessibility::Forbidden
        || e.car_forward != CarAccessibility::Forbidden
        || e.car_backward != CarAccessibility::Forbidden
        || e.foot != FootAccessibility::Forbidden
        || e.train != TrainAccessibility::Forbidden)
    && (e.foot != FootAccessibility::Unknown
        || e.car_forward != CarAccessibility::Forbidden
        || e.car_backward != CarAccessibility::Forbidden
        || e.bike_forward != BikeAccessibility::Forbidden
        || e.bike_backward != BikeAccessibility::Forbidden
        || e.train != TrainAccessibility::Forbidden)
}

/// Effect of a `highway` tag: road and path classes set the car class and
/// grant foot and bike access; motorway and trunk classes instead softly
/// forbid foot and bike.
pub open spec fn highway_spec(e: EdgeProperties, val: Seq<char>) -> EdgeProperties {
    if val == "cycleway"@ {
        EdgeProperties {
            bike_forward: allow_spec(e.bike_forward, BikeAccessibility::Track),
            foot: allow_spec(e.foot, FootAccessibility::Allowed),
            ..e
        }
    } else if val == "path"@ || val == "footway"@ || val == "steps"@ || val == "pedestrian"@ {
        EdgeProperties {
            bike_forward: allow_spec(e.bike_forward, BikeAccessibility::Allowed),
            foot: allow_spec(e.foot, FootAccessibility::Allowed),
            ..e
        }
    } else if val == "primary"@ || val == "primary_link"@ {
        EdgeProperties {
            car_forward: allow_spec(e.car_forward, CarAccessibility::Primary),
            foot: allow_spec(e.foot, FootAccessibility::Allowed),
            bike_forward: allow_spec(e.bike_forward, BikeAccessibility::Allowed),
            ..e
        }
    } else if val == "secondary"@ || val == "secondary_link"@ {
        EdgeProperties {
            car_forward: allow_spec(e.car_forward, CarAccessibility::Secondary),
            foot: allow_spec(e.foot, FootAccessibility::Allowed),
            bike_forward: allow_spec(e.bike_forward, BikeAccessibility::Allowed),
            ..e
        }
    } else if val == "tertiary"@ || val == "tertiary_link"@ {
        EdgeProperties {
            car_forward: allow_spec(e.car_forward, CarAccessibility::Tertiary),
            foot: allow_spec(e.foot, FootAccessibility::Allowed),
            bike_forward: allow_spec(e.bike_forward, BikeAccessibility::Allowed),
            ..e
        }
    } else if val == "unclassified"@ || val == "residential"@ || val == "living_street"@
        || val == "road"@ || val == "service"@ || val == "track"@ {
        EdgeProperties {
            car_forward: allow_spec(e.car_forward, CarAccessibility::Residential),
            foot: allow_spec(e.foot, FootAccessibility::Allowed),
            bike_forward: allow_spec(e.bike_forward, BikeAccessibility::Allowed),
            ..e
        }
    } else if val == "motorway"@ || val == "motorway_link"@ || val == "motorway_junction"@ {
        EdgeProperties {
            car_forward: allow_spec(e.car_forward, CarAccessibility::Motorway),
            foot: soft_forbid_spec(e.foot),
            bike_forward: soft_forbid_spec(e.bike_forward),
            ..e
        }
    } else if val == "trunk"@ || val == "trunk_link"@ {
        EdgeProperties {
            car_forward: allow_spec(e.car_forward, CarAccessibility::Trunk),
            foot: soft_forbid_spec(e.foot),
            bike_forward: soft_forbid_spec(e.bike_forward),
            ..e
        }
    } else {
        e
    }
}

/// Effect of a `motor_vehicle` tag: only `no` acts, forbidding forward car
/// traffic.
pub open spec fn motor_vehicle_spec(e: EdgeProperties, val: Seq<char>) -> EdgeProperties {
    if val == "no"@ {
        EdgeProperties { car_forward: forbid_spec(e.car_forward), ..e }
    } else {
        e
    }
}

/// Effect of a `foot` or `pedestrian` tag on the foot field.
pub open spec fn foot_tag_spec(e: EdgeProperties, val: Seq<char>) -> EdgeProperties {
    if val == "no"@ || val == "use_sidepath"@ {
        EdgeProperties { foot: forbid_spec(e.foot), ..e }
    } else if val == "yes"@ || val == "designated"@ || val == "official"@ {
        EdgeProperties { foot: force_allow_spec(e.foot, FootAccessibility::Allowed), ..e }
    } else if val == "unknown"@ {
        EdgeProperties { foot: allow_spec(e.foot, FootAccessibility::Unknown), ..e }
    } else {
        EdgeProperties { foot: allow_spec(e.foot, FootAccessibility::Allowed), ..e }
    }
}

/// Effect of a `path`, `sidewalk` or `crossing` tag, whatever its value: a
/// still-undecided foot field becomes `Allowed`.
pub open spec fn footpath_spec(e: EdgeProperties) -> EdgeProperties {
    if e.foot == FootAccessibility::Unknown {
        EdgeProperties { foot: allow_spec(e.foot, FootAccessibility::Allowed), ..e }
    } else {
        e
    }
}

/// Effect of a `cycleway` tag: a few values select specific forward or
/// backward facilities; anything else defaults to a forward lane.
pub open spec fn cycleway_spec(e: EdgeProperties, val: Seq<char>) -> EdgeProperties {
    if val == "track"@ {
        EdgeProperties { bike_forward: allow_spec(e.bike_forward, BikeAccessibility::Track), ..e }
    } else if val == "opposite_track"@ {
        EdgeProperties { bike_backward: allow_spec(e.bike_backward, BikeAccessibility::Track), ..e }
    } else if val == "opposite"@ {
        EdgeProperties { bike_backward: allow_spec(e.bike_backward, BikeAccessibility::Allowed), ..e }
    } else if val == "share_busway"@ {
        EdgeProperties { bike_forward: allow_spec(e.bike_forward, BikeAccessibility::Busway), ..e }
    } else if val == "lane_left"@ || val == "opposite_lane"@ {
        EdgeProperties { bike_backward: allow_spec(e.bike_backward, BikeAccessibility::Lane), ..e }
    } else {
        EdgeProperties { bike_forward: allow_spec(e.bike_forward, BikeAccessibility::Lane), ..e }
    }
}

/// Effect of a `bicycle` tag on the forward bike field.
pub open spec fn bicycle_spec(e: EdgeProperties, val: Seq<char>) -> EdgeProperties {
    if val == "no"@ || val == "false"@ || val == "use_sidepath"@ || val == "dismount"@ {
        EdgeProperties { bike_forward: forbid_spec(e.bike_forward), ..e }
    } else if val == "yes"@ || val == "official"@ {
        EdgeProperties { bike_forward: force_allow_spec(e.bike_forward, BikeAccessibility::Allowed), ..e }
    } else if val == "designated"@ {
        EdgeProperties { bike_forward: force_allow_spec(e.bike_forward, BikeAccessibility::Track), ..e }
    } else {
        EdgeProperties { bike_forward: allow_spec(e.bike_forward, BikeAccessibility::Allowed), ..e }
    }
}

/// Effect of a `busway` tag: opposite values grant a backward bus lane to
/// bikes, anything else a forward one.
pub open spec fn busway_spec(e: EdgeProperties, val: Seq<char>) -> EdgeProperties {
    if val == "opposite_lane"@ || val == "opposite_track"@ {
        EdgeProperties { bike_backward: allow_spec(e.bike_backward, BikeAccessibility::Busway), ..e }
    } else {
        EdgeProperties { bike_forward: allow_spec(e.bike_forward, BikeAccessibility::Busway), ..e }
    }
}

/// Effect of an affirmed `oneway` tag, and of `junction=roundabout`:
/// backward car traffic is forbidden, and a still-undecided backward bike
/// field is forbidden too.
pub open spec fn oneway_spec(e: EdgeProperties) -> EdgeProperties {
    EdgeProperties {
        car_backward: forbid_spec(e.car_backward),
        bike_backward: if e.bike_backward == BikeAccessibility::Unknown {
            forbid_spec(e.bike_backward)
        } else {
            e.bike_backward
        },
        ..e
    }
}

/// Effect of a `railway` tag: an out-of-service value forbids trains; any
/// other value allows them and softly forbids foot traffic.
pub open spec fn railway_spec(e: EdgeProperties, val: Seq<char>) -> EdgeProperties {
    if val == "abandoned"@ || val == "disused"@ || val == "razed"@ {
        EdgeProperties { train: forbid_spec(e.train), ..e }
    } else {
        EdgeProperties {
            train: allow_spec(e.train, TrainAccessibility::Allowed),
            foot: soft_forbid_spec(e.foot),
            ..e
        }
    }
}

/// Folding the dispatch table over a sequence of attribute pairs, first
/// pair first: the order is the caller's, and it matters where two
/// authoritative tags disagree.
pub open spec fn update_all_spec(e: EdgeProperties, tags: Seq<(String, String)>) -> EdgeProperties
    decreases tags.len(),
{
    if tags.len() == 0 {
        e
    } else {
        update_all_spec(update_spec(e, tags[0].0@, tags[0].1@), tags.drop_first())
    }
}

/// The whole dispatch table: what one `(key, value)` attribute pair does to
/// the record. Unrecognized keys and values leave it unchanged.
pub open spec fn update_spec(e: EdgeProperties, key: Seq<char>, val: Seq<char>) -> EdgeProperties {
    if key == "highway"@ {
        highway_spec(e, val)
    } else if key == "motor_vehicle"@ {
        motor_vehicle_spec(e, val)
    } else if key == "pedestrian"@ || key == "foot"@ {
        foot_tag_spec(e, val)
    } else if key == "path"@ || key == "sidewalk"@ || key == "crossing"@ {
        footpath_spec(e)
    } else if key == "cycleway"@ {
        cycleway_spec(e, val)
    } else if key == "bicycle"@ {
        bicycle_spec(e, val)
    } else if key == "busway"@ {
        busway_spec(e, val)
    } else if key == "oneway"@ {
        if val == "yes"@ || val == "true"@ || val == "1"@ {
            oneway_spec(e)
        } else {
            e
        }
    } else if key == "junction"@ {
        if val == "roundabout"@ {
            oneway_spec(e)
        } else {
            e
        }
    } else if key == "railway"@ {
        railway_spec(e, val)
    } else {
        e
    }
}

impl Default for EdgeProperties {
    /// The starting record of a fresh edge: every field `Unknown`.
    fn default() -> (e: EdgeProperties)
        ensures
            e == (EdgeProperties {
                foot: FootAccessibility::Unknown,
                car_forward: CarAccessibility::Unknown,
                car_backward: CarAccessibility::Unknown,
                bike_forward: BikeAccessibility::Unknown,
                bike_backward: BikeAccessibility::Unknown,
                train: TrainAccessibility::Unknown,
            }),
    {
        EdgeProperties {
            foot: FootAccessibility::Unknown,
            car_forward: CarAccessibility::Unknown,
            car_backward: CarAccessibility::Unknown,
            bike_forward: BikeAccessibility::Unknown,
            bike_backward: BikeAccessibility::Unknown,
            train: TrainAccessibility::Unknown,
        }
    }
}

impl EdgeProperties {
    /// Resolve the record once all attribute pairs have been applied:
    /// undecided backward directions inherit the forward value, and every
    /// remaining undecided field except foot becomes `Forbidden`.
    pub fn normalize(&mut self)
        ensures
            *final(self) == normalize_spec(*old(self)),
    {
        if self.car_backward == CarAccessibility::Unknown {
            self.car_backward = self.car_forward;
        }
        if self.bike_backward == BikeAccessibility::Unknown {
            self.bike_backward = self.bike_forward;
        }
        if self.car_forward == CarAccessibility::Unknown {
            self.car_forward = CarAccessibility::Forbidden;
        }
        if self.bike_forward == BikeAccessibility::Unknown {
            self.bike_forward = BikeAccessibility::Forbidden;
        }
        if self.car_backward == CarAccessibility::Unknown {
            self.car_backward = CarAccessibility::Forbidden;
        }
        if self.bike_backward == BikeAccessibility::Unknown {
            self.bike_backward = BikeAccessibility::Forbidden;
        }
        if self.train == TrainAccessibility::Unknown {
            self.train = TrainAccessibility::Forbidden;
        }
    }

    fn update_highway(&mut self, val: &str)
        ensures
            *final(self) == highway_spec(*old(self), val@),
    {
        if str_eq(val, "cycleway") {
            self.bike_forward.allow(BikeAccessibility::Track);
            self.foot.allow(FootAccessibility::Allowed);
        } else if str_eq(val, "path") || str_eq(val, "footway") || str_eq(val, "steps")
            || str_eq(val, "pedestrian") {
            self.bike_forward.allow(BikeAccessibility::Allowed);
            self.foot.allow(FootAccessibility::Allowed);
        } else if str_eq(val, "primary") || str_eq(val, "primary_link") {
            self.car_forward.allow(CarAccessibility::Primary);
            self.foot.allow(FootAccessibility::Allowed);
            self.bike_forward.allow(BikeAccessibility::Allowed);
        } else if str_eq(val, "secondary") || str_eq(val, "secondary_link") {
            self.car_forward.allow(CarAccessibility::Secondary);
            self.foot.allow(FootAccessibility::Allowed);
            self.bike_forward.allow(BikeAccessibility::Allowed);
        } else if str_eq(val, "tertiary") || str_eq(val, "tertiary_link") {
            self.car_forward.allow(CarAccessibility::Tertiary);
            self.foot.allow(FootAccessibility::Allowed);
            self.bike_forward.allow(BikeAccessibility::Allowed);
        } else if str_eq(val, "unclassified") || str_eq(val, "residential")
            || str_eq(val, "living_street") || str_eq(val, "road") || str_eq(val, "service")
            || str_eq(val, "track") {
            self.car_forward.allow(CarAccessibility::Residential);
            self.foot.allow(FootAccessibility::Allowed);
            self.bike_forward.allow(BikeAccessibility::Allowed);
        } else if str_eq(val, "motorway") || str_eq(val, "motorway_link")
            || str_eq(val, "motorway_junction") {
            self.car_forward.allow(CarAccessibility::Motorway);
            self.foot.soft_forbid();
            self.bike_forward.soft_forbid();
        } else if str_eq(val, "trunk") || str_eq(val, "trunk_link") {
            self.car_forward.allow(CarAccessibility::Trunk);
            self.foot.soft_forbid();
            self.bike_forward.soft_forbid();
        }
    }

    fn update_foot_tag(&mut self, val: &str)
        ensures
            *final(self) == foot_tag_spec(*old(self), val@),
    {
        if str_eq(val, "no") || str_eq(val, "use_sidepath") {
            self.foot.forbid();
        } else if str_eq(val, "yes") || str_eq(val, "designated") || str_eq(val, "official") {
            self.foot.force_allow(FootAccessibility::Allowed);
        } else if str_eq(val, "unknown") {
            self.foot.allow(FootAccessibility::Unknown);
        } else {
            self.foot.allow(FootAccessibility::Allowed);
        }
    }

    fn update_cycleway(&mut self, val: &str)
        ensures
            *final(self) == cycleway_spec(*old(self), val@),
    {
        if str_eq(val, "track") {
            self.bike_forward.allow(BikeAccessibility::Track);
        } else if str_eq(val, "opposite_track") {
            self.bike_backward.allow(BikeAccessibility::Track);
        } else if str_eq(val, "opposite") {
            self.bike_backward.allow(BikeAccessibility::Allowed);
        } else if str_eq(val, "share_busway") {
            self.bike_forward.allow(BikeAccessibility::Busway);
        } else if str_eq(val, "lane_left") || str_eq(val, "opposite_lane") {
            self.bike_backward.allow(BikeAccessibility::Lane);
        } else {
            self.bike_forward.allow(BikeAccessibility::Lane);
        }
    }

    fn update_bicycle(&mut self, val: &str)
        ensures
            *final(self) == bicycle_spec(*old(self), val@),
    {
        if str_eq(val, "no") || str_eq(val, "false") || str_eq(val, "use_sidepath")
            || str_eq(val, "dismount") {
            self.bike_forward.forbid();
        } else if str_eq(val, "yes") || str_eq(val, "official") {
            self.bike_forward.force_allow(BikeAccessibility::Allowed);
        } else if str_eq(val, "designated") {
            self.bike_forward.force_allow(BikeAccessibility::Track);
        } else {
            self.bike_forward.allow(BikeAccessibility::Allowed);
        }
    }

    fn update_oneway(&mut self)
        ensures
            *final(self) == oneway_spec(*old(self)),
    {
        self.car_backward.forbid();
        if self.bike_backward == BikeAccessibility::Unknown {
            self.bike_backward.forbid();
        }
    }

    fn update_railway(&mut self, val: &str)
        ensures
            *final(self) == railway_spec(*old(self), val@),
    {
        if str_eq(val, "abandoned") || str_eq(val, "disused") || str_eq(val, "razed") {
            self.train.forbid();
        } else {
            self.train.allow(TrainAccessibility::Allowed);
            self.foot.soft_forbid();
        }
    }

    /// Apply one `(key, value)` attribute pair to the record; unrecognized
    /// keys and values are no-ops. Never fails, whatever the strings hold.
    pub fn update_with_str(&mut self, key: &str, val: &str)
        ensures
            *final(self) == update_spec(*old(self), key@, val@),
    {
        if str_eq(key, "highway") {
            self.update_highway(val);
        } else if str_eq(key, "motor_vehicle") {
            if str_eq(val, "no") {
                self.car_forward.forbid();
            }
        } else if str_eq(key, "pedestrian") || str_eq(key, "foot") {
            self.update_foot_tag(val);
        } else if str_eq(key, "path") || str_eq(key, "sidewalk") || str_eq(key, "crossing") {
            if self.foot == FootAccessibility::Unknown {
                self.foot.allow(FootAccessibility::Allowed);
            }
        } else if str_eq(key, "cycleway") {
            self.update_cycleway(val);
        } else if str_eq(key, "bicycle") {
            self.update_bicycle(val);
        } else if str_eq(key, "busway") {
            if str_eq(val, "opposite_lane") || str_eq(val, "opposite_track") {
                self.bike_backward.allow(BikeAccessibility::Busway);
            } else {
                self.bike_forward.allow(BikeAccessibility::Busway);
            }
        } else if str_eq(key, "oneway") {
            if str_eq(val, "yes") || str_eq(val, "true") || str_eq(val, "1") {
                self.update_oneway();
            }
        } else if str_eq(key, "junction") {
            if str_eq(val, "roundabout") {
                self.update_oneway();
            }
        } else if str_eq(key, "railway") {
            self.update_railway(val);
        }
    }

    /// Apply one owned `(key, value)` attribute pair to the record.
    pub fn update(&mut self, key_string: String, val_string: String)
        ensures
            *final(self) == update_spec(*old(self), key_string@, val_string@),
    {
        let key = key_string.as_str();
        let val = val_string.as_str();
        self.update_with_str(key, val);
    }

    /// Apply a whole sequence of attribute pairs, in exactly the order
    /// given: the record an edge ends with is the left-to-right fold of the
    /// dispatch table over its pairs.
    pub fn update_all(&mut self, tags: &Vec<(String, String)>)
        ensures
            *final(self) == update_all_spec(*old(self), tags@),
    {
        let n = tags.len();
        let mut idx: usize = 0;
        proof {
            assert(tags@.skip(0) =~= tags@);
        }
        while idx < n
            invariant
                n == tags@.len(),
                0 <= idx <= n,
                update_all_spec(*old(self), tags@) == update_all_spec(
                    *self,
                    tags@.skip(idx as int),
                ),
            decreases n - idx,
        {
            let (key, val) = &tags[idx];
            proof {
                assert(tags@.skip(idx as int).drop_first() =~= tags@.skip(idx + 1));
            }
            self.update_with_str(key.as_str(), val.as_str());
            idx = idx + 1;
        }
        proof {
            assert(tags@.skip(n as int) =~= Seq::<(String, String)>::empty());
        }
    }

    /// At least one mode can use the edge in one direction, where a foot
    /// field still `Unknown` does not count as evidence on its own.
    pub fn accessible(self) -> (r: bool)
        ensures
            r == accessible_spec(self),
    {
        (self.bike_forward != BikeAccessibility::Forbidden
            || self.bike_backward != BikeAccessibility::Forbidden
            || self.car_forward != CarAccessibility::Forbidden
            || self.car_backward != CarAccessibility::Forbidden
            || self.foot != FootAccessibility::Forbidden
            || self.train != TrainAccessibility::Forbidden)
        && (self.foot != FootAccessibility::Unknown
            || self.car_forward != CarAccessibility::Forbidden
            || self.car_backward != CarAccessibility::Forbidden
            || self.bike_forward != BikeAccessibility::Forbidden
            || self.bike_backward != BikeAccessibility::Forbidden
            || self.train != TrainAccessibility::Forbidden)
    }
}

} // verus!
