use vstd::prelude::*;
use crate::coordinates::SpaceCoordinates;
use crate::dice::{new_roller, roll_dice, pick_weighted, WeightedChoice, is_weighted_pick};
use crate::text::{append_coordinates, append_decimal, coordinates_text, decimal};
use crate::celestial_types::{
    CelestialBodySize, CelestialBodySpecialTrait, CelestialBodyComposition, CelestialBodyWorldType,
    TelluricVolatileDensityDifference, TelluricRotationDifference, TelluricAxialTiltDifference,
    TelluricCoreDifference, TelluricGeologicActivity, TelluricMagneticFieldDifference,
    TelluricTerrainRelief, celestial_trait_kind,
};
use crate::disks::{CelestialRingComposition, CelestialRingDetails, CelestialRingLevel};

verus! {

/// What a roll on a peculiarity table gives a telluric body.
#[derive(Copy, Clone, PartialEq, Eq, Structural, Debug)]
pub enum Peculiarity {
    /// The body gains this peculiarity.
    Gains(CelestialBodySpecialTrait),
    /// The body gains an unusual magnetic field, whose strength is rolled apart.
    MagneticField,
    /// The body is less dense: its density bounds go down by one.
    LessDense,
    /// The body is denser: its density bounds go up by one.
    Denser,
}

/// The peculiarity table of large bodies (large planets and giants): each entry is the highest
/// roll that gives it and what it gives.
pub open spec fn large_body_peculiarities() -> Seq<(i64, Peculiarity)> {
    seq![
            (2i64, Peculiarity::Gains(CelestialBodySpecialTrait::UnusualVolatileDensity(TelluricVolatileDensityDifference::Poor))),
            (29i64, Peculiarity::Gains(CelestialBodySpecialTrait::UnusualVolatileDensity(TelluricVolatileDensityDifference::Rich))),
            (32i64, Peculiarity::Gains(CelestialBodySpecialTrait::UnusualRotation(TelluricRotationDifference::Slow))),
            (37i64, Peculiarity::Gains(CelestialBodySpecialTrait::UnusualRotation(TelluricRotationDifference::Fast))),
            (40i64, Peculiarity::Gains(CelestialBodySpecialTrait::UnusualAxialTilt(TelluricAxialTiltDifference::Minimal))),
            (49i64, Peculiarity::Gains(CelestialBodySpecialTrait::UnusualAxialTilt(TelluricAxialTiltDifference::Extreme))),
            (53i64, Peculiarity::Gains(CelestialBodySpecialTrait::UnusualCore(TelluricCoreDifference::Smaller))),
            (55i64, Peculiarity::Gains(CelestialBodySpecialTrait::UnusualCore(TelluricCoreDifference::Larger))),
            (59i64, Peculiarity::Gains(CelestialBodySpecialTrait::SpecificGeologicActivity(TelluricGeologicActivity::GeologicallyDead))),
            (69i64, Peculiarity::Gains(CelestialBodySpecialTrait::SpecificGeologicActivity(TelluricGeologicActivity::GeologicallyExtinct))),
            (74i64, Peculiarity::Gains(CelestialBodySpecialTrait::SpecificGeologicActivity(TelluricGeologicActivity::GeologicallyActive))),
            (79i64, Peculiarity::MagneticField),
            (84i64, Peculiarity::LessDense),
            (87i64, Peculiarity::Denser),
            (96i64, Peculiarity::Gains(CelestialBodySpecialTrait::SpecificTerrainRelief(TelluricTerrainRelief::FlatTerrain))),
            (98i64, Peculiarity::Gains(CelestialBodySpecialTrait::SpecificTerrainRelief(TelluricTerrainRelief::EquatorialRidge))),
            (99i64, Peculiarity::Gains(CelestialBodySpecialTrait::SpecificTerrainRelief(TelluricTerrainRelief::VariedTerrain))),
        ]
}

/// The peculiarity table of standard and small bodies: each entry is the highest roll that
/// gives it and what it gives.
pub open spec fn standard_body_peculiarities() -> Seq<(i64, Peculiarity)> {
    seq![
            (4i64, Peculiarity::Gains(CelestialBodySpecialTrait::UnusualVolatileDensity(TelluricVolatileDensityDifference::Poor))),
            (14i64, Peculiarity::Gains(CelestialBodySpecialTrait::UnusualVolatileDensity(TelluricVolatileDensityDifference::Rich))),
            (19i64, Peculiarity::Gains(CelestialBodySpecialTrait::UnusualRotation(TelluricRotationDifference::Slow))),
            (24i64, Peculiarity::Gains(CelestialBodySpecialTrait::UnusualRotation(TelluricRotationDifference::Fast))),
            (29i64, Peculiarity::Gains(CelestialBodySpecialTrait::UnusualAxialTilt(TelluricAxialTiltDifference::Minimal))),
            (34i64, Peculiarity::Gains(CelestialBodySpecialTrait::UnusualAxialTilt(TelluricAxialTiltDifference::Extreme))),
            (39i64, Peculiarity::Gains(CelestialBodySpecialTrait::UnusualCore(TelluricCoreDifference::Smaller))),
            (42i64, Peculiarity::Gains(CelestialBodySpecialTrait::UnusualCore(TelluricCoreDifference::Larger))),
            (44i64, Peculiarity::Gains(CelestialBodySpecialTrait::SpecificGeologicActivity(TelluricGeologicActivity::GeologicallyDead))),
            (49i64, Peculiarity::Gains(CelestialBodySpecialTrait::SpecificGeologicActivity(TelluricGeologicActivity::GeologicallyExtinct))),
            (64i64, Peculiarity::Gains(CelestialBodySpecialTrait::SpecificGeologicActivity(TelluricGeologicActivity::GeologicallyActive))),
            (76i64, Peculiarity::MagneticField),
            (81i64, Peculiarity::LessDense),
            (86i64, Peculiarity::Denser),
            (86i64, Peculiarity::Gains(CelestialBodySpecialTrait::SpecificTerrainRelief(TelluricTerrainRelief::FlatTerrain))),
            (98i64, Peculiarity::Gains(CelestialBodySpecialTrait::SpecificTerrainRelief(TelluricTerrainRelief::EquatorialRidge))),
            (99i64, Peculiarity::Gains(CelestialBodySpecialTrait::SpecificTerrainRelief(TelluricTerrainRelief::VariedTerrain))),
        ]
}

/// The peculiarity table of tiny bodies: each entry is the highest roll that gives it and what it
/// gives.
pub open spec fn tiny_body_peculiarities() -> Seq<(i64, Peculiarity)> {
    seq![
            (9i64, Peculiarity::Gains(CelestialBodySpecialTrait::UnusualVolatileDensity(TelluricVolatileDensityDifference::Poor))),
            (14i64, Peculiarity::Gains(CelestialBodySpecialTrait::UnusualVolatileDensity(TelluricVolatileDensityDifference::Rich))),
            (24i64, Peculiarity::Gains(CelestialBodySpecialTrait::UnusualRotation(TelluricRotationDifference::Slow))),
            (29i64, Peculiarity::Gains(CelestialBodySpecialTrait::UnusualRotation(TelluricRotationDifference::Fast))),
            (39i64, Peculiarity::Gains(CelestialBodySpecialTrait::UnusualAxialTilt(TelluricAxialTiltDifference::Minimal))),
            (44i64, Peculiarity::Gains(CelestialBodySpecialTrait::UnusualAxialTilt(TelluricAxialTiltDifference::Extreme))),
            (49i64, Peculiarity::Gains(CelestialBodySpecialTrait::UnusualCore(TelluricCoreDifference::Smaller))),
            (54i64, Peculiarity::Gains(CelestialBodySpecialTrait::UnusualCore(TelluricCoreDifference::Larger))),
            (59i64, Peculiarity::Gains(CelestialBodySpecialTrait::SpecificGeologicActivity(TelluricGeologicActivity::GeologicallyDead))),
            (67i64, Peculiarity::Gains(CelestialBodySpecialTrait::SpecificGeologicActivity(TelluricGeologicActivity::GeologicallyExtinct))),
            (69i64, Peculiarity::Gains(CelestialBodySpecialTrait::SpecificGeologicActivity(TelluricGeologicActivity::GeologicallyActive))),
            (74i64, Peculiarity::MagneticField),
            (79i64, Peculiarity::LessDense),
            (84i64, Peculiarity::Denser),
            (89i64, Peculiarity::Gains(CelestialBodySpecialTrait::SpecificTerrainRelief(TelluricTerrainRelief::FlatTerrain))),
            (98i64, Peculiarity::Gains(CelestialBodySpecialTrait::SpecificTerrainRelief(TelluricTerrainRelief::EquatorialRidge))),
            (99i64, Peculiarity::Gains(CelestialBodySpecialTrait::SpecificTerrainRelief(TelluricTerrainRelief::VariedTerrain))),
        ]
}

/// The peculiarity table of puny bodies: each entry is the highest roll that gives it and what it
/// gives.
pub open spec fn puny_body_peculiarities() -> Seq<(i64, Peculiarity)> {
    seq![
            (10i64, Peculiarity::Gains(CelestialBodySpecialTrait::UnusualRotation(TelluricRotationDifference::Slow))),
            (19i64, Peculiarity::Gains(CelestialBodySpecialTrait::UnusualRotation(TelluricRotationDifference::Fast))),
            (29i64, Peculiarity::Gains(CelestialBodySpecialTrait::UnusualAxialTilt(TelluricAxialTiltDifference::Minimal))),
            (34i64, Peculiarity::Gains(CelestialBodySpecialTrait::UnusualAxialTilt(TelluricAxialTiltDifference::Extreme))),
            (44i64, Peculiarity::MagneticField),
            (59i64, Peculiarity::LessDense),
            (64i64, Peculiarity::Denser),
            (69i64, Peculiarity::Gains(CelestialBodySpecialTrait::SpecificTerrainRelief(TelluricTerrainRelief::FlatTerrain))),
            (68i64, Peculiarity::Gains(CelestialBodySpecialTrait::SpecificTerrainRelief(TelluricTerrainRelief::VariedTerrain))),
        ]
}

fn large_body_peculiarities_table() -> (r: Vec<(i64, Peculiarity)>)
    ensures
        r@ == large_body_peculiarities(),
{
    let mut t: Vec<(i64, Peculiarity)> = Vec::new();
    t.push((2i64, Peculiarity::Gains(CelestialBodySpecialTrait::UnusualVolatileDensity(TelluricVolatileDensityDifference::Poor))));
    t.push((29i64, Peculiarity::Gains(CelestialBodySpecialTrait::UnusualVolatileDensity(TelluricVolatileDensityDifference::Rich))));
    t.push((32i64, Peculiarity::Gains(CelestialBodySpecialTrait::UnusualRotation(TelluricRotationDifference::Slow))));
    t.push((37i64, Peculiarity::Gains(CelestialBodySpecialTrait::UnusualRotation(TelluricRotationDifference::Fast))));
    t.push((40i64, Peculiarity::Gains(CelestialBodySpecialTrait::UnusualAxialTilt(TelluricAxialTiltDifference::Minimal))));
    t.push((49i64, Peculiarity::Gains(CelestialBodySpecialTrait::UnusualAxialTilt(TelluricAxialTiltDifference::Extreme))));
    t.push((53i64, Peculiarity::Gains(CelestialBodySpecialTrait::UnusualCore(TelluricCoreDifference::Smaller))));
    t.push((55i64, Peculiarity::Gains(CelestialBodySpecialTrait::UnusualCore(TelluricCoreDifference::Larger))));
    t.push((59i64, Peculiarity::Gains(CelestialBodySpecialTrait::SpecificGeologicActivity(TelluricGeologicActivity::GeologicallyDead))));
    t.push((69i64, Peculiarity::Gains(CelestialBodySpecialTrait::SpecificGeologicActivity(TelluricGeologicActivity::GeologicallyExtinct))));
    t.push((74i64, Peculiarity::Gains(CelestialBodySpecialTrait::SpecificGeologicActivity(TelluricGeologicActivity::GeologicallyActive))));
    t.push((79i64, Peculiarity::MagneticField));
    t.push((84i64, Peculiarity::LessDense));
    t.push((87i64, Peculiarity::Denser));
    t.push((96i64, Peculiarity::Gains(CelestialBodySpecialTrait::SpecificTerrainRelief(TelluricTerrainRelief::FlatTerrain))));
    t.push((98i64, Peculiarity::Gains(CelestialBodySpecialTrait::SpecificTerrainRelief(TelluricTerrainRelief::EquatorialRidge))));
    t.push((99i64, Peculiarity::Gains(CelestialBodySpecialTrait::SpecificTerrainRelief(TelluricTerrainRelief::VariedTerrain))));
    proof {
        assert(t@ =~= large_body_peculiarities());
    }
    t
}

fn standard_body_peculiarities_table() -> (r: Vec<(i64, Peculiarity)>)
    ensures
        r@ == standard_body_peculiarities(),
{
    let mut t: Vec<(i64, Peculiarity)> = Vec::new();
    t.push((4i64, Peculiarity::Gains(CelestialBodySpecialTrait::UnusualVolatileDensity(TelluricVolatileDensityDifference::Poor))));
    t.push((14i64, Peculiarity::Gains(CelestialBodySpecialTrait::UnusualVolatileDensity(TelluricVolatileDensityDifference::Rich))));
    t.push((19i64, Peculiarity::Gains(CelestialBodySpecialTrait::UnusualRotation(TelluricRotationDifference::Slow))));
    t.push((24i64, Peculiarity::Gains(CelestialBodySpecialTrait::UnusualRotation(TelluricRotationDifference::Fast))));
    t.push((29i64, Peculiarity::Gains(CelestialBodySpecialTrait::UnusualAxialTilt(TelluricAxialTiltDifference::Minimal))));
    t.push((34i64, Peculiarity::Gains(CelestialBodySpecialTrait::UnusualAxialTilt(TelluricAxialTiltDifference::Extreme))));
    t.push((39i64, Peculiarity::Gains(CelestialBodySpecialTrait::UnusualCore(TelluricCoreDifference::Smaller))));
    t.push((42i64, Peculiarity::Gains(CelestialBodySpecialTrait::UnusualCore(TelluricCoreDifference::Larger))));
    t.push((44i64, Peculiarity::Gains(CelestialBodySpecialTrait::SpecificGeologicActivity(TelluricGeologicActivity::GeologicallyDead))));
    t.push((49i64, Peculiarity::Gains(CelestialBodySpecialTrait::SpecificGeologicActivity(TelluricGeologicActivity::GeologicallyExtinct))));
    t.push((64i64, Peculiarity::Gains(CelestialBodySpecialTrait::SpecificGeologicActivity(TelluricGeologicActivity::GeologicallyActive))));
    t.push((76i64, Peculiarity::MagneticField));
    t.push((81i64, Peculiarity::LessDense));
    t.push((86i64, Peculiarity::Denser));
    t.push((86i64, Peculiarity::Gains(CelestialBodySpecialTrait::SpecificTerrainRelief(TelluricTerrainRelief::FlatTerrain))));
    t.push((98i64, Peculiarity::Gains(CelestialBodySpecialTrait::SpecificTerrainRelief(TelluricTerrainRelief::EquatorialRidge))));
    t.push((99i64, Peculiarity::Gains(CelestialBodySpecialTrait::SpecificTerrainRelief(TelluricTerrainRelief::VariedTerrain))));
    proof {
        assert(t@ =~= standard_body_peculiarities());
    }
    t
}

fn tiny_body_peculiarities_table() -> (r: Vec<(i64, Peculiarity)>)
    ensures
        r@ == tiny_body_peculiarities(),
{
    let mut t: Vec<(i64, Peculiarity)> = Vec::new();
    t.push((9i64, Peculiarity::Gains(CelestialBodySpecialTrait::UnusualVolatileDensity(TelluricVolatileDensityDifference::Poor))));
    t.push((14i64, Peculiarity::Gains(CelestialBodySpecialTrait::UnusualVolatileDensity(TelluricVolatileDensityDifference::Rich))));
    t.push((24i64, Peculiarity::Gains(CelestialBodySpecialTrait::UnusualRotation(TelluricRotationDifference::Slow))));
    t.push((29i64, Peculiarity::Gains(CelestialBodySpecialTrait::UnusualRotation(TelluricRotationDifference::Fast))));
    t.push((39i64, Peculiarity::Gains(CelestialBodySpecialTrait::UnusualAxialTilt(TelluricAxialTiltDifference::Minimal))));
    t.push((44i64, Peculiarity::Gains(CelestialBodySpecialTrait::UnusualAxialTilt(TelluricAxialTiltDifference::Extreme))));
    t.push((49i64, Peculiarity::Gains(CelestialBodySpecialTrait::UnusualCore(TelluricCoreDifference::Smaller))));
    t.push((54i64, Peculiarity::Gains(CelestialBodySpecialTrait::UnusualCore(TelluricCoreDifference::Larger))));
    t.push((59i64, Peculiarity::Gains(CelestialBodySpecialTrait::SpecificGeologicActivity(TelluricGeologicActivity::GeologicallyDead))));
    t.push((67i64, Peculiarity::Gains(CelestialBodySpecialTrait::SpecificGeologicActivity(TelluricGeologicActivity::GeologicallyExtinct))));
    t.push((69i64, Peculiarity::Gains(CelestialBodySpecialTrait::SpecificGeologicActivity(TelluricGeologicActivity::GeologicallyActive))));
    t.push((74i64, Peculiarity::MagneticField));
    t.push((79i64, Peculiarity::LessDense));
    t.push((84i64, Peculiarity::Denser));
    t.push((89i64, Peculiarity::Gains(CelestialBodySpecialTrait::SpecificTerrainRelief(TelluricTerrainRelief::FlatTerrain))));
    t.push((98i64, Peculiarity::Gains(CelestialBodySpecialTrait::SpecificTerrainRelief(TelluricTerrainRelief::EquatorialRidge))));
    t.push((99i64, Peculiarity::Gains(CelestialBodySpecialTrait::SpecificTerrainRelief(TelluricTerrainRelief::VariedTerrain))));
    proof {
        assert(t@ =~= tiny_body_peculiarities());
    }
    t
}

fn puny_body_peculiarities_table() -> (r: Vec<(i64, Peculiarity)>)
    ensures
        r@ == puny_body_peculiarities(),
{
    let mut t: Vec<(i64, Peculiarity)> = Vec::new();
    t.push((10i64, Peculiarity::Gains(CelestialBodySpecialTrait::UnusualRotation(TelluricRotationDifference::Slow))));
    t.push((19i64, Peculiarity::Gains(CelestialBodySpecialTrait::UnusualRotation(TelluricRotationDifference::Fast))));
    t.push((29i64, Peculiarity::Gains(CelestialBodySpecialTrait::UnusualAxialTilt(TelluricAxialTiltDifference::Minimal))));
    t.push((34i64, Peculiarity::Gains(CelestialBodySpecialTrait::UnusualAxialTilt(TelluricAxialTiltDifference::Extreme))));
    t.push((44i64, Peculiarity::MagneticField));
    t.push((59i64, Peculiarity::LessDense));
    t.push((64i64, Peculiarity::Denser));
    t.push((69i64, Peculiarity::Gains(CelestialBodySpecialTrait::SpecificTerrainRelief(TelluricTerrainRelief::FlatTerrain))));
    t.push((68i64, Peculiarity::Gains(CelestialBodySpecialTrait::SpecificTerrainRelief(TelluricTerrainRelief::VariedTerrain))));
    proof {
        assert(t@ =~= puny_body_peculiarities());
    }
    t
}

/// The peculiarity table of a body of the given size.
pub open spec fn peculiarity_table(size: CelestialBodySize) -> Seq<(i64, Peculiarity)> {
    match size {
        CelestialBodySize::Hypergiant | CelestialBodySize::Supergiant | CelestialBodySize::Giant
        | CelestialBodySize::Large => large_body_peculiarities(),
        CelestialBodySize::Standard | CelestialBodySize::Small => standard_body_peculiarities(),
        CelestialBodySize::Tiny => tiny_body_peculiarities(),
        CelestialBodySize::Puny => puny_body_peculiarities(),
    }
}

/// Returns the peculiarity table of a body of the given size.
pub fn get_peculiarity_table(size: CelestialBodySize) -> (r: Vec<(i64, Peculiarity)>)
    ensures
        r@ == peculiarity_table(size),
{
    match size {
        CelestialBodySize::Hypergiant | CelestialBodySize::Supergiant | CelestialBodySize::Giant
        | CelestialBodySize::Large => large_body_peculiarities_table(),
        CelestialBodySize::Standard | CelestialBodySize::Small => standard_body_peculiarities_table(),
        CelestialBodySize::Tiny => tiny_body_peculiarities_table(),
        CelestialBodySize::Puny => puny_body_peculiarities_table(),
    }
}

/// Whether one of `traits` is of the given kind.
pub open spec fn has_trait_kind(traits: Seq<CelestialBodySpecialTrait>, kind: u8) -> bool {
    exists|i: int| 0 <= i < traits.len() && #[trigger] celestial_trait_kind(traits[i]) == kind
}

/// Whether a body with the given peculiarities can still get `p`: a peculiarity only when it has
/// none of its kind, a change of density always.
pub open spec fn is_allowed(p: Peculiarity, traits: Seq<CelestialBodySpecialTrait>) -> bool {
    match p {
        Peculiarity::Gains(t) => !has_trait_kind(traits, celestial_trait_kind(t)),
        Peculiarity::MagneticField => !has_trait_kind(traits, 7),
        _ => true,
    }
}

/// What a roll gives on a peculiarity table: the first entry whose highest roll is not below the
/// roll and that the body can still get, or nothing.
pub open spec fn selected_peculiarity(
    table: Seq<(i64, Peculiarity)>,
    roll: i64,
    traits: Seq<CelestialBodySpecialTrait>,
) -> Option<Peculiarity>
    decreases table.len(),
{
    if table.len() == 0 {
        None
    } else if roll <= table[0].0 && is_allowed(table[0].1, traits) {
        Some(table[0].1)
    } else {
        selected_peculiarity(table.drop_first(), roll, traits)
    }
}

/// What a roll selects is an entry of the table, one the body can still get.
pub proof fn lemma_selected_is_in_table(
    table: Seq<(i64, Peculiarity)>,
    roll: i64,
    traits: Seq<CelestialBodySpecialTrait>,
)
    ensures
        selected_peculiarity(table, roll, traits) matches Some(p) ==> {
            &&& is_allowed(p, traits)
            &&& exists|k: int| 0 <= k < table.len() && (#[trigger] table[k]).1 == p
        },
    decreases table.len(),
{
    if table.len() > 0 && !(roll <= table[0].0 && is_allowed(table[0].1, traits)) {
        lemma_selected_is_in_table(table.drop_first(), roll, traits);
        if selected_peculiarity(table, roll, traits) is Some {
            let p = selected_peculiarity(table, roll, traits)->0;
            let k = choose|k: int| 0 <= k < table.drop_first().len() && (#[trigger] table.drop_first()[k]).1 == p;
            assert(table[k + 1] == table.drop_first()[k]);
        }
    }
}

/// Returns whether one of `traits` is of the given kind.
pub fn has_kind(traits: &Vec<CelestialBodySpecialTrait>, kind: u8) -> (r: bool)
    ensures
        r == has_trait_kind(traits@, kind),
{
    let mut i: usize = 0;
    while i < traits.len()
        invariant
            0 <= i <= traits.len(),
            forall|j: int| 0 <= j < i ==> celestial_trait_kind(#[trigger] traits@[j]) != kind,
        decreases traits.len() - i,
    {
        if traits[i].kind() == kind {
            return true;
        }
        i = i + 1;
    }
    false
}

fn peculiarity_allowed(p: Peculiarity, traits: &Vec<CelestialBodySpecialTrait>) -> (r: bool)
    ensures
        r == is_allowed(p, traits@),
{
    match p {
        Peculiarity::Gains(t) => !has_kind(traits, t.kind()),
        Peculiarity::MagneticField => !has_kind(traits, 7),
        _ => true,
    }
}

/// Returns what a roll gives a body of the given size and peculiarities: the first entry of its
/// peculiarity table whose highest roll is not below the roll and that the body can still get.
pub fn select_peculiarity(size: CelestialBodySize, roll: i64, traits: &Vec<CelestialBodySpecialTrait>) -> (r: Option<Peculiarity>)
    ensures
        r == selected_peculiarity(peculiarity_table(size), roll, traits@),
{
    let table = get_peculiarity_table(size);
    let mut i: usize = 0;
    proof {
        assert(table@.skip(0) == table@);
    }
    while i < table.len()
        invariant
            0 <= i <= table.len(),
            table@ == peculiarity_table(size),
            selected_peculiarity(table@, roll, traits@) == selected_peculiarity(table@.skip(i as int), roll, traits@),
        decreases table.len() - i,
    {
        let (highest, p) = table[i];
        proof {
            assert(table@.skip(i as int)[0] == table@[i as int]);
            assert(table@.skip(i as int).drop_first() == table@.skip(i + 1));
        }
        if roll <= highest && peculiarity_allowed(p, traits) {
            return Some(p);
        }
        i = i + 1;
    }
    None
}

/// The magnetic field difference a four-sided die gives: 1 much weaker, 2 weaker, 3 stronger,
/// 4 and up much stronger.
pub open spec fn magnetic_field_for_roll(roll: i64) -> TelluricMagneticFieldDifference {
    if roll <= 1 {
        TelluricMagneticFieldDifference::MuchWeaker
    } else if roll <= 2 {
        TelluricMagneticFieldDifference::Weaker
    } else if roll <= 3 {
        TelluricMagneticFieldDifference::Stronger
    } else {
        TelluricMagneticFieldDifference::MuchStronger
    }
}

/// Returns the magnetic field difference a four-sided die roll gives.
pub fn magnetic_field_difference_from_roll(roll: i64) -> (r: TelluricMagneticFieldDifference)
    ensures
        r == magnetic_field_for_roll(roll),
{
    if roll <= 1 {
        TelluricMagneticFieldDifference::MuchWeaker
    } else if roll <= 2 {
        TelluricMagneticFieldDifference::Weaker
    } else if roll <= 3 {
        TelluricMagneticFieldDifference::Stronger
    } else {
        TelluricMagneticFieldDifference::MuchStronger
    }
}

/// Rolls a four-sided die for the magnetic field difference of a body; which side comes up
/// depends on the roller and is not stated.
pub fn generate_magnetic_field_difference(rng: &mut seeded_dice_roller::SeededDiceRoller) -> (r: TelluricMagneticFieldDifference)
    ensures
        exists|roll: i64| 1 <= roll <= 4 && r == magnetic_field_for_roll(roll),
{
    let roll = roll_dice(rng, 1, 4, 0);
    magnetic_field_difference_from_roll(roll)
}

/// Whether `t` is a peculiarity the table of a body of the given size can give.
pub open spec fn is_offered(size: CelestialBodySize, t: CelestialBodySpecialTrait) -> bool {
    exists|k: int|
        0 <= k < peculiarity_table(size).len() && {
            let p = (#[trigger] peculiarity_table(size)[k]).1;
            p == Peculiarity::Gains(t) || (p == Peculiarity::MagneticField && t is UnusualMagneticField)
        }
}

/// The name of the step of a body's peculiarities: `sys_{coord}_{system}_str_{star}_bdy{body}_spec`.
pub fn peculiarity_step(coord: SpaceCoordinates, system_index: u16, star_id: u32, orbital_point_id: u32) -> (r: String)
    ensures
        r@ == "sys_"@ + coordinates_text(coord) + "_"@ + decimal(system_index as nat) + "_str_"@ + decimal(
            star_id as nat,
        ) + "_bdy"@ + decimal(orbital_point_id as nat) + "_spec"@,
{
    let mut s = String::from_str("sys_");
    append_coordinates(&mut s, coord);
    s.append("_");
    append_decimal(&mut s, system_index as u64);
    s.append("_str_");
    append_decimal(&mut s, star_id as u64);
    s.append("_bdy");
    append_decimal(&mut s, orbital_point_id as u64);
    s.append("_spec");
    proof {
        assert(s@ =~= "sys_"@ + coordinates_text(coord) + "_"@ + decimal(system_index as nat) + "_str_"@
            + decimal(star_id as nat) + "_bdy"@ + decimal(orbital_point_id as nat) + "_spec"@);
    }
    s
}

/// Whether every peculiarity of `traits` from position `from` on is one the table of a body of
/// the given size offers, of a kind no peculiarity before it has.
pub open spec fn are_new_peculiarities(size: CelestialBodySize, traits: Seq<CelestialBodySpecialTrait>, from: int) -> bool {
    forall|i: int|
        from <= i < traits.len() ==> {
            &&& is_offered(size, #[trigger] traits[i])
            &&& !has_trait_kind(traits.take(i), celestial_trait_kind(traits[i]))
        }
}

/// How many times a list of picks from a peculiarity table moves the density bounds: up one for
/// each pick making the body denser, down one for each making it less dense.
pub open spec fn density_shift_of(picks: Seq<Peculiarity>) -> int
    decreases picks.len(),
{
    if picks.len() == 0 {
        0
    } else {
        density_shift_of(picks.drop_last()) + match picks.last() {
            Peculiarity::Denser => 1int,
            Peculiarity::LessDense => -1int,
            _ => 0int,
        }
    }
}

/// How many peculiarities a list of picks from a peculiarity table gives the body: one for each
/// pick that is not a change of density.
pub open spec fn gained_count(picks: Seq<Peculiarity>) -> int
    decreases picks.len(),
{
    if picks.len() == 0 {
        0
    } else {
        gained_count(picks.drop_last()) + match picks.last() {
            Peculiarity::Denser | Peculiarity::LessDense => 0int,
            _ => 1int,
        }
    }
}

/// Whether every pick is an entry of the peculiarity table of a body of the given size.
pub open spec fn are_table_picks(size: CelestialBodySize, picks: Seq<Peculiarity>) -> bool {
    forall|i: int|
        0 <= i < picks.len() ==> exists|k: int|
            0 <= k < peculiarity_table(size).len() && (#[trigger] peculiarity_table(size)[k]).1
                == #[trigger] picks[i]
}

/// The roll a turn of peculiarity rolls uses: the first roll, or the second one when the first
/// is above 120.
pub open spec fn turn_roll(first_roll: i64, second_roll: i64) -> i64 {
    if first_roll > 120 {
        second_roll
    } else {
        first_roll
    }
}

/// How a pick from a peculiarity table moves the density bounds: up one for a denser body, down
/// one for a less dense one.
pub open spec fn pick_shift(pick: Option<Peculiarity>) -> int {
    match pick {
        Some(Peculiarity::Denser) => 1,
        Some(Peculiarity::LessDense) => -1,
        _ => 0,
    }
}

/// One turn of the peculiarity rolls of a body of the given size and peculiarities: a first roll
/// above 120 (a 121 on the 121-sided die) means that the second roll, of a 120-sided die, is
/// used instead and that the body rolls again. The roll used selects a pick on the body's
/// peculiarity table, and the returned shift is how that pick moves the density bounds.
pub fn peculiarity_turn(
    size: CelestialBodySize,
    first_roll: i64,
    second_roll: i64,
    traits: &Vec<CelestialBodySpecialTrait>,
) -> (r: (bool, Option<Peculiarity>, i64))
    ensures
        r.0 == (first_roll > 120),
        r.1 == selected_peculiarity(peculiarity_table(size), turn_roll(first_roll, second_roll), traits@),
        r.2 == pick_shift(r.1),
{
    let reroll = first_roll > 120;
    let roll = if reroll { second_roll } else { first_roll };
    let pick = select_peculiarity(size, roll, traits);
    let shift: i64 = match pick {
        Some(Peculiarity::Denser) => 1,
        Some(Peculiarity::LessDense) => -1,
        _ => 0,
    };
    (reroll, pick, shift)
}

/// Whether a turn of peculiarity rolls, as (roll of the 121-sided die, roll of the 120-sided die,
/// roll of the four-sided die for a magnetic field), holds values the dice can give: the second
/// roll only counts after a 121.
pub open spec fn is_peculiarity_turn(t: (i64, i64, i64)) -> bool {
    &&& 1 <= t.0 <= 121
    &&& t.0 > 120 ==> 1 <= t.1 <= 120
    &&& 1 <= t.2 <= 4
}

/// The peculiarities and the density shift a body of the given size with the peculiarities
/// `traits` gets from a sequence of turns of peculiarity rolls: each turn selects a pick with the
/// roll it uses, a peculiarity picked is added (a magnetic field with the difference of the
/// four-sided die), and a change of density moves the shift.
pub open spec fn peculiarities_after(
    size: CelestialBodySize,
    traits: Seq<CelestialBodySpecialTrait>,
    turns: Seq<(i64, i64, i64)>,
) -> (Seq<CelestialBodySpecialTrait>, int)
    decreases turns.len(),
{
    if turns.len() == 0 {
        (traits, 0)
    } else {
        let prev = peculiarities_after(size, traits, turns.drop_last());
        let t = turns.last();
        let pick = selected_peculiarity(peculiarity_table(size), turn_roll(t.0, t.1), prev.0);
        let ts = match pick {
            Some(Peculiarity::Gains(g)) => prev.0.push(g),
            Some(Peculiarity::MagneticField) => prev.0.push(
                CelestialBodySpecialTrait::UnusualMagneticField(magnetic_field_for_roll(t.2)),
            ),
            _ => prev.0,
        };
        (ts, prev.1 + pick_shift(pick))
    }
}

/// Whether `turns` can be the turns of peculiarity rolls of a body: at least one turn, each with
/// values the dice can give, every turn but the last one starting with a 121, and the last one
/// starting below 121 unless the rolls stopped after 2^32 - 1 turns.
pub open spec fn are_peculiarity_turns(turns: Seq<(i64, i64, i64)>) -> bool {
    &&& 1 <= turns.len() <= u32::MAX
    &&& forall|i: int| 0 <= i < turns.len() ==> is_peculiarity_turn(#[trigger] turns[i])
    &&& forall|i: int| 0 <= i < turns.len() - 1 ==> (#[trigger] turns[i]).0 == 121
    &&& turns.len() < u32::MAX ==> turns.last().0 <= 120
}

/// Generates the peculiarities of a telluric body of the given size with the step
/// `sys_{coord}_{system}_str_{star}_bdy{body}_spec`: a 121-sided die is rolled on the body's
/// peculiarity table, and on a 121 a 120-sided die is rolled instead and the body rolls again.
/// The peculiarities it gains are added to `special_traits`, and the returned number is how many
/// times its density bounds go up (down when negative). The rolls depend on the seed and are not
/// stated: what is stated is that the list and the number are what the turns of rolls give,
/// that the roll gives at most one pick from the table per roll of the 121-sided die (at most
/// 2^32 - 1 of them), that the returned number is the count of picks making the body denser
/// minus those making it less dense, that one peculiarity is added per other pick, and that
/// every peculiarity added is one the table offers, of a kind the body did not have yet. The
/// rolls stop after 2^32 - 1 turns even if the last one was a 121: a bound of this library that
/// only a run of that many 121s in a row reaches.
pub fn generate_peculiarities(
    seed: &str,
    coord: SpaceCoordinates,
    system_index: u16,
    star_id: u32,
    orbital_point_id: u32,
    size: CelestialBodySize,
    special_traits: &mut Vec<CelestialBodySpecialTrait>,
) -> (r: i64)
    ensures
        exists|turns: Seq<(i64, i64, i64)>| {
            &&& are_peculiarity_turns(turns)
            &&& #[trigger] peculiarities_after(size, old(special_traits)@, turns) == (final(special_traits)@, r as int)
        },
        final(special_traits)@.len() >= old(special_traits)@.len(),
        final(special_traits)@.take(old(special_traits)@.len() as int) == old(special_traits)@,
        are_new_peculiarities(size, final(special_traits)@, old(special_traits)@.len() as int),
        exists|picks: Seq<Peculiarity>| {
            &&& picks.len() <= u32::MAX
            &&& are_table_picks(size, picks)
            &&& r == density_shift_of(picks)
            &&& final(special_traits)@.len() == old(special_traits)@.len() + gained_count(picks)
        },
{
    let ghost start = special_traits@.len();
    let ghost mut picks: Seq<Peculiarity> = Seq::empty();
    let ghost mut turns: Seq<(i64, i64, i64)> = Seq::empty();
    let mut rng = new_roller(seed, peculiarity_step(coord, system_index, star_id, orbital_point_id).as_str());
    let mut density_shift: i64 = 0;
    let mut reroll = true;
    let mut turn_count: u32 = 0;
    while reroll && turn_count < u32::MAX
        invariant
            special_traits@.len() >= start,
            start == old(special_traits)@.len(),
            special_traits@.take(start as int) == old(special_traits)@,
            are_new_peculiarities(size, special_traits@, start as int),
            -(turn_count as int) <= density_shift <= turn_count,
            picks.len() <= turn_count,
            are_table_picks(size, picks),
            density_shift == density_shift_of(picks),
            special_traits@.len() == start + gained_count(picks),
            turns.len() == turn_count,
            forall|i: int| 0 <= i < turns.len() ==> is_peculiarity_turn(#[trigger] turns[i]),
            forall|i: int| 0 <= i < turns.len() - 1 ==> (#[trigger] turns[i]).0 == 121,
            turns.len() == 0 ==> reroll,
            turns.len() > 0 ==> reroll == (turns.last().0 == 121),
            peculiarities_after(size, old(special_traits)@, turns) == (special_traits@, density_shift as int),
        decreases u32::MAX - turn_count,
    {
        let first_roll = roll_dice(&mut rng, 1, 121, 0);
        let second_roll = if first_roll > 120 {
            roll_dice(&mut rng, 1, 120, 0)
        } else {
            0
        };
        let (again, selected, shift) = peculiarity_turn(size, first_roll, second_roll, special_traits);
        reroll = again;
        proof {
            lemma_selected_is_in_table(peculiarity_table(size), turn_roll(first_roll, second_roll), special_traits@);
        }
        let ghost before = special_traits@;
        let ghost mut field_roll: i64 = 1;
        proof {
            if selected is Some {
                let p = selected->0;
                let next = picks.push(p);
                assert(next.drop_last() == picks);
                assert forall|i: int| 0 <= i < next.len() implies exists|k: int|
                    0 <= k < peculiarity_table(size).len() && (#[trigger] peculiarity_table(size)[k]).1
                        == #[trigger] next[i] by {
                    if i < picks.len() {
                        assert(next[i] == picks[i]);
                    }
                }
                picks = next;
            }
        }
        match selected {
            Some(Peculiarity::Gains(t)) => {
                special_traits.push(t);
                proof {
                    lemma_new_peculiarity_added(size, before, t, start as int);
                }
            },
            Some(Peculiarity::MagneticField) => {
                let magnetic_field = generate_magnetic_field_difference(&mut rng);
                proof {
                    field_roll = choose|roll: i64| 1 <= roll <= 4 && magnetic_field == magnetic_field_for_roll(roll);
                }
                let t = CelestialBodySpecialTrait::UnusualMagneticField(magnetic_field);
                special_traits.push(t);
                proof {
                    lemma_new_peculiarity_added(size, before, t, start as int);
                }
            },
            _ => {},
        }
        density_shift = density_shift + shift;
        proof {
            let next = turns.push((first_roll, second_roll, field_roll));
            assert(next.drop_last() == turns);
            assert forall|i: int| 0 <= i < next.len() - 1 implies (#[trigger] next[i]).0 == 121 by {
                assert(next[i] == turns[i]);
            }
            assert forall|i: int| 0 <= i < next.len() implies is_peculiarity_turn(#[trigger] next[i]) by {
                if i < turns.len() {
                    assert(next[i] == turns[i]);
                }
            }
            turns = next;
        }
        turn_count = turn_count + 1;
    }
    assert(picks.len() <= u32::MAX);
    assert(are_peculiarity_turns(turns));
    density_shift
}

/// Adding a peculiarity the table offers, of a kind the list does not have, keeps the list's new
/// peculiarities new and its beginning unchanged.
proof fn lemma_new_peculiarity_added(
    size: CelestialBodySize,
    traits: Seq<CelestialBodySpecialTrait>,
    t: CelestialBodySpecialTrait,
    from: int,
)
    requires
        0 <= from <= traits.len(),
        are_new_peculiarities(size, traits, from),
        is_offered(size, t),
        !has_trait_kind(traits, celestial_trait_kind(t)),
    ensures
        are_new_peculiarities(size, traits.push(t), from),
        traits.push(t).take(from) == traits.take(from),
{
    let next = traits.push(t);
    assert(next.take(traits.len() as int) == traits);
    assert forall|i: int| from <= i < next.len() implies {
        &&& is_offered(size, #[trigger] next[i])
        &&& !has_trait_kind(next.take(i), celestial_trait_kind(next[i]))
    } by {
        if i < traits.len() {
            assert(next.take(i) == traits.take(i));
            assert(next[i] == traits[i]);
        }
    }
}

/// The table of a puny body only offers peculiarities of rotation, axial tilt, magnetic field and
/// terrain relief: never of volatiles, core or geologic activity.
pub proof fn lemma_puny_peculiarities(t: CelestialBodySpecialTrait)
    requires
        is_offered(CelestialBodySize::Puny, t),
    ensures
        t is UnusualRotation || t is UnusualAxialTilt || t is UnusualMagneticField || t is SpecificTerrainRelief,
{
    let k = choose|k: int|
        0 <= k < peculiarity_table(CelestialBodySize::Puny).len() && {
            let p = (#[trigger] peculiarity_table(CelestialBodySize::Puny)[k]).1;
            p == Peculiarity::Gains(t) || (p == Peculiarity::MagneticField && t is UnusualMagneticField)
        };
    assert(0 <= k < 9);
}

/// The size class just below the given one; puny bodies stay puny.
pub open spec fn smaller_size(size: CelestialBodySize) -> CelestialBodySize {
    match size {
        CelestialBodySize::Hypergiant => CelestialBodySize::Supergiant,
        CelestialBodySize::Supergiant => CelestialBodySize::Giant,
        CelestialBodySize::Giant => CelestialBodySize::Large,
        CelestialBodySize::Large => CelestialBodySize::Standard,
        CelestialBodySize::Standard => CelestialBodySize::Small,
        CelestialBodySize::Small => CelestialBodySize::Tiny,
        CelestialBodySize::Tiny | CelestialBodySize::Puny => CelestialBodySize::Puny,
    }
}

/// Returns the size class of a world downsized: whatever the number of steps asked, every step
/// starts again from the given size, so the world ends one class smaller, puny worlds staying
/// puny.
pub fn downsize_world_by(size: CelestialBodySize, number: u8) -> (r: CelestialBodySize)
    ensures
        r == smaller_size(size),
{
    let mut running_number = number;
    let mut new_size;
    loop
        invariant_except_break
            running_number <= number,
        ensures
            new_size == smaller_size(size),
        decreases running_number,
    {
        new_size = if size == CelestialBodySize::Hypergiant {
            CelestialBodySize::Supergiant
        } else if size == CelestialBodySize::Supergiant {
            CelestialBodySize::Giant
        } else if size == CelestialBodySize::Giant {
            CelestialBodySize::Large
        } else if size == CelestialBodySize::Large {
            CelestialBodySize::Standard
        } else if size == CelestialBodySize::Standard {
            CelestialBodySize::Small
        } else if size == CelestialBodySize::Small {
            CelestialBodySize::Tiny
        } else {
            CelestialBodySize::Puny
        };
        if running_number < 1 {
            break;
        }
        running_number = running_number - 1;
    }
    new_size
}

/// The size class of a moon of a body of the given size from a roll of three six-sided dice: 11
/// or less gives the smallest moons, 12 to 14 middling ones, 15 and up the largest.
pub open spec fn moon_size_for_roll(size: CelestialBodySize, roll: i64) -> CelestialBodySize {
    if roll <= 11 {
        match size {
            CelestialBodySize::Hypergiant => CelestialBodySize::Large,
            CelestialBodySize::Supergiant => CelestialBodySize::Standard,
            CelestialBodySize::Giant => CelestialBodySize::Small,
            CelestialBodySize::Large => CelestialBodySize::Tiny,
            _ => CelestialBodySize::Puny,
        }
    } else if roll <= 14 {
        match size {
            CelestialBodySize::Hypergiant | CelestialBodySize::Supergiant => CelestialBodySize::Large,
            CelestialBodySize::Giant => CelestialBodySize::Standard,
            CelestialBodySize::Large => CelestialBodySize::Small,
            CelestialBodySize::Standard => CelestialBodySize::Tiny,
            _ => CelestialBodySize::Puny,
        }
    } else {
        match size {
            CelestialBodySize::Hypergiant | CelestialBodySize::Supergiant | CelestialBodySize::Giant =>
                CelestialBodySize::Large,
            CelestialBodySize::Large => CelestialBodySize::Standard,
            CelestialBodySize::Standard => CelestialBodySize::Small,
            CelestialBodySize::Small => CelestialBodySize::Tiny,
            _ => CelestialBodySize::Puny,
        }
    }
}

/// Returns the size class of a moon of a body of the given size from a roll of three six-sided
/// dice.
pub fn moon_size_from_roll(size: CelestialBodySize, roll: i64) -> (r: CelestialBodySize)
    ensures
        r == moon_size_for_roll(size, roll),
{
    if roll <= 11 {
        match size {
            CelestialBodySize::Hypergiant => CelestialBodySize::Large,
            CelestialBodySize::Supergiant => CelestialBodySize::Standard,
            CelestialBodySize::Giant => CelestialBodySize::Small,
            CelestialBodySize::Large => CelestialBodySize::Tiny,
            _ => CelestialBodySize::Puny,
        }
    } else if roll <= 14 {
        match size {
            CelestialBodySize::Hypergiant | CelestialBodySize::Supergiant => CelestialBodySize::Large,
            CelestialBodySize::Giant => CelestialBodySize::Standard,
            CelestialBodySize::Large => CelestialBodySize::Small,
            CelestialBodySize::Standard => CelestialBodySize::Tiny,
            _ => CelestialBodySize::Puny,
        }
    } else {
        match size {
            CelestialBodySize::Hypergiant | CelestialBodySize::Supergiant | CelestialBodySize::Giant =>
                CelestialBodySize::Large,
            CelestialBodySize::Large => CelestialBodySize::Standard,
            CelestialBodySize::Standard => CelestialBodySize::Small,
            CelestialBodySize::Small => CelestialBodySize::Tiny,
            _ => CelestialBodySize::Puny,
        }
    }
}

/// Rolls three six-sided dice for the size class of a moon of a body of the given size; the roll
/// depends on the roller and is not stated.
pub fn generate_moon_size(rng: &mut seeded_dice_roller::SeededDiceRoller, size: CelestialBodySize) -> (r: CelestialBodySize)
    ensures
        exists|roll: i64| 3 <= roll <= 18 && r == moon_size_for_roll(size, roll),
{
    let size_roll = roll_dice(rng, 3, 6, 0);
    moon_size_from_roll(size, size_roll)
}

/// The rank of a size class, from 0 for hypergiants to 7 for puny bodies.
pub open spec fn size_rank(size: CelestialBodySize) -> int {
    match size {
        CelestialBodySize::Hypergiant => 0,
        CelestialBodySize::Supergiant => 1,
        CelestialBodySize::Giant => 2,
        CelestialBodySize::Large => 3,
        CelestialBodySize::Standard => 4,
        CelestialBodySize::Small => 5,
        CelestialBodySize::Tiny => 6,
        CelestialBodySize::Puny => 7,
    }
}

/// A moon is never larger than a large planet, and always smaller than the body it orbits unless
/// both are puny.
pub proof fn lemma_moon_smaller_than_its_body(size: CelestialBodySize, roll: i64)
    ensures
        size_rank(moon_size_for_roll(size, roll)) >= 3,
        size_rank(moon_size_for_roll(size, roll)) > size_rank(size) || size == CelestialBodySize::Puny,
{
}

/// The kind of world a body is, from its size, composition and blackbody temperature in kelvins,
/// and whether its primary star is lighter than 0.65 solar masses.
pub open spec fn world_type(
    size: CelestialBodySize,
    body_type: CelestialBodyComposition,
    t: u32,
    light_primary_star: bool,
) -> CelestialBodyWorldType {
    let icy = body_type == CelestialBodyComposition::Icy;
    match size {
        CelestialBodySize::Puny | CelestialBodySize::Tiny => {
            if t <= 140 && !icy {
                CelestialBodyWorldType::DirtySnowball
            } else if t <= 140 {
                CelestialBodyWorldType::Ice
            } else {
                CelestialBodyWorldType::Rock
            }
        },
        CelestialBodySize::Small => {
            if t <= 80 {
                CelestialBodyWorldType::Hadean
            } else if t <= 140 && !icy {
                CelestialBodyWorldType::DirtySnowball
            } else if t <= 140 {
                CelestialBodyWorldType::Ice
            } else {
                CelestialBodyWorldType::Rock
            }
        },
        CelestialBodySize::Standard => {
            if t <= 80 {
                CelestialBodyWorldType::Hadean
            } else if t > 151 && t <= 230 && light_primary_star {
                CelestialBodyWorldType::Ammonia
            } else if t <= 240 && !icy {
                CelestialBodyWorldType::DirtySnowball
            } else if t <= 240 {
                CelestialBodyWorldType::Ice
            } else if t <= 320 && !icy {
                CelestialBodyWorldType::Terrestrial
            } else if t <= 320 {
                CelestialBodyWorldType::Ocean
            } else if t <= 500 {
                CelestialBodyWorldType::Greenhouse
            } else {
                CelestialBodyWorldType::Chthonian
            }
        },
        CelestialBodySize::Large => {
            if t > 151 && t <= 230 && light_primary_star {
                CelestialBodyWorldType::Ammonia
            } else if t <= 240 && !icy {
                CelestialBodyWorldType::DirtySnowball
            } else if t <= 240 {
                CelestialBodyWorldType::Ice
            } else if t <= 320 {
                CelestialBodyWorldType::Terrestrial
            } else if t <= 500 {
                CelestialBodyWorldType::Greenhouse
            } else {
                CelestialBodyWorldType::Chthonian
            }
        },
        _ => CelestialBodyWorldType::VolatilesGiant,
    }
}

/// The kind of world follows the temperature: gas giants are volatiles giants whatever it is;
/// rocks, hadean, snowball, ice and ammonia worlds are cold, terrestrial and ocean worlds are
/// temperate (241 to 320 K), greenhouse worlds are hot (321 to 500 K) and chthonian ones hotter
/// still; a standard or large world takes the kind of its temperature band, ammonia worlds only
/// circle light stars, and of the cold worlds only icy bodies are ice worlds.
pub proof fn lemma_world_type_by_temperature(
    size: CelestialBodySize,
    body_type: CelestialBodyComposition,
    t: u32,
    light_primary_star: bool,
)
    ensures
        ({
            let w = world_type(size, body_type, t, light_primary_star);
            let giant = size is Hypergiant || size is Supergiant || size is Giant;
            let midsize = size is Standard || size is Large;
            let icy = body_type == CelestialBodyComposition::Icy;
            &&& giant <==> w == CelestialBodyWorldType::VolatilesGiant
            &&& midsize && 321 <= t <= 500 ==> w == CelestialBodyWorldType::Greenhouse
            &&& midsize && t > 500 ==> w == CelestialBodyWorldType::Chthonian
            &&& midsize && 241 <= t <= 320 ==> w == (if size is Standard && icy {
                CelestialBodyWorldType::Ocean
            } else {
                CelestialBodyWorldType::Terrestrial
            })
            &&& w == CelestialBodyWorldType::Greenhouse ==> midsize && 321 <= t <= 500
            &&& w == CelestialBodyWorldType::Chthonian ==> midsize && t > 500
            &&& w == CelestialBodyWorldType::Terrestrial ==> midsize && 241 <= t <= 320 && !(size is Standard && icy)
            &&& w == CelestialBodyWorldType::Ocean ==> size is Standard && icy && 241 <= t <= 320
            &&& w == CelestialBodyWorldType::Ammonia ==> midsize && light_primary_star && 152 <= t <= 230
            &&& midsize && light_primary_star && 152 <= t <= 230 && !(size is Standard && t <= 80)
                ==> w == CelestialBodyWorldType::Ammonia
            &&& w == CelestialBodyWorldType::Hadean ==> (size is Small || size is Standard) && t <= 80
            &&& (size is Small || size is Standard) && t <= 80 ==> w == CelestialBodyWorldType::Hadean
            &&& w == CelestialBodyWorldType::Rock <==> (size is Puny || size is Tiny || size is Small) && t > 140
            &&& w == CelestialBodyWorldType::Ice ==> icy && t <= 240
            &&& w == CelestialBodyWorldType::DirtySnowball ==> !icy && t <= 240
            &&& w != CelestialBodyWorldType::Sulfur
        }),
{
}

/// Returns the kind of world a body is, from its size, composition and blackbody temperature in
/// kelvins, and whether its primary star is lighter than 0.65 solar masses.
pub fn get_world_type(
    size: CelestialBodySize,
    body_type: CelestialBodyComposition,
    blackbody_temperature: u32,
    light_primary_star: bool,
) -> (r: CelestialBodyWorldType)
    ensures
        r == world_type(size, body_type, blackbody_temperature, light_primary_star),
{
    let t = blackbody_temperature;
    let icy = body_type == CelestialBodyComposition::Icy;
    match size {
        CelestialBodySize::Puny | CelestialBodySize::Tiny => {
            if t <= 140 && !icy {
                CelestialBodyWorldType::DirtySnowball
            } else if t <= 140 {
                CelestialBodyWorldType::Ice
            } else {
                CelestialBodyWorldType::Rock
            }
        },
        CelestialBodySize::Small => {
            if t <= 80 {
                CelestialBodyWorldType::Hadean
            } else if t <= 140 && !icy {
                CelestialBodyWorldType::DirtySnowball
            } else if t <= 140 {
                CelestialBodyWorldType::Ice
            } else {
                CelestialBodyWorldType::Rock
            }
        },
        CelestialBodySize::Standard => {
            if t <= 80 {
                CelestialBodyWorldType::Hadean
            } else if t > 151 && t <= 230 && light_primary_star {
                CelestialBodyWorldType::Ammonia
            } else if t <= 240 && !icy {
                CelestialBodyWorldType::DirtySnowball
            } else if t <= 240 {
                CelestialBodyWorldType::Ice
            } else if t <= 320 && !icy {
                CelestialBodyWorldType::Terrestrial
            } else if t <= 320 {
                CelestialBodyWorldType::Ocean
            } else if t <= 500 {
                CelestialBodyWorldType::Greenhouse
            } else {
                CelestialBodyWorldType::Chthonian
            }
        },
        CelestialBodySize::Large => {
            if t > 151 && t <= 230 && light_primary_star {
                CelestialBodyWorldType::Ammonia
            } else if t <= 240 && !icy {
                CelestialBodyWorldType::DirtySnowball
            } else if t <= 240 {
                CelestialBodyWorldType::Ice
            } else if t <= 320 {
                CelestialBodyWorldType::Terrestrial
            } else if t <= 500 {
                CelestialBodyWorldType::Greenhouse
            } else {
                CelestialBodyWorldType::Chthonian
            }
        },
        _ => CelestialBodyWorldType::VolatilesGiant,
    }
}

/// How visible the ring of a giant is from the number of its moonlets: fewer than 4 unnoticeable,
/// fewer than 6 noticeable, fewer than 10 visible, and spectacular beyond.
pub open spec fn ring_level_for_moonlets(moonlets: i8) -> CelestialRingLevel {
    if moonlets < 4 {
        CelestialRingLevel::Unnoticeable
    } else if moonlets < 6 {
        CelestialRingLevel::Noticeable
    } else if moonlets < 10 {
        CelestialRingLevel::Visible
    } else {
        CelestialRingLevel::Spectacular
    }
}

/// The weighted compositions a ring of enough moonlets is drawn from, by the blackbody temperature
/// in kelvins: ice (12 below 241 K, 1 below 300 K, none beyond), rock (5 below 241 K, 12 beyond)
/// and metal (1).
pub open spec fn ring_composition_choices(t: u32) -> Seq<WeightedChoice<CelestialRingComposition>> {
    seq![
        WeightedChoice { result: CelestialRingComposition::Ice, weight: if t < 241 { 12u32 } else if t < 300 { 1u32 } else { 0u32 } },
        WeightedChoice { result: CelestialRingComposition::Rock, weight: if t < 241 { 5u32 } else { 12u32 } },
        WeightedChoice { result: CelestialRingComposition::Metal, weight: 1u32 },
    ]
}

/// Generates the ring of a giant with the given number of moonlets and blackbody temperature in
/// kelvins: a ring of fewer than 4 moonlets is of dust, others are drawn from the weighted
/// compositions; which one depends on the roller and is not stated.
pub fn generate_giant_ring_details(
    rng: &mut seeded_dice_roller::SeededDiceRoller,
    moonlets: i8,
    blackbody_temperature: u32,
) -> (r: CelestialRingDetails)
    ensures
        r.level == ring_level_for_moonlets(moonlets),
        moonlets < 4 ==> r.composition == CelestialRingComposition::Dust,
        moonlets >= 4 ==> is_weighted_pick(ring_composition_choices(blackbody_temperature), r.composition),
{
    let t = blackbody_temperature;
    let composition = if moonlets < 4 {
        CelestialRingComposition::Dust
    } else {
        let mut choices: Vec<WeightedChoice<CelestialRingComposition>> = Vec::new();
        choices.push(WeightedChoice::new(
            CelestialRingComposition::Ice,
            if t < 241 { 12 } else if t < 300 { 1 } else { 0 },
        ));
        choices.push(WeightedChoice::new(CelestialRingComposition::Rock, if t < 241 { 5 } else { 12 }));
        choices.push(WeightedChoice::new(CelestialRingComposition::Metal, 1));
        proof {
            assert(choices@ =~= ring_composition_choices(t));
            reveal_with_fuel(crate::dice::total_weight, 4);
        }
        match pick_weighted(rng, &choices) {
            Some(c) => c,
            None => CelestialRingComposition::Dust,
        }
    };
    let level = if moonlets < 4 {
        CelestialRingLevel::Unnoticeable
    } else if moonlets < 6 {
        CelestialRingLevel::Noticeable
    } else if moonlets < 10 {
        CelestialRingLevel::Visible
    } else {
        CelestialRingLevel::Spectacular
    };
    CelestialRingDetails::new(level, composition)
}

} // verus!
