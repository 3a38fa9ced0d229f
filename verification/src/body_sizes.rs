use vstd::prelude::*;
use seeded_dice_roller::SeededDiceRoller;
use crate::dice::roll_dice;
use crate::celestial_types::{
    CelestialBodySize, CelestialBodySpecialTrait, TelluricCoreDifference, TelluricSpecialTrait,
};
use crate::disks::{CelestialBeltDetails, CelestialBeltType, CelestialDiskType};

verus! {

/// What the size roll of a telluric body makes of it: a disk in its place, or a body of a size
/// class with the bounds of its density, in hundredths of a gram per cubic centimeter.
#[derive(Copy, Clone, PartialEq, Eq, Structural, Debug)]
pub enum BodySizeOutcome {
    /// A disk takes the place of the body.
    Disk(CelestialDiskType),
    /// A body of this size class, whose density lies between the two bounds.
    Body(CelestialBodySize, i64, i64),
}

/// A belt of the given kind.
pub open spec fn belt(kind: CelestialBeltType) -> BodySizeOutcome {
    BodySizeOutcome::Disk(CelestialDiskType::Belt(CelestialBeltDetails { composition: kind }))
}

/// What the size roll of a rocky body makes of it, and whether it is coreless: moons are puny
/// bodies, low rolls give debris, asteroid and ash belts, and higher ones ever larger planets.
pub open spec fn rocky_body_size(is_moon: bool, rolled_size: i64) -> (BodySizeOutcome, bool) {
    if is_moon {
        (BodySizeOutcome::Body(CelestialBodySize::Puny, 300, 550), false)
    } else if rolled_size <= 21 {
        (belt(CelestialBeltType::Debris), false)
    } else if rolled_size <= 86 {
        (belt(CelestialBeltType::Asteroid), false)
    } else if rolled_size <= 96 {
        (belt(CelestialBeltType::Ash), false)
    } else if rolled_size <= 161 {
        (BodySizeOutcome::Body(CelestialBodySize::Tiny, 330, 550), false)
    } else if rolled_size <= 163 {
        (BodySizeOutcome::Body(CelestialBodySize::Tiny, 300, 450), true)
    } else if rolled_size <= 235 {
        (BodySizeOutcome::Body(CelestialBodySize::Small, 330, 550), false)
    } else if rolled_size <= 237 {
        (BodySizeOutcome::Body(CelestialBodySize::Small, 300, 450), true)
    } else if rolled_size <= 240 {
        (BodySizeOutcome::Body(CelestialBodySize::Standard, 300, 450), true)
    } else if rolled_size <= 318 {
        (BodySizeOutcome::Body(CelestialBodySize::Standard, 440, 620), false)
    } else {
        (BodySizeOutcome::Body(CelestialBodySize::Large, 490, 700), false)
    }
}

/// The size roll of a rocky body that is not a moon gives a belt up to 96, a tiny body from 97 to
/// 163, a small one from 164 to 237, a standard one from 238 to 318 and a large one above; the
/// coreless bodies, lighter, come from 162-163, 236-237 and 238-240, standard planets from 241 to
/// 318 have densities of 4.4 to 6.2 g/cm3 and large ones 4.9 to 7.0. A moon is a puny body.
pub proof fn lemma_rocky_body_sizes(is_moon: bool, rolled_size: i64)
    ensures
        ({
            let (outcome, coreless) = rocky_body_size(is_moon, rolled_size);
            &&& is_moon ==> outcome == BodySizeOutcome::Body(CelestialBodySize::Puny, 300, 550) && !coreless
            &&& !is_moon && rolled_size <= 96 ==> (outcome is Disk) && !coreless
            &&& !is_moon && 97 <= rolled_size <= 163 ==> (outcome matches BodySizeOutcome::Body(CelestialBodySize::Tiny, _, _))
            &&& !is_moon && 164 <= rolled_size <= 237 ==> (outcome matches BodySizeOutcome::Body(CelestialBodySize::Small, _, _))
            &&& !is_moon && 238 <= rolled_size <= 318 ==> (outcome matches BodySizeOutcome::Body(CelestialBodySize::Standard, _, _))
            &&& !is_moon && 241 <= rolled_size <= 318 ==> outcome == BodySizeOutcome::Body(CelestialBodySize::Standard, 440, 620)
            &&& !is_moon && rolled_size > 318 ==> outcome == BodySizeOutcome::Body(CelestialBodySize::Large, 490, 700)
            &&& (outcome matches BodySizeOutcome::Body(CelestialBodySize::Large, _, _)) ==> !is_moon && rolled_size > 318
            &&& coreless <==> !is_moon && (162 <= rolled_size <= 163 || 236 <= rolled_size <= 240)
            &&& coreless ==> (outcome matches BodySizeOutcome::Body(_, 300, 450))
            &&& !is_moon && rolled_size <= 21 ==> outcome == belt(CelestialBeltType::Debris)
            &&& !is_moon && 22 <= rolled_size <= 86 ==> outcome == belt(CelestialBeltType::Asteroid)
            &&& !is_moon && 87 <= rolled_size <= 96 ==> outcome == belt(CelestialBeltType::Ash)
            &&& !coreless && ((outcome matches BodySizeOutcome::Body(CelestialBodySize::Tiny, _, _)) || (outcome matches BodySizeOutcome::Body(CelestialBodySize::Small, _, _)))
                ==> (outcome matches BodySizeOutcome::Body(_, 330, 550))
        }),
{
}

/// How large an outcome of a size roll is: a disk, then bodies from tiny to supergiant.
pub open spec fn outcome_rank(outcome: BodySizeOutcome) -> int {
    match outcome {
        BodySizeOutcome::Disk(_) => 0,
        BodySizeOutcome::Body(size, _, _) => match size {
            CelestialBodySize::Puny => 1,
            CelestialBodySize::Tiny => 2,
            CelestialBodySize::Small => 3,
            CelestialBodySize::Standard => 4,
            CelestialBodySize::Large => 5,
            CelestialBodySize::Giant => 6,
            CelestialBodySize::Supergiant => 7,
            CelestialBodySize::Hypergiant => 8,
        },
    }
}

/// A higher size roll never gives a smaller rocky, metallic or icy body (at a given temperature)
/// to a body that is not a moon.
pub proof fn lemma_body_size_grows_with_roll(low: i64, high: i64, t: u32)
    requires
        low <= high,
    ensures
        outcome_rank(rocky_body_size(false, low).0) <= outcome_rank(rocky_body_size(false, high).0),
        outcome_rank(metallic_body_size(false, low)) <= outcome_rank(metallic_body_size(false, high)),
        outcome_rank(icy_body_size(false, low, t).0) <= outcome_rank(icy_body_size(false, high, t).0),
{
}

fn belt_of(kind: CelestialBeltType) -> (r: BodySizeOutcome)
    ensures
        r == belt(kind),
{
    BodySizeOutcome::Disk(CelestialDiskType::Belt(CelestialBeltDetails::new(kind)))
}

/// Returns what the size roll of a rocky body makes of it; a coreless body also gets the
/// coreless peculiarity.
pub fn determine_rocky_body_size(
    is_moon: bool,
    rolled_size: i64,
    special_traits: &mut Vec<CelestialBodySpecialTrait>,
) -> (r: BodySizeOutcome)
    ensures
        r == rocky_body_size(is_moon, rolled_size).0,
        final(special_traits)@ == if rocky_body_size(is_moon, rolled_size).1 {
            old(special_traits)@.push(CelestialBodySpecialTrait::UnusualCore(TelluricCoreDifference::Coreless))
        } else {
            old(special_traits)@
        },
{
    let coreless = CelestialBodySpecialTrait::UnusualCore(TelluricCoreDifference::Coreless);
    if is_moon {
        BodySizeOutcome::Body(CelestialBodySize::Puny, 300, 550)
    } else if rolled_size <= 21 {
        belt_of(CelestialBeltType::Debris)
    } else if rolled_size <= 86 {
        belt_of(CelestialBeltType::Asteroid)
    } else if rolled_size <= 96 {
        belt_of(CelestialBeltType::Ash)
    } else if rolled_size <= 161 {
        BodySizeOutcome::Body(CelestialBodySize::Tiny, 330, 550)
    } else if rolled_size <= 163 {
        special_traits.push(coreless);
        BodySizeOutcome::Body(CelestialBodySize::Tiny, 300, 450)
    } else if rolled_size <= 235 {
        BodySizeOutcome::Body(CelestialBodySize::Small, 330, 550)
    } else if rolled_size <= 237 {
        special_traits.push(coreless);
        BodySizeOutcome::Body(CelestialBodySize::Small, 300, 450)
    } else if rolled_size <= 240 {
        special_traits.push(coreless);
        BodySizeOutcome::Body(CelestialBodySize::Standard, 300, 450)
    } else if rolled_size <= 318 {
        BodySizeOutcome::Body(CelestialBodySize::Standard, 440, 620)
    } else {
        BodySizeOutcome::Body(CelestialBodySize::Large, 490, 700)
    }
}

/// What the size roll of a metallic body makes of it: moons are puny bodies, low rolls give dust,
/// meteoroid and ore belts, and higher ones ever larger planets, some of solid metal.
pub open spec fn metallic_body_size(is_moon: bool, rolled_size: i64) -> BodySizeOutcome {
    if is_moon {
        BodySizeOutcome::Body(CelestialBodySize::Puny, 500, 900)
    } else if rolled_size <= 61 {
        belt(CelestialBeltType::Dust)
    } else if rolled_size <= 131 {
        belt(CelestialBeltType::Meteoroid)
    } else if rolled_size <= 141 {
        belt(CelestialBeltType::Ore)
    } else if rolled_size <= 221 {
        BodySizeOutcome::Body(CelestialBodySize::Tiny, 500, 700)
    } else if rolled_size <= 301 {
        BodySizeOutcome::Body(CelestialBodySize::Tiny, 700, 1500)
    } else if rolled_size <= 311 {
        BodySizeOutcome::Body(CelestialBodySize::Small, 600, 800)
    } else if rolled_size <= 321 {
        BodySizeOutcome::Body(CelestialBodySize::Small, 700, 1500)
    } else if rolled_size <= 391 {
        BodySizeOutcome::Body(CelestialBodySize::Standard, 600, 800)
    } else if rolled_size <= 393 {
        BodySizeOutcome::Body(CelestialBodySize::Standard, 700, 1500)
    } else {
        BodySizeOutcome::Body(CelestialBodySize::Large, 600, 900)
    }
}

/// The size roll of a metallic body that is not a moon gives a dust belt up to 61, a meteoroid
/// belt up to 131, an ore belt up to 141, a tiny body up to 301, a small one up to 321, a standard
/// one up to 393 and a large one above; the densest bodies (7 to 15 g/cm3) are those of 222-301,
/// 312-321 and 392-393. A moon is a puny body.
pub proof fn lemma_metallic_body_sizes(is_moon: bool, rolled_size: i64)
    ensures
        ({
            let outcome = metallic_body_size(is_moon, rolled_size);
            &&& is_moon ==> outcome == BodySizeOutcome::Body(CelestialBodySize::Puny, 500, 900)
            &&& !is_moon && rolled_size <= 61 ==> outcome == belt(CelestialBeltType::Dust)
            &&& !is_moon && 62 <= rolled_size <= 131 ==> outcome == belt(CelestialBeltType::Meteoroid)
            &&& !is_moon && 132 <= rolled_size <= 141 ==> outcome == belt(CelestialBeltType::Ore)
            &&& !is_moon && 142 <= rolled_size <= 301 ==> (outcome matches BodySizeOutcome::Body(CelestialBodySize::Tiny, _, _))
            &&& !is_moon && 302 <= rolled_size <= 321 ==> (outcome matches BodySizeOutcome::Body(CelestialBodySize::Small, _, _))
            &&& !is_moon && 322 <= rolled_size <= 393 ==> (outcome matches BodySizeOutcome::Body(CelestialBodySize::Standard, _, _))
            &&& !is_moon && rolled_size > 393 ==> outcome == BodySizeOutcome::Body(CelestialBodySize::Large, 600, 900)
            &&& (outcome matches BodySizeOutcome::Body(_, 700, 1500)) <==> !is_moon && (222 <= rolled_size <= 301
                || 312 <= rolled_size <= 321 || 392 <= rolled_size <= 393)
        }),
{
}

/// Returns what the size roll of a metallic body makes of it.
pub fn determine_metallic_body_size(is_moon: bool, rolled_size: i64) -> (r: BodySizeOutcome)
    ensures
        r == metallic_body_size(is_moon, rolled_size),
{
    if is_moon {
        BodySizeOutcome::Body(CelestialBodySize::Puny, 500, 900)
    } else if rolled_size <= 61 {
        belt_of(CelestialBeltType::Dust)
    } else if rolled_size <= 131 {
        belt_of(CelestialBeltType::Meteoroid)
    } else if rolled_size <= 141 {
        belt_of(CelestialBeltType::Ore)
    } else if rolled_size <= 221 {
        BodySizeOutcome::Body(CelestialBodySize::Tiny, 500, 700)
    } else if rolled_size <= 301 {
        BodySizeOutcome::Body(CelestialBodySize::Tiny, 700, 1500)
    } else if rolled_size <= 311 {
        BodySizeOutcome::Body(CelestialBodySize::Small, 600, 800)
    } else if rolled_size <= 321 {
        BodySizeOutcome::Body(CelestialBodySize::Small, 700, 1500)
    } else if rolled_size <= 391 {
        BodySizeOutcome::Body(CelestialBodySize::Standard, 600, 800)
    } else if rolled_size <= 393 {
        BodySizeOutcome::Body(CelestialBodySize::Standard, 700, 1500)
    } else {
        BodySizeOutcome::Body(CelestialBodySize::Large, 600, 900)
    }
}

/// What the size roll of an icy body makes of it at the given blackbody temperature in kelvins,
/// and whether it is coreless: moons are puny bodies; low rolls give belts and clouds of frost
/// and comets, or of dust, debris and asteroids from 170 K up; higher ones ever larger planets,
/// and, below 321 K, ice giants. The mass of giants and supergiants is rolled apart (see
/// [icy_body_mass]).
pub open spec fn icy_body_size(is_moon: bool, rolled_size: i64, t: u32) -> (BodySizeOutcome, bool) {
    let cold = t < 321;
    if is_moon {
        (BodySizeOutcome::Body(CelestialBodySize::Puny, 60, 300), false)
    } else if rolled_size <= 21 {
        (belt(if t >= 170 { CelestialBeltType::Dust } else { CelestialBeltType::Frost }), false)
    } else if rolled_size <= 61 {
        (belt(if t >= 170 { CelestialBeltType::Debris } else { CelestialBeltType::Comet }), false)
    } else if rolled_size <= 65 {
        (if t >= 170 { belt(CelestialBeltType::Asteroid) } else { BodySizeOutcome::Disk(CelestialDiskType::Shell) }, false)
    } else if rolled_size <= 105 {
        (BodySizeOutcome::Body(CelestialBodySize::Tiny, 100, 183), true)
    } else if rolled_size <= 135 {
        (BodySizeOutcome::Body(CelestialBodySize::Tiny, 163, 260), false)
    } else if rolled_size <= 140 {
        (BodySizeOutcome::Body(CelestialBodySize::Small, 100, 150), true)
    } else if rolled_size <= 170 {
        (BodySizeOutcome::Body(CelestialBodySize::Small, 150, 390), false)
    } else if rolled_size <= 175 {
        (BodySizeOutcome::Body(CelestialBodySize::Standard, 100, 150), true)
    } else if rolled_size <= 255 {
        (BodySizeOutcome::Body(CelestialBodySize::Standard, 150, 550), false)
    } else if cold && rolled_size <= 305 {
        (BodySizeOutcome::Body(CelestialBodySize::Large, 120, 160), false)
    } else if cold && rolled_size <= 395 {
        (BodySizeOutcome::Body(CelestialBodySize::Giant, 60, 130), false)
    } else if cold {
        (BodySizeOutcome::Body(CelestialBodySize::Supergiant, 90, 160), false)
    } else {
        (BodySizeOutcome::Body(CelestialBodySize::Standard, 150, 550), false)
    }
}

/// The size roll of an icy body that is not a moon gives a belt, a cloud or a shell up to 65, a
/// tiny body up to 135, a small one up to 170, a standard one up to 255; above, a body below
/// 321 K is large up to 305, a giant up to 395 and a supergiant above, and a warmer one stays
/// standard. Coreless bodies come from 66-105, 136-140 and 171-175. A moon is a puny body.
pub proof fn lemma_icy_body_sizes(is_moon: bool, rolled_size: i64, t: u32)
    ensures
        ({
            let (outcome, coreless) = icy_body_size(is_moon, rolled_size, t);
            &&& is_moon ==> outcome == BodySizeOutcome::Body(CelestialBodySize::Puny, 60, 300) && !coreless
            &&& !is_moon && rolled_size <= 65 ==> (outcome is Disk)
            &&& !is_moon && 66 <= rolled_size <= 135 ==> (outcome matches BodySizeOutcome::Body(CelestialBodySize::Tiny, _, _))
            &&& !is_moon && 136 <= rolled_size <= 170 ==> (outcome matches BodySizeOutcome::Body(CelestialBodySize::Small, _, _))
            &&& !is_moon && 171 <= rolled_size <= 255 ==> (outcome matches BodySizeOutcome::Body(CelestialBodySize::Standard, _, _))
            &&& !is_moon && rolled_size > 255 && t >= 321 ==> outcome == BodySizeOutcome::Body(CelestialBodySize::Standard, 150, 550)
            &&& !is_moon && 256 <= rolled_size <= 305 && t < 321 ==> outcome == BodySizeOutcome::Body(CelestialBodySize::Large, 120, 160)
            &&& !is_moon && 306 <= rolled_size <= 395 && t < 321 ==> outcome == BodySizeOutcome::Body(CelestialBodySize::Giant, 60, 130)
            &&& !is_moon && rolled_size > 395 && t < 321 ==> outcome == BodySizeOutcome::Body(CelestialBodySize::Supergiant, 90, 160)
            &&& coreless <==> !is_moon && (66 <= rolled_size <= 105 || 136 <= rolled_size <= 140 || 171 <= rolled_size <= 175)
            &&& (outcome is Disk) && t >= 170 ==> (outcome matches BodySizeOutcome::Disk(CelestialDiskType::Belt(_)))
        }),
{
}

/// The mass, in hundredths of an Earth mass, an icy body of the given outcome gets from its mass
/// roll: the roll itself for a giant, its square for a supergiant, and none for the others.
pub open spec fn icy_body_mass(outcome: BodySizeOutcome, mass_roll: i64) -> i64 {
    match outcome {
        BodySizeOutcome::Body(CelestialBodySize::Giant, _, _) => mass_roll,
        BodySizeOutcome::Body(CelestialBodySize::Supergiant, _, _) => (mass_roll * mass_roll) as i64,
        _ => 0,
    }
}

/// Returns what the size roll of an icy body at the given blackbody temperature makes of it, and
/// its mass in hundredths of an Earth mass: a giant's is rolled from 200 to 1599, a supergiant's
/// is the square of a roll from 200 to 1199, and the others get none. A coreless body also gets
/// the coreless peculiarity. The mass roll depends on the roller and is not stated.
pub fn determine_icy_size(
    rng: &mut SeededDiceRoller,
    is_moon: bool,
    rolled_size: i64,
    blackbody_temp: u32,
    special_traits: &mut Vec<TelluricSpecialTrait>,
) -> (r: (BodySizeOutcome, i64))
    ensures
        r.0 == icy_body_size(is_moon, rolled_size, blackbody_temp).0,
        r.0 matches BodySizeOutcome::Body(CelestialBodySize::Giant, _, _) ==> exists|roll: i64|
            200 <= roll <= 1599 && r.1 == #[trigger] icy_body_mass(r.0, roll),
        r.0 matches BodySizeOutcome::Body(CelestialBodySize::Supergiant, _, _) ==> exists|roll: i64|
            200 <= roll <= 1199 && r.1 == #[trigger] icy_body_mass(r.0, roll),
        !(r.0 matches BodySizeOutcome::Body(CelestialBodySize::Giant, _, _)) && !(r.0 matches BodySizeOutcome::Body(
            CelestialBodySize::Supergiant,
            _,
            _,
        )) ==> r.1 == 0,
        final(special_traits)@ == if icy_body_size(is_moon, rolled_size, blackbody_temp).1 {
            old(special_traits)@.push(TelluricSpecialTrait::UnusualCore(TelluricCoreDifference::Coreless))
        } else {
            old(special_traits)@
        },
{
    let t = blackbody_temp;
    let cold = t < 321;
    let coreless = TelluricSpecialTrait::UnusualCore(TelluricCoreDifference::Coreless);
    if is_moon {
        (BodySizeOutcome::Body(CelestialBodySize::Puny, 60, 300), 0)
    } else if rolled_size <= 21 {
        (belt_of(if t >= 170 { CelestialBeltType::Dust } else { CelestialBeltType::Frost }), 0)
    } else if rolled_size <= 61 {
        (belt_of(if t >= 170 { CelestialBeltType::Debris } else { CelestialBeltType::Comet }), 0)
    } else if rolled_size <= 65 {
        (if t >= 170 { belt_of(CelestialBeltType::Asteroid) } else { BodySizeOutcome::Disk(CelestialDiskType::Shell) }, 0)
    } else if rolled_size <= 105 {
        special_traits.push(coreless);
        (BodySizeOutcome::Body(CelestialBodySize::Tiny, 100, 183), 0)
    } else if rolled_size <= 135 {
        (BodySizeOutcome::Body(CelestialBodySize::Tiny, 163, 260), 0)
    } else if rolled_size <= 140 {
        special_traits.push(coreless);
        (BodySizeOutcome::Body(CelestialBodySize::Small, 100, 150), 0)
    } else if rolled_size <= 170 {
        (BodySizeOutcome::Body(CelestialBodySize::Small, 150, 390), 0)
    } else if rolled_size <= 175 {
        special_traits.push(coreless);
        (BodySizeOutcome::Body(CelestialBodySize::Standard, 100, 150), 0)
    } else if rolled_size <= 255 {
        (BodySizeOutcome::Body(CelestialBodySize::Standard, 150, 550), 0)
    } else if cold && rolled_size <= 305 {
        (BodySizeOutcome::Body(CelestialBodySize::Large, 120, 160), 0)
    } else if cold && rolled_size <= 395 {
        let outcome = BodySizeOutcome::Body(CelestialBodySize::Giant, 60, 130);
        let mass = roll_dice(rng, 1, 1400, 200 - 1);
        assert(mass == icy_body_mass(outcome, mass));
        (outcome, mass)
    } else if cold {
        let outcome = BodySizeOutcome::Body(CelestialBodySize::Supergiant, 90, 160);
        let roll = roll_dice(rng, 1, 1000, 200 - 1);
        assert(roll * roll <= 1199 * 1199) by (nonlinear_arith)
            requires
                200 <= roll <= 1199,
        ;
        let mass = roll * roll;
        assert(mass == icy_body_mass(outcome, roll));
        (outcome, mass)
    } else {
        (BodySizeOutcome::Body(CelestialBodySize::Standard, 150, 550), 0)
    }
}

} // verus!
