use player_lifecycle::character::{AbilityType, Character, CharacterType, Faction, ProjectileType};
use player_lifecycle::health::{HealthComponent, ACCUMULATOR_PER_SHIELD};
use player_lifecycle::math::MilliVec2;

fn captain(health: usize, shields: usize, shields_recharge_rate: u32) -> Character {
    Character {
        acceleration: MilliVec2 { x: 20_000, y: 20_000 },
        deceleration: MilliVec2 { x: 20_000, y: 20_000 },
        speed: MilliVec2 { x: 400_000, y: 400_000 },
        collider_dimensions: MilliVec2 { x: 6_000, y: 12_000 },
        collider_density: 1_500,
        character_type: CharacterType::Captain,
        projectile_type: ProjectileType::Blast(Faction::Ally),
        projectile_despawn_time: 1_000,
        projectile_velocity: MilliVec2 { x: 0, y: 800_000 },
        projectile_offset_position: MilliVec2 { x: 0, y: 40_000 },
        fire_period: 1_000,
        health,
        shields,
        shields_recharge_rate,
        attack_damage: 20,
        collision_damage: 10,
        attraction_distance: 300_000,
        attraction_acceleration: 15_000,
        money: 0,
        ability_period: 5_000,
        ability_type: AbilityType::Charge,
    }
}

#[test]
fn new_component_is_at_full_health_and_shields() {
    let health = HealthComponent::new(10, 5, 1_000);
    assert_eq!(health.health(), 10);
    assert_eq!(health.max_health(), 10);
    assert_eq!(health.shields(), 5);
    assert_eq!(health.max_shields(), 5);
    assert_eq!(health.shields_recharge_rate(), 1_000);
    assert_eq!(health.shields_recharge_accumulator(), 0);
    assert!(!health.is_dead());
}

#[test]
fn component_from_character_takes_its_stats() {
    let character = captain(120, 30, 2_500);
    let health = HealthComponent::from(&character);
    assert_eq!(health.health(), 120);
    assert_eq!(health.max_health(), 120);
    assert_eq!(health.shields(), 30);
    assert_eq!(health.max_shields(), 30);
    assert_eq!(health.shields_recharge_rate(), 2_500);
    assert_eq!(health.shields_recharge_accumulator(), 0);
}

#[test]
fn damage_within_shields_leaves_health_alone() {
    let mut health = HealthComponent::new(10, 5, 1_000);
    health.apply_damage(3);
    assert_eq!(health.shields(), 2);
    assert_eq!(health.health(), 10);
}

#[test]
fn damage_equal_to_shields_empties_them_only() {
    let mut health = HealthComponent::new(10, 5, 1_000);
    health.apply_damage(5);
    assert_eq!(health.shields(), 0);
    assert_eq!(health.health(), 10);
    assert!(!health.is_dead());
}

#[test]
fn damage_beyond_shields_takes_the_excess_from_health() {
    let mut health = HealthComponent::new(10, 5, 1_000);
    health.apply_damage(7);
    assert_eq!(health.shields(), 0);
    assert_eq!(health.health(), 8);
}

#[test]
fn damage_beyond_everything_stops_at_zero() {
    let mut health = HealthComponent::new(10, 5, 1_000);
    health.apply_damage(7);
    health.apply_damage(10);
    assert_eq!(health.shields(), 0);
    assert_eq!(health.health(), 0);
    assert!(health.is_dead());
}

#[test]
fn damage_of_zero_changes_nothing() {
    let mut health = HealthComponent::new(10, 5, 1_000);
    health.apply_damage(0);
    assert_eq!(health.shields(), 5);
    assert_eq!(health.health(), 10);
}

#[test]
fn largest_possible_hit_kills_without_wrapping() {
    let mut health = HealthComponent::new(usize::MAX, usize::MAX, 0);
    health.apply_damage(usize::MAX);
    assert_eq!(health.shields(), 0);
    assert_eq!(health.health(), usize::MAX);
    health.apply_damage(usize::MAX);
    assert_eq!(health.health(), 0);
    assert!(health.is_dead());
    health.apply_damage(usize::MAX);
    assert_eq!(health.health(), 0);
    assert_eq!(health.shields(), 0);
}

#[test]
fn damage_never_raises_and_never_exceeds_the_maxima() {
    let mut health = HealthComponent::new(50, 20, 1_000);
    let hits: [usize; 8] = [0, 1, 19, 1, 7, 0, 40, 3];
    let mut shields_before = health.shields();
    let mut health_before = health.health();
    for hit in hits {
        health.apply_damage(hit);
        assert!(health.shields() <= shields_before);
        assert!(health.health() <= health_before);
        assert!(health.shields() <= health.max_shields());
        assert!(health.health() <= health.max_health());
        shields_before = health.shields();
        health_before = health.health();
    }
    assert_eq!(health.shields(), 0);
    assert_eq!(health.health(), 0);
}

#[test]
fn is_dead_exactly_when_health_is_zero() {
    let mut health = HealthComponent::new(3, 0, 0);
    assert_eq!(health.is_dead(), health.health() == 0);
    health.apply_damage(2);
    assert_eq!(health.health(), 1);
    assert!(!health.is_dead());
    health.apply_damage(1);
    assert_eq!(health.health(), 0);
    assert!(health.is_dead());
    let spawned_dead = HealthComponent::new(0, 4, 1_000);
    assert!(spawned_dead.is_dead());
}

#[test]
fn one_shield_point_is_a_billion_accumulator_units() {
    assert_eq!(ACCUMULATOR_PER_SHIELD, 1_000_000_000);
}

#[test]
fn recharge_turns_whole_points_into_shields() {
    let mut health = HealthComponent::new(10, 5, 1_000);
    health.apply_damage(3);
    assert_eq!(health.shields(), 2);
    health.recharge_shields(2_500_000);
    assert_eq!(health.shields(), 4);
    assert_eq!(health.shields_recharge_accumulator(), 500_000_000);
    assert_eq!(health.health(), 10);
}

#[test]
fn recharge_below_one_point_only_accumulates() {
    let mut health = HealthComponent::new(10, 5, 1_000);
    health.apply_damage(5);
    health.recharge_shields(999_999);
    assert_eq!(health.shields(), 0);
    assert_eq!(health.shields_recharge_accumulator(), 999_999_000);
    health.recharge_shields(1);
    assert_eq!(health.shields(), 1);
    assert_eq!(health.shields_recharge_accumulator(), 0);
}

#[test]
fn recharge_stops_at_max_shields_and_keeps_the_rest() {
    let mut health = HealthComponent::new(10, 5, 1_000);
    health.apply_damage(3);
    health.recharge_shields(2_500_000);
    health.recharge_shields(2_500_000);
    assert_eq!(health.shields(), 5);
    assert_eq!(health.shields_recharge_accumulator(), 2_000_000_000);
    health.apply_damage(1);
    assert_eq!(health.shields(), 4);
    health.recharge_shields(0);
    assert_eq!(health.shields(), 5);
    assert_eq!(health.shields_recharge_accumulator(), 1_000_000_000);
}

#[test]
fn recharge_at_full_shields_never_goes_above_max() {
    let mut health = HealthComponent::new(10, 5, 3_000);
    health.recharge_shields(10_000_000);
    assert_eq!(health.shields(), 5);
    assert_eq!(health.max_shields(), 5);
    assert_eq!(health.shields_recharge_accumulator(), 30_000_000_000);
}

#[test]
fn recharge_of_a_dead_player_does_nothing() {
    let mut health = HealthComponent::new(10, 5, 1_000);
    health.apply_damage(15);
    assert!(health.is_dead());
    health.recharge_shields(60_000_000);
    assert_eq!(health.shields(), 0);
    assert_eq!(health.health(), 0);
    assert_eq!(health.shields_recharge_accumulator(), 0);
    assert!(health.is_dead());
}

#[test]
fn recharge_with_zero_rate_or_zero_time_changes_nothing() {
    let mut no_rate = HealthComponent::new(10, 5, 0);
    no_rate.apply_damage(2);
    no_rate.recharge_shields(60_000_000);
    assert_eq!(no_rate.shields(), 3);
    assert_eq!(no_rate.shields_recharge_accumulator(), 0);
    let mut no_time = HealthComponent::new(10, 5, 1_000);
    no_time.apply_damage(2);
    no_time.recharge_shields(0);
    assert_eq!(no_time.shields(), 3);
    assert_eq!(no_time.shields_recharge_accumulator(), 0);
}

#[test]
fn recharge_in_two_steps_equals_recharge_in_one() {
    let mut stepwise = HealthComponent::new(10, 8, 700);
    let mut at_once = HealthComponent::new(10, 8, 700);
    stepwise.apply_damage(6);
    at_once.apply_damage(6);
    stepwise.recharge_shields(1_900_000);
    stepwise.recharge_shields(2_400_000);
    at_once.recharge_shields(4_300_000);
    assert_eq!(stepwise.shields(), 5);
    assert_eq!(at_once.shields(), 5);
    assert_eq!(stepwise.shields_recharge_accumulator(), 10_000_000);
    assert_eq!(at_once.shields_recharge_accumulator(), 10_000_000);
}

#[test]
fn longer_recharge_never_gives_fewer_shields() {
    let mut previous: usize = 0;
    for elapsed_micros in
        [0u32, 1, 999_999, 1_000_000, 1_000_001, 2_999_999, 3_000_000, 9_000_000, 50_000_000]
    {
        let mut health = HealthComponent::new(10, 6, 1_000);
        health.apply_damage(6);
        health.recharge_shields(elapsed_micros);
        assert!(health.shields() >= previous);
        assert!(health.shields() <= health.max_shields());
        previous = health.shields();
    }
    assert_eq!(previous, 6);
}

#[test]
fn can_recharge_tells_when_the_accumulator_is_full() {
    let mut health = HealthComponent::new(1, 0, u32::MAX);
    assert!(health.can_recharge(u32::MAX));
    health.recharge_shields(u32::MAX);
    assert_eq!(health.shields_recharge_accumulator(), 18_446_744_065_119_617_025);
    assert!(health.can_recharge(2));
    assert!(!health.can_recharge(3));
    health.recharge_shields(2);
    assert_eq!(health.shields_recharge_accumulator(), u64::MAX);
    assert!(health.can_recharge(0));
    assert!(!health.can_recharge(1));
    health.apply_damage(1);
    assert!(health.is_dead());
    assert!(health.can_recharge(u32::MAX));
}
