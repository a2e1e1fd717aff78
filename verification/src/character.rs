//! Character archetypes and the catalog of their base stats.
//!
//! Fractional quantities are fixed-point integers: lengths, speeds,
//! accelerations and densities in thousandths of their unit, times in
//! milliseconds.

use crate::health::{HealthComponent, HealthView};
use crate::math::MilliVec2;
use std::collections::HashMap;
use vstd::prelude::*;
use vstd::std_specs::convert::FromSpecImpl;

verus! {

broadcast use vstd::std_specs::hash::group_hash_axioms;

/// Whose side a projectile is on.
#[derive(Clone, Copy, Debug, PartialEq, Eq, Structural)]
pub enum Faction {
    Ally,
    Enemy,
    Neutral,
}

/// The kinds of projectile a weapon can fire.
#[derive(Clone, Copy, Debug, PartialEq, Eq, Structural)]
pub enum ProjectileType {
    Blast(Faction),
    Bullet(Faction),
}

/// The special abilities a character can have.
#[derive(Clone, Copy, Debug, PartialEq, Eq, Structural)]
pub enum AbilityType {
    Charge,
    MegaBlast,
}

/// The playable character archetypes.
#[derive(Clone, Copy, Debug, Hash, PartialEq, Eq, Structural)]
pub enum CharacterType {
    Captain,
    Juggernaut,
}

/// Contains data necessary to create a player entity.
/// A character is chosen at the beginning of the game.
/// The base stats of the player are provided from the character.
#[derive(Clone, Copy, Debug)]
pub struct Character {
    /// Base acceleration
    pub acceleration: MilliVec2,
    /// Base deceleration
    pub deceleration: MilliVec2,
    /// Base speed
    pub speed: MilliVec2,
    /// Collider size (relative to the sprite size)
    pub collider_dimensions: MilliVec2,
    /// Density of the collider (mass of collider is proportional to its size)
    pub collider_density: u64,
    /// Character type
    pub character_type: CharacterType,
    /// Projectile type
    pub projectile_type: ProjectileType,
    /// Time until fired projectile despawns, in milliseconds
    pub projectile_despawn_time: u64,
    /// Velocity of fired projectile
    pub projectile_velocity: MilliVec2,
    /// Position of projectile spawn relative to player
    pub projectile_offset_position: MilliVec2,
    /// Period of time between firing blasts, in milliseconds
    pub fire_period: u64,
    /// Health of the player
    pub health: usize,
    /// Shields of the player
    pub shields: usize,
    /// Shields recharging rate, in thousandths of a shield point per second
    pub shields_recharge_rate: u32,
    /// Amount of damage dealt per attack
    pub attack_damage: usize,
    /// Amount of damage dealt on contact
    pub collision_damage: usize,
    /// Distance to attract items and consumables
    pub attraction_distance: u64,
    /// Acceleration applied to items and consumables in attraction distance
    pub attraction_acceleration: u64,
    /// Amount of money character has collected
    pub money: usize,
    /// Ability cooldown time, in milliseconds
    pub ability_period: u64,
    /// Type of ability
    pub ability_type: AbilityType,
}

impl Character {
    /// The health state a player of this character starts with.
    pub open spec fn starting_health(self) -> HealthView {
        HealthView::fresh(
            self.health as int,
            self.shields as int,
            self.shields_recharge_rate as int,
        )
    }
}

impl From<&Character> for HealthComponent {
    /// The health component of a freshly spawned player of this character.
    fn from(character: &Character) -> (component: Self)
        ensures
            component@ == character.starting_health(),
            component@.wf(),
    {
        HealthComponent::new(character.health, character.shields, character.shields_recharge_rate)
    }
}

impl FromSpecImpl<&Character> for HealthComponent {
    open spec fn obeys_from_spec() -> bool {
        true
    }

    open spec fn from_spec(character: &Character) -> Self {
        HealthComponent::spec_new(
            character.health,
            character.shields,
            character.shields_recharge_rate,
        )
    }
}

/// Why static content could not be used.
#[derive(Clone, Copy, Debug, PartialEq, Eq, Structural)]
pub enum ConfigError {
    /// The catalog has no entry for the archetype that was asked for.
    UnknownArchetype,
}

/// The key under which an archetype is filed.
pub open spec fn archetype_key(character_type: CharacterType) -> u8 {
    match character_type {
        CharacterType::Captain => 0,
        CharacterType::Juggernaut => 1,
    }
}

fn key_of(character_type: CharacterType) -> (key: u8)
    ensures
        key == archetype_key(character_type),
{
    match character_type {
        CharacterType::Captain => 0,
        CharacterType::Juggernaut => 1,
    }
}

/// Manages all characters
pub struct CharactersResource {
    /// Characters filed under the key of their archetype
    characters: HashMap<u8, Character>,
}

impl View for CharactersResource {
    type V = Map<CharacterType, Character>;

    closed spec fn view(&self) -> Map<CharacterType, Character> {
        Map::new(
            |character_type: CharacterType|
                self.characters@.contains_key(archetype_key(character_type)),
            |character_type: CharacterType| self.characters@[archetype_key(character_type)],
        )
    }
}

impl CharactersResource {
    /// A catalog without entries.
    pub fn new() -> (catalog: Self)
        ensures
            catalog@ == Map::<CharacterType, Character>::empty(),
    {
        let catalog = CharactersResource { characters: HashMap::new() };
        assert(catalog@ =~= Map::<CharacterType, Character>::empty());
        catalog
    }

    /// Files `character` under `character_type`, in place of an entry that
    /// was there before.
    pub fn insert(&mut self, character_type: CharacterType, character: Character)
        ensures
            final(self)@ == old(self)@.insert(character_type, character),
    {
        self.characters.insert(key_of(character_type), character);
        assert(self@ =~= old(self)@.insert(character_type, character));
    }

    /// The stats of `character_type`, or `UnknownArchetype` where the
    /// catalog has none for it.
    pub fn lookup(&self, character_type: CharacterType) -> (found: Result<Character, ConfigError>)
        ensures
            self@.contains_key(character_type) ==> found == Ok::<Character, ConfigError>(
                self@[character_type],
            ),
            !self@.contains_key(character_type) ==> found == Err::<Character, ConfigError>(
                ConfigError::UnknownArchetype,
            ),
    {
        let key: u8 = key_of(character_type);
        match self.characters.get(&key) {
            Some(character) => Ok(*character),
            None => Err(ConfigError::UnknownArchetype),
        }
    }
}

} // verus!
