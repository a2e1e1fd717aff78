//! Player entities and the arena that holds them.
//!
//! A player is addressed by its handle, the index of its slot in the arena.
//! Slots are never reused: a player that has been despawned leaves an empty
//! slot behind for good.

use crate::character::{CharacterType, CharactersResource, ConfigError};
use crate::health::{HealthComponent, HealthView};
use crate::math::MilliVec2;
use vstd::prelude::*;

verus! {

/// One player in the simulation.
#[derive(Clone, Copy, Debug)]
pub struct PlayerEntity {
    /// The archetype the player was spawned from
    pub character_type: CharacterType,
    /// Where the player is
    pub position: MilliVec2,
    /// Health and shields of the player
    pub health: HealthComponent,
}

/// The mathematical state of a [`PlayerEntity`].
pub struct PlayerView {
    pub character_type: CharacterType,
    pub position: MilliVec2,
    pub health: HealthView,
}

impl View for PlayerEntity {
    type V = PlayerView;

    open spec fn view(&self) -> PlayerView {
        PlayerView {
            character_type: self.character_type,
            position: self.position,
            health: self.health@,
        }
    }
}

/// The players of a run, one slot each. An empty slot is a player that has
/// been despawned.
pub struct PlayerArena {
    slots: Vec<Option<PlayerEntity>>,
}

/// The mathematical state of a slot.
pub open spec fn slot_view(slot: Option<PlayerEntity>) -> Option<PlayerView> {
    match slot {
        Some(player) => Some(player@),
        None => None,
    }
}

impl View for PlayerArena {
    type V = Seq<Option<PlayerView>>;

    closed spec fn view(&self) -> Seq<Option<PlayerView>> {
        Seq::new(self.slots@.len(), |handle: int| slot_view(self.slots@[handle]))
    }
}

/// The slots after the live player at `handle` took `amount` points of
/// damage; unchanged where `handle` names no live player.
pub open spec fn damaged_at(slots: Seq<Option<PlayerView>>, handle: int, amount: int) -> Seq<
    Option<PlayerView>,
> {
    if 0 <= handle < slots.len() && slots[handle] is Some {
        let player = slots[handle].unwrap();
        slots.update(handle, Some(PlayerView { health: player.health.damaged(amount), ..player }))
    } else {
        slots
    }
}

/// Whether the player at `handle`, if a live one is there, can recharge
/// shields for `elapsed_micros` microseconds.
pub open spec fn can_recharge_at(
    slots: Seq<Option<PlayerView>>,
    handle: int,
    elapsed_micros: int,
) -> bool {
    0 <= handle < slots.len() && slots[handle] is Some ==> {
        slots[handle].unwrap().health.can_accumulate(elapsed_micros)
    }
}

/// The slots after the live player at `handle` recharged shields for
/// `elapsed_micros` microseconds; unchanged where `handle` names no live
/// player.
pub open spec fn recharged_at(
    slots: Seq<Option<PlayerView>>,
    handle: int,
    elapsed_micros: int,
) -> Seq<Option<PlayerView>> {
    if 0 <= handle < slots.len() && slots[handle] is Some {
        let player = slots[handle].unwrap();
        slots.update(
            handle,
            Some(PlayerView { health: player.health.recharged(elapsed_micros), ..player }),
        )
    } else {
        slots
    }
}

/// The slots after the player at `handle` was despawned.
pub open spec fn despawned_at(slots: Seq<Option<PlayerView>>, handle: int) -> Seq<
    Option<PlayerView>,
> {
    if 0 <= handle < slots.len() {
        slots.update(handle, None)
    } else {
        slots
    }
}

/// Whether every slot that is empty in `before` is still there and still
/// empty in `after`.
pub open spec fn keeps_despawned(
    before: Seq<Option<PlayerView>>,
    after: Seq<Option<PlayerView>>,
) -> bool {
    &&& before.len() <= after.len()
    &&& forall|handle: int|
        0 <= handle < before.len() && before[handle] is None ==> after[handle] is None
}

/// A despawned player never comes back: no operation of the arena fills a
/// slot that is empty, and none takes a slot away.
pub proof fn lemma_despawned_is_final(
    slots: Seq<Option<PlayerView>>,
    handle: int,
    amount: int,
    elapsed_micros: int,
    player: PlayerView,
)
    ensures
        keeps_despawned(slots, slots.push(Some(player))),
        keeps_despawned(slots, despawned_at(slots, handle)),
        keeps_despawned(slots, damaged_at(slots, handle, amount)),
        keeps_despawned(slots, recharged_at(slots, handle, elapsed_micros)),
{
}

impl PlayerArena {
    /// An arena without players.
    pub fn new() -> (arena: Self)
        ensures
            arena@ == Seq::<Option<PlayerView>>::empty(),
    {
        let arena = PlayerArena { slots: Vec::new() };
        assert(arena@ =~= Seq::<Option<PlayerView>>::empty());
        arena
    }

    /// The number of slots, live and empty.
    pub fn len(&self) -> (len: usize)
        ensures
            len == self@.len(),
    {
        self.slots.len()
    }

    /// Adds `player` in a new slot and returns its handle.
    pub fn insert(&mut self, player: PlayerEntity) -> (handle: usize)
        ensures
            handle == old(self)@.len(),
            final(self)@ == old(self)@.push(Some(player@)),
    {
        let handle: usize = self.slots.len();
        self.slots.push(Some(player));
        assert(self@ =~= old(self)@.push(Some(player@)));
        handle
    }

    /// Spawns a player of `character_type` at `position`, at full health
    /// and shields, and returns its handle. Fails, and leaves the arena as
    /// it was, where the catalog has no stats for the archetype.
    pub fn spawn(
        &mut self,
        catalog: &CharactersResource,
        character_type: CharacterType,
        position: MilliVec2,
    ) -> (spawned: Result<usize, ConfigError>)
        ensures
            catalog@.contains_key(character_type) ==> {
                &&& spawned == Ok::<usize, ConfigError>(old(self)@.len() as usize)
                &&& final(self)@ == old(self)@.push(
                    Some(
                        PlayerView {
                            character_type,
                            position,
                            health: catalog@[character_type].starting_health(),
                        },
                    ),
                )
            },
            !catalog@.contains_key(character_type) ==> {
                &&& spawned == Err::<usize, ConfigError>(ConfigError::UnknownArchetype)
                &&& final(self)@ == old(self)@
            },
    {
        match catalog.lookup(character_type) {
            Ok(character) => {
                let health = HealthComponent::from(&character);
                let handle: usize = self.insert(PlayerEntity { character_type, position, health });
                Ok(handle)
            },
            Err(error) => Err(error),
        }
    }

    /// The player at `handle`, or `None` where the slot is empty or
    /// `handle` is past the last slot.
    pub fn get(&self, handle: usize) -> (player: Option<PlayerEntity>)
        ensures
            handle < self@.len() ==> slot_view(player) == self@[handle as int],
            handle >= self@.len() ==> player is None,
    {
        if handle < self.slots.len() {
            self.slots[handle]
        } else {
            None
        }
    }

    /// Empties the slot at `handle`. Returns whether a live player was
    /// there.
    pub fn despawn(&mut self, handle: usize) -> (was_live: bool)
        ensures
            final(self)@ == despawned_at(old(self)@, handle as int),
            was_live == (handle < old(self)@.len() && old(self)@[handle as int] is Some),
    {
        if handle < self.slots.len() {
            let was_live: bool = self.slots[handle].is_some();
            self.slots.set(handle, None);
            assert(self@ =~= despawned_at(old(self)@, handle as int));
            was_live
        } else {
            false
        }
    }

    /// Deals `amount` points of damage to the player at `handle`. Returns
    /// whether a live player was there.
    pub fn apply_damage(&mut self, handle: usize, amount: usize) -> (was_live: bool)
        ensures
            final(self)@ == damaged_at(old(self)@, handle as int, amount as int),
            was_live == (handle < old(self)@.len() && old(self)@[handle as int] is Some),
    {
        if handle < self.slots.len() {
            match self.slots[handle] {
                Some(player) => {
                    let mut health = player.health;
                    health.apply_damage(amount);
                    self.slots.set(handle, Some(PlayerEntity { health, ..player }));
                    assert(self@ =~= damaged_at(old(self)@, handle as int, amount as int));
                    true
                },
                None => false,
            }
        } else {
            false
        }
    }

    /// Recharges the shields of the player at `handle` for `elapsed_micros`
    /// microseconds. Returns whether a live player was there. The player's
    /// accumulator has to be able to hold the added time, as
    /// [`HealthComponent::can_recharge`] tells.
    pub fn recharge_shields(&mut self, handle: usize, elapsed_micros: u32) -> (was_live: bool)
        requires
            can_recharge_at(old(self)@, handle as int, elapsed_micros as int),
        ensures
            final(self)@ == recharged_at(old(self)@, handle as int, elapsed_micros as int),
            was_live == (handle < old(self)@.len() && old(self)@[handle as int] is Some),
    {
        if handle < self.slots.len() {
            match self.slots[handle] {
                Some(player) => {
                    let mut health = player.health;
                    health.recharge_shields(elapsed_micros);
                    self.slots.set(handle, Some(PlayerEntity { health, ..player }));
                    assert(self@ =~= recharged_at(
                        old(self)@,
                        handle as int,
                        elapsed_micros as int,
                    ));
                    true
                },
                None => false,
            }
        } else {
            false
        }
    }
}

} // verus!
