//! Systems for managing players

use crate::math::MilliVec2;
use crate::player::{keeps_despawned, PlayerArena, PlayerView};
use crate::transition::{requested, AppStates, GameStateTransitionGate};
use vstd::prelude::*;

verus! {

/// The visual effects that can be spawned.
#[derive(Clone, Copy, Debug, PartialEq, Eq, Structural)]
pub enum EffectType {
    AllyBlastExplosion,
    AllyBlastDespawn,
    EnemyBlastExplosion,
    EnemyBlastDespawn,
    MobExplosion,
    ConsumableDespawn,
}

/// The motion an effect starts with; `None` for a component at rest.
#[derive(Clone, Copy, Debug, PartialEq, Eq, Structural)]
pub struct InitialMotion {
    /// Linear velocity, in thousandths of a world unit per second
    pub linvel: Option<MilliVec2>,
    /// Angular velocity, in thousandths of a radian per second
    pub angvel: Option<i64>,
}

impl InitialMotion {
    pub open spec fn at_rest() -> InitialMotion {
        InitialMotion { linvel: None, angvel: None }
    }
}

impl Default for InitialMotion {
    /// No motion at all.
    fn default() -> (motion: Self)
        ensures
            motion == InitialMotion::at_rest(),
    {
        InitialMotion { linvel: None, angvel: None }
    }
}

/// A request to the effect subsystem to spawn an effect.
#[derive(Clone, Copy, Debug, PartialEq, Eq, Structural)]
pub struct SpawnEffectEvent {
    /// Type of the effect
    pub effect_type: EffectType,
    /// Where the effect appears
    pub position: MilliVec2,
    /// Scale the effect starts with, in thousandths
    pub scale: MilliVec2,
    /// Rotation the effect starts with, in thousandths of a radian
    pub rotation: i64,
    /// Motion the effect starts with
    pub initial_motion: InitialMotion,
}

/// The preloaded sounds that can be played on the effects channel.
#[derive(Clone, Copy, Debug, PartialEq, Eq, Structural)]
pub enum SoundEffect {
    PlayerExplosion,
    PlayerHit,
}

/// What the death of a player asks of the surrounding engine.
#[derive(Clone, Copy, Debug, PartialEq, Eq, Structural)]
pub enum DeathRequest {
    /// Remove the player with this handle from the simulation.
    Despawn { handle: usize },
    /// Spawn a visual effect.
    SpawnEffect(SpawnEffectEvent),
    /// Play a sound, without waiting for it.
    PlaySound(SoundEffect),
}

/// A player whose death is to be handled: one that is still in its slot and
/// has no health left.
pub open spec fn is_dying(slot: Option<PlayerView>) -> bool {
    slot matches Some(player) && player.health.is_dead()
}

/// Whether any slot holds a dying player.
pub open spec fn any_dying(slots: Seq<Option<PlayerView>>) -> bool {
    exists|handle: int| 0 <= handle < slots.len() && is_dying(#[trigger] slots[handle])
}

/// The number of slots that hold a dying player.
pub open spec fn dying_count(slots: Seq<Option<PlayerView>>) -> nat
    decreases slots.len(),
{
    if slots.len() == 0 {
        0
    } else {
        dying_count(slots.drop_last()) + if is_dying(slots.last()) {
            1nat
        } else {
            0nat
        }
    }
}

/// The explosion that marks a death at `position`: it starts with no size,
/// no rotation and no motion.
pub open spec fn explosion_at(position: MilliVec2) -> SpawnEffectEvent {
    SpawnEffectEvent {
        effect_type: EffectType::MobExplosion,
        position,
        scale: MilliVec2::zero(),
        rotation: 0,
        initial_motion: InitialMotion::at_rest(),
    }
}

/// The requests that the death of the player at `handle` gives rise to, in
/// the order in which they are made.
pub open spec fn requests_for(handle: int, player: PlayerView) -> Seq<DeathRequest> {
    seq![
        DeathRequest::Despawn { handle: handle as usize },
        DeathRequest::SpawnEffect(explosion_at(player.position)),
        DeathRequest::PlaySound(SoundEffect::PlayerExplosion),
    ]
}

/// The requests of one tick: those of every dying player, by handle.
pub open spec fn death_requests(slots: Seq<Option<PlayerView>>) -> Seq<DeathRequest>
    decreases slots.len(),
{
    if slots.len() == 0 {
        Seq::empty()
    } else if is_dying(slots.last()) {
        death_requests(slots.drop_last()) + requests_for(slots.len() - 1, slots.last().unwrap())
    } else {
        death_requests(slots.drop_last())
    }
}

/// The slots once every dying player has left: their slots are empty, all
/// others are as before.
pub open spec fn after_deaths(slots: Seq<Option<PlayerView>>) -> Seq<Option<PlayerView>> {
    Seq::new(
        slots.len(),
        |handle: int|
            if is_dying(slots[handle]) {
                None
            } else {
                slots[handle]
            },
    )
}

/// The pending transition after a tick over `slots`: each death asks for the
/// game-over state, so one death or many leave the same single request, and
/// a transition that was pending before stays.
pub open spec fn gate_after_deaths(
    pending: Option<AppStates>,
    slots: Seq<Option<PlayerView>>,
) -> Option<AppStates> {
    if any_dying(slots) {
        requested(pending, AppStates::GameOver)
    } else {
        pending
    }
}

/// How many of `requests` ask for a despawn.
pub open spec fn despawn_count(requests: Seq<DeathRequest>) -> nat {
    requests.filter(|request: DeathRequest| request is Despawn).len()
}

/// How many of `requests` ask for the despawn of the player at `handle`.
pub open spec fn despawn_count_of(requests: Seq<DeathRequest>, handle: usize) -> nat {
    requests.filter(|request: DeathRequest| request == DeathRequest::Despawn { handle }).len()
}

/// How many of `requests` ask for an effect.
pub open spec fn effect_count(requests: Seq<DeathRequest>) -> nat {
    requests.filter(|request: DeathRequest| request is SpawnEffect).len()
}

/// How many of `requests` ask for a sound.
pub open spec fn sound_count(requests: Seq<DeathRequest>) -> nat {
    requests.filter(|request: DeathRequest| request is PlaySound).len()
}

proof fn lemma_filter_one(request: DeathRequest, wanted: spec_fn(DeathRequest) -> bool)
    ensures
        seq![request].filter(wanted).len() == if wanted(request) {
            1nat
        } else {
            0nat
        },
{
    reveal_with_fuel(Seq::filter, 2);
    assert(seq![request].drop_last() =~= Seq::<DeathRequest>::empty());
}

proof fn lemma_filter_requests_for(
    handle: int,
    player: PlayerView,
    wanted: spec_fn(DeathRequest) -> bool,
)
    ensures
        requests_for(handle, player).filter(wanted).len() == (if wanted(
            requests_for(handle, player)[0],
        ) {
            1nat
        } else {
            0nat
        }) + (if wanted(requests_for(handle, player)[1]) {
            1nat
        } else {
            0nat
        }) + (if wanted(requests_for(handle, player)[2]) {
            1nat
        } else {
            0nat
        }),
{
    let requests = requests_for(handle, player);
    let despawn = seq![requests[0]];
    let effect = seq![requests[1]];
    let sound = seq![requests[2]];
    assert(requests =~= despawn + effect + sound);
    Seq::filter_distributes_over_add(despawn + effect, sound, wanted);
    Seq::filter_distributes_over_add(despawn, effect, wanted);
    lemma_filter_one(requests[0], wanted);
    lemma_filter_one(requests[1], wanted);
    lemma_filter_one(requests[2], wanted);
}

/// Every death gives rise to exactly one despawn request, one effect
/// request and one sound request: a tick in which N players die makes N
/// requests of each kind, three for each death, and none besides.
pub proof fn lemma_one_request_of_each_kind_per_death(slots: Seq<Option<PlayerView>>)
    ensures
        despawn_count(death_requests(slots)) == dying_count(slots),
        effect_count(death_requests(slots)) == dying_count(slots),
        sound_count(death_requests(slots)) == dying_count(slots),
        death_requests(slots).len() == 3 * dying_count(slots),
    decreases slots.len(),
{
    let is_despawn = |request: DeathRequest| request is Despawn;
    let is_effect = |request: DeathRequest| request is SpawnEffect;
    let is_sound = |request: DeathRequest| request is PlaySound;
    if slots.len() == 0 {
        reveal_with_fuel(Seq::filter, 1);
    } else {
        lemma_one_request_of_each_kind_per_death(slots.drop_last());
        if is_dying(slots.last()) {
            let earlier = death_requests(slots.drop_last());
            let last = requests_for(slots.len() - 1, slots.last().unwrap());
            Seq::filter_distributes_over_add(earlier, last, is_despawn);
            Seq::filter_distributes_over_add(earlier, last, is_effect);
            Seq::filter_distributes_over_add(earlier, last, is_sound);
            lemma_filter_requests_for(slots.len() - 1, slots.last().unwrap(), is_despawn);
            lemma_filter_requests_for(slots.len() - 1, slots.last().unwrap(), is_effect);
            lemma_filter_requests_for(slots.len() - 1, slots.last().unwrap(), is_sound);
        }
    }
}

/// The despawn of a player is requested exactly once if the player is
/// dying, and not at all otherwise.
pub proof fn lemma_one_despawn_per_dying_player(slots: Seq<Option<PlayerView>>, handle: usize)
    requires
        slots.len() <= usize::MAX,
    ensures
        despawn_count_of(death_requests(slots), handle) == if handle < slots.len() && is_dying(
            slots[handle as int],
        ) {
            1nat
        } else {
            0nat
        },
    decreases slots.len(),
{
    let is_despawn_of = |request: DeathRequest| request == DeathRequest::Despawn { handle };
    if slots.len() == 0 {
        reveal_with_fuel(Seq::filter, 1);
    } else {
        lemma_one_despawn_per_dying_player(slots.drop_last(), handle);
        if is_dying(slots.last()) {
            let earlier = death_requests(slots.drop_last());
            let last = requests_for(slots.len() - 1, slots.last().unwrap());
            Seq::filter_distributes_over_add(earlier, last, is_despawn_of);
            lemma_filter_requests_for(slots.len() - 1, slots.last().unwrap(), is_despawn_of);
        }
    }
}

/// A tick in which nobody dies asks for nothing, and leaves the players
/// and the pending transition as they are.
pub proof fn lemma_no_death_no_request(
    slots: Seq<Option<PlayerView>>,
    pending: Option<AppStates>,
)
    requires
        !any_dying(slots),
    ensures
        death_requests(slots) == Seq::<DeathRequest>::empty(),
        after_deaths(slots) == slots,
        gate_after_deaths(pending, slots) == pending,
    decreases slots.len(),
{
    if slots.len() > 0 {
        assert(!is_dying(slots[slots.len() - 1]));
        assert forall|handle: int| 0 <= handle < slots.drop_last().len() implies !is_dying(
            #[trigger] slots.drop_last()[handle],
        ) by {
            assert(!is_dying(slots[handle]));
        }
        lemma_no_death_no_request(slots.drop_last(), pending);
    }
    assert forall|handle: int| 0 <= handle < slots.len() implies after_deaths(slots)[handle]
        == slots[handle] by {
        assert(!is_dying(slots[handle]));
    }
    assert(after_deaths(slots) =~= slots);
}

/// A death is handled once: after a tick no player is dying, so the next
/// tick asks for nothing on account of the players that died in this one.
/// Their slots are empty and stay empty.
pub proof fn lemma_death_is_handled_once(
    slots: Seq<Option<PlayerView>>,
    pending: Option<AppStates>,
)
    ensures
        !any_dying(after_deaths(slots)),
        death_requests(after_deaths(slots)) == Seq::<DeathRequest>::empty(),
        keeps_despawned(slots, after_deaths(slots)),
{
    lemma_no_death_no_request(after_deaths(slots), pending);
}

/// However many players die in one tick, one transition is honoured at
/// most: the tick ends with the game-over request pending if none was
/// pending and anyone died, and otherwise with what was pending before.
pub proof fn lemma_one_transition_per_tick(
    slots: Seq<Option<PlayerView>>,
    pending: Option<AppStates>,
)
    ensures
        pending is Some ==> gate_after_deaths(pending, slots) == pending,
        pending is None && any_dying(slots) ==> gate_after_deaths(pending, slots) == Some(
            AppStates::GameOver,
        ),
        pending is None && !any_dying(slots) ==> gate_after_deaths(pending, slots)
            == None::<AppStates>,
        any_dying(slots) <==> dying_count(slots) > 0,
    decreases slots.len(),
{
    if slots.len() > 0 {
        lemma_one_transition_per_tick(slots.drop_last(), pending);
        assert(slots.drop_last() =~= slots.take(slots.len() - 1));
        assert(slots.take(slots.len() as int) =~= slots);
        lemma_any_dying_step(slots, slots.len() - 1);
    }
}

proof fn lemma_any_dying_step(slots: Seq<Option<PlayerView>>, handle: int)
    requires
        0 <= handle < slots.len(),
    ensures
        any_dying(slots.take(handle + 1)) <==> any_dying(slots.take(handle)) || is_dying(
            slots[handle],
        ),
{
    let shorter = slots.take(handle);
    let longer = slots.take(handle + 1);
    if any_dying(shorter) {
        let dying = choose|dying: int| 0 <= dying < shorter.len() && is_dying(shorter[dying]);
        assert(is_dying(longer[dying]));
    }
    if is_dying(slots[handle]) {
        assert(is_dying(longer[handle]));
    }
    if any_dying(longer) {
        let dying = choose|dying: int| 0 <= dying < longer.len() && is_dying(longer[dying]);
        if dying < handle {
            assert(is_dying(shorter[dying]));
        }
    }
}

/// Handle player reaching zero health
///
/// For every player that is in its slot with no health left, in the order
/// of the handles: asks for the player to be despawned, for an explosion at
/// the place where it was, and for the explosion sound, then requests the
/// game-over state and empties the slot. Only the first transition request
/// is honoured. Since the slot is empty afterwards, a death is handled in
/// one tick and never again.
pub fn player_death_system(
    players: &mut PlayerArena,
    end_game_trans_resource: &mut GameStateTransitionGate,
) -> (requests: Vec<DeathRequest>)
    ensures
        requests@ == death_requests(old(players)@),
        final(players)@ == after_deaths(old(players)@),
        final(end_game_trans_resource)@ == gate_after_deaths(
            old(end_game_trans_resource)@,
            old(players)@,
        ),
{
    let mut requests: Vec<DeathRequest> = Vec::new();
    let count: usize = players.len();
    let mut handle: usize = 0;
    assert(old(players)@.take(0) =~= Seq::<Option<PlayerView>>::empty());
    while handle < count
        invariant
            handle <= count,
            count == old(players)@.len(),
            players@.len() == count,
            forall|i: int|
                0 <= i < handle ==> players@[i] == after_deaths(old(players)@)[i],
            forall|i: int| handle <= i < count ==> players@[i] == old(players)@[i],
            requests@ == death_requests(old(players)@.take(handle as int)),
            end_game_trans_resource@ == gate_after_deaths(
                old(end_game_trans_resource)@,
                old(players)@.take(handle as int),
            ),
        decreases count - handle,
    {
        proof {
            lemma_any_dying_step(old(players)@, handle as int);
            assert(old(players)@.take(handle + 1).drop_last() =~= old(players)@.take(
                handle as int,
            ));
        }
        match players.get(handle) {
            Some(player) => {
                if player.health.is_dead() {
                    requests.push(DeathRequest::Despawn { handle });
                    requests.push(
                        DeathRequest::SpawnEffect(
                            SpawnEffectEvent {
                                effect_type: EffectType::MobExplosion,
                                position: player.position,
                                scale: MilliVec2::zero(),
                                rotation: 0,
                                initial_motion: InitialMotion::default(),
                            },
                        ),
                    );
                    requests.push(DeathRequest::PlaySound(SoundEffect::PlayerExplosion));
                    end_game_trans_resource.request(AppStates::GameOver);
                    players.despawn(handle);
                    assert(requests@ =~= death_requests(old(players)@.take(handle as int))
                        + requests_for(handle as int, old(players)@[handle as int].unwrap()));
                }
            },
            None => {},
        }
        handle = handle + 1;
    }
    assert(old(players)@.take(count as int) =~= old(players)@);
    assert(players@ =~= after_deaths(old(players)@));
    requests
}

} // verus!
