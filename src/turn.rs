//! The turn engine. Each tick: intents are cleared, autonomous actors on the
//! current level propose moves, intents are checked and paid for, committed
//! actions are applied, and the energy the player spends is handed out to
//! the actors on the player's level.
use crate::component::{Energy, Intent, PerformAction, Position, SpendEnergy, Speed};
use crate::map::{GameMap, Maps};
use crate::rng::{range, GameRng};
use vstd::prelude::*;

verus! {

/// One actor: where it stands, and its optional parts.
#[derive(Clone, Copy, Debug)]
pub struct Actor {
    pub position: Position,
    pub energy: Option<Energy>,
    pub speed: Option<Speed>,
    pub intent: Option<Intent>,
    pub action: Option<PerformAction>,
    pub spend: Option<SpendEnergy>,
    pub player: bool,
}

/// Whose turn it is.
#[derive(PartialEq, Eq, Structural, Clone, Copy, Debug)]
pub enum TurnState {
    PlayersTurn,
    NotPlayersTurn,
}

/// The player moved by `(dx, dy)`.
#[derive(PartialEq, Eq, Structural, Clone, Copy, Debug)]
pub struct PlayerMoveRelativeEvent {
    pub dx: i32,
    pub dy: i32,
}

/// The player spent this much energy.
#[derive(PartialEq, Eq, Structural, Clone, Copy, Debug)]
pub struct PlayerSpentEnergy(pub i32);

/// Kinds of action an entity can take.
#[derive(PartialEq, Eq, Structural, Clone, Copy, Debug)]
pub enum EntityAction {
    MoveRelative,
    ASdfDdoijfwe,
}

/// The state of the game under way: the levels, the one in play, the
/// player's actor and its position.
pub struct CurrentGameData {
    pub current_map: usize,
    pub player: Option<usize>,
    pub player_pos: Position,
    pub maps: Maps,
}

impl CurrentGameData {
    /// Every level is well formed and the level in play is one of them.
    pub open spec fn wf(&self) -> bool {
        &&& self.current_map < self.maps.map@.len()
        &&& forall|k: int| 0 <= k < self.maps.map@.len() ==> (#[trigger] self.maps.map@[k]).wf()
    }
}

/// `(x, y)` is a walkable tile of the level.
pub open spec fn walkable_at(m: GameMap, x: int, y: int) -> bool {
    m.in_bounds(x, y) && m.tile(x, y).tile_walkable
}

/// Whether `v` is an `i32`.
pub open spec fn fits_i32(v: int) -> bool {
    i32::MIN <= v <= i32::MAX
}

/// Energy is never negative, and a pending debit is never more than the
/// energy it is drawn from.
pub open spec fn actor_ok(a: Actor) -> bool {
    &&& (a.energy matches Some(e) ==> e.energy >= 0)
    &&& (a.spend matches Some(s) ==> (a.energy matches Some(e) && 0 <= s.0 <= e.energy))
}

/// Every actor is as `actor_ok` says.
pub open spec fn actors_ok(actors: Seq<Actor>) -> bool {
    forall|i: int| 0 <= i < actors.len() ==> actor_ok(#[trigger] actors[i])
}

/// The intent for a step of `(dx, dy)` from `pos`: the move where it lands
/// on a walkable tile, nothing otherwise.
pub open spec fn step_intent(m: GameMap, pos: Position, dx: i32, dy: i32) -> Intent {
    if walkable_at(m, pos.x + dx, pos.y + dy) {
        Intent::MoveRelative { dx, dy }
    } else {
        Intent::Nothing
    }
}

/// Whether the tile `(x, y)`, given as wide integers, is walkable.
fn walkable_wide(m: &GameMap, x: i64, y: i64) -> (r: bool)
    requires
        m.wf(),
    ensures
        r == walkable_at(*m, x as int, y as int),
{
    if x < 0 || y < 0 || x as u64 >= m.width as u64 || y as u64 >= m.height as u64 {
        return false;
    }
    m.tile_at(x as usize, y as usize).tile_walkable
}

/// The intent of an actor at `pos` that would step by `(dx, dy)`.
pub fn intent_for_step(m: &GameMap, pos: Position, dx: i32, dy: i32) -> (r: Intent)
    requires
        m.wf(),
    ensures
        r == step_intent(*m, pos, dx, dy),
{
    if walkable_wide(m, pos.x as i64 + dx as i64, pos.y as i64 + dy as i64) {
        Intent::MoveRelative { dx, dy }
    } else {
        Intent::Nothing
    }
}

/// Removes every intent, so that none outlives its tick.
pub fn cleanup_intents(actors: &mut Vec<Actor>)
    ensures
        final(actors)@.len() == old(actors)@.len(),
        forall|i: int|
            0 <= i < final(actors)@.len() ==> (#[trigger] final(actors)@[i]) == (Actor {
                intent: None,
                ..old(actors)@[i]
            }),
{
    let mut i: usize = 0;
    while i < actors.len()
        invariant
            i <= actors@.len(),
            actors@.len() == old(actors)@.len(),
            forall|k: int|
                0 <= k < actors@.len() ==> (#[trigger] actors@[k]) == (if k < i {
                    Actor { intent: None, ..old(actors)@[k] }
                } else {
                    old(actors)@[k]
                }),
        decreases actors@.len() - i,
    {
        let mut a = actors[i];
        a.intent = None;
        actors.set(i, a);
        i += 1;
    }
}

/// Each autonomous actor on the level in play draws a step of -1, 0 or 1
/// on each axis and takes it as its intent where it lands on a walkable
/// tile, or the intent to do nothing. The draws are made in actor order;
/// every other actor is left as it was.
pub fn produce_intents_system(cgd: &CurrentGameData, actors: &mut Vec<Actor>, rng: &mut GameRng)
    requires
        cgd.wf(),
    ensures
        final(actors)@.len() == old(actors)@.len(),
        forall|i: int|
            0 <= i < final(actors)@.len() ==> {
                let a = old(actors)@[i];
                let b = #[trigger] final(actors)@[i];
                if !a.player && a.position.map == cgd.current_map {
                    exists|dx: i32, dy: i32|
                        -1 <= dx <= 1 && -1 <= dy <= 1 && b == (Actor {
                            intent: Some(step_intent(cgd.maps.map@[cgd.current_map as int], a.position, dx, dy)),
                            ..a
                        })
                } else {
                    b == a
                }
            },
{
    let ghost start = *actors;
    let mut i: usize = 0;
    while i < actors.len()
        invariant
            cgd.wf(),
            i <= actors@.len(),
            actors@.len() == start@.len(),
            forall|k: int|
                i <= k < actors@.len() ==> (#[trigger] actors@[k]) == start@[k],
            forall|k: int|
                0 <= k < i ==> {
                    let a = start@[k];
                    let b = #[trigger] actors@[k];
                    if !a.player && a.position.map == cgd.current_map {
                        exists|dx: i32, dy: i32|
                            -1 <= dx <= 1 && -1 <= dy <= 1 && b == (Actor {
                                intent: Some(step_intent(cgd.maps.map@[cgd.current_map as int], a.position, dx, dy)),
                                ..a
                            })
                    } else {
                        b == a
                    }
                },
        decreases actors@.len() - i,
    {
        let mut a = actors[i];
        if !a.player && a.position.map >= 0 && a.position.map as usize == cgd.current_map {
            let dx = range(rng, -1, 1);
            let dy = range(rng, -1, 1);
            let level = &cgd.maps.map[cgd.current_map];
            a.intent = Some(intent_for_step(level, a.position, dx, dy));
            actors.set(i, a);
            assert(-1 <= dx <= 1 && -1 <= dy <= 1 && actors@[i as int] == (Actor {
                intent: Some(step_intent(cgd.maps.map@[cgd.current_map as int], start@[i as int].position, dx, dy)),
                ..start@[i as int]
            }));
        }
        i += 1;
    }
}

/// The energy an action of base cost `cost` takes from an actor of speed
/// `speed`: the cost scaled by the speed, rounded down.
pub open spec fn scaled_cost(cost: int, speed: Option<Speed>) -> int {
    match speed {
        Some(s) => cost * s.percent / 100,
        None => cost,
    }
}

/// The action that a movement intent commits, if any.
pub open spec fn action_of(intent: Intent) -> Option<PerformAction> {
    match intent {
        Intent::MoveRelative { dx, dy } => Some(PerformAction::MoveRelative { dx, dy }),
        Intent::MoveAbsolute { x, y } => Some(PerformAction::MoveAbsolute { x, y }),
        Intent::Nothing => None,
    }
}

/// What processing does to an autonomous actor with energy and a speed: a
/// movement intent is committed, with its scaled cost as the debit, where
/// the actor has that much energy; otherwise the intent lapses and nothing
/// changes. An actor without energy or speed is not processed.
pub open spec fn processed(a: Actor) -> Actor {
    match (a.intent, a.energy, a.speed) {
        (Some(intent), Some(e), Some(_)) => match action_of(intent) {
            Some(act) => {
                let needs = scaled_cost(intent.cost(), a.speed);
                if needs <= e.energy {
                    Actor { action: Some(act), spend: Some(SpendEnergy(needs as i32)), ..a }
                } else {
                    a
                }
            },
            None => a,
        },
        _ => a,
    }
}

/// The step that the player's intent asks for, from `pos`.
pub open spec fn player_step(intent: Intent, pos: Position) -> Option<(int, int)> {
    match intent {
        Intent::MoveRelative { dx, dy } => Some((dx as int, dy as int)),
        Intent::MoveAbsolute { x, y } => Some((x - pos.x, y - pos.y)),
        Intent::Nothing => None,
    }
}

/// The events that the player's intent gives: a move and the energy it
/// cost, where the step lands on a walkable tile of the player's level.
pub open spec fn player_events(cgd: &CurrentGameData, a: Actor) -> Option<(PlayerMoveRelativeEvent, PlayerSpentEnergy)> {
    match a.intent {
        Some(intent) => match player_step(intent, cgd.player_pos) {
            Some(d) => {
                let m = cgd.player_pos.map;
                if 0 <= m < cgd.maps.map@.len() && fits_i32(d.0) && fits_i32(d.1) && walkable_at(
                    cgd.maps.map@[m as int],
                    cgd.player_pos.x + d.0,
                    cgd.player_pos.y + d.1,
                ) {
                    Some((PlayerMoveRelativeEvent { dx: d.0 as i32, dy: d.1 as i32 }, PlayerSpentEnergy(intent.cost() as i32)))
                } else {
                    None
                }
            },
            None => None,
        },
        None => None,
    }
}

/// The move events of the player's actors among `actors`, in order.
pub open spec fn moves_of(cgd: &CurrentGameData, actors: Seq<Actor>) -> Seq<PlayerMoveRelativeEvent>
    decreases actors.len(),
{
    if actors.len() == 0 {
        Seq::empty()
    } else {
        let before = moves_of(cgd, actors.drop_last());
        let a = actors.last();
        match player_events(cgd, a) {
            Some(e) => if a.player { before.push(e.0) } else { before },
            None => before,
        }
    }
}

/// The spent-energy events of the player's actors among `actors`, in order.
pub open spec fn spent_of(cgd: &CurrentGameData, actors: Seq<Actor>) -> Seq<PlayerSpentEnergy>
    decreases actors.len(),
{
    if actors.len() == 0 {
        Seq::empty()
    } else {
        let before = spent_of(cgd, actors.drop_last());
        let a = actors.last();
        match player_events(cgd, a) {
            Some(e) => if a.player { before.push(e.1) } else { before },
            None => before,
        }
    }
}

fn scaled_cost_exec(cost: i32, speed: Option<Speed>) -> (r: i64)
    requires
        0 <= cost <= i32::MAX,
    ensures
        r == scaled_cost(cost as int, speed),
        0 <= r <= 0x200_0000_0000_0000,
{
    match speed {
        Some(s) => {
            proof {
                assert(0 <= cost as int * s.percent as int <= i32::MAX as int * u32::MAX as int)
                    by (nonlinear_arith)
                    requires
                        0 <= cost <= i32::MAX,
                        0 <= s.percent <= u32::MAX,
                ;
                assert((cost as int * s.percent as int) / 100 <= 0x200_0000_0000_0000) by (nonlinear_arith)
                    requires
                        0 <= cost as int * s.percent as int <= i32::MAX as int * u32::MAX as int,
                ;
            }
            cost as i64 * s.percent as i64 / 100
        },
        None => cost as i64,
    }
}

/// Checks and pays for every intent, in actor order. The player's intent
/// bypasses the energy gate: where its step lands on a walkable tile it
/// gives a move event and a spent-energy event. An autonomous actor commits
/// its move as `processed` says.
pub fn process_intents_system(cgd: &CurrentGameData, actors: &mut Vec<Actor>) -> (r: (
    Vec<PlayerMoveRelativeEvent>,
    Vec<PlayerSpentEnergy>,
))
    requires
        cgd.wf(),
        actors_ok(old(actors)@),
    ensures
        actors_ok(final(actors)@),
        final(actors)@.len() == old(actors)@.len(),
        forall|i: int|
            0 <= i < final(actors)@.len() ==> #[trigger] final(actors)@[i] == (if old(actors)@[i].player {
                old(actors)@[i]
            } else {
                processed(old(actors)@[i])
            }),
        forall|i: int|
            0 <= i < final(actors)@.len() ==> ((#[trigger] final(actors)@[i]).energy matches Some(e)
                ==> e.energy >= 0),
        r.0@ == moves_of(cgd, old(actors)@),
        r.1@ == spent_of(cgd, old(actors)@),
        r.0@.len() == r.1@.len(),
        forall|j: int| 0 <= j < r.1@.len() ==> (#[trigger] r.1@[j]).0 >= 0,
        r.0@.len() == 0 <==> forall|i: int|
            0 <= i < old(actors)@.len() && (#[trigger] old(actors)@[i]).player ==> player_events(
                cgd,
                old(actors)@[i],
            ) is None,
{
    let ghost start = *actors;
    let mut moves: Vec<PlayerMoveRelativeEvent> = Vec::new();
    let mut spent: Vec<PlayerSpentEnergy> = Vec::new();
    let mut i: usize = 0;
    while i < actors.len()
        invariant
            cgd.wf(),
            i <= actors@.len(),
            actors@.len() == start@.len(),
            actors_ok(start@),
            actors_ok(actors@),
            forall|k: int| i <= k < actors@.len() ==> (#[trigger] actors@[k]) == start@[k],
            forall|k: int|
                0 <= k < i ==> #[trigger] actors@[k] == (if start@[k].player {
                    start@[k]
                } else {
                    processed(start@[k])
                }),
            moves@ == moves_of(cgd, start@.subrange(0, i as int)),
            spent@ == spent_of(cgd, start@.subrange(0, i as int)),
            moves@.len() == spent@.len(),
            forall|j: int| 0 <= j < spent@.len() ==> (#[trigger] spent@[j]).0 >= 0,
            moves@.len() == 0 <==> forall|k: int|
                0 <= k < i && (#[trigger] start@[k]).player ==> player_events(cgd, start@[k]) is None,
        decreases actors@.len() - i,
    {
        let a = actors[i];
        proof {
            assert(start@.subrange(0, i + 1).drop_last() == start@.subrange(0, i as int));
            assert(start@.subrange(0, i + 1).last() == a);
        }
        if a.player {
            if let Some(intent) = a.intent {
                let cost = intent.energy_cost();
                let p = cgd.player_pos;
                let step: Option<(i64, i64)> = match intent {
                    Intent::MoveRelative { dx, dy } => Some((dx as i64, dy as i64)),
                    Intent::MoveAbsolute { x, y } => Some((x as i64 - p.x as i64, y as i64 - p.y as i64)),
                    Intent::Nothing => None,
                };
                if let Some(d) = step {
                    if p.map >= 0 && (p.map as usize) < cgd.maps.map.len() && i32::MIN as i64 <= d.0
                        && d.0 <= i32::MAX as i64 && i32::MIN as i64 <= d.1 && d.1 <= i32::MAX as i64 {
                        let level = &cgd.maps.map[p.map as usize];
                        if walkable_wide(level, p.x as i64 + d.0, p.y as i64 + d.1) {
                            moves.push(PlayerMoveRelativeEvent { dx: d.0 as i32, dy: d.1 as i32 });
                            spent.push(PlayerSpentEnergy(cost));
                        }
                    }
                }
            }
        } else {
            let mut b = a;
            if let (Some(intent), Some(e), Some(_)) = (a.intent, a.energy, a.speed) {
                let act: Option<PerformAction> = match intent {
                    Intent::MoveRelative { dx, dy } => Some(PerformAction::MoveRelative { dx, dy }),
                    Intent::MoveAbsolute { x, y } => Some(PerformAction::MoveAbsolute { x, y }),
                    Intent::Nothing => None,
                };
                if let Some(act) = act {
                    let needs = scaled_cost_exec(intent.energy_cost(), a.speed);
                    if needs <= e.energy as i64 {
                        b.action = Some(act);
                        b.spend = Some(SpendEnergy(needs as i32));
                    }
                }
            }
            actors.set(i, b);
        }
        i += 1;
    }
    proof {
        assert(start@.subrange(0, start@.len() as int) == start@);
    }
    (moves, spent)
}

/// Where an actor's committed move takes it (a relative move that would
/// leave `i32` coordinates is dropped).
pub open spec fn moved(a: Actor) -> Position {
    match a.action {
        Some(PerformAction::MoveAbsolute { x, y }) => Position { x, y, ..a.position },
        Some(PerformAction::MoveRelative { dx, dy }) => if fits_i32(a.position.x + dx) && fits_i32(
            a.position.y + dy,
        ) {
            Position { x: (a.position.x + dx) as i32, y: (a.position.y + dy) as i32, ..a.position }
        } else {
            a.position
        },
        None => a.position,
    }
}

/// Carries out every committed move: an absolute move sets the
/// coordinates, a relative one adds to them. The moves are used up.
pub fn movement_action_system(actors: &mut Vec<Actor>)
    requires
        actors_ok(old(actors)@),
    ensures
        actors_ok(final(actors)@),
        final(actors)@.len() == old(actors)@.len(),
        forall|i: int|
            0 <= i < final(actors)@.len() ==> #[trigger] final(actors)@[i] == (Actor {
                position: moved(old(actors)@[i]),
                action: None,
                ..old(actors)@[i]
            }),
{
    let ghost start = *actors;
    let mut i: usize = 0;
    while i < actors.len()
        invariant
            i <= actors@.len(),
            actors@.len() == start@.len(),
            actors_ok(start@),
            forall|k: int| i <= k < actors@.len() ==> (#[trigger] actors@[k]) == start@[k],
            forall|k: int|
                0 <= k < i ==> #[trigger] actors@[k] == (Actor {
                    position: moved(start@[k]),
                    action: None,
                    ..start@[k]
                }),
        decreases actors@.len() - i,
    {
        let mut a = actors[i];
        match a.action {
            Some(PerformAction::MoveAbsolute { x, y }) => {
                a.position.x = x;
                a.position.y = y;
            },
            Some(PerformAction::MoveRelative { dx, dy }) => {
                let nx = a.position.x as i64 + dx as i64;
                let ny = a.position.y as i64 + dy as i64;
                if i32::MIN as i64 <= nx && nx <= i32::MAX as i64 && i32::MIN as i64 <= ny && ny
                    <= i32::MAX as i64 {
                    a.position.x = nx as i32;
                    a.position.y = ny as i32;
                }
            },
            None => {},
        }
        a.action = None;
        actors.set(i, a);
        i += 1;
    }
}

/// An actor's energy once its debit is paid.
pub open spec fn paid(a: Actor) -> Option<Energy> {
    match (a.energy, a.spend) {
        (Some(e), Some(s)) => Some(Energy { energy: (e.energy - s.0) as i32 }),
        _ => a.energy,
    }
}

/// Pays every debit from the actor's energy; the debits are used up. Energy
/// stays at 0 or more, since no debit is more than the energy it is drawn
/// from.
pub fn spend_energy_system(actors: &mut Vec<Actor>)
    requires
        actors_ok(old(actors)@),
    ensures
        actors_ok(final(actors)@),
        final(actors)@.len() == old(actors)@.len(),
        forall|i: int|
            0 <= i < final(actors)@.len() ==> #[trigger] final(actors)@[i] == (Actor {
                energy: paid(old(actors)@[i]),
                spend: None,
                ..old(actors)@[i]
            }),
{
    let ghost start = *actors;
    let mut i: usize = 0;
    while i < actors.len()
        invariant
            i <= actors@.len(),
            actors@.len() == start@.len(),
            actors_ok(start@),
            actors_ok(actors@),
            forall|k: int| i <= k < actors@.len() ==> (#[trigger] actors@[k]) == start@[k],
            forall|k: int|
                0 <= k < i ==> #[trigger] actors@[k] == (Actor {
                    energy: paid(start@[k]),
                    spend: None,
                    ..start@[k]
                }),
        decreases actors@.len() - i,
    {
        let mut a = actors[i];
        if let (Some(e), Some(s)) = (a.energy, a.spend) {
            a.energy = Some(Energy { energy: e.energy - s.0 });
        }
        a.spend = None;
        actors.set(i, a);
        i += 1;
    }
}

/// The player's position after the move events, in order; a move that
/// would leave `i32` coordinates is dropped.
pub open spec fn moved_by(pos: Position, events: Seq<PlayerMoveRelativeEvent>) -> Position
    decreases events.len(),
{
    if events.len() == 0 {
        pos
    } else {
        let p = moved_by(pos, events.drop_last());
        let e = events.last();
        if fits_i32(p.x + e.dx) && fits_i32(p.y + e.dy) {
            Position { x: (p.x + e.dx) as i32, y: (p.y + e.dy) as i32, ..p }
        } else {
            p
        }
    }
}

/// Moves the player's actor by each move event. Once the player has moved
/// it is no longer the player's turn.
pub fn player_move_system(
    cgd: &CurrentGameData,
    events: &Vec<PlayerMoveRelativeEvent>,
    actors: &mut Vec<Actor>,
    state: TurnState,
) -> (r: TurnState)
    requires
        actors_ok(old(actors)@),
    ensures
        actors_ok(final(actors)@),
        final(actors)@.len() == old(actors)@.len(),
        forall|i: int|
            0 <= i < final(actors)@.len() ==> #[trigger] final(actors)@[i] == (if cgd.player == Some(
                i as usize,
            ) {
                Actor { position: moved_by(old(actors)@[i].position, events@), ..old(actors)@[i] }
            } else {
                old(actors)@[i]
            }),
        r == (if events@.len() == 0 {
            state
        } else {
            TurnState::NotPlayersTurn
        }),
{
    let mut next = state;
    let mut j: usize = 0;
    let ghost start = *actors;
    while j < events.len()
        invariant
            j <= events@.len(),
            actors@.len() == start@.len(),
            actors_ok(actors@),
            forall|i: int|
                0 <= i < actors@.len() ==> #[trigger] actors@[i] == (if cgd.player == Some(i as usize) {
                    Actor {
                        position: moved_by(start@[i].position, events@.subrange(0, j as int)),
                        ..start@[i]
                    }
                } else {
                    start@[i]
                }),
            next == (if j == 0 {
                state
            } else {
                TurnState::NotPlayersTurn
            }),
        decreases events@.len() - j,
    {
        let e = events[j];
        proof {
            assert(events@.subrange(0, j + 1).drop_last() == events@.subrange(0, j as int));
        }
        if let Some(p) = cgd.player {
            if p < actors.len() {
                let mut a = actors[p];
                let nx = a.position.x as i64 + e.dx as i64;
                let ny = a.position.y as i64 + e.dy as i64;
                if i32::MIN as i64 <= nx && nx <= i32::MAX as i64 && i32::MIN as i64 <= ny && ny
                    <= i32::MAX as i64 {
                    a.position.x = nx as i32;
                    a.position.y = ny as i32;
                }
                actors.set(p, a);
            }
        }
        next = TurnState::NotPlayersTurn;
        j += 1;
    }
    proof {
        assert(events@.subrange(0, events@.len() as int) == events@);
    }
    next
}

/// The energy an actor of speed `speed` gains from the first `n` spent
/// events: each amount scaled by the actor's own speed, rounded down.
pub open spec fn total_gain(events: Seq<PlayerSpentEnergy>, n: int, speed: Option<Speed>) -> int
    decreases n,
{
    if n <= 0 {
        0
    } else {
        total_gain(events, n - 1, speed) + scaled_cost(events[n - 1].0 as int, speed)
    }
}

proof fn lemma_scaled_nonneg(a: int, speed: Option<Speed>)
    requires
        a >= 0,
    ensures
        scaled_cost(a, speed) >= 0,
{
    match speed {
        Some(s) => {
            assert(a * s.percent >= 0) by (nonlinear_arith)
                requires
                    a >= 0,
                    s.percent >= 0,
            ;
        },
        None => {},
    }
}

/// The smaller of `v` and `i32::MAX`.
pub open spec fn capped(v: int) -> int {
    if v > i32::MAX {
        i32::MAX as int
    } else {
        v
    }
}

/// The level of the player's actor, where there is one.
pub open spec fn player_level(cgd: &CurrentGameData, actors: Seq<Actor>) -> Option<i32> {
    match cgd.player {
        Some(p) => if p < actors.len() && actors[p as int].player {
            Some(actors[p as int].position.map)
        } else {
            None
        },
        None => None,
    }
}

/// What the broadcast does to one actor: on the player's level, an actor
/// with energy gains each spent amount scaled by its own speed (the amount
/// itself without a speed), up to `i32::MAX`.
pub open spec fn charged(a: Actor, level: Option<i32>, events: Seq<PlayerSpentEnergy>) -> Actor {
    match (a.energy, level) {
        (Some(e), Some(m)) => if a.position.map == m {
            Actor {
                energy: Some(
                    Energy { energy: capped(e.energy + total_gain(events, events.len() as int, a.speed)) as i32 },
                ),
                ..a
            }
        } else {
            a
        },
        _ => a,
    }
}

/// Hands out the energy the player spent to the actors on the player's
/// level, as `charged` says. Without a player's actor nothing changes.
pub fn player_spent_energy_system(
    cgd: &CurrentGameData,
    events: &Vec<PlayerSpentEnergy>,
    actors: &mut Vec<Actor>,
)
    requires
        actors_ok(old(actors)@),
        forall|j: int| 0 <= j < events@.len() ==> (#[trigger] events@[j]).0 >= 0,
    ensures
        actors_ok(final(actors)@),
        final(actors)@.len() == old(actors)@.len(),
        forall|i: int|
            0 <= i < final(actors)@.len() ==> #[trigger] final(actors)@[i] == charged(
                old(actors)@[i],
                player_level(cgd, old(actors)@),
                events@,
            ),
{
    let ghost start = *actors;
    let level: Option<i32> = match cgd.player {
        Some(p) => if p < actors.len() && actors[p].player {
            Some(actors[p].position.map)
        } else {
            None
        },
        None => None,
    };
    let mut i: usize = 0;
    while i < actors.len()
        invariant
            i <= actors@.len(),
            actors@.len() == start@.len(),
            actors_ok(start@),
            actors_ok(actors@),
            level == player_level(cgd, start@),
            forall|j: int| 0 <= j < events@.len() ==> (#[trigger] events@[j]).0 >= 0,
            forall|k: int| i <= k < actors@.len() ==> (#[trigger] actors@[k]) == start@[k],
            forall|k: int| 0 <= k < i ==> #[trigger] actors@[k] == charged(start@[k], level, events@),
        decreases actors@.len() - i,
    {
        let mut a = actors[i];
        if let (Some(e0), Some(m)) = (a.energy, level) {
            if a.position.map == m {
                let mut v: i32 = e0.energy;
                let mut j: usize = 0;
                while j < events.len()
                    invariant
                        j <= events@.len(),
                        e0.energy >= 0,
                        forall|q: int| 0 <= q < events@.len() ==> (#[trigger] events@[q]).0 >= 0,
                        v == capped(e0.energy + total_gain(events@, j as int, a.speed)),
                        total_gain(events@, j as int, a.speed) >= 0,
                    decreases events@.len() - j,
                {
                    proof {
                        lemma_scaled_nonneg(events@[j as int].0 as int, a.speed);
                    }
                    let g = scaled_cost_exec(events[j].0, a.speed);
                    let t: i64 = v as i64 + g;
                    v = if t > i32::MAX as i64 {
                        i32::MAX
                    } else {
                        t as i32
                    };
                    j += 1;
                }
                a.energy = Some(Energy { energy: v });
                proof {
                    if a.spend is Some {
                        assert(v >= e0.energy);
                    }
                }
                actors.set(i, a);
            }
        }
        i += 1;
    }
}

/// Copies the position of the player's actor into the game data.
pub fn update_player_pos(cgd: &mut CurrentGameData, actors: &Vec<Actor>)
    ensures
        final(cgd).current_map == old(cgd).current_map,
        final(cgd).player == old(cgd).player,
        final(cgd).maps == old(cgd).maps,
        final(cgd).player_pos == (match old(cgd).player {
            Some(p) => if p < actors@.len() {
                actors@[p as int].position
            } else {
                old(cgd).player_pos
            },
            None => old(cgd).player_pos,
        }),
{
    if let Some(p) = cgd.player {
        if p < actors.len() {
            cgd.player_pos = actors[p].position;
        }
    }
}

/// Gives the player's actor `intent`, where there is a player.
pub fn set_player_intent(cgd: &CurrentGameData, actors: &mut Vec<Actor>, intent: Intent)
    ensures
        final(actors)@.len() == old(actors)@.len(),
        forall|i: int|
            0 <= i < final(actors)@.len() ==> #[trigger] final(actors)@[i] == (if cgd.player == Some(
                i as usize,
            ) {
                Actor { intent: Some(intent), ..old(actors)@[i] }
            } else {
                old(actors)@[i]
            }),
{
    if let Some(p) = cgd.player {
        if p < actors.len() {
            let mut a = actors[p];
            a.intent = Some(intent);
            actors.set(p, a);
        }
    }
}

/// One tick of the game. In order: every intent is cleared; the player's
/// actor takes `player_intent`, if any; the autonomous actors on the level
/// in play draw theirs; intents are checked and paid for; committed moves
/// are carried out and debits paid; the player moves, which ends the
/// player's turn; the energy the player spent is handed out; the player's
/// position is copied into the game data. Energy stays at 0 or more.
pub fn tick(
    cgd: &mut CurrentGameData,
    actors: &mut Vec<Actor>,
    rng: &mut GameRng,
    player_intent: Option<Intent>,
    state: TurnState,
) -> (r: TurnState)
    requires
        old(cgd).wf(),
        actors_ok(old(actors)@),
    ensures
        final(cgd).wf(),
        final(cgd).maps == old(cgd).maps,
        final(cgd).current_map == old(cgd).current_map,
        final(cgd).player == old(cgd).player,
        actors_ok(final(actors)@),
        final(actors)@.len() == old(actors)@.len(),
        forall|i: int|
            0 <= i < final(actors)@.len() ==> ((#[trigger] final(actors)@[i]).energy matches Some(e)
                ==> e.energy >= 0),
        r == state || r == TurnState::NotPlayersTurn,
        player_intent is None ==> r == state,
{
    cleanup_intents(actors);
    proof {
        assert forall|i: int| 0 <= i < actors@.len() implies actor_ok(#[trigger] actors@[i]) by {
            assert(actor_ok(old(actors)@[i]));
        }
    }
    if let Some(intent) = player_intent {
        let ghost before = actors@;
        set_player_intent(cgd, actors, intent);
        proof {
            assert forall|i: int| 0 <= i < actors@.len() implies actor_ok(#[trigger] actors@[i]) by {
                assert(actor_ok(before[i]));
            }
        }
    }
    let ghost before_produce = actors@;
    produce_intents_system(cgd, actors, rng);
    proof {
        assert forall|i: int| 0 <= i < actors@.len() implies actor_ok(#[trigger] actors@[i]) by {
            assert(actor_ok(before_produce[i]));
        }
        if player_intent is None {
            assert forall|i: int|
                0 <= i < actors@.len() && (#[trigger] actors@[i]).player implies player_events(
                cgd,
                actors@[i],
            ) is None by {
                assert(before_produce[i].intent is None);
            }
        }
    }
    let (moves, spent) = process_intents_system(cgd, actors);
    movement_action_system(actors);
    spend_energy_system(actors);
    let next = player_move_system(cgd, &moves, actors, state);
    player_spent_energy_system(cgd, &spent, actors);
    update_player_pos(cgd, actors);
    next
}

} // verus!
