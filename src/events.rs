//! Draining the event queue of one event type out of a world.
use bevy::ecs::event::Events;
use bevy::ecs::world::World;
use vstd::prelude::*;

verus! {

/// Why no events could be collected.
#[derive(Debug, Clone, Copy, PartialEq, Eq, Structural)]
pub enum EventError {
    /// The world holds no event queue for the requested type.
    NotRegistered,
}

/// Relies on `World::get_resource_mut` and `Events::drain`: `None` when the
/// world holds no `Events<E>` resource (the lookup only reads the world);
/// otherwise every queued event, oldest first, and the queue is left empty.
#[verifier::external_body]
fn drain_queue<E: Send + Sync + 'static>(world: &mut World) -> (r: Option<Vec<E>>)
    ensures
        r is None ==> *final(world) == *old(world),
{
    world.get_resource_mut::<Events<E>>().map(|mut queue| queue.drain().collect())
}

/// What a drain of a world's queue yields: the drained events, or
/// `NotRegistered` when the world had no queue for the type. An absent queue
/// is an error and never an empty list.
pub fn events_or_missing<E>(drained: Option<Vec<E>>) -> (r: Result<Vec<E>, EventError>)
    ensures
        drained is Some <==> r is Ok,
        r is Ok ==> r->Ok_0 == drained->Some_0,
        r is Err ==> r->Err_0 == EventError::NotRegistered,
{
    match drained {
        Some(events) => Ok(events),
        None => Err(EventError::NotRegistered),
    }
}

/// Takes every event of type `E` that the world's queue holds, oldest first.
/// The queue is emptied eagerly, so a second call without new events yields
/// an empty list. Fails with `NotRegistered`, leaving the world as it was,
/// when the world holds no queue for `E`.
pub fn collect_events<E: Send + Sync + 'static>(world: &mut World) -> (r: Result<Vec<E>, EventError>)
    ensures
        r is Err ==> r->Err_0 == EventError::NotRegistered,
        r is Err ==> *final(world) == *old(world),
{
    let drained = drain_queue::<E>(world);
    events_or_missing(drained)
}

} // verus!
