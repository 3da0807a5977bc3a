//! Building the stage that runs systems once against a world, outside of any
//! schedule. Running it is left to the caller: the systems are the caller's
//! own code and may panic, which bevy passes on unchanged.
use bevy::ecs::schedule::{SystemDescriptor, SystemStage};
use vstd::prelude::*;

verus! {

/// How many systems a stage holds, over its parallel and exclusive lists.
pub uninterp spec fn stage_len(s: SystemStage) -> nat;

/// Relies on `SystemStage::single`: a stage run by the single-threaded
/// executor that holds the given system alone.
#[verifier::external_body]
fn single_stage(system: SystemDescriptor) -> (r: SystemStage)
    ensures
        stage_len(r) == 1,
{
    SystemStage::single(system)
}

/// Relies on `SystemStage::parallel`: a stage with no system, whose systems
/// may run on parallel threads, their commands applied once all have run.
#[verifier::external_body]
fn parallel_stage() -> (r: SystemStage)
    ensures
        stage_len(r) == 0,
{
    SystemStage::parallel()
}

/// Relies on `SystemStage::add_system`: the system is pushed onto exactly one
/// of the stage's system lists.
#[verifier::external_body]
fn add_to_stage(stage: &mut SystemStage, system: SystemDescriptor)
    ensures
        stage_len(*final(stage)) == stage_len(*old(stage)) + 1,
{
    stage.add_system(system);
}

/// The stage that runs `system` once, on the calling thread, and applies the
/// commands it queued right after it.
pub fn stage_of_one(system: SystemDescriptor) -> (r: SystemStage)
    ensures
        stage_len(r) == 1,
{
    single_stage(system)
}

/// A parallel stage holding every system of `systems`, each once. Systems
/// with disjoint access may run at the same time; the commands queued by any
/// of them are applied only after all have run.
pub fn stage_of_all(systems: Vec<SystemDescriptor>) -> (r: SystemStage)
    ensures
        stage_len(r) == systems@.len(),
{
    let ghost n = systems@.len();
    let mut stage = parallel_stage();
    let mut rest = systems;
    while rest.len() > 0
        invariant
            stage_len(stage) + rest@.len() == n,
        decreases rest.len(),
    {
        let system = rest.remove(0);
        add_to_stage(&mut stage, system);
    }
    stage
}

/// The stage that runs a batch once, or `None` for an empty batch, which
/// then needs no run at all and leaves the world untouched.
pub fn batch_stage(systems: Vec<SystemDescriptor>) -> (r: Option<SystemStage>)
    ensures
        r is None <==> systems@.len() == 0,
        r is Some ==> stage_len(r->Some_0) == systems@.len(),
{
    if systems.len() == 0 {
        None
    } else {
        Some(stage_of_all(systems))
    }
}

} // verus!
