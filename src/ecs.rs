//! The bevy types that the helpers take and hand on.
use vstd::prelude::*;

verus! {

/// bevy's world: every entity, component and resource of an application.
#[verifier::external_type_specification]
#[verifier::external_body]
pub struct ExWorld(bevy::ecs::world::World);

/// bevy's system stage: a set of systems run together by one executor.
#[verifier::external_type_specification]
#[verifier::external_body]
pub struct ExSystemStage(bevy::ecs::schedule::SystemStage);

/// bevy's description of one system, as a stage takes it.
#[verifier::external_type_specification]
#[verifier::external_body]
pub struct ExSystemDescriptor(bevy::ecs::schedule::SystemDescriptor);

} // verus!
