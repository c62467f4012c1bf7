//! The requests a planet receives and the replies it gives, with the plain
//! values its logic reads; resources and sunrays travel inside them as they
//! are.
use vstd::prelude::*;
use common_game::components::resource::{ComplexResource, GenericResource};
use common_game::components::sunray::Sunray;
use crate::game::{BasicItem, BasicKind, ComplexKind, PlanetSnapshot};

verus! {

#[verifier::external_type_specification]
#[verifier::external_body]
pub struct ExComplexResource(ComplexResource);

/// The two resources a combination request offers: the left and the right
/// part of the recipe, in that order.
pub struct CombineRequest {
    pub first: GenericResource,
    pub second: GenericResource,
}

/// A message from an explorer to the planet it visits.
pub enum ExplorerRequest {
    SupportedResourceRequest { explorer_id: u32 },
    SupportedCombinationRequest { explorer_id: u32 },
    GenerateResourceRequest { explorer_id: u32, resource: BasicKind },
    CombineResourceRequest { explorer_id: u32, msg: CombineRequest },
    AvailableEnergyCellRequest { explorer_id: u32 },
}

/// A reply from the planet to an explorer.
pub enum ExplorerReply {
    SupportedResourceResponse { resource_list: Vec<BasicKind> },
    SupportedCombinationResponse { combination_list: Vec<ComplexKind> },
    GenerateResourceResponse { resource: Option<BasicItem> },
    CombineResourceResponse {
        complex_response: Result<ComplexResource, (String, GenericResource, GenericResource)>,
    },
    AvailableEnergyCellResponse { available_cells: u32 },
    Stopped,
}

/// A message from the orchestrator to a planet.
pub enum OrchestratorRequest {
    Sunray(Sunray),
    Asteroid,
    StartPlanetAI,
    StopPlanetAI,
    KillPlanet,
    InternalStateRequest,
    IncomingExplorerRequest { explorer_id: u32 },
    OutgoingExplorerRequest { explorer_id: u32 },
}

/// A reply from a planet to the orchestrator.
pub enum OrchestratorReply {
    SunrayAck { planet_id: u32 },
    KillPlanetResult { planet_id: u32 },
    InternalStateResponse { planet_id: u32, planet_state: PlanetSnapshot },
    Stopped { planet_id: u32 },
}

/// The planet types of the game.
#[derive(Clone, Copy, Debug, PartialEq, Eq, Structural)]
pub enum PlanetKind {
    A,
    B,
    C,
    D,
}

/// What a planet is built from: its identifier, its type, and the basic and
/// complex resources it can make.
pub struct PlanetConfig {
    pub id: u32,
    pub planet_type: PlanetKind,
    pub gen_rules: Vec<BasicKind>,
    pub comb_rules: Vec<ComplexKind>,
}

} // verus!
