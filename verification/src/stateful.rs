//! The Rust-Eze planet that keeps its own running and killed flags: a
//! stopped planet answers `Stopped` to everybody, a killed one answers
//! nobody, and a running one serves the orchestrator and the explorers.
use vstd::prelude::*;
use common_game::components::planet::PlanetState;
use common_game::components::resource::{Combinator, Generator};
use common_game::components::rocket::Rocket;
use crate::game::{
    basic_recipes, cell_charged, cells_count, charge_cell_at, combinator_recipes, complex_recipes,
    generation, generator_contains, generator_recipes, has_rocket, make_carbon,
    make_hydrogen, make_oxygen, make_silicon, planet_cells, planet_has_rocket, planet_id, snapshot,
    state_id, take_rocket, with_cells, BasicKind, ComplexKind, PlanetSnapshot,
};
use crate::messages::{
    CombineRequest, ExplorerReply, ExplorerRequest, OrchestratorReply, OrchestratorRequest, PlanetConfig, PlanetKind,
};

verus! {

/// The planet's behaviour and its two flags.
pub struct RustEzeAi {
    pub running: bool,
    pub killed: bool,
}

/// What happens to a planet's behaviour, in the order it happens.
pub enum AiInput {
    Start,
    Stop,
    Orchestrator(OrchestratorRequest),
    Explorer(ExplorerRequest),
    Asteroid,
}

/// The reason given back with the resources of a combination request.
pub open spec fn combination_refusal() -> Seq<char> {
    "Planet does not support combinations"@
}

/// The cells after a sunray reached the first cell (if any).
pub open spec fn charge_first(cells: Seq<bool>) -> Seq<bool> {
    if cells.len() > 0 {
        cells.update(0, true)
    } else {
        cells
    }
}

/// The resource-making method for `kind` would panic on this planet: the
/// planet generates with its first cell, which must be charged and the
/// recipe must be there.
pub open spec fn generation_panics(state: PlanetState, generator: Generator, kind: BasicKind) -> bool {
    &&& planet_cells(state).len() > 0
    &&& !(planet_cells(state)[0] && generator_recipes(generator).contains(kind))
}

/// `msg` makes a running planet panic.
pub open spec fn explorer_msg_panics(state: PlanetState, generator: Generator, msg: ExplorerRequest) -> bool {
    match msg {
        ExplorerRequest::GenerateResourceRequest { resource, .. } => generation_panics(state, generator, resource),
        _ => false,
    }
}

impl RustEzeAi {
    /// The behaviour a new planet starts with: stopped and alive.
    pub fn stopped() -> (ai: Self)
        ensures
            ai == (RustEzeAi { running: false, killed: false }),
    {
        RustEzeAi { running: false, killed: false }
    }

    /// Running and not killed: the planet serves requests.
    pub open spec fn is_active(self) -> bool {
        self.running && !self.killed
    }

    /// The flags after one input.
    pub open spec fn step(self, input: AiInput) -> RustEzeAi {
        match input {
            AiInput::Start => RustEzeAi { running: true, killed: self.killed },
            AiInput::Stop => RustEzeAi { running: false, killed: self.killed },
            AiInput::Orchestrator(msg) => {
                if self.is_active() && msg is KillPlanet {
                    RustEzeAi { running: self.running, killed: true }
                } else {
                    self
                }
            },
            AiInput::Explorer(_) => self,
            AiInput::Asteroid => self,
        }
    }

    /// The flags after a sequence of inputs.
    pub open spec fn run(self, inputs: Seq<AiInput>) -> RustEzeAi
        decreases inputs.len(),
    {
        if inputs.len() == 0 {
            self
        } else {
            self.step(inputs[0]).run(inputs.drop_first())
        }
    }

    /// Answers the orchestrator. A running planet charges its first cell
    /// with a sunray, reports its state, and dies on a kill request; other
    /// requests get no answer. A stopped planet answers `Stopped`, a killed
    /// one nothing.
    pub fn handle_orchestrator_msg(
        &mut self,
        state: &mut PlanetState,
        generator: &Generator,
        combinator: &Combinator,
        msg: OrchestratorRequest,
    ) -> (reply: Option<OrchestratorReply>)
        ensures
            *final(self) == old(self).step(AiInput::Orchestrator(msg)),
            old(self).is_active() ==> match msg {
                OrchestratorRequest::Sunray(_) => {
                    &&& with_cells(*old(state), *final(state), charge_first(planet_cells(*old(state))))
                    &&& planet_cells(*old(state)).len() == 0 ==> *final(state) == *old(state)
                    &&& reply == Some(OrchestratorReply::SunrayAck { planet_id: planet_id(*old(state)) })
                },
                OrchestratorRequest::InternalStateRequest => {
                    &&& *final(state) == *old(state)
                    &&& reply matches Some(OrchestratorReply::InternalStateResponse { planet_id: id, planet_state })
                    &&& id == planet_id(*old(state))
                    &&& planet_state.energy_cells@ == planet_cells(*old(state))
                    &&& planet_state.charged_cells_count == crate::game::charged_count(planet_cells(*old(state)))
                    &&& planet_state.has_rocket == planet_has_rocket(*old(state))
                },
                OrchestratorRequest::KillPlanet => {
                    &&& *final(state) == *old(state)
                    &&& reply == Some(OrchestratorReply::KillPlanetResult { planet_id: planet_id(*old(state)) })
                },
                _ => *final(state) == *old(state) && reply is None,
            },
            !old(self).is_active() ==> *final(state) == *old(state),
            !old(self).running && !old(self).killed ==> reply == Some(
                OrchestratorReply::Stopped { planet_id: planet_id(*old(state)) },
            ),
            old(self).killed ==> reply is None,
    {
        if self.running && !self.killed {
            match msg {
                OrchestratorRequest::Sunray(sunray) => {
                    if cells_count(state) > 0 {
                        charge_cell_at(state, 0, sunray);
                    }
                    Some(OrchestratorReply::SunrayAck { planet_id: state_id(state) })
                },
                OrchestratorRequest::InternalStateRequest => {
                    Some(OrchestratorReply::InternalStateResponse {
                        planet_id: state_id(state),
                        planet_state: snapshot(state),
                    })
                },
                OrchestratorRequest::KillPlanet => {
                    self.killed = true;
                    Some(OrchestratorReply::KillPlanetResult { planet_id: state_id(state) })
                },
                _ => None,
            }
        } else if !self.killed {
            Some(OrchestratorReply::Stopped { planet_id: state_id(state) })
        } else {
            None
        }
    }

    /// Whether `msg` can be answered without a panic: a running planet makes
    /// resources with its first cell and insists that it succeeds.
    pub fn explorer_msg_is_safe(&self, state: &PlanetState, generator: &Generator, msg: &ExplorerRequest) -> (safe: bool)
        ensures
            safe == !(self.is_active() && explorer_msg_panics(*state, *generator, *msg)),
            !(*msg is GenerateResourceRequest) ==> safe,
            *msg matches ExplorerRequest::GenerateResourceRequest { resource, .. } ==> (safe <==> !{
                &&& self.is_active()
                &&& planet_cells(*state).len() > 0
                &&& (!planet_cells(*state)[0] || !generator_recipes(*generator).contains(resource))
            }),
    {
        if self.running && !self.killed {
            match msg {
                ExplorerRequest::GenerateResourceRequest { resource, .. } => {
                    cells_count(state) == 0 || (cell_charged(state, 0) && generator_contains(generator, *resource))
                },
                _ => true,
            }
        } else {
            true
        }
    }

    /// Answers an explorer. A running planet reports its cells (all of
    /// them, charged or not) and recipes, refuses every combination and
    /// hands the resources back, and makes a resource with its first cell.
    /// A stopped planet answers `Stopped`, a killed one nothing.
    pub fn handle_explorer_msg(
        &mut self,
        state: &mut PlanetState,
        generator: &Generator,
        combinator: &Combinator,
        msg: ExplorerRequest,
    ) -> (reply: Option<ExplorerReply>)
        requires
            !(old(self).is_active() && explorer_msg_panics(*old(state), *generator, msg)),
        ensures
            *final(self) == *old(self),
            old(self).is_active() ==> match msg {
                ExplorerRequest::AvailableEnergyCellRequest { .. } => {
                    &&& *final(state) == *old(state)
                    &&& reply == Some(ExplorerReply::AvailableEnergyCellResponse {
                        available_cells: planet_cells(*old(state)).len() as u32,
                    })
                },
                ExplorerRequest::CombineResourceRequest { msg: request, .. } => {
                    &&& *final(state) == *old(state)
                    &&& reply matches Some(ExplorerReply::CombineResourceResponse { complex_response: Err((reason, first, second)) })
                    &&& reason@ == combination_refusal()
                    &&& first == request.first
                    &&& second == request.second
                },
                ExplorerRequest::GenerateResourceRequest { resource, .. } => {
                    if planet_cells(*old(state)).len() == 0 {
                        &&& *final(state) == *old(state)
                        &&& reply matches Some(ExplorerReply::GenerateResourceResponse { resource: None })
                    } else {
                        &&& generation(*old(state), *final(state), generator_recipes(*generator), resource, 0, true)
                        &&& reply matches Some(ExplorerReply::GenerateResourceResponse { resource: Some(item) })
                        &&& item.kind() == resource
                    }
                },
                ExplorerRequest::SupportedCombinationRequest { .. } => {
                    &&& *final(state) == *old(state)
                    &&& reply matches Some(ExplorerReply::SupportedCombinationResponse { combination_list })
                    &&& combination_list@.to_set() == combinator_recipes(*combinator)
                    &&& combination_list@.no_duplicates()
                },
                ExplorerRequest::SupportedResourceRequest { .. } => {
                    &&& *final(state) == *old(state)
                    &&& reply matches Some(ExplorerReply::SupportedResourceResponse { resource_list })
                    &&& resource_list@.to_set() == generator_recipes(*generator)
                    &&& resource_list@.no_duplicates()
                },
            },
            !old(self).is_active() ==> *final(state) == *old(state),
            !old(self).running && !old(self).killed ==> reply matches Some(ExplorerReply::Stopped),
            reply matches Some(ExplorerReply::GenerateResourceResponse { resource: Some(_) }) ==> {
                &&& old(self).is_active()
                &&& planet_cells(*old(state)).len() > 0
                &&& planet_cells(*old(state))[0]
                &&& !planet_cells(*final(state))[0]
            },
            *final(state) != *old(state) ==> {
                &&& msg is GenerateResourceRequest
                &&& old(self).is_active()
                &&& planet_cells(*old(state)).len() > 0
            },
            old(self).killed ==> reply is None,
    {
        if self.running && !self.killed {
            match msg {
                ExplorerRequest::AvailableEnergyCellRequest { .. } => {
                    let available_cells = cells_count(state) as u32;
                    Some(ExplorerReply::AvailableEnergyCellResponse { available_cells })
                },
                ExplorerRequest::CombineResourceRequest { msg, .. } => {
                    let CombineRequest { first, second } = msg;
                    let reason = "Planet does not support combinations".to_owned();
                    Some(ExplorerReply::CombineResourceResponse { complex_response: Err((reason, first, second)) })
                },
                ExplorerRequest::GenerateResourceRequest { resource, .. } => {
                    if cells_count(state) == 0 {
                        Some(ExplorerReply::GenerateResourceResponse { resource: None })
                    } else {
                        let made = match resource {
                            BasicKind::Carbon => make_carbon(generator, state, 0),
                            BasicKind::Silicon => make_silicon(generator, state, 0),
                            BasicKind::Hydrogen => make_hydrogen(generator, state, 0),
                            BasicKind::Oxygen => make_oxygen(generator, state, 0),
                        };
                        match made {
                            Ok(item) => Some(ExplorerReply::GenerateResourceResponse { resource: Some(item) }),
                            Err(_) => {
                                proof {
                                    assert(false);
                                }
                                None
                            },
                        }
                    }
                },
                ExplorerRequest::SupportedCombinationRequest { .. } => {
                    Some(ExplorerReply::SupportedCombinationResponse { combination_list: complex_recipes(combinator) })
                },
                ExplorerRequest::SupportedResourceRequest { .. } => {
                    Some(ExplorerReply::SupportedResourceResponse { resource_list: basic_recipes(generator) })
                },
            }
        } else if !self.killed {
            Some(ExplorerReply::Stopped)
        } else {
            None
        }
    }

    /// A running planet launches its rocket, if it has one; a stopped planet
    /// launches nothing.
    pub fn handle_asteroid(
        &mut self,
        state: &mut PlanetState,
        generator: &Generator,
        combinator: &Combinator,
    ) -> (rocket: Option<Rocket>)
        ensures
            *final(self) == old(self).step(AiInput::Asteroid),
            rocket is Some <==> old(self).running && planet_has_rocket(*old(state)),
            rocket is Some ==> {
                &&& !planet_has_rocket(*final(state))
                &&& planet_cells(*final(state)) == planet_cells(*old(state))
                &&& planet_id(*final(state)) == planet_id(*old(state))
            },
            rocket is None ==> *final(state) == *old(state),
    {
        if self.running {
            if has_rocket(state) {
                take_rocket(state)
            } else {
                None
            }
        } else {
            None
        }
    }

    /// Starts the planet.
    pub fn start(&mut self, state: &PlanetState)
        ensures
            *final(self) == old(self).step(AiInput::Start),
    {
        if !self.running {
            self.running = true;
        }
    }

    /// Stops the planet.
    pub fn stop(&mut self, state: &PlanetState)
        ensures
            *final(self) == old(self).step(AiInput::Stop),
    {
        if self.running {
            self.running = false;
        }
    }
}

/// How this planet is built: a type-D planet with identifier 1 that
/// generates carbon and silicon and combines nothing; the identifier handed
/// in is not used.
pub fn createplanet_config(planet_id: u32) -> (config: PlanetConfig)
    ensures
        config.id == 1,
        config.planet_type == PlanetKind::D,
        config.gen_rules@ == seq![BasicKind::Carbon, BasicKind::Silicon],
        config.comb_rules@ == Seq::<ComplexKind>::empty(),
{
    PlanetConfig {
        id: 1,
        planet_type: PlanetKind::D,
        gen_rules: vec![BasicKind::Carbon, BasicKind::Silicon],
        comb_rules: Vec::new(),
    }
}

/// Whether `input` is a kill request from the orchestrator.
pub open spec fn is_kill(input: AiInput) -> bool {
    input matches AiInput::Orchestrator(OrchestratorRequest::KillPlanet)
}

/// Death is final: a killed planet stays killed, and so never serves a
/// request again, whatever happens to it afterwards.
pub proof fn law_killed_stays_killed(ai: RustEzeAi, inputs: Seq<AiInput>)
    requires
        ai.killed,
    ensures
        ai.run(inputs).killed,
        !ai.run(inputs).is_active(),
    decreases inputs.len(),
{
    if inputs.len() > 0 {
        law_killed_stays_killed(ai.step(inputs[0]), inputs.drop_first());
    }
}

/// A running planet that receives a kill request is dead from then on.
pub proof fn law_kill_is_final(ai: RustEzeAi, inputs: Seq<AiInput>)
    requires
        ai.is_active(),
    ensures
        ai.step(AiInput::Orchestrator(OrchestratorRequest::KillPlanet)).killed,
        ai.step(AiInput::Orchestrator(OrchestratorRequest::KillPlanet)).run(inputs).killed,
{
    law_killed_stays_killed(ai.step(AiInput::Orchestrator(OrchestratorRequest::KillPlanet)), inputs);
}

/// Only a kill request kills: along inputs that hold none, the planet stays
/// as alive as it was.
pub proof fn law_only_kill_kills(ai: RustEzeAi, inputs: Seq<AiInput>)
    requires
        forall|i: int| 0 <= i < inputs.len() ==> !is_kill(#[trigger] inputs[i]),
    ensures
        ai.run(inputs).killed == ai.killed,
    decreases inputs.len(),
{
    if inputs.len() > 0 {
        assert(!is_kill(inputs[0]));
        assert forall|i: int| 0 <= i < inputs.drop_first().len() implies !is_kill(
            #[trigger] inputs.drop_first()[i],
        ) by {
            assert(inputs.drop_first()[i] == inputs[i + 1]);
        }
        law_only_kill_kills(ai.step(inputs[0]), inputs.drop_first());
    }
}

/// Only start and stop move the running flag, and a stopped planet is left
/// exactly as it was by every other input.
pub proof fn law_only_start_stop_switch(ai: RustEzeAi, input: AiInput)
    requires
        !(input is Start),
        !(input is Stop),
    ensures
        ai.step(input).running == ai.running,
        !ai.is_active() ==> ai.step(input) == ai,
{
}

/// Start and stop only set the running flag: the last of them decides,
/// doing one twice is doing it once, and neither touches the killed flag.
pub proof fn law_start_stop(ai: RustEzeAi)
    ensures
        ai.step(AiInput::Start).running,
        !ai.step(AiInput::Stop).running,
        ai.step(AiInput::Start).killed == ai.killed,
        ai.step(AiInput::Stop).killed == ai.killed,
        ai.step(AiInput::Stop).step(AiInput::Start) == ai.step(AiInput::Start),
        ai.step(AiInput::Start).step(AiInput::Stop) == ai.step(AiInput::Stop),
        ai.step(AiInput::Start).step(AiInput::Start) == ai.step(AiInput::Start),
        ai.step(AiInput::Stop).step(AiInput::Stop) == ai.step(AiInput::Stop),
        !ai.killed ==> ai.step(AiInput::Start).is_active(),
{
}

/// Only a generation request can be unanswerable: every other explorer
/// request is always served.
pub proof fn law_only_generation_can_fail(state: PlanetState, generator: Generator, msg: ExplorerRequest)
    requires
        !(msg is GenerateResourceRequest),
    ensures
        !explorer_msg_panics(state, generator, msg),
{
}

/// A generation request is unanswerable exactly when the planet has cells,
/// and its first cell is not charged or the generator lacks the recipe for
/// the requested kind; a planet without cells always answers.
pub proof fn law_generation_fails_exactly(state: PlanetState, generator: Generator, explorer_id: u32, kind: BasicKind)
    ensures
        explorer_msg_panics(state, generator, ExplorerRequest::GenerateResourceRequest { explorer_id, resource: kind })
            <==> {
            &&& planet_cells(state).len() > 0
            &&& (!planet_cells(state)[0] || !generator_recipes(generator).contains(kind))
        },
{
}

} // verus!
