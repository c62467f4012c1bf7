use std::sync::OnceLock;
use std::collections::VecDeque;

use common_game::components::forge::Forge;
use common_game::components::planet::{DummyPlanetState, Planet, PlanetAI, PlanetState, PlanetType};
use common_game::components::resource::{ComplexResourceRequest, BasicResourceType, Combinator, ComplexResourceType, Generator};
use common_game::components::rocket::Rocket;
use common_game::components::sunray::Sunray;
use common_game::protocols::orchestrator_planet::{OrchestratorToPlanet, PlanetToOrchestrator};
use common_game::protocols::planet_explorer::{ExplorerToPlanet, PlanetToExplorer};
use crossbeam_channel::{unbounded, Receiver, Sender};

use rusteze::game::{BasicKind, ComplexKind};
use rusteze::messages::{
    CombineRequest, ExplorerReply, ExplorerRequest, OrchestratorReply, OrchestratorRequest, PlanetKind};
use rusteze::stateful::{createplanet_config, RustEzeAi};

static FORGE: OnceLock<Forge> = OnceLock::new();

fn forge() -> &'static Forge {
    FORGE.get_or_init(|| Forge::new().unwrap())
}

fn combine_request(msg: ComplexResourceRequest) -> CombineRequest {
    let (first, second) = match msg {
        ComplexResourceRequest::Water(l, r) => (l.to_generic(), r.to_generic()),
        ComplexResourceRequest::Diamond(l, r) => (l.to_generic(), r.to_generic()),
        ComplexResourceRequest::Life(l, r) => (l.to_generic(), r.to_generic()),
        ComplexResourceRequest::Robot(l, r) => (l.to_generic(), r.to_generic()),
        ComplexResourceRequest::Dolphin(l, r) => (l.to_generic(), r.to_generic()),
        ComplexResourceRequest::AIPartner(l, r) => (l.to_generic(), r.to_generic()),
    };
    CombineRequest { first, second }
}

fn basic_kind(t: BasicResourceType) -> BasicKind {
    match t {
        BasicResourceType::Oxygen => BasicKind::Oxygen,
        BasicResourceType::Hydrogen => BasicKind::Hydrogen,
        BasicResourceType::Carbon => BasicKind::Carbon,
        BasicResourceType::Silicon => BasicKind::Silicon,
    }
}

fn basic_type(k: BasicKind) -> BasicResourceType {
    match k {
        BasicKind::Oxygen => BasicResourceType::Oxygen,
        BasicKind::Hydrogen => BasicResourceType::Hydrogen,
        BasicKind::Carbon => BasicResourceType::Carbon,
        BasicKind::Silicon => BasicResourceType::Silicon,
    }
}

fn complex_type(k: ComplexKind) -> ComplexResourceType {
    match k {
        ComplexKind::Diamond => ComplexResourceType::Diamond,
        ComplexKind::Water => ComplexResourceType::Water,
        ComplexKind::Life => ComplexResourceType::Life,
        ComplexKind::Robot => ComplexResourceType::Robot,
        ComplexKind::Dolphin => ComplexResourceType::Dolphin,
        ComplexKind::AIPartner => ComplexResourceType::AIPartner,
    }
}

fn request(msg: ExplorerToPlanet) -> ExplorerRequest {
    match msg {
        ExplorerToPlanet::SupportedResourceRequest { explorer_id } => {
            ExplorerRequest::SupportedResourceRequest { explorer_id }
        }
        ExplorerToPlanet::SupportedCombinationRequest { explorer_id } => {
            ExplorerRequest::SupportedCombinationRequest { explorer_id }
        }
        ExplorerToPlanet::GenerateResourceRequest { explorer_id, resource } => {
            ExplorerRequest::GenerateResourceRequest { explorer_id, resource: basic_kind(resource) }
        }
        ExplorerToPlanet::CombineResourceRequest { explorer_id, msg } => {
            ExplorerRequest::CombineResourceRequest { explorer_id, msg: combine_request(msg) }
        }
        ExplorerToPlanet::AvailableEnergyCellRequest { explorer_id } => {
            ExplorerRequest::AvailableEnergyCellRequest { explorer_id }
        }
    }
}

fn reply(r: ExplorerReply) -> PlanetToExplorer {
    match r {
        ExplorerReply::SupportedResourceResponse { resource_list } => PlanetToExplorer::SupportedResourceResponse {
            resource_list: resource_list.into_iter().map(basic_type).collect(),
        },
        ExplorerReply::SupportedCombinationResponse { combination_list } => {
            PlanetToExplorer::SupportedCombinationResponse {
                combination_list: combination_list.into_iter().map(complex_type).collect(),
            }
        }
        ExplorerReply::GenerateResourceResponse { resource } => {
            PlanetToExplorer::GenerateResourceResponse { resource: resource.map(|item| item.into_resource()) }
        }
        ExplorerReply::CombineResourceResponse { complex_response } => {
            PlanetToExplorer::CombineResourceResponse { complex_response }
        }
        ExplorerReply::AvailableEnergyCellResponse { available_cells } => {
            PlanetToExplorer::AvailableEnergyCellResponse { available_cells }
        }
        ExplorerReply::Stopped => PlanetToExplorer::Stopped,
    }
}

/// A short description of an orchestrator reply of the library.
fn describe(r: &Option<OrchestratorReply>) -> String {
    match r {
        None => "none".to_string(),
        Some(OrchestratorReply::SunrayAck { planet_id }) => format!("sunray ack {planet_id}"),
        Some(OrchestratorReply::KillPlanetResult { planet_id }) => format!("killed {planet_id}"),
        Some(OrchestratorReply::InternalStateResponse { planet_id, planet_state }) => format!(
            "state {planet_id} {:?} {} {}",
            planet_state.energy_cells, planet_state.charged_cells_count, planet_state.has_rocket
        ),
        Some(OrchestratorReply::Stopped { planet_id }) => format!("stopped {planet_id}"),
    }
}

/// Runs the stateful AI inside a planet. Sunrays and internal-state
/// requests of the planet reach the AI as orchestrator messages (for the
/// latter, the request injected beforehand, if any, takes its place), and
/// every answer the AI gives them is described on `report`. `follow_start`
/// says whether the planet's start and stop reach the AI. After the i-th
/// explorer message the i-th batch of follow-ups goes to the planet.
struct Probe {
    ai: RustEzeAi,
    follow_start: bool,
    inject: Receiver<OrchestratorRequest>,
    report: Sender<String>,
    to_planet: Sender<OrchestratorToPlanet>,
    after: VecDeque<Vec<OrchestratorToPlanet>>,
}

impl PlanetAI for Probe {
    fn handle_sunray(&mut self, state: &mut PlanetState, generator: &Generator, combinator: &Combinator, sunray: Sunray) {
        let r = self.ai.handle_orchestrator_msg(state, generator, combinator, OrchestratorRequest::Sunray(sunray));
        self.report.send(describe(&r)).unwrap();
    }

    fn handle_asteroid(&mut self, state: &mut PlanetState, generator: &Generator, combinator: &Combinator) -> Option<Rocket> {
        self.ai.handle_asteroid(state, generator, combinator)
    }

    fn handle_internal_state_req(&mut self, state: &mut PlanetState, generator: &Generator, combinator: &Combinator) -> DummyPlanetState {
        let msg = self.inject.try_recv().unwrap_or(OrchestratorRequest::InternalStateRequest);
        let r = self.ai.handle_orchestrator_msg(state, generator, combinator, msg);
        self.report.send(describe(&r)).unwrap();
        state.to_dummy()
    }

    fn handle_explorer_msg(
        &mut self,
        state: &mut PlanetState,
        generator: &Generator,
        combinator: &Combinator,
        msg: ExplorerToPlanet,
    ) -> Option<PlanetToExplorer> {
        let request = request(msg);
        assert!(self.ai.explorer_msg_is_safe(state, generator, &request));
        let answer = self.ai.handle_explorer_msg(state, generator, combinator, request).map(reply);
        if let Some(batch) = self.after.pop_front() {
            for m in batch {
                self.to_planet.send(m).unwrap();
            }
        }
        answer
    }

    fn on_start(&mut self, state: &PlanetState, _generator: &Generator, _combinator: &Combinator) {
        if self.follow_start {
            self.ai.start(state);
        }
    }

    fn on_stop(&mut self, state: &PlanetState, _generator: &Generator, _combinator: &Combinator) {
        if self.follow_start {
            self.ai.stop(state);
        }
    }
}

const EXPLORER: u32 = 100;

/// A message for the planet: one of the orchestrator, or the landing of
/// explorer 100.
enum Step {
    Orch(OrchestratorToPlanet),
    Land,
}

fn sunray() -> Step {
    Step::Orch(OrchestratorToPlanet::Sunray(forge().generate_sunray()))
}

fn state_request() -> Step {
    Step::Orch(OrchestratorToPlanet::InternalStateRequest)
}

/// What a run of the planet produced: the messages the orchestrator and the
/// explorer received and the answers the AI gave, in order.
struct Outcome {
    orchestrator: Vec<PlanetToOrchestrator>,
    explorer: Vec<PlanetToExplorer>,
    ai: Vec<String>,
}

/// Builds the planet as `createplanet_config` describes it around `ai`,
/// queues `steps`, the injected requests and the explorer messages, and runs
/// the planet until it is killed: right after the steps when there is no
/// explorer message, else after the last explorer message and its
/// follow-ups.
fn run_planet(
    ai: RustEzeAi,
    follow_start: bool,
    steps: Vec<Step>,
    injected: Vec<OrchestratorRequest>,
    explorer: Vec<ExplorerToPlanet>,
    after: Vec<Vec<Step>>,
) -> Outcome {
    let recipes = createplanet_config(42).gen_rules.into_iter().map(basic_type).collect();
    run_planet_with_recipes(recipes, ai, follow_start, steps, injected, explorer, after)
}

/// `run_planet`, on a planet that generates `recipes` instead.
fn run_planet_with_recipes(
    recipes: Vec<BasicResourceType>,
    ai: RustEzeAi,
    follow_start: bool,
    steps: Vec<Step>,
    injected: Vec<OrchestratorRequest>,
    explorer: Vec<ExplorerToPlanet>,
    after: Vec<Vec<Step>>,
) -> Outcome {
    let config = createplanet_config(42);
    let planet_type = match config.planet_type {
        PlanetKind::A => PlanetType::A,
        PlanetKind::B => PlanetType::B,
        PlanetKind::C => PlanetType::C,
        PlanetKind::D => PlanetType::D,
    };
    let (to_planet, from_orchestrator) = unbounded::<OrchestratorToPlanet>();
    let (to_orchestrator, from_planet) = unbounded::<PlanetToOrchestrator>();
    let (explorer_to_planet, from_explorers) = unbounded::<ExplorerToPlanet>();
    let (to_explorer, planet_to_explorer) = unbounded::<PlanetToExplorer>();
    let (inject_tx, inject_rx) = unbounded::<OrchestratorRequest>();
    let (report_tx, report_rx) = unbounded::<String>();
    let message = |step: Step| match step {
        Step::Orch(m) => m,
        Step::Land => OrchestratorToPlanet::IncomingExplorerRequest { explorer_id: EXPLORER, new_sender: to_explorer.clone() },
    };
    let n = explorer.len();
    let mut batches: VecDeque<Vec<OrchestratorToPlanet>> = VecDeque::new();
    let mut after = after.into_iter();
    for i in 0..n {
        let mut batch: Vec<OrchestratorToPlanet> = after.next().unwrap_or_default().into_iter().map(message).collect();
        if i + 1 == n {
            batch.push(OrchestratorToPlanet::KillPlanet);
        }
        batches.push_back(batch);
    }
    for step in steps {
        to_planet.send(message(step)).unwrap();
    }
    if n == 0 {
        to_planet.send(OrchestratorToPlanet::KillPlanet).unwrap();
    }
    for r in injected {
        inject_tx.send(r).unwrap();
    }
    for m in explorer {
        explorer_to_planet.send(m).unwrap();
    }
    let probe = Probe { ai, follow_start, inject: inject_rx, report: report_tx, to_planet: to_planet.clone(), after: batches };
    let mut planet = Planet::new(
        config.id,
        planet_type,
        Box::new(probe),
        recipes,
        config.comb_rules.into_iter().map(complex_type).collect(),
        (from_orchestrator, to_orchestrator),
        from_explorers,
    )
    .unwrap();
    assert!(planet.run().is_ok());
    Outcome {
        orchestrator: from_planet.try_iter().collect(),
        explorer: planet_to_explorer.try_iter().collect(),
        ai: report_rx.try_iter().collect(),
    }
}

fn fresh() -> RustEzeAi {
    RustEzeAi::stopped()
}

fn start() -> Step {
    Step::Orch(OrchestratorToPlanet::StartPlanetAI)
}

#[test]
fn test_planet_ai_stopped() {
    let out = run_planet(fresh(), true, vec![state_request(), start()], vec![], vec![], vec![]);
    match &out.orchestrator[..] {
        [PlanetToOrchestrator::Stopped { planet_id: 1 }, PlanetToOrchestrator::StartPlanetAIResult { planet_id: 1 }, PlanetToOrchestrator::KillPlanetResult { planet_id: 1 }] => {}
        _ => panic!("Planet responded while stopped"),
    }
}

#[test]
fn test_planet_ai_start() {
    let out = run_planet(fresh(), true, vec![start()], vec![], vec![], vec![]);
    match out.orchestrator.first() {
        Some(PlanetToOrchestrator::StartPlanetAIResult { planet_id }) => assert_eq!(*planet_id, 1),
        _ => panic!("wrong ACK!"),
    }
}

#[test]
fn test_planet_ai_int_req() {
    let out = run_planet(fresh(), true, vec![start(), state_request()], vec![], vec![], vec![]);
    match &out.orchestrator[..] {
        [PlanetToOrchestrator::StartPlanetAIResult { planet_id: 1 }, PlanetToOrchestrator::InternalStateResponse { planet_id, .. }, ..] => {
            assert_eq!(*planet_id, 1)
        }
        _ => panic!("wrong ACK!"),
    }
}

#[test]
fn test_planet_ai_stop() {
    let out = run_planet(
        fresh(),
        true,
        vec![start(), Step::Orch(OrchestratorToPlanet::StopPlanetAI), state_request()],
        vec![],
        vec![],
        vec![],
    );
    match &out.orchestrator[..] {
        [PlanetToOrchestrator::StartPlanetAIResult { planet_id: 1 }, PlanetToOrchestrator::StopPlanetAIResult { planet_id: 1 }, PlanetToOrchestrator::Stopped { planet_id }, ..] => {
            assert_eq!(*planet_id, 1)
        }
        _ => panic!("wrong ACK!"),
    }
}

#[test]
fn test_planet_ai_kill() {
    let out = run_planet(fresh(), true, vec![start()], vec![], vec![], vec![]);
    match &out.orchestrator[..] {
        [PlanetToOrchestrator::StartPlanetAIResult { planet_id: 1 }, PlanetToOrchestrator::KillPlanetResult { planet_id }] => {
            assert_eq!(*planet_id, 1)
        }
        _ => panic!("wrong ACK!"),
    }
}

#[test]
fn test_planet_ai_() {
    let out = run_planet(fresh(), true, vec![start()], vec![], vec![], vec![]);
    match out.orchestrator.last() {
        Some(PlanetToOrchestrator::KillPlanetResult { planet_id }) => assert_eq!(*planet_id, 1),
        _ => panic!("wrong ACK!"),
    }
}

#[test]
fn test_correct_basic_resource_generation() {
    let out = run_planet(
        fresh(),
        true,
        vec![start(), Step::Land, sunray()],
        vec![],
        vec![ExplorerToPlanet::GenerateResourceRequest { explorer_id: EXPLORER, resource: BasicResourceType::Carbon }],
        vec![],
    );
    match &out.explorer[..] {
        [PlanetToExplorer::GenerateResourceResponse { resource: Some(r) }] => {
            assert_eq!(r.get_type(), BasicResourceType::Carbon)
        }
        _ => panic!("wrong ACK!"),
    }
}

#[test]
fn new_planet_ai_is_stopped_and_alive() {
    let ai = RustEzeAi::stopped();
    assert!(!ai.running);
    assert!(!ai.killed);
}

#[test]
fn config_has_id_one_and_two_recipes() {
    let config = createplanet_config(42);
    assert_eq!(config.id, 1);
    assert_eq!(config.planet_type, PlanetKind::D);
    assert_eq!(config.gen_rules, vec![BasicKind::Carbon, BasicKind::Silicon]);
    assert!(config.comb_rules.is_empty());
}

#[test]
fn sunray_is_acknowledged_and_charges_first_cell() {
    let out = run_planet(fresh(), true, vec![start(), sunray(), sunray(), state_request()], vec![], vec![], vec![]);
    assert_eq!(
        out.ai,
        vec!["sunray ack 1", "sunray ack 1", "state 1 [true, false, false, false, false] 1 false"]
    );
}

#[test]
fn stopped_ai_answers_stopped() {
    let out = run_planet(
        fresh(),
        false,
        vec![start(), Step::Land, sunray(), state_request()],
        vec![],
        vec![ExplorerToPlanet::AvailableEnergyCellRequest { explorer_id: EXPLORER }],
        vec![],
    );
    assert_eq!(out.ai, vec!["stopped 1", "stopped 1"]);
    match &out.explorer[..] {
        [PlanetToExplorer::Stopped] => {}
        _ => panic!("expected Stopped"),
    }
}

#[test]
fn killed_ai_answers_nothing_ever_again() {
    let out = run_planet(
        fresh(),
        true,
        vec![start(), Step::Land, state_request(), sunray(), state_request(), state_request()],
        vec![OrchestratorRequest::KillPlanet, OrchestratorRequest::StartPlanetAI],
        vec![ExplorerToPlanet::AvailableEnergyCellRequest { explorer_id: EXPLORER }],
        vec![],
    );
    assert_eq!(out.ai, vec!["killed 1", "none", "none", "none"]);
    assert!(out.explorer.is_empty());
}

#[test]
fn killed_while_stopped_stays_silent() {
    let out = run_planet(RustEzeAi { running: false, killed: true }, true, vec![start(), sunray()], vec![], vec![], vec![]);
    assert_eq!(out.ai, vec!["none"]);
}

#[test]
fn other_orchestrator_requests_get_no_answer() {
    let out = run_planet(
        fresh(),
        true,
        vec![start(), state_request(), state_request()],
        vec![OrchestratorRequest::OutgoingExplorerRequest { explorer_id: 3 }],
        vec![],
        vec![],
    );
    assert_eq!(out.ai, vec!["none", "state 1 [false, false, false, false, false] 0 false"]);
}

#[test]
fn available_cells_counts_every_cell() {
    let out = run_planet(
        fresh(),
        true,
        vec![start(), Step::Land],
        vec![],
        vec![ExplorerToPlanet::AvailableEnergyCellRequest { explorer_id: EXPLORER }],
        vec![],
    );
    match &out.explorer[..] {
        [PlanetToExplorer::AvailableEnergyCellResponse { available_cells }] => assert_eq!(*available_cells, 5),
        _ => panic!("expected the number of cells"),
    }
}

#[test]
fn combination_is_refused_with_the_resources() {
    let out = run_planet(
        fresh(),
        true,
        vec![start(), Step::Land, sunray()],
        vec![],
        vec![
            ExplorerToPlanet::GenerateResourceRequest { explorer_id: EXPLORER, resource: BasicResourceType::Carbon },
            ExplorerToPlanet::GenerateResourceRequest { explorer_id: EXPLORER, resource: BasicResourceType::Carbon },
        ],
        vec![vec![sunray()]],
    );
    let mut carbons = Vec::new();
    for m in out.explorer {
        match m {
            PlanetToExplorer::GenerateResourceResponse { resource: Some(r) } => carbons.push(r.to_carbon().unwrap()),
            _ => panic!("expected carbon"),
        }
    }
    let c2 = carbons.pop().unwrap();
    let c1 = carbons.pop().unwrap();
    let out = run_planet(
        fresh(),
        true,
        vec![start(), Step::Land],
        vec![],
        vec![ExplorerToPlanet::CombineResourceRequest {
            explorer_id: EXPLORER,
            msg: common_game::components::resource::ComplexResourceRequest::Diamond(c1, c2),
        }],
        vec![],
    );
    match &out.explorer[..] {
        [PlanetToExplorer::CombineResourceResponse { complex_response: Err((reason, first, second)) }] => {
            assert_eq!(reason, "Planet does not support combinations");
            assert!(matches!(first.get_type(), common_game::components::resource::ResourceType::Basic(BasicResourceType::Carbon)));
            assert!(matches!(second.get_type(), common_game::components::resource::ResourceType::Basic(BasicResourceType::Carbon)));
        }
        _ => panic!("expected a refusal"),
    }
}

#[test]
fn asteroid_without_rocket_is_not_deflected() {
    let out = run_planet(
        fresh(),
        true,
        vec![start(), Step::Orch(OrchestratorToPlanet::Asteroid(forge().generate_asteroid()))],
        vec![],
        vec![],
        vec![],
    );
    assert!(out
        .orchestrator
        .iter()
        .any(|m| matches!(m, PlanetToOrchestrator::AsteroidAck { planet_id: 1, rocket: None })));
}

#[test]
fn start_stop_and_safety_check() {
    let (_to_planet, from_orchestrator) = unbounded::<OrchestratorToPlanet>();
    let (to_orchestrator, _from_planet) = unbounded::<PlanetToOrchestrator>();
    let (_explorer_to_planet, from_explorers) = unbounded::<ExplorerToPlanet>();
    let (_inject, inject) = unbounded::<OrchestratorRequest>();
    let (report, _report) = unbounded::<String>();
    let (to_planet, _unused) = unbounded::<OrchestratorToPlanet>();
    let probe = Probe { ai: fresh(), follow_start: true, inject, report, to_planet, after: VecDeque::new() };
    let planet = Planet::new(
        1,
        PlanetType::D,
        Box::new(probe),
        vec![BasicResourceType::Carbon],
        vec![],
        (from_orchestrator, to_orchestrator),
        from_explorers,
    )
    .unwrap();
    let state = planet.state();
    let generator = planet.generator();
    let mut ai = fresh();
    ai.start(state);
    assert!(ai.running && !ai.killed);
    ai.start(state);
    assert!(ai.running && !ai.killed);
    ai.stop(state);
    assert!(!ai.running && !ai.killed);
    ai.stop(state);
    assert!(!ai.running && !ai.killed);
    let mut dead = RustEzeAi { running: false, killed: true };
    dead.start(state);
    assert!(dead.running && dead.killed);

    let carbon = ExplorerRequest::GenerateResourceRequest { explorer_id: 1, resource: BasicKind::Carbon };
    assert!(ai.explorer_msg_is_safe(state, generator, &carbon));
    ai.start(state);
    assert!(!ai.explorer_msg_is_safe(state, generator, &carbon));
    let list = ExplorerRequest::SupportedResourceRequest { explorer_id: 1 };
    assert!(ai.explorer_msg_is_safe(state, generator, &list));
    assert!(dead.explorer_msg_is_safe(state, generator, &carbon));
}

#[test]
fn combination_refusal_keeps_the_order_of_the_resources() {
    let out = run_planet_with_recipes(
        vec![BasicResourceType::Hydrogen, BasicResourceType::Oxygen],
        fresh(),
        true,
        vec![start(), Step::Land, sunray()],
        vec![],
        vec![
            ExplorerToPlanet::GenerateResourceRequest { explorer_id: EXPLORER, resource: BasicResourceType::Hydrogen },
            ExplorerToPlanet::GenerateResourceRequest { explorer_id: EXPLORER, resource: BasicResourceType::Oxygen },
        ],
        vec![vec![sunray()]],
    );
    let mut made = out.explorer.into_iter().map(|m| match m {
        PlanetToExplorer::GenerateResourceResponse { resource: Some(r) } => r,
        _ => panic!("expected a resource"),
    });
    let hydrogen = made.next().unwrap().to_hydrogen().unwrap();
    let oxygen = made.next().unwrap().to_oxygen().unwrap();
    let out = run_planet(
        fresh(),
        true,
        vec![start(), Step::Land],
        vec![],
        vec![ExplorerToPlanet::CombineResourceRequest { explorer_id: EXPLORER, msg: ComplexResourceRequest::Water(hydrogen, oxygen) }],
        vec![],
    );
    match &out.explorer[..] {
        [PlanetToExplorer::CombineResourceResponse { complex_response: Err((reason, first, second)) }] => {
            assert_eq!(reason, "Planet does not support combinations");
            assert!(matches!(first.get_type(), common_game::components::resource::ResourceType::Basic(BasicResourceType::Hydrogen)));
            assert!(matches!(second.get_type(), common_game::components::resource::ResourceType::Basic(BasicResourceType::Oxygen)));
        }
        _ => panic!("expected a refusal"),
    }
}
