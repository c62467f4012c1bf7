//! Rust-Eze, a type-D planet that generates every basic resource, combines
//! nothing and never builds rockets.
use vstd::prelude::*;
use common_game::components::planet::PlanetState;
use common_game::components::resource::{Combinator, Generator};
use common_game::components::rocket::Rocket;
use common_game::components::sunray::Sunray;
use crate::game::{
    basic_recipes, charge_cell, charge_first_empty, charged_count, combinator_recipes,
    complex_recipes, first_index, full_cell_index, generation, generator_recipes,
    lemma_charged_count_bounded, lemma_charged_count_update, lemma_first_index_in_bounds, planet_cells, planet_has_rocket, planet_id, snapshot, try_make, with_cells,
    BasicKind, ComplexKind, PlanetSnapshot,
};
use crate::messages::{ExplorerReply, ExplorerRequest, PlanetConfig, PlanetKind};

verus! {

/// The planet's behaviour; it keeps no state of its own.
pub struct RustEzeAI {}

/// What Rust-Eze answers an explorer with `reply`, the planet state going
/// from `before` to `after`. Resources are generated with the first charged
/// cell: a failed generation gets no answer, and with no cell charged the
/// answer carries no resource. Combination requests get no answer.
pub open spec fn explorer_answer(
    before: PlanetState,
    after: PlanetState,
    generator: Generator,
    combinator: Combinator,
    msg: ExplorerRequest,
    reply: Option<ExplorerReply>,
) -> bool {
    match msg {
        ExplorerRequest::SupportedResourceRequest { .. } => {
            &&& after == before
            &&& reply matches Some(ExplorerReply::SupportedResourceResponse { resource_list })
            &&& resource_list@.to_set() == generator_recipes(generator)
            &&& resource_list@.no_duplicates()
        },
        ExplorerRequest::SupportedCombinationRequest { .. } => {
            &&& after == before
            &&& reply matches Some(ExplorerReply::SupportedCombinationResponse { combination_list })
            &&& combination_list@.to_set() == combinator_recipes(combinator)
            &&& combination_list@.no_duplicates()
        },
        ExplorerRequest::GenerateResourceRequest { resource, .. } => {
            match first_index(planet_cells(before), true) {
                None => {
                    &&& after == before
                    &&& reply matches Some(ExplorerReply::GenerateResourceResponse { resource: None })
                },
                Some(i) => {
                    &&& generation(before, after, generator_recipes(generator), resource, i as int, reply is Some)
                    &&& reply is Some ==> (reply matches Some(ExplorerReply::GenerateResourceResponse { resource: Some(item) })
                        && item.kind() == resource)
                },
            }
        },
        ExplorerRequest::CombineResourceRequest { .. } => {
            &&& after == before
            &&& reply is None
        },
        ExplorerRequest::AvailableEnergyCellRequest { .. } => {
            &&& after == before
            &&& reply == Some(ExplorerReply::AvailableEnergyCellResponse {
                available_cells: charged_count(planet_cells(before)) as u32,
            })
        },
    }
}

impl RustEzeAI {
    pub fn new() -> (ai: Self)
        ensures
            ai == (RustEzeAI {}),
    {
        RustEzeAI {}
    }

    /// A sunray charges the first empty cell; with every cell charged it is
    /// lost.
    pub fn handle_sunray(
        &mut self,
        state: &mut PlanetState,
        generator: &Generator,
        combinator: &Combinator,
        sunray: Sunray,
    )
        ensures
            with_cells(*old(state), *final(state), charge_first_empty(planet_cells(*old(state)))),
    {
        let _ = charge_cell(state, sunray);
    }

    /// This planet cannot have rockets: an asteroid is never deflected.
    pub fn handle_asteroid(
        &mut self,
        state: &mut PlanetState,
        generator: &Generator,
        combinator: &Combinator,
    ) -> (rocket: Option<Rocket>)
        ensures
            rocket is None,
            *final(state) == *old(state),
    {
        None
    }

    /// Reports the charge of every cell, how many are charged and whether a
    /// rocket is built.
    pub fn handle_internal_state_req(
        &mut self,
        state: &mut PlanetState,
        generator: &Generator,
        combinator: &Combinator,
    ) -> (s: PlanetSnapshot)
        ensures
            *final(state) == *old(state),
            s.energy_cells@ == planet_cells(*old(state)),
            s.charged_cells_count == charged_count(planet_cells(*old(state))),
            s.has_rocket == planet_has_rocket(*old(state)),
    {
        snapshot(state)
    }

    /// Answers an explorer, as `explorer_answer` says.
    pub fn handle_explorer_msg(
        &mut self,
        state: &mut PlanetState,
        generator: &Generator,
        combinator: &Combinator,
        msg: ExplorerRequest,
    ) -> (reply: Option<ExplorerReply>)
        ensures
            explorer_answer(*old(state), *final(state), *generator, *combinator, msg, reply),
            *final(state) != *old(state) ==> msg is GenerateResourceRequest,
    {
        let (reply, _) = self.handle_explorer_msg_reporting(state, generator, combinator, msg);
        reply
    }

    /// Answers an explorer as `handle_explorer_msg` does, and hands out beside
    /// the answer the generator's error when a generation fails (and only
    /// then).
    pub fn handle_explorer_msg_reporting(
        &mut self,
        state: &mut PlanetState,
        generator: &Generator,
        combinator: &Combinator,
        msg: ExplorerRequest,
    ) -> (out: (Option<ExplorerReply>, Option<String>))
        ensures
            explorer_answer(*old(state), *final(state), *generator, *combinator, msg, out.0),
            *final(state) != *old(state) ==> msg is GenerateResourceRequest,
            out.1 is Some <==> {
                &&& msg is GenerateResourceRequest
                &&& first_index(planet_cells(*old(state)), true) is Some
                &&& out.0 is None
            },
    {
        match msg {
            ExplorerRequest::SupportedResourceRequest { .. } => {
                (Some(ExplorerReply::SupportedResourceResponse { resource_list: basic_recipes(generator) }), None)
            },
            ExplorerRequest::SupportedCombinationRequest { .. } => {
                (Some(ExplorerReply::SupportedCombinationResponse { combination_list: complex_recipes(combinator) }), None)
            },
            ExplorerRequest::GenerateResourceRequest { resource, .. } => {
                match full_cell_index(state) {
                    Some(i) => {
                        proof {
                            lemma_first_index_in_bounds(planet_cells(*state), true);
                        }
                        match try_make(generator, resource, state, i) {
                            Ok(item) => (Some(ExplorerReply::GenerateResourceResponse { resource: Some(item) }), None),
                            Err(error) => (None, Some(error)),
                        }
                    },
                    None => (Some(ExplorerReply::GenerateResourceResponse { resource: None }), None),
                }
            },
            ExplorerRequest::CombineResourceRequest { .. } => (None, None),
            ExplorerRequest::AvailableEnergyCellRequest { .. } => {
                let s = snapshot(state);
                (Some(ExplorerReply::AvailableEnergyCellResponse { available_cells: s.charged_cells_count as u32 }), None)
            },
        }
    }
}

/// How Rust-Eze is built: a type-D planet with the given identifier that
/// generates carbon, hydrogen, oxygen and silicon and combines nothing.
pub fn planet_config(id: u32) -> (config: PlanetConfig)
    ensures
        config.id == id,
        config.planet_type == PlanetKind::D,
        config.gen_rules@ == seq![BasicKind::Carbon, BasicKind::Hydrogen, BasicKind::Oxygen, BasicKind::Silicon],
        config.comb_rules@ == Seq::<ComplexKind>::empty(),
{
    PlanetConfig {
        id,
        planet_type: PlanetKind::D,
        gen_rules: vec![BasicKind::Carbon, BasicKind::Hydrogen, BasicKind::Oxygen, BasicKind::Silicon],
        comb_rules: Vec::new(),
    }
}

/// Every charged cell counts: with no empty cell, the count is the number of
/// cells.
proof fn lemma_all_charged(cells: Seq<bool>)
    requires
        forall|j: int| 0 <= j < cells.len() ==> cells[j],
    ensures
        charged_count(cells) == cells.len(),
    decreases cells.len(),
{
    if cells.len() > 0 {
        lemma_all_charged(cells.drop_last());
    }
}

/// A sunray adds exactly one charge when some cell is empty; when every cell
/// is charged it changes nothing, and then every cell is counted as charged.
/// The number of cells stays the same.
pub proof fn law_sunray_adds_one_charge(cells: Seq<bool>)
    ensures
        charge_first_empty(cells).len() == cells.len(),
        charged_count(charge_first_empty(cells))
            == charged_count(cells) + (if first_index(cells, false) is Some { 1int } else { 0int }),
        first_index(cells, false) is None ==> charge_first_empty(cells) == cells
            && charged_count(cells) == cells.len(),
{
    lemma_first_index_in_bounds(cells, false);
    match first_index(cells, false) {
        Some(i) => {
            lemma_charged_count_update(cells, i as int, true);
        },
        None => {
            lemma_all_charged(cells);
        },
    }
}

/// A generation that succeeds spends exactly one charge, one that fails
/// spends none; the number of cells stays the same.
pub proof fn law_generation_spends_one_charge(
    before: PlanetState,
    after: PlanetState,
    recipes: Set<BasicKind>,
    kind: BasicKind,
    i: int,
    made: bool,
)
    requires
        0 <= i < planet_cells(before).len(),
        generation(before, after, recipes, kind, i, made),
    ensures
        planet_cells(after).len() == planet_cells(before).len(),
        charged_count(planet_cells(after)) + (if made { 1int } else { 0int })
            == charged_count(planet_cells(before)),
{
    if made {
        lemma_charged_count_update(planet_cells(before), i, false);
    }
}

/// The number of available cells an explorer is told is the number of
/// charged cells an internal-state request reports, taken exactly: it never
/// exceeds the number of cells, so it is not cut short on a planet with fewer
/// than 2^32 cells.
pub proof fn law_available_cells_are_charged_cells(state: PlanetState)
    requires
        planet_cells(state).len() <= u32::MAX,
    ensures
        charged_count(planet_cells(state)) <= planet_cells(state).len(),
        (charged_count(planet_cells(state)) as u32) as nat == charged_count(planet_cells(state)),
{
    lemma_charged_count_bounded(planet_cells(state));
}

/// Counting charged cells one by one from the back gives the number of cells
/// whose charge is set.
proof fn lemma_charged_count_is_filter(cells: Seq<bool>)
    ensures
        charged_count(cells) == cells.filter(|c: bool| c).len(),
    decreases cells.len(),
{
    reveal(Seq::filter);
    if cells.len() > 0 {
        lemma_charged_count_is_filter(cells.drop_last());
    }
}

/// An explorer asking for the available energy cells is told how many cells
/// are charged: the cells whose charge is set, the count an internal-state
/// request reports. Nothing on the planet changes.
pub proof fn law_available_cells_answer(
    before: PlanetState,
    after: PlanetState,
    generator: Generator,
    combinator: Combinator,
    explorer_id: u32,
    reply: Option<ExplorerReply>,
)
    requires
        explorer_answer(before, after, generator, combinator,
            ExplorerRequest::AvailableEnergyCellRequest { explorer_id }, reply),
    ensures
        after == before,
        reply matches Some(ExplorerReply::AvailableEnergyCellResponse { available_cells }) && {
            &&& available_cells == planet_cells(before).filter(|c: bool| c).len() as u32
            &&& available_cells == charged_count(planet_cells(before)) as u32
            &&& planet_cells(before).len() <= u32::MAX ==> available_cells as nat
                == planet_cells(before).filter(|c: bool| c).len()
        },
{
    lemma_charged_count_is_filter(planet_cells(before));
    lemma_charged_count_bounded(planet_cells(before));
}

/// A generation request is served with the first charged cell, for the kind
/// requested. With some cell charged, the answer carries a resource exactly
/// when the generator has the recipe; the resource is of the requested kind,
/// and the first charged cell, and no other, is spent. Without the recipe
/// there is no answer and the cells stay as they were. With no cell charged
/// the answer carries no resource and nothing changes.
pub proof fn law_generation_answer(
    before: PlanetState,
    after: PlanetState,
    generator: Generator,
    combinator: Combinator,
    explorer_id: u32,
    kind: BasicKind,
    reply: Option<ExplorerReply>,
)
    requires
        explorer_answer(before, after, generator, combinator,
            ExplorerRequest::GenerateResourceRequest { explorer_id, resource: kind }, reply),
    ensures
        planet_id(after) == planet_id(before),
        planet_has_rocket(after) == planet_has_rocket(before),
        (forall|j: int| 0 <= j < planet_cells(before).len() ==> !planet_cells(before)[j]) ==> {
            &&& after == before
            &&& reply matches Some(ExplorerReply::GenerateResourceResponse { resource: None })
        },
        (exists|j: int| 0 <= j < planet_cells(before).len() && planet_cells(before)[j]) ==> {
            &&& reply is Some <==> generator_recipes(generator).contains(kind)
            &&& reply is Some ==> (reply matches Some(ExplorerReply::GenerateResourceResponse { resource: Some(item) })
                && item.kind() == kind)
            &&& generator_recipes(generator).contains(kind) ==> exists|i: int| {
                &&& 0 <= i < planet_cells(before).len()
                &&& planet_cells(before)[i]
                &&& (forall|j: int| 0 <= j < i ==> !planet_cells(before)[j])
                &&& planet_cells(after) == planet_cells(before).update(i, false)
            }
            &&& !generator_recipes(generator).contains(kind) ==> planet_cells(after) == planet_cells(before)
        },
{
    let cells = planet_cells(before);
    lemma_first_index_in_bounds(cells, true);
    match first_index(cells, true) {
        Some(i) => {
            let i = i as int;
            assert(cells[i]);
            if generator_recipes(generator).contains(kind) {
                assert(planet_cells(after) == cells.update(i, false));
            }
        },
        None => {},
    }
}

} // verus!
