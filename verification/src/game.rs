//! The planet state, generator and combinator of `common_game`, as this
//! library sees them: each is an opaque value whose contents are named by a
//! spec function, and each method the planet logic calls is a trusted item
//! whose contract says what the method does to those contents.
use vstd::prelude::*;
use common_game::components::planet::PlanetState;
use common_game::components::resource::{
    BasicResource, BasicResourceType, Combinator, ComplexResourceType,
    GenericResource, Generator,
};
use common_game::components::rocket::Rocket;
use common_game::components::sunray::Sunray;

verus! {

#[verifier::external_type_specification]
#[verifier::external_body]
pub struct ExPlanetState(PlanetState);

#[verifier::external_type_specification]
#[verifier::external_body]
pub struct ExGenerator(Generator);

#[verifier::external_type_specification]
#[verifier::external_body]
pub struct ExCombinator(Combinator);

#[verifier::external_type_specification]
#[verifier::external_body]
pub struct ExSunray(Sunray);

#[verifier::external_type_specification]
#[verifier::external_body]
pub struct ExRocket(Rocket);

#[verifier::external_type_specification]
#[verifier::external_body]
pub struct ExBasicResource(BasicResource);

#[verifier::external_type_specification]
#[verifier::external_body]
pub struct ExGenericResource(GenericResource);

/// The basic resources of the game.
#[derive(Clone, Copy, Debug, PartialEq, Eq, Hash, Structural)]
pub enum BasicKind {
    Oxygen,
    Hydrogen,
    Carbon,
    Silicon,
}

/// The complex resources of the game.
#[derive(Clone, Copy, Debug, PartialEq, Eq, Hash, Structural)]
pub enum ComplexKind {
    Diamond,
    Water,
    Life,
    Robot,
    Dolphin,
    AIPartner,
}

/// A basic resource made by a generator, together with its kind. Only the
/// generator calls of this module make one, so the kind is the one the
/// generator made.
pub struct BasicItem {
    kind: BasicKind,
    resource: BasicResource,
}

impl BasicItem {
    /// The kind of the resource.
    pub closed spec fn kind(self) -> BasicKind {
        self.kind
    }

    /// The kind of the resource.
    pub fn get_kind(&self) -> (k: BasicKind)
        ensures
            k == self.kind(),
    {
        self.kind
    }

    /// The resource itself.
    pub fn into_resource(self) -> BasicResource {
        self.resource
    }
}

/// What an internal-state request reports of a planet: the charge of each
/// energy cell, how many of them are charged, and whether a rocket is built.
pub struct PlanetSnapshot {
    pub energy_cells: Vec<bool>,
    pub charged_cells_count: usize,
    pub has_rocket: bool,
}

/// The charge of each energy cell of a planet state, in order.
pub uninterp spec fn planet_cells(state: PlanetState) -> Seq<bool>;

/// The identifier a planet state was created with.
pub uninterp spec fn planet_id(state: PlanetState) -> u32;

/// Whether a planet state holds a built rocket.
pub uninterp spec fn planet_has_rocket(state: PlanetState) -> bool;

/// The basic resources a generator holds a recipe for.
pub uninterp spec fn generator_recipes(generator: Generator) -> Set<BasicKind>;

/// The complex resources a combinator holds a recipe for.
pub uninterp spec fn combinator_recipes(combinator: Combinator) -> Set<ComplexKind>;

/// Index of the first cell whose charge is `value`, if there is one.
pub open spec fn first_index(cells: Seq<bool>, value: bool) -> Option<nat>
    decreases cells.len(),
{
    if cells.len() == 0 {
        None
    } else if cells[0] == value {
        Some(0)
    } else {
        match first_index(cells.drop_first(), value) {
            Some(i) => Some(i + 1),
            None => None,
        }
    }
}

/// The index `first_index` gives is the first one holding `value`, and when
/// it gives none no cell holds `value`.
pub proof fn lemma_first_index_in_bounds(cells: Seq<bool>, value: bool)
    ensures
        match first_index(cells, value) {
            Some(i) => i < cells.len() && cells[i as int] == value
                && forall|j: int| 0 <= j < i ==> cells[j] != value,
            None => forall|j: int| 0 <= j < cells.len() ==> cells[j] != value,
        },
    decreases cells.len(),
{
    if cells.len() > 0 && cells[0] != value {
        lemma_first_index_in_bounds(cells.drop_first(), value);
        assert forall|j: int| 0 < j < cells.len() implies cells[j] == cells.drop_first()[j - 1] by {}
    }
}

/// Number of charged cells.
pub open spec fn charged_count(cells: Seq<bool>) -> nat
    decreases cells.len(),
{
    if cells.len() == 0 {
        0
    } else {
        charged_count(cells.drop_last()) + if cells.last() { 1nat } else { 0nat }
    }
}

/// Setting one cell to `value` changes the number of charged cells by what
/// that cell held and what it holds now.
pub proof fn lemma_charged_count_update(cells: Seq<bool>, i: int, value: bool)
    requires
        0 <= i < cells.len(),
    ensures
        charged_count(cells.update(i, value)) + (if cells[i] { 1int } else { 0int })
            == charged_count(cells) + (if value { 1int } else { 0int }),
    decreases cells.len(),
{
    let updated = cells.update(i, value);
    if i == cells.len() - 1 {
        assert(updated.drop_last() =~= cells.drop_last());
    } else {
        assert(updated.drop_last() =~= cells.drop_last().update(i, value));
        lemma_charged_count_update(cells.drop_last(), i, value);
    }
}

/// No more cells are charged than there are cells.
pub proof fn lemma_charged_count_bounded(cells: Seq<bool>)
    ensures
        charged_count(cells) <= cells.len(),
    decreases cells.len(),
{
    if cells.len() > 0 {
        lemma_charged_count_bounded(cells.drop_last());
    }
}

/// The cells after a sunray charged the first empty one (if any).
pub open spec fn charge_first_empty(cells: Seq<bool>) -> Seq<bool> {
    match first_index(cells, false) {
        Some(i) => cells.update(i as int, true),
        None => cells,
    }
}

/// `after` is `before` with only its cells replaced by `cells`.
pub open spec fn with_cells(before: PlanetState, after: PlanetState, cells: Seq<bool>) -> bool {
    &&& planet_cells(after) == cells
    &&& planet_id(after) == planet_id(before)
    &&& planet_has_rocket(after) == planet_has_rocket(before)
}

/// The outcome of asking a generator with recipes `recipes` to make `kind`
/// from cell `i`: it succeeds (`made`) exactly when the cell is charged and the
/// recipe is there, and a success discharges that cell and nothing else.
pub open spec fn generation(
    before: PlanetState,
    after: PlanetState,
    recipes: Set<BasicKind>,
    kind: BasicKind,
    i: int,
    made: bool,
) -> bool {
    &&& made == (planet_cells(before)[i] && recipes.contains(kind))
    &&& with_cells(
        before,
        after,
        if made { planet_cells(before).update(i, false) } else { planet_cells(before) },
    )
}

/// `PlanetState::id`: the identifier the state was made with.
#[verifier::external_body]
pub fn state_id(state: &PlanetState) -> (id: u32)
    ensures
        id == planet_id(*state),
{
    state.id()
}

/// `PlanetState::cells_count`: the number of energy cells.
#[verifier::external_body]
pub fn cells_count(state: &PlanetState) -> (n: usize)
    ensures
        n == planet_cells(*state).len(),
{
    state.cells_count()
}

/// `EnergyCell::is_charged` on the `i`-th cell (`PlanetState::cell` panics
/// out of bounds, hence the `requires`).
#[verifier::external_body]
pub fn cell_charged(state: &PlanetState, i: usize) -> (charged: bool)
    requires
        i < planet_cells(*state).len(),
    ensures
        charged == planet_cells(*state)[i as int],
{
    state.cell(i).is_charged()
}

/// `PlanetState::charge_cell`: charges the first empty cell and hands the
/// sunray back when every cell is already charged.
#[verifier::external_body]
pub fn charge_cell(state: &mut PlanetState, sunray: Sunray) -> (rest: Option<Sunray>)
    ensures
        with_cells(*old(state), *final(state), charge_first_empty(planet_cells(*old(state)))),
        rest is None <==> first_index(planet_cells(*old(state)), false) is Some,
{
    state.charge_cell(sunray)
}

/// `EnergyCell::charge` on the `i`-th cell: the cell is charged afterwards
/// (a charged cell stays as it is).
#[verifier::external_body]
pub fn charge_cell_at(state: &mut PlanetState, i: usize, sunray: Sunray)
    requires
        i < planet_cells(*old(state)).len(),
    ensures
        with_cells(*old(state), *final(state), planet_cells(*old(state)).update(i as int, true)),
{
    state.cell_mut(i).charge(sunray)
}

/// `PlanetState::full_cell`, keeping the index of the cell it finds: the
/// first charged cell. The state is left as it was.
#[verifier::external_body]
pub fn full_cell_index(state: &mut PlanetState) -> (i: Option<usize>)
    ensures
        *final(state) == *old(state),
        match i {
            Some(k) => first_index(planet_cells(*old(state)), true) == Some(k as nat),
            None => first_index(planet_cells(*old(state)), true) is None,
        },
{
    state.full_cell().map(|(_, i)| i)
}

/// `PlanetState::has_rocket`.
#[verifier::external_body]
pub fn has_rocket(state: &PlanetState) -> (b: bool)
    ensures
        b == planet_has_rocket(*state),
{
    state.has_rocket()
}

/// `PlanetState::take_rocket`: hands out the rocket, if one is built, and
/// leaves none behind.
#[verifier::external_body]
pub fn take_rocket(state: &mut PlanetState) -> (rocket: Option<Rocket>)
    ensures
        rocket is Some <==> planet_has_rocket(*old(state)),
        !planet_has_rocket(*final(state)),
        planet_cells(*final(state)) == planet_cells(*old(state)),
        planet_id(*final(state)) == planet_id(*old(state)),
{
    state.take_rocket()
}

/// `PlanetState::to_dummy`, its fields moved into a `PlanetSnapshot`.
#[verifier::external_body]
pub fn snapshot(state: &PlanetState) -> (s: PlanetSnapshot)
    ensures
        s.energy_cells@ == planet_cells(*state),
        s.charged_cells_count == charged_count(planet_cells(*state)),
        s.has_rocket == planet_has_rocket(*state),
{
    let dummy = state.to_dummy();
    PlanetSnapshot {
        energy_cells: dummy.energy_cells,
        charged_cells_count: dummy.charged_cells_count,
        has_rocket: dummy.has_rocket,
    }
}

/// `Generator::contains`: whether the generator holds the recipe for `kind`.
#[verifier::external_body]
pub fn generator_contains(generator: &Generator, kind: BasicKind) -> (b: bool)
    ensures
        b == generator_recipes(*generator).contains(kind),
{
    generator.contains(match kind {
        BasicKind::Oxygen => BasicResourceType::Oxygen,
        BasicKind::Hydrogen => BasicResourceType::Hydrogen,
        BasicKind::Carbon => BasicResourceType::Carbon,
        BasicKind::Silicon => BasicResourceType::Silicon,
    })
}

/// `Generator::try_make` with the `i`-th cell: fails when the cell is not
/// charged or the recipe is missing; else discharges the cell and makes a
/// resource of the requested kind.
#[verifier::external_body]
pub fn try_make(generator: &Generator, kind: BasicKind, state: &mut PlanetState, i: usize) -> (r: Result<BasicItem, String>)
    requires
        i < planet_cells(*old(state)).len(),
    ensures
        generation(*old(state), *final(state), generator_recipes(*generator), kind, i as int, r is Ok),
        r matches Ok(item) ==> item.kind() == kind,
{
    let req = match kind {
        BasicKind::Oxygen => BasicResourceType::Oxygen,
        BasicKind::Hydrogen => BasicResourceType::Hydrogen,
        BasicKind::Carbon => BasicResourceType::Carbon,
        BasicKind::Silicon => BasicResourceType::Silicon,
    };
    generator.try_make(req, state.cell_mut(i)).map(|resource| BasicItem { kind, resource })
}

/// `Generator::make_oxygen` with the `i`-th cell (same outcome as `try_make`).
#[verifier::external_body]
pub fn make_oxygen(generator: &Generator, state: &mut PlanetState, i: usize) -> (r: Result<BasicItem, String>)
    requires
        i < planet_cells(*old(state)).len(),
    ensures
        generation(*old(state), *final(state), generator_recipes(*generator), BasicKind::Oxygen, i as int, r is Ok),
        r matches Ok(item) ==> item.kind() == BasicKind::Oxygen,
{
    generator.make_oxygen(state.cell_mut(i)).map(|o| BasicItem { kind: BasicKind::Oxygen, resource: o.to_basic() })
}

/// `Generator::make_hydrogen` with the `i`-th cell (same outcome as `try_make`).
#[verifier::external_body]
pub fn make_hydrogen(generator: &Generator, state: &mut PlanetState, i: usize) -> (r: Result<BasicItem, String>)
    requires
        i < planet_cells(*old(state)).len(),
    ensures
        generation(*old(state), *final(state), generator_recipes(*generator), BasicKind::Hydrogen, i as int, r is Ok),
        r matches Ok(item) ==> item.kind() == BasicKind::Hydrogen,
{
    generator.make_hydrogen(state.cell_mut(i)).map(|h| BasicItem { kind: BasicKind::Hydrogen, resource: h.to_basic() })
}

/// `Generator::make_carbon` with the `i`-th cell (same outcome as `try_make`).
#[verifier::external_body]
pub fn make_carbon(generator: &Generator, state: &mut PlanetState, i: usize) -> (r: Result<BasicItem, String>)
    requires
        i < planet_cells(*old(state)).len(),
    ensures
        generation(*old(state), *final(state), generator_recipes(*generator), BasicKind::Carbon, i as int, r is Ok),
        r matches Ok(item) ==> item.kind() == BasicKind::Carbon,
{
    generator.make_carbon(state.cell_mut(i)).map(|c| BasicItem { kind: BasicKind::Carbon, resource: c.to_basic() })
}

/// `Generator::make_silicon` with the `i`-th cell (same outcome as `try_make`).
#[verifier::external_body]
pub fn make_silicon(generator: &Generator, state: &mut PlanetState, i: usize) -> (r: Result<BasicItem, String>)
    requires
        i < planet_cells(*old(state)).len(),
    ensures
        generation(*old(state), *final(state), generator_recipes(*generator), BasicKind::Silicon, i as int, r is Ok),
        r matches Ok(item) ==> item.kind() == BasicKind::Silicon,
{
    generator.make_silicon(state.cell_mut(i)).map(|s| BasicItem { kind: BasicKind::Silicon, resource: s.to_basic() })
}

/// `Generator::all_available_recipes`, each recipe given as a `BasicKind`, in
/// the order the set is walked: the list holds each recipe once.
#[verifier::external_body]
pub fn basic_recipes(generator: &Generator) -> (list: Vec<BasicKind>)
    ensures
        list@.to_set() == generator_recipes(*generator),
        list@.no_duplicates(),
{
    generator.all_available_recipes().into_iter().map(|t| match t {
        BasicResourceType::Oxygen => BasicKind::Oxygen,
        BasicResourceType::Hydrogen => BasicKind::Hydrogen,
        BasicResourceType::Carbon => BasicKind::Carbon,
        BasicResourceType::Silicon => BasicKind::Silicon,
    }).collect()
}

/// `Combinator::all_available_recipes`, each recipe given as a
/// `ComplexKind`, in the order the set is walked: the list holds each recipe
/// once.
#[verifier::external_body]
pub fn complex_recipes(combinator: &Combinator) -> (list: Vec<ComplexKind>)
    ensures
        list@.to_set() == combinator_recipes(*combinator),
        list@.no_duplicates(),
{
    combinator.all_available_recipes().into_iter().map(|t| match t {
        ComplexResourceType::Diamond => ComplexKind::Diamond,
        ComplexResourceType::Water => ComplexKind::Water,
        ComplexResourceType::Life => ComplexKind::Life,
        ComplexResourceType::Robot => ComplexKind::Robot,
        ComplexResourceType::Dolphin => ComplexKind::Dolphin,
        ComplexResourceType::AIPartner => ComplexKind::AIPartner,
    }).collect()
}

} // verus!
