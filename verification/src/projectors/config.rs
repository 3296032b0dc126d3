//! Projectors: named selections of orbitals by species and ion, and the
//! weights of the selected orbitals, apart for each angular momentum.
use vstd::prelude::*;

use crate::fundamental::{
    channel_has_width, AngularMomentum, EigenvalueVec, KpointVec, OrbitalState, OrbitalWeightVec,
    PDOSWeights, SpinData, SpinView,
};

verus! {

/// The symbol of a species, such as `Mo`.
#[derive(Debug, Clone, PartialEq, Eq)]
pub struct SpeciesSymbol(pub String);

impl View for SpeciesSymbol {
    type V = Seq<char>;

    open spec fn view(&self) -> Seq<char> {
        self.0@
    }
}

impl SpeciesSymbol {
    /// The symbol as text.
    pub fn as_str(&self) -> (r: &str)
        ensures
            r@ == self@,
    {
        self.0.as_str()
    }
}

/// One line of the table that gives each species its id.
#[derive(Debug, Clone, PartialEq, Eq)]
pub struct Mapping {
    /// Species symbol
    pub species: SpeciesSymbol,
    /// Species id: the rank of the species by atomic number
    pub rank: u32,
}

/// Species and ions of one selection.
#[derive(Debug, Clone, PartialEq, Eq)]
pub struct Selection {
    /// Species symbol
    pub species: SpeciesSymbol,
    /// Ranks of the selected ions among those of the species, from 1. All
    /// ions of the species where none is given.
    pub atoms: Option<Vec<u32>>,
}

/// What a `Selection` holds.
pub struct SelectionView {
    pub species: Seq<char>,
    pub atoms: Option<Seq<u32>>,
}

impl View for Selection {
    type V = SelectionView;

    open spec fn view(&self) -> SelectionView {
        SelectionView {
            species: self.species@,
            atoms: match self.atoms {
                Some(atoms) => Some(atoms@),
                None => None,
            },
        }
    }
}

impl Selection {
    /// Access method
    pub fn species(&self) -> (r: &SpeciesSymbol)
        ensures
            r == &self.species,
    {
        &self.species
    }

    /// Access method
    pub fn atoms(&self) -> (r: Option<&Vec<u32>>)
        ensures
            match self.atoms {
                Some(atoms) => r == Some(&atoms),
                None => r is None,
            },
    {
        self.atoms.as_ref()
    }
}

/// One projector: a name, a label, and what it selects.
#[derive(Debug, Clone, PartialEq, Eq)]
pub struct ProjectorConfig {
    /// Name of this projector config: optional
    pub name: Option<String>,
    /// Label of this projector config: optional
    pub label: Option<String>,
    /// Selections of species and atoms. Where none is given, all orbitals
    /// are selected: the total density of states.
    pub selections: Option<Vec<Selection>>,
}

/// Species table and projectors of one calculation.
#[derive(Debug, Clone, PartialEq, Eq)]
pub struct PDOSConfig {
    /// The id of each species
    pub species_mapping: Vec<Mapping>,
    /// The projectors
    pub projectors: Vec<ProjectorConfig>,
}

/// The table from species symbol to species id.
#[derive(Debug, Clone, PartialEq, Eq)]
pub struct SpeciesMapping(pub Vec<Mapping>);

/// The table that the lines `entries` make when they are entered one after
/// another: of two lines for one symbol the later counts.
pub open spec fn species_table(entries: Seq<Mapping>) -> Map<Seq<char>, u32>
    decreases entries.len(),
{
    if entries.len() == 0 {
        Map::empty()
    } else {
        species_table(entries.drop_last()).insert(entries.last().species@, entries.last().rank)
    }
}

impl View for SpeciesMapping {
    type V = Map<Seq<char>, u32>;

    open spec fn view(&self) -> Map<Seq<char>, u32> {
        species_table(self.0@)
    }
}

impl SpeciesMapping {
    /// The id of the species with the given symbol, if the table has it.
    pub fn get(&self, symbol: &String) -> (r: Option<u32>)
        ensures
            r == if self@.dom().contains(symbol@) {
                Some(self@[symbol@])
            } else {
                None
            },
    {
        let mut found: Option<u32> = None;
        let mut i: usize = 0;
        while i < self.0.len()
            invariant
                i <= self.0@.len(),
                found == if species_table(self.0@.take(i as int)).dom().contains(symbol@) {
                    Some(species_table(self.0@.take(i as int))[symbol@])
                } else {
                    None
                },
            decreases self.0@.len() - i,
        {
            assert(self.0@.take(i + 1).drop_last() == self.0@.take(i as int));
            if self.0[i].species.0 == *symbol {
                found = Some(self.0[i].rank);
            }
            i += 1;
        }
        assert(self.0@.take(self.0@.len() as int) == self.0@);
        found
    }
}

impl PDOSConfig {
    /// The table from species symbol to species id.
    pub fn species_mapping(&self) -> (r: SpeciesMapping)
        ensures
            r@ == species_table(self.species_mapping@),
    {
        let mut entries: Vec<Mapping> = Vec::with_capacity(self.species_mapping.len());
        let mut i: usize = 0;
        while i < self.species_mapping.len()
            invariant
                i <= self.species_mapping@.len(),
                entries@ == self.species_mapping@.take(i as int),
            decreases self.species_mapping@.len() - i,
        {
            let entry = &self.species_mapping[i];
            entries.push(
                Mapping { species: SpeciesSymbol(entry.species.0.clone()), rank: entry.rank },
            );
            i += 1;
        }
        assert(self.species_mapping@.take(self.species_mapping@.len() as int)
            == self.species_mapping@);
        SpeciesMapping(entries)
    }

    /// A configuration to start from: carbon as species 1, and one
    /// projector named `Example` on its ions 1 and 2.
    pub fn example() -> (r: Self)
        ensures
            r.species_mapping@.len() == 1,
            r.species_mapping@[0].species@ == "C"@,
            r.species_mapping@[0].rank == 1,
            r.projectors@.len() == 1,
            r.projectors@[0].name matches Some(name) && name@ == "Example"@,
            r.projectors@[0].label is None,
            r.projectors@[0].selections matches Some(selections) && selections@.len() == 1
                && selections@[0]@ == (SelectionView {
                species: "C"@,
                atoms: Some(seq![1u32, 2u32]),
            }),
    {
        let mut species_mapping: Vec<Mapping> = Vec::new();
        species_mapping.push(Mapping { species: SpeciesSymbol("C".to_string()), rank: 1 });
        let mut atoms: Vec<u32> = Vec::new();
        atoms.push(1);
        atoms.push(2);
        assert(atoms@ =~= seq![1u32, 2u32]);
        let mut selections: Vec<Selection> = Vec::new();
        selections.push(Selection { species: SpeciesSymbol("C".to_string()), atoms: Some(atoms) });
        let mut projectors: Vec<ProjectorConfig> = Vec::new();
        projectors.push(
            ProjectorConfig {
                name: Some("Example".to_string()),
                label: None,
                selections: Some(selections),
            },
        );
        Self { species_mapping, projectors }
    }
}

/// Why a projector could not be applied.
#[derive(Debug, Clone, Copy, PartialEq, Eq, Structural)]
pub enum ProjectionError {
    /// The selection at place `selection` names a species that the species
    /// table does not have.
    UnknownSpecies { selection: usize },
}

impl ProjectionError {
    /// A description of the error.
    pub fn message(&self) -> (r: String)
        ensures
            r@ == "The species symbol in `selection` does not match with any record in `mapping`"@,
    {
        "The species symbol in `selection` does not match with any record in `mapping`".to_string()
    }
}

/// The place of the first selection whose species the table does not have.
pub open spec fn first_unknown(list: Seq<Selection>, table: Map<Seq<char>, u32>) -> Option<int>
    decreases list.len(),
{
    if list.len() == 0 {
        None
    } else {
        match first_unknown(list.drop_last(), table) {
            Some(k) => Some(k),
            None => if table.dom().contains(list.last().species@) {
                None
            } else {
                Some(list.len() - 1)
            },
        }
    }
}

/// Whether `selection` takes an orbital: the orbital is of the species of
/// the selection, and its ion is among the ions of the selection where the
/// selection names ions.
pub open spec fn selection_matches(
    selection: Selection,
    table: Map<Seq<char>, u32>,
    state: OrbitalState,
) -> bool {
    &&& table.dom().contains(selection.species@)
    &&& state.species_id == table[selection.species@]
    &&& selection.atoms matches Some(atoms) ==> atoms@.contains(state.ion_id)
}

/// Whether one of the selections of `list` takes an orbital.
pub open spec fn is_selected(
    list: Seq<Selection>,
    table: Map<Seq<char>, u32>,
    state: OrbitalState,
) -> bool {
    exists|k: int| 0 <= k < list.len() && selection_matches(#[trigger] list[k], table, state)
}

/// Whether a projector takes the orbital at place `i`: every orbital where
/// the projector has no list of selections, else those that a selection of
/// the list takes.
pub open spec fn selects_orbital(
    selections: Option<Seq<Selection>>,
    table: Map<Seq<char>, u32>,
    states: Seq<OrbitalState>,
    i: int,
) -> bool {
    match selections {
        None => true,
        Some(list) => is_selected(list, table, states[i]),
    }
}

/// The places below `n` of the orbitals that a projector takes, in
/// ascending order.
pub open spec fn selected_indices(
    selections: Option<Seq<Selection>>,
    table: Map<Seq<char>, u32>,
    states: Seq<OrbitalState>,
    n: nat,
) -> Seq<usize>
    decreases n,
{
    if n == 0 {
        Seq::empty()
    } else {
        let earlier = selected_indices(selections, table, states, (n - 1) as nat);
        if selects_orbital(selections, table, states, n - 1) {
            earlier.push((n - 1) as usize)
        } else {
            earlier
        }
    }
}

/// The places below `n` of the orbitals of angular momentum `am` that a
/// projector takes, in ascending order.
pub open spec fn channel_indices(
    selections: Option<Seq<Selection>>,
    table: Map<Seq<char>, u32>,
    states: Seq<OrbitalState>,
    am: AngularMomentum,
    n: nat,
) -> Seq<usize>
    decreases n,
{
    if n == 0 {
        Seq::empty()
    } else {
        let earlier = channel_indices(selections, table, states, am, (n - 1) as nat);
        if selects_orbital(selections, table, states, n - 1) && states[n - 1].angular_momentum
            == am {
            earlier.push((n - 1) as usize)
        } else {
            earlier
        }
    }
}

/// The selected orbitals are listed once each, in ascending order: a place
/// is listed exactly when it is below `n` and the projector takes its
/// orbital.
pub proof fn lemma_selected_indices(
    selections: Option<Seq<Selection>>,
    table: Map<Seq<char>, u32>,
    states: Seq<OrbitalState>,
    n: nat,
)
    requires
        n <= states.len(),
        n <= usize::MAX,
    ensures
        forall|a: int, b: int|
            0 <= a < b < selected_indices(selections, table, states, n).len() ==> (
            #[trigger] selected_indices(selections, table, states, n)[a]) < (
            #[trigger] selected_indices(selections, table, states, n)[b]),
        forall|i: usize|
            #[trigger] selected_indices(selections, table, states, n).contains(i) <==> (i < n
                && selects_orbital(selections, table, states, i as int)),
    decreases n,
{
    let all = selected_indices(selections, table, states, n);
    if n > 0 {
        let earlier = selected_indices(selections, table, states, (n - 1) as nat);
        lemma_selected_indices(selections, table, states, (n - 1) as nat);
        let last = (n - 1) as usize;
        let taken = selects_orbital(selections, table, states, n - 1);
        lemma_listing_grows(earlier, all, last, taken, n);
    }
}

/// Angular momentum parts the selected orbitals: a place is listed in a
/// channel exactly when it is selected and its orbital has the angular
/// momentum of the channel; so each selected place is in one channel and in
/// no other. Each channel lists its places once, in ascending order.
pub proof fn lemma_channel_indices(
    selections: Option<Seq<Selection>>,
    table: Map<Seq<char>, u32>,
    states: Seq<OrbitalState>,
    am: AngularMomentum,
    n: nat,
)
    requires
        n <= states.len(),
        n <= usize::MAX,
    ensures
        forall|a: int, b: int|
            0 <= a < b < channel_indices(selections, table, states, am, n).len() ==> (
            #[trigger] channel_indices(selections, table, states, am, n)[a]) < (
            #[trigger] channel_indices(selections, table, states, am, n)[b]),
        forall|i: usize|
            #[trigger] channel_indices(selections, table, states, am, n).contains(i) <==> (
            selected_indices(selections, table, states, n).contains(i) && states[i as int].angular_momentum
                == am),
    decreases n,
{
    let all = channel_indices(selections, table, states, am, n);
    lemma_selected_indices(selections, table, states, n);
    if n > 0 {
        let earlier = channel_indices(selections, table, states, am, (n - 1) as nat);
        lemma_channel_indices(selections, table, states, am, (n - 1) as nat);
        lemma_selected_indices(selections, table, states, (n - 1) as nat);
        let last = (n - 1) as usize;
        let taken = selects_orbital(selections, table, states, n - 1) && states[n
            - 1].angular_momentum == am;
        lemma_listing_grows(earlier, all, last, taken, n);
        assert forall|i: usize| #[trigger] all.contains(i) <==> (selected_indices(
            selections,
            table,
            states,
            n,
        ).contains(i) && states[i as int].angular_momentum == am) by {
            if i < n - 1 {
                assert(earlier.contains(i) <==> (selected_indices(
                    selections,
                    table,
                    states,
                    (n - 1) as nat,
                ).contains(i) && states[i as int].angular_momentum == am));
            }
        }
    }
}

/// An ascending list of places below `n - 1` stays ascending when `n - 1`
/// is put behind it, and then lists `n - 1` and what it listed before.
proof fn lemma_listing_grows(earlier: Seq<usize>, all: Seq<usize>, last: usize, taken: bool, n: nat)
    requires
        n > 0,
        last == n - 1,
        all == if taken {
            earlier.push(last)
        } else {
            earlier
        },
        forall|a: int, b: int|
            0 <= a < b < earlier.len() ==> (#[trigger] earlier[a]) < (#[trigger] earlier[b]),
        forall|i: usize| #[trigger] earlier.contains(i) ==> i < n - 1,
    ensures
        forall|a: int, b: int| 0 <= a < b < all.len() ==> (#[trigger] all[a]) < (#[trigger] all[b]),
        forall|i: usize| #[trigger] all.contains(i) <==> (earlier.contains(i) || (taken && i == last)),
{
    assert forall|a: int, b: int| 0 <= a < b < all.len() implies (#[trigger] all[a]) < (
    #[trigger] all[b]) by {
        if b == earlier.len() {
            assert(earlier.contains(earlier[a]));
        }
    }
    assert forall|i: usize| #[trigger] all.contains(i) <==> (earlier.contains(i) || (taken && i
        == last)) by {
        if taken {
            assert(all[earlier.len() as int] == last);
            if earlier.contains(i) {
                let j = choose|j: int| 0 <= j < earlier.len() && earlier[j] == i;
                assert(all[j] == i);
            }
            if all.contains(i) {
                let j = choose|j: int| 0 <= j < all.len() && all[j] == i;
                if j < earlier.len() {
                    assert(earlier[j] == i);
                }
            }
        }
    }
}

/// Whether `x` is among `values`.
fn contains_value(values: &Vec<u32>, x: u32) -> (r: bool)
    ensures
        r == values@.contains(x),
{
    let mut i: usize = 0;
    while i < values.len()
        invariant
            i <= values@.len(),
            forall|j: int| 0 <= j < i ==> values@[j] != x,
        decreases values@.len() - i,
    {
        if values[i] == x {
            return true;
        }
        i += 1;
    }
    false
}

/// The species id of each selection, or the place of the first selection
/// whose species the table does not have.
fn resolve_species(selections: &[Selection], species_mapping: &SpeciesMapping) -> (r: Result<
    Vec<u32>,
    ProjectionError,
>)
    ensures
        match first_unknown(selections@, species_mapping@) {
            Some(k) => r == Err::<Vec<u32>, ProjectionError>(
                ProjectionError::UnknownSpecies { selection: k as usize },
            ),
            None => r matches Ok(ids) && ids@.len() == selections@.len() && forall|k: int|
                0 <= k < selections@.len() ==> species_mapping@.dom().contains(
                    (#[trigger] selections@[k]).species@,
                ) && ids@[k] == species_mapping@[selections@[k].species@],
        },
{
    let mut ids: Vec<u32> = Vec::with_capacity(selections.len());
    let mut k: usize = 0;
    while k < selections.len()
        invariant
            k <= selections@.len(),
            ids@.len() == k,
            first_unknown(selections@.take(k as int), species_mapping@) is None,
            forall|j: int|
                0 <= j < k ==> species_mapping@.dom().contains((#[trigger] selections@[j]).species@)
                    && ids@[j] == species_mapping@[selections@[j].species@],
        decreases selections@.len() - k,
    {
        proof {
            assert(selections@.take(k + 1).drop_last() == selections@.take(k as int));
            lemma_first_unknown_stays(selections@, species_mapping@, k + 1);
        }
        match species_mapping.get(&selections[k].species.0) {
            Some(id) => ids.push(id),
            None => {
                return Err(ProjectionError::UnknownSpecies { selection: k });
            },
        }
        k += 1;
    }
    assert(selections@.take(selections@.len() as int) == selections@);
    Ok(ids)
}

/// The first unknown species of a front part of a list is the first of the
/// list.
pub proof fn lemma_first_unknown_stays(list: Seq<Selection>, table: Map<Seq<char>, u32>, n: int)
    requires
        0 <= n <= list.len(),
    ensures
        first_unknown(list.take(n), table) is Some ==> first_unknown(list, table) == first_unknown(
            list.take(n),
            table,
        ),
    decreases list.len() - n,
{
    if n < list.len() {
        assert(list.take(n + 1).drop_last() == list.take(n));
        lemma_first_unknown_stays(list, table, n + 1);
    } else {
        assert(list.take(n) == list);
    }
}

/// Whether one of the selections takes the orbital `state`.
fn takes_orbital(
    selections: &[Selection],
    ids: &Vec<u32>,
    species_mapping: &SpeciesMapping,
    state: &OrbitalState,
) -> (r: bool)
    requires
        ids@.len() == selections@.len(),
        forall|k: int|
            0 <= k < selections@.len() ==> species_mapping@.dom().contains(
                (#[trigger] selections@[k]).species@,
            ) && ids@[k] == species_mapping@[selections@[k].species@],
    ensures
        r == is_selected(selections@, species_mapping@, *state),
{
    let mut k: usize = 0;
    while k < selections.len()
        invariant
            k <= selections@.len(),
            ids@.len() == selections@.len(),
            forall|j: int|
                0 <= j < selections@.len() ==> species_mapping@.dom().contains(
                    (#[trigger] selections@[j]).species@,
                ) && ids@[j] == species_mapping@[selections@[j].species@],
            forall|j: int|
                0 <= j < k ==> !selection_matches(
                    #[trigger] selections@[j],
                    species_mapping@,
                    *state,
                ),
        decreases selections@.len() - k,
    {
        if state.species_id == ids[k] {
            let taken = match &selections[k].atoms {
                Some(atoms) => contains_value(atoms, state.ion_id),
                None => true,
            };
            if taken {
                assert(selection_matches(selections@[k as int], species_mapping@, *state));
                return true;
            }
        }
        k += 1;
    }
    false
}

/// The places of the orbitals that the selections take, once each and in
/// ascending order. A selection takes the orbitals of its species, and of
/// these only the ones of its ions where it names ions.
///
/// Fails where a selection names a species that the table does not have.
pub fn extract_selections(
    selections: &[Selection],
    species_mapping: &SpeciesMapping,
    orbital_states: &[OrbitalState],
) -> (r: Result<Vec<usize>, ProjectionError>)
    ensures
        match first_unknown(selections@, species_mapping@) {
            Some(k) => r == Err::<Vec<usize>, ProjectionError>(
                ProjectionError::UnknownSpecies { selection: k as usize },
            ),
            None => r matches Ok(indices) && indices@ == selected_indices(
                Some(selections@),
                species_mapping@,
                orbital_states@,
                orbital_states@.len(),
            ),
        },
{
    let ids = match resolve_species(selections, species_mapping) {
        Ok(ids) => ids,
        Err(e) => {
            return Err(e);
        },
    };
    let mut indices: Vec<usize> = Vec::new();
    let mut i: usize = 0;
    while i < orbital_states.len()
        invariant
            i <= orbital_states@.len(),
            ids@.len() == selections@.len(),
            forall|k: int|
                0 <= k < selections@.len() ==> species_mapping@.dom().contains(
                    (#[trigger] selections@[k]).species@,
                ) && ids@[k] == species_mapping@[selections@[k].species@],
            indices@ == selected_indices(
                Some(selections@),
                species_mapping@,
                orbital_states@,
                i as nat,
            ),
        decreases orbital_states@.len() - i,
    {
        if takes_orbital(selections, &ids, species_mapping, &orbital_states[i]) {
            indices.push(i);
        }
        i += 1;
    }
    Ok(indices)
}

/// The places of the selected orbitals, apart for each angular momentum.
#[derive(Debug, Clone, PartialEq, Eq)]
pub struct AngularIndices {
    /// Places of the selected s orbitals
    pub s: Vec<usize>,
    /// Places of the selected p orbitals
    pub p: Vec<usize>,
    /// Places of the selected d orbitals
    pub d: Vec<usize>,
    /// Places of the selected f orbitals
    pub f: Vec<usize>,
}

/// What an `AngularIndices` holds.
pub struct AngularIndicesView {
    pub s: Seq<usize>,
    pub p: Seq<usize>,
    pub d: Seq<usize>,
    pub f: Seq<usize>,
}

impl View for AngularIndices {
    type V = AngularIndicesView;

    open spec fn view(&self) -> AngularIndicesView {
        AngularIndicesView { s: self.s@, p: self.p@, d: self.d@, f: self.f@ }
    }
}

impl AngularIndicesView {
    /// Whether every place listed is below `n`.
    pub open spec fn below(self, n: nat) -> bool {
        &&& forall|j: int| 0 <= j < self.s.len() ==> (#[trigger] self.s[j]) < n
        &&& forall|j: int| 0 <= j < self.p.len() ==> (#[trigger] self.p[j]) < n
        &&& forall|j: int| 0 <= j < self.d.len() ==> (#[trigger] self.d[j]) < n
        &&& forall|j: int| 0 <= j < self.f.len() ==> (#[trigger] self.f[j]) < n
    }
}

/// The places of the orbitals that a projector takes among `states`,
/// apart for each angular momentum and ascending in each.
pub open spec fn spec_angular_indices(
    selections: Option<Seq<Selection>>,
    table: Map<Seq<char>, u32>,
    states: Seq<OrbitalState>,
) -> AngularIndicesView {
    AngularIndicesView {
        s: channel_indices(selections, table, states, AngularMomentum::S, states.len()),
        p: channel_indices(selections, table, states, AngularMomentum::P, states.len()),
        d: channel_indices(selections, table, states, AngularMomentum::D, states.len()),
        f: channel_indices(selections, table, states, AngularMomentum::F, states.len()),
    }
}

/// The place of the first selection of a projector whose species the table
/// does not have. A projector without a list of selections has none.
pub open spec fn unknown_species(selections: Option<Seq<Selection>>, table: Map<Seq<char>, u32>) -> Option<
    int,
> {
    match selections {
        None => None,
        Some(list) => first_unknown(list, table),
    }
}

/// The weights of the selected orbitals at one eigenvalue, apart for each
/// angular momentum and in the order of the orbitals. Their sums are the
/// four parts of the projected density of states.
#[derive(Debug, Clone, PartialEq, Eq)]
pub struct ChannelWeights {
    /// Weights of the selected s orbitals, as bits of doubles
    pub s: Vec<u64>,
    /// Weights of the selected p orbitals, as bits of doubles
    pub p: Vec<u64>,
    /// Weights of the selected d orbitals, as bits of doubles
    pub d: Vec<u64>,
    /// Weights of the selected f orbitals, as bits of doubles
    pub f: Vec<u64>,
}

/// What a `ChannelWeights` holds.
pub struct ChannelWeightsView {
    pub s: Seq<u64>,
    pub p: Seq<u64>,
    pub d: Seq<u64>,
    pub f: Seq<u64>,
}

impl DeepView for ChannelWeights {
    type V = ChannelWeightsView;

    open spec fn deep_view(&self) -> ChannelWeightsView {
        ChannelWeightsView { s: self.s@, p: self.p@, d: self.d@, f: self.f@ }
    }
}

/// The weights at the places `indices`, in the order of `indices`.
pub open spec fn gathered(indices: Seq<usize>, weights: Seq<u64>) -> Seq<u64> {
    Seq::new(indices.len(), |j: int| weights[indices[j] as int])
}

/// The weights of the selected orbitals at one eigenvalue.
pub open spec fn channel_weights(groups: AngularIndicesView, weights: Seq<u64>) -> ChannelWeightsView {
    ChannelWeightsView {
        s: gathered(groups.s, weights),
        p: gathered(groups.p, weights),
        d: gathered(groups.d, weights),
        f: gathered(groups.f, weights),
    }
}

/// The weights of the selected orbitals at every eigenvalue of every
/// k-point of one spin channel.
pub open spec fn projected_channel(groups: AngularIndicesView, channel: Seq<Seq<Seq<u64>>>) -> Seq<
    Seq<ChannelWeightsView>,
> {
    Seq::new(
        channel.len(),
        |k: int| Seq::new(channel[k].len(), |e: int| channel_weights(groups, channel[k][e])),
    )
}

/// The weights of the selected orbitals in every spin channel.
pub open spec fn projected(groups: AngularIndicesView, weights: SpinView<Seq<Seq<Seq<u64>>>>) -> SpinView<
    Seq<Seq<ChannelWeightsView>>,
> {
    match weights {
        SpinView::NonPolarized(channel) => SpinView::NonPolarized(
            projected_channel(groups, channel),
        ),
        SpinView::SpinPolarized(up, down) => SpinView::SpinPolarized(
            projected_channel(groups, up),
            projected_channel(groups, down),
        ),
    }
}

/// The weights at the places `indices`.
fn gather(indices: &Vec<usize>, weights: &OrbitalWeightVec) -> (r: Vec<u64>)
    requires
        forall|j: int| 0 <= j < indices@.len() ==> (#[trigger] indices@[j]) < weights.0@.len(),
    ensures
        r@ == gathered(indices@, weights.deep_view()),
{
    let mut out: Vec<u64> = Vec::with_capacity(indices.len());
    let mut j: usize = 0;
    while j < indices.len()
        invariant
            j <= indices@.len(),
            out@.len() == j,
            forall|i: int| 0 <= i < indices@.len() ==> (#[trigger] indices@[i]) < weights.0@.len(),
            forall|i: int| 0 <= i < j ==> out@[i] == weights.0@[indices@[i] as int].0,
        decreases indices@.len() - j,
    {
        out.push(weights.0[indices[j]].value());
        j += 1;
    }
    assert(out@ =~= gathered(indices@, weights.deep_view()));
    out
}

/// The weights of the selected orbitals at one eigenvalue.
fn gather_channels(groups: &AngularIndices, weights: &OrbitalWeightVec) -> (r: ChannelWeights)
    requires
        groups@.below(weights.0@.len()),
    ensures
        r.deep_view() == channel_weights(groups@, weights.deep_view()),
{
    proof {
        let n = weights.0@.len();
        assert forall|j: int| 0 <= j < groups.s@.len() implies (#[trigger] groups.s@[j]) < n by {
            assert(groups@.s[j] < n);
        }
        assert forall|j: int| 0 <= j < groups.p@.len() implies (#[trigger] groups.p@[j]) < n by {
            assert(groups@.p[j] < n);
        }
        assert forall|j: int| 0 <= j < groups.d@.len() implies (#[trigger] groups.d@[j]) < n by {
            assert(groups@.d[j] < n);
        }
        assert forall|j: int| 0 <= j < groups.f@.len() implies (#[trigger] groups.f@[j]) < n by {
            assert(groups@.f[j] < n);
        }
    }
    ChannelWeights {
        s: gather(&groups.s, weights),
        p: gather(&groups.p, weights),
        d: gather(&groups.d, weights),
        f: gather(&groups.f, weights),
    }
}

/// The weights of the selected orbitals of one spin channel.
fn project_channel(
    groups: &AngularIndices,
    channel: &KpointVec<EigenvalueVec<OrbitalWeightVec>>,
    Ghost(orbitals): Ghost<nat>,
) -> (r: KpointVec<EigenvalueVec<ChannelWeights>>)
    requires
        groups@.below(orbitals),
        channel_has_width(channel.deep_view(), orbitals),
    ensures
        r.deep_view() == projected_channel(groups@, channel.deep_view()),
{
    let gather_here = |weights: &OrbitalWeightVec| -> (out: ChannelWeights)
        requires
            weights.0@.len() == orbitals,
        ensures
            out.deep_view() == channel_weights(groups@, weights.deep_view()),
        { gather_channels(groups, weights) };
    assert forall|k: int, e: int|
        0 <= k < channel.0@.len() && 0 <= e < channel.0@[k].0@.len() implies call_requires(
        gather_here,
        (&#[trigger] channel.0@[k].0@[e],),
    ) by {
        assert(channel.deep_view()[k][e].len() == orbitals);
    }
    let out = crate::fundamental::ergonomics_impl::map_for_values_of_eigen(channel, &gather_here);
    proof {
        let want = projected_channel(groups@, channel.deep_view());
        assert(out.deep_view().len() == want.len());
        assert forall|k: int| 0 <= k < want.len() implies out.deep_view()[k] == want[k] by {
            assert(out.0@[k].deep_view().len() == want[k].len());
            assert forall|e: int| 0 <= e < want[k].len() implies out.0@[k].deep_view()[e]
                == want[k][e] by {
                assert(call_ensures(gather_here, (&channel.0@[k].0@[e],), out.0@[k].0@[e]));
            }
            assert(out.0@[k].deep_view() =~= want[k]);
        }
        assert(out.deep_view() =~= want);
    }
    out
}

impl ProjectorConfig {
    /// The list of selections of the projector.
    pub open spec fn selection_list(&self) -> Option<Seq<Selection>> {
        match self.selections {
            Some(list) => Some(list@),
            None => None,
        }
    }

    /// The places of the orbitals that the projector takes among
    /// `orbital_states`, apart for each angular momentum. No place is
    /// listed twice, also where selections overlap.
    ///
    /// Fails where a selection names a species that the table does not have.
    pub fn angular_indices(
        &self,
        species_mapping: &SpeciesMapping,
        orbital_states: &[OrbitalState],
    ) -> (r: Result<AngularIndices, ProjectionError>)
        ensures
            match unknown_species(self.selection_list(), species_mapping@) {
                Some(k) => r == Err::<AngularIndices, ProjectionError>(
                    ProjectionError::UnknownSpecies { selection: k as usize },
                ),
                None => r matches Ok(groups) && groups@ == spec_angular_indices(
                    self.selection_list(),
                    species_mapping@,
                    orbital_states@,
                ) && groups@.below(orbital_states@.len()),
            },
    {
        let ids = match &self.selections {
            Some(list) => match resolve_species(list.as_slice(), species_mapping) {
                Ok(ids) => ids,
                Err(e) => {
                    return Err(e);
                },
            },
            None => Vec::new(),
        };
        let ghost selections = self.selection_list();
        let ghost table = species_mapping@;
        let ghost states = orbital_states@;
        let mut groups = AngularIndices {
            s: Vec::new(),
            p: Vec::new(),
            d: Vec::new(),
            f: Vec::new(),
        };
        let mut i: usize = 0;
        while i < orbital_states.len()
            invariant
                i <= orbital_states@.len(),
                selections == self.selection_list(),
                table == species_mapping@,
                states == orbital_states@,
                self.selections matches Some(list) ==> ids@.len() == list@.len() && forall|k: int|
                    0 <= k < list@.len() ==> table.dom().contains((#[trigger] list@[k]).species@)
                        && ids@[k] == table[list@[k].species@],
                groups.s@ == channel_indices(selections, table, states, AngularMomentum::S, i as nat),
                groups.p@ == channel_indices(selections, table, states, AngularMomentum::P, i as nat),
                groups.d@ == channel_indices(selections, table, states, AngularMomentum::D, i as nat),
                groups.f@ == channel_indices(selections, table, states, AngularMomentum::F, i as nat),
                groups@.below(i as nat),
            decreases orbital_states@.len() - i,
        {
            let state = &orbital_states[i];
            let taken = match &self.selections {
                Some(list) => takes_orbital(list.as_slice(), &ids, species_mapping, state),
                None => true,
            };
            let ghost before = groups@;
            assert(before.below(i as nat));
            if taken {
                match state.angular_momentum {
                    AngularMomentum::S => groups.s.push(i),
                    AngularMomentum::P => groups.p.push(i),
                    AngularMomentum::D => groups.d.push(i),
                    AngularMomentum::F => groups.f.push(i),
                }
            }
            proof {
                let after = groups@;
                assert forall|j: int| 0 <= j < after.s.len() implies (#[trigger] after.s[j]) < i
                    + 1 by {
                    if j < before.s.len() {
                        assert(before.s[j] < i);
                    }
                }
                assert forall|j: int| 0 <= j < after.p.len() implies (#[trigger] after.p[j]) < i
                    + 1 by {
                    if j < before.p.len() {
                        assert(before.p[j] < i);
                    }
                }
                assert forall|j: int| 0 <= j < after.d.len() implies (#[trigger] after.d[j]) < i
                    + 1 by {
                    if j < before.d.len() {
                        assert(before.d[j] < i);
                    }
                }
                assert forall|j: int| 0 <= j < after.f.len() implies (#[trigger] after.f[j]) < i
                    + 1 by {
                    if j < before.f.len() {
                        assert(before.f[j] < i);
                    }
                }
            }
            i += 1;
        }
        Ok(groups)
    }

    /// The weights of the orbitals that the projector takes, at every
    /// eigenvalue of every k-point of every spin channel, apart for each
    /// angular momentum. The weights are handed out as they are; summing
    /// those of one list gives that part of the projected density of states.
    ///
    /// Fails where a selection names a species that the table does not have.
    pub fn project_pdos_from_config(
        &self,
        species_mapping: &SpeciesMapping,
        pdos_weights: &PDOSWeights,
    ) -> (r: Result<SpinData<KpointVec<EigenvalueVec<ChannelWeights>>>, ProjectionError>)
        requires
            pdos_weights.deep_view().well_formed(),
        ensures
            match unknown_species(self.selection_list(), species_mapping@) {
                Some(k) => r == Err::<
                    SpinData<KpointVec<EigenvalueVec<ChannelWeights>>>,
                    ProjectionError,
                >(ProjectionError::UnknownSpecies { selection: k as usize }),
                None => r matches Ok(out) && out.deep_view() == projected(
                    spec_angular_indices(
                        self.selection_list(),
                        species_mapping@,
                        pdos_weights.orbital_states@,
                    ),
                    pdos_weights.deep_view().orbital_weights,
                ),
            },
    {
        let groups = match self.angular_indices(
            species_mapping,
            pdos_weights.orbital_states.as_slice(),
        ) {
            Ok(groups) => groups,
            Err(e) => {
                return Err(e);
            },
        };
        let ghost orbitals = pdos_weights.orbital_states@.len();
        Ok(
            match &pdos_weights.orbital_weights {
                SpinData::NonPolarized(channel) => SpinData::NonPolarized(
                    project_channel(&groups, channel, Ghost(orbitals)),
                ),
                SpinData::SpinPolarized(pair) => {
                    let up = project_channel(&groups, &pair[0], Ghost(orbitals));
                    let down = project_channel(&groups, &pair[1], Ghost(orbitals));
                    SpinData::SpinPolarized([up, down])
                },
            },
        )
    }
}

} // verus!
