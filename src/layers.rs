//! Which heat-map layers a computation combines, and how the result is
//! labelled.
use vstd::prelude::*;
use crate::roster::{Role, find_thrower, is_first_holder, someone_holds};

verus! {

/// The layers a caller asks for; each flag is independent.
#[derive(Clone, Copy, Debug)]
pub struct HeatMapModes {
    pub catch: bool,
    pub difficulty: bool,
    pub marking_difficulty: bool,
    pub coverage: bool,
}

/// One of the four per-cell scores over the field.
#[derive(Clone, Copy, Debug, PartialEq, Eq, Structural)]
pub enum LayerKind {
    Catch,
    Difficulty,
    MarkingDifficulty,
    Coverage,
}

impl LayerKind {
    /// The key that names the layer to clients.
    pub open spec fn key_view(self) -> Seq<char> {
        match self {
            LayerKind::Catch => "catch"@,
            LayerKind::Difficulty => "difficulty"@,
            LayerKind::MarkingDifficulty => "markingDifficulty"@,
            LayerKind::Coverage => "coverage"@,
        }
    }

    pub fn key(&self) -> (k: &'static str)
        ensures
            k@ == self.key_view(),
    {
        match self {
            LayerKind::Catch => "catch",
            LayerKind::Difficulty => "difficulty",
            LayerKind::MarkingDifficulty => "markingDifficulty",
            LayerKind::Coverage => "coverage",
        }
    }

    /// Whether the layer enters a product as `1 - v` rather than `v`: a hard
    /// throw is bad for the offence, while every other layer is high where
    /// the offence is favoured.
    pub fn inverted(&self) -> (b: bool)
        ensures
            b == (*self == LayerKind::Difficulty),
    {
        match self {
            LayerKind::Difficulty => true,
            _ => false,
        }
    }
}

/// The layers that take part, in the fixed order catch, difficulty,
/// marking difficulty, coverage. Marking difficulty needs a thrower and is
/// dropped without one.
pub open spec fn selected_layers(m: HeatMapModes, has_thrower: bool) -> Seq<LayerKind> {
    let s0: Seq<LayerKind> = if m.catch { seq![LayerKind::Catch] } else { seq![] };
    let s1 = if m.difficulty { s0.push(LayerKind::Difficulty) } else { s0 };
    let s2 = if m.marking_difficulty && has_thrower { s1.push(LayerKind::MarkingDifficulty) } else { s1 };
    if m.coverage { s2.push(LayerKind::Coverage) } else { s2 }
}

/// The label of a map: the key of its only layer, or "combined".
pub open spec fn mode_key_view(layers: Seq<LayerKind>) -> Seq<char> {
    if layers.len() > 1 { "combined"@ } else { layers[0].key_view() }
}

/// What a heat-map computation is to combine.
pub struct HeatMapPlan {
    /// The layers to multiply cell by cell, in order.
    pub layers: Vec<LayerKind>,
    /// The player whose position the marking layer was built from; `None`
    /// when that layer takes no part, and the disc's position is reported.
    pub thrower: Option<usize>,
}

impl HeatMapPlan {
    /// The label reported with the combined map.
    pub fn mode_key(&self) -> (k: &'static str)
        requires
            self.layers@.len() >= 1,
        ensures
            k@ == mode_key_view(self.layers@),
    {
        if self.layers.len() > 1 {
            "combined"
        } else {
            self.layers[0].key()
        }
    }
}

/// The plan of a map built from the requested layers. There is none when no
/// layer remains once marking difficulty is dropped for want of a thrower.
pub fn plan_heat_map(roles: &Vec<Role>, modes: &HeatMapModes) -> (r: Option<HeatMapPlan>)
    ensures
        r is None <==> selected_layers(*modes, someone_holds(roles@)).len() == 0,
        r matches Some(p) ==> {
            &&& p.layers@ == selected_layers(*modes, someone_holds(roles@))
            &&& modes.marking_difficulty && someone_holds(roles@) ==> (p.thrower matches Some(t)
                && is_first_holder(roles@, t as int))
            &&& !(modes.marking_difficulty && someone_holds(roles@)) ==> p.thrower is None
        },
{
    let holder = find_thrower(roles);
    let ghost has = someone_holds(roles@);
    let mut layers: Vec<LayerKind> = Vec::new();
    let mut thrower: Option<usize> = None;
    if modes.catch {
        layers.push(LayerKind::Catch);
    }
    if modes.difficulty {
        layers.push(LayerKind::Difficulty);
    }
    if modes.marking_difficulty {
        if let Some(t) = holder {
            layers.push(LayerKind::MarkingDifficulty);
            thrower = Some(t);
        }
    }
    if modes.coverage {
        layers.push(LayerKind::Coverage);
    }
    assert(layers@ =~= selected_layers(*modes, has));
    if layers.len() == 0 {
        None
    } else {
        Some(HeatMapPlan { layers, thrower })
    }
}

/// The plan behind the field's scalar score and the offender's sampling
/// weights: all four layers, which needs a thrower.
pub fn plan_all_layers(roles: &Vec<Role>) -> (r: Option<HeatMapPlan>)
    ensures
        r is None <==> !someone_holds(roles@),
        r matches Some(p) ==> {
            &&& p.layers@ == seq![
                LayerKind::Catch,
                LayerKind::Difficulty,
                LayerKind::MarkingDifficulty,
                LayerKind::Coverage,
            ]
            &&& p.thrower matches Some(t) && is_first_holder(roles@, t as int)
        },
{
    match find_thrower(roles) {
        None => None,
        Some(t) => {
            let layers = vec![
                LayerKind::Catch,
                LayerKind::Difficulty,
                LayerKind::MarkingDifficulty,
                LayerKind::Coverage,
            ];
            assert(layers@ =~= seq![
                LayerKind::Catch,
                LayerKind::Difficulty,
                LayerKind::MarkingDifficulty,
                LayerKind::Coverage,
            ]);
            Some(HeatMapPlan { layers, thrower: Some(t) })
        },
    }
}

/// With no layer requested there is no map, whoever holds the disc.
pub proof fn lemma_no_modes_no_map(modes: HeatMapModes, has_thrower: bool)
    requires
        !modes.catch,
        !modes.difficulty,
        !modes.marking_difficulty,
        !modes.coverage,
    ensures
        selected_layers(modes, has_thrower).len() == 0,
{
}

/// Asking for marking difficulty alone gives no map when nobody holds the
/// disc.
pub proof fn lemma_marking_alone_needs_thrower(roles: Seq<Role>, modes: HeatMapModes)
    requires
        !modes.catch,
        !modes.difficulty,
        modes.marking_difficulty,
        !modes.coverage,
        forall|i: int| 0 <= i < roles.len() ==> !(#[trigger] roles[i]).has_disc,
    ensures
        selected_layers(modes, someone_holds(roles)).len() == 0,
{
}

} // verus!
