use vstd::prelude::*;

verus! {

/// The coast of a province with more than one coastal face.
#[derive(Clone, Copy, PartialEq, Eq, Structural, Debug)]
pub enum Coast {
    North,
    South,
    East,
    West,
}

/// `Land(None)`: an inland or single-coast province; `Land(Some(c))`: the face
/// `c` of a split-coast province; `Water`: a sea.
#[derive(Clone, Copy, PartialEq, Eq, Structural, Debug)]
pub enum ProvinceType {
    Land(Option<Coast>),
    Water,
}

/// The kind of a unit: armies move between provinces, fleets between faces.
#[derive(Clone, Copy, PartialEq, Eq, Structural, Debug)]
pub enum Unit {
    Army,
    Fleet,
}

/// A node of the board graph.
#[derive(Debug)]
pub struct Province {
    pub name: String,
    pub abbreviation: String,
    pub terrain: ProvinceType,
}

/// The mathematical value of a `Province`.
pub struct ProvinceView {
    pub name: Seq<char>,
    pub abbreviation: Seq<char>,
    pub terrain: ProvinceType,
}

impl View for Province {
    type V = ProvinceView;

    open spec fn view(&self) -> ProvinceView {
        ProvinceView { name: self.name@, abbreviation: self.abbreviation@, terrain: self.terrain }
    }
}

/// Two regions lie in the same physical province: their codes agree.
pub open spec fn same_province(a: ProvinceView, b: ProvinceView) -> bool {
    a.abbreviation == b.abbreviation
}

/// Two regions are the same face: code and terrain (coast included) agree.
pub open spec fn same_face(a: ProvinceView, b: ProvinceView) -> bool {
    a.abbreviation == b.abbreviation && a.terrain == b.terrain
}

/// The views of a sequence of provinces, one for one.
pub open spec fn province_views(ps: Seq<Province>) -> Seq<ProvinceView> {
    ps.map_values(|p: Province| p@)
}

impl Province {
    pub fn new(name: &str, abbreviation: &str, terrain: ProvinceType) -> (r: Province)
        ensures
            r@ == (ProvinceView { name: name@, abbreviation: abbreviation@, terrain }),
    {
        Province { name: name.to_owned(), abbreviation: abbreviation.to_owned(), terrain }
    }

    /// Whether `self` and `other` are faces of one physical province.
    pub fn same_as(&self, other: &Province) -> (r: bool)
        ensures
            r == same_province(self@, other@),
    {
        self.abbreviation == other.abbreviation
    }

    /// Whether `self` and `other` are the same face of a province.
    pub fn same_coast_as(&self, other: &Province) -> (r: bool)
        ensures
            r == same_face(self@, other@),
    {
        self.abbreviation == other.abbreviation && self.terrain == other.terrain
    }
}

impl Clone for Province {
    fn clone(&self) -> (r: Province)
        ensures
            r@ == self@,
    {
        Province {
            name: self.name.clone(),
            abbreviation: self.abbreviation.clone(),
            terrain: self.terrain,
        }
    }
}

impl PartialEq for Province {
    fn eq(&self, other: &Province) -> (r: bool) {
        self.name == other.name && self.abbreviation == other.abbreviation && self.terrain
            == other.terrain
    }
}

impl vstd::std_specs::cmp::PartialEqSpecImpl for Province {
    open spec fn obeys_eq_spec() -> bool {
        true
    }

    open spec fn eq_spec(&self, other: &Province) -> bool {
        self@ == other@
    }
}

/// Province identity is an equivalence: reflexive, symmetric and transitive,
/// and coarser than face identity (the same face is always the same province).
pub proof fn lemma_same_province_equivalence(a: ProvinceView, b: ProvinceView, c: ProvinceView)
    ensures
        same_province(a, a),
        same_province(a, b) == same_province(b, a),
        same_province(a, b) && same_province(b, c) ==> same_province(a, c),
        same_face(a, b) ==> same_province(a, b),
        same_face(a, a),
        same_face(a, b) == same_face(b, a),
{
}

} // verus!
