use vstd::prelude::*;
use crate::province::{
    Province, ProvinceType, ProvinceView, Unit, province_views, same_face, same_province,
};

verus! {

/// A playable nation with its home territories and the unit each starts with.
#[derive(Clone, Debug)]
pub struct Nation {
    pub name: String,
    pub home_supply_centers: Vec<(Province, Unit)>,
}

pub struct NationView {
    pub name: Seq<char>,
    pub homes: Seq<(ProvinceView, Unit)>,
}

pub open spec fn home_views(hs: Seq<(Province, Unit)>) -> Seq<(ProvinceView, Unit)> {
    hs.map_values(|h: (Province, Unit)| (h.0@, h.1))
}

impl View for Nation {
    type V = NationView;

    open spec fn view(&self) -> NationView {
        NationView { name: self.name@, homes: home_views(self.home_supply_centers@) }
    }
}

/// The board: every region, every adjacency and every nation.
#[derive(Debug)]
pub struct GameData {
    pub nations: Vec<Nation>,
    pub provinces: Vec<Province>,
    pub adjacencies: Vec<(Province, Province)>,
}

pub struct BoardView {
    pub nations: Seq<NationView>,
    pub provinces: Seq<ProvinceView>,
    pub adjacencies: Seq<(ProvinceView, ProvinceView)>,
}

pub open spec fn nation_views(ns: Seq<Nation>) -> Seq<NationView> {
    ns.map_values(|n: Nation| n@)
}

pub open spec fn edge_views(es: Seq<(Province, Province)>) -> Seq<(ProvinceView, ProvinceView)> {
    es.map_values(|e: (Province, Province)| (e.0@, e.1@))
}

impl View for GameData {
    type V = BoardView;

    open spec fn view(&self) -> BoardView {
        BoardView {
            nations: nation_views(self.nations@),
            provinces: province_views(self.provinces@),
            adjacencies: edge_views(self.adjacencies@),
        }
    }
}

/// What goes wrong when a board is built or queried.
#[derive(Clone, Copy, PartialEq, Eq, Structural, Debug)]
pub enum BoardError {
    /// Regions `i < j` of the catalog are one face under two names.
    ConflictingRegion(usize, usize),
    /// Adjacency `k` names a region missing from the catalog.
    UnknownAdjacencyEndpoint(usize),
    /// Home entry `h` of nation `n` names a region missing from the catalog.
    UnknownHomeTerritory(usize, usize),
    /// Home entry `h` of nation `n` starts a unit its region cannot hold.
    HomeUnitMismatch(usize, usize),
    /// Home entry `h` of nation `n` repeats a province bound before it.
    RepeatedHomeTerritory(usize, usize),
    /// A query named a region missing from the catalog.
    UnknownRegion,
}

/// Edge `e` joins `a` and `b`, in either order.
pub open spec fn links(e: (ProvinceView, ProvinceView), a: ProvinceView, b: ProvinceView) -> bool {
    (same_face(e.0, a) && same_face(e.1, b)) || (same_face(e.0, b) && same_face(e.1, a))
}

/// Some edge of `edges` joins `a` and `b`.
pub open spec fn adjacent(
    edges: Seq<(ProvinceView, ProvinceView)>,
    a: ProvinceView,
    b: ProvinceView,
) -> bool {
    exists|k: int| 0 <= k < edges.len() && #[trigger] links(edges[k], a, b)
}

/// The other endpoints of the edges at `a`, in the order of the edges.
pub open spec fn neighbors(edges: Seq<(ProvinceView, ProvinceView)>, a: ProvinceView) -> Seq<
    ProvinceView,
>
    decreases edges.len(),
{
    if edges.len() == 0 {
        Seq::empty()
    } else {
        let rest = neighbors(edges.drop_last(), a);
        let e = edges.last();
        if same_face(e.0, a) {
            rest.push(e.1)
        } else if same_face(e.1, a) {
            rest.push(e.0)
        } else {
            rest
        }
    }
}

/// The catalog regions called `name`, in catalog order.
pub open spec fn named(ps: Seq<ProvinceView>, name: Seq<char>) -> Seq<ProvinceView>
    decreases ps.len(),
{
    if ps.len() == 0 {
        Seq::empty()
    } else if ps.last().name == name {
        named(ps.drop_last(), name).push(ps.last())
    } else {
        named(ps.drop_last(), name)
    }
}

/// One face under two names.
pub open spec fn conflicting(a: ProvinceView, b: ProvinceView) -> bool {
    same_face(a, b) && a.name != b.name
}

pub open spec fn catalog_consistent(ps: Seq<ProvinceView>) -> bool {
    forall|i: int, j: int| 0 <= i < j < ps.len() ==> !conflicting(#[trigger] ps[i], #[trigger] ps[j])
}

pub open spec fn edge_closed(ps: Seq<ProvinceView>, e: (ProvinceView, ProvinceView)) -> bool {
    ps.contains(e.0) && ps.contains(e.1)
}

pub open spec fn edges_closed(b: BoardView) -> bool {
    forall|k: int|
        0 <= k < b.adjacencies.len() ==> #[trigger] edge_closed(b.provinces, b.adjacencies[k])
}

/// Some edge joins face `p` to a sea.
pub open spec fn touches_water(edges: Seq<(ProvinceView, ProvinceView)>, p: ProvinceView) -> bool {
    exists|k: int|
        0 <= k < edges.len() && {
            let e = #[trigger] edges[k];
            (same_face(e.0, p) && e.1.terrain == ProvinceType::Water) || (same_face(e.1, p)
                && e.0.terrain == ProvinceType::Water)
        }
}

/// A unit of kind `u` may start in `p`: an army on land, a fleet at sea or on
/// a face that borders a sea.
pub open spec fn unit_fits(
    edges: Seq<(ProvinceView, ProvinceView)>,
    p: ProvinceView,
    u: Unit,
) -> bool {
    match u {
        Unit::Army => p.terrain is Land,
        Unit::Fleet => p.terrain == ProvinceType::Water || touches_water(edges, p),
    }
}

pub open spec fn is_home(b: BoardView, n: int, h: int) -> bool {
    0 <= n < b.nations.len() && 0 <= h < b.nations[n].homes.len()
}

pub open spec fn home(b: BoardView, n: int, h: int) -> (ProvinceView, Unit) {
    b.nations[n].homes[h]
}

/// Entry `(n2, h2)` comes before entry `(n, h)` in reading order.
pub open spec fn earlier(n2: int, h2: int, n: int, h: int) -> bool {
    n2 < n || (n2 == n && h2 < h)
}

/// Home entry `(n, h)` names a province that an earlier entry named.
pub open spec fn home_repeated(b: BoardView, n: int, h: int) -> bool {
    exists|n2: int, h2: int|
        #![trigger home(b, n2, h2)]
        is_home(b, n2, h2) && earlier(n2, h2, n, h) && same_province(
            home(b, n2, h2).0,
            home(b, n, h).0,
        )
}

pub open spec fn home_sound(b: BoardView, n: int, h: int) -> bool {
    &&& b.provinces.contains(home(b, n, h).0)
    &&& unit_fits(b.adjacencies, home(b, n, h).0, home(b, n, h).1)
    &&& !home_repeated(b, n, h)
}

pub open spec fn homes_sound_before(b: BoardView, n: int, h: int) -> bool {
    forall|n2: int, h2: int|
        is_home(b, n2, h2) && earlier(n2, h2, n, h) ==> #[trigger] home_sound(b, n2, h2)
}

pub open spec fn homes_sound(b: BoardView) -> bool {
    forall|n: int, h: int| is_home(b, n, h) ==> #[trigger] home_sound(b, n, h)
}

/// A board that keeps every invariant: a consistent catalog, adjacencies and
/// home territories within it, and each home entry fit for its unit and unique.
pub open spec fn valid(b: BoardView) -> bool {
    catalog_consistent(b.provinces) && edges_closed(b) && homes_sound(b)
}

/// The error of the first home entry that fails, in the order the checks run.
pub open spec fn home_error(b: BoardView, n: int, h: int) -> BoardError {
    if !b.provinces.contains(home(b, n, h).0) {
        BoardError::UnknownHomeTerritory(n as usize, h as usize)
    } else if !unit_fits(b.adjacencies, home(b, n, h).0, home(b, n, h).1) {
        BoardError::HomeUnitMismatch(n as usize, h as usize)
    } else {
        BoardError::RepeatedHomeTerritory(n as usize, h as usize)
    }
}

/// `e` is the error that validation of `b` reports: the first violated invariant.
pub open spec fn first_error(b: BoardView, e: BoardError) -> bool {
    match e {
        BoardError::ConflictingRegion(i, j) => {
            &&& i < j < b.provinces.len()
            &&& conflicting(b.provinces[i as int], b.provinces[j as int])
            &&& forall|i2: int, j2: int|
                0 <= i2 < j2 && (j2 < j || (j2 == j && i2 < i)) ==> !conflicting(
                    #[trigger] b.provinces[i2],
                    #[trigger] b.provinces[j2],
                )
        },
        BoardError::UnknownAdjacencyEndpoint(k) => {
            &&& catalog_consistent(b.provinces)
            &&& k < b.adjacencies.len()
            &&& !edge_closed(b.provinces, b.adjacencies[k as int])
            &&& forall|k2: int|
                0 <= k2 < k ==> #[trigger] edge_closed(b.provinces, b.adjacencies[k2])
        },
        BoardError::UnknownHomeTerritory(n, h) | BoardError::HomeUnitMismatch(n, h)
        | BoardError::RepeatedHomeTerritory(n, h) => {
            &&& catalog_consistent(b.provinces)
            &&& edges_closed(b)
            &&& is_home(b, n as int, h as int)
            &&& !home_sound(b, n as int, h as int)
            &&& e == home_error(b, n as int, h as int)
            &&& homes_sound_before(b, n as int, h as int)
        },
        BoardError::UnknownRegion => false,
    }
}

/// Whether `p` is in `ps`, by value.
fn contains_province(ps: &Vec<Province>, p: &Province) -> (r: bool)
    ensures
        r == province_views(ps@).contains(p@),
{
    let mut i: usize = 0;
    while i < ps.len()
        invariant
            i <= ps.len(),
            forall|j: int| 0 <= j < i ==> ps@[j]@ != p@,
        decreases ps.len() - i,
    {
        if ps[i] == *p {
            assert(province_views(ps@)[i as int] == p@);
            return true;
        }
        i += 1;
    }
    assert forall|j: int| 0 <= j < province_views(ps@).len() implies province_views(ps@)[j]
        != p@ by {}
    false
}

impl GameData {
    /// Whether an edge joins `a` and `b`; an error if either is not on the board.
    pub fn are_adjacent(&self, a: &Province, b: &Province) -> (r: Result<bool, BoardError>)
        ensures
            r == if self@.provinces.contains(a@) && self@.provinces.contains(b@) {
                Ok::<bool, BoardError>(adjacent(self@.adjacencies, a@, b@))
            } else {
                Err::<bool, BoardError>(BoardError::UnknownRegion)
            },
    {
        if !contains_province(&self.provinces, a) || !contains_province(&self.provinces, b) {
            return Err(BoardError::UnknownRegion);
        }
        let ghost edges = self@.adjacencies;
        let mut k: usize = 0;
        while k < self.adjacencies.len()
            invariant
                k <= self.adjacencies.len(),
                edges == edge_views(self.adjacencies@),
                self@.provinces.contains(a@) && self@.provinces.contains(b@),
                forall|k2: int| 0 <= k2 < k ==> !#[trigger] links(edges[k2], a@, b@),
            decreases self.adjacencies.len() - k,
        {
            let e = &self.adjacencies[k];
            if (e.0.same_coast_as(a) && e.1.same_coast_as(b)) || (e.0.same_coast_as(b)
                && e.1.same_coast_as(a)) {
                assert(links(edges[k as int], a@, b@));
                return Ok(true);
            }
            k += 1;
        }
        Ok(false)
    }

    /// The regions joined to `a` by an edge, one per edge at `a`, in the order of
    /// the edges; an error if `a` is not on the board.
    pub fn neighbors_of(&self, a: &Province) -> (r: Result<Vec<Province>, BoardError>)
        ensures
            self@.provinces.contains(a@) <==> r is Ok,
            r is Err ==> r == Err::<Vec<Province>, BoardError>(BoardError::UnknownRegion),
            r matches Ok(v) ==> province_views(v@) == neighbors(self@.adjacencies, a@),
    {
        if !contains_province(&self.provinces, a) {
            return Err(BoardError::UnknownRegion);
        }
        let ghost edges = self@.adjacencies;
        let mut out: Vec<Province> = Vec::new();
        let mut k: usize = 0;
        while k < self.adjacencies.len()
            invariant
                k <= self.adjacencies.len(),
                edges == edge_views(self.adjacencies@),
                self@.provinces.contains(a@),
                province_views(out@) == neighbors(edges.take(k as int), a@),
            decreases self.adjacencies.len() - k,
        {
            let e = &self.adjacencies[k];
            proof {
                assert(edges.take(k + 1).drop_last() =~= edges.take(k as int));
            }
            if e.0.same_coast_as(a) {
                out.push(e.1.clone());
            } else if e.1.same_coast_as(a) {
                out.push(e.0.clone());
            }
            assert(province_views(out@) =~= neighbors(edges.take(k + 1), a@));
            k += 1;
        }
        assert(edges.take(k as int) =~= edges);
        Ok(out)
    }

    /// The regions called `name`, in catalog order (both faces of a split-coast
    /// province share the name).
    pub fn provinces_named(&self, name: &str) -> (r: Vec<Province>)
        ensures
            province_views(r@) == named(self@.provinces, name@),
    {
        let ghost ps = self@.provinces;
        let wanted = name.to_owned();
        let mut out: Vec<Province> = Vec::new();
        let mut i: usize = 0;
        while i < self.provinces.len()
            invariant
                i <= self.provinces.len(),
                ps == province_views(self.provinces@),
                wanted@ == name@,
                province_views(out@) == named(ps.take(i as int), name@),
            decreases self.provinces.len() - i,
        {
            proof {
                assert(ps.take(i + 1).drop_last() =~= ps.take(i as int));
            }
            if self.provinces[i].name == wanted {
                out.push(self.provinces[i].clone());
            }
            assert(province_views(out@) =~= named(ps.take(i + 1), name@));
            i += 1;
        }
        assert(ps.take(i as int) =~= ps);
        out
    }

    /// The first nation called `name`, if any.
    pub fn nation_named(&self, name: &str) -> (r: Option<&Nation>)
        ensures
            r matches Some(n) ==> exists|i: int|
                0 <= i < self.nations.len() && self.nations@[i] == n && n.name@ == name@ && (
                forall|j: int| 0 <= j < i ==> #[trigger] self.nations@[j].name@ != name@),
            r is None <==> forall|j: int|
                0 <= j < self.nations.len() ==> #[trigger] self.nations@[j].name@ != name@,
    {
        let wanted = name.to_owned();
        let mut i: usize = 0;
        while i < self.nations.len()
            invariant
                i <= self.nations.len(),
                wanted@ == name@,
                forall|j: int| 0 <= j < i ==> #[trigger] self.nations@[j].name@ != name@,
            decreases self.nations.len() - i,
        {
            if self.nations[i].name == wanted {
                return Some(&self.nations[i]);
            }
            i += 1;
        }
        None
    }
}

/// Adjacency is symmetric: `a` is adjacent to `b` exactly when `b` is adjacent
/// to `a`, whatever order the edge was stored in.
pub proof fn lemma_adjacent_symmetric(
    edges: Seq<(ProvinceView, ProvinceView)>,
    a: ProvinceView,
    b: ProvinceView,
)
    ensures
        adjacent(edges, a, b) == adjacent(edges, b, a),
{
    if adjacent(edges, a, b) {
        let k = choose|k: int| 0 <= k < edges.len() && #[trigger] links(edges[k], a, b);
        assert(links(edges[k], b, a));
    }
    if adjacent(edges, b, a) {
        let k = choose|k: int| 0 <= k < edges.len() && #[trigger] links(edges[k], b, a);
        assert(links(edges[k], a, b));
    }
}

/// The neighbours of `a` are exactly the faces adjacent to it: `b` is adjacent
/// to `a` iff some neighbour of `a` is the same face as `b`.
pub proof fn lemma_neighbors_are_adjacent(
    edges: Seq<(ProvinceView, ProvinceView)>,
    a: ProvinceView,
    b: ProvinceView,
)
    ensures
        adjacent(edges, a, b) <==> exists|i: int|
            0 <= i < neighbors(edges, a).len() && same_face(#[trigger] neighbors(edges, a)[i], b),
    decreases edges.len(),
{
    if edges.len() > 0 {
        let init = edges.drop_last();
        let e = edges.last();
        let rest = neighbors(init, a);
        let ns = neighbors(edges, a);
        lemma_neighbors_are_adjacent(init, a, b);
        assert forall|i: int| 0 <= i < rest.len() implies ns[i] == rest[i] by {}
        if adjacent(edges, a, b) {
            let k = choose|k: int| 0 <= k < edges.len() && #[trigger] links(edges[k], a, b);
            if k < edges.len() - 1 {
                assert(init[k] == edges[k]);
                assert(adjacent(init, a, b));
                let i = choose|i: int| 0 <= i < rest.len() && same_face(#[trigger] rest[i], b);
                assert(same_face(ns[i], b));
            } else {
                assert(same_face(ns[ns.len() - 1], b));
            }
        }
        if exists|i: int| 0 <= i < ns.len() && same_face(#[trigger] ns[i], b) {
            let i = choose|i: int| 0 <= i < ns.len() && same_face(#[trigger] ns[i], b);
            if i < rest.len() {
                assert(same_face(rest[i], b));
                let k = choose|k: int| 0 <= k < init.len() && #[trigger] links(init[k], a, b);
                assert(edges[k] == init[k]);
            } else {
                assert(links(edges[edges.len() - 1], a, b));
            }
        }
    }
}

/// The first pair `i < j` (ordered by `j`, then `i`) of regions that are one face
/// under two names, if any.
fn find_conflict(ps: &Vec<Province>) -> (r: Option<(usize, usize)>)
    ensures
        r is None <==> catalog_consistent(province_views(ps@)),
        r matches Some((i, j)) ==> first_error(
            BoardView {
                nations: Seq::empty(),
                provinces: province_views(ps@),
                adjacencies: Seq::empty(),
            },
            BoardError::ConflictingRegion(i, j),
        ),
{
    let ghost vs = province_views(ps@);
    let mut j: usize = 0;
    while j < ps.len()
        invariant
            j <= ps.len(),
            vs == province_views(ps@),
            forall|i2: int, j2: int|
                0 <= i2 < j2 < j ==> !conflicting(#[trigger] vs[i2], #[trigger] vs[j2]),
        decreases ps.len() - j,
    {
        let mut i: usize = 0;
        while i < j
            invariant
                i <= j < ps.len(),
                vs == province_views(ps@),
                forall|i2: int, j2: int|
                    0 <= i2 < j2 && (j2 < j || (j2 == j && i2 < i)) ==> !conflicting(
                        #[trigger] vs[i2],
                        #[trigger] vs[j2],
                    ),
            decreases j - i,
        {
            if ps[i].same_coast_as(&ps[j]) && ps[i].name != ps[j].name {
                assert(conflicting(vs[i as int], vs[j as int]));
                return Some((i, j));
            }
            i += 1;
        }
        j += 1;
    }
    None
}

/// Whether some edge joins face `p` to a sea.
fn borders_water(es: &Vec<(Province, Province)>, p: &Province) -> (r: bool)
    ensures
        r == touches_water(edge_views(es@), p@),
{
    let ghost edges = edge_views(es@);
    let mut k: usize = 0;
    while k < es.len()
        invariant
            k <= es.len(),
            edges == edge_views(es@),
            forall|k2: int|
                0 <= k2 < k ==> {
                    let e = #[trigger] edges[k2];
                    !((same_face(e.0, p@) && e.1.terrain == ProvinceType::Water) || (same_face(
                        e.1,
                        p@,
                    ) && e.0.terrain == ProvinceType::Water))
                },
        decreases es.len() - k,
    {
        let e = &es[k];
        if (e.0.same_coast_as(p) && e.1.terrain == ProvinceType::Water) || (e.1.same_coast_as(p)
            && e.0.terrain == ProvinceType::Water) {
            let ghost ek = edges[k as int];
            assert(same_face(ek.0, p@) && ek.1.terrain == ProvinceType::Water || same_face(ek.1, p@)
                && ek.0.terrain == ProvinceType::Water);
            return true;
        }
        k += 1;
    }
    false
}

/// Whether unit `u` may start in region `p`.
fn unit_fits_in(es: &Vec<(Province, Province)>, p: &Province, u: Unit) -> (r: bool)
    ensures
        r == unit_fits(edge_views(es@), p@, u),
{
    match u {
        Unit::Army => match p.terrain {
            ProvinceType::Land(_) => true,
            ProvinceType::Water => false,
        },
        Unit::Fleet => p.terrain == ProvinceType::Water || borders_water(es, p),
    }
}

impl GameData {
    /// Whether home entry `(n, h)` names a province that an earlier entry named.
    fn repeats_earlier_home(&self, n: usize, h: usize) -> (r: bool)
        requires
            is_home(self@, n as int, h as int),
        ensures
            r == home_repeated(self@, n as int, h as int),
    {
        let ghost b = self@;
        let p = &self.nations[n].home_supply_centers[h].0;
        let mut n2: usize = 0;
        while n2 <= n
            invariant
                n2 <= n + 1,
                n < self.nations.len(),
                b == self@,
                is_home(b, n as int, h as int),
                *p == self.nations@[n as int].home_supply_centers@[h as int].0,
                forall|n3: int, h3: int|
                    #![trigger home(b, n3, h3)]
                    is_home(b, n3, h3) && earlier(n3, h3, n as int, h as int) && n3 < n2
                        ==> !same_province(home(b, n3, h3).0, home(b, n as int, h as int).0),
            decreases n + 1 - n2,
        {
            let homes = &self.nations[n2].home_supply_centers;
            let end: usize = if n2 < n {
                homes.len()
            } else {
                h
            };
            let mut h2: usize = 0;
            while h2 < end
                invariant
                    h2 <= end <= homes.len(),
                    n2 <= n < self.nations.len(),
                    n2 < n ==> end == homes.len(),
                    n2 == n ==> end == h,
                    b == self@,
                    is_home(b, n as int, h as int),
                    *homes == self.nations@[n2 as int].home_supply_centers,
                    *p == self.nations@[n as int].home_supply_centers@[h as int].0,
                    forall|n3: int, h3: int|
                        #![trigger home(b, n3, h3)]
                        is_home(b, n3, h3) && earlier(n3, h3, n as int, h as int) && (n3 < n2 || (
                        n3 == n2 && h3 < h2)) ==> !same_province(
                            home(b, n3, h3).0,
                            home(b, n as int, h as int).0,
                        ),
                decreases end - h2,
            {
                if homes[h2].0.same_as(p) {
                    assert(home(b, n2 as int, h2 as int).0 == homes@[h2 as int].0@);
                    return true;
                }
                h2 += 1;
            }
            n2 += 1;
        }
        false
    }

    /// Checks every invariant of a board and reports the first one violated:
    /// catalog consistency, then adjacency endpoints, then each home entry in
    /// reading order.
    pub fn validate(&self) -> (r: Result<(), BoardError>)
        ensures
            r is Ok <==> valid(self@),
            r matches Err(e) ==> first_error(self@, e),
    {
        let ghost b = self@;
        match find_conflict(&self.provinces) {
            Some((i, j)) => {
                return Err(BoardError::ConflictingRegion(i, j));
            },
            None => {},
        }
        let mut k: usize = 0;
        while k < self.adjacencies.len()
            invariant
                b == self@,
                catalog_consistent(b.provinces),
                k <= self.adjacencies.len(),
                forall|k2: int| 0 <= k2 < k ==> #[trigger] edge_closed(b.provinces, b.adjacencies[k2]),
            decreases self.adjacencies.len() - k,
        {
            let e = &self.adjacencies[k];
            if !contains_province(&self.provinces, &e.0) || !contains_province(&self.provinces, &e.1) {
                assert(!edge_closed(b.provinces, b.adjacencies[k as int]));
                return Err(BoardError::UnknownAdjacencyEndpoint(k));
            }
            k += 1;
        }
        let mut n: usize = 0;
        while n < self.nations.len()
            invariant
                b == self@,
                catalog_consistent(b.provinces),
                edges_closed(b),
                n <= self.nations.len(),
                homes_sound_before(b, n as int, 0),
            decreases self.nations.len() - n,
        {
            let homes = &self.nations[n].home_supply_centers;
            let mut h: usize = 0;
            while h < homes.len()
                invariant
                    b == self@,
                    catalog_consistent(b.provinces),
                    edges_closed(b),
                    n < self.nations.len(),
                    *homes == self.nations@[n as int].home_supply_centers,
                    h <= homes.len(),
                    homes_sound_before(b, n as int, h as int),
                decreases homes.len() - h,
            {
                let entry = &homes[h];
                assert(home(b, n as int, h as int) == (entry.0@, entry.1));
                if !contains_province(&self.provinces, &entry.0) {
                    assert(!home_sound(b, n as int, h as int));
                    return Err(BoardError::UnknownHomeTerritory(n, h));
                }
                if !unit_fits_in(&self.adjacencies, &entry.0, entry.1) {
                    assert(!home_sound(b, n as int, h as int));
                    return Err(BoardError::HomeUnitMismatch(n, h));
                }
                if self.repeats_earlier_home(n, h) {
                    assert(!home_sound(b, n as int, h as int));
                    return Err(BoardError::RepeatedHomeTerritory(n, h));
                }
                assert forall|n2: int, h2: int|
                    is_home(b, n2, h2) && earlier(n2, h2, n as int, h + 1) implies #[trigger] home_sound(
                        b,
                        n2,
                        h2,
                    ) by {
                    if !(n2 == n && h2 == h) {
                        assert(earlier(n2, h2, n as int, h as int));
                    }
                }
                h += 1;
            }
            assert forall|n2: int, h2: int|
                is_home(b, n2, h2) && earlier(n2, h2, n + 1, 0) implies #[trigger] home_sound(
                    b,
                    n2,
                    h2,
                ) by {
                if n2 == n {
                    assert(earlier(n2, h2, n as int, homes.len() as int));
                } else {
                    assert(earlier(n2, h2, n as int, 0));
                }
            }
            n += 1;
        }
        Ok(())
    }

    /// Builds a board from its parts, or reports the first invariant they violate.
    pub fn new(
        nations: Vec<Nation>,
        provinces: Vec<Province>,
        adjacencies: Vec<(Province, Province)>,
    ) -> (r: Result<GameData, BoardError>)
        ensures
            ({
                let b = BoardView {
                    nations: nation_views(nations@),
                    provinces: province_views(provinces@),
                    adjacencies: edge_views(adjacencies@),
                };
                &&& r is Ok <==> valid(b)
                &&& r matches Ok(g) ==> g@ == b
                &&& r matches Err(e) ==> first_error(b, e)
            }),
    {
        let g = GameData { nations, provinces, adjacencies };
        match g.validate() {
            Ok(()) => Ok(g),
            Err(e) => Err(e),
        }
    }
}

/// A valid board is closed: every adjacency endpoint and every home territory is
/// a region of its catalog.
pub proof fn lemma_valid_board_is_closed(b: BoardView)
    requires
        valid(b),
    ensures
        forall|k: int|
            0 <= k < b.adjacencies.len() ==> b.provinces.contains((#[trigger] b.adjacencies[k]).0)
                && b.provinces.contains(b.adjacencies[k].1),
        forall|n: int, h: int| is_home(b, n, h) ==> b.provinces.contains(#[trigger] home(b, n, h).0),
{
    assert forall|k: int| 0 <= k < b.adjacencies.len() implies b.provinces.contains(
        (#[trigger] b.adjacencies[k]).0,
    ) && b.provinces.contains(b.adjacencies[k].1) by {
        assert(edge_closed(b.provinces, b.adjacencies[k]));
    }
    assert forall|n: int, h: int| is_home(b, n, h) implies b.provinces.contains(
        #[trigger] home(b, n, h).0,
    ) by {
        assert(home_sound(b, n, h));
    }
}

/// Each neighbour of `a` is the far endpoint of an edge whose near endpoint is
/// the same face as `a`.
pub proof fn lemma_neighbor_has_edge(
    edges: Seq<(ProvinceView, ProvinceView)>,
    a: ProvinceView,
    i: int,
)
    requires
        0 <= i < neighbors(edges, a).len(),
    ensures
        exists|k: int|
            0 <= k < edges.len() && {
                let e = #[trigger] edges[k];
                (same_face(e.0, a) && neighbors(edges, a)[i] == e.1) || (same_face(e.1, a)
                    && neighbors(edges, a)[i] == e.0)
            },
    decreases edges.len(),
{
    let init = edges.drop_last();
    let rest = neighbors(init, a);
    let k = edges.len() - 1;
    if i < rest.len() {
        lemma_neighbor_has_edge(init, a, i);
        let k2 = choose|k2: int|
            0 <= k2 < init.len() && {
                let e = #[trigger] init[k2];
                (same_face(e.0, a) && rest[i] == e.1) || (same_face(e.1, a) && rest[i] == e.0)
            };
        assert(edges[k2] == init[k2]);
        assert(neighbors(edges, a)[i] == rest[i]);
    } else {
        assert(edges[k] == edges.last());
    }
}

} // verus!
