//! The integer side of an N-body step: which pairs of bodies interact, which
//! bodies the recentering averages over, the marker colours, and the
//! settings a step reads. The arithmetic on positions is done by the caller.
use crate::settings::{Drag, Gravity, Setting, SettingsBlock, Speed};
use vstd::prelude::*;

verus! {

/// `p` comes before `q` in lexicographic order.
pub open spec fn pair_before(p: (usize, usize), q: (usize, usize)) -> bool {
    p.0 < q.0 || (p.0 == q.0 && p.1 < q.1)
}

/// Every unordered pair `(i, j)` with `i < j < n`, each once, in
/// lexicographic order. There are none for fewer than two bodies.
pub fn pair_schedule(n: usize) -> (r: Vec<(usize, usize)>)
    ensures
        forall|k: int| 0 <= k < r@.len() ==> (#[trigger] r@[k]).0 < r@[k].1 < n,
        forall|a: int, b: int|
            0 <= a < b < r@.len() ==> pair_before(#[trigger] r@[a], #[trigger] r@[b]),
        forall|i: usize, j: usize| i < j < n ==> r@.contains((i, j)),
        n < 2 ==> r@.len() == 0,
{
    let mut r: Vec<(usize, usize)> = Vec::new();
    let mut i: usize = 0;
    while i < n
        invariant
            i <= n,
            forall|k: int| 0 <= k < r@.len() ==> (#[trigger] r@[k]).0 < r@[k].1 < n,
            forall|k: int| 0 <= k < r@.len() ==> (#[trigger] r@[k]).0 < i,
            forall|a: int, b: int|
                0 <= a < b < r@.len() ==> pair_before(#[trigger] r@[a], #[trigger] r@[b]),
            forall|a: usize, b: usize| a < i && a < b < n ==> r@.contains((a, b)),
        decreases n - i,
    {
        let mut j: usize = i + 1;
        while j < n
            invariant
                i < n,
                i + 1 <= j <= n,
                forall|k: int| 0 <= k < r@.len() ==> (#[trigger] r@[k]).0 < r@[k].1 < n,
                forall|k: int|
                    0 <= k < r@.len() ==> (#[trigger] r@[k]).0 < i || (r@[k].0 == i && r@[k].1
                        < j),
                forall|a: int, b: int|
                    0 <= a < b < r@.len() ==> pair_before(#[trigger] r@[a], #[trigger] r@[b]),
                forall|a: usize, b: usize| a < i && a < b < n ==> r@.contains((a, b)),
                forall|b: usize| i < b < j ==> r@.contains((i, b)),
            decreases n - j,
        {
            let ghost before = r@;
            r.push((i, j));
            proof {
                assert forall|a: usize, b: usize|
                    (a < i && a < b < n) || (a == i && i < b <= j) implies r@.contains((a, b)) by {
                    if a == i && b == j {
                        assert(r@[before.len() as int] == (a, b));
                    } else {
                        assert(before.contains((a, b)));
                        let k = choose|k: int| 0 <= k < before.len() && before[k] == (a, b);
                        assert(r@[k] == (a, b));
                    }
                }
            }
            j = j + 1;
        }
        i = i + 1;
    }
    proof {
        if n < 2 && r@.len() > 0 {
            assert(r@[0].0 < r@[0].1 < n);
        }
    }
    r
}

/// How many entries of `s` are true.
pub open spec fn count_true(s: Seq<bool>) -> nat
    decreases s.len(),
{
    if s.len() == 0 {
        0
    } else {
        count_true(s.drop_last()) + if s.last() { 1nat } else { 0nat }
    }
}

/// The rows of a table of flags, as sequences.
pub open spec fn rows_of(rows: Seq<Vec<bool>>) -> Seq<Seq<bool>> {
    rows.map_values(|v: Vec<bool>| v@)
}

/// Candidate `c` has the most inliers, at least one, and no earlier
/// candidate has as many.
pub open spec fn is_best_candidate(rows: Seq<Seq<bool>>, c: int) -> bool {
    &&& 0 <= c < rows.len()
    &&& count_true(rows[c]) > 0
    &&& forall|k: int| 0 <= k < rows.len() ==> count_true(#[trigger] rows[k]) <= count_true(rows[c])
    &&& forall|k: int| 0 <= k < c ==> count_true(#[trigger] rows[k]) < count_true(rows[c])
}

/// `r` is the outcome of the inlier vote over `rows`, where `rows[c][k]`
/// says that body `k` lies within the inlier radius of candidate `c`: the
/// inlier set of the first candidate with the most inliers, or no body at all
/// when no candidate has an inlier.
pub open spec fn vote_outcome(rows: Seq<Seq<bool>>, r: Seq<bool>) -> bool {
    &&& (forall|k: int| 0 <= k < rows.len() ==> count_true(#[trigger] rows[k]) == 0)
        ==> r == Seq::new(rows.len(), |i: int| false)
    &&& (exists|k: int| 0 <= k < rows.len() && count_true(#[trigger] rows[k]) > 0)
        ==> exists|c: int| is_best_candidate(rows, c) && r == rows[c]
}

/// How many entries of `row` are true.
pub fn count_row(row: &Vec<bool>) -> (r: usize)
    ensures
        r == count_true(row@),
{
    let mut n: usize = 0;
    let mut i: usize = 0;
    while i < row.len()
        invariant
            i <= row@.len(),
            n == count_true(row@.subrange(0, i as int)),
            n <= i,
        decreases row@.len() - i,
    {
        proof {
            assert(row@.subrange(0, i + 1).drop_last() =~= row@.subrange(0, i as int));
        }
        if row[i] {
            n = n + 1;
        }
        i = i + 1;
    }
    assert(row@.subrange(0, row@.len() as int) =~= row@);
    n
}

/// The inlier vote of the recentering: for each candidate, `rows[c]` flags
/// the bodies within the inlier radius of it; the result flags the bodies
/// whose positions the centroid sums.
pub fn inlier_vote(rows: &Vec<Vec<bool>>) -> (r: Vec<bool>)
    ensures
        vote_outcome(rows_of(rows@), r@),
{
    let ghost t = rows_of(rows@);
    let n = rows.len();
    let mut best: usize = 0;
    let mut highest: usize = 0;
    let mut c: usize = 0;
    while c < n
        invariant
            n == rows@.len(),
            t == rows_of(rows@),
            c <= n,
            highest == 0 ==> forall|k: int| 0 <= k < c ==> count_true(#[trigger] t[k]) == 0,
            highest > 0 ==> {
                &&& best < c
                &&& count_true(t[best as int]) == highest
                &&& forall|k: int| 0 <= k < c ==> count_true(#[trigger] t[k]) <= highest
                &&& forall|k: int| 0 <= k < best ==> count_true(#[trigger] t[k]) < highest
            },
        decreases n - c,
    {
        let inliers = count_row(&rows[c]);
        if inliers > highest {
            highest = inliers;
            best = c;
        }
        c = c + 1;
    }
    if highest > 0 {
        let r = rows[best].clone();
        proof {
            assert(is_best_candidate(t, best as int));
        }
        r
    } else {
        let mut r: Vec<bool> = Vec::new();
        let mut i: usize = 0;
        while i < n
            invariant
                i <= n,
                r@ == Seq::new(i as nat, |k: int| false),
            decreases n - i,
        {
            r.push(false);
            i = i + 1;
            assert(r@ =~= Seq::new(i as nat, |k: int| false));
        }
        r
    }
}

proof fn lemma_count_all_true(s: Seq<bool>)
    requires
        forall|i: int| 0 <= i < s.len() ==> s[i],
    ensures
        count_true(s) == s.len(),
    decreases s.len(),
{
    if s.len() > 0 {
        lemma_count_all_true(s.drop_last());
    }
}

/// When every body lies within the inlier radius of every candidate, the
/// vote keeps every body, so the centroid is the plain mean of all positions.
pub proof fn lemma_all_within_radius_keeps_all(rows: Seq<Seq<bool>>, r: Seq<bool>)
    requires
        rows.len() > 0,
        forall|c: int| 0 <= c < rows.len() ==> (#[trigger] rows[c]).len() == rows.len(),
        forall|c: int, k: int| 0 <= c < rows.len() && 0 <= k < rows.len() ==> #[trigger] rows[c][k],
        vote_outcome(rows, r),
    ensures
        r == Seq::new(rows.len(), |i: int| true),
{
    lemma_count_all_true(rows[0]);
    assert(count_true(rows[0]) > 0);
    let c = choose|c: int| is_best_candidate(rows, c) && r == rows[c];
    assert(r =~= Seq::new(rows.len(), |i: int| true));
}

/// The colour tag of a body's marker.
#[derive(Clone, Copy, PartialEq, Eq, Structural, Debug)]
pub enum Colour {
    Red,
    Green,
    Yellow,
    Blue,
    Magenta,
    Cyan,
    Gray,
    White,
}

/// The marker colours, taken in turn by successive bodies.
pub open spec fn palette() -> Seq<Colour> {
    seq![
        Colour::Red,
        Colour::Green,
        Colour::Yellow,
        Colour::Blue,
        Colour::Magenta,
        Colour::Cyan,
        Colour::Gray,
        Colour::White,
    ]
}

/// The marker colour of the body numbered `id`.
pub fn marker_colour(id: usize) -> (r: Colour)
    ensures
        r == palette()[(id % 8) as int],
{
    let k = id % 8;
    if k == 0 {
        Colour::Red
    } else if k == 1 {
        Colour::Green
    } else if k == 2 {
        Colour::Yellow
    } else if k == 3 {
        Colour::Blue
    } else if k == 4 {
        Colour::Magenta
    } else if k == 5 {
        Colour::Cyan
    } else if k == 6 {
        Colour::Gray
    } else {
        Colour::White
    }
}

/// How many bodies a fresh N-body scenario starts with.
pub const INITIAL_BODIES: usize = 3;

/// The N-body settings panel: speed 3, `G = 10^2`, drag 0.99, in that
/// order, with the first selected.
pub fn nbody_settings() -> (r: SettingsBlock)
    ensures
        r.wf(),
        r.selection() == 0,
        r.entries() == seq![
            Setting::Speed(Speed(3)),
            Setting::Gravity(Gravity(2)),
            Setting::Drag(Drag(99)),
        ],
{
    let mut v: Vec<Setting> = Vec::new();
    v.push(Setting::Speed(Speed::new()));
    v.push(Setting::Gravity(Gravity::new()));
    v.push(Setting::Drag(Drag::new()));
    assert(v@ =~= seq![
        Setting::Speed(Speed(3)),
        Setting::Gravity(Gravity(2)),
        Setting::Drag(Drag(99)),
    ]);
    SettingsBlock::new(v)
}

/// What one physics step reads from the settings: the time step, the power
/// of ten of `G`, and the drag factor in hundredths.
#[derive(Clone, Copy, PartialEq, Eq, Structural, Debug)]
pub struct StepParameters {
    pub speed: i64,
    pub gravity_exponent: i64,
    pub drag_hundredths: i64,
}

/// The panel holds speed, gravity and drag in its first three places.
pub open spec fn has_nbody_layout(entries: Seq<Setting>) -> bool {
    &&& entries.len() >= 3
    &&& entries[0] is Speed
    &&& entries[1] is Gravity
    &&& entries[2] is Drag
}

/// Reads the step parameters from an N-body settings panel; `None` when the
/// panel does not hold speed, gravity and drag in its first three places.
pub fn step_parameters(settings: &SettingsBlock) -> (r: Option<StepParameters>)
    ensures
        r is Some <==> has_nbody_layout(settings.entries()),
        r matches Some(p) ==> {
            &&& p.speed == settings.entries()[0].level()
            &&& p.gravity_exponent == settings.entries()[1].level()
            &&& p.drag_hundredths == settings.entries()[2].level()
        },
{
    if settings.len() < 3 {
        return None;
    }
    match (settings.get(0), settings.get(1), settings.get(2)) {
        (Setting::Speed(s), Setting::Gravity(g), Setting::Drag(d)) => Some(
            StepParameters { speed: s.0, gravity_exponent: g.0, drag_hundredths: d.0 },
        ),
        _ => None,
    }
}

} // verus!
