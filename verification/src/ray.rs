//! The life of one ray: which surface it hits, and how far its path goes.
use vstd::prelude::*;
use crate::double::{Double, Vec3, INFINITY_BITS};
use crate::shapes::TimeRange;

verus! {

/// The encoding of 0.001: a crossing this close to a ray's origin is the
/// surface that the ray has just left.
pub const SHADOW_BIAS_BITS: u64 = 0x3F50_624D_D2F1_A9FC;

/// A ray: the points `origin + t * direction`. The direction need not have
/// length one.
#[derive(Clone, Copy, Debug, PartialEq, Eq, Structural)]
pub struct Ray {
    pub origin: Vec3,
    pub direction: Vec3,
}

impl Default for Ray {
    /// The ray that starts at the origin and has no direction.
    fn default() -> (ray: Ray)
        ensures
            ray.origin.vanishes(),
            ray.direction.vanishes(),
    {
        Ray { origin: Vec3::default(), direction: Vec3::default() }
    }
}

/// Where a ray met a surface.
#[derive(Clone, Copy, Debug, PartialEq, Eq, Structural)]
pub struct HitRecord {
    pub point: Vec3,
    /// Of length one, and turned against the ray.
    pub normal: Vec3,
    /// The ray's parameter at the point.
    pub time: Double,
    /// Whether the surface was met from outside.
    pub front_face: bool,
}

/// What a material made of a ray: the share of light it lets through, for
/// each colour, and the ray that goes on.
#[derive(Clone, Copy, Debug, PartialEq, Eq, Structural)]
pub struct MaterialCalc {
    pub attenuation: Vec3,
    pub rebounce: Ray,
}

/// A surface in the scene. Nothing is taken for granted of an
/// implementation: what it reports is checked where it is used.
pub trait RayHittable {
    /// The nearest crossing of the ray with the surface within `range`, if
    /// there is one.
    fn hit(&self, ray: &Ray, range: &TimeRange) -> Option<HitRecord>;

    /// What the surface's material makes of a ray that hit it at `hit`:
    /// `None` where the ray is absorbed.
    fn scatter(&self, ray: &Ray, hit: &HitRecord) -> Option<MaterialCalc>;
}

/// A boxed surface is the surface in the box, so that a scene can hold
/// surfaces of several kinds.
impl<T: RayHittable + ?Sized> RayHittable for Box<T> {
    fn hit(&self, ray: &Ray, range: &TimeRange) -> (r: Option<HitRecord>)
        ensures
            call_ensures(T::hit, (&**self, ray, range), r),
    {
        (**self).hit(ray, range)
    }

    fn scatter(&self, ray: &Ray, hit: &HitRecord) -> (r: Option<MaterialCalc>)
        ensures
            call_ensures(T::scatter, (&**self, ray, hit), r),
    {
        (**self).scatter(ray, hit)
    }
}

/// What became of a ray in the scene.
#[derive(Clone, Copy, Debug, PartialEq, Eq, Structural)]
pub enum Event {
    /// It hit no surface.
    Miss,
    /// It hit a surface whose material absorbed it.
    Absorbed,
    /// It hit a surface whose material scattered it; `dark` where the
    /// attenuation is the zero vector.
    Scattered { dark: bool },
}

/// What the tracer does next.
#[derive(Clone, Copy, Debug, PartialEq, Eq, Structural)]
pub enum Step {
    /// The path ends in the background gradient.
    Sky,
    /// The path ends in black.
    Black,
    /// The path goes on with the scattered ray, on the budget given.
    Follow { budget: u8 },
}

/// How a path ended.
#[derive(Clone, Copy, Debug, PartialEq, Eq, Structural)]
pub enum End {
    /// Its last ray left the scene, into the background gradient.
    Sky,
    /// Its last ray gathers no light.
    Black,
}

/// The path of one camera ray through the scene: the scatterings that were
/// followed, in order, and how the last ray ended. The last ray is the
/// rebounce of the last scattering, or the camera ray where there is none.
#[derive(Debug)]
pub struct Path {
    pub bounces: Vec<MaterialCalc>,
    pub end: End,
}

/// The range in which every surface is asked for a crossing.
pub open spec fn trace_span() -> TimeRange {
    TimeRange { min: Double { bits: SHADOW_BIAS_BITS }, max: Double { bits: INFINITY_BITS } }
}

/// The range in which every surface is asked for a crossing: after the
/// shadow bias, without an upper end.
pub fn trace_range() -> (range: TimeRange)
    ensures
        range == trace_span(),
{
    TimeRange { min: Double::from_bits(SHADOW_BIAS_BITS), max: Double::from_bits(INFINITY_BITS) }
}

/// Whether the surface reported a crossing at a time that is a number.
pub open spec fn counts(hit: Option<HitRecord>) -> bool {
    hit is Some && !hit->0.time.is_nan()
}

/// The surface at `k` is the one hit: it reported a crossing, no surface
/// reported an earlier one, and of several surfaces that report the same
/// time it is the last in the scene.
pub open spec fn is_nearest(hits: Seq<Option<HitRecord>>, k: int) -> bool {
    &&& 0 <= k < hits.len()
    &&& counts(hits[k])
    &&& forall|i: int|
        0 <= i < hits.len() && counts(#[trigger] hits[i]) ==> hits[k]->0.time.rank()
            <= hits[i]->0.time.rank()
    &&& forall|i: int|
        k < i < hits.len() && counts(#[trigger] hits[i]) ==> hits[k]->0.time.rank()
            < hits[i]->0.time.rank()
}

/// Finds the surface that the ray hits first. `hits` holds, for each surface
/// of the scene in storage order, its crossing or `None`. The result is
/// `None` only where no surface reported a crossing.
pub fn nearest(hits: &Vec<Option<HitRecord>>) -> (r: Option<usize>)
    ensures
        match r {
            Some(k) => is_nearest(hits@, k as int),
            None => forall|i: int| 0 <= i < hits.len() ==> !counts(#[trigger] hits@[i]),
        },
{
    let mut best: Option<usize> = None;
    let mut i: usize = 0;
    while i < hits.len()
        invariant
            i <= hits.len(),
            match best {
                Some(k) => k < i && is_nearest(hits@.take(i as int), k as int),
                None => forall|j: int| 0 <= j < i ==> !counts(#[trigger] hits@[j]),
            },
        decreases hits.len() - i,
    {
        let ghost seen = hits@.take(i as int);
        let ghost grown = hits@.take(i + 1);
        assert(forall|j: int| 0 <= j < i ==> grown[j] == seen[j]);
        assert(grown[i as int] == hits@[i as int]);
        match &hits[i] {
            Some(hit) => {
                if !hit.time.nan() {
                    match best {
                        Some(k) => {
                            let held = hits[k];
                            match held {
                                Some(h) => {
                                    if hit.time.le(&h.time) {
                                        best = Some(i);
                                    }
                                },
                                None => {},
                            }
                        },
                        None => {
                            best = Some(i);
                        },
                    }
                }
            },
            None => {},
        }
        i = i + 1;
    }
    assert(hits@.take(i as int) == hits@);
    best
}

/// What is kept of a surface's report: a crossing within the range, and
/// nothing else.
pub open spec fn admitted(range: TimeRange, raw: Option<HitRecord>) -> Option<HitRecord> {
    match raw {
        Some(hit) => if range.admits(hit.time) {
            Some(hit)
        } else {
            None
        },
        None => None,
    }
}

/// `taken` is what may be kept of the surface's answer to the ray: some
/// answer that `hit` may give, with a crossing outside the range left out.
pub open spec fn may_report<W: RayHittable>(
    surface: W,
    ray: Ray,
    range: TimeRange,
    taken: Option<HitRecord>,
) -> bool {
    exists|raw: Option<HitRecord>| #[trigger]
        call_ensures(W::hit, (&surface, &ray, &range), raw) && taken == admitted(range, raw)
}

/// `hits` is what a scan of the scene may give: for each surface, in
/// storage order, what may be kept of its answer.
pub open spec fn may_scan<W: RayHittable>(
    world: Seq<W>,
    ray: Ray,
    range: TimeRange,
    hits: Seq<Option<HitRecord>>,
) -> bool {
    &&& hits.len() == world.len()
    &&& forall|i: int| 0 <= i < hits.len() ==> may_report(world[i], ray, range, #[trigger] hits[i])
}

/// The surface hit among the crossings of a scan, by its place in the
/// scene, with its crossing.
pub open spec fn found_in(hits: Seq<Option<HitRecord>>) -> Option<(usize, HitRecord)> {
    if exists|k: int| is_nearest(hits, k) {
        let k = choose|k: int| is_nearest(hits, k);
        Some((k as usize, hits[k]->0))
    } else {
        None
    }
}

/// `found` is what a ray may be found to hit: the nearest crossing of some
/// scan of the scene over the range of tracing.
pub open spec fn may_find<W: RayHittable>(
    world: Seq<W>,
    ray: Ray,
    found: Option<(usize, HitRecord)>,
) -> bool {
    exists|hits: Seq<Option<HitRecord>>| #[trigger]
        may_scan(world, ray, trace_span(), hits) && found == found_in(hits)
}

/// `made` is what may be made of a ray that was found to hit `found`:
/// nothing where it hit nothing, else some answer that the surface's
/// `scatter` may give.
pub open spec fn may_scatter<W: RayHittable>(
    world: Seq<W>,
    ray: Ray,
    found: Option<(usize, HitRecord)>,
    made: Option<MaterialCalc>,
) -> bool {
    match found {
        Some(at) => at.0 < world.len() && call_ensures(
            W::scatter,
            (&world[at.0 as int], &ray, &at.1),
            made,
        ),
        None => made is None,
    }
}

/// What became of a ray, from what it hit and what was made of it.
pub open spec fn event_of(found: Option<(usize, HitRecord)>, made: Option<MaterialCalc>) -> Event {
    match found {
        None => Event::Miss,
        Some(_) => match made {
            None => Event::Absorbed,
            Some(calc) => Event::Scattered { dark: calc.attenuation.vanishes() },
        },
    }
}

/// One ray of a path: `found` is what it may hit, and `made` what may be
/// made of it there.
pub open spec fn may_meet<W: RayHittable>(
    world: Seq<W>,
    ray: Ray,
    found: Option<(usize, HitRecord)>,
    made: Option<MaterialCalc>,
) -> bool {
    may_find(world, ray, found) && may_scatter(world, ray, found, made)
}

/// `bounces` and `end` are a path that the ray may take through the scene
/// on the budget: the ray meets the scene, and the path goes on from there
/// as the rule of the path says.
pub open spec fn may_trace<W: RayHittable>(
    world: Seq<W>,
    ray: Ray,
    budget: u8,
    bounces: Seq<MaterialCalc>,
    end: End,
) -> bool
    decreases budget, 1int,
{
    exists|found: Option<(usize, HitRecord)>, made: Option<MaterialCalc>| #[trigger]
        may_meet(world, ray, found, made) && goes_on(world, budget, found, made, bounces, end)
}

/// How a path goes on from a ray that hit `found` and of which `made` was
/// made: by the rule of the path it ends there, in the sky or in black,
/// with no bounce; or the scattering is its first bounce, and the rest is a
/// path that the scattered ray may take on the budget that is left.
pub open spec fn goes_on<W: RayHittable>(
    world: Seq<W>,
    budget: u8,
    found: Option<(usize, HitRecord)>,
    made: Option<MaterialCalc>,
    bounces: Seq<MaterialCalc>,
    end: End,
) -> bool
    decreases budget, 0int,
{
    match next_step(budget, event_of(found, made)) {
        Step::Sky => bounces.len() == 0 && end == End::Sky,
        Step::Black => bounces.len() == 0 && end == End::Black,
        Step::Follow { budget: rest } => {
            &&& rest < budget
            &&& bounces.len() > 0
            &&& made == Some(bounces[0])
            &&& may_trace(world, bounces[0].rebounce, rest, bounces.drop_first(), end)
        },
    }
}

/// Asks every surface of the scene, in storage order, for its crossing with
/// the ray. A crossing reported outside the range is not taken: it counts as
/// none.
pub fn scan<W: RayHittable>(world: &Vec<W>, ray: &Ray, range: &TimeRange) -> (hits: Vec<
    Option<HitRecord>,
>)
    ensures
        may_scan(world@, *ray, *range, hits@),
        forall|i: int|
            0 <= i < hits.len() && #[trigger] hits@[i] is Some ==> range.admits(hits@[i]->0.time),
{
    let mut hits: Vec<Option<HitRecord>> = Vec::new();
    let mut i: usize = 0;
    while i < world.len()
        invariant
            i <= world.len(),
            hits.len() == i,
            forall|j: int| 0 <= j < i ==> may_report(world@[j], *ray, *range, #[trigger] hits@[j]),
            forall|j: int|
                0 <= j < i && #[trigger] hits@[j] is Some ==> range.admits(hits@[j]->0.time),
        decreases world.len() - i,
    {
        let raw = world[i].hit(ray, range);
        let taken = match raw {
            Some(hit) => if range.contains(&hit.time) {
                Some(hit)
            } else {
                None
            },
            None => None,
        };
        hits.push(taken);
        i = i + 1;
    }
    hits
}

/// The surface that the ray hits first, by its place in the scene, with the
/// crossing it reported; `None` where the ray leaves the scene.
pub fn nearest_hit<W: RayHittable>(world: &Vec<W>, ray: &Ray) -> (r: Option<(usize, HitRecord)>)
    ensures
        may_find(world@, *ray, r),
        r matches Some(found) ==> found.0 < world.len() && trace_span().admits(found.1.time),
        world.len() == 0 ==> r is None,
{
    let range = trace_range();
    let hits = scan(world, ray, &range);
    let r = match nearest(&hits) {
        Some(k) => match hits[k] {
            Some(hit) => Some((k, hit)),
            None => None,
        },
        None => None,
    };
    proof {
        assert(hits@.len() == world.len());
        lemma_found_is_nearest(hits@);
        if let Some(at) = r {
            law_nearest_is_unique(hits@, at.0 as int, choose|k: int| is_nearest(hits@, k));
        }
    }
    r
}

/// The rule of the path: a ray that hits nothing ends in the sky; one that
/// is absorbed ends in black, and so does one that is scattered with no
/// bounce left or with an attenuation of zero; any other goes on with one
/// bounce less.
pub open spec fn next_step(budget: u8, event: Event) -> Step {
    match event {
        Event::Miss => Step::Sky,
        Event::Absorbed => Step::Black,
        Event::Scattered { dark } => if budget <= 1 || dark {
            Step::Black
        } else {
            Step::Follow { budget: (budget - 1) as u8 }
        },
    }
}

/// Decides what follows for a ray that was traced with `budget` bounces
/// left.
pub fn step(budget: u8, event: Event) -> (next: Step)
    ensures
        next == next_step(budget, event),
{
    match event {
        Event::Miss => Step::Sky,
        Event::Absorbed => Step::Black,
        Event::Scattered { dark } => {
            if budget <= 1 || dark {
                Step::Black
            } else {
                Step::Follow { budget: budget - 1 }
            }
        },
    }
}

/// Traces a camera ray through the scene until its path ends. Each ray on
/// the path is scanned against every surface; the nearest surface hit
/// scatters it, and the rule of the path says whether the scattered ray is
/// followed. The result is a path that the ray may take: what the surfaces
/// answer is theirs to say, all else is fixed. Whatever they answer, the
/// path has fewer bounces than the budget counts, none of them dark, and in
/// an empty scene it is the camera ray alone, ending in the sky.
pub fn trace<W: RayHittable>(ray: &Ray, max_bounces: u8, world: &Vec<W>) -> (path: Path)
    ensures
        may_trace(world@, *ray, max_bounces, path.bounces@, path.end),
        max_bounces <= 1 ==> path.bounces.len() == 0,
        max_bounces >= 1 ==> path.bounces.len() < max_bounces,
        forall|i: int|
            0 <= i < path.bounces.len() ==> !(#[trigger] path.bounces@[i]).attenuation.vanishes(),
        world.len() == 0 ==> path.bounces.len() == 0 && path.end == End::Sky,
{
    let mut bounces: Vec<MaterialCalc> = Vec::new();
    let mut current: Ray = *ray;
    let mut budget: u8 = max_bounces;
    loop
        invariant
            bounces.len() + budget == max_bounces,
            bounces.len() > 0 ==> budget >= 1,
            forall|i: int|
                0 <= i < bounces.len() ==> !(#[trigger] bounces@[i]).attenuation.vanishes(),
            world.len() == 0 ==> bounces.len() == 0,
            forall|rest: Seq<MaterialCalc>, end: End| #[trigger]
                may_trace(world@, current, budget, rest, end) ==> may_trace(
                    world@,
                    *ray,
                    max_bounces,
                    bounces@ + rest,
                    end,
                ),
        decreases budget,
    {
        let ghost before = bounces@;
        let ghost from = current;
        let found = nearest_hit(world, &current);
        let made = match found {
            Some(at) => world[at.0].scatter(&current, &at.1),
            None => None,
        };
        let dark = match made {
            Some(calc) => calc.attenuation.is_zero(),
            None => false,
        };
        let event = match found {
            None => Event::Miss,
            Some(_) => match made {
                None => Event::Absorbed,
                Some(_) => Event::Scattered { dark },
            },
        };
        assert(may_meet(world@, from, found, made));
        assert(event == event_of(found, made));
        match step(budget, event) {
            Step::Sky => {
                proof {
                    let none = Seq::<MaterialCalc>::empty();
                    assert(may_trace(world@, from, budget, none, End::Sky));
                    assert(before + none == before);
                }
                return Path { bounces, end: End::Sky };
            },
            Step::Black => {
                proof {
                    let none = Seq::<MaterialCalc>::empty();
                    assert(may_trace(world@, from, budget, none, End::Black));
                    assert(before + none == before);
                }
                return Path { bounces, end: End::Black };
            },
            Step::Follow { budget: rest } => {
                match made {
                    Some(calc) => {
                        bounces.push(calc);
                        current = calc.rebounce;
                        proof {
                            assert forall|tail: Seq<MaterialCalc>, end: End| #[trigger]
                                may_trace(world@, calc.rebounce, rest, tail, end) implies may_trace(
                                world@,
                                *ray,
                                max_bounces,
                                before.push(calc) + tail,
                                end,
                            ) by {
                                let whole = seq![calc] + tail;
                                assert(whole[0] == calc);
                                assert(whole.drop_first() == tail);
                                assert(goes_on(world@, budget, found, made, whole, end));
                                assert(may_trace(world@, from, budget, whole, end));
                                assert(before + whole == before.push(calc) + tail);
                            }
                        }
                        budget = rest;
                    },
                    None => {},
                }
            },
        }
    }
}

/// What is found among the crossings of a scan is the one surface that is
/// nearest, and nothing where none is.
proof fn lemma_found_is_nearest(hits: Seq<Option<HitRecord>>)
    requires
        hits.len() <= usize::MAX,
    ensures
        match found_in(hits) {
            Some(at) => is_nearest(hits, at.0 as int) && hits[at.0 as int] == Some(at.1),
            None => forall|k: int| !is_nearest(hits, k),
        },
        forall|k: int| #[trigger] is_nearest(hits, k) ==> found_in(hits) is Some,
{
    if exists|k: int| is_nearest(hits, k) {
        let k = choose|k: int| is_nearest(hits, k);
        assert(0 <= k < hits.len());
    }
}

/// No two surfaces are both the one hit.
pub proof fn law_nearest_is_unique(hits: Seq<Option<HitRecord>>, j: int, k: int)
    requires
        is_nearest(hits, j),
        is_nearest(hits, k),
    ensures
        j == k,
{
    if j < k {
        assert(counts(hits[k]));
    } else if k < j {
        assert(counts(hits[j]));
    }
}

/// A surface whose crossing is earlier than every other is the one hit,
/// wherever in the scene it is stored.
pub proof fn law_earliest_is_nearest(hits: Seq<Option<HitRecord>>, k: int)
    requires
        0 <= k < hits.len(),
        counts(hits[k]),
        forall|i: int|
            0 <= i < hits.len() && i != k && counts(#[trigger] hits[i]) ==> hits[k]->0.time.below(
                hits[i]->0.time,
            ),
    ensures
        is_nearest(hits, k),
{
}

/// A ray that hit a surface with no bounce left gives black, whatever the
/// material did.
pub proof fn law_spent_budget_is_black(event: Event)
    requires
        event != Event::Miss,
    ensures
        next_step(0, event) == Step::Black,
        next_step(1, event) == Step::Black,
{
}

/// A ray that hit nothing ends in the sky, whatever the budget.
pub proof fn law_miss_is_sky(budget: u8)
    ensures
        next_step(budget, Event::Miss) == Step::Sky,
{
}

/// A path that goes on has one bounce less than before.
pub proof fn law_budget_decreases(budget: u8, event: Event)
    ensures
        next_step(budget, event) matches Step::Follow { budget: rest } ==> rest + 1 == budget,
{
}

/// What a ray is found to hit is the nearest crossing, wherever in the
/// scene its surface is stored: the scan holds it at the place found, and no
/// surface reported an earlier one.
pub proof fn law_found_is_nearest(hits: Seq<Option<HitRecord>>, i: int)
    requires
        hits.len() <= usize::MAX,
        0 <= i < hits.len(),
        counts(hits[i]),
    ensures
        found_in(hits) matches Some(at) && hits[at.0 as int] == Some(at.1) && at.1.time.at_most(
            hits[i]->0.time,
        ),
{
    lemma_some_is_nearest(hits, hits.len() as int);
    assert(hits.take(hits.len() as int) == hits);
    lemma_found_is_nearest(hits);
}

/// A ray that can hit nothing ends in the sky, with no bounce: so does
/// every ray in an empty scene.
pub proof fn law_miss_traces_to_sky<W: RayHittable>(
    world: Seq<W>,
    ray: Ray,
    budget: u8,
    bounces: Seq<MaterialCalc>,
    end: End,
)
    requires
        may_trace(world, ray, budget, bounces, end),
        world.len() == 0 || forall|found: Option<(usize, HitRecord)>| #[trigger]
            may_find(world, ray, found) ==> found is None,
    ensures
        bounces.len() == 0,
        end == End::Sky,
{
    let (found, made) = choose|found: Option<(usize, HitRecord)>, made: Option<MaterialCalc>| #[trigger]
        may_meet(world, ray, found, made) && goes_on(world, budget, found, made, bounces, end);
    if world.len() == 0 {
        let hits = choose|hits: Seq<Option<HitRecord>>| #[trigger]
            may_scan(world, ray, trace_span(), hits) && found == found_in(hits);
        assert(hits.len() == 0);
        assert(forall|k: int| !is_nearest(hits, k));
    }
    assert(found is None);
}

/// A ray that is sure to hit a surface, traced with no bounce left, ends in
/// black with no bounce, whatever the material of the surface does.
pub proof fn law_spent_budget_traces_to_black<W: RayHittable>(
    world: Seq<W>,
    ray: Ray,
    budget: u8,
    bounces: Seq<MaterialCalc>,
    end: End,
)
    requires
        may_trace(world, ray, budget, bounces, end),
        budget <= 1,
        forall|found: Option<(usize, HitRecord)>| #[trigger]
            may_find(world, ray, found) ==> found is Some,
    ensures
        bounces.len() == 0,
        end == End::Black,
{
}

/// The budget bounds the path, whatever the surfaces answer: it has fewer
/// bounces than the budget counts, and none where the budget counts none.
/// No bounce on it is dark.
pub proof fn law_path_is_bounded<W: RayHittable>(
    world: Seq<W>,
    ray: Ray,
    budget: u8,
    bounces: Seq<MaterialCalc>,
    end: End,
)
    requires
        may_trace(world, ray, budget, bounces, end),
    ensures
        budget == 0 ==> bounces.len() == 0,
        budget >= 1 ==> bounces.len() < budget,
        forall|i: int| 0 <= i < bounces.len() ==> !(#[trigger] bounces[i]).attenuation.vanishes(),
    decreases budget,
{
    let (found, made) = choose|found: Option<(usize, HitRecord)>, made: Option<MaterialCalc>| #[trigger]
        may_meet(world, ray, found, made) && goes_on(world, budget, found, made, bounces, end);
    match next_step(budget, event_of(found, made)) {
        Step::Follow { budget: rest } => {
            let tail = bounces.drop_first();
            law_path_is_bounded(world, bounces[0].rebounce, rest, tail, end);
            assert forall|i: int| 0 <= i < bounces.len() implies !(#[trigger] bounces[i]).attenuation.vanishes() by {
                if i > 0 {
                    assert(bounces[i] == tail[i - 1]);
                }
            }
        },
        _ => {},
    }
}

/// Among the first `n` crossings of a scan, one that counts makes some
/// surface the nearest.
proof fn lemma_some_is_nearest(hits: Seq<Option<HitRecord>>, n: int)
    requires
        0 <= n <= hits.len(),
    ensures
        (exists|i: int| 0 <= i < n && counts(hits[i])) ==> exists|k: int| is_nearest(hits.take(n), k),
    decreases n,
{
    if n > 0 {
        let shorter = hits.take(n - 1);
        let longer = hits.take(n);
        lemma_some_is_nearest(hits, n - 1);
        assert(forall|j: int| 0 <= j < n - 1 ==> longer[j] == shorter[j]);
        if counts(hits[n - 1]) {
            if exists|k: int| is_nearest(shorter, k) {
                let k = choose|k: int| is_nearest(shorter, k);
                if hits[n - 1]->0.time.rank() <= shorter[k]->0.time.rank() {
                    assert(is_nearest(longer, n - 1));
                } else {
                    assert(is_nearest(longer, k));
                }
            } else {
                assert forall|j: int| 0 <= j < n - 1 implies !counts(#[trigger] longer[j]) by {
                    if counts(longer[j]) {
                        assert(counts(hits[j]));
                    }
                }
                assert(is_nearest(longer, n - 1));
            }
        } else if exists|i: int| 0 <= i < n && counts(hits[i]) {
            let i = choose|i: int| 0 <= i < n && counts(hits[i]);
            assert(0 <= i < n - 1 && counts(hits[i]));
            let k = choose|k: int| is_nearest(shorter, k);
            assert(is_nearest(longer, k));
        }
    }
}

} // verus!
