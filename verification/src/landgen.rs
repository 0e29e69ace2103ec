//! Procedural terrain generation from an outline template.
//!
//! An [`OutlineTemplate`] declares a logical area, a set of islands (each a
//! list of rectangles forming one landmass outline) and a list of fill seed
//! points. [`TemplatedLandGenerator::generate_land`] turns a template, a set
//! of [`LandGenerationParameters`] and the mutable random stream into a
//! terrain bitmap. The result and the stream's successor state are pinned
//! exactly by [`spec_generate_land`], so generation is provably a pure
//! function of template, parameters and stream state.

use vstd::prelude::*;

use crate::geometry::Point;
use crate::geometry::Rect;
use crate::geometry::Size;
use crate::land::Land;
use crate::land::LandModel;
use crate::prng::LaggedFibonacciPrng;
use crate::prng::PrngModel;

verus! {

/// Largest accepted map edge, in cells. Bounding both edges keeps the cell
/// count within the index range of every supported target.
pub const MAX_MAP_DIMENSION: u32 = 0x8000;

/// Largest accepted rectangle coordinate or extent in a template.
pub const MAX_RECT_COORD: u32 = 0x1000_0000;

/// Largest accepted roughness parameter.
pub const MAX_ROUGHNESS: u32 = 0xFFFF;

/// Validity of one template rectangle: coordinates and extents small enough
/// that jittering and membership tests stay within `u32`.
pub open spec fn rect_wf(r: Rect) -> bool {
    &&& r.x <= MAX_RECT_COORD
    &&& r.y <= MAX_RECT_COORD
    &&& r.width <= MAX_RECT_COORD
    &&& r.height <= MAX_RECT_COORD
}

/// Mathematical value of an outline template.
pub struct OutlineTemplateModel {
    pub size: Size,
    pub islands: Seq<Seq<Rect>>,
    pub fill_points: Seq<Point>,
}

impl OutlineTemplateModel {
    /// A template the generator accepts: a non-empty, bounded logical area
    /// and bounded island rectangles.
    pub open spec fn wf(self) -> bool {
        &&& 1 <= self.size.width <= MAX_MAP_DIMENSION
        &&& 1 <= self.size.height <= MAX_MAP_DIMENSION
        &&& forall|i: int, j: int|
            0 <= i < self.islands.len() && 0 <= j < self.islands[i].len() ==> rect_wf(
                #[trigger] self.islands[i][j],
            )
    }
}

/// Declarative description of a land mass: islands as rectangle lists and
/// flood-fill seed points, over a rectangular logical area.
pub struct OutlineTemplate {
    pub size: Size,
    pub islands: Vec<Vec<Rect>>,
    pub fill_points: Vec<Point>,
}

impl View for OutlineTemplate {
    type V = OutlineTemplateModel;

    open spec fn view(&self) -> OutlineTemplateModel {
        OutlineTemplateModel {
            size: self.size,
            islands: self.islands@.map_values(|island: Vec<Rect>| island@),
            fill_points: self.fill_points@,
        }
    }
}

impl OutlineTemplate {
    /// An empty template over the given logical area.
    pub fn new(size: Size) -> (t: OutlineTemplate)
        ensures
            t@.size == size,
            t@.islands == Seq::<Seq<Rect>>::empty(),
            t@.fill_points == Seq::<Point>::empty(),
    {
        let t = OutlineTemplate { size, islands: Vec::new(), fill_points: Vec::new() };
        proof {
            assert(t@.islands =~= Seq::<Seq<Rect>>::empty());
        }
        t
    }

    /// Runtime check of [`OutlineTemplateModel::wf`], for callers that
    /// receive templates from outside.
    pub fn is_well_formed(&self) -> (b: bool)
        ensures
            b == self@.wf(),
    {
        if !(1 <= self.size.width && self.size.width <= MAX_MAP_DIMENSION && 1 <= self.size.height
            && self.size.height <= MAX_MAP_DIMENSION) {
            return false;
        }
        let mut i: usize = 0;
        while i < self.islands.len()
            invariant
                i <= self.islands.len(),
                forall|a: int, b: int|
                    0 <= a < i && 0 <= b < self@.islands[a].len() ==> rect_wf(
                        #[trigger] self@.islands[a][b],
                    ),
            decreases self.islands.len() - i,
        {
            let island = &self.islands[i];
            let mut j: usize = 0;
            while j < island.len()
                invariant
                    i < self.islands.len(),
                    j <= island.len(),
                    island@ == self@.islands[i as int],
                    forall|a: int, b: int|
                        0 <= a < i && 0 <= b < self@.islands[a].len() ==> rect_wf(
                            #[trigger] self@.islands[a][b],
                        ),
                    forall|b: int| 0 <= b < j ==> rect_wf(#[trigger] self@.islands[i as int][b]),
                decreases island.len() - j,
            {
                let r = island[j];
                if !(r.x <= MAX_RECT_COORD && r.y <= MAX_RECT_COORD && r.width <= MAX_RECT_COORD
                    && r.height <= MAX_RECT_COORD) {
                    return false;
                }
                j += 1;
            }
            i += 1;
        }
        true
    }
}

/// Tunable knobs of one generation run: the code range written into the
/// bitmap, the roughness of the random jitter, and two feature switches
/// (skipping the jitter pass, skipping the fill seed points).
#[derive(Clone, Copy, Debug)]
pub struct LandGenerationParameters<T> {
    pub min_code: T,
    pub max_code: T,
    pub roughness: u32,
    pub skip_jitter: bool,
    pub skip_fill: bool,
}

impl<T: Copy> LandGenerationParameters<T> {
    pub fn new(
        min_code: T,
        max_code: T,
        roughness: u32,
        skip_jitter: bool,
        skip_fill: bool,
    ) -> (p: LandGenerationParameters<T>)
        ensures
            p == (LandGenerationParameters { min_code, max_code, roughness, skip_jitter, skip_fill }),
    {
        LandGenerationParameters { min_code, max_code, roughness, skip_jitter, skip_fill }
    }
}

/// One rectangle after the jitter pass: shifted by two consecutive stream
/// draws, each reduced to `[0, roughness]`; paired with the stream state the
/// draws leave behind.
pub open spec fn spec_jitter_rect(r: Rect, p: PrngModel, roughness: u32, skip_jitter: bool) -> (
    Rect,
    PrngModel,
) {
    if skip_jitter {
        (r, p)
    } else {
        let dx = p.next_val() as int % (roughness as int + 1);
        let p1 = p.stepped();
        let dy = p1.next_val() as int % (roughness as int + 1);
        let p2 = p1.stepped();
        (
            Rect {
                x: (r.x + dx) as u32,
                y: (r.y + dy) as u32,
                width: r.width,
                height: r.height,
            },
            p2,
        )
    }
}

/// Jitter pass over one island's rectangles, front to back.
pub open spec fn spec_jitter_rects(
    rects: Seq<Rect>,
    p: PrngModel,
    roughness: u32,
    skip_jitter: bool,
) -> (Seq<Rect>, PrngModel)
    decreases rects.len(),
{
    if rects.len() == 0 {
        (Seq::<Rect>::empty(), p)
    } else {
        let head = spec_jitter_rect(rects[0], p, roughness, skip_jitter);
        let tail = spec_jitter_rects(rects.drop_first(), head.1, roughness, skip_jitter);
        (seq![head.0] + tail.0, tail.1)
    }
}

/// Jitter pass over all islands, island by island, concatenating the
/// resulting rectangles.
pub open spec fn spec_jitter_islands(
    islands: Seq<Seq<Rect>>,
    p: PrngModel,
    roughness: u32,
    skip_jitter: bool,
) -> (Seq<Rect>, PrngModel)
    decreases islands.len(),
{
    if islands.len() == 0 {
        (Seq::<Rect>::empty(), p)
    } else {
        let head = spec_jitter_rects(islands[0], p, roughness, skip_jitter);
        let tail = spec_jitter_islands(islands.drop_first(), head.1, roughness, skip_jitter);
        (head.0 + tail.0, tail.1)
    }
}

/// Whether the cell lies in one of the jittered island rectangles.
pub open spec fn hits_island_rect(rects: Seq<Rect>, x: int, y: int) -> bool {
    exists|k: int| 0 <= k < rects.len() && #[trigger] rects[k].spec_contains(x, y)
}

/// Whether the cell is one of the fill seed points.
pub open spec fn hits_fill_point(fill_points: Seq<Point>, x: int, y: int) -> bool {
    exists|k: int|
        0 <= k < fill_points.len() && (#[trigger] fill_points[k]).x == x && fill_points[k].y == y
}

/// Whether the generated bitmap marks the cell as land.
pub open spec fn spec_cell_is_land(
    rects: Seq<Rect>,
    fill_points: Seq<Point>,
    skip_fill: bool,
    x: int,
    y: int,
) -> bool {
    hits_island_rect(rects, x, y) || (!skip_fill && hits_fill_point(fill_points, x, y))
}

/// The generated cell codes, row-major: the maximum code on land cells, the
/// minimum code elsewhere.
pub open spec fn spec_cells<T>(
    rects: Seq<Rect>,
    fill_points: Seq<Point>,
    parameters: LandGenerationParameters<T>,
    width: int,
    height: int,
) -> Seq<T> {
    Seq::new(
        (width * height) as nat,
        |idx: int|
            if spec_cell_is_land(rects, fill_points, parameters.skip_fill, idx % width, idx / width) {
                parameters.max_code
            } else {
                parameters.min_code
            },
    )
}

/// The full generation run: the bitmap produced from a template, parameters
/// and stream state, together with the stream state it leaves behind.
pub open spec fn spec_generate_land<T>(
    t: OutlineTemplateModel,
    parameters: LandGenerationParameters<T>,
    p: PrngModel,
) -> (LandModel<T>, PrngModel) {
    let jit = spec_jitter_islands(t.islands, p, parameters.roughness, parameters.skip_jitter);
    (
        LandModel {
            width: t.size.width as int,
            height: t.size.height as int,
            cells: spec_cells(
                jit.0,
                t.fill_points,
                parameters,
                t.size.width as int,
                t.size.height as int,
            ),
        },
        jit.1,
    )
}

/// Unrolls the jitter pass by one rectangle appended at the back.
pub proof fn lemma_jitter_rects_push(rects: Seq<Rect>, r: Rect, p: PrngModel, roughness: u32, skip_jitter: bool)
    ensures
        spec_jitter_rects(rects.push(r), p, roughness, skip_jitter).0 == spec_jitter_rects(
            rects,
            p,
            roughness,
            skip_jitter,
        ).0.push(
            spec_jitter_rect(
                r,
                spec_jitter_rects(rects, p, roughness, skip_jitter).1,
                roughness,
                skip_jitter,
            ).0,
        ),
        spec_jitter_rects(rects.push(r), p, roughness, skip_jitter).1 == spec_jitter_rect(
            r,
            spec_jitter_rects(rects, p, roughness, skip_jitter).1,
            roughness,
            skip_jitter,
        ).1,
    decreases rects.len(),
{
    if rects.len() == 0 {
        let head = spec_jitter_rect(r, p, roughness, skip_jitter);
        let empty = Seq::<Rect>::empty();
        assert(rects.push(r)[0] == r);
        assert(rects.push(r).drop_first() =~= empty);
        assert(spec_jitter_rects(empty, head.1, roughness, skip_jitter) == (empty, head.1));
        assert(spec_jitter_rects(rects, p, roughness, skip_jitter) == (empty, p));
        assert(spec_jitter_rects(rects.push(r), p, roughness, skip_jitter).0 == seq![head.0]
            + empty);
        assert(spec_jitter_rects(rects.push(r), p, roughness, skip_jitter).1 == head.1);
        assert(seq![head.0] + empty =~= empty.push(head.0));
    } else {
        let head = spec_jitter_rect(rects[0], p, roughness, skip_jitter);
        let rest = rects.drop_first();
        assert(rects.push(r)[0] == rects[0]);
        assert(rects.push(r).drop_first() =~= rest.push(r));
        lemma_jitter_rects_push(rest, r, head.1, roughness, skip_jitter);
        let tail = spec_jitter_rects(rest, head.1, roughness, skip_jitter);
        let last = spec_jitter_rect(r, tail.1, roughness, skip_jitter);
        assert(spec_jitter_rects(rects.push(r), p, roughness, skip_jitter).0 == seq![head.0]
            + spec_jitter_rects(rest.push(r), head.1, roughness, skip_jitter).0);
        assert(spec_jitter_rects(rects.push(r), p, roughness, skip_jitter).1 == spec_jitter_rects(
            rest.push(r),
            head.1,
            roughness,
            skip_jitter,
        ).1);
        assert(spec_jitter_rects(rects, p, roughness, skip_jitter).0 == seq![head.0] + tail.0);
        assert(spec_jitter_rects(rects, p, roughness, skip_jitter).1 == tail.1);
        assert(seq![head.0] + tail.0.push(last.0) =~= (seq![head.0] + tail.0).push(last.0));
    }
}

/// Unrolls the jitter pass by one island appended at the back.
pub proof fn lemma_jitter_islands_push(
    islands: Seq<Seq<Rect>>,
    island: Seq<Rect>,
    p: PrngModel,
    roughness: u32,
    skip_jitter: bool,
)
    ensures
        spec_jitter_islands(islands.push(island), p, roughness, skip_jitter).0
            == spec_jitter_islands(islands, p, roughness, skip_jitter).0 + spec_jitter_rects(
            island,
            spec_jitter_islands(islands, p, roughness, skip_jitter).1,
            roughness,
            skip_jitter,
        ).0,
        spec_jitter_islands(islands.push(island), p, roughness, skip_jitter).1 == spec_jitter_rects(
            island,
            spec_jitter_islands(islands, p, roughness, skip_jitter).1,
            roughness,
            skip_jitter,
        ).1,
    decreases islands.len(),
{
    if islands.len() == 0 {
        let last = spec_jitter_rects(island, p, roughness, skip_jitter);
        let empty = Seq::<Seq<Rect>>::empty();
        assert(islands.push(island)[0] == island);
        assert(islands.push(island).drop_first() =~= empty);
        assert(spec_jitter_islands(empty, last.1, roughness, skip_jitter) == (
            Seq::<Rect>::empty(),
            last.1,
        ));
        assert(spec_jitter_islands(islands, p, roughness, skip_jitter) == (
            Seq::<Rect>::empty(),
            p,
        ));
        assert(spec_jitter_islands(islands.push(island), p, roughness, skip_jitter).0 == last.0
            + Seq::<Rect>::empty());
        assert(spec_jitter_islands(islands.push(island), p, roughness, skip_jitter).1 == last.1);
        assert(last.0 + Seq::<Rect>::empty() =~= last.0);
        assert(Seq::<Rect>::empty() + last.0 =~= last.0);
    } else {
        let head = spec_jitter_rects(islands[0], p, roughness, skip_jitter);
        let rest = islands.drop_first();
        assert(islands.push(island)[0] == islands[0]);
        assert(islands.push(island).drop_first() =~= rest.push(island));
        lemma_jitter_islands_push(rest, island, head.1, roughness, skip_jitter);
        let tail = spec_jitter_islands(rest, head.1, roughness, skip_jitter);
        let last = spec_jitter_rects(island, tail.1, roughness, skip_jitter);
        assert(spec_jitter_islands(islands.push(island), p, roughness, skip_jitter).0 == head.0
            + spec_jitter_islands(rest.push(island), head.1, roughness, skip_jitter).0);
        assert(spec_jitter_islands(islands.push(island), p, roughness, skip_jitter).1
            == spec_jitter_islands(rest.push(island), head.1, roughness, skip_jitter).1);
        assert(spec_jitter_islands(islands, p, roughness, skip_jitter).0 == head.0 + tail.0);
        assert(spec_jitter_islands(islands, p, roughness, skip_jitter).1 == tail.1);
        assert(head.0 + (tail.0 + last.0) =~= (head.0 + tail.0) + last.0);
    }
}

/// Jitter one template rectangle, consuming two stream draws unless the
/// jitter pass is switched off.
fn jitter_rect(r: Rect, random_numbers: &mut LaggedFibonacciPrng, roughness: u32, skip_jitter: bool) -> (jr: Rect)
    requires
        old(random_numbers)@.wf(),
        rect_wf(r),
        roughness <= MAX_ROUGHNESS,
    ensures
        jr == spec_jitter_rect(r, old(random_numbers)@, roughness, skip_jitter).0,
        final(random_numbers)@ == spec_jitter_rect(r, old(random_numbers)@, roughness, skip_jitter).1,
        final(random_numbers)@.wf(),
{
    if skip_jitter {
        r
    } else {
        let dx = random_numbers.get_random(roughness + 1);
        let dy = random_numbers.get_random(roughness + 1);
        Rect { x: r.x + dx, y: r.y + dy, width: r.width, height: r.height }
    }
}

/// Linear scan deciding [`hits_island_rect`].
fn rect_hit(rects: &Vec<Rect>, x: u32, y: u32) -> (b: bool)
    ensures
        b == hits_island_rect(rects@, x as int, y as int),
{
    let mut k: usize = 0;
    while k < rects.len()
        invariant
            k <= rects@.len(),
            forall|t: int| 0 <= t < k ==> !(#[trigger] rects@[t].spec_contains(x as int, y as int)),
        decreases rects@.len() - k,
    {
        if rects[k].contains(x, y) {
            return true;
        }
        k += 1;
    }
    false
}

/// Linear scan deciding [`hits_fill_point`].
fn fill_hit(fill_points: &Vec<Point>, x: u32, y: u32) -> (b: bool)
    ensures
        b == hits_fill_point(fill_points@, x as int, y as int),
{
    let mut k: usize = 0;
    while k < fill_points.len()
        invariant
            k <= fill_points@.len(),
            forall|t: int|
                0 <= t < k ==> !((#[trigger] fill_points@[t]).x == x as int && fill_points@[t].y
                    == y as int),
        decreases fill_points@.len() - k,
    {
        let fp = fill_points[k];
        if fp.x == x && fp.y == y {
            return true;
        }
        k += 1;
    }
    false
}

/// The land generator bound to one outline template.
pub struct TemplatedLandGenerator {
    pub template: OutlineTemplate,
}

impl TemplatedLandGenerator {
    pub fn new(template: OutlineTemplate) -> (g: TemplatedLandGenerator)
        ensures
            g.template@ == template@,
    {
        TemplatedLandGenerator { template }
    }

    /// Generate a terrain bitmap from the bound template, the parameters and
    /// the current stream state. Result and successor stream state are
    /// exactly [`spec_generate_land`] of the inputs, so generation is
    /// deterministic; every produced code is the minimum or the maximum code
    /// of the parameters, and the bitmap has the template's dimensions.
    pub fn generate_land<T: Copy>(
        &self,
        parameters: &LandGenerationParameters<T>,
        random_numbers: &mut LaggedFibonacciPrng,
    ) -> (land: Land<T>)
        requires
            self.template@.wf(),
            parameters.roughness <= MAX_ROUGHNESS,
            old(random_numbers)@.wf(),
        ensures
            land@ == spec_generate_land(self.template@, *parameters, old(random_numbers)@).0,
            final(random_numbers)@ == spec_generate_land(
                self.template@,
                *parameters,
                old(random_numbers)@,
            ).1,
            final(random_numbers)@.wf(),
            land@.wf(),
            land@.width == self.template@.size.width,
            land@.height == self.template@.size.height,
            forall|k: int|
                0 <= k < land@.cells.len() ==> #[trigger] land@.cells[k] == parameters.min_code
                    || land@.cells[k] == parameters.max_code,
    {
        let ghost t = self.template@;
        let ghost p0 = random_numbers@;
        let roughness = parameters.roughness;
        let skip_jitter = parameters.skip_jitter;

        let mut jrects: Vec<Rect> = Vec::new();
        let mut i: usize = 0;
        proof {
            assert(t.islands.take(0) =~= Seq::<Seq<Rect>>::empty());
        }
        while i < self.template.islands.len()
            invariant
                t == self.template@,
                t.wf(),
                p0.wf(),
                roughness == parameters.roughness,
                skip_jitter == parameters.skip_jitter,
                roughness <= MAX_ROUGHNESS,
                i <= self.template.islands.len(),
                jrects@ == spec_jitter_islands(t.islands.take(i as int), p0, roughness, skip_jitter).0,
                random_numbers@ == spec_jitter_islands(
                    t.islands.take(i as int),
                    p0,
                    roughness,
                    skip_jitter,
                ).1,
                random_numbers@.wf(),
            decreases self.template.islands.len() - i,
        {
            let island: &Vec<Rect> = &self.template.islands[i];
            let ghost outer = spec_jitter_islands(t.islands.take(i as int), p0, roughness, skip_jitter);
            let ghost jrects_before = jrects@;
            let mut j: usize = 0;
            proof {
                assert(island@.take(0) =~= Seq::<Rect>::empty());
            }
            while j < island.len()
                invariant
                    t == self.template@,
                    t.wf(),
                    roughness == parameters.roughness,
                    skip_jitter == parameters.skip_jitter,
                    roughness <= MAX_ROUGHNESS,
                    i < self.template.islands.len(),
                    island@ == t.islands[i as int],
                    j <= island.len(),
                    jrects_before == outer.0,
                    jrects@ == outer.0 + spec_jitter_rects(
                        island@.take(j as int),
                        outer.1,
                        roughness,
                        skip_jitter,
                    ).0,
                    random_numbers@ == spec_jitter_rects(
                        island@.take(j as int),
                        outer.1,
                        roughness,
                        skip_jitter,
                    ).1,
                    random_numbers@.wf(),
                decreases island.len() - j,
            {
                let r = island[j];
                proof {
                    assert(rect_wf(t.islands[i as int][j as int]));
                    assert(island@.take(j as int + 1) =~= island@.take(j as int).push(island@[j as int]));
                    lemma_jitter_rects_push(
                        island@.take(j as int),
                        island@[j as int],
                        outer.1,
                        roughness,
                        skip_jitter,
                    );
                }
                let jr = jitter_rect(r, random_numbers, roughness, skip_jitter);
                jrects.push(jr);
                j += 1;
            }
            proof {
                assert(island@.take(island@.len() as int) =~= island@);
                assert(t.islands.take(i as int + 1) =~= t.islands.take(i as int).push(
                    t.islands[i as int],
                ));
                lemma_jitter_islands_push(
                    t.islands.take(i as int),
                    t.islands[i as int],
                    p0,
                    roughness,
                    skip_jitter,
                );
            }
            i += 1;
        }
        proof {
            assert(t.islands.take(t.islands.len() as int) =~= t.islands);
        }
        let ghost jit = spec_jitter_islands(t.islands, p0, roughness, skip_jitter);

        let width: usize = self.template.size.width as usize;
        let height: usize = self.template.size.height as usize;
        proof {
            assert(width * height <= 0x4000_0000) by (nonlinear_arith)
                requires
                    width <= 0x8000,
                    height <= 0x8000,
            ;
        }
        let total: usize = width * height;
        let ghost expected = spec_cells(
            jrects@,
            t.fill_points,
            *parameters,
            width as int,
            height as int,
        );
        let mut cells: Vec<T> = Vec::new();
        let mut idx: usize = 0;
        while idx < total
            invariant
                t == self.template@,
                t.wf(),
                width == t.size.width,
                height == t.size.height,
                total == width * height,
                expected == spec_cells(jrects@, t.fill_points, *parameters, width as int, height as int),
                expected.len() == total,
                cells@.len() == idx,
                idx <= total,
                forall|k: int| 0 <= k < idx ==> cells@[k] == expected[k],
            decreases total - idx,
        {
            let x: usize = idx % width;
            let y: usize = idx / width;
            proof {
                assert(idx / width < height) by (nonlinear_arith)
                    requires
                        0 < width,
                        idx < width * height,
                ;
            }
            let land_cell = rect_hit(&jrects, x as u32, y as u32) || (!parameters.skip_fill
                && fill_hit(&self.template.fill_points, x as u32, y as u32));
            if land_cell {
                cells.push(parameters.max_code);
            } else {
                cells.push(parameters.min_code);
            }
            proof {
                assert(cells@[idx as int] == expected[idx as int]);
            }
            idx += 1;
        }
        proof {
            assert(cells@ =~= expected);
        }
        let land = Land { width, height, cells };
        proof {
            assert(land@.cells =~= spec_generate_land(t, *parameters, p0).0.cells);
            assert(forall|k: int|
                0 <= k < land@.cells.len() ==> #[trigger] land@.cells[k] == parameters.min_code
                    || land@.cells[k] == parameters.max_code) by {
                assert(forall|k: int| 0 <= k < expected.len() ==> #[trigger] expected[k]
                    == parameters.min_code || expected[k] == parameters.max_code);
            }
        }
        land
    }
}

} // verus!
