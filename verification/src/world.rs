//! The orchestration core: a [`World`] owns the deterministic random stream,
//! an optional preview terrain, an optional committed game state and the
//! renderer handle, and sequences them through the simulation lifecycle.
//!
//! Every method's contract pins the successor state exactly, as a pure
//! function of the prior state and the arguments ([`WorldModel`]); the
//! reproducibility guarantees of the whole core are proved from those
//! contracts by the lemmas at the end of this module.

use vstd::prelude::*;

use crate::geometry::Point;
use crate::geometry::Rect;
use crate::geometry::Size;
use crate::land::Land;
use crate::land::LandModel;
use crate::land::view_opt_land;
use crate::landgen::LandGenerationParameters;
use crate::landgen::OutlineTemplate;
use crate::landgen::OutlineTemplateModel;
use crate::landgen::TemplatedLandGenerator;
use crate::landgen::spec_generate_land;
use crate::physics::FPNum;
use crate::physics::FP_ONE;
use crate::physics::PhysicsWorld;
use crate::prng::LaggedFibonacciPrng;
use crate::prng::PrngModel;
use crate::render::MapGenerator;
use crate::render::MapRenderer;
use crate::render::RendererModel;
use crate::render::Theme;
use crate::render::spec_texture;

verus! {

/// Logical width of the hard-coded preview template's area.
pub const PREVIEW_WIDTH: u32 = 4096;

/// Logical height of the hard-coded preview template's area.
pub const PREVIEW_HEIGHT: u32 = 2048;

/// Roughness parameter of every generation run this core issues.
pub const GENERATION_ROUGHNESS: u32 = 5;

/// Extent of the drawing surface the renderer starts with.
pub const RENDERER_WIDTH: u32 = 512;

/// Extent of the drawing surface the renderer starts with.
pub const RENDERER_HEIGHT: u32 = 512;

/// The fixed island arrangement preview generation always uses: two tall
/// side pillars over a wide logical area, anchored by two single-cell feet
/// below the lower edge, with one fill seed point near the origin.
pub open spec fn preview_template_model() -> OutlineTemplateModel {
    OutlineTemplateModel {
        size: Size { width: PREVIEW_WIDTH, height: PREVIEW_HEIGHT },
        islands: seq![
            seq![
                Rect { x: 100, y: 2050, width: 1, height: 1 },
                Rect { x: 100, y: 500, width: 400, height: 1200 },
                Rect { x: 3600, y: 500, width: 400, height: 1200 },
                Rect { x: 3900, y: 2050, width: 1, height: 1 },
            ],
        ],
        fill_points: seq![Point { x: 1, y: 0 }],
    }
}

/// The fixed generation parameters of preview runs: the full 8-bit code
/// range, the standard roughness, both feature switches off.
pub open spec fn preview_parameters() -> LandGenerationParameters<u8> {
    LandGenerationParameters {
        min_code: 0u8,
        max_code: u8::MAX,
        roughness: GENERATION_ROUGHNESS,
        skip_jitter: false,
        skip_fill: false,
    }
}

/// The fixed generation parameters of full-terrain runs: the full 32-bit
/// code range, the standard roughness, both feature switches off.
pub open spec fn game_parameters() -> LandGenerationParameters<u32> {
    LandGenerationParameters {
        min_code: 0u32,
        max_code: u32::MAX,
        roughness: GENERATION_ROUGHNESS,
        skip_jitter: false,
        skip_fill: false,
    }
}

/// Build the hard-coded preview template.
pub fn preview_template() -> (t: OutlineTemplate)
    ensures
        t@ == preview_template_model(),
        t@.wf(),
{
    let mut island: Vec<Rect> = Vec::new();
    island.push(Rect::from_size_coords(100, 2050, 1, 1));
    island.push(Rect::from_size_coords(100, 500, 400, 1200));
    island.push(Rect::from_size_coords(3600, 500, 400, 1200));
    island.push(Rect::from_size_coords(3900, 2050, 1, 1));
    proof {
        assert(island@ =~= preview_template_model().islands[0]);
    }
    let mut islands: Vec<Vec<Rect>> = Vec::new();
    islands.push(island);
    let mut fill_points: Vec<Point> = Vec::new();
    fill_points.push(Point::new(1, 0));
    let template = OutlineTemplate {
        size: Size { width: PREVIEW_WIDTH, height: PREVIEW_HEIGHT },
        islands,
        fill_points,
    };
    proof {
        assert(template@.islands =~= preview_template_model().islands);
        assert(template@.fill_points =~= preview_template_model().fill_points);
        assert(template@ == preview_template_model());
        assert(template@.wf());
    }
    template
}

/// The committed pair of terrain and physics world: created together,
/// replaced together, never separately.
pub struct GameState {
    pub land: Land<u32>,
    pub physics: PhysicsWorld,
}

/// Mathematical value of a committed game state.
pub struct GameStateModel {
    pub land: LandModel<u32>,
    pub physics: PhysicsWorld,
}

impl View for GameState {
    type V = GameStateModel;

    open spec fn view(&self) -> GameStateModel {
        GameStateModel { land: self.land@, physics: self.physics }
    }
}

impl GameStateModel {
    /// Terrain and physics world are consistent: the physics world is sized
    /// to the terrain it steps against.
    pub open spec fn wf(self) -> bool {
        &&& self.land.wf()
        &&& self.land.width == self.physics.size.width
        &&& self.land.height == self.physics.size.height
    }

    /// State after one physics tick of one whole time unit.
    pub open spec fn stepped(self) -> GameStateModel {
        GameStateModel {
            land: self.land,
            physics: self.physics.spec_stepped(FPNum { raw: FP_ONE }),
        }
    }
}

impl GameState {
    fn new(land: Land<u32>, physics: PhysicsWorld) -> (g: GameState)
        ensures
            g@ == (GameStateModel { land: land@, physics }),
    {
        GameState { land, physics }
    }
}

/// Mathematical value of a whole world; every lifecycle operation is a pure
/// function on this model.
pub struct WorldModel {
    pub rng: PrngModel,
    pub preview: Option<LandModel<u8>>,
    pub game: Option<GameStateModel>,
    pub renderer: RendererModel,
}

impl WorldModel {
    pub open spec fn wf(self) -> bool {
        &&& self.rng.wf()
        &&& match self.preview {
            Some(p) => p.wf(),
            None => true,
        }
        &&& match self.game {
            Some(g) => g.wf(),
            None => true,
        }
        &&& self.renderer.wf()
    }

    /// The state every fresh world starts in: a stream seeded from the empty
    /// buffer, no preview, no game state, a bare renderer.
    pub open spec fn initial() -> WorldModel {
        WorldModel {
            rng: PrngModel::from_seed(Seq::<u8>::empty()),
            preview: None,
            game: None,
            renderer: RendererModel {
                width: RENDERER_WIDTH,
                height: RENDERER_HEIGHT,
                texture: None,
                last_viewport: None,
            },
        }
    }

    /// State after reseeding: the stream is replaced wholesale by the one
    /// the seed determines; nothing else moves.
    pub open spec fn with_seed(self, seed: Seq<u8>) -> WorldModel {
        WorldModel { rng: PrngModel::from_seed(seed), ..self }
    }

    /// State after one preview generation run.
    pub open spec fn preview_generated(self) -> WorldModel {
        let gen = spec_generate_land(preview_template_model(), preview_parameters(), self.rng);
        WorldModel { rng: gen.1, preview: Some(gen.0), ..self }
    }

    /// State after `n` preview generation runs.
    pub open spec fn preview_generated_n(self, n: nat) -> WorldModel
        decreases n,
    {
        if n == 0 {
            self
        } else {
            self.preview_generated_n((n - 1) as nat).preview_generated()
        }
    }

    /// State after discarding the preview slot.
    pub open spec fn preview_disposed(self) -> WorldModel {
        WorldModel { preview: None, ..self }
    }

    /// State after full initialization: terrain generated from the template,
    /// a fresh physics world sized to the template, the derived texture
    /// committed to the renderer, and both halves of the game state replaced
    /// atomically. The preview slot is untouched.
    pub open spec fn initialized(self, t: OutlineTemplateModel, theme: Theme) -> WorldModel {
        let gen = spec_generate_land(t, game_parameters(), self.rng);
        WorldModel {
            rng: gen.1,
            preview: self.preview,
            game: Some(
                GameStateModel {
                    land: gen.0,
                    physics: PhysicsWorld { size: t.size, elapsed: FPNum { raw: 0 } },
                },
            ),
            renderer: RendererModel { texture: Some(spec_texture(gen.0, theme)), ..self.renderer },
        }
    }

    /// State after one simulation tick: a no-op without game state.
    pub open spec fn stepped(self) -> WorldModel {
        match self.game {
            Some(g) => WorldModel { game: Some(g.stepped()), ..self },
            None => self,
        }
    }

    /// State after `n` simulation ticks.
    pub open spec fn stepped_n(self, n: nat) -> WorldModel
        decreases n,
    {
        if n == 0 {
            self
        } else {
            self.stepped_n((n - 1) as nat).stepped()
        }
    }

    /// State after a render request for a viewport.
    pub open spec fn rendered(self, viewport: Rect) -> WorldModel {
        WorldModel {
            renderer: RendererModel { last_viewport: Some(viewport), ..self.renderer },
            ..self
        }
    }
}

/// The world: the singleton orchestration state of one simulation instance.
pub struct World {
    pub random_numbers_gen: LaggedFibonacciPrng,
    pub preview: Option<Land<u8>>,
    pub game_state: Option<GameState>,
    pub renderer: MapRenderer,
}

impl View for World {
    type V = WorldModel;

    open spec fn view(&self) -> WorldModel {
        WorldModel {
            rng: self.random_numbers_gen@,
            preview: view_opt_land(self.preview),
            game: match self.game_state {
                Some(ref g) => Some(g@),
                None => None,
            },
            renderer: self.renderer@,
        }
    }
}

impl World {
    /// A fresh world: stream seeded from an empty buffer (a defined default,
    /// identical across fresh worlds), no preview, no game state.
    pub fn new() -> (w: World)
        ensures
            w@ == WorldModel::initial(),
            w@.wf(),
    {
        let seed: Vec<u8> = Vec::new();
        let w = World {
            random_numbers_gen: LaggedFibonacciPrng::new(seed.as_slice()),
            preview: None,
            game_state: None,
            renderer: MapRenderer::new(RENDERER_WIDTH, RENDERER_HEIGHT),
        };
        proof {
            assert(seed@ =~= Seq::<u8>::empty());
        }
        w
    }

    /// Replace the random stream wholesale with one built purely from
    /// `seed`. No partial reseeding: the prior stream state is discarded.
    pub fn set_seed(&mut self, seed: &[u8])
        ensures
            final(self)@ == old(self)@.with_seed(seed@),
            final(self)@.rng.wf(),
            old(self)@.wf() ==> final(self)@.wf(),
    {
        self.random_numbers_gen = LaggedFibonacciPrng::new(seed);
    }

    /// Read-only access to the preview slot.
    pub fn preview(&self) -> (p: &Option<Land<u8>>)
        ensures
            view_opt_land(*p) == self@.preview,
    {
        &self.preview
    }

    /// Generate a preview terrain from the hard-coded template and
    /// parameters, consuming stream output, and store it, overwriting any
    /// existing preview. The game state is untouched.
    pub fn generate_preview(&mut self)
        requires
            old(self)@.wf(),
        ensures
            final(self)@ == old(self)@.preview_generated(),
            final(self)@.wf(),
            final(self)@.preview is Some,
            final(self)@.game == old(self)@.game,
    {
        let params = LandGenerationParameters::new(
            0u8,
            u8::MAX,
            GENERATION_ROUGHNESS,
            false,
            false,
        );
        let landgen = TemplatedLandGenerator::new(preview_template());
        let land = landgen.generate_land(&params, &mut self.random_numbers_gen);
        self.preview = Some(land);
    }

    /// Discard the preview slot; safe to call with no preview present.
    pub fn dispose_preview(&mut self)
        ensures
            final(self)@ == old(self)@.preview_disposed(),
            final(self)@.preview is None,
            old(self)@.wf() ==> final(self)@.wf(),
    {
        self.preview = None
    }

    /// Produce a playable world from a template and a loaded theme: size a
    /// fresh physics world to the template, generate the full-resolution
    /// terrain from the current stream, derive the texture, commit it to the
    /// renderer, and replace the game state with the new terrain/physics
    /// pair. The preview slot is untouched.
    pub fn init(&mut self, template: OutlineTemplate, theme: Theme)
        requires
            old(self)@.wf(),
            template@.wf(),
        ensures
            final(self)@ == old(self)@.initialized(template@, theme),
            final(self)@.wf(),
            final(self)@.game is Some,
            final(self)@.preview == old(self)@.preview,
    {
        let physics = PhysicsWorld::new(template.size);
        let params = LandGenerationParameters::new(
            0u32,
            u32::MAX,
            GENERATION_ROUGHNESS,
            false,
            false,
        );
        let landgen = TemplatedLandGenerator::new(template);
        let land = landgen.generate_land(&params, &mut self.random_numbers_gen);
        let texture = MapGenerator::new().make_texture32(&land, &theme);
        self.renderer.init(texture);
        self.game_state = Some(GameState::new(land, physics));
    }

    /// Delegate drawing of a viewport rectangle to the renderer. Always
    /// executes, with or without game state; the core's stream, preview and
    /// game state are untouched.
    pub fn render(&mut self, x: u32, y: u32, width: u32, height: u32)
        ensures
            final(self)@ == old(self)@.rendered(Rect { x, y, width, height }),
            old(self)@.wf() ==> final(self)@.wf(),
    {
        let viewport = Rect::from_size_coords(x, y, width, height);
        self.renderer.render(viewport);
    }

    /// Advance the physics world by one whole fixed-point time unit against
    /// the committed terrain; a well-defined no-op without game state.
    pub fn step(&mut self)
        requires
            old(self)@.wf(),
        ensures
            final(self)@ == old(self)@.stepped(),
            final(self)@.wf(),
    {
        match &mut self.game_state {
            Some(state) => {
                let dt = FPNum::from_units(1);
                state.physics.step(dt, &state.land);
            },
            None => {},
        }
    }
}

/// Stepping propagates equal game states: auxiliary induction for the
/// determinism law.
proof fn lemma_stepped_n_same_game(a: WorldModel, b: WorldModel, n: nat)
    requires
        a.game == b.game,
    ensures
        a.stepped_n(n).game == b.stepped_n(n).game,
    decreases n,
{
    if n > 0 {
        lemma_stepped_n_same_game(a, b, (n - 1) as nat);
    }
}

/// Determinism: whatever their prior histories, two worlds given the same
/// seed and then initialized with the same template and theme hold identical
/// game states — bit-identical terrain bitmaps and identical physics
/// trajectories over any number of steps. In particular this holds for two
/// fresh worlds.
pub proof fn lemma_seeded_init_deterministic(
    w1: WorldModel,
    w2: WorldModel,
    seed: Seq<u8>,
    t: OutlineTemplateModel,
    theme: Theme,
    n: nat,
)
    ensures
        w1.with_seed(seed).initialized(t, theme).stepped_n(n).game == w2.with_seed(
            seed,
        ).initialized(t, theme).stepped_n(n).game,
{
    let a = w1.with_seed(seed).initialized(t, theme);
    let b = w2.with_seed(seed).initialized(t, theme);
    assert(a.game == b.game);
    lemma_stepped_n_same_game(a, b, n);
}

/// Seed isolation: reseeding with one seed and then another leaves exactly
/// the state a single reseeding with the second seed produces; no residue of
/// the first seed remains.
pub proof fn lemma_seed_isolation(w: WorldModel, seed1: Seq<u8>, seed2: Seq<u8>)
    ensures
        w.with_seed(seed1).with_seed(seed2) == w.with_seed(seed2),
{
}

/// Preview/game independence: preview generation, repeated any number of
/// times, never alters the committed game state, and initialization never
/// alters the preview slot.
pub proof fn lemma_preview_game_independence(
    w: WorldModel,
    n: nat,
    t: OutlineTemplateModel,
    theme: Theme,
)
    ensures
        w.preview_generated_n(n).game == w.game,
        w.initialized(t, theme).preview == w.preview,
    decreases n,
{
    if n > 0 {
        lemma_preview_game_independence(w, (n - 1) as nat, t, theme);
    }
}

/// Idempotent disposal: disposing the preview twice leaves the world in
/// exactly the state one disposal produces.
pub proof fn lemma_dispose_idempotent(w: WorldModel)
    ensures
        w.preview_disposed().preview_disposed() == w.preview_disposed(),
{
}

/// Stepping a world that has no game state — a fresh one in particular — is
/// a well-defined no-op.
pub proof fn lemma_step_without_game_noop(w: WorldModel)
    requires
        w.game is None,
    ensures
        w.stepped() == w,
{
}

/// Rendering touches only the renderer's viewport record: stream, preview
/// and game state are untouched, whether or not a game state exists.
pub proof fn lemma_render_preserves_state(w: WorldModel, viewport: Rect)
    ensures
        w.rendered(viewport).rng == w.rng,
        w.rendered(viewport).preview == w.preview,
        w.rendered(viewport).game == w.game,
{
}

} // verus!
