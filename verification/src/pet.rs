//! The cat: which animation it plays and which frame of it is shown.
//!
//! Where the cat stands on screen, and which way it heads, is worked out by the
//! caller from the target it chases; this module decides, from that, the pose: a
//! walking direction, scratching a wall it leans against, or settling down
//! (alert, then washing, then tired, then asleep) once it has arrived.

use vstd::prelude::*;
use crate::clips::{ClipTable, MappingError, clip_json, pairs_map, read_or_default_map};
use crate::text::str_eq;
use crate::geometry::Edges;

verus! {

/// Pitch of the sprite-sheet grid in pixels: a 32-pixel tile and a 1-pixel gap.
pub const GRID_STRIDE: i32 = 33;

/// Side of a tile in pixels.
pub const TILE: i32 = 32;

/// The cells a clip plays: its own where it has some, else those of `idle` (for any
/// other clip), else the single cell `(0, 0)`.
pub open spec fn frames_of(m: Map<Seq<char>, Seq<(i32, i32)>>, clip: Seq<char>) -> Seq<(i32, i32)> {
    if m.contains_key(clip) && m[clip].len() > 0 {
        m[clip]
    } else if clip != "idle"@ && m.contains_key("idle"@) && m["idle"@].len() > 0 {
        m["idle"@]
    } else {
        seq![(0i32, 0i32)]
    }
}

/// The sprite set of a skin: each named clip is a list of cells `(col, row)` of the
/// sheet.
#[derive(Clone)]
pub struct Sprites {
    clips: ClipTable,
}

impl View for Sprites {
    type V = Map<Seq<char>, Seq<(i32, i32)>>;

    closed spec fn view(&self) -> Map<Seq<char>, Seq<(i32, i32)>> {
        self.clips@
    }
}

impl Sprites {
    /// Well-formed: the clip table is.
    pub closed spec fn wf(&self) -> bool {
        self.clips.wf()
    }

    /// The sprite set that a clip table holds.
    pub fn from_table(clips: ClipTable) -> (s: Sprites)
        requires
            clips.wf(),
        ensures
            s.wf(),
            s@ == clips@,
    {
        Sprites { clips }
    }

    /// Reads a sprite set from its JSON mapping `{ "clip": [[col, row], ...] }`.
    pub fn from_json(json: &str) -> (r: Result<Sprites, MappingError>)
        ensures
            r is Ok <==> clip_json(json@) is Some,
            r matches Ok(s) ==> s.wf() && s@ == pairs_map(clip_json(json@)->0),
    {
        match ClipTable::from_json(json) {
            Ok(t) => Ok(Sprites { clips: t }),
            Err(e) => Err(e),
        }
    }

    /// The sprite set that `text` holds; where there is no text, or it is not a
    /// mapping, the one that `fallback` holds (the default mapping); an empty set
    /// where neither is one.
    pub fn read_or_default(text: Option<&str>, fallback: &str) -> (s: Sprites)
        ensures
            s.wf(),
            s@ == read_or_default_map(
                match text {
                    Some(t) => Some(t@),
                    None => None,
                },
                fallback@,
            ),
    {
        Sprites { clips: ClipTable::read_or_default(text, fallback) }
    }

    /// The frames of a clip: its own where it has any, else those of `idle` (for any
    /// other clip), else the single tile `(0, 0)`.
    pub fn frames(&self, clip: &str) -> (f: &[(i32, i32)])
        requires
            self.wf(),
        ensures
            f@ == frames_of(self@, clip@),
    {
        proof {
            reveal_strlit("idle");
        }
        if let Some(v) = self.clips.get(clip) {
            if v.len() > 0 {
                return v.as_slice();
            }
        }
        if !str_eq(clip, "idle") {
            if let Some(v) = self.clips.get("idle") {
                if v.len() > 0 {
                    return v.as_slice();
                }
            }
        }
        let origin: &[(i32, i32)] = &[(0, 0)];
        assert(origin@ =~= seq![(0i32, 0i32)]);
        origin
    }
}

impl Default for Sprites {
    /// The sprite set with no clip: every clip shows the sheet's first tile. The
    /// default mapping of a skin is read by `read_or_default`, from its text.
    fn default() -> (s: Sprites)
        ensures
            s.wf(),
            s@ == Map::<Seq<char>, Seq<(i32, i32)>>::empty(),
    {
        Sprites { clips: ClipTable::new() }
    }
}

/// The animations of the cat, by the names its sprite mappings use.
#[derive(PartialEq, Eq, Structural, Clone, Copy, Debug)]
pub enum Clip {
    Idle,
    Alert,
    Tired,
    Sleeping,
    ScratchSelf,
    ScratchWallN,
    ScratchWallS,
    ScratchWallW,
    ScratchWallE,
    N,
    NE,
    E,
    SE,
    S,
    SW,
    W,
    NW,
}

/// The name under which a clip is stored in a mapping.
pub open spec fn clip_name(c: Clip) -> Seq<char> {
    match c {
        Clip::Idle => "idle"@,
        Clip::Alert => "alert"@,
        Clip::Tired => "tired"@,
        Clip::Sleeping => "sleeping"@,
        Clip::ScratchSelf => "scratchSelf"@,
        Clip::ScratchWallN => "scratchWallN"@,
        Clip::ScratchWallS => "scratchWallS"@,
        Clip::ScratchWallW => "scratchWallW"@,
        Clip::ScratchWallE => "scratchWallE"@,
        Clip::N => "N"@,
        Clip::NE => "NE"@,
        Clip::E => "E"@,
        Clip::SE => "SE"@,
        Clip::S => "S"@,
        Clip::SW => "SW"@,
        Clip::W => "W"@,
        Clip::NW => "NW"@,
    }
}

impl Clip {
    /// The name under which the clip is stored in a mapping.
    pub fn name(self) -> (n: &'static str)
        ensures
            n@ == clip_name(self),
    {
        match self {
            Clip::Idle => "idle",
            Clip::Alert => "alert",
            Clip::Tired => "tired",
            Clip::Sleeping => "sleeping",
            Clip::ScratchSelf => "scratchSelf",
            Clip::ScratchWallN => "scratchWallN",
            Clip::ScratchWallS => "scratchWallS",
            Clip::ScratchWallW => "scratchWallW",
            Clip::ScratchWallE => "scratchWallE",
            Clip::N => "N",
            Clip::NE => "NE",
            Clip::E => "E",
            Clip::SE => "SE",
            Clip::S => "S",
            Clip::SW => "SW",
            Clip::W => "W",
            Clip::NW => "NW",
        }
    }
}

/// The eight directions the cat walks in, `N` being up the screen.
#[derive(PartialEq, Eq, Structural, Clone, Copy, Debug)]
pub enum Heading {
    N,
    NE,
    E,
    SE,
    S,
    SW,
    W,
    NW,
}

/// The walking clip of a heading.
pub open spec fn walk_clip(h: Heading) -> Clip {
    match h {
        Heading::N => Clip::N,
        Heading::NE => Clip::NE,
        Heading::E => Clip::E,
        Heading::SE => Clip::SE,
        Heading::S => Clip::S,
        Heading::SW => Clip::SW,
        Heading::W => Clip::W,
        Heading::NW => Clip::NW,
    }
}

/// A walking cat plays the clip named after its heading: `N` up the screen, `S`
/// down, `E` right, `W` left, and so for the diagonals; no two headings share a
/// clip, and no walking clip is a resting or scratching one.
pub proof fn law_walk_clip_follows_heading(h: Heading, g: Heading)
    ensures
        clip_name(walk_clip(Heading::N)) == "N"@,
        clip_name(walk_clip(Heading::NE)) == "NE"@,
        clip_name(walk_clip(Heading::E)) == "E"@,
        clip_name(walk_clip(Heading::SE)) == "SE"@,
        clip_name(walk_clip(Heading::S)) == "S"@,
        clip_name(walk_clip(Heading::SW)) == "SW"@,
        clip_name(walk_clip(Heading::W)) == "W"@,
        clip_name(walk_clip(Heading::NW)) == "NW"@,
        h != g ==> walk_clip(h) != walk_clip(g),
        walk_clip(h) != Clip::Idle && walk_clip(h) != Clip::Alert && walk_clip(h) != Clip::Tired
            && walk_clip(h) != Clip::Sleeping && walk_clip(h) != Clip::ScratchSelf,
{
}

/// The pose of a cat that has arrived in open space for the `n`-th tick in a row:
/// alert for the first two, then washing itself until the seventh, tired until the
/// twentieth, asleep after.
pub open spec fn resting_clip(n: int) -> Clip {
    if 0 <= n <= 2 {
        Clip::Alert
    } else if 3 <= n <= 7 {
        Clip::ScratchSelf
    } else if 8 <= n <= 20 {
        Clip::Tired
    } else {
        Clip::Sleeping
    }
}

/// The pose of a cat that has arrived against the given edges: scratching the first
/// wall it touches, in the order left, top, right, bottom.
pub open spec fn wall_clip(e: Edges) -> Clip {
    if e.left {
        Clip::ScratchWallW
    } else if e.top {
        Clip::ScratchWallN
    } else if e.right {
        Clip::ScratchWallE
    } else {
        Clip::ScratchWallS
    }
}

/// Settling down goes one way: alert, then washing, then tired, then asleep; the
/// cat never goes back to an earlier pose while it stays arrived, and it is asleep
/// from its twenty-first tick on.
pub proof fn law_settling_order(a: int, b: int)
    requires
        1 <= a <= b,
    ensures
        settle_rank(resting_clip(a)) <= settle_rank(resting_clip(b)),
        b >= 21 ==> resting_clip(b) == Clip::Sleeping,
        a <= 2 ==> resting_clip(a) == Clip::Alert,
{
}

/// The order of the settling poses.
pub open spec fn settle_rank(c: Clip) -> int {
    match c {
        Clip::Alert => 0,
        Clip::ScratchSelf => 1,
        Clip::Tired => 2,
        _ => 3,
    }
}

/// In sleep mode the cat settles down wherever it has arrived, against a wall too:
/// it never scratches a wall, and after twenty ticks it is asleep.
pub proof fn law_rest_sleeps_anywhere(e: Edges, n: int)
    requires
        n >= 1,
    ensures
        settles(Motion::Arrived(e), State::Rest),
        resting_clip(n) != Clip::ScratchWallW && resting_clip(n) != Clip::ScratchWallN
            && resting_clip(n) != Clip::ScratchWallE && resting_clip(n) != Clip::ScratchWallS,
        n >= 21 ==> resting_clip(n) == Clip::Sleeping,
{
}

/// Every clip has a frame to show, whatever the mapping holds.
pub proof fn law_frames_never_empty(m: Map<Seq<char>, Seq<(i32, i32)>>, clip: Seq<char>)
    ensures
        frames_of(m, clip).len() >= 1,
{
}

/// What the cat did this tick, as its caller measured it against the target.
#[derive(PartialEq, Eq, Structural, Clone, Copy, Debug)]
pub enum Motion {
    /// Within reach of the target; the edges are those its position touches.
    Arrived(Edges),
    /// Took a step toward the target; the heading is `None` where the direction
    /// could not be told (the walking pose then stays as it was).
    Moved(Option<Heading>),
}

/// What the cat does in a tick.
pub enum State {
    /// Chases a target: once arrived, it scratches a wall it leans against, and
    /// settles down in open space.
    Chase,
    /// Stays where it is to sleep: once arrived, it settles down (alert, washing,
    /// tired, asleep) wherever it is, against a wall too.
    Rest,
}

/// Whether the cat settles down this tick: it has arrived, and either rests or
/// touches no wall.
pub open spec fn settles(motion: Motion, state: State) -> bool {
    match motion {
        Motion::Arrived(e) => state is Rest || !e.any(),
        Motion::Moved(_) => false,
    }
}

/// The animation state of the cat.
pub struct Pet {
    sleep_counter: i32,
    loop_counter: usize,
    current: Clip,
    sprites: Sprites,
}

impl Pet {
    /// Ticks in a row spent arrived in open space.
    pub closed spec fn sleep_count(&self) -> i32 {
        self.sleep_counter
    }

    /// Position in the current clip's frame list.
    pub closed spec fn frame_index(&self) -> usize {
        self.loop_counter
    }

    /// The clip being played.
    pub closed spec fn clip(&self) -> Clip {
        self.current
    }

    /// The sprite set in use.
    pub closed spec fn sprites(&self) -> Map<Seq<char>, Seq<(i32, i32)>> {
        self.sprites@
    }

    /// Well-formed: the sprite set is, and the frame position can still advance.
    pub closed spec fn wf(&self) -> bool {
        &&& self.sprites.wf()
        &&& self.loop_counter < usize::MAX
    }

    /// The frames of the clip being played.
    pub open spec fn current_frames(&self) -> Seq<(i32, i32)> {
        frames_of(self.sprites(), clip_name(self.clip()))
    }

    /// The cell `(col, row)` shown now.
    pub open spec fn shown_cell(&self) -> (i32, i32) {
        self.current_frames()[self.frame_index() as int % self.current_frames().len() as int]
    }

    /// A cat at rest, idle, that draws with `sprites`.
    pub fn new(sprites: Sprites) -> (p: Pet)
        requires
            sprites.wf(),
        ensures
            p.wf(),
            p.sleep_count() == 0,
            p.frame_index() == 0,
            p.clip() == Clip::Idle,
            p.sprites() == sprites@,
    {
        Pet { sleep_counter: 0, loop_counter: 0, current: Clip::Idle, sprites }
    }

    /// Swaps the sprite set (a skin change) and restarts the clip.
    pub fn set_sprites(&mut self, sprites: Sprites)
        requires
            old(self).wf(),
            sprites.wf(),
        ensures
            final(self).wf(),
            final(self).sprites() == sprites@,
            final(self).frame_index() == 0,
            final(self).clip() == old(self).clip(),
            final(self).sleep_count() == old(self).sleep_count(),
    {
        self.sprites = sprites;
        self.loop_counter = 0;
    }

    /// The cell `(col, row)` of the sheet shown now.
    pub fn current_cell(&self) -> (c: (i32, i32))
        requires
            self.wf(),
        ensures
            c == self.shown_cell(),
    {
        let frames = self.sprites.frames(self.current.name());
        frames[self.loop_counter % frames.len()]
    }

    /// Ticks in a row spent arrived in open space.
    pub fn sleep_ticks(&self) -> (n: i32)
        ensures
            n == self.sleep_count(),
    {
        self.sleep_counter
    }

    /// The name of the clip being played.
    pub fn current_clip(&self) -> (n: &'static str)
        ensures
            n@ == clip_name(self.clip()),
    {
        self.current.name()
    }

    /// The top-left pixel, in the sprite sheet, of the 32x32 tile shown now.
    pub fn current_frame(&self) -> (px: (i32, i32))
        requires
            self.wf(),
            i32::MIN <= self.shown_cell().0 * GRID_STRIDE <= i32::MAX,
            i32::MIN <= self.shown_cell().1 * GRID_STRIDE <= i32::MAX,
        ensures
            px.0 == self.shown_cell().0 * GRID_STRIDE,
            px.1 == self.shown_cell().1 * GRID_STRIDE,
    {
        let frames = self.sprites.frames(self.current.name());
        let (col, row) = frames[self.loop_counter % frames.len()];
        (col * GRID_STRIDE, row * GRID_STRIDE)
    }

    /// Advances one tick: takes the pose that `motion` calls for, then moves on to
    /// the next frame of that pose's clip, back to the first after the last.
    pub fn update(&mut self, motion: Motion, state: State)
        requires
            old(self).wf(),
            settles(motion, state) ==> old(self).sleep_count() < i32::MAX,
        ensures
            final(self).wf(),
            final(self).sprites() == old(self).sprites(),
            match motion {
                Motion::Arrived(e) => if settles(motion, state) {
                    &&& final(self).sleep_count() == old(self).sleep_count() + 1
                    &&& final(self).clip() == resting_clip(final(self).sleep_count() as int)
                } else {
                    &&& final(self).clip() == wall_clip(e)
                    &&& final(self).sleep_count() == old(self).sleep_count()
                },
                Motion::Moved(h) => {
                    &&& final(self).sleep_count() == 0
                    &&& final(self).clip() == match h {
                        Some(h) => walk_clip(h),
                        None => old(self).clip(),
                    }
                },
            },
            final(self).frame_index() == if old(self).frame_index() + 1 >= final(self).current_frames().len() {
                0
            } else {
                old(self).frame_index() + 1
            },
            final(self).frame_index() < final(self).current_frames().len(),
    {
        self.take_pose(motion, state);
        let n: usize = self.sprites.frames(self.current.name()).len();
        let len: usize = if n > 1 { n } else { 1 };
        self.loop_counter = self.loop_counter + 1;
        if self.loop_counter >= len {
            self.loop_counter = 0;
        }
    }

    fn take_pose(&mut self, motion: Motion, state: State)
        requires
            old(self).wf(),
            settles(motion, state) ==> old(self).sleep_count() < i32::MAX,
        ensures
            final(self).sprites == old(self).sprites,
            final(self).loop_counter == old(self).loop_counter,
            match motion {
                Motion::Arrived(e) => if settles(motion, state) {
                    &&& final(self).sleep_count() == old(self).sleep_count() + 1
                    &&& final(self).clip() == resting_clip(final(self).sleep_count() as int)
                } else {
                    &&& final(self).clip() == wall_clip(e)
                    &&& final(self).sleep_count() == old(self).sleep_count()
                },
                Motion::Moved(h) => {
                    &&& final(self).sleep_count() == 0
                    &&& final(self).clip() == match h {
                        Some(h) => walk_clip(h),
                        None => old(self).clip(),
                    }
                },
            },
    {
        match motion {
            Motion::Arrived(e) => {
                let rest = match state {
                    State::Rest => true,
                    State::Chase => false,
                };
                if rest || !(e.left || e.top || e.right || e.bottom) {
                    self.sleep_counter = self.sleep_counter + 1;
                    let n: i32 = self.sleep_counter;
                    self.current = if 0 <= n && n <= 2 {
                        Clip::Alert
                    } else if 3 <= n && n <= 7 {
                        Clip::ScratchSelf
                    } else if 8 <= n && n <= 20 {
                        Clip::Tired
                    } else {
                        Clip::Sleeping
                    };
                } else if e.left {
                    self.current = Clip::ScratchWallW;
                } else if e.top {
                    self.current = Clip::ScratchWallN;
                } else if e.right {
                    self.current = Clip::ScratchWallE;
                } else {
                    self.current = Clip::ScratchWallS;
                }
            },
            Motion::Moved(h) => {
                self.sleep_counter = 0;
                match h {
                    Some(Heading::N) => self.current = Clip::N,
                    Some(Heading::NE) => self.current = Clip::NE,
                    Some(Heading::E) => self.current = Clip::E,
                    Some(Heading::SE) => self.current = Clip::SE,
                    Some(Heading::S) => self.current = Clip::S,
                    Some(Heading::SW) => self.current = Clip::SW,
                    Some(Heading::W) => self.current = Clip::W,
                    Some(Heading::NW) => self.current = Clip::NW,
                    None => {},
                }
            },
        }
    }
}

} // verus!
