use vstd::prelude::*;
use crate::arena::Reactor;
use crate::bodies::{new_molecule, spawn_molecule, MoleculeInfo};
use crate::geometry::{
    aim, aimed, div_trunc, lemma_mul_bound, lemma_scaled_within_speed, tdiv, Point, POS_LIMIT,
};

verus! {

/// Latest time at which a scripted event may stand, in microseconds.
pub const MAX_EVENT_TIME: u64 = 1_000_000_000_000;

/// Largest speed of a scripted molecule, in thousandths of a pixel per second.
pub const MAX_SPAWN_SPEED: i64 = 10_000_000;

/// Largest number of levels in a script.
pub const MAX_LEVELS: usize = 1_000_000;

/// Longest frame that the simulation accepts, in microseconds.
pub const MAX_FRAME: u64 = 10_000_000;

/// Length of a unit vector in the heading table.
pub const UNIT: i64 = 1_000_000;

/// `UNIT` times the sine of an eighth turn, rounded.
pub const DIAGONAL: i64 = 707_107;

/// One scripted spawn of a level.
#[derive(Clone, Copy, Debug, PartialEq, Eq, Structural)]
pub struct SpawnEvent {
    /// Time since the level began, in microseconds of level time.
    pub time: u64,
    /// The species to spawn; `None` marks a pause that spawns nothing.
    pub species: Option<usize>,
    /// Speed, in thousandths of a pixel per second.
    pub speed: i64,
    /// Direction in eighths of a turn, clockwise from straight up.
    pub heading: u8,
    /// Aim at the player instead of along `heading`.
    pub track_player: bool,
}

impl SpawnEvent {
    pub open spec fn wf(self) -> bool {
        &&& self.time <= MAX_EVENT_TIME
        &&& 0 <= self.speed <= MAX_SPAWN_SPEED
        &&& self.heading < 8
    }
}

/// The unit vector of a heading, scaled by `UNIT`.
pub open spec fn heading_vector(h: u8) -> (int, int) {
    if h == 0 {
        (0, UNIT as int)
    } else if h == 1 {
        (DIAGONAL as int, DIAGONAL as int)
    } else if h == 2 {
        (UNIT as int, 0)
    } else if h == 3 {
        (DIAGONAL as int, -DIAGONAL)
    } else if h == 4 {
        (0, -UNIT)
    } else if h == 5 {
        (-DIAGONAL, -DIAGONAL)
    } else if h == 6 {
        (-UNIT, 0)
    } else {
        (-DIAGONAL, DIAGONAL as int)
    }
}

fn heading_vector_exec(h: u8) -> (r: (i64, i64))
    requires
        h < 8,
    ensures
        r.0 == heading_vector(h).0,
        r.1 == heading_vector(h).1,
        -UNIT <= r.0 <= UNIT,
        -UNIT <= r.1 <= UNIT,
{
    match h {
        0 => (0, UNIT),
        1 => (DIAGONAL, DIAGONAL),
        2 => (UNIT, 0),
        3 => (DIAGONAL, -DIAGONAL),
        4 => (0, -UNIT),
        5 => (-DIAGONAL, -DIAGONAL),
        6 => (-UNIT, 0),
        _ => (-DIAGONAL, DIAGONAL),
    }
}

/// Initial velocity of a scripted molecule emitted at `from`: toward the
/// player at the event's speed when it tracks the player (at rest when the
/// player stands on the aperture), else along its heading.
pub open spec fn event_velocity(e: SpawnEvent, from: Point, player: Point) -> Point {
    if e.track_player {
        let dx = player.x - from.x;
        let dy = player.y - from.y;
        aimed(dx, dy, e.speed as int)
    } else {
        let h = heading_vector(e.heading);
        Point {
            x: tdiv(e.speed * h.0, UNIT as int) as i64,
            y: tdiv(e.speed * h.1, UNIT as int) as i64,
        }
    }
}

fn velocity_for(e: SpawnEvent, from: Point, player: Point) -> (r: Point)
    requires
        e.wf(),
        from.in_range(POS_LIMIT as int),
        player.in_range(POS_LIMIT as int),
    ensures
        r == event_velocity(e, from, player),
        r.in_range(MAX_SPAWN_SPEED as int),
{
    if e.track_player {
        let dx: i128 = player.x as i128 - from.x as i128;
        let dy: i128 = player.y as i128 - from.y as i128;
        aim(dx, dy, e.speed)
    } else {
        let (hx, hy) = heading_vector_exec(e.heading);
        proof {
            lemma_mul_bound(e.speed as int, hx as int, 10_000_000, 1_000_000);
            lemma_mul_bound(e.speed as int, hy as int, 10_000_000, 1_000_000);
            lemma_scaled_within_speed(hx as int, e.speed as int, UNIT as int);
            lemma_scaled_within_speed(hy as int, e.speed as int, UNIT as int);
            assert(e.speed * hx == hx * e.speed) by (nonlinear_arith);
            assert(e.speed * hy == hy * e.speed) by (nonlinear_arith);
        }
        let sp: i128 = e.speed as i128;
        let vx = div_trunc(sp * (hx as i128), UNIT as i128);
        let vy = div_trunc(sp * (hy as i128), UNIT as i128);
        Point { x: vx as i64, y: vy as i64 }
    }
}

} // verus!

verus! {

/// A level script: at least one level, none empty, every event sound.
pub open spec fn script_wf(script: Seq<Seq<SpawnEvent>>) -> bool {
    &&& 1 <= script.len() <= MAX_LEVELS
    &&& forall|l: int| 0 <= l < script.len() ==> #[trigger] script[l].len() >= 1
    &&& forall|l: int, i: int|
        0 <= l < script.len() && 0 <= i < script[l].len() ==> #[trigger] script[l][i].wf()
}

/// Where the timeline stands: `timer` counts tenths of a microsecond of
/// level time, which runs `1 + level / 10` times as fast as real time.
#[derive(Clone, Copy, Debug, PartialEq, Eq, Structural)]
pub struct Clock {
    pub timer: u64,
    pub increment: usize,
    pub level: usize,
}

/// The scripted spawn schedule and its progress.
#[derive(Debug)]
pub struct SpawnTracker {
    pub clock: Clock,
    pub levels: Vec<Vec<SpawnEvent>>,
}

impl SpawnTracker {
    pub open spec fn script(self) -> Seq<Seq<SpawnEvent>> {
        self.levels@.map_values(|l: Vec<SpawnEvent>| l@)
    }

    pub open spec fn wf(self) -> bool {
        clock_wf(self.script(), self.clock)
    }
}

pub open spec fn clock_wf(script: Seq<Seq<SpawnEvent>>, c: Clock) -> bool {
    &&& script_wf(script)
    &&& c.level < script.len()
    &&& c.increment < script[c.level as int].len()
}

/// The timer after a frame of `dt` microseconds.
pub open spec fn advanced_timer(c: Clock, dt: u64) -> u64 {
    c.timer.saturating_add((dt * (10 + c.level)) as u64)
}

/// Whether the current event is due after a frame of `dt` microseconds.
pub open spec fn event_due(script: Seq<Seq<SpawnEvent>>, c: Clock, dt: u64) -> bool {
    advanced_timer(c, dt) > 10 * script[c.level as int][c.increment as int].time
}

/// The clock after a frame: a due event moves on to the next one; after the
/// last event of a level the timer restarts on the next level, and after the
/// last level on the first.
pub open spec fn clock_after(script: Seq<Seq<SpawnEvent>>, c: Clock, dt: u64) -> Clock {
    let t = advanced_timer(c, dt);
    if event_due(script, c, dt) {
        if c.increment + 1 == script[c.level as int].len() {
            Clock {
                timer: 0,
                increment: 0,
                level: if c.level + 1 == script.len() {
                    0
                } else {
                    (c.level + 1) as usize
                },
            }
        } else {
            Clock { timer: t, increment: (c.increment + 1) as usize, level: c.level }
        }
    } else {
        Clock { timer: t, increment: c.increment, level: c.level }
    }
}

/// The molecule that a frame emits, if any.
pub open spec fn spawned(
    script: Seq<Seq<SpawnEvent>>,
    c: Clock,
    dt: u64,
    reactor: Reactor,
    player: Point,
) -> Option<MoleculeInfo> {
    let e = script[c.level as int][c.increment as int];
    if event_due(script, c, dt) && e.species.is_some() {
        let at = reactor.aperture_spec();
        Some(new_molecule(at, event_velocity(e, at, player), e.species.unwrap()))
    } else {
        None
    }
}

impl SpawnTracker {
    /// A timeline at the start of the first level of `levels`.
    pub fn new(levels: Vec<Vec<SpawnEvent>>) -> (r: SpawnTracker)
        requires
            script_wf(levels@.map_values(|l: Vec<SpawnEvent>| l@)),
        ensures
            r.wf(),
            r.levels@ == levels@,
            r.clock == (Clock { timer: 0, increment: 0, level: 0 }),
    {
        SpawnTracker { clock: Clock { timer: 0, increment: 0, level: 0 }, levels }
    }
}

/// Advances the timeline by one frame of `dt` microseconds and returns the
/// molecule that it emits, if its current event has come due.
pub fn spawn_molecules(
    tracker: &mut SpawnTracker,
    reactor: &Reactor,
    player: Point,
    dt: u64,
) -> (r: Option<MoleculeInfo>)
    requires
        old(tracker).wf(),
        reactor.wf(),
        player.in_range(POS_LIMIT as int),
        dt <= MAX_FRAME,
    ensures
        final(tracker).levels@ == old(tracker).levels@,
        final(tracker).clock == clock_after(old(tracker).script(), old(tracker).clock, dt),
        r == spawned(old(tracker).script(), old(tracker).clock, dt, *reactor, player),
        final(tracker).wf(),
        r matches Some(m) ==> m.wf(),
{
    let ghost script = tracker.script();
    let c = tracker.clock;
    let lvl = c.level;
    let inc = c.increment;
    assert(script[lvl as int] == tracker.levels@[lvl as int]@);
    assert(script.len() == tracker.levels@.len());
    proof {
        lemma_mul_bound(dt as int, 10 + lvl, MAX_FRAME as int, 10 + MAX_LEVELS);
    }
    let t = c.timer.saturating_add(dt * (10 + lvl as u64));
    let e = tracker.levels[lvl][inc];
    assert(e == script[lvl as int][inc as int]);
    assert(e.wf());
    if t > 10 * e.time {
        let at = reactor.aperture();
        let out = match e.species {
            Some(s) => {
                let v = velocity_for(e, at, player);
                Some(spawn_molecule(at, v, s))
            },
            None => None,
        };
        if inc == tracker.levels[lvl].len() - 1 {
            let next_level = if lvl == tracker.levels.len() - 1 {
                0
            } else {
                lvl + 1
            };
            tracker.clock = Clock { timer: 0, increment: 0, level: next_level };
        } else {
            tracker.clock = Clock { timer: t, increment: inc + 1, level: lvl };
        }
        assert(tracker.script() == script);
        out
    } else {
        tracker.clock = Clock { timer: t, increment: inc, level: lvl };
        assert(tracker.script() == script);
        None
    }
}

} // verus!

verus! {

/// A scripted event from its written form: time in milliseconds, speed in
/// pixels per second and heading in degrees clockwise from straight up.
fn scripted_event(time_ms: u64, species: Option<usize>, speed_px: i64, angle: u64, track: bool) -> (e: SpawnEvent)
    requires
        time_ms <= 1_000_000,
        0 <= speed_px <= 10_000,
        angle % 45 == 0,
        angle < 360,
    ensures
        e.wf(),
        e == (SpawnEvent {
            time: (time_ms * 1000) as u64,
            species,
            speed: (speed_px * 1000) as i64,
            heading: (angle / 45) as u8,
            track_player: track,
        }),
{
    SpawnEvent {
        time: time_ms * 1000,
        species,
        speed: speed_px * 1000,
        heading: (angle / 45) as u8,
        track_player: track,
    }
}

/// One level from parallel columns, as a designer writes it.
fn level_of(
    times: Vec<u64>,
    species: Vec<Option<usize>>,
    speeds: Vec<i64>,
    angles: Vec<u64>,
    track: Vec<bool>,
) -> (r: Vec<SpawnEvent>)
    requires
        1 <= times.len(),
        species.len() == times.len(),
        speeds.len() == times.len(),
        angles.len() == times.len(),
        track.len() == times.len(),
        forall|i: int| 0 <= i < times.len() ==> #[trigger] times[i] <= 1_000_000,
        forall|i: int| 0 <= i < speeds.len() ==> 0 <= #[trigger] speeds[i] <= 10_000,
        forall|i: int| 0 <= i < angles.len() ==> #[trigger] angles[i] % 45 == 0 && angles[i] < 360,
    ensures
        r.len() == times.len(),
        forall|i: int| 0 <= i < r.len() ==> #[trigger] r[i].wf(),
        forall|i: int|
            0 <= i < r.len() ==> #[trigger] r[i] == (SpawnEvent {
                time: (times[i] * 1000) as u64,
                species: species[i],
                speed: (speeds[i] * 1000) as i64,
                heading: (angles[i] / 45) as u8,
                track_player: track[i],
            }),
{
    let mut r: Vec<SpawnEvent> = Vec::new();
    let mut i: usize = 0;
    while i < times.len()
        invariant
            i <= times.len(),
            species.len() == times.len(),
            speeds.len() == times.len(),
            angles.len() == times.len(),
            track.len() == times.len(),
            forall|j: int| 0 <= j < times.len() ==> #[trigger] times[j] <= 1_000_000,
            forall|j: int| 0 <= j < speeds.len() ==> 0 <= #[trigger] speeds[j] <= 10_000,
            forall|j: int|
                0 <= j < angles.len() ==> #[trigger] angles[j] % 45 == 0 && angles[j] < 360,
            r.len() == i,
            forall|j: int| 0 <= j < r.len() ==> #[trigger] r[j].wf(),
            forall|j: int|
                0 <= j < r.len() ==> #[trigger] r[j] == (SpawnEvent {
                    time: (times[j] * 1000) as u64,
                    species: species[j],
                    speed: (speeds[j] * 1000) as i64,
                    heading: (angles[j] / 45) as u8,
                    track_player: track[j],
                }),
        decreases times.len() - i,
    {
        let e = scripted_event(times[i], species[i], speeds[i], angles[i], track[i]);
        r.push(e);
        i += 1;
    }
    r
}

/// Every level of `s` is non-empty and every event sound.
pub open spec fn levels_sound(s: Seq<Seq<SpawnEvent>>) -> bool {
    &&& forall|l: int| 0 <= l < s.len() ==> #[trigger] s[l].len() >= 1
    &&& forall|l: int, i: int| 0 <= l < s.len() && 0 <= i < s[l].len() ==> #[trigger] s[l][i].wf()
}

fn push_level(levels: &mut Vec<Vec<SpawnEvent>>, l: Vec<SpawnEvent>)
    requires
        levels_sound(old(levels)@.map_values(|v: Vec<SpawnEvent>| v@)),
        l.len() >= 1,
        forall|i: int| 0 <= i < l.len() ==> #[trigger] l[i].wf(),
    ensures
        final(levels)@ == old(levels)@.push(l),
        levels_sound(final(levels)@.map_values(|v: Vec<SpawnEvent>| v@)),
{
    let ghost before = levels@.map_values(|v: Vec<SpawnEvent>| v@);
    levels.push(l);
    let ghost after = levels@.map_values(|v: Vec<SpawnEvent>| v@);
    assert(after == before.push(l@));
}

/// The game's level script: seven levels that grow busier, each closed by
/// a pause that spawns nothing.
pub fn standard_levels() -> (r: Vec<Vec<SpawnEvent>>)
    ensures
        script_wf(r@.map_values(|v: Vec<SpawnEvent>| v@)),
        r.len() == 7,
        r@[0]@.len() == 2,
        r@[1]@.len() == 9,
        r@[2]@.len() == 6,
        r@[3]@.len() == 9,
        r@[4]@.len() == 12,
        r@[5]@.len() == 9,
        r@[6]@.len() == 12,
        forall|l: int| 0 <= l < 7 ==> (#[trigger] r@[l])@.last().species.is_none(),
        r@[0]@[0] == (SpawnEvent {
            time: 1_000_000,
            species: Some(4),
            speed: 200_000,
            heading: 0,
            track_player: false,
        }),
{
    let f = false;
    let t = true;
    let mut levels: Vec<Vec<SpawnEvent>> = Vec::new();
    assert(levels@.map_values(|v: Vec<SpawnEvent>| v@) =~= Seq::<Seq<SpawnEvent>>::empty());
    let l = level_of(
        vec![1000, 4000],
        vec![Some(4), None],
        vec![200, 0],
        vec![0, 0],
        vec![f, f],
    );
    push_level(&mut levels, l);
    let l = level_of(
        vec![0, 500, 1000, 1500, 2000, 2500, 3000, 3500, 8000],
        vec![Some(0), Some(0), Some(0), Some(0), Some(0), Some(0), Some(0), Some(0), None],
        vec![260, 260, 260, 260, 260, 260, 260, 260, 0],
        vec![0, 45, 90, 135, 180, 225, 270, 315, 0],
        vec![f, f, f, f, f, f, f, f, f],
    );
    push_level(&mut levels, l);
    let l = level_of(
        vec![0, 2000, 4000, 6000, 10000, 12000],
        vec![Some(4), Some(3), Some(2), Some(1), Some(0), None],
        vec![150, 160, 170, 180, 250, 0],
        vec![0, 90, 180, 270, 0, 0],
        vec![f, f, f, f, t, f],
    );
    push_level(&mut levels, l);
    let l = level_of(
        vec![0, 500, 3000, 3500, 6000, 6500, 9000, 9500, 14000],
        vec![Some(4), Some(0), Some(3), Some(0), Some(2), Some(0), Some(1), Some(0), None],
        vec![200, 300, 200, 300, 200, 300, 200, 300, 0],
        vec![180, 180, 0, 0, 270, 270, 45, 45, 0],
        vec![f, f, f, f, f, f, f, f, f],
    );
    push_level(&mut levels, l);
    let l = level_of(
        vec![0, 2000, 4000, 5000, 6000, 7000, 8000, 8500, 9000, 9500, 10000, 15000],
        vec![
            Some(2),
            Some(2),
            Some(2),
            Some(2),
            Some(0),
            Some(0),
            Some(0),
            Some(0),
            Some(0),
            Some(0),
            Some(0),
            None,
        ],
        vec![260, 260, 260, 260, 260, 260, 260, 260, 260, 260, 260, 0],
        vec![0, 0, 0, 0, 0, 0, 0, 0, 0, 0, 0, 0],
        vec![t, t, t, t, t, t, t, t, t, t, t, t],
    );
    push_level(&mut levels, l);
    let l = level_of(
        vec![0, 400, 800, 1200, 1600, 2000, 2400, 2800, 5000],
        vec![Some(1), Some(1), Some(1), Some(1), Some(1), Some(1), Some(1), Some(1), None],
        vec![220, 220, 220, 220, 220, 220, 220, 220, 0],
        vec![0, 315, 270, 225, 180, 135, 90, 45, 0],
        vec![f, f, f, f, f, f, f, f, f],
    );
    push_level(&mut levels, l);
    let l = level_of(
        vec![0, 1000, 2000, 3000, 4000, 5000, 6000, 7000, 8000, 9000, 10000, 15000],
        vec![
            Some(4),
            Some(4),
            Some(3),
            Some(3),
            Some(2),
            Some(2),
            Some(1),
            Some(1),
            Some(0),
            Some(0),
            Some(0),
            None,
        ],
        vec![260, 260, 260, 260, 260, 260, 260, 260, 260, 260, 260, 260],
        vec![0, 180, 270, 90, 0, 0, 0, 0, 0, 0, 0, 0],
        vec![f, f, f, f, t, t, t, t, t, t, t, f],
    );
    push_level(&mut levels, l);
    levels
}

impl SpawnTracker {
    /// The game's timeline, at the start of its first level.
    pub fn standard() -> (r: SpawnTracker)
        ensures
            r.wf(),
            r.clock == (Clock { timer: 0, increment: 0, level: 0 }),
            r.levels.len() == 7,
    {
        SpawnTracker::new(standard_levels())
    }
}

} // verus!

verus! {

/// What a run of frames emits, frame by frame, from clock `c`, for the
/// frame times `dts` and the player positions `players` of those frames.
pub open spec fn spawn_log(
    script: Seq<Seq<SpawnEvent>>,
    c: Clock,
    reactor: Reactor,
    dts: Seq<u64>,
    players: Seq<Point>,
) -> Seq<Option<MoleculeInfo>>
    decreases dts.len(),
{
    if dts.len() == 0 || players.len() == 0 {
        Seq::empty()
    } else {
        seq![spawned(script, c, dts[0], reactor, players[0])] + spawn_log(
            script,
            clock_after(script, c, dts[0]),
            reactor,
            dts.drop_first(),
            players.drop_first(),
        )
    }
}

/// The clock after a run of frames.
pub open spec fn clock_after_run(script: Seq<Seq<SpawnEvent>>, c: Clock, dts: Seq<u64>) -> Clock
    decreases dts.len(),
{
    if dts.len() == 0 {
        c
    } else {
        clock_after_run(script, clock_after(script, c, dts[0]), dts.drop_first())
    }
}

/// Runs the timeline over a sequence of frames, one player position per
/// frame, and returns what each frame emitted.
pub fn run_timeline(
    tracker: &mut SpawnTracker,
    reactor: &Reactor,
    dts: &Vec<u64>,
    players: &Vec<Point>,
) -> (r: Vec<Option<MoleculeInfo>>)
    requires
        old(tracker).wf(),
        reactor.wf(),
        dts.len() == players.len(),
        forall|i: int| 0 <= i < dts.len() ==> #[trigger] dts[i] <= MAX_FRAME,
        forall|i: int| 0 <= i < players.len() ==> #[trigger] players[i].in_range(POS_LIMIT as int),
    ensures
        r@ == spawn_log(old(tracker).script(), old(tracker).clock, *reactor, dts@, players@),
        final(tracker).levels@ == old(tracker).levels@,
        final(tracker).clock == clock_after_run(old(tracker).script(), old(tracker).clock, dts@),
        final(tracker).wf(),
{
    let ghost script = tracker.script();
    let ghost c0 = tracker.clock;
    let ghost levels0 = tracker.levels@;
    let n = dts.len();
    let mut out: Vec<Option<MoleculeInfo>> = Vec::new();
    let mut i: usize = 0;
    proof {
        assert(dts@.subrange(0, n as int) =~= dts@);
        assert(players@.subrange(0, n as int) =~= players@);
        assert(out@ + spawn_log(script, c0, *reactor, dts@, players@) =~= spawn_log(
            script,
            c0,
            *reactor,
            dts@,
            players@,
        ));
    }
    while i < n
        invariant
            n == dts.len(),
            n == players.len(),
            i <= n,
            tracker.wf(),
            tracker.levels@ == levels0,
            tracker.script() == script,
            reactor.wf(),
            forall|j: int| 0 <= j < dts.len() ==> #[trigger] dts[j] <= MAX_FRAME,
            forall|j: int|
                0 <= j < players.len() ==> #[trigger] players[j].in_range(POS_LIMIT as int),
            out@ + spawn_log(
                script,
                tracker.clock,
                *reactor,
                dts@.subrange(i as int, n as int),
                players@.subrange(i as int, n as int),
            ) == spawn_log(script, c0, *reactor, dts@, players@),
            clock_after_run(script, tracker.clock, dts@.subrange(i as int, n as int))
                == clock_after_run(script, c0, dts@),
        decreases n - i,
    {
        let ghost c = tracker.clock;
        let ghost rest_d = dts@.subrange(i as int, n as int);
        let ghost rest_p = players@.subrange(i as int, n as int);
        let e = spawn_molecules(tracker, reactor, players[i], dts[i]);
        proof {
            assert(rest_d.drop_first() =~= dts@.subrange(i + 1, n as int));
            assert(rest_p.drop_first() =~= players@.subrange(i + 1, n as int));
            assert(rest_d[0] == dts@[i as int]);
            assert(rest_p[0] == players@[i as int]);
            let tail = spawn_log(
                script,
                tracker.clock,
                *reactor,
                dts@.subrange(i + 1, n as int),
                players@.subrange(i + 1, n as int),
            );
            assert(spawn_log(script, c, *reactor, rest_d, rest_p) == seq![e] + tail);
            assert(out@.push(e) + tail =~= out@ + (seq![e] + tail));
        }
        out.push(e);
        i += 1;
    }
    proof {
        assert(dts@.subrange(n as int, n as int) =~= Seq::<u64>::empty());
        assert(out@ + Seq::<Option<MoleculeInfo>>::empty() =~= out@);
    }
    out
}

/// The spawns of a run are fixed by the script, the starting clock, the
/// frame times and the player positions alone: two timelines that agree on
/// these emit the same molecules, with the same species, positions and
/// velocities, at the same frames, and end on the same clock.
pub proof fn lemma_spawn_timeline_deterministic(
    t1: SpawnTracker,
    t2: SpawnTracker,
    reactor: Reactor,
    dts: Seq<u64>,
    players: Seq<Point>,
)
    requires
        t1.script() == t2.script(),
        t1.clock == t2.clock,
    ensures
        spawn_log(t1.script(), t1.clock, reactor, dts, players) == spawn_log(
            t2.script(),
            t2.clock,
            reactor,
            dts,
            players,
        ),
        clock_after_run(t1.script(), t1.clock, dts) == clock_after_run(t2.script(), t2.clock, dts),
{
}

} // verus!
