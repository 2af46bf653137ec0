use vstd::prelude::*;
use crate::bodies::{PlayerInfo, HIT_INVULNERABILITY};
use crate::geometry::{clamp, clamp_to_i64, Point, POS_LIMIT};

verus! {

/// How long the fade-out after the last life lasts, in microseconds.
pub const DEATH_FADE: u64 = 1_500_000;

/// Longest life of a cosmetic particle, in microseconds.
pub const MAX_FADE: u64 = 10_000_000;

/// The best results of this session.
#[derive(Clone, Copy, Debug, PartialEq, Eq, Structural)]
pub struct Score {
    pub highscore: u64,
    /// Longest time survived, in microseconds.
    pub hightime: u64,
}

impl Score {
    pub fn new() -> (r: Score)
        ensures
            r.highscore == 0,
            r.hightime == 0,
    {
        Score { highscore: 0, hightime: 0 }
    }
}

impl PlayerInfo {
    /// Runs the invulnerability and stun timers down by a frame.
    pub fn tick_timers(&mut self, dt: u64)
        ensures
            *final(self) == (PlayerInfo {
                invul_duration: old(self).invul_duration.saturating_sub(dt),
                stun_duration: old(self).stun_duration.saturating_sub(dt),
                ..*old(self)
            }),
    {
        self.invul_duration = self.invul_duration.saturating_sub(dt);
        self.stun_duration = self.stun_duration.saturating_sub(dt);
    }
}

/// Keeps the life cycle of a game for a frame of `dt` microseconds. While
/// lives remain, time survived grows. When the last is gone, the session's
/// best score and time are updated and the fade-out starts; during it the
/// player stays invulnerable. Returns true on the frame the fade-out ends.
pub fn check_player_lives(player: &mut PlayerInfo, score: &mut Score, dt: u64) -> (game_over: bool)
    ensures
        old(player).death_countdown > 0 ==> {
            &&& *final(player) == (PlayerInfo {
                invul_duration: if old(player).invul_duration == 0 {
                    HIT_INVULNERABILITY
                } else {
                    old(player).invul_duration
                },
                death_countdown: old(player).death_countdown.saturating_sub(dt),
                ..*old(player)
            })
            &&& *final(score) == *old(score)
            &&& game_over == (final(player).death_countdown == 0)
        },
        old(player).death_countdown == 0 && old(player).lives == 0 ==> {
            &&& *final(player) == (PlayerInfo { death_countdown: DEATH_FADE, ..*old(player) })
            &&& final(score).highscore == if old(player).score > old(score).highscore {
                old(player).score
            } else {
                old(score).highscore
            }
            &&& final(score).hightime == if old(player).time_survived > old(score).hightime {
                old(player).time_survived
            } else {
                old(score).hightime
            }
            &&& !game_over
        },
        old(player).death_countdown == 0 && old(player).lives > 0 ==> {
            &&& *final(player) == (PlayerInfo {
                time_survived: old(player).time_survived.saturating_add(dt),
                ..*old(player)
            })
            &&& *final(score) == *old(score)
            &&& !game_over
        },
{
    if player.death_countdown > 0 {
        if player.invul_duration == 0 {
            player.invul_duration = HIT_INVULNERABILITY;
        }
        player.death_countdown = player.death_countdown.saturating_sub(dt);
        player.death_countdown == 0
    } else if player.lives == 0 {
        if player.score > score.highscore {
            score.highscore = player.score;
        }
        if player.time_survived > score.hightime {
            score.hightime = player.time_survived;
        }
        player.death_countdown = DEATH_FADE;
        false
    } else {
        player.time_survived = player.time_survived.saturating_add(dt);
        false
    }
}

/// How a survival time is shown.
#[derive(Clone, Copy, Debug, PartialEq, Eq, Structural)]
pub enum TimeDisplay {
    /// Seconds with two decimals, given in hundredths.
    Hundredths(u64),
    /// The last second of the first minute, shown as a whole 59 seconds.
    FiftyNine,
    /// Whole minutes (within the hour) and seconds.
    MinutesSeconds(u64, u64),
}

/// The display of a survival time of `t` microseconds.
pub open spec fn time_display(t: u64) -> TimeDisplay {
    if t < 59_000_000 {
        TimeDisplay::Hundredths(t / 10_000)
    } else if t < 60_000_000 {
        TimeDisplay::FiftyNine
    } else {
        TimeDisplay::MinutesSeconds((t / 60_000_000 % 60) as u64, (t / 1_000_000 % 60) as u64)
    }
}

/// How a survival time of `t` microseconds is shown on the score line:
/// seconds to the hundredth for the first 59 seconds, then minutes and
/// seconds.
pub fn survival_display(t: u64) -> (r: TimeDisplay)
    ensures
        r == time_display(t),
{
    if t < 59_000_000 {
        TimeDisplay::Hundredths(t / 10_000)
    } else if t < 60_000_000 {
        TimeDisplay::FiftyNine
    } else {
        TimeDisplay::MinutesSeconds(t / 60_000_000 % 60, t / 1_000_000 % 60)
    }
}

/// A cosmetic spark thrown off by a destroyed body.
#[derive(Clone, Copy, Debug, PartialEq, Eq, Structural)]
pub struct Particle {
    pub pos: Point,
    /// Displacement per frame.
    pub velocity: Point,
    /// Microseconds left; also the particle's scale.
    pub fade: u64,
}

/// A particle after a frame: it fades by `dt` and, while it lasts, drifts
/// by its velocity.
pub open spec fn particle_after(p: Particle, dt: u64) -> Option<Particle> {
    let f = p.fade.saturating_sub(dt);
    let f = if f > MAX_FADE {
        MAX_FADE
    } else {
        f
    };
    let pl = POS_LIMIT as int;
    if f == 0 {
        None
    } else {
        Some(
            Particle {
                pos: Point {
                    x: clamp(p.pos.x + p.velocity.x, -pl, pl) as i64,
                    y: clamp(p.pos.y + p.velocity.y, -pl, pl) as i64,
                },
                fade: f,
                ..p
            },
        )
    }
}

impl Particle {
    pub fn tick(self, dt: u64) -> (r: Option<Particle>)
        ensures
            r == particle_after(self, dt),
    {
        let f = self.fade.saturating_sub(dt);
        let f = if f > MAX_FADE {
            MAX_FADE
        } else {
            f
        };
        if f == 0 {
            None
        } else {
            Some(
                Particle {
                    pos: Point {
                        x: clamp_to_i64(self.pos.x as i128 + self.velocity.x as i128, POS_LIMIT),
                        y: clamp_to_i64(self.pos.y as i128 + self.velocity.y as i128, POS_LIMIT),
                    },
                    fade: f,
                    ..self
                },
            )
        }
    }
}

/// The particles that last through a frame, each run for it, in order.
pub open spec fn particles_after(ps: Seq<Particle>, dt: u64) -> Seq<Particle>
    decreases ps.len(),
{
    if ps.len() == 0 {
        Seq::empty()
    } else {
        particles_after(ps.drop_last(), dt) + match particle_after(ps.last(), dt) {
            Some(p) => seq![p],
            None => Seq::empty(),
        }
    }
}

/// Runs every particle for a frame and drops those that have faded out.
pub fn deal_with_particles(ps: Vec<Particle>, dt: u64) -> (r: Vec<Particle>)
    ensures
        r@ == particles_after(ps@, dt),
        forall|k: int| 0 <= k < r.len() ==> #[trigger] r[k].fade > 0,
{
    let mut out: Vec<Particle> = Vec::new();
    let mut i: usize = 0;
    while i < ps.len()
        invariant
            i <= ps.len(),
            out@ == particles_after(ps@.subrange(0, i as int), dt),
            forall|k: int| 0 <= k < out.len() ==> #[trigger] out[k].fade > 0,
        decreases ps.len() - i,
    {
        let ghost before = ps@.subrange(0, i as int);
        let ghost after = ps@.subrange(0, i + 1);
        assert(after.drop_last() =~= before);
        match ps[i].tick(dt) {
            Some(p) => {
                out.push(p);
            },
            None => {},
        }
        assert(out@ =~= particles_after(after, dt));
        i += 1;
    }
    assert(ps@.subrange(0, ps.len() as int) =~= ps@);
    out
}

} // verus!
