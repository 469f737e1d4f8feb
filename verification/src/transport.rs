//! Shuttle control by the keys J, K and L.

use crate::app_state::{AppState, Playback, NORMAL_RATE};
use vstd::prelude::*;

verus! {

/// The slowest shuttle rate, in quarters of normal speed.
pub const SLOW_RATE: u32 = 1;

/// The fastest shuttle rate, in quarters of normal speed.
pub const TOP_RATE: u32 = 32;

/// Which of the keys count in a frame.
#[derive(Clone, Copy, PartialEq, Eq, Structural, Debug)]
pub struct ShuttleKeys {
    /// K is held down.
    pub k_down: bool,
    /// J, K or L was pressed.
    pub j: bool,
    pub k: bool,
    pub l: bool,
}

/// One of the two players.
#[derive(Clone, Copy, PartialEq, Eq, Structural, Debug)]
pub enum ActivePlayer {
    Timeline,
    SourceMonitor,
}

/// What the active player is told.
#[derive(Clone, Copy, PartialEq, Eq, Structural, Debug)]
pub enum ShuttleStep {
    Nothing,
    /// Play forward at this rate, in quarters of normal speed.
    Forward(u32),
    /// Play backward at this rate, in quarters of normal speed.
    Backward(u32),
    /// Pause, and go back to normal speed.
    Pause,
}

/// The next faster rate: normal speed first, then twice the rate up to the top.
pub open spec fn faster(rate: u32) -> u32 {
    if rate == 0 {
        NORMAL_RATE
    } else if 2 * rate < TOP_RATE {
        (2 * rate) as u32
    } else {
        TOP_RATE
    }
}

fn next_rate(rate: u32) -> (r: u32)
    ensures
        r == faster(rate),
{
    if rate == 0 {
        NORMAL_RATE
    } else if rate < TOP_RATE / 2 {
        2 * rate
    } else {
        TOP_RATE
    }
}

impl Playback {
    /// The player that the keys control: the timeline's where it runs, else the
    /// source monitor's, and either only where it can be controlled.
    pub open spec fn shuttles(self) -> Option<ActivePlayer> {
        if self.timeline_player.runs() {
            if self.timeline_player.handle {
                Some(ActivePlayer::Timeline)
            } else {
                None
            }
        } else if self.player.runs() && self.player.handle {
            Some(ActivePlayer::SourceMonitor)
        } else {
            None
        }
    }

    /// What the keys ask for. K held with L or J is slow; K alone pauses; L and J
    /// play forward and backward, faster with every press.
    pub open spec fn shuttle_step(self, keys: ShuttleKeys) -> ShuttleStep {
        if keys.k_down && keys.l {
            ShuttleStep::Forward(SLOW_RATE)
        } else if keys.k_down && keys.j {
            ShuttleStep::Backward(SLOW_RATE)
        } else if keys.k && !keys.l && !keys.j {
            ShuttleStep::Pause
        } else if keys.l {
            ShuttleStep::Forward(faster(self.jkl_forward_rate))
        } else if keys.j {
            ShuttleStep::Backward(faster(self.jkl_reverse_rate))
        } else {
            ShuttleStep::Nothing
        }
    }

    /// The state after a step. Playing backward leaves the rates of the sound and of
    /// the source monitor as they are.
    pub open spec fn shuttled(self, step: ShuttleStep) -> Self {
        let timeline = self.timeline_player.runs();
        Playback {
            jkl_forward_rate: match step {
                ShuttleStep::Nothing => self.jkl_forward_rate,
                ShuttleStep::Forward(rate) => rate,
                _ => 0,
            },
            jkl_reverse_rate: match step {
                ShuttleStep::Nothing => self.jkl_reverse_rate,
                ShuttleStep::Backward(rate) => rate,
                _ => 0,
            },
            audio_rate: match step {
                ShuttleStep::Forward(rate) => rate,
                ShuttleStep::Pause => NORMAL_RATE,
                _ => self.audio_rate,
            },
            playback_rate: match step {
                ShuttleStep::Forward(rate) if !timeline => rate,
                ShuttleStep::Pause if !timeline => NORMAL_RATE,
                _ => self.playback_rate,
            },
            timeline_is_paused: if timeline && !(step is Nothing) {
                step is Pause
            } else {
                self.timeline_is_paused
            },
            is_paused: if !timeline && !(step is Nothing) {
                step is Pause
            } else {
                self.is_paused
            },
            ..self
        }
    }
}

fn shuttle(p: Playback, step: ShuttleStep) -> (r: Playback)
    ensures
        r == p.shuttled(step),
{
    let timeline = p.timeline_player.is_running();
    let (forward, reverse, audio): (u32, u32, u32) = match step {
        ShuttleStep::Nothing => {
            return p;
        },
        ShuttleStep::Forward(rate) => (rate, 0, rate),
        ShuttleStep::Backward(rate) => (0, rate, p.audio_rate),
        ShuttleStep::Pause => (0, 0, NORMAL_RATE),
    };
    let pause = matches!(step, ShuttleStep::Pause);
    let backward = matches!(step, ShuttleStep::Backward(_));
    Playback {
        jkl_forward_rate: forward,
        jkl_reverse_rate: reverse,
        audio_rate: audio,
        playback_rate: if timeline || backward {
            p.playback_rate
        } else {
            audio
        },
        timeline_is_paused: if timeline {
            pause
        } else {
            p.timeline_is_paused
        },
        is_paused: if timeline {
            p.is_paused
        } else {
            pause
        },
        ..p
    }
}

impl AppState {
    /// The player that the keys control.
    pub fn jkl_active_handle(&self) -> (p: Option<ActivePlayer>)
        ensures
            p == self.playback.shuttles(),
    {
        if self.playback.timeline_player.is_running() {
            if self.playback.timeline_player.handle {
                Some(ActivePlayer::Timeline)
            } else {
                None
            }
        } else if self.playback.player.is_running() && self.playback.player.handle {
            Some(ActivePlayer::SourceMonitor)
        } else {
            None
        }
    }

    /// Ends playing backward by key.
    pub fn stop_jkl_reverse(&mut self)
        ensures
            *final(self) == (AppState {
                playback: Playback { jkl_reverse_rate: 0, ..old(self).playback },
                ..*old(self)
            }),
    {
        self.playback.jkl_reverse_rate = 0;
    }

    /// Acts on the keys, unless text is being typed or no player can be controlled.
    pub fn handle_jkl_transport(&mut self, keys: ShuttleKeys, typing: bool) -> (step: ShuttleStep)
        ensures
            step == (if typing || old(self).playback.shuttles() is None {
                ShuttleStep::Nothing
            } else {
                old(self).playback.shuttle_step(keys)
            }),
            *final(self) == (AppState {
                playback: old(self).playback.shuttled(step),
                ..*old(self)
            }),
    {
        if typing || self.jkl_active_handle().is_none() {
            return ShuttleStep::Nothing;
        }
        let step = if keys.k_down && keys.l {
            ShuttleStep::Forward(SLOW_RATE)
        } else if keys.k_down && keys.j {
            ShuttleStep::Backward(SLOW_RATE)
        } else if keys.k && !keys.l && !keys.j {
            ShuttleStep::Pause
        } else if keys.l {
            ShuttleStep::Forward(next_rate(self.playback.jkl_forward_rate))
        } else if keys.j {
            ShuttleStep::Backward(next_rate(self.playback.jkl_reverse_rate))
        } else {
            ShuttleStep::Nothing
        };
        self.playback = shuttle(self.playback, step);
        step
    }

}

/// Pressing L (or J) again and again doubles the rate from normal speed on and never
/// passes the top rate; from there it stays.
pub proof fn shuttle_rates(rate: u32)
    ensures
        faster(0) == NORMAL_RATE,
        faster(rate) <= TOP_RATE,
        faster(TOP_RATE) == TOP_RATE,
        faster(faster(faster(faster(0)))) == TOP_RATE,
        0 < rate <= TOP_RATE / 2 ==> faster(rate) == 2 * rate,
{
}

/// At most one direction is ever held by key.
pub proof fn one_shuttle_direction(state: Playback, step: ShuttleStep)
    requires
        state.jkl_forward_rate == 0 || state.jkl_reverse_rate == 0,
    ensures
        state.shuttled(step).jkl_forward_rate == 0 || state.shuttled(step).jkl_reverse_rate == 0,
{
}

/// L plays forward and J backward; with K held down, slowly. K alone pauses. Without a key
/// nothing happens.
pub proof fn keys_choose_the_direction(p: Playback, keys: ShuttleKeys)
    ensures
        ({
            let s = p.shuttle_step(keys);
            &&& keys.l && !keys.j ==> s is Forward
            &&& keys.j && !keys.l ==> s is Backward
            &&& keys.k_down && keys.l ==> s == ShuttleStep::Forward(1)
            &&& keys.k_down && keys.j && !keys.l ==> s == ShuttleStep::Backward(1)
            &&& keys.k && !keys.j && !keys.l ==> s == ShuttleStep::Pause
            &&& !keys.j && !keys.k && !keys.l ==> s == ShuttleStep::Nothing
            &&& !keys.k_down && keys.l ==> s == ShuttleStep::Forward(faster(p.jkl_forward_rate))
            &&& !keys.k_down && keys.j && !keys.l ==> s == ShuttleStep::Backward(
                faster(p.jkl_reverse_rate),
            )
        }),
{
}

/// The keys control the timeline's player while it runs, and else that of the source
/// monitor, and no player that cannot be told.
pub proof fn timeline_is_shuttled_first(p: Playback)
    ensures
        p.shuttles() == Some(ActivePlayer::Timeline) <==> p.timeline_player.runs()
            && p.timeline_player.handle,
        p.shuttles() == Some(ActivePlayer::SourceMonitor) <==> !p.timeline_player.runs()
            && p.player.runs() && p.player.handle,
{
}

/// Playing by key lets the controlled player run at that rate in that direction, and only
/// that one; pausing goes back to normal speed; nothing changes nothing. Only playing
/// forward changes how fast the sound goes.
pub proof fn step_reaches_its_player(p: Playback, step: ShuttleStep)
    ensures
        ({
            let r = p.shuttled(step);
            let timeline = p.timeline_player.runs();
            &&& step is Nothing ==> r == p
            &&& step matches ShuttleStep::Forward(rate) ==> r.jkl_forward_rate == rate
                && r.jkl_reverse_rate == 0 && r.audio_rate == rate
            &&& step matches ShuttleStep::Backward(rate) ==> r.jkl_reverse_rate == rate
                && r.jkl_forward_rate == 0 && r.audio_rate == p.audio_rate && r.playback_rate
                == p.playback_rate
            &&& step is Pause ==> r.jkl_forward_rate == 0 && r.jkl_reverse_rate == 0
                && r.audio_rate == 4
            &&& timeline ==> r.is_paused == p.is_paused && r.playback_rate == p.playback_rate
            &&& !timeline ==> r.timeline_is_paused == p.timeline_is_paused
            &&& timeline && !(step is Nothing) ==> (r.timeline_is_paused <==> step is Pause)
            &&& !timeline && !(step is Nothing) ==> (r.is_paused <==> step is Pause)
            &&& !timeline && (step is Forward || step is Pause) ==> r.playback_rate == r.audio_rate
            &&& r == (Playback {
                jkl_forward_rate: r.jkl_forward_rate,
                jkl_reverse_rate: r.jkl_reverse_rate,
                audio_rate: r.audio_rate,
                playback_rate: r.playback_rate,
                timeline_is_paused: r.timeline_is_paused,
                is_paused: r.is_paused,
                ..p
            })
        }),
{
}

/// The first press plays at normal speed, each further one twice as fast, up to eight times.
pub proof fn presses_double_the_rate(rate: u32)
    ensures
        faster(0) == 4,
        0 < rate <= 16 ==> faster(rate) == 2 * rate,
        rate > 16 ==> faster(rate) == 32,
{
}

} // verus!
