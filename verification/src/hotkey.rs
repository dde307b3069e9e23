//! Turning raw key presses and releases of the hotkey into one
//! `HotkeyPressed` per hold and one `HotkeyReleased` per release.

use vstd::prelude::*;

verus! {

/// A press older than this many milliseconds no longer blocks a new one.
pub const STALE_THRESHOLD_MS: u64 = 500;

/// How many times the key listener is restarted before giving up.
pub const MAX_LISTENER_RETRIES: u32 = 3;

/// What the listener reports to the application.
#[derive(Clone, Copy, Debug, PartialEq, Eq, Structural)]
pub enum HotkeySignal {
    Pressed,
    Released,
}

/// A raw event of the hotkey, a press carrying the time in milliseconds.
#[derive(Clone, Copy, Debug, PartialEq, Eq, Structural)]
pub enum KeyEvent {
    Press(u64),
    Release,
}

/// The milliseconds from `last` to `now` on the 64-bit clock, which wraps:
/// a clock set back between two presses gives a very large value.
pub open spec fn elapsed_ms(last: u64, now: u64) -> int {
    if now >= last {
        now - last
    } else {
        now - last + 0x1_0000_0000_0000_0000
    }
}

/// The new press time and whether `Pressed` is sent, for a press at `now`
/// after a press recorded at `last` (0: none outstanding).
pub open spec fn press_step(last: u64, now: u64) -> (u64, bool) {
    if last == 0 || elapsed_ms(last, now) > STALE_THRESHOLD_MS {
        (now, true)
    } else {
        (last, false)
    }
}

/// The new press time and whether `Released` is sent, for a release.
pub open spec fn release_step(last: u64) -> (u64, bool) {
    (0, last > 0)
}

/// The press time after the events, and the signals they send, starting with
/// no press outstanding.
pub open spec fn run_events(evs: Seq<KeyEvent>) -> (u64, Seq<HotkeySignal>)
    decreases evs.len(),
{
    if evs.len() == 0 {
        (0, Seq::empty())
    } else {
        let (last, out) = run_events(evs.drop_last());
        match evs.last() {
            KeyEvent::Press(now) => {
                let (l, send) = press_step(last, now);
                (l, if send { out.push(HotkeySignal::Pressed) } else { out })
            },
            KeyEvent::Release => {
                let (l, send) = release_step(last);
                (l, if send { out.push(HotkeySignal::Released) } else { out })
            },
        }
    }
}

/// The time of the press that is being held, 0 when none is.
#[derive(Clone, Copy, Debug)]
pub struct PressTracker {
    pub last_press_ms: u64,
}

impl PressTracker {
    /// No press outstanding.
    pub fn new() -> (r: PressTracker)
        ensures
            r.last_press_ms == 0,
    {
        PressTracker { last_press_ms: 0 }
    }

    /// A press of the hotkey at `now`: sends `Pressed` unless a recent press
    /// (key auto-repeat) is still being held. The elapsed time wraps as the
    /// 64-bit clock does, so a press after the clock was set back counts as
    /// a new one.
    pub fn key_pressed(&mut self, now: u64) -> (send: bool)
        ensures
            (final(self).last_press_ms, send) == press_step(old(self).last_press_ms, now),
    {
        let last: u64 = self.last_press_ms;
        let elapsed: u64 = if now >= last {
            now - last
        } else {
            (u64::MAX - last) + now + 1
        };
        let stale = last > 0 && elapsed > STALE_THRESHOLD_MS;
        if last == 0 || stale {
            self.last_press_ms = now;
            true
        } else {
            false
        }
    }

    /// A release of the hotkey: sends `Released` if a press was being held.
    pub fn key_released(&mut self) -> (send: bool)
        ensures
            (final(self).last_press_ms, send) == release_step(old(self).last_press_ms),
    {
        if self.last_press_ms > 0 {
            self.last_press_ms = 0;
            true
        } else {
            false
        }
    }
}

/// The attempt count to restart the key listener with after it failed for the
/// `retries`-th time, or `None` to give up.
pub fn next_listener_attempt(retries: u32) -> (r: Option<u32>)
    ensures
        retries >= MAX_LISTENER_RETRIES ==> r is None,
        retries < MAX_LISTENER_RETRIES ==> r == Some((retries + 1) as u32),
{
    if retries >= MAX_LISTENER_RETRIES {
        None
    } else {
        Some(retries + 1)
    }
}

/// Key auto-repeat: while a press made at `t` is held, further presses within
/// the stale threshold send nothing and keep the press time.
pub proof fn lemma_repeat_suppressed(t: u64, now: u64)
    requires
        t > 0,
        t <= now <= t + STALE_THRESHOLD_MS,
    ensures
        press_step(t, now) == (t, false),
{
}

/// A press made after the clock was set back behind the held press counts as
/// a new press, as the wrapping 64-bit difference of the two times is then
/// far beyond the stale threshold (unless the clock went back by nearly its
/// whole range).
pub proof fn lemma_clock_set_back_press_is_new(t: u64, now: u64)
    requires
        now < t,
        t - now < 0x1_0000_0000_0000_0000 - STALE_THRESHOLD_MS,
    ensures
        press_step(t, now) == (now, true),
{
}

/// After a release the next press is always reported.
pub proof fn lemma_release_rearms(last: u64, now: u64)
    ensures
        press_step(release_step(last).0, now) == (now, true),
{
}

/// A release is reported at most once: a second release sends nothing.
pub proof fn lemma_release_once(last: u64)
    ensures
        !release_step(release_step(last).0).1,
{
}

/// Over any run of events, every `Released` sent directly follows a
/// `Pressed`; so the application never sees a release without a press before
/// it, nor two releases in a row. A press is being held only right after a
/// `Pressed` was sent.
pub proof fn lemma_released_follows_pressed(evs: Seq<KeyEvent>)
    ensures
        ({
            let out = run_events(evs).1;
            forall|i: int|
                0 <= i < out.len() && #[trigger] out[i] == HotkeySignal::Released ==> i > 0
                    && out[i - 1] == HotkeySignal::Pressed
        }),
        run_events(evs).0 > 0 ==> (run_events(evs).1.len() > 0 && run_events(evs).1.last()
            == HotkeySignal::Pressed),
    decreases evs.len(),
{
    if evs.len() > 0 {
        lemma_released_follows_pressed(evs.drop_last());
    }
}

/// When every press carries a positive time, a press is being held exactly
/// when the last signal sent was `Pressed`.
pub proof fn lemma_held_iff_last_pressed(evs: Seq<KeyEvent>)
    requires
        forall|i: int| 0 <= i < evs.len() ==> (#[trigger] evs[i] matches KeyEvent::Press(t) ==> t > 0),
    ensures
        (run_events(evs).0 > 0) == (run_events(evs).1.len() > 0 && run_events(evs).1.last()
            == HotkeySignal::Pressed),
    decreases evs.len(),
{
    lemma_released_follows_pressed(evs);
    if evs.len() > 0 {
        let prefix = evs.drop_last();
        assert forall|i: int| 0 <= i < prefix.len() implies (#[trigger] prefix[i] matches KeyEvent::Press(
            t,
        ) ==> t > 0) by {
            assert(prefix[i] == evs[i]);
        }
        lemma_held_iff_last_pressed(prefix);
        assert(evs.last() == evs[evs.len() - 1]);
    }
}

} // verus!
