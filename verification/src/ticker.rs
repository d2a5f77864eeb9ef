//! The animated line of the installation screen: a phrase typed out one
//! character at a time, held, then deleted from the front, after which a
//! phrase picked at random is typed. Times are milliseconds on the caller's
//! clock.
use vstd::prelude::*;
use rand::seq::IndexedRandom;
use crate::text::{chars_to_string, strings_view, to_chars};

verus! {

/// What the ticker is doing, and for a held phrase since when.
#[derive(Clone, Copy, Debug, PartialEq, Eq, Structural)]
pub enum TickerPhase {
    Typing,
    FullIdle(u64),
    Deleting,
}

pub struct FancyTicker {
    pub messages: Vec<String>,
    pub target: Vec<char>,
    pub buf: Vec<char>,
    pub phase: TickerPhase,
    pub last_step: u64,
    pub type_interval: u64,
    pub delete_interval: u64,
    pub idle_duration: u64,
    pub hue: u16,
}

/// Time from `since` to `now`; none when `now` is earlier.
pub open spec fn elapsed(now: u64, since: u64) -> int {
    if now >= since {
        now - since
    } else {
        0
    }
}

fn elapsed_exec(now: u64, since: u64) -> (r: u64)
    ensures
        r == elapsed(now, since),
{
    if now >= since {
        now - since
    } else {
        0
    }
}

/// Picks one of `messages` with `IndexedRandom::choose` on the thread's
/// random generator. The contract says that the result is one of the
/// messages, and `None` only when there is none; which one comes back is
/// left open.
#[verifier::external_body]
fn pick_message(messages: &Vec<String>) -> (r: Option<String>)
    ensures
        r is None <==> messages@.len() == 0,
        r matches Some(m) ==> exists|i: int| 0 <= i < messages@.len() && messages@[i]@ == m@,
{
    messages.choose(&mut rand::rng()).cloned()
}

impl FancyTicker {
    /// What is on screen fits the phase: a prefix of the phrase while typing,
    /// all of it while held, and what is left of it while deleting.
    pub open spec fn wf(&self) -> bool {
        match self.phase {
            TickerPhase::Typing => self.target@.len() >= self.buf@.len() && self.target@.take(
                self.buf@.len() as int,
            ) == self.buf@,
            TickerPhase::FullIdle(_) => self.buf@ == self.target@,
            TickerPhase::Deleting => self.target@.len() >= self.buf@.len() && self.target@.skip(
                self.target@.len() - self.buf@.len(),
            ) == self.buf@,
        }
    }

    /// Whether a tick at `now` ends a deletion and so picks the next phrase.
    pub open spec fn picks_at(&self, now: u64) -> bool {
        &&& self.phase == TickerPhase::Deleting
        &&& elapsed(now, self.last_step) >= self.delete_interval
        &&& self.buf@.len() == 0
    }

    /// A ticker that starts typing the first of `messages` (nothing when there
    /// is none) at `now`.
    pub fn new(messages: Vec<String>, now: u64) -> (r: Self)
        ensures
            r.wf(),
            strings_view(r.messages@) == strings_view(messages@),
            r.target@ == (if messages@.len() > 0 { messages@[0]@ } else { Seq::<char>::empty() }),
            r.buf@.len() == 0,
            r.phase == TickerPhase::Typing,
            r.last_step == now,
            r.type_interval == 55 && r.delete_interval == 35 && r.idle_duration == 1800,
            r.hue == 0,
    {
        let target = if messages.len() > 0 {
            to_chars(messages[0].as_str())
        } else {
            Vec::new()
        };
        let r = FancyTicker {
            messages,
            target,
            buf: Vec::new(),
            phase: TickerPhase::Typing,
            last_step: now,
            type_interval: 55,
            delete_interval: 35,
            idle_duration: 1800,
            hue: 0,
        };
        assert(r.target@.take(0) =~= r.buf@);
        r
    }

    /// Starts typing `s` afresh at `now`.
    pub fn set_phrase(&mut self, s: &str, now: u64)
        ensures
            final(self).wf(),
            final(self).target@ == s@,
            final(self).buf@.len() == 0,
            final(self).phase == TickerPhase::Typing,
            final(self).last_step == now,
            strings_view(final(self).messages@) == strings_view(old(self).messages@),
            final(self).type_interval == old(self).type_interval,
            final(self).delete_interval == old(self).delete_interval,
            final(self).idle_duration == old(self).idle_duration,
            final(self).hue == old(self).hue,
    {
        self.target = to_chars(s);
        self.buf = Vec::new();
        self.phase = TickerPhase::Typing;
        self.last_step = now;
        assert(self.target@.take(0) =~= self.buf@);
    }

    /// The text on screen.
    pub fn text(&self) -> (r: String)
        ensures
            r@ == self.buf@,
    {
        assert(self.buf@.subrange(0, self.buf@.len() as int) =~= self.buf@);
        chars_to_string(&self.buf, 0, self.buf.len())
    }

    /// Advances the animation to `now`. Typing adds the next character of the
    /// phrase once a typing interval has passed, and holds the phrase when it
    /// is complete; a held phrase starts deleting once the idle time has
    /// passed; deleting drops the first character once a deleting interval has
    /// passed and, when nothing is left, picks one of the messages at random
    /// and types it. The colour moves on at every tick. A ticker without
    /// messages cannot pick one, so a tick that would is left out.
    pub fn tick(&mut self, now: u64)
        requires
            old(self).wf(),
            old(self).picks_at(now) ==> old(self).messages@.len() > 0,
        ensures
            final(self).wf(),
            strings_view(final(self).messages@) == strings_view(old(self).messages@),
            final(self).type_interval == old(self).type_interval,
            final(self).delete_interval == old(self).delete_interval,
            final(self).idle_duration == old(self).idle_duration,
            final(self).hue == (old(self).hue + 4) % 65536,
            match old(self).phase {
                TickerPhase::Typing => if elapsed(now, old(self).last_step) >= old(self).type_interval {
                    let typed = if old(self).buf@.len() < old(self).target@.len() {
                        old(self).buf@.push(old(self).target@[old(self).buf@.len() as int])
                    } else {
                        old(self).buf@
                    };
                    &&& final(self).buf@ == typed
                    &&& final(self).target@ == old(self).target@
                    &&& final(self).last_step == now
                    &&& final(self).phase == (if typed.len() == old(self).target@.len() {
                        TickerPhase::FullIdle(now)
                    } else {
                        TickerPhase::Typing
                    })
                } else {
                    &&& final(self).buf@ == old(self).buf@
                    &&& final(self).target@ == old(self).target@
                    &&& final(self).last_step == old(self).last_step
                    &&& final(self).phase == old(self).phase
                },
                TickerPhase::FullIdle(since) => {
                    &&& final(self).buf@ == old(self).buf@
                    &&& final(self).target@ == old(self).target@
                    &&& if elapsed(now, since) >= old(self).idle_duration {
                        final(self).phase == TickerPhase::Deleting && final(self).last_step == now
                    } else {
                        final(self).phase == old(self).phase && final(self).last_step == old(self).last_step
                    }
                },
                TickerPhase::Deleting => if elapsed(now, old(self).last_step) >= old(self).delete_interval {
                    &&& final(self).last_step == now
                    &&& if old(self).buf@.len() > 0 {
                        &&& final(self).buf@ == old(self).buf@.drop_first()
                        &&& final(self).target@ == old(self).target@
                        &&& final(self).phase == TickerPhase::Deleting
                    } else {
                        &&& final(self).buf@.len() == 0
                        &&& final(self).phase == TickerPhase::Typing
                        &&& exists|i: int| 0 <= i < old(self).messages@.len()
                            && old(self).messages@[i]@ == final(self).target@
                    }
                } else {
                    &&& final(self).buf@ == old(self).buf@
                    &&& final(self).target@ == old(self).target@
                    &&& final(self).last_step == old(self).last_step
                    &&& final(self).phase == old(self).phase
                },
            },
    {
        match self.phase {
            TickerPhase::Typing => {
                if elapsed_exec(now, self.last_step) >= self.type_interval {
                    self.last_step = now;
                    let next_idx = self.buf.len();
                    if next_idx < self.target.len() {
                        let c = self.target[next_idx];
                        self.buf.push(c);
                        assert(self.target@.take(self.buf@.len() as int) =~= self.buf@);
                    }
                    if self.buf.len() == self.target.len() {
                        assert(self.target@.take(self.buf@.len() as int) =~= self.target@);
                        self.phase = TickerPhase::FullIdle(now);
                    }
                }
            },
            TickerPhase::FullIdle(since) => {
                if elapsed_exec(now, since) >= self.idle_duration {
                    self.phase = TickerPhase::Deleting;
                    self.last_step = now;
                    assert(self.target@.skip(0) =~= self.target@);
                }
            },
            TickerPhase::Deleting => {
                if elapsed_exec(now, self.last_step) >= self.delete_interval {
                    self.last_step = now;
                    if self.buf.len() > 0 {
                        let ghost before = self.buf@;
                        self.buf.remove(0);
                        assert(self.buf@ =~= before.drop_first());
                        assert(self.target@.skip(self.target@.len() - self.buf@.len()) =~= self.buf@);
                    } else {
                        match pick_message(&self.messages) {
                            Some(m) => {
                                self.target = to_chars(m.as_str());
                            },
                            None => {},
                        }
                        self.phase = TickerPhase::Typing;
                        assert(self.target@.take(0) =~= self.buf@);
                    }
                }
            },
        }
        self.hue = self.hue.wrapping_add(4);
    }
}

} // verus!
