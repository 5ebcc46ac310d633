//! Automatic antenna tuning of the ST25R39xx.
//!
//! Two capacitors tune the antenna. The tuning walks downhill on a cost
//! that says how far amplitude and phase lie from their targets: from where
//! it stands it tries one step of each capacitor in each direction, moves
//! to the best of the four if that is better than where it stands, and ends
//! when none is. The cost falls with every move, so the walk ends.
//!
//! A measurement takes time, so the walk is given as a state machine: it
//! says where to measure next, and takes the cost that was measured there.
use vstd::prelude::*;

verus! {

/// The range, the start and the step of the two tuning capacitors, and what
/// is aimed at.
#[derive(Clone, Copy, Debug, PartialEq, Eq)]
pub struct AatConfig {
    pub a_min: u8,
    pub a_max: u8,
    pub a_start: u8,
    pub a_step: u8,
    pub b_min: u8,
    pub b_max: u8,
    pub b_start: u8,
    pub b_step: u8,
    pub pha_target: u8,
    pub pha_weight: u8,
    pub amp_target: u8,
    pub amp_weight: u8,
}

/// How far two readings lie apart.
pub open spec fn distance(x: u8, y: u8) -> int {
    if x >= y {
        x - y
    } else {
        y - x
    }
}

/// The cost of a tuning at which amplitude and phase were measured: their
/// distances from the targets, each with its weight.
pub open spec fn cost_of(amp: u8, pha: u8, conf: AatConfig) -> int {
    distance(amp, conf.amp_target) * conf.amp_weight + distance(pha, conf.pha_target)
        * conf.pha_weight
}

/// Works out the cost of a tuning.
pub fn cost(amp: u8, pha: u8, conf: &AatConfig) -> (c: u32)
    ensures
        c == cost_of(amp, pha, *conf),
{
    let da: u32 = if amp >= conf.amp_target {
        (amp - conf.amp_target) as u32
    } else {
        (conf.amp_target - amp) as u32
    };
    let dp: u32 = if pha >= conf.pha_target {
        (pha - conf.pha_target) as u32
    } else {
        (conf.pha_target - pha) as u32
    };
    assert(da * conf.amp_weight <= 255 * 255 && dp * conf.pha_weight <= 255 * 255)
        by (nonlinear_arith)
        requires
            da <= 255,
            dp <= 255,
            conf.amp_weight <= 255,
            conf.pha_weight <= 255,
    ;
    da * conf.amp_weight as u32 + dp * conf.pha_weight as u32
}

/// `val` moved up by `step`, but not above `max` nor above the largest
/// value.
pub open spec fn stepped_up(val: u8, step: u8, max: u8) -> u8 {
    let moved = if val + step > 255 {
        255
    } else {
        val + step
    };
    if moved <= max {
        moved as u8
    } else {
        max
    }
}

/// `val` moved down by `step`, but not below `min` nor below zero.
pub open spec fn stepped_down(val: u8, step: u8, min: u8) -> u8 {
    let moved = if val - step < 0 {
        0
    } else {
        val - step
    };
    if moved >= min {
        moved as u8
    } else {
        min
    }
}

/// Neighbour `k` of the tuning `(a, b)`: the first capacitor up, the first
/// down, the second up, the second down.
pub open spec fn neighbour_of(a: u8, b: u8, conf: AatConfig, k: int) -> (u8, u8) {
    if k == 0 {
        (stepped_up(a, conf.a_step, conf.a_max), b)
    } else if k == 1 {
        (stepped_down(a, conf.a_step, conf.a_min), b)
    } else if k == 2 {
        (a, stepped_up(b, conf.b_step, conf.b_max))
    } else {
        (a, stepped_down(b, conf.b_step, conf.b_min))
    }
}

/// Works out a neighbour of a tuning.
pub fn neighbour(a: u8, b: u8, conf: &AatConfig, k: usize) -> (n: (u8, u8))
    requires
        k < 4,
    ensures
        n == neighbour_of(a, b, *conf, k as int),
{
    if k == 0 {
        let up = if conf.a_step > 255 - a {
            255
        } else {
            a + conf.a_step
        };
        (
            if up <= conf.a_max {
                up
            } else {
                conf.a_max
            },
            b,
        )
    } else if k == 1 {
        let down = if conf.a_step > a {
            0
        } else {
            a - conf.a_step
        };
        (
            if down >= conf.a_min {
                down
            } else {
                conf.a_min
            },
            b,
        )
    } else if k == 2 {
        let up = if conf.b_step > 255 - b {
            255
        } else {
            b + conf.b_step
        };
        (
            a,
            if up <= conf.b_max {
                up
            } else {
                conf.b_max
            },
        )
    } else {
        let down = if conf.b_step > b {
            0
        } else {
            b - conf.b_step
        };
        (
            a,
            if down >= conf.b_min {
                down
            } else {
                conf.b_min
            },
        )
    }
}

/// The state of a tuning walk.
#[derive(Clone, Copy, Debug, PartialEq, Eq)]
pub struct Tuning {
    /// Where the walk stands.
    pub a: u8,
    pub b: u8,
    /// The cost measured there.
    pub cost: u32,
    /// The neighbour to measure next, 0 to 3.
    pub next: u8,
    /// The best neighbour measured in this round, with its cost.
    pub best: Option<(u32, u8, u8)>,
    /// Whether the walk has ended.
    pub done: bool,
}

impl Tuning {
    /// The state is one that a walk passes through.
    pub open spec fn wf(self) -> bool {
        &&& self.next < 4
        &&& self.next > 0 ==> self.best is Some
    }

    /// The walk at its start, where the cost `cost` was measured.
    pub open spec fn initial(conf: AatConfig, cost: u32) -> Tuning {
        Tuning { a: conf.a_start, b: conf.b_start, cost, next: 0, best: None, done: false }
    }

    /// Where to measure next.
    pub open spec fn pending(self, conf: AatConfig) -> (u8, u8) {
        neighbour_of(self.a, self.b, conf, self.next as int)
    }

    /// The best of this round once `cost` was measured at the pending
    /// neighbour: the first of the round, or one that is better than the
    /// best so far.
    pub open spec fn best_with(self, conf: AatConfig, cost: u32) -> (u32, u8, u8) {
        match self.best {
            Some(best) if self.next > 0 && cost >= best.0 => best,
            _ => (cost, self.pending(conf).0, self.pending(conf).1),
        }
    }

    /// The state after `cost` was measured at the pending neighbour. After
    /// the fourth neighbour of a round the walk moves to the best of them
    /// if that is better than where it stands, and ends if it is not.
    pub open spec fn next_state(self, conf: AatConfig, cost: u32) -> Tuning {
        let best = self.best_with(conf, cost);
        if self.done {
            self
        } else if self.next < 3 {
            Tuning { next: (self.next + 1) as u8, best: Some(best), ..self }
        } else if best.0 >= self.cost {
            Tuning { next: 0, best: None, done: true, ..self }
        } else {
            Tuning { a: best.1, b: best.2, cost: best.0, next: 0, best: None, done: false }
        }
    }

    /// Starts a walk at the start of the configuration, where the cost
    /// `cost` was measured.
    pub fn new(conf: &AatConfig, cost: u32) -> (t: Tuning)
        ensures
            t == Tuning::initial(*conf, cost),
            t.wf(),
    {
        Tuning { a: conf.a_start, b: conf.b_start, cost, next: 0, best: None, done: false }
    }

    /// The settings of the two capacitors at which the cost is wanted
    /// next.
    pub fn probe(&self, conf: &AatConfig) -> (at: (u8, u8))
        requires
            self.wf(),
        ensures
            at == self.pending(*conf),
    {
        neighbour(self.a, self.b, conf, self.next as usize)
    }

    /// Takes the cost measured at the pending neighbour. Returns whether
    /// the walk has ended; then `a` and `b` are the tuning found.
    pub fn advance(&mut self, conf: &AatConfig, cost: u32) -> (done: bool)
        requires
            old(self).wf(),
        ensures
            *final(self) == old(self).next_state(*conf, cost),
            final(self).wf(),
            done == final(self).done,
            !old(self).done && !final(self).done ==> final(self).cost <= old(self).cost,
            !old(self).done && !final(self).done && old(self).next == 3 ==> final(self).cost < old(
                self,
            ).cost,
    {
        if self.done {
            return true;
        }
        let at = neighbour(self.a, self.b, conf, self.next as usize);
        let best = match self.best {
            Some(best) => if self.next > 0 && cost >= best.0 {
                best
            } else {
                (cost, at.0, at.1)
            },
            None => (cost, at.0, at.1),
        };
        if self.next < 3 {
            self.next = self.next + 1;
            self.best = Some(best);
        } else if best.0 >= self.cost {
            self.next = 0;
            self.best = None;
            self.done = true;
        } else {
            self.a = best.1;
            self.b = best.2;
            self.cost = best.0;
            self.next = 0;
            self.best = None;
        }
        self.done
    }
}

} // verus!
