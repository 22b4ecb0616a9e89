use vstd::prelude::*;
use crate::measure::CongMeasurements;
use vstd::arithmetic::div_mod::lemma_fundamental_div_mod;

verus! {

/// The window is held in fixed point: this many units make one byte.
pub const CWND_SCALE: u64 = 65536;

/// Initial window, in bytes, used when the datapath reports none.
pub const DEFAULT_INIT_CWND: u32 = 14600;

/// Mathematical state of a window controller; `init_cwnd` and `cwnd` are in
/// units of `1 / CWND_SCALE` byte.
pub ghost struct WindowModel {
    pub mss: nat,
    pub init_cwnd: nat,
    pub cwnd: nat,
}

/// `mss * acked / cwnd` bytes, expressed in window units and rounded down.
pub open spec fn growth(mss: nat, acked: nat, cwnd: nat) -> nat
    recommends
        cwnd > 0,
{
    ((mss * acked * CWND_SCALE * CWND_SCALE) as int / (cwnd as int)) as nat
}

impl WindowModel {
    pub open spec fn wf(self) -> bool {
        &&& 0 < self.init_cwnd <= self.cwnd <= u64::MAX
        &&& self.mss <= u32::MAX
    }

    /// The window after one report: additive growth while nothing is lost
    /// (capped at the largest representable window), halving down to the
    /// initial window otherwise.
    pub open spec fn after(self, ms: CongMeasurements) -> WindowModel {
        let cwnd = if ms.loss == 0 {
            let grown = self.cwnd + growth(self.mss, ms.acked as nat, self.cwnd);
            if grown > u64::MAX { u64::MAX as nat } else { grown }
        } else {
            let halved = self.cwnd / 2;
            if halved < self.init_cwnd { self.init_cwnd } else { halved }
        };
        WindowModel { cwnd, ..self }
    }

    /// The window, in whole bytes, that the datapath is told to use.
    pub open spec fn window_bytes(self) -> nat {
        let bytes = self.cwnd / (CWND_SCALE as nat);
        if bytes > u32::MAX { u32::MAX as nat } else { bytes }
    }
}

/// The state after applying a sequence of reports in order.
pub open spec fn run(w: WindowModel, reports: Seq<CongMeasurements>) -> WindowModel
    decreases reports.len(),
{
    if reports.len() == 0 {
        w
    } else {
        run(w, reports.drop_last()).after(reports.last())
    }
}

/// Without loss a report never shrinks the window, and it adds
/// `mss * acked / cwnd` bytes to within one window unit (in units,
/// `d * cwnd <= mss * acked * CWND_SCALE^2 < (d + 1) * cwnd` for the increase
/// `d`), unless the window has reached its largest value.
pub proof fn lemma_growth_step(w: WindowModel, ms: CongMeasurements)
    requires
        w.wf(),
        ms.loss == 0,
    ensures
        w.after(ms).cwnd >= w.cwnd,
        w.after(ms).cwnd < u64::MAX ==> {
            let d = w.after(ms).cwnd - w.cwnd;
            let x = w.mss * ms.acked * CWND_SCALE * CWND_SCALE;
            d * w.cwnd <= x < (d + 1) * w.cwnd
        },
{
    let x = w.mss * ms.acked * CWND_SCALE * CWND_SCALE;
    let c = w.cwnd as int;
    lemma_fundamental_div_mod(x, c);
    assert(x % c < c);
    assert((x / c) * c <= x < (x / c + 1) * c) by (nonlinear_arith)
        requires x == c * (x / c) + x % c, 0 <= x % c < c;
}

/// A timeout alone does not cut the window: a report without loss follows
/// the growth rule whether or not it carries the timeout flag.
pub proof fn lemma_timeout_without_loss_grows(w: WindowModel, ms: CongMeasurements)
    requires
        w.wf(),
        ms.loss == 0,
    ensures
        w.after(ms) == w.after(CongMeasurements { was_timeout: !ms.was_timeout, ..ms }),
        w.after(ms).cwnd >= w.cwnd,
{
    lemma_growth_step(w, ms);
}

/// A report with loss halves the window, but never below the initial window,
/// also when the window already stands at it.
pub proof fn lemma_loss_step(w: WindowModel, ms: CongMeasurements)
    requires
        w.wf(),
        ms.loss > 0,
    ensures
        w.after(ms).cwnd == if w.cwnd / 2 < w.init_cwnd { w.init_cwnd } else { w.cwnd / 2 },
        w.after(ms).cwnd >= w.init_cwnd,
        w.cwnd == w.init_cwnd ==> w.after(ms).cwnd == w.init_cwnd,
{
}

/// For every sequence of reports the state stays well formed: the window
/// never falls below the initial window, and the segment size and initial
/// window do not change.
pub proof fn lemma_run_keeps_floor(w: WindowModel, reports: Seq<CongMeasurements>)
    requires
        w.wf(),
    ensures
        run(w, reports).wf(),
        run(w, reports).cwnd >= w.init_cwnd,
        run(w, reports).init_cwnd == w.init_cwnd,
        run(w, reports).mss == w.mss,
    decreases reports.len(),
{
    if reports.len() > 0 {
        lemma_run_keeps_floor(w, reports.drop_last());
    }
}

/// Over a sequence of reports none of which has loss, the window is
/// non-decreasing: after `i` reports it is at most what it is after `j >= i`.
pub proof fn lemma_growth_never_shrinks(w: WindowModel, reports: Seq<CongMeasurements>, i: int, j: int)
    requires
        w.wf(),
        forall|k: int| 0 <= k < reports.len() ==> (#[trigger] reports[k]).loss == 0,
        0 <= i <= j <= reports.len(),
    ensures
        run(w, reports.take(i)).cwnd <= run(w, reports.take(j)).cwnd,
    decreases j - i,
{
    if i < j {
        lemma_growth_never_shrinks(w, reports, i, j - 1);
        assert(reports.take(j).drop_last() =~= reports.take(j - 1));
        lemma_run_keeps_floor(w, reports.take(j - 1));
        lemma_growth_step(run(w, reports.take(j - 1)), reports[j - 1]);
    }
}

/// Per-connection congestion window state.
pub struct WindowController {
    mss: u32,
    init_cwnd: u64,
    cwnd: u64,
}

impl View for WindowController {
    type V = WindowModel;

    closed spec fn view(&self) -> WindowModel {
        WindowModel { mss: self.mss as nat, init_cwnd: self.init_cwnd as nat, cwnd: self.cwnd as nat }
    }
}

impl WindowController {
    pub open spec fn wf(&self) -> bool {
        self@.wf()
    }

    /// Initial state: the window starts at the floor, which is the reported
    /// initial window or, when none is reported, the default.
    pub open spec fn spec_new(mss: u32, init_cwnd: u32) -> WindowModel {
        let bytes = if init_cwnd == 0 { DEFAULT_INIT_CWND } else { init_cwnd };
        WindowModel { mss: mss as nat, init_cwnd: (bytes * CWND_SCALE) as nat, cwnd: (bytes * CWND_SCALE) as nat }
    }

    /// A controller for a connection with the given segment size and initial
    /// window in bytes; a zero initial window stands for none reported.
    pub fn new(mss: u32, init_cwnd: u32) -> (r: WindowController)
        ensures
            r.wf(),
            r@ == Self::spec_new(mss, init_cwnd),
    {
        let bytes: u32 = if init_cwnd == 0 { DEFAULT_INIT_CWND } else { init_cwnd };
        let units: u64 = bytes as u64 * CWND_SCALE;
        WindowController { mss, init_cwnd: units, cwnd: units }
    }

    /// A controller whose window stands at `cwnd` bytes, raised to the floor
    /// where it is below it.
    pub fn with_cwnd(mss: u32, init_cwnd: u32, cwnd: u32) -> (r: WindowController)
        ensures
            r.wf(),
            r@.mss == Self::spec_new(mss, init_cwnd).mss,
            r@.init_cwnd == Self::spec_new(mss, init_cwnd).init_cwnd,
            r@.cwnd == if cwnd * CWND_SCALE < r@.init_cwnd { r@.init_cwnd } else { (cwnd * CWND_SCALE) as nat },
    {
        let mut r = Self::new(mss, init_cwnd);
        let units: u64 = cwnd as u64 * CWND_SCALE;
        if units > r.init_cwnd {
            r.cwnd = units;
        }
        r
    }

    /// Applies one report to the window.
    pub fn on_measurements(&mut self, ms: &CongMeasurements)
        requires
            old(self).wf(),
        ensures
            final(self).wf(),
            final(self)@ == old(self)@.after(*ms),
    {
        if ms.loss == 0 {
            let cwnd = self.cwnd as u128;
            let mss = self.mss as u128;
            let acked = ms.acked as u128;
            assert(mss * acked * 0x1_0000_0000 <= 0xffff_ffff * 0xffff_ffff * 0x1_0000_0000) by (nonlinear_arith)
                requires mss <= 0xffff_ffff, acked <= 0xffff_ffff;
            let scaled: u128 = mss * acked * 0x1_0000_0000;
            assert(scaled == (self.mss as nat) * (ms.acked as nat) * CWND_SCALE * CWND_SCALE);
            let inc: u128 = scaled / cwnd;
            assert(inc <= scaled) by (nonlinear_arith)
                requires inc == scaled / cwnd, cwnd > 0;
            let grown: u128 = cwnd + inc;
            self.cwnd = if grown > u64::MAX as u128 { u64::MAX } else { grown as u64 };
        } else {
            let halved = self.cwnd / 2;
            self.cwnd = if halved < self.init_cwnd { self.init_cwnd } else { halved };
        }
    }

    /// The current window in whole bytes, saturating at `u32::MAX`.
    pub fn window_bytes(&self) -> (r: u32)
        ensures
            r == self@.window_bytes(),
    {
        let bytes = self.cwnd / CWND_SCALE;
        if bytes > u32::MAX as u64 { u32::MAX } else { bytes as u32 }
    }

    pub fn mss(&self) -> (r: u32)
        ensures
            r == self@.mss,
    {
        self.mss
    }
}

} // verus!
