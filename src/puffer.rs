use vstd::prelude::*;
use crate::measure::{decode, get_fields, schema_values, CongMeasurements, MissingFieldError};
use crate::window::{WindowController, WindowModel};

verus! {

/// Configuration of the controller; it has no parameters.
#[derive(Clone, Copy, Debug, PartialEq, Eq, Structural)]
pub struct PufferConfig {}

impl Default for PufferConfig {
    fn default() -> (r: PufferConfig)
        ensures
            r == (PufferConfig {}),
    {
        PufferConfig {}
    }
}

/// Name of the congestion control algorithm.
pub fn name() -> (r: &'static str)
    ensures
        r@ == "CCP Interface for Puffer"@,
{
    "CCP Interface for Puffer"
}

/// Controller of one connection: the scope of its installed program and its
/// window.
pub struct Puffer {
    scope: portus::lang::Scope,
    window: WindowController,
}

impl View for Puffer {
    type V = WindowModel;

    closed spec fn view(&self) -> WindowModel {
        self.window@
    }
}

impl Puffer {
    pub open spec fn wf(&self) -> bool {
        self@.wf()
    }

    /// The scope of the connection's installed program.
    pub closed spec fn spec_scope(&self) -> portus::lang::Scope {
        self.scope
    }

    /// A controller for a new connection, given the scope returned when the
    /// program was installed and the segment size and initial window (bytes)
    /// that the datapath reported; a zero initial window stands for none.
    pub fn create(scope: portus::lang::Scope, mss: u32, init_cwnd: u32) -> (r: Puffer)
        ensures
            r.wf(),
            r@ == WindowController::spec_new(mss, init_cwnd),
            r.spec_scope() == scope,
    {
        Puffer { scope, window: WindowController::new(mss, init_cwnd) }
    }

    /// The scope through which the connection's fields are read and written.
    pub fn scope(&self) -> (r: &portus::lang::Scope)
        ensures
            *r == self.spec_scope(),
    {
        &self.scope
    }

    /// Reads the report's measurements and applies them to the window. On a
    /// missing field the window is left as it was.
    pub fn on_report(&mut self, m: &portus::Report) -> (r: Result<CongMeasurements, MissingFieldError>)
        requires
            old(self).wf(),
        ensures
            final(self).wf(),
            final(self).spec_scope() == old(self).spec_scope(),
            r == decode(schema_values(*m, old(self).spec_scope())),
            r matches Ok(ms) ==> final(self)@ == old(self)@.after(ms),
            r is Err ==> final(self)@ == old(self)@,
    {
        let r = get_fields(m, &self.scope);
        if let Ok(ms) = r {
            self.window.on_measurements(&ms);
        }
        r
    }

    /// The window, in whole bytes, to hand to the datapath.
    pub fn window_bytes(&self) -> (r: u32)
        ensures
            r == self@.window_bytes(),
    {
        self.window.window_bytes()
    }
}

} // verus!
