use vstd::prelude::*;
use crate::call::GlCall;
use crate::renderer::{restored, Renderer};

verus! {

/// An error code of the graphics API that is not zero, with the call that
/// it was read after.
#[derive(Clone, Copy, Debug, PartialEq, Eq)]
pub struct GlError {
    pub call: GlCall,
    pub code: u32,
}

/// The error code that stands for no error.
pub const NO_ERROR: u32 = 0;

/// Judges the error code that the graphics API reports after a call: any
/// code but zero is an error.
pub fn check(call: GlCall, code: u32) -> (r: Result<(), GlError>)
    ensures
        r == if code == NO_ERROR {
            Ok::<(), GlError>(())
        } else {
            Err::<(), GlError>(GlError { call, code })
        },
{
    if code == NO_ERROR {
        Ok(())
    } else {
        Err(GlError { call, code })
    }
}

/// What a pass shows of itself.
pub struct PassView {
    /// The plan that it carries out.
    pub plan: Seq<GlCall>,
    /// While no call has failed, the number of calls of the plan that are
    /// made; from then on, the place of the call that failed.
    pub step: nat,
    /// The first error that the graphics API reported.
    pub failure: Option<GlError>,
    /// Number of restoring calls that are made since a call failed.
    pub back: nat,
}

impl PassView {
    /// The call to make next: the next call of the plan while none has
    /// failed, then the restoring calls, and nothing when either is through.
    pub open spec fn pending(self) -> Option<GlCall> {
        if self.failure is None {
            if self.step < self.plan.len() {
                Some(self.plan[self.step as int])
            } else {
                None
            }
        } else {
            if self.back < restored().len() {
                Some(restored()[self.back as int])
            } else {
                None
            }
        }
    }

    /// The calls that the pass has made so far, in their order.
    pub open spec fn made(self) -> Seq<GlCall> {
        if self.failure is None {
            self.plan.take(self.step as int)
        } else {
            self.plan.take(self.step as int + 1) + restored().take(self.back as int)
        }
    }

    /// The pass after the graphics API has reported `code` for the pending
    /// call. The first code that is not zero is kept with its call, and the
    /// pass turns to the restoring calls; what those report is passed over.
    /// A pass with nothing pending stays as it is.
    pub open spec fn next(self, code: u32) -> PassView {
        match self.pending() {
            None => self,
            Some(call) => {
                if self.failure is Some {
                    PassView { back: self.back + 1, ..self }
                } else if code != NO_ERROR {
                    PassView { failure: Some(GlError { call, code }), ..self }
                } else {
                    PassView { step: self.step + 1, ..self }
                }
            },
        }
    }

    /// How the pass has ended, if it has: well where every call of the plan
    /// went through, with the first error where one did not.
    pub open spec fn outcome(self) -> Option<Result<(), GlError>> {
        if self.pending() is Some {
            None
        } else {
            match self.failure {
                None => Some(Ok(())),
                Some(error) => Some(Err(error)),
            }
        }
    }

    /// What holds of every pass: it is inside its plan, and a failure names
    /// the call of the plan at which the pass stopped.
    pub open spec fn well_formed(self) -> bool {
        &&& self.step <= self.plan.len()
        &&& self.back <= restored().len()
        &&& match self.failure {
            None => self.back == 0,
            Some(error) => self.step < self.plan.len() && error.call == self.plan[self.step as int]
                && error.code != NO_ERROR,
        }
    }
}

/// One pass through a plan, as a dialogue with the graphics API: it names
/// the call to make next and takes the error code that the call has left.
/// After the first error code it leaves the rest of the plan out, gives the
/// pipeline back and ends with the error.
pub struct Pass {
    plan: Vec<GlCall>,
    tail: Vec<GlCall>,
    step: usize,
    failure: Option<GlError>,
    back: usize,
}

impl View for Pass {
    type V = PassView;

    closed spec fn view(&self) -> PassView {
        PassView {
            plan: self.plan@,
            step: self.step as nat,
            failure: self.failure,
            back: self.back as nat,
        }
    }
}

impl Pass {
    #[verifier::type_invariant]
    spec fn inv(self) -> bool {
        &&& self@.well_formed()
        &&& self.tail@ == restored()
    }

    /// Starts a pass through a plan.
    pub fn new(plan: Vec<GlCall>) -> (pass: Pass)
        ensures
            pass@ == (PassView { plan: plan@, step: 0, failure: None, back: 0 }),
            pass@.well_formed(),
    {
        Pass { plan, tail: Renderer::restore(), step: 0, failure: None, back: 0 }
    }

    /// The call to make next, or nothing when the pass is through.
    pub fn pending(&self) -> (call: Option<GlCall>)
        ensures
            call == self@.pending(),
            self@.well_formed(),
    {
        proof {
            use_type_invariant(self);
        }
        if self.failure.is_none() {
            if self.step < self.plan.len() {
                Some(self.plan[self.step])
            } else {
                None
            }
        } else {
            if self.back < self.tail.len() {
                Some(self.tail[self.back])
            } else {
                None
            }
        }
    }

    /// Takes the error code that the graphics API reports after the pending
    /// call.
    pub fn advance(&mut self, code: u32)
        ensures
            final(self)@ == old(self)@.next(code),
            final(self)@.well_formed(),
    {
        proof {
            use_type_invariant(&*self);
        }
        if self.failure.is_none() {
            if self.step < self.plan.len() {
                let call = self.plan[self.step];
                if code != NO_ERROR {
                    self.failure = Some(GlError { call, code });
                } else {
                    self.step = self.step + 1;
                }
            }
        } else {
            if self.back < self.tail.len() {
                self.back = self.back + 1;
            }
        }
    }

    /// How the pass has ended, or nothing while a call is pending.
    pub fn outcome(&self) -> (outcome: Option<Result<(), GlError>>)
        ensures
            outcome == self@.outcome(),
            self@.well_formed(),
    {
        proof {
            use_type_invariant(self);
        }
        match self.failure {
            None => {
                if self.step < self.plan.len() {
                    None
                } else {
                    Some(Ok(()))
                }
            },
            Some(error) => {
                if self.back < self.tail.len() {
                    None
                } else {
                    Some(Err(error))
                }
            },
        }
    }
}

/// Each step of a pass makes the call that was pending, and keeps the pass
/// well formed.
pub proof fn pass_makes_pending(v: PassView, code: u32)
    requires
        v.well_formed(),
        v.pending() is Some,
    ensures
        v.next(code).well_formed(),
        v.next(code).made() == v.made().push(v.pending()->0),
        v.next(code).plan == v.plan,
{
    let w = v.next(code);
    if v.failure is Some {
        assert(restored().take(v.back as int + 1) =~= restored().take(v.back as int).push(
            restored()[v.back as int],
        ));
        assert(w.made() =~= v.made().push(v.pending()->0));
    } else if code != NO_ERROR {
        assert(restored().take(0) =~= Seq::<GlCall>::empty());
        assert(w.made() =~= v.made().push(v.pending()->0));
    } else {
        assert(w.made() =~= v.made().push(v.pending()->0));
    }
}

/// A pass that has ended well has made exactly the calls of its plan; one
/// that has ended with an error has made the calls of its plan up to and
/// with the one that failed, and behind them the restoring calls.
pub proof fn pass_ends_restoring(v: PassView)
    requires
        v.well_formed(),
        v.pending() is None,
    ensures
        v.outcome() is Some,
        v.outcome() == Some(Ok::<(), GlError>(())) ==> v.made() == v.plan,
        v.outcome() matches Some(Err(error)) ==> v.failure == Some(error) && error.call
            == v.plan[v.step as int] && v.made() == v.plan.take(v.step as int + 1) + restored(),
{
    if v.failure is None {
        assert(v.plan.take(v.step as int) =~= v.plan);
    } else {
        assert(restored().take(v.back as int) =~= restored());
    }
}

} // verus!
