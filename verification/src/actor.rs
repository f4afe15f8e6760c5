//! Inhibition state actor: the single owner of the inhibition handle.
//!
//! The daemon runs this state machine behind a command queue, one request at
//! a time, so the net effect of any number of concurrent requests is some
//! serial ordering of them. The one external step — the Session Manager's
//! `inhibit` call — is performed by the caller between `needs_inhibit_call`
//! and `serve`, and its outcome is handed back in as a plain value, so the
//! whole decision logic here is verified for every outcome.

use vstd::prelude::*;
use crate::Signal;

verus! {

/// What came of the Session Manager's `inhibit` call for one request:
/// `NotNeeded` when no call had to be made (the request was not an acquire,
/// or a handle was already held), otherwise the obtained handle or a failure.
pub enum InhibitOutcome<H> {
    NotNeeded,
    Obtained(H),
    Failed,
}

/// Whether serving `request` in a state where a handle is (not) held
/// requires calling the Session Manager's `inhibit`: only an acquire with no
/// handle held does.
pub open spec fn inhibit_call_needed(held: bool, request: Signal) -> bool {
    request is On && !held
}

/// Whether a handle is held after serving `request`, where `obtained` says
/// whether an `inhibit` call was made and returned a handle.
pub open spec fn held_after(held: bool, request: Signal, obtained: bool) -> bool {
    match request {
        Signal::Query => held,
        Signal::On => held || obtained,
        Signal::Off => false,
    }
}

/// The reply sent back for `request`, where `failed` says whether a needed
/// `inhibit` call was made and failed. A failed acquire gets no reply: the
/// exchange is aborted. A query echoes the held state; a successful acquire
/// or release echoes the requested state.
pub open spec fn reply_for(held: bool, request: Signal, failed: bool) -> Option<Signal> {
    if failed {
        None
    } else {
        match request {
            Signal::Query => Some(if held { Signal::On } else { Signal::Off }),
            Signal::On => Some(Signal::On),
            Signal::Off => Some(Signal::Off),
        }
    }
}

/// The Session Manager's inhibit call failed (permission denied, service
/// down); the actor's state is unchanged and the exchange gets no reply.
#[derive(Clone, Copy, Debug, PartialEq, Eq, Structural)]
pub struct ExternalServiceError;

/// The state the actor owns: the inhibition handle, if one is held.
/// At most one handle exists at any time, structurally: this `Option` is the
/// only place a handle lives in the daemon.
pub struct InhibitorState<H> {
    handle: Option<H>,
}

impl<H> InhibitorState<H> {
    /// Whether a handle is currently held.
    pub closed spec fn holds(&self) -> bool {
        self.handle is Some
    }

    /// The held handle itself, for stating which handle survives a step.
    pub closed spec fn handle_value(&self) -> Option<H> {
        self.handle
    }

    /// A fresh daemon starts with no handle held.
    pub fn new() -> (s: Self)
        ensures
            !s.holds(),
    {
        InhibitorState { handle: None }
    }

    /// True iff a handle is currently held. No side effect.
    pub fn query(&self) -> (r: bool)
        ensures
            r == self.holds(),
    {
        self.handle.is_some()
    }

    /// Whether serving `request` requires the caller to make the external
    /// `inhibit` call first. False for an acquire when a handle is already
    /// held: acquiring is idempotent and must not call out again.
    pub fn needs_inhibit_call(&self, request: &Signal) -> (r: bool)
        ensures
            r == inhibit_call_needed(self.holds(), *request),
    {
        match request {
            Signal::On => self.handle.is_none(),
            _ => false,
        }
    }

    /// Acquire the inhibition lease. Idempotent: when a handle is already
    /// held this is a success that changes nothing and must have made no
    /// external call (`outcome` is `NotNeeded`). Otherwise `outcome` reports
    /// the external `inhibit` call the caller made: an obtained handle is
    /// stored and the call succeeds; a failure is propagated and the state
    /// is left unchanged.
    pub fn acquire(&mut self, outcome: InhibitOutcome<H>) -> (r: Result<
        (),
        ExternalServiceError,
    >)
        requires
            (outcome is NotNeeded) <==> old(self).holds(),
        ensures
            final(self).holds() == held_after(old(self).holds(), Signal::On, outcome is Obtained),
            r is Ok <==> !(outcome is Failed),
            outcome matches InhibitOutcome::Obtained(h) ==> final(self).handle_value()
                == Some(h),
            !(outcome is Obtained) ==> final(self).handle_value() == old(self).handle_value(),
    {
        match outcome {
            InhibitOutcome::NotNeeded => Ok(()),
            InhibitOutcome::Obtained(h) => {
                self.handle = Some(h);
                Ok(())
            },
            InhibitOutcome::Failed => Err(ExternalServiceError),
        }
    }

    /// Release the inhibition lease: drop the held handle, if any. Dropping
    /// it is the release — handle validity is lease validity — so this
    /// always succeeds, also when nothing is held.
    pub fn release(&mut self) -> (r: Result<(), ExternalServiceError>)
        ensures
            !final(self).holds(),
            r is Ok,
    {
        self.handle = None;
        Ok(())
    }

    /// Serve one decoded request: the per-connection dispatch. `outcome`
    /// reports the external `inhibit` call the caller made exactly when
    /// `needs_inhibit_call` said one was needed. Returns the reply to send,
    /// or `None` when the exchange is aborted without a reply (a failed
    /// acquire).
    pub fn serve(&mut self, request: Signal, outcome: InhibitOutcome<H>) -> (reply: Option<
        Signal,
    >)
        requires
            inhibit_call_needed(old(self).holds(), request) <==> !(outcome is NotNeeded),
        ensures
            final(self).holds() == held_after(old(self).holds(), request, outcome is Obtained),
            reply == reply_for(old(self).holds(), request, outcome is Failed),
            outcome matches InhibitOutcome::Obtained(h) ==> final(self).handle_value()
                == Some(h),
            !(outcome is Obtained) && !(request is Off) ==> final(self).handle_value() == old(
                self,
            ).handle_value(),
    {
        match request {
            Signal::Query => {
                if self.query() {
                    Some(Signal::On)
                } else {
                    Some(Signal::Off)
                }
            },
            Signal::On => {
                match self.acquire(outcome) {
                    Ok(_) => Some(Signal::On),
                    Err(_) => None,
                }
            },
            Signal::Off => {
                match self.release() {
                    Ok(_) => Some(Signal::Off),
                    Err(_) => None,
                }
            },
        }
    }
}

/// Whether a handle is held after serving a whole sequence of requests in
/// order, assuming every needed external `inhibit` call succeeds.
pub open spec fn held_after_all(held: bool, reqs: Seq<Signal>) -> bool
    decreases reqs.len(),
{
    if reqs.len() == 0 {
        held
    } else {
        held_after_all(
            held_after(held, reqs[0], inhibit_call_needed(held, reqs[0])),
            reqs.skip(1),
        )
    }
}

/// How many external `inhibit` calls serving the sequence makes, assuming
/// every needed call succeeds.
pub open spec fn inhibit_calls_made(held: bool, reqs: Seq<Signal>) -> nat
    decreases reqs.len(),
{
    if reqs.len() == 0 {
        0nat
    } else {
        (if inhibit_call_needed(held, reqs[0]) {
            1nat
        } else {
            0nat
        }) + inhibit_calls_made(
            held_after(held, reqs[0], inhibit_call_needed(held, reqs[0])),
            reqs.skip(1),
        )
    }
}

/// Acquiring is idempotent: two acquires in a row from any state leave a
/// handle held, and make exactly one external `inhibit` call when none was
/// held — and none at all when one already was.
pub proof fn lemma_idempotent_acquire(held: bool)
    ensures
        held_after_all(held, seq![Signal::On, Signal::On]),
        inhibit_calls_made(held, seq![Signal::On, Signal::On]) == (if held {
            0nat
        } else {
            1nat
        }),
{
    reveal_with_fuel(held_after_all, 3);
    reveal_with_fuel(inhibit_calls_made, 3);
    let reqs = seq![Signal::On, Signal::On];
    assert(reqs.skip(1) =~= seq![Signal::On]);
    assert(seq![Signal::On].skip(1) =~= Seq::<Signal>::empty());
}

/// Releasing is idempotent: a release succeeds from any state — in
/// particular when nothing is held — never calls out, and leaves the state
/// unheld, so a following query replies `Off`.
pub proof fn lemma_idempotent_release(held: bool)
    ensures
        !held_after_all(held, seq![Signal::Off]),
        inhibit_calls_made(held, seq![Signal::Off]) == 0,
        reply_for(held, Signal::Off, false) == Some(Signal::Off),
        reply_for(held_after(held, Signal::Off, false), Signal::Query, false) == Some(
            Signal::Off,
        ),
{
    reveal_with_fuel(held_after_all, 2);
    reveal_with_fuel(inhibit_calls_made, 2);
    assert(seq![Signal::Off].skip(1) =~= Seq::<Signal>::empty());
}

/// Concurrency safety, at the level the actor guarantees it: two
/// simultaneous acquires are served in some serial order, and every serial
/// order of two acquires from the idle state makes exactly one external
/// `inhibit` call and ends with a handle held.
pub proof fn lemma_serialized_double_acquire(reqs: Seq<Signal>)
    requires
        reqs.len() == 2,
        reqs[0] is On,
        reqs[1] is On,
    ensures
        held_after_all(false, reqs),
        inhibit_calls_made(false, reqs) == 1,
{
    reveal_with_fuel(held_after_all, 3);
    reveal_with_fuel(inhibit_calls_made, 3);
    assert(reqs.skip(1) =~= seq![reqs[1]]);
    assert(seq![reqs[1]].skip(1) =~= Seq::<Signal>::empty());
}

} // verus!
