//! The middleware stack around the routes, and what becomes of a request
//! that a layer turns away.

use vstd::prelude::*;
use crate::utils::custom_errors::app_error::{classified, AppError, Failure};

verus! {

/// How many requests may run at once.
pub const CONCURRENCY_LIMIT: usize = 1024;

/// How many seconds a request may take.
pub const REQUEST_TIMEOUT_SECS: u64 = 15;

/// One layer of the stack.
#[derive(Clone, Copy, Debug, PartialEq, Eq, Structural)]
pub enum Layer {
    /// Opens a span for the whole lifetime of a request.
    Tracing,
    /// Ends a request that takes longer than this and answers for it.
    Timeout { seconds: u64 },
    /// Lets at most this many requests run at once.
    ConcurrencyLimit { max: usize },
    /// Turns a failure that comes from inside into a response.
    ErrorConversion,
    /// Turns a request away at once while the service is saturated. The
    /// refusal is a failure that travels outward.
    LoadShed,
    /// The routes and the fallback for a path that none of them matches.
    Routes,
}

impl Layer {
    /// The layer can answer a request with a failure of its own, which some
    /// layer further out must turn into a response. The timeout and the
    /// limit answer for themselves: what they turn away leaves them as a
    /// classified failure (see [`handle_error`] and [`Limiter::dispatch`]).
    pub open spec fn fallible(self) -> bool {
        self is LoadShed
    }

    pub fn is_fallible(self) -> (r: bool)
        ensures
            r == self.fallible(),
    {
        match self {
            Layer::LoadShed => true,
            _ => false,
        }
    }

    pub fn is_error_conversion(self) -> (r: bool)
        ensures
            r == (self is ErrorConversion),
    {
        match self {
            Layer::ErrorConversion => true,
            _ => false,
        }
    }
}

/// A failure raised by the layer at `position` reaches the transport
/// unconverted: no layer further out converts failures. The stack is listed
/// from the outermost layer inward.
pub open spec fn escapes(stack: Seq<Layer>, position: int) -> bool {
    forall|outer: int| 0 <= outer < position ==> !(#[trigger] stack[outer] is ErrorConversion)
}

/// No failure can reach the transport: every fallible layer sits inside a
/// layer that converts failures.
pub open spec fn contained(stack: Seq<Layer>) -> bool {
    forall|position: int|
        0 <= position < stack.len() && (#[trigger] stack[position]).fallible() ==> !escapes(
            stack,
            position,
        )
}

/// The limit of the first layer of a stack that limits concurrency, if it
/// has one.
pub open spec fn limit_of(stack: Seq<Layer>) -> Option<usize>
    decreases stack.len(),
{
    if stack.len() == 0 {
        None
    } else if stack.first() is ConcurrencyLimit {
        Some(stack.first()->max)
    } else {
        limit_of(stack.drop_first())
    }
}

/// The stack of the service, from the outermost layer inward.
pub open spec fn app_layers() -> Seq<Layer> {
    seq![
        Layer::Tracing,
        Layer::Timeout { seconds: REQUEST_TIMEOUT_SECS },
        Layer::ConcurrencyLimit { max: CONCURRENCY_LIMIT },
        Layer::ErrorConversion,
        Layer::LoadShed,
        Layer::Routes,
    ]
}

/// The stack of the service, from the outermost layer inward: tracing, the
/// timeout, the concurrency limit, the conversion of failures, load
/// shedding, and the routes with their fallback.
pub fn app() -> (stack: Vec<Layer>)
    ensures
        stack@ == app_layers(),
        contained(stack@),
        limit_of(stack@) == Some(CONCURRENCY_LIMIT),
{
    let mut stack = Vec::new();
    stack.push(Layer::Tracing);
    stack.push(Layer::Timeout { seconds: REQUEST_TIMEOUT_SECS });
    stack.push(Layer::ConcurrencyLimit { max: CONCURRENCY_LIMIT });
    stack.push(Layer::ErrorConversion);
    stack.push(Layer::LoadShed);
    stack.push(Layer::Routes);
    proof {
        assert(stack@ =~= app_layers());
        reveal_with_fuel(limit_of, 4);
        assert(stack@.drop_first().drop_first().first() == stack@[2]);
        assert forall|position: int|
            0 <= position < stack@.len() && (#[trigger] stack@[position]).fallible() implies !escapes(
            stack@,
            position,
        ) by {
            assert(stack@[3] is ErrorConversion);
        }
    }
    stack
}

/// Decides whether a stack lets no failure through to the transport.
pub fn is_contained(stack: &Vec<Layer>) -> (r: bool)
    ensures
        r == contained(stack@),
{
    let mut converting = false;
    let mut i: usize = 0;
    while i < stack.len()
        invariant
            i <= stack.len(),
            converting == !escapes(stack@, i as int),
            forall|position: int|
                0 <= position < i && (#[trigger] stack@[position]).fallible() ==> !escapes(
                    stack@,
                    position,
                ),
        decreases stack.len() - i,
    {
        let layer = stack[i];
        if layer.is_fallible() && !converting {
            return false;
        }
        if layer.is_error_conversion() {
            converting = true;
        }
        proof {
            if escapes(stack@, i + 1) {
                assert(escapes(stack@, i as int));
                assert(!(stack@[i as int] is ErrorConversion));
            }
            if escapes(stack@, i as int) && !(stack@[i as int] is ErrorConversion) {
                assert(escapes(stack@, i + 1));
            }
        }
        i = i + 1;
    }
    true
}

/// Turns what a layer reported into a classified failure: the conversion
/// that pairs with every layer that can fail. Nothing that reaches it goes
/// on as a failure.
pub fn handle_error(failure: Failure) -> (r: AppError)
    ensures
        classified(failure, r),
        !(failure is Rejected) || failure->status_code.wf() ==> r.wf(),
{
    AppError::classify(failure)
}

/// The answer to a path that no route matches.
pub fn fallback() -> (r: AppError)
    ensures
        classified(Failure::NotFound, r),
        r.wf(),
{
    AppError::classify(Failure::NotFound)
}

/// Counts the requests that run and turns away what exceeds the limit.
/// This is what the layer that limits concurrency does in a stack: see
/// [`limiter_for`].
#[derive(Clone, Copy, Debug)]
pub struct Limiter {
    pub max: usize,
    pub in_flight: usize,
}

/// What is done with an arriving request.
#[derive(Debug)]
pub enum Disposition {
    /// The handler of the matching route runs.
    Invoke,
    /// The request is answered at once with this failure; no handler runs.
    Reject(AppError),
}

impl Limiter {
    /// Never more requests run than the limit allows.
    pub open spec fn wf(&self) -> bool {
        self.in_flight <= self.max
    }

    /// Every slot is taken.
    pub open spec fn saturated(&self) -> bool {
        self.in_flight >= self.max
    }

    /// Decides whether no more requests are counted than the limit allows.
    pub fn is_wf(&self) -> (r: bool)
        ensures
            r == self.wf(),
    {
        self.in_flight <= self.max
    }

    /// A limiter with every slot free.
    pub fn new(max: usize) -> (limiter: Limiter)
        ensures
            limiter.max == max,
            limiter.in_flight == 0,
            limiter.wf(),
    {
        Limiter { max, in_flight: 0 }
    }

    /// Whether every slot is taken.
    pub fn is_saturated(&self) -> (r: bool)
        ensures
            r == self.saturated(),
    {
        self.in_flight >= self.max
    }

    /// Decides what is done with an arriving request. While the service is
    /// saturated the request is turned away with the record for shed load:
    /// it takes no slot, waits in no queue and reaches no handler. A path
    /// that no route matches is answered by the fallback. Any other request
    /// takes a slot and its handler runs.
    pub fn dispatch(&mut self, matched: bool) -> (r: Disposition)
        requires
            old(self).wf(),
        ensures
            final(self).wf(),
            final(self).max == old(self).max,
            old(self).saturated() ==> *final(self) == *old(self) && r is Reject && classified(
                Failure::Overloaded,
                r->Reject_0,
            ) && r->Reject_0.wf(),
            !old(self).saturated() && !matched ==> *final(self) == *old(self) && r is Reject
                && classified(Failure::NotFound, r->Reject_0) && r->Reject_0.wf(),
            !old(self).saturated() && matched ==> r is Invoke && final(self).in_flight == old(
                self,
            ).in_flight + 1,
    {
        if self.in_flight >= self.max {
            Disposition::Reject(handle_error(Failure::Overloaded))
        } else if !matched {
            Disposition::Reject(fallback())
        } else {
            self.in_flight = self.in_flight + 1;
            Disposition::Invoke
        }
    }

    /// A request that held a slot has ended, however it ended. Without a
    /// request in flight nothing changes.
    pub fn release(&mut self)
        requires
            old(self).wf(),
        ensures
            final(self).wf(),
            final(self).max == old(self).max,
            final(self).in_flight == if old(self).in_flight > 0 {
                old(self).in_flight - 1
            } else {
                0
            },
    {
        if self.in_flight > 0 {
            self.in_flight = self.in_flight - 1;
        }
    }
}

/// The limiter that a stack asks for: one with every slot free, under the
/// limit of the first layer that limits concurrency. A stack without such a
/// layer has none, and turns nothing away for want of a slot.
pub fn limiter_for(stack: &Vec<Layer>) -> (r: Option<Limiter>)
    ensures
        r is Some <==> limit_of(stack@) is Some,
        r is Some ==> r->0.max == limit_of(stack@)->0 && r->0.in_flight == 0 && r->0.wf(),
{
    let mut i: usize = 0;
    assert(stack@.skip(0) =~= stack@);
    while i < stack.len()
        invariant
            i <= stack.len(),
            limit_of(stack@) == limit_of(stack@.skip(i as int)),
        decreases stack.len() - i,
    {
        proof {
            assert(stack@.skip(i as int).first() == stack@[i as int]);
            assert(stack@.skip(i as int).drop_first() =~= stack@.skip(i + 1));
        }
        match stack[i] {
            Layer::ConcurrencyLimit { max } => {
                return Some(Limiter::new(max));
            },
            _ => {},
        }
        i = i + 1;
    }
    None
}

/// The service turns a request away at once when as many requests run as
/// its stack allows: from the limiter of its own stack, after that many
/// admissions and no release, the next request meets the record for shed
/// load and no handler.
pub proof fn lemma_service_sheds_at_its_limit(limiter: Limiter)
    requires
        limiter.max == limit_of(app_layers())->0,
        limiter.in_flight == CONCURRENCY_LIMIT,
    ensures
        limit_of(app_layers()) == Some(CONCURRENCY_LIMIT),
        limiter.wf(),
        limiter.saturated(),
{
    reveal_with_fuel(limit_of, 4);
    assert(app_layers().drop_first().drop_first().first() == app_layers()[2]);
}

} // verus!
