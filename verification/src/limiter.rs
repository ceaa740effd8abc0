//! How many requests the broker works on at a time.
use vstd::prelude::*;

verus! {

/// The most requests that the broker works on at a time.
pub const MAX_CONCURRENT_REQUESTS: usize = 8;

/// Counts the permits that are out, so that they never become more than a
/// given number. Whoever holds it behind a lock makes requests wait: one that
/// is not granted a permit asks again after the next release.
pub struct ConcurrencyLimiter {
    max: usize,
    active: usize,
}

/// A [`ConcurrencyLimiter`]: how many permits there are, and how many are out.
pub struct LimiterView {
    pub max: nat,
    pub active: nat,
}

impl View for ConcurrencyLimiter {
    type V = LimiterView;

    closed spec fn view(&self) -> LimiterView {
        LimiterView { max: self.max as nat, active: self.active as nat }
    }
}

impl LimiterView {
    /// No more permits are out than there are.
    pub open spec fn valid(self) -> bool {
        self.active <= self.max
    }

    /// A permit is asked for: one more is out, where one is left.
    pub open spec fn acquired(self) -> LimiterView {
        if self.active < self.max {
            LimiterView { max: self.max, active: self.active + 1 }
        } else {
            self
        }
    }

    /// A permit comes back.
    pub open spec fn released(self) -> LimiterView {
        LimiterView { max: self.max, active: (self.active - 1) as nat }
    }
}

impl ConcurrencyLimiter {
    #[verifier::type_invariant]
    spec fn inv(self) -> bool {
        self.active <= self.max
    }

    /// A limiter with `max` permits, none of them out.
    pub fn new(max: usize) -> (r: Self)
        ensures
            r@ == (LimiterView { max: max as nat, active: 0 }),
    {
        ConcurrencyLimiter { max, active: 0 }
    }

    /// Asks for a permit. Gives back whether it was granted.
    pub fn acquire(&mut self) -> (granted: bool)
        ensures
            granted == (old(self)@.active < old(self)@.max),
            final(self)@ == old(self)@.acquired(),
            final(self)@.valid(),
    {
        proof {
            use_type_invariant(&*self);
        }
        if self.active >= self.max {
            return false;
        }
        self.active = self.active + 1;
        true
    }

    /// Takes a permit back.
    pub fn release(&mut self)
        requires
            old(self)@.active > 0,
        ensures
            final(self)@ == old(self)@.released(),
            final(self)@.valid(),
    {
        proof {
            use_type_invariant(&*self);
        }
        self.active = self.active - 1;
    }

    /// How many permits are out.
    pub fn active(&self) -> (r: usize)
        ensures
            r == self@.active,
            self@.valid(),
    {
        proof {
            use_type_invariant(self);
        }
        self.active
    }
}

// ---------------------------------------------------------------------------
// Laws
// ---------------------------------------------------------------------------

/// Taking back a permit that was granted restores the limiter.
pub proof fn law_release_undoes_acquire(limiter: LimiterView)
    requires
        limiter.active < limiter.max,
    ensures
        limiter.acquired().released() == limiter,
{
}

/// A limiter without a permit left grants none, and grants one again after a
/// release.
pub proof fn law_release_lets_the_next_in(limiter: LimiterView)
    requires
        limiter.valid(),
        limiter.active == limiter.max,
        limiter.max > 0,
    ensures
        limiter.acquired() == limiter,
        limiter.released().active < limiter.max,
        limiter.released().acquired() == limiter,
{
}

/// A limiter starts with all of its permits; at most eight requests are worked
/// on.
pub proof fn law_limiter_starts(max: usize, r: ConcurrencyLimiter)
    requires
        call_ensures(ConcurrencyLimiter::new, (max,), r),
    ensures
        r@.max == max,
        r@.active == 0,
        MAX_CONCURRENT_REQUESTS == 8,
{
}

/// A permit is granted exactly where one is left, and only then is one more out;
/// how many there are never changes.
pub proof fn law_acquire(limiter: &mut ConcurrencyLimiter, granted: bool)
    requires
        call_ensures(ConcurrencyLimiter::acquire, (limiter,), granted),
    ensures
        granted <==> old(limiter)@.active < old(limiter)@.max,
        granted ==> final(limiter)@.active == old(limiter)@.active + 1,
        !granted ==> final(limiter)@.active == old(limiter)@.active,
        final(limiter)@.max == old(limiter)@.max,
        final(limiter)@.active <= final(limiter)@.max,
{
}

/// A permit that comes back is out no more.
pub proof fn law_release(limiter: &mut ConcurrencyLimiter, r: ())
    requires
        call_ensures(ConcurrencyLimiter::release, (limiter,), r),
        old(limiter)@.active > 0,
    ensures
        final(limiter)@.active == old(limiter)@.active - 1,
        final(limiter)@.max == old(limiter)@.max,
{
}

/// What is told of the permits that are out is how many are.
pub proof fn law_active(limiter: &ConcurrencyLimiter, r: usize)
    requires
        call_ensures(ConcurrencyLimiter::active, (limiter,), r),
    ensures
        r == limiter@.active,
        r <= limiter@.max,
{
}

} // verus!
