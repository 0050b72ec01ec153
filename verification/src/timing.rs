use vstd::prelude::*;

verus! {

/// The default click window: a tenth of a second.
pub const DEFAULT_CLICK_NANOS: u64 = 100_000_000;

/// The default double-click window: three tenths of a second.
pub const DEFAULT_DOUBLECLICK_NANOS: u64 = 300_000_000;

/// What can be wrong with a configuration of watchers.
#[derive(Clone, Copy, Debug, PartialEq, Eq, Structural)]
pub enum ConfigError {
    /// A window of zero length was asked for.
    NonPositiveWindow,
    /// Two watchers were given for one button.
    DuplicateButton,
}

/// Whether the time from `since` to `now` lies within `window`. The
/// difference is signed: a `now` before `since` is within every window.
pub open spec fn within_window(now: nat, since: nat, window: nat) -> bool {
    now - since <= window
}

/// Decides `within_window` on machine integers, without overflow.
pub fn elapsed_within(now: u64, since: u64, window: u64) -> (r: bool)
    ensures
        r == within_window(now as nat, since as nat, window as nat),
{
    now <= since || now - since <= window
}

/// The longest time between press and release that still counts as a click.
/// Always positive.
#[derive(Clone, Copy, Debug)]
pub struct ClickDuration(u64);

impl View for ClickDuration {
    type V = nat;

    closed spec fn view(&self) -> nat {
        self.0 as nat
    }
}

impl ClickDuration {
    #[verifier::type_invariant]
    spec fn positive(self) -> bool {
        self.0 > 0
    }

    /// A click window of `nanos` nanoseconds; refused when `nanos` is zero.
    pub fn new(nanos: u64) -> (r: Result<ClickDuration, ConfigError>)
        ensures
            nanos > 0 ==> r is Ok && r->Ok_0@ == nanos,
            nanos == 0 ==> r is Err && r->Err_0 == ConfigError::NonPositiveWindow,
    {
        if nanos == 0 {
            Err(ConfigError::NonPositiveWindow)
        } else {
            Ok(ClickDuration(nanos))
        }
    }

    pub fn nanos(&self) -> (r: u64)
        ensures
            r == self@,
            r > 0,
    {
        proof {
            use_type_invariant(self);
        }
        self.0
    }
}

/// The longest time between two clicks that still counts as a double click.
/// Always positive.
#[derive(Clone, Copy, Debug)]
pub struct DoubleclickDuration(u64);

impl View for DoubleclickDuration {
    type V = nat;

    closed spec fn view(&self) -> nat {
        self.0 as nat
    }
}

impl DoubleclickDuration {
    #[verifier::type_invariant]
    spec fn positive(self) -> bool {
        self.0 > 0
    }

    /// A double-click window of `nanos` nanoseconds; refused when `nanos` is
    /// zero.
    pub fn new(nanos: u64) -> (r: Result<DoubleclickDuration, ConfigError>)
        ensures
            nanos > 0 ==> r is Ok && r->Ok_0@ == nanos,
            nanos == 0 ==> r is Err && r->Err_0 == ConfigError::NonPositiveWindow,
    {
        if nanos == 0 {
            Err(ConfigError::NonPositiveWindow)
        } else {
            Ok(DoubleclickDuration(nanos))
        }
    }

    pub fn nanos(&self) -> (r: u64)
        ensures
            r == self@,
            r > 0,
    {
        proof {
            use_type_invariant(self);
        }
        self.0
    }
}

/// When a button was last pressed. Zero until the first press.
#[derive(Clone, Copy, Debug)]
pub struct ClickTime(u64);

impl View for ClickTime {
    type V = nat;

    closed spec fn view(&self) -> nat {
        self.0 as nat
    }
}

impl ClickTime {
    pub fn new(nanos: u64) -> (r: ClickTime)
        ensures
            r@ == nanos,
    {
        ClickTime(nanos)
    }

    pub fn nanos(&self) -> (r: u64)
        ensures
            r == self@,
    {
        self.0
    }
}

/// The click that the next one may pair with. Zero when there is none.
#[derive(Clone, Copy, Debug)]
pub struct DoubleclickTime(u64);

impl View for DoubleclickTime {
    type V = nat;

    closed spec fn view(&self) -> nat {
        self.0 as nat
    }
}

impl DoubleclickTime {
    pub fn new(nanos: u64) -> (r: DoubleclickTime)
        ensures
            r@ == nanos,
    {
        DoubleclickTime(nanos)
    }

    pub fn nanos(&self) -> (r: u64)
        ensures
            r == self@,
    {
        self.0
    }
}

} // verus!
