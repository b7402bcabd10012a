//! Spans of time, to the nanosecond.

use vstd::prelude::*;

verus! {

pub const NANOS_PER_SEC: u32 = 1_000_000_000;

/// The longest span, in nanoseconds.
pub open spec fn max_nanos() -> nat {
    (u64::MAX * NANOS_PER_SEC + NANOS_PER_SEC - 1) as nat
}

/// A span of time: whole seconds, and nanoseconds short of one more. Its view
/// is the span in nanoseconds.
#[derive(Clone, Copy, Debug, PartialEq, Eq)]
pub struct Duration {
    secs: u64,
    nanos: u32,
}

impl View for Duration {
    type V = nat;

    closed spec fn view(&self) -> nat {
        (self.secs * NANOS_PER_SEC + self.nanos) as nat
    }
}

impl Duration {
    #[verifier::type_invariant]
    spec fn well_formed(self) -> bool {
        self.nanos < NANOS_PER_SEC
    }

    /// `secs` seconds and `nanos` nanoseconds, which may be more than a second.
    pub fn new(secs: u64, nanos: u32) -> (r: Self)
        requires
            secs * NANOS_PER_SEC + nanos <= max_nanos(),
        ensures
            r@ == secs * NANOS_PER_SEC + nanos,
    {
        Duration { secs: secs + (nanos / NANOS_PER_SEC) as u64, nanos: nanos % NANOS_PER_SEC }
    }

    pub fn from_secs(secs: u64) -> (r: Self)
        ensures
            r@ == secs * NANOS_PER_SEC,
    {
        Duration { secs, nanos: 0 }
    }

    /// The whole seconds of the span.
    pub fn as_secs(&self) -> (r: u64)
        ensures
            r == self@ / (NANOS_PER_SEC as nat),
    {
        proof {
            use_type_invariant(self);
        }
        self.secs
    }

    /// The nanoseconds that the span has beyond its whole seconds.
    pub fn subsec_nanos(&self) -> (r: u32)
        ensures
            r == self@ % (NANOS_PER_SEC as nat),
    {
        proof {
            use_type_invariant(self);
        }
        self.nanos
    }

    /// Both spans together, or the longest span where that is too long.
    pub fn saturating_add(self, other: Self) -> (r: Self)
        ensures
            self@ + other@ <= max_nanos() ==> r@ == self@ + other@,
            self@ + other@ > max_nanos() ==> r@ == max_nanos(),
    {
        proof {
            use_type_invariant(&self);
            use_type_invariant(&other);
        }
        let longest = Duration { secs: u64::MAX, nanos: NANOS_PER_SEC - 1 };
        let nanos: u32 = self.nanos + other.nanos;
        match self.secs.checked_add(other.secs) {
            None => longest,
            Some(secs) => if nanos < NANOS_PER_SEC {
                Duration { secs, nanos }
            } else if secs < u64::MAX {
                Duration { secs: secs + 1, nanos: nanos - NANOS_PER_SEC }
            } else {
                longest
            },
        }
    }
}

/// What `std::time::Duration::new` makes of `secs` seconds and `nanos`
/// nanoseconds, short of one more second.
pub uninterp spec fn std_duration(secs: u64, nanos: u32) -> std::time::Duration;

/// The nanoseconds of a `std::time::Duration`: those of the parts it is made of.
/// Each span is made of one pair of parts, and no two spans of the same.
pub open spec fn std_nanos(d: std::time::Duration) -> nat {
    choose|n: nat|
        n <= max_nanos() && d == #[trigger] std_duration(
            (n / (NANOS_PER_SEC as nat)) as u64,
            (n % (NANOS_PER_SEC as nat)) as u32,
        )
}

/// `std::time::Duration::new`, for parts that carry nothing over: the span of
/// `secs` seconds and `nanos` nanoseconds, which it makes of no other parts.
#[verifier::external_body]
fn new_std_duration(secs: u64, nanos: u32) -> (r: std::time::Duration)
    requires
        nanos < NANOS_PER_SEC,
    ensures
        r == std_duration(secs, nanos),
        std_nanos(r) == secs * NANOS_PER_SEC + nanos,
{
    std::time::Duration::new(secs, nanos)
}

/// What `Debug` writes of a `std::time::Duration` of `secs` seconds and `nanos`
/// nanoseconds.
pub uninterp spec fn duration_debug(secs: u64, nanos: u32) -> Seq<char>;

/// A span of `nanos` nanoseconds in words: its whole seconds and what is left.
pub open spec fn nanos_text(nanos: nat) -> Seq<char> {
    duration_debug(
        (nanos / (NANOS_PER_SEC as nat)) as u64,
        (nanos % (NANOS_PER_SEC as nat)) as u32,
    )
}

/// `std::time::Duration` written with its `Debug`, as in `1.5s`. How it is
/// written is a function of the span alone, here under the name
/// [`duration_debug`]; the format itself is left unsaid.
#[verifier::external_body]
pub(crate) fn format_duration(d: &std::time::Duration) -> (r: String)
    ensures
        r@ == duration_debug(
            (std_nanos(*d) / (NANOS_PER_SEC as nat)) as u64,
            (std_nanos(*d) % (NANOS_PER_SEC as nat)) as u32,
        ),
{
    format!("{:?}", d)
}

impl Duration {
    /// The same span as the standard library has it.
    pub fn to_std(&self) -> (r: std::time::Duration)
        ensures
            std_nanos(r) == self@,
            r == std_duration((self@ / 1_000_000_000) as u64, (self@ % 1_000_000_000) as u32),
    {
        proof {
            use_type_invariant(self);
        }
        new_std_duration(self.secs, self.nanos)
    }

    /// The span in words, as in `1.5s`.
    pub fn to_text(&self) -> (r: String)
        ensures
            r@ == nanos_text(self@),
    {
        format_duration(&self.to_std())
    }
}

/// Every pair of seconds and nanoseconds short of a second is a span, and the
/// longest span is the last of them.
pub proof fn law_every_pair_of_parts_is_a_span(secs: u64, nanos: u32)
    requires
        nanos < 1_000_000_000,
    ensures
        secs * 1_000_000_000 + nanos <= max_nanos(),
        max_nanos() == u64::MAX * 1_000_000_000 + 999_999_999,
        nanos_text((secs * 1_000_000_000 + nanos) as nat) == duration_debug(secs, nanos),
{
}

} // verus!
