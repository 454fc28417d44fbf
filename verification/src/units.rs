//! Unit normalisation: the sources report kibibytes per second and bytes,
//! the snapshot holds bytes per second, mebibytes and gibibytes.

use vstd::prelude::*;

verus! {

/// Bytes in one kibibyte.
pub const BYTES_PER_KIB: u64 = 1024;

/// Bytes in one mebibyte.
pub const BYTES_PER_MIB: u64 = 1_048_576;

/// Bytes in one gibibyte.
pub const BYTES_PER_GIB: u64 = 1_073_741_824;

/// A throughput of `kib_per_sec` kibibytes per second, in bytes per second.
pub open spec fn bytes_per_sec_of_kib(kib_per_sec: nat) -> nat {
    kib_per_sec * 1024
}

/// The whole mebibytes contained in `bytes` bytes.
pub open spec fn mib_of_bytes(bytes: nat) -> nat {
    bytes / 1_048_576
}

/// Converts a throughput from kibibytes per second to bytes per second.
///
/// The source counter is 32 bits wide, so the product always fits.
pub fn kib_per_sec_to_bytes_per_sec(kib_per_sec: u32) -> (bytes_per_sec: u64)
    ensures
        bytes_per_sec == bytes_per_sec_of_kib(kib_per_sec as nat),
{
    let wide: u64 = kib_per_sec as u64;
    wide * BYTES_PER_KIB
}

/// Converts an amount of memory from bytes to whole mebibytes, rounding down.
pub fn bytes_to_mib(bytes: u64) -> (mib: u64)
    ensures
        mib == mib_of_bytes(bytes as nat),
{
    bytes / BYTES_PER_MIB
}

/// An amount of memory in gibibytes, as a mathematical value: `whole`
/// gibibytes and `remainder` bytes, that is `whole + remainder / 2^30`
/// gibibytes.
pub struct GibView {
    pub whole: nat,
    pub remainder: nat,
}

/// `bytes` bytes in gibibytes: the division by 2^30, with its remainder.
pub open spec fn gib_of_bytes(bytes: nat) -> GibView {
    GibView { whole: bytes / 1_073_741_824, remainder: bytes % 1_073_741_824 }
}

impl GibView {
    /// The amount in bytes.
    pub open spec fn bytes(self) -> nat {
        self.whole * 1_073_741_824 + self.remainder
    }

    /// Whether this amount is at most `other`, for amounts whose remainder
    /// is below one gibibyte.
    pub open spec fn at_most(self, other: GibView) -> bool {
        self.whole < other.whole || (self.whole == other.whole && self.remainder
            <= other.remainder)
    }
}

/// Dividing by 2^30 loses nothing: the quotient and the remainder give the
/// bytes back, and the remainder is below one gibibyte.
pub proof fn lemma_gib_of_bytes_is_exact(bytes: nat)
    ensures
        gib_of_bytes(bytes).bytes() == bytes,
        gib_of_bytes(bytes).remainder < 1_073_741_824,
{
}

/// Dividing by 2^30 keeps the order: one amount of bytes is at most another
/// exactly when it is so in gibibytes. Then its whole gibibytes are at most
/// the other's, too.
pub proof fn lemma_gib_of_bytes_keeps_order(a: nat, b: nat)
    ensures
        a <= b <==> gib_of_bytes(a).at_most(gib_of_bytes(b)),
        a <= b ==> gib_of_bytes(a).whole <= gib_of_bytes(b).whole,
{
}

/// An amount of memory in gibibytes, held exactly: the whole gibibytes and
/// the bytes left over.
#[derive(Clone, Copy, Debug, PartialEq, Eq)]
pub struct Gibibytes {
    whole: u64,
    remainder: u32,
}

impl View for Gibibytes {
    type V = GibView;

    closed spec fn view(&self) -> GibView {
        GibView { whole: self.whole as nat, remainder: self.remainder as nat }
    }
}

impl Gibibytes {
    #[verifier::type_invariant]
    spec fn well_formed(self) -> bool {
        &&& self.remainder < 1_073_741_824
        &&& self.whole * 1_073_741_824 + self.remainder <= u64::MAX
    }

    /// Divides `bytes` by 2^30, keeping quotient and remainder.
    pub fn from_bytes(bytes: u64) -> (gib: Self)
        ensures
            gib@ == gib_of_bytes(bytes as nat),
    {
        let whole: u64 = bytes / BYTES_PER_GIB;
        let rest: u64 = bytes % BYTES_PER_GIB;
        Gibibytes { whole, remainder: rest as u32 }
    }

    /// The amount of zero bytes.
    pub fn zero() -> (gib: Self)
        ensures
            gib@ == gib_of_bytes(0),
    {
        Gibibytes { whole: 0, remainder: 0 }
    }

    /// The whole gibibytes in this amount.
    pub fn whole(&self) -> (whole: u64)
        ensures
            whole == self@.whole,
    {
        self.whole
    }

    /// The bytes beyond the whole gibibytes, always less than 2^30.
    pub fn remainder_bytes(&self) -> (rest: u32)
        ensures
            rest == self@.remainder,
            rest < 1_073_741_824,
    {
        proof {
            use_type_invariant(self);
        }
        self.remainder
    }

    /// The amount in bytes. Every amount was made from a 64-bit number of
    /// bytes, so it fits.
    pub fn to_bytes(&self) -> (bytes: u64)
        ensures
            bytes == self@.bytes(),
            self@ == gib_of_bytes(bytes as nat),
    {
        proof {
            use_type_invariant(self);
        }
        self.whole * BYTES_PER_GIB + self.remainder as u64
    }

    /// Whether this amount is at most `other`.
    pub fn at_most(&self, other: &Gibibytes) -> (at_most: bool)
        ensures
            at_most == self@.at_most(other@),
            at_most == (self@.bytes() <= other@.bytes()),
    {
        proof {
            use_type_invariant(self);
            use_type_invariant(other);
        }
        self.whole < other.whole || (self.whole == other.whole && self.remainder <= other.remainder)
    }
}

} // verus!
