//! The ways in which a request to the library can be turned down.

use vstd::prelude::*;

verus! {

/// Why a description was rejected or a lookup came back empty.
#[derive(Clone, Copy, Debug, PartialEq, Eq, Structural)]
pub enum Error {
    /// An axis whose three components are all zero.
    ZeroAxis,
    /// Two axes that must span a plane point along the same line.
    CollinearAxes,
    /// A lower limit above the upper limit of the same degree of freedom.
    LimitsCrossed,
    /// A shape with a negative extent.
    NegativeExtent,
    /// A density below zero.
    NegativeDensity,
    /// A ring placement divided into zero steps.
    EmptyRing,
    /// No live body answers to the handle.
    BodyNotFound,
    /// The body exists but is not a multibody.
    NotAMultibody,
    /// The multibody has no link with that index.
    LinkNotFound,
    /// The joint has no motorised or limited degree of freedom with that index.
    DofNotFound,
}

/// The two families of failure: a description that is malformed, and a
/// handle or index that points at nothing.
#[derive(Clone, Copy, Debug, PartialEq, Eq, Structural)]
pub enum ErrorKind {
    InvalidConfiguration,
    NotFound,
}

impl Error {
    /// The family this error belongs to.
    pub open spec fn spec_kind(self) -> ErrorKind {
        match self {
            Error::ZeroAxis => ErrorKind::InvalidConfiguration,
            Error::CollinearAxes => ErrorKind::InvalidConfiguration,
            Error::LimitsCrossed => ErrorKind::InvalidConfiguration,
            Error::NegativeExtent => ErrorKind::InvalidConfiguration,
            Error::NegativeDensity => ErrorKind::InvalidConfiguration,
            Error::EmptyRing => ErrorKind::InvalidConfiguration,
            Error::BodyNotFound => ErrorKind::NotFound,
            Error::NotAMultibody => ErrorKind::NotFound,
            Error::LinkNotFound => ErrorKind::NotFound,
            Error::DofNotFound => ErrorKind::NotFound,
        }
    }

    /// The family this error belongs to.
    #[verifier::when_used_as_spec(spec_kind)]
    pub fn kind(self) -> (k: ErrorKind)
        ensures
            k == self.spec_kind(),
    {
        match self {
            Error::ZeroAxis => ErrorKind::InvalidConfiguration,
            Error::CollinearAxes => ErrorKind::InvalidConfiguration,
            Error::LimitsCrossed => ErrorKind::InvalidConfiguration,
            Error::NegativeExtent => ErrorKind::InvalidConfiguration,
            Error::NegativeDensity => ErrorKind::InvalidConfiguration,
            Error::EmptyRing => ErrorKind::InvalidConfiguration,
            Error::BodyNotFound => ErrorKind::NotFound,
            Error::NotAMultibody => ErrorKind::NotFound,
            Error::LinkNotFound => ErrorKind::NotFound,
            Error::DofNotFound => ErrorKind::NotFound,
        }
    }
}

} // verus!
