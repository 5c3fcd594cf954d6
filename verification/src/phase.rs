//! The wizard's linear phase state machine and the errors the install step
//! can surface.

use vstd::prelude::*;

verus! {

/// Why an install attempt failed. Both kinds are shown to the user as a
/// detail string; neither is silently swallowed.
#[derive(Debug, PartialEq, Eq)]
pub enum InstallError {
    /// A file already exists at the target path (a conservative pre-check,
    /// not an atomic guarantee).
    AlreadyInstalled,
    /// Directory creation or the payload write failed; carries the
    /// underlying cause.
    IoFailure(String),
}

/// The detail text of an error, as shown on the error screen.
pub open spec fn spec_detail(e: InstallError) -> Seq<char> {
    match e {
        InstallError::AlreadyInstalled => "App already installed"@,
        InstallError::IoFailure(m) => m@,
    }
}

impl InstallError {
    /// Human-readable failure detail.
    pub fn detail(&self) -> (r: String)
        ensures
            r@ == spec_detail(*self),
    {
        match self {
            InstallError::AlreadyInstalled => "App already installed".to_owned(),
            InstallError::IoFailure(m) => m.clone(),
        }
    }

    /// True exactly on the `AlreadyInstalled` kind.
    pub fn is_already_installed(&self) -> (r: bool)
        ensures
            r == (*self is AlreadyInstalled),
    {
        match self {
            InstallError::AlreadyInstalled => true,
            InstallError::IoFailure(_) => false,
        }
    }
}

/// One state of the wizard: `Start → Installation → Success | Error → Finish`.
/// `Finish` is terminal.
#[derive(Debug, PartialEq, Eq)]
pub enum InstallPhase {
    Start,
    Installation,
    Error(InstallError),
    Success,
    Finish,
}

/// The phase a proceed action leads to. Defined only away from `Finish`:
/// nothing lies past it.
pub open spec fn spec_next(p: InstallPhase) -> InstallPhase
    recommends
        !(p is Finish),
{
    match p {
        InstallPhase::Start => InstallPhase::Installation,
        InstallPhase::Installation => InstallPhase::Success,
        InstallPhase::Success => InstallPhase::Finish,
        InstallPhase::Error(_) => InstallPhase::Finish,
        InstallPhase::Finish => p,
    }
}

/// How far along the wizard's linear order a phase lies. `Success` and
/// `Error` are alternatives at the same depth.
pub open spec fn phase_rank(p: InstallPhase) -> nat {
    match p {
        InstallPhase::Start => 0,
        InstallPhase::Installation => 1,
        InstallPhase::Success => 2,
        InstallPhase::Error(_) => 2,
        InstallPhase::Finish => 3,
    }
}

impl InstallPhase {
    /// True exactly on `Start`.
    pub fn is_start(&self) -> (r: bool)
        ensures
            r == (*self is Start),
    {
        match self {
            InstallPhase::Start => true,
            _ => false,
        }
    }

    /// True exactly on `Installation`.
    pub fn is_installation(&self) -> (r: bool)
        ensures
            r == (*self is Installation),
    {
        match self {
            InstallPhase::Installation => true,
            _ => false,
        }
    }

    /// True exactly on `Finish`.
    pub fn is_finish(&self) -> (r: bool)
        ensures
            r == (*self is Finish),
    {
        match self {
            InstallPhase::Finish => true,
            _ => false,
        }
    }

    /// Advance one step along the wizard's order. Calling this on `Finish`
    /// is a contract violation: the UI must never offer it.
    pub fn next(&mut self)
        requires
            !(*old(self) is Finish),
        ensures
            *final(self) == spec_next(*old(self)),
    {
        *self = match self {
            InstallPhase::Start => InstallPhase::Installation,
            InstallPhase::Installation => InstallPhase::Success,
            InstallPhase::Success => InstallPhase::Finish,
            InstallPhase::Error(_) => InstallPhase::Finish,
            InstallPhase::Finish => {
                proof {
                    assert(false);
                }
                InstallPhase::Finish
            },
        };
    }
}

/// Law: every advance moves strictly forward along the wizard's order, so a
/// wizard visits each phase at most once and reaches `Finish` after at most
/// three proceed actions; no cycle and no skipped phase is reachable.
pub proof fn lemma_next_strictly_advances(p: InstallPhase)
    requires
        !(p is Finish),
    ensures
        phase_rank(spec_next(p)) == phase_rank(p) + 1,
{
}

} // verus!
