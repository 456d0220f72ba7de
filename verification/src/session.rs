//! Session precondition controller: the checkpoints that must hold before a
//! flash operation is authorized — an unambiguous RAM and flash region, and a
//! confirmed core halt.

use vstd::prelude::*;
use crate::memory::{Classified, MemoryRegion, RegionKind, classify, has_kind};

verus! {

/// Bounded wait granted to the reset-and-halt request, in milliseconds.
pub const HALT_TIMEOUT_MS: u64 = 1000;

/// Failure of a preparation checkpoint. Each is a distinct reportable
/// condition; none is downgraded to a generic error.
#[derive(Clone, Copy, PartialEq, Eq, Structural, Debug)]
pub enum PrepareError {
    /// No RAM region is declared.
    NoRamRegion,
    /// More than one RAM region is declared; the workflow must not silently
    /// pick the first.
    AmbiguousRamRegion,
    /// No non-volatile region is declared: there is nothing to program.
    NoFlashRegion,
    /// More than one non-volatile region is declared.
    AmbiguousFlashRegion,
    /// The reset-and-halt request did not complete within its bounded wait.
    HaltTimeout,
    /// The core did not report a confirmed halt; programming is forbidden.
    HaltNotConfirmed,
}

/// Which preparation outcome a classification yields: programming needs
/// exactly one RAM region and exactly one non-volatile region.
pub open spec fn spec_validate_classified(c: Classified) -> Result<(), PrepareError> {
    if c.ram@.len() == 0 {
        Err(PrepareError::NoRamRegion)
    } else if c.ram@.len() > 1 {
        Err(PrepareError::AmbiguousRamRegion)
    } else if c.non_volatile@.len() == 0 {
        Err(PrepareError::NoFlashRegion)
    } else if c.non_volatile@.len() > 1 {
        Err(PrepareError::AmbiguousFlashRegion)
    } else {
        Ok(())
    }
}

impl Classified {
    /// Checks that this classification is unambiguous enough to program:
    /// exactly one RAM region and exactly one non-volatile region exist.
    pub fn validate_for_programming(&self) -> (r: Result<(), PrepareError>)
        ensures
            r == spec_validate_classified(*self),
    {
        if self.ram.len() == 0 {
            Err(PrepareError::NoRamRegion)
        } else if self.ram.len() > 1 {
            Err(PrepareError::AmbiguousRamRegion)
        } else if self.non_volatile.len() == 0 {
            Err(PrepareError::NoFlashRegion)
        } else if self.non_volatile.len() > 1 {
            Err(PrepareError::AmbiguousFlashRegion)
        } else {
            Ok(())
        }
    }
}

/// Which preparation outcome a declared region list yields: `Ok` exactly
/// when its partition holds one RAM and one non-volatile region, otherwise
/// the distinct error naming what was missing or ambiguous.
pub open spec fn spec_validate_regions(regions: Seq<MemoryRegion>) -> Result<(), PrepareError> {
    if regions.filter(has_kind(RegionKind::Ram)).len() == 0 {
        Err(PrepareError::NoRamRegion)
    } else if regions.filter(has_kind(RegionKind::Ram)).len() > 1 {
        Err(PrepareError::AmbiguousRamRegion)
    } else if regions.filter(has_kind(RegionKind::NonVolatile)).len() == 0 {
        Err(PrepareError::NoFlashRegion)
    } else if regions.filter(has_kind(RegionKind::NonVolatile)).len() > 1 {
        Err(PrepareError::AmbiguousFlashRegion)
    } else {
        Ok(())
    }
}

/// Classifies a target descriptor's declared regions and validates the
/// result for programming.
///
/// Returns the partition exactly when the list holds one RAM and one
/// non-volatile region; otherwise the distinct error naming what was missing
/// or ambiguous. Never proceeds with an empty or arbitrary region choice.
pub fn prepare_classification(regions: Vec<MemoryRegion>) -> (r: Result<Classified, PrepareError>)
    ensures
        ({
            match r {
                Ok(c) => spec_validate_regions(regions@) is Ok && c.ram@ == regions@.filter(
                    has_kind(RegionKind::Ram),
                ) && c.non_volatile@ == regions@.filter(has_kind(RegionKind::NonVolatile))
                    && c.generic@ == regions@.filter(has_kind(RegionKind::Generic)),
                Err(e) => spec_validate_regions(regions@) == Err::<(), PrepareError>(e),
            }
        }),
{
    let c = classify(regions);
    match c.validate_for_programming() {
        Ok(()) => Ok(c),
        Err(e) => Err(e),
    }
}

/// The halt precondition: programming is authorized exactly by a confirmed halt
/// report; anything else is a precondition failure, not retried.
pub open spec fn spec_confirm_halt(halted: bool) -> Result<(), PrepareError> {
    if halted {
        Ok(())
    } else {
        Err(PrepareError::HaltNotConfirmed)
    }
}

/// Checks the halt query's report. Only a confirmed `true` authorizes the
/// flash orchestrator; `false` is surfaced as its own failure and the
/// flashing path must abort.
pub fn confirm_halt(halted: bool) -> (r: Result<(), PrepareError>)
    ensures
        r == spec_confirm_halt(halted),
        r is Ok <==> halted,
{
    if halted {
        Ok(())
    } else {
        Err(PrepareError::HaltNotConfirmed)
    }
}

} // verus!
