//! The project-type catalog: Boehm's basic-COCOMO coefficients.

use vstd::prelude::*;

use crate::error::CocomoError;
use crate::fixed::Fixed;
use crate::parse::parse_coefficients;
use crate::parse::spec_parse_coefficients;
use crate::text::str_equal;

verus! {

/// Fixed units of the development-time constant 2.5 that the basic model
/// bakes into the schedule formula when no override is given.
pub const DEFAULT_DEV_TIME_UNITS: i64 = 25000;

/// The development-environment categories of the basic COCOMO model.
/// Each maps to one canonical coefficient set; the type is closed, so a
/// catalog lookup cannot fail.
#[derive(Clone, Copy, Debug, PartialEq, Eq, Structural)]
pub enum ProjectType {
    /// Complex software on tight constraints, built by a large, experienced
    /// team. Coefficients 3.6, 1.20, 0.32.
    Embedded,
    /// A small team on a well-understood problem. Coefficients 2.4, 1.05, 0.38.
    Organic,
    /// Between the other two in familiarity and difficulty, for example a
    /// compiler. Coefficients 3.0, 1.12, 0.35.
    SemiDetached,
}

/// The full coefficient set of one estimate: effort multiplier `a`, effort
/// exponent `b`, development-time constant `dev_time`, and schedule exponent
/// `c`. Effort is `a * KSLOC^b * EAF` person-months; the schedule is
/// `dev_time * effort^c` months.
#[derive(Clone, Copy, Debug, PartialEq, Eq, Structural)]
pub struct CoefficientSet {
    pub a: Fixed,
    pub b: Fixed,
    pub dev_time: Fixed,
    pub c: Fixed,
}

/// The catalog's coefficient triple `(a, b, c)` for each project type.
pub open spec fn spec_params(t: ProjectType) -> (Fixed, Fixed, Fixed) {
    match t {
        ProjectType::Embedded => (
            Fixed { units: 36000 },
            Fixed { units: 12000 },
            Fixed { units: 3200 },
        ),
        ProjectType::Organic => (
            Fixed { units: 24000 },
            Fixed { units: 10500 },
            Fixed { units: 3800 },
        ),
        ProjectType::SemiDetached => (
            Fixed { units: 30000 },
            Fixed { units: 11200 },
            Fixed { units: 3500 },
        ),
    }
}

/// The catalog's four-field form for each project type: the same triple with
/// the development-time constant 2.5 baked in.
pub open spec fn spec_coefficient_set(t: ProjectType) -> CoefficientSet {
    CoefficientSet {
        a: spec_params(t).0,
        b: spec_params(t).1,
        dev_time: Fixed { units: DEFAULT_DEV_TIME_UNITS as i64 },
        c: spec_params(t).2,
    }
}

/// Which project type a free-text name denotes, if any.
pub open spec fn spec_from_name(s: Seq<char>) -> Result<ProjectType, CocomoError> {
    if s == "organic"@ {
        Ok(ProjectType::Organic)
    } else if s == "semi-detached"@ {
        Ok(ProjectType::SemiDetached)
    } else if s == "embedded"@ {
        Ok(ProjectType::Embedded)
    } else {
        Err(CocomoError::UnknownProjectType)
    }
}

impl ProjectType {
    /// The canonical coefficient triple `(a, b, c)` of this project type:
    /// embedded 3.6, 1.20, 0.32; organic 2.4, 1.05, 0.38;
    /// semi-detached 3.0, 1.12, 0.35.
    pub fn to_params(&self) -> (r: (Fixed, Fixed, Fixed))
        ensures
            r == spec_params(*self),
    {
        match self {
            ProjectType::Embedded => (
                Fixed { units: 36000 },
                Fixed { units: 12000 },
                Fixed { units: 3200 },
            ),
            ProjectType::Organic => (
                Fixed { units: 24000 },
                Fixed { units: 10500 },
                Fixed { units: 3800 },
            ),
            ProjectType::SemiDetached => (
                Fixed { units: 30000 },
                Fixed { units: 11200 },
                Fixed { units: 3500 },
            ),
        }
    }

    /// The same catalog entry in the four-field form, with the development-time
    /// constant 2.5 of the basic model.
    pub fn coefficient_set(&self) -> (r: CoefficientSet)
        ensures
            r == spec_coefficient_set(*self),
    {
        let (a, b, c) = self.to_params();
        CoefficientSet { a, b, dev_time: Fixed { units: DEFAULT_DEV_TIME_UNITS }, c }
    }

    /// Looks a free-text name up in the catalog; names outside the catalog are
    /// a configuration error, reported before any estimation runs.
    pub fn from_name(name: &str) -> (r: Result<ProjectType, CocomoError>)
        ensures
            r == spec_from_name(name@),
    {
        if str_equal(name, "organic") {
            Ok(ProjectType::Organic)
        } else if str_equal(name, "semi-detached") {
            Ok(ProjectType::SemiDetached)
        } else if str_equal(name, "embedded") {
            Ok(ProjectType::Embedded)
        } else {
            Err(CocomoError::UnknownProjectType)
        }
    }
}

/// The coefficient triple one invocation runs with: the parsed custom
/// override when one is given, the catalog entry of the project type
/// otherwise. The two sources are mutually exclusive by construction.
pub fn resolve_coefficients(custom: Option<&str>, project_type: ProjectType) -> (r: Result<
    (Fixed, Fixed, Fixed),
    CocomoError,
>)
    ensures
        custom matches Some(text) ==> r == spec_parse_coefficients(text@),
        custom is None ==> r == Ok::<_, CocomoError>(spec_params(project_type)),
{
    match custom {
        Some(text) => parse_coefficients(text),
        None => Ok(project_type.to_params()),
    }
}

impl CoefficientSet {
    /// Builds a coefficient set from the three-tuple form, with the
    /// development-time constant supplied separately.
    pub fn from_triple(a: Fixed, b: Fixed, c: Fixed, dev_time: Fixed) -> (r: CoefficientSet)
        ensures
            r == (CoefficientSet { a, b, dev_time, c }),
    {
        CoefficientSet { a, b, dev_time, c }
    }

    /// Builds a coefficient set from the four-tuple form, which carries its
    /// own development-time constant.
    pub fn from_quad(a: Fixed, b: Fixed, dev_time: Fixed, c: Fixed) -> (r: CoefficientSet)
        ensures
            r == (CoefficientSet { a, b, dev_time, c }),
    {
        CoefficientSet { a, b, dev_time, c }
    }
}

} // verus!
