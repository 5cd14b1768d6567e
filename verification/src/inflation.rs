//! The United States inflation table and wage adjustment.
//!
//! The table keys a calendar year to that year's annual inflation rate and to
//! the cumulative price multiplier relative to 1995. Both are exact decimals:
//! a rate of 2.83 percent is 28300 fixed-point units, a multiplier of 1.0283
//! is 10283 units.

use vstd::prelude::*;

use crate::fixed::Fixed;
use crate::fixed::Fixed8;

verus! {

/// One year's entry: the annual inflation rate, in percent, and the
/// cumulative multiplier relative to the 1995 base.
#[derive(Clone, Copy, Debug, PartialEq, Eq, Structural)]
pub struct InflationEntry {
    pub rate: Fixed,
    pub multiplier: Fixed,
}

/// The table entry of a year, if the year is covered (1995 through 2024).
pub open spec fn spec_inflation_entry(year: usize) -> Option<InflationEntry> {
    if year == 1995 {
        Some(InflationEntry { rate: Fixed { units: 28300 }, multiplier: Fixed { units: 10000 } })
    } else if year == 1996 {
        Some(InflationEntry { rate: Fixed { units: 26400 }, multiplier: Fixed { units: 10283 } })
    } else if year == 1997 {
        Some(InflationEntry { rate: Fixed { units: 25700 }, multiplier: Fixed { units: 10547 } })
    } else if year == 1998 {
        Some(InflationEntry { rate: Fixed { units: 21400 }, multiplier: Fixed { units: 10804 } })
    } else if year == 1999 {
        Some(InflationEntry { rate: Fixed { units: 22300 }, multiplier: Fixed { units: 11018 } })
    } else if year == 2000 {
        Some(InflationEntry { rate: Fixed { units: 33800 }, multiplier: Fixed { units: 11241 } })
    } else if year == 2001 {
        Some(InflationEntry { rate: Fixed { units: 27700 }, multiplier: Fixed { units: 11579 } })
    } else if year == 2002 {
        Some(InflationEntry { rate: Fixed { units: 24400 }, multiplier: Fixed { units: 11856 } })
    } else if year == 2003 {
        Some(InflationEntry { rate: Fixed { units: 22700 }, multiplier: Fixed { units: 12100 } })
    } else if year == 2004 {
        Some(InflationEntry { rate: Fixed { units: 33800 }, multiplier: Fixed { units: 12327 } })
    } else if year == 2005 {
        Some(InflationEntry { rate: Fixed { units: 33900 }, multiplier: Fixed { units: 12665 } })
    } else if year == 2006 {
        Some(InflationEntry { rate: Fixed { units: 25400 }, multiplier: Fixed { units: 13004 } })
    } else if year == 2007 {
        Some(InflationEntry { rate: Fixed { units: 28500 }, multiplier: Fixed { units: 13258 } })
    } else if year == 2008 {
        Some(InflationEntry { rate: Fixed { units: 38400 }, multiplier: Fixed { units: 13543 } })
    } else if year == 2009 {
        Some(InflationEntry { rate: Fixed { units: -3600i64 }, multiplier: Fixed { units: 13927 } })
    } else if year == 2010 {
        Some(InflationEntry { rate: Fixed { units: 16400 }, multiplier: Fixed { units: 13891 } })
    } else if year == 2011 {
        Some(InflationEntry { rate: Fixed { units: 31600 }, multiplier: Fixed { units: 14055 } })
    } else if year == 2012 {
        Some(InflationEntry { rate: Fixed { units: 20700 }, multiplier: Fixed { units: 14371 } })
    } else if year == 2013 {
        Some(InflationEntry { rate: Fixed { units: 14600 }, multiplier: Fixed { units: 14578 } })
    } else if year == 2014 {
        Some(InflationEntry { rate: Fixed { units: 16200 }, multiplier: Fixed { units: 14724 } })
    } else if year == 2015 {
        Some(InflationEntry { rate: Fixed { units: 1200 }, multiplier: Fixed { units: 14886 } })
    } else if year == 2016 {
        Some(InflationEntry { rate: Fixed { units: 12600 }, multiplier: Fixed { units: 14898 } })
    } else if year == 2017 {
        Some(InflationEntry { rate: Fixed { units: 21300 }, multiplier: Fixed { units: 15024 } })
    } else if year == 2018 {
        Some(InflationEntry { rate: Fixed { units: 24400 }, multiplier: Fixed { units: 15237 } })
    } else if year == 2019 {
        Some(InflationEntry { rate: Fixed { units: 22900 }, multiplier: Fixed { units: 15481 } })
    } else if year == 2020 {
        Some(InflationEntry { rate: Fixed { units: 12300 }, multiplier: Fixed { units: 15710 } })
    } else if year == 2021 {
        Some(InflationEntry { rate: Fixed { units: 47000 }, multiplier: Fixed { units: 15833 } })
    } else if year == 2022 {
        Some(InflationEntry { rate: Fixed { units: 64900 }, multiplier: Fixed { units: 16303 } })
    } else if year == 2023 {
        Some(InflationEntry { rate: Fixed { units: 65600 }, multiplier: Fixed { units: 16952 } })
    } else if year == 2024 {
        Some(InflationEntry { rate: Fixed { units: 29000 }, multiplier: Fixed { units: 17608 } })
    } else {
        None
    }
}

/// The multiplier a wage adjustment uses: the table's cumulative multiplier
/// when the year is given and covered; the caller's own multiplier when no
/// year is given, and — by the documented fallback — also when the given year
/// is outside the table.
pub open spec fn spec_effective_multiplier(
    inflation_multiplier: Fixed,
    inflation_year: Option<usize>,
) -> Fixed {
    match inflation_year {
        None => inflation_multiplier,
        Some(y) => match spec_inflation_entry(y) {
            Some(e) => e.multiplier,
            None => inflation_multiplier,
        },
    }
}

/// Looks a year up in the inflation table.
pub fn inflation_entry(year: usize) -> (r: Option<InflationEntry>)
    ensures
        r == spec_inflation_entry(year),
{
    if year < 1995 || year > 2024 {
        return None;
    }
    let rate_units: i64 = match year {
        1995 => 28300,
        1996 => 26400,
        1997 => 25700,
        1998 => 21400,
        1999 => 22300,
        2000 => 33800,
        2001 => 27700,
        2002 => 24400,
        2003 => 22700,
        2004 => 33800,
        2005 => 33900,
        2006 => 25400,
        2007 => 28500,
        2008 => 38400,
        2009 => -3600,
        2010 => 16400,
        2011 => 31600,
        2012 => 20700,
        2013 => 14600,
        2014 => 16200,
        2015 => 1200,
        2016 => 12600,
        2017 => 21300,
        2018 => 24400,
        2019 => 22900,
        2020 => 12300,
        2021 => 47000,
        2022 => 64900,
        2023 => 65600,
        _ => 29000,
    };
    let multiplier_units: i64 = match year {
        1995 => 10000,
        1996 => 10283,
        1997 => 10547,
        1998 => 10804,
        1999 => 11018,
        2000 => 11241,
        2001 => 11579,
        2002 => 11856,
        2003 => 12100,
        2004 => 12327,
        2005 => 12665,
        2006 => 13004,
        2007 => 13258,
        2008 => 13543,
        2009 => 13927,
        2010 => 13891,
        2011 => 14055,
        2012 => 14371,
        2013 => 14578,
        2014 => 14724,
        2015 => 14886,
        2016 => 14898,
        2017 => 15024,
        2018 => 15237,
        2019 => 15481,
        2020 => 15710,
        2021 => 15833,
        2022 => 16303,
        2023 => 16952,
        _ => 17608,
    };
    Some(
        InflationEntry {
            rate: Fixed { units: rate_units },
            multiplier: Fixed { units: multiplier_units },
        },
    )
}

/// The multiplier a wage adjustment uses, per the documented lookup and
/// fallback rules.
pub fn effective_multiplier(inflation_multiplier: Fixed, inflation_year: Option<usize>) -> (r:
    Fixed)
    ensures
        r == spec_effective_multiplier(inflation_multiplier, inflation_year),
{
    match inflation_year {
        None => inflation_multiplier,
        Some(y) => match inflation_entry(y) {
            Some(e) => e.multiplier,
            None => inflation_multiplier,
        },
    }
}

/// Scales the base wage by the effective multiplier, exactly: the result is
/// the full-precision product, in hundred-millionths of a currency unit.
/// With multiplier 1.0000 the adjusted wage equals the base wage.
pub fn adjust_wage(
    avg_wage: Fixed,
    inflation_multiplier: Fixed,
    inflation_year: Option<usize>,
) -> (r: Fixed8)
    ensures
        r.units == avg_wage.units * spec_effective_multiplier(
            inflation_multiplier,
            inflation_year,
        ).units,
{
    let m = effective_multiplier(inflation_multiplier, inflation_year);
    Fixed8::product(avg_wage, m)
}

/// Across the covered years, the cumulative multiplier never decreases from
/// one year to the next, apart from the documented negative-inflation dip
/// from 2009 to 2010.
pub proof fn lemma_multiplier_non_decreasing(year: usize)
    requires
        1995 <= year < 2024,
        year != 2009,
    ensures
        spec_inflation_entry(year) is Some,
        spec_inflation_entry((year + 1) as usize) is Some,
        spec_inflation_entry(year).unwrap().multiplier.units <= spec_inflation_entry(
            (year + 1) as usize,
        ).unwrap().multiplier.units,
{
}

} // verus!
