//! The report renderer: assembles the estimate's textual layouts.
//!
//! The renderer works over already-formatted field strings, so the layout —
//! every label, separator and line break — is pinned down exactly by the
//! contracts, while the numeric formatting conventions (grouped integers,
//! two-decimal ratios) are the field producer's concern.

use vstd::prelude::*;

verus! {

/// The textual layouts a report can take.
#[derive(Clone, Copy, Debug, PartialEq, Eq, Structural)]
pub enum OutputFormat {
    /// A four-row description/value table.
    MarkdownTable,
    /// A multi-line narrative in the style of the sloccount tool.
    Sloccount,
    /// The narrative, with the inflation year and multiplier spelled out in
    /// the salary line.
    SloccountInflation,
}

/// The formatted field values a report interpolates. Integers come grouped
/// with thousands separators and no decimals; ratios and coefficients carry
/// exactly two decimals. `inflation_year` is empty when no year was given.
pub struct ReportFields {
    /// Currency symbol, prefixed to cost and wage.
    pub cur: String,
    /// Total source lines of code.
    pub sloc: String,
    /// Effort in person-months.
    pub effort: String,
    /// Effort in person-years.
    pub effort_years: String,
    /// Effort multiplier coefficient.
    pub a: String,
    /// Effort exponent coefficient.
    pub b: String,
    /// Effort adjustment factor.
    pub eaf: String,
    /// Schedule in months.
    pub months: String,
    /// Schedule in years.
    pub months_years: String,
    /// Development-time constant.
    pub dev_time: String,
    /// Schedule exponent coefficient.
    pub c: String,
    /// Average staffing.
    pub people: String,
    /// Total cost.
    pub cost: String,
    /// Average annual wage.
    pub wage: String,
    /// Overhead multiplier.
    pub overhead: String,
    /// Inflation year, or empty when none was given.
    pub inflation_year: String,
    /// Inflation multiplier in effect.
    pub inflation_multiplier: String,
}

/// The description/value table layout.
pub open spec fn markdown_table_text(f: ReportFields) -> Seq<char> {
    "Description                | Value\n---------------------------|---------------------------------\nTotal Source Lines of Code | "@
        + f.sloc@ + "\nEstimated Cost to Develop  | "@ + f.cur@ + f.cost@
        + "\nEstimated Schedule Effort  | "@ + f.months@
        + " months\nEstimated People Required  | "@ + f.people@ + "\n"@
}

/// The narrative layout.
pub open spec fn sloccount_text(f: ReportFields) -> Seq<char> {
    "Total Physical Source Lines of Code (SLOC)                    = "@ + f.sloc@
        + "\nDevelopment Effort Estimate, Person-Years (Person-Months)     = "@ + f.effort_years@
        + " ("@ + f.effort@ + ")\n  (Basic COCOMO model, Person-Months = "@ + f.a@ + "*(KSLOC**"@
        + f.b@ + ")*"@ + f.eaf@
        + ")\nSchedule Estimate, Years (Months)                             = "@ + f.months_years@
        + " ("@ + f.months@ + ")\n  (Basic COCOMO model, Months = "@ + f.dev_time@
        + "*(person-months**"@ + f.c@
        + "))\nEstimated Average Number of Developers (Effort/Schedule)      = "@ + f.people@
        + "\nTotal Estimated Cost to Develop                               = "@ + f.cur@ + f.cost@
        + "\n  (average salary = "@ + f.cur@ + f.wage@ + "/year, overhead = "@ + f.overhead@
        + ")\n"@
}

/// The narrative layout with the inflation year and multiplier in the
/// salary line.
pub open spec fn sloccount_inflation_text(f: ReportFields) -> Seq<char> {
    "Total Physical Source Lines of Code (SLOC)                    = "@ + f.sloc@
        + "\nDevelopment Effort Estimate, Person-Years (Person-Months)     = "@ + f.effort_years@
        + " ("@ + f.effort@ + ")\n  (Basic COCOMO model, Person-Months = "@ + f.a@ + "*(KSLOC**"@
        + f.b@ + ")*"@ + f.eaf@
        + ")\nSchedule Estimate, Years (Months)                             = "@ + f.months_years@
        + " ("@ + f.months@ + ")\n  (Basic COCOMO model, Months = "@ + f.dev_time@
        + "*(person-months**"@ + f.c@
        + "))\nEstimated Average Number of Developers (Effort/Schedule)      = "@ + f.people@
        + "\nTotal Estimated Cost to Develop                               = "@ + f.cur@ + f.cost@
        + "\n  (average salary "@ + f.inflation_year@ + "@"@ + f.inflation_multiplier@
        + "*1995 = "@ + f.cur@ + f.wage@ + "/year, overhead = "@ + f.overhead@ + ")\n"@
}

/// Renders the chosen layout, exactly as the corresponding template says.
pub fn render_report(fields: &ReportFields, format: &OutputFormat) -> (r: String)
    ensures
        *format == OutputFormat::MarkdownTable ==> r@ == markdown_table_text(*fields),
        *format == OutputFormat::Sloccount ==> r@ == sloccount_text(*fields),
        *format == OutputFormat::SloccountInflation ==> r@ == sloccount_inflation_text(*fields),
{
    let mut s = String::new();
    match format {
        OutputFormat::MarkdownTable => {
            s.append(
                "Description                | Value\n---------------------------|---------------------------------\nTotal Source Lines of Code | ",
            );
            s.append(fields.sloc.as_str());
            s.append("\nEstimated Cost to Develop  | ");
            s.append(fields.cur.as_str());
            s.append(fields.cost.as_str());
            s.append("\nEstimated Schedule Effort  | ");
            s.append(fields.months.as_str());
            s.append(" months\nEstimated People Required  | ");
            s.append(fields.people.as_str());
            s.append("\n");
        },
        OutputFormat::Sloccount => {
            s.append("Total Physical Source Lines of Code (SLOC)                    = ");
            s.append(fields.sloc.as_str());
            s.append("\nDevelopment Effort Estimate, Person-Years (Person-Months)     = ");
            s.append(fields.effort_years.as_str());
            s.append(" (");
            s.append(fields.effort.as_str());
            s.append(")\n  (Basic COCOMO model, Person-Months = ");
            s.append(fields.a.as_str());
            s.append("*(KSLOC**");
            s.append(fields.b.as_str());
            s.append(")*");
            s.append(fields.eaf.as_str());
            s.append(")\nSchedule Estimate, Years (Months)                             = ");
            s.append(fields.months_years.as_str());
            s.append(" (");
            s.append(fields.months.as_str());
            s.append(")\n  (Basic COCOMO model, Months = ");
            s.append(fields.dev_time.as_str());
            s.append("*(person-months**");
            s.append(fields.c.as_str());
            s.append("))\nEstimated Average Number of Developers (Effort/Schedule)      = ");
            s.append(fields.people.as_str());
            s.append("\nTotal Estimated Cost to Develop                               = ");
            s.append(fields.cur.as_str());
            s.append(fields.cost.as_str());
            s.append("\n  (average salary = ");
            s.append(fields.cur.as_str());
            s.append(fields.wage.as_str());
            s.append("/year, overhead = ");
            s.append(fields.overhead.as_str());
            s.append(")\n");
        },
        OutputFormat::SloccountInflation => {
            s.append("Total Physical Source Lines of Code (SLOC)                    = ");
            s.append(fields.sloc.as_str());
            s.append("\nDevelopment Effort Estimate, Person-Years (Person-Months)     = ");
            s.append(fields.effort_years.as_str());
            s.append(" (");
            s.append(fields.effort.as_str());
            s.append(")\n  (Basic COCOMO model, Person-Months = ");
            s.append(fields.a.as_str());
            s.append("*(KSLOC**");
            s.append(fields.b.as_str());
            s.append(")*");
            s.append(fields.eaf.as_str());
            s.append(")\nSchedule Estimate, Years (Months)                             = ");
            s.append(fields.months_years.as_str());
            s.append(" (");
            s.append(fields.months.as_str());
            s.append(")\n  (Basic COCOMO model, Months = ");
            s.append(fields.dev_time.as_str());
            s.append("*(person-months**");
            s.append(fields.c.as_str());
            s.append("))\nEstimated Average Number of Developers (Effort/Schedule)      = ");
            s.append(fields.people.as_str());
            s.append("\nTotal Estimated Cost to Develop                               = ");
            s.append(fields.cur.as_str());
            s.append(fields.cost.as_str());
            s.append("\n  (average salary ");
            s.append(fields.inflation_year.as_str());
            s.append("@");
            s.append(fields.inflation_multiplier.as_str());
            s.append("*1995 = ");
            s.append(fields.cur.as_str());
            s.append(fields.wage.as_str());
            s.append("/year, overhead = ");
            s.append(fields.overhead.as_str());
            s.append(")\n");
        },
    }
    s
}

} // verus!
