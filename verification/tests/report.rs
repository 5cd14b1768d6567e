//! Tests of the report renderer's exact layouts.

use cocomo::report::render_report;
use cocomo::OutputFormat;
use cocomo::ReportFields;

fn sample_fields() -> ReportFields {
    ReportFields {
        cur: String::from("$"),
        sloc: String::from("10,000"),
        effort: String::from("27.14"),
        effort_years: String::from("2.26"),
        a: String::from("2.40"),
        b: String::from("1.05"),
        eaf: String::from("1.00"),
        months: String::from("8.54"),
        months_years: String::from("0.71"),
        dev_time: String::from("2.50"),
        c: String::from("0.38"),
        people: String::from("3.18"),
        cost: String::from("305,866"),
        wage: String::from("56,286"),
        overhead: String::from("2.40"),
        inflation_year: String::from("1995"),
        inflation_multiplier: String::from("1.00"),
    }
}

#[test]
fn markdown_table_layout() {
    let r = render_report(&sample_fields(), &OutputFormat::MarkdownTable);
    let expected = "Description                | Value\n\
---------------------------|---------------------------------\n\
Total Source Lines of Code | 10,000\n\
Estimated Cost to Develop  | $305,866\n\
Estimated Schedule Effort  | 8.54 months\n\
Estimated People Required  | 3.18\n";
    assert_eq!(r, expected);
}

#[test]
fn sloccount_layout() {
    let r = render_report(&sample_fields(), &OutputFormat::Sloccount);
    let expected = "Total Physical Source Lines of Code (SLOC)                    = 10,000\n\
Development Effort Estimate, Person-Years (Person-Months)     = 2.26 (27.14)\n  \
(Basic COCOMO model, Person-Months = 2.40*(KSLOC**1.05)*1.00)\n\
Schedule Estimate, Years (Months)                             = 0.71 (8.54)\n  \
(Basic COCOMO model, Months = 2.50*(person-months**0.38))\n\
Estimated Average Number of Developers (Effort/Schedule)      = 3.18\n\
Total Estimated Cost to Develop                               = $305,866\n  \
(average salary = $56,286/year, overhead = 2.40)\n";
    assert_eq!(r, expected);
}

#[test]
fn sloccount_inflation_layout() {
    let r = render_report(&sample_fields(), &OutputFormat::SloccountInflation);
    let expected = "Total Physical Source Lines of Code (SLOC)                    = 10,000\n\
Development Effort Estimate, Person-Years (Person-Months)     = 2.26 (27.14)\n  \
(Basic COCOMO model, Person-Months = 2.40*(KSLOC**1.05)*1.00)\n\
Schedule Estimate, Years (Months)                             = 0.71 (8.54)\n  \
(Basic COCOMO model, Months = 2.50*(person-months**0.38))\n\
Estimated Average Number of Developers (Effort/Schedule)      = 3.18\n\
Total Estimated Cost to Develop                               = $305,866\n  \
(average salary 1995@1.00*1995 = $56,286/year, overhead = 2.40)\n";
    assert_eq!(r, expected);
}

#[test]
fn sloccount_inflation_layout_without_year() {
    let mut fields = sample_fields();
    fields.inflation_year = String::new();
    fields.inflation_multiplier = String::from("1.50");
    let r = render_report(&fields, &OutputFormat::SloccountInflation);
    assert!(r.contains("  (average salary @1.50*1995 = $56,286/year, overhead = 2.40)\n"));
}
