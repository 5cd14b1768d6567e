//! Tests of the catalog, the coefficient parser, the inflation table, and the
//! exact cost step.

use cocomo::engine::estimate_cost_scaled;
use cocomo::inflation::adjust_wage;
use cocomo::inflation::effective_multiplier;
use cocomo::inflation::inflation_entry;
use cocomo::parse_coefficients;
use cocomo::parse_coefficients_quad;
use cocomo::text::str_equal;
use cocomo::CocomoError;
use cocomo::CoefficientSet;
use cocomo::Fixed;
use cocomo::Fixed8;
use cocomo::ProjectType;

fn fx(units: i64) -> Fixed {
    Fixed::from_units(units)
}

#[test]
fn catalog_organic_params() {
    let (a, b, c) = ProjectType::Organic.to_params();
    assert_eq!((a.units, b.units, c.units), (24000, 10500, 3800));
}

#[test]
fn catalog_semi_detached_params() {
    let (a, b, c) = ProjectType::SemiDetached.to_params();
    assert_eq!((a.units, b.units, c.units), (30000, 11200, 3500));
}

#[test]
fn catalog_embedded_params() {
    let (a, b, c) = ProjectType::Embedded.to_params();
    assert_eq!((a.units, b.units, c.units), (36000, 12000, 3200));
}

#[test]
fn catalog_four_tuple_form() {
    let organic = ProjectType::Organic.coefficient_set();
    assert_eq!(
        (organic.a.units, organic.b.units, organic.dev_time.units, organic.c.units),
        (24000, 10500, 25000, 3800)
    );
    let semi = ProjectType::SemiDetached.coefficient_set();
    assert_eq!(
        (semi.a.units, semi.b.units, semi.dev_time.units, semi.c.units),
        (30000, 11200, 25000, 3500)
    );
    let embedded = ProjectType::Embedded.coefficient_set();
    assert_eq!(
        (embedded.a.units, embedded.b.units, embedded.dev_time.units, embedded.c.units),
        (36000, 12000, 25000, 3200)
    );
}

#[test]
fn from_name_known_types() {
    assert_eq!(ProjectType::from_name("organic"), Ok(ProjectType::Organic));
    assert_eq!(ProjectType::from_name("semi-detached"), Ok(ProjectType::SemiDetached));
    assert_eq!(ProjectType::from_name("embedded"), Ok(ProjectType::Embedded));
}

#[test]
fn from_name_unknown_type() {
    assert_eq!(ProjectType::from_name("waterfall"), Err(CocomoError::UnknownProjectType));
    assert_eq!(ProjectType::from_name(""), Err(CocomoError::UnknownProjectType));
    assert_eq!(ProjectType::from_name("Organic"), Err(CocomoError::UnknownProjectType));
}

#[test]
fn parse_organic_triple() {
    let (a, b, c) = parse_coefficients("2.4,1.05,0.38").unwrap();
    assert_eq!((a.units, b.units, c.units), (24000, 10500, 3800));
}

#[test]
fn parse_arity_mismatch() {
    assert_eq!(parse_coefficients("1,2"), Err(CocomoError::MalformedCoefficients));
    assert_eq!(parse_coefficients("1,2,3,4"), Err(CocomoError::MalformedCoefficients));
    assert_eq!(parse_coefficients(""), Err(CocomoError::MalformedCoefficients));
}

#[test]
fn parse_non_numeric_tokens() {
    assert_eq!(parse_coefficients("a,b,c"), Err(CocomoError::MalformedCoefficients));
    assert_eq!(parse_coefficients("2.4,1.05,"), Err(CocomoError::MalformedCoefficients));
    assert_eq!(parse_coefficients("2.4,,0.38"), Err(CocomoError::MalformedCoefficients));
    assert_eq!(parse_coefficients("2.4,1.05,0.38 "), Err(CocomoError::MalformedCoefficients));
}

#[test]
fn parse_integer_and_negative_tokens() {
    let (a, b, c) = parse_coefficients("56286,-0.36,3").unwrap();
    assert_eq!((a.units, b.units, c.units), (562_860_000, -3600, 30000));
}

#[test]
fn parse_fraction_digit_limits() {
    let (a, _, _) = parse_coefficients("1.0283,1,1").unwrap();
    assert_eq!(a.units, 10283);
    assert_eq!(parse_coefficients("1.00001,1,1"), Err(CocomoError::MalformedCoefficients));
    assert_eq!(parse_coefficients("1.,1,1"), Err(CocomoError::MalformedCoefficients));
    assert_eq!(parse_coefficients(".5,1,1"), Err(CocomoError::MalformedCoefficients));
}

#[test]
fn parse_integer_digit_limits() {
    let (a, _, _) = parse_coefficients("12345678901234,1,1").unwrap();
    assert_eq!(a.units, 123_456_789_012_340_000);
    assert_eq!(
        parse_coefficients("123456789012345,1,1"),
        Err(CocomoError::MalformedCoefficients)
    );
}

#[test]
fn parse_rejects_exponents_and_signs() {
    assert_eq!(parse_coefficients("1e3,1,1"), Err(CocomoError::MalformedCoefficients));
    assert_eq!(parse_coefficients("+1,2,3"), Err(CocomoError::MalformedCoefficients));
    assert_eq!(parse_coefficients("--1,2,3"), Err(CocomoError::MalformedCoefficients));
    assert_eq!(parse_coefficients("1.2.3,1,1"), Err(CocomoError::MalformedCoefficients));
}

#[test]
fn parse_quad_form() {
    let (a, b, d, c) = parse_coefficients_quad("2.4,1.05,2.5,0.38").unwrap();
    assert_eq!((a.units, b.units, d.units, c.units), (24000, 10500, 25000, 3800));
    assert_eq!(parse_coefficients_quad("2.4,1.05,0.38"), Err(CocomoError::MalformedCoefficients));
}

#[test]
fn resolve_prefers_custom_override() {
    let r = cocomo::resolve_coefficients(Some("3.6,1.20,0.32"), ProjectType::Organic).unwrap();
    assert_eq!((r.0.units, r.1.units, r.2.units), (36000, 12000, 3200));
    assert_eq!(
        cocomo::resolve_coefficients(Some("nope"), ProjectType::Organic),
        Err(CocomoError::MalformedCoefficients)
    );
}

#[test]
fn resolve_falls_back_to_catalog() {
    let r = cocomo::resolve_coefficients(None, ProjectType::SemiDetached).unwrap();
    assert_eq!((r.0.units, r.1.units, r.2.units), (30000, 11200, 3500));
}

#[test]
fn coefficient_set_constructors() {
    let triple = CoefficientSet::from_triple(fx(24000), fx(10500), fx(3800), fx(25000));
    let quad = CoefficientSet::from_quad(fx(24000), fx(10500), fx(25000), fx(3800));
    assert_eq!(triple, quad);
}

#[test]
fn inflation_base_year() {
    let e = inflation_entry(1995).unwrap();
    assert_eq!(e.rate.units, 28300);
    assert_eq!(e.multiplier.units, 10000);
}

#[test]
fn inflation_negative_rate_year() {
    let e = inflation_entry(2009).unwrap();
    assert_eq!(e.rate.units, -3600);
    assert_eq!(e.multiplier.units, 13927);
    let next = inflation_entry(2010).unwrap();
    assert!(next.multiplier.units < e.multiplier.units);
}

#[test]
fn inflation_last_year() {
    let e = inflation_entry(2024).unwrap();
    assert_eq!(e.rate.units, 29000);
    assert_eq!(e.multiplier.units, 17608);
}

#[test]
fn inflation_uncovered_years() {
    assert_eq!(inflation_entry(1994), None);
    assert_eq!(inflation_entry(2025), None);
    assert_eq!(inflation_entry(1800), None);
}

#[test]
fn effective_multiplier_lookup() {
    assert_eq!(effective_multiplier(fx(10000), Some(1995)).units, 10000);
    assert_eq!(effective_multiplier(fx(10000), Some(2016)).units, 14898);
}

#[test]
fn effective_multiplier_fallback_equals_no_year() {
    let with_absent_year = effective_multiplier(fx(10000), Some(1800));
    let without_year = effective_multiplier(fx(10000), None);
    assert_eq!(with_absent_year, without_year);
    assert_eq!(without_year.units, 10000);
}

#[test]
fn adjust_wage_base_year_is_identity() {
    let wage = fx(562_860_000);
    let adjusted = adjust_wage(wage, fx(10000), Some(1995));
    assert_eq!(adjusted.units, 5_628_600_000_000);
}

#[test]
fn adjust_wage_fallback_year_uses_caller_multiplier() {
    let wage = fx(562_860_000);
    let absent = adjust_wage(wage, fx(10000), Some(1800));
    let none = adjust_wage(wage, fx(10000), None);
    assert_eq!(absent, none);
    assert_eq!(absent.units, 5_628_600_000_000);
}

#[test]
fn adjust_wage_scales_by_table_multiplier() {
    let adjusted = adjust_wage(fx(562_860_000), fx(10000), Some(2016));
    assert_eq!(adjusted.units, 562_860_000i128 * 14898);
}

#[test]
fn fixed8_product_is_exact() {
    let p = Fixed8::product(fx(-25000), fx(30000));
    assert_eq!(p.units, -750_000_000);
}

#[test]
fn cost_step_exact_value() {
    // effort 2.0 person-months, wage 1.2, overhead 3.0: the cost is
    // 2.0 * 1.2 / 12 * 3.0 = 0.6, and the scaled product is
    // 0.6 * 12 * 10^12 = 7.2 * 10^12.
    let r = estimate_cost_scaled(fx(20000), fx(12000), fx(30000));
    assert_eq!(r, 7_200_000_000_000);
}

#[test]
fn cost_step_linear_in_wage_and_overhead() {
    let base = estimate_cost_scaled(fx(27140), fx(562_860_000), fx(24000));
    let double_wage = estimate_cost_scaled(fx(27140), fx(2 * 562_860_000), fx(24000));
    let triple_overhead = estimate_cost_scaled(fx(27140), fx(562_860_000), fx(3 * 24000));
    assert_eq!(double_wage, 2 * base);
    assert_eq!(triple_overhead, 3 * base);
}

#[test]
fn cost_step_zero_effort() {
    assert_eq!(estimate_cost_scaled(fx(0), fx(562_860_000), fx(24000)), 0);
}

#[test]
fn error_messages() {
    assert_eq!(CocomoError::MalformedCoefficients.message(), "malformed custom coefficients");
    assert_eq!(CocomoError::UnknownProjectType.message(), "unknown project type");
}

#[test]
fn str_equal_compares_contents() {
    assert!(str_equal("organic", "organic"));
    assert!(!str_equal("organic", "organik"));
    assert!(!str_equal("organic", "organ"));
    assert!(str_equal("", ""));
}

#[test]
fn fixed_constructors() {
    assert_eq!(Fixed::from_whole(56286).units, 562_860_000);
    assert_eq!(Fixed::from_units(-3600).units, -3600);
}
