use threadkit::format::Format;

#[test]
fn commas() {
    assert_eq!(Format::commas(0), "0");
    assert_eq!(Format::commas(100), "100");
    assert_eq!(Format::commas(1895), "1,895");
    assert_eq!(Format::commas(10000), "10,000");
    assert_eq!(Format::commas(-10000), "-10,000");
    assert_eq!(Format::commas(-100000), "-100,000");
    assert_eq!(Format::commas(-1000000), "-1,000,000");
    assert_eq!(Format::commas(1000000), "1,000,000");
}

#[test]
fn commas_extremes() {
    assert_eq!(Format::commas(i64::MIN), "-9,223,372,036,854,775,808");
    assert_eq!(Format::commas(i64::MAX), "9,223,372,036,854,775,807");
    assert_eq!(Format::commas(-1), "-1");
    assert_eq!(Format::commas(999), "999");
    assert_eq!(Format::commas(1000), "1,000");
}

#[test]
fn commas1_keeps_multiples_of_three_plain() {
    assert_eq!(Format::commas1(0), "0");
    assert_eq!(Format::commas1(100), "100");
    assert_eq!(Format::commas1(1895), "1,895");
    assert_eq!(Format::commas1(123456), "123456");
    assert_eq!(Format::commas1(10000), "10,000");
    assert_eq!(Format::commas1(1000000), "1,000,000");
    assert_eq!(Format::commas1(100000000), "100000000");
}
