use token_issuance::counter::increment;
use token_issuance::counter::initialize;

#[test]
fn counter_starts_at_zero_and_counts() {
    let mut c = initialize();
    assert_eq!(c.count, 0);
    increment(&mut c);
    assert_eq!(c.count, 1);
    increment(&mut c);
    assert_eq!(c.count, 2);
}
