use nix_health::text::u64_to_string;
use nix_health::version::NixVersion;

#[test]
fn version_order_strict_less() {
    let a = NixVersion::new(2, 12, 0);
    let b = NixVersion::new(2, 13, 0);
    assert!(a.lt(&b));
    assert!(!b.lt(&a));
    assert!(a.le(&b));
    assert!(!b.le(&a));
}

#[test]
fn version_order_on_each_component() {
    assert!(NixVersion::new(1, 99, 99).lt(&NixVersion::new(2, 0, 0)));
    assert!(NixVersion::new(2, 4, 99).lt(&NixVersion::new(2, 5, 0)));
    assert!(NixVersion::new(2, 13, 0).lt(&NixVersion::new(2, 13, 1)));
}

#[test]
fn version_order_equal_triples() {
    let a = NixVersion::new(2, 13, 0);
    let b = NixVersion::new(2, 13, 0);
    assert_eq!(a, b);
    assert!(!a.lt(&b));
    assert!(!b.lt(&a));
    assert!(a.le(&b));
    assert!(b.le(&a));
}

#[test]
fn version_order_exactly_one_of_three_holds() {
    let samples = [
        NixVersion::new(0, 0, 0),
        NixVersion::new(2, 12, 3),
        NixVersion::new(2, 13, 0),
        NixVersion::new(2, 13, 2),
        NixVersion::new(3, 0, 0),
    ];
    for a in samples.iter() {
        for b in samples.iter() {
            let holds = [a.lt(b), a == b, b.lt(a)];
            assert_eq!(holds.iter().filter(|h| **h).count(), 1);
        }
    }
}

#[test]
fn version_order_transitive_samples() {
    let a = NixVersion::new(2, 12, 9);
    let b = NixVersion::new(2, 13, 0);
    let c = NixVersion::new(3, 0, 0);
    assert!(a.lt(&b));
    assert!(b.lt(&c));
    assert!(a.lt(&c));
}

#[test]
fn decimal_text_exact_values() {
    assert_eq!(u64_to_string(0), "0");
    assert_eq!(u64_to_string(7), "7");
    assert_eq!(u64_to_string(10), "10");
    assert_eq!(u64_to_string(213), "213");
    assert_eq!(u64_to_string(18446744073709551615), "18446744073709551615");
}

#[test]
fn version_text_exact_values() {
    assert_eq!(NixVersion::new(2, 13, 0).to_text(), "2.13.0");
    assert_eq!(NixVersion::new(0, 0, 0).to_text(), "0.0.0");
    assert_eq!(NixVersion::new(10, 2, 37).to_text(), "10.2.37");
}
