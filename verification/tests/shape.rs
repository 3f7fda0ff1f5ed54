use stack_error::shape::{classify, Shape, Tail};

#[test]
fn classify_follows_the_table() {
    assert_eq!(classify(true, true, true), Shape::LocatedWithChainCause);
    assert_eq!(classify(true, true, false), Shape::LocatedWithChainCause);
    assert_eq!(classify(true, false, true), Shape::LocatedWithExternalCause);
    assert_eq!(classify(true, false, false), Shape::LocatedLeaf);
    assert_eq!(classify(false, true, true), Shape::UnlocatedWithChainCause);
    assert_eq!(classify(false, true, false), Shape::UnlocatedWithChainCause);
    assert_eq!(classify(false, false, true), Shape::UnlocatedWithExternalCause);
    assert_eq!(classify(false, false, false), Shape::UnlocatedLeaf);
}

#[test]
fn a_nested_cause_wins_over_an_external_one() {
    for located in [true, false] {
        assert_eq!(classify(located, true, true), classify(located, true, false));
        assert!(classify(located, true, true).has_chain_cause());
        assert_eq!(classify(located, true, true).format_tail(), Tail::NestedTrace);
    }
}

#[test]
fn a_shape_says_what_the_flags_say() {
    for located in [true, false] {
        for source in [true, false] {
            for external in [true, false] {
                let shape = classify(located, source, external);
                assert_eq!(shape.is_located(), located);
                assert_eq!(shape.has_chain_cause(), source);
                let tail = if source {
                    Tail::NestedTrace
                } else if external {
                    Tail::ExternalLine
                } else {
                    Tail::Nothing
                };
                assert_eq!(shape.format_tail(), tail);
            }
        }
    }
}
