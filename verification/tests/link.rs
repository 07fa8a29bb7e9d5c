use midas_app::link::{
    find_link_targets, link_propagation_order, LinkColor, LinkMode, LinkPropagationStep,
    LINK_PROPAGATION_ORDER,
};

#[test]
fn link_propagation_order_matches() {
    assert_eq!(
        LINK_PROPAGATION_ORDER,
        [
            LinkPropagationStep::ClearCaches,
            LinkPropagationStep::DropSubscription,
            LinkPropagationStep::AcquireSubscription,
            LinkPropagationStep::ResetAndAutoScale,
        ]
    );
    assert_eq!(link_propagation_order(), LINK_PROPAGATION_ORDER.to_vec());
}

#[test]
fn link_propagation_step_variants_are_distinct() {
    let xs = LINK_PROPAGATION_ORDER;
    for i in 0..xs.len() {
        for j in 0..xs.len() {
            if i == j {
                assert_eq!(xs[i], xs[j]);
            } else {
                assert_ne!(xs[i], xs[j]);
            }
        }
    }
}

#[test]
fn each_propagation_step_appears_exactly_once() {
    let mut seen = std::collections::HashSet::new();
    for step in &LINK_PROPAGATION_ORDER {
        assert!(seen.insert(*step), "duplicate step in order vector");
    }
    assert_eq!(seen.len(), 4);
}

#[test]
fn find_targets_same_color() {
    let targets = find_link_targets(
        LinkMode::Color(LinkColor::Blue),
        vec![
            (1u32, LinkMode::Color(LinkColor::Blue)),
            (2u32, LinkMode::Color(LinkColor::Red)),
            (3u32, LinkMode::Color(LinkColor::Blue)),
        ],
    );
    assert_eq!(targets, vec![1, 3]);
}

#[test]
fn find_targets_listen_all_receives() {
    let targets = find_link_targets(
        LinkMode::Color(LinkColor::Red),
        vec![(1u32, LinkMode::ListenAll), (2u32, LinkMode::Color(LinkColor::Blue))],
    );
    assert_eq!(targets, vec![1]);
}

#[test]
fn listen_all_does_not_broadcast() {
    let targets = find_link_targets(
        LinkMode::ListenAll,
        vec![(1u32, LinkMode::Color(LinkColor::Blue)), (2u32, LinkMode::ListenAll)],
    );
    assert!(targets.is_empty());
}

#[test]
fn unlinked_does_not_broadcast() {
    let targets = find_link_targets(
        LinkMode::Unlinked,
        vec![(1u32, LinkMode::Color(LinkColor::Blue))],
    );
    assert!(targets.is_empty());
}

#[test]
fn no_matching_panels_returns_empty() {
    let targets = find_link_targets(
        LinkMode::Color(LinkColor::Green),
        vec![(1u32, LinkMode::Color(LinkColor::Blue)), (2u32, LinkMode::Unlinked)],
    );
    assert!(targets.is_empty());
}

#[test]
fn unlinked_mode_produces_no_propagation_targets() {
    let targets: Vec<u32> = find_link_targets(
        LinkMode::Unlinked,
        vec![
            (1u32, LinkMode::Color(LinkColor::Blue)),
            (2u32, LinkMode::Color(LinkColor::Red)),
        ],
    );
    assert!(targets.is_empty());
}

#[test]
fn listen_all_receives_every_broadcast() {
    let targets: Vec<u32> = find_link_targets(
        LinkMode::Color(LinkColor::Blue),
        vec![
            (1u32, LinkMode::ListenAll),
            (2u32, LinkMode::ListenAll),
            (3u32, LinkMode::Color(LinkColor::Red)),
            (4u32, LinkMode::ListenAll),
        ],
    );
    assert_eq!(targets, vec![1, 2, 4]);
}
