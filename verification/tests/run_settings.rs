use shapes_interop::role::Role;
use shapes_interop::settings::{
    domain_id_for, domain_id_from_text, durability_for, first_unsupported, history_for,
    history_from_text, qos_plan, reliability_for, role_for, Durability, History, QosPlan,
    Reliability, Unsupported,
};

#[test]
fn the_publisher_flag_goes_first() {
    assert_eq!(role_for(true, false), Some(Role::Publisher));
    assert_eq!(role_for(false, true), Some(Role::Subscriber));
    assert_eq!(role_for(true, true), Some(Role::Publisher));
    assert_eq!(role_for(false, false), None);
}

#[test]
fn reliability_follows_its_flag() {
    assert_eq!(reliability_for(true), Reliability::Reliable);
    assert_eq!(reliability_for(false), Reliability::BestEffort);
}

#[test]
fn each_letter_has_its_durability() {
    assert_eq!(durability_for(Some("v")), Durability::Volatile);
    assert_eq!(durability_for(Some("l")), Durability::TransientLocal);
    assert_eq!(durability_for(Some("t")), Durability::Transient);
    assert_eq!(durability_for(Some("p")), Durability::Persistent);
}

#[test]
fn anything_else_is_volatile() {
    assert_eq!(durability_for(None), Durability::Volatile);
    assert_eq!(durability_for(Some("")), Durability::Volatile);
    assert_eq!(durability_for(Some("x")), Durability::Volatile);
    assert_eq!(durability_for(Some("L")), Durability::Volatile);
    assert_eq!(durability_for(Some("tp")), Durability::Volatile);
    assert_eq!(durability_for(Some("persistent")), Durability::Volatile);
    assert_eq!(durability_for(Some("\u{e9}")), Durability::Volatile);
}

#[test]
fn a_depth_that_is_a_number_keeps_that_many() {
    assert_eq!(history_from_text(Some("5")), History::KeepLast { depth: 5 });
    assert_eq!(history_from_text(Some("0")), History::KeepLast { depth: 0 });
    assert_eq!(history_from_text(Some("+7")), History::KeepLast { depth: 7 });
    assert_eq!(history_from_text(Some("2147483647")), History::KeepLast { depth: i32::MAX });
    assert_eq!(history_for(Some(Some(12))), History::KeepLast { depth: 12 });
}

#[test]
fn any_other_depth_keeps_all() {
    assert_eq!(history_from_text(None), History::KeepAll);
    assert_eq!(history_from_text(Some("-1")), History::KeepAll);
    assert_eq!(history_from_text(Some("-2147483648")), History::KeepAll);
    assert_eq!(history_from_text(Some("many")), History::KeepAll);
    assert_eq!(history_from_text(Some("")), History::KeepAll);
    assert_eq!(history_from_text(Some(" 5")), History::KeepAll);
    assert_eq!(history_from_text(Some("2147483648")), History::KeepAll);
    assert_eq!(history_for(None), History::KeepAll);
    assert_eq!(history_for(Some(None)), History::KeepAll);
    assert_eq!(history_for(Some(Some(-5))), History::KeepAll);
}

#[test]
fn the_domain_is_the_number_given_or_zero() {
    assert_eq!(domain_id_from_text(Some("7")), 7);
    assert_eq!(domain_id_from_text(Some("65535")), 65535);
    assert_eq!(domain_id_from_text(Some("65536")), 0);
    assert_eq!(domain_id_from_text(Some("-1")), 0);
    assert_eq!(domain_id_from_text(Some("seven")), 0);
    assert_eq!(domain_id_from_text(None), 0);
    assert_eq!(domain_id_for(Some(Some(3))), 3);
    assert_eq!(domain_id_for(Some(None)), 0);
    assert_eq!(domain_id_for(None), 0);
}

#[test]
fn the_plan_puts_the_three_together() {
    assert_eq!(
        qos_plan(true, Some("l"), Some("3")),
        QosPlan {
            reliability: Reliability::Reliable,
            durability: Durability::TransientLocal,
            history: History::KeepLast { depth: 3 },
        }
    );
    assert_eq!(
        qos_plan(false, None, None),
        QosPlan {
            reliability: Reliability::BestEffort,
            durability: Durability::Volatile,
            history: History::KeepAll,
        }
    );
}

#[test]
fn options_that_are_not_served_are_found_in_order() {
    assert_eq!(first_unsupported(false, false, false), None);
    assert_eq!(first_unsupported(true, false, false), Some(Unsupported::Partition));
    assert_eq!(first_unsupported(false, true, false), Some(Unsupported::TimeBasedFilter));
    assert_eq!(first_unsupported(false, false, true), Some(Unsupported::OwnershipStrength));
    assert_eq!(first_unsupported(true, true, true), Some(Unsupported::Partition));
    assert_eq!(first_unsupported(false, true, true), Some(Unsupported::TimeBasedFilter));
}

#[test]
fn each_refusal_names_its_policy() {
    assert_eq!(Unsupported::Partition.refusal(), "QoS policy Partition is not yet implemented.");
    assert_eq!(
        Unsupported::TimeBasedFilter.refusal(),
        "QoS policy Time Based Filter is not yet implemented."
    );
    assert_eq!(
        Unsupported::OwnershipStrength.refusal(),
        "QoS policy Ownership Strength is not yet implemented."
    );
}
