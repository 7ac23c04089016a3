use health_counter::health::HealthComponent;

#[test]
fn new_counter_reports_its_initial_value() {
    let h = HealthComponent::new(10);
    assert_eq!(h.health(), 10);
    assert!(h.is_alive());

    let z = HealthComponent::new(0);
    assert_eq!(z.health(), 0);
    assert!(!z.is_alive());
}

#[test]
fn subtract_returns_the_clamped_value_it_stored() {
    let mut h = HealthComponent::new(10);
    assert_eq!(h.subtract(3), 7);
    assert_eq!(h.health(), 7);
    assert_eq!(h.subtract(7), 0);
    assert_eq!(h.health(), 0);

    let mut low = HealthComponent::new(5);
    assert_eq!(low.subtract(100), 0);
    assert_eq!(low.health(), 0);
}

#[test]
fn heal_has_no_ceiling() {
    let mut h = HealthComponent::new(10);
    assert_eq!(h.heal(2), 12);
    assert_eq!(h.health(), 12);
    assert_eq!(h.heal(1000), 1012);
    assert_eq!(h.health(), 1012);
}

#[test]
fn zero_amounts_change_nothing() {
    let mut h = HealthComponent::new(7);
    assert_eq!(h.subtract(0), 7);
    assert_eq!(h.health(), 7);
    assert_eq!(h.heal(0), 7);
    assert_eq!(h.health(), 7);

    let mut dead = HealthComponent::new(0);
    assert_eq!(dead.subtract(0), 0);
    assert_eq!(dead.health(), 0);
    assert_eq!(dead.heal(0), 0);
    assert_eq!(dead.health(), 0);
}

#[test]
fn n_unit_hits_from_n_land_on_zero() {
    let n: usize = 7;
    let mut h = HealthComponent::new(n);
    for _ in 0..n {
        h.subtract(1);
    }
    assert_eq!(h.health(), 0);
}

#[test]
fn dead_is_not_absorbing() {
    let mut h = HealthComponent::new(1);
    assert_eq!(h.subtract(1), 0);
    assert!(!h.is_alive());
    assert_eq!(h.heal(2), 2);
    assert!(h.is_alive());
}
