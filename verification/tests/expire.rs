use overlay_things::countdown::{Countdown, MAX_SPAN, NANOS_PER_SECOND};
use overlay_things::expire::{Expire, Expired};
use overlay_things::particles::fireworks::{
    creatable, create_effect, CreateFireworks, FireworksPlan, Rocket,
};
use overlay_things::particles::{PARTICLE_LAYER, UI_LAYER};

#[test]
fn expire_new_counts_the_whole_lifetime() {
    let expire = Expire::new(5 * NANOS_PER_SECOND);
    assert_eq!(expire.0, Countdown::new(5_000_000_000));
    assert_eq!(expire.0.remaining(), 5_000_000_000);
}

#[test]
fn expire_tick_says_when_the_time_is_up() {
    let mut expire = Expire::new(NANOS_PER_SECOND);
    assert_eq!(expire.tick(400_000_000), None);
    assert_eq!(expire.tick(400_000_000), None);
    assert_eq!(expire.0.remaining(), 200_000_000);
    assert_eq!(expire.tick(400_000_000), Some(Expired));
    assert_eq!(expire.0.remaining(), 0);
    assert_eq!(expire.tick(1), Some(Expired));
}

#[test]
fn expire_add_time_adds_to_what_is_left() {
    let mut expire = Expire::new(5 * NANOS_PER_SECOND);
    expire.tick(2 * NANOS_PER_SECOND);
    expire.add_time(30_000_000_000);
    assert_eq!(expire, Expire::new(33 * NANOS_PER_SECOND));
    assert_eq!(expire.tick(32_999_999_999), None);
    assert_eq!(expire.tick(1), Some(Expired));
}

#[test]
fn expire_add_time_after_the_end() {
    let mut expire = Expire::new(NANOS_PER_SECOND);
    assert_eq!(expire.tick(NANOS_PER_SECOND), Some(Expired));
    expire.add_time(2_000_000_000);
    assert_eq!(expire.tick(NANOS_PER_SECOND), None);
    assert_eq!(expire.tick(NANOS_PER_SECOND), Some(Expired));
}

#[test]
fn create_fireworks_holds_its_duration() {
    assert_eq!(CreateFireworks::new(15_000_000_000).0, 15_000_000_000);
    assert_eq!(CreateFireworks::new(-1), CreateFireworks(-1));
}

#[test]
fn fireworks_without_a_rocket_are_launched() {
    let event = CreateFireworks::new(15_000_000_000);
    assert_eq!(
        create_effect(&event, Rocket::Missing),
        FireworksPlan::Launch(Expire::new(15 * NANOS_PER_SECOND))
    );
}

#[test]
fn fireworks_light_a_spent_rocket_again() {
    let event = CreateFireworks::new(5_000_000_000);
    assert_eq!(
        create_effect(&event, Rocket::Spent),
        FireworksPlan::Relight(Expire::new(5 * NANOS_PER_SECOND))
    );
}

#[test]
fn fireworks_extend_a_burning_rocket() {
    let mut burning = Expire::new(30 * NANOS_PER_SECOND);
    burning.tick(10 * NANOS_PER_SECOND);
    let event = CreateFireworks::new(60_000_000_000);
    assert_eq!(
        create_effect(&event, Rocket::Burning(burning)),
        FireworksPlan::Extend(Expire::new(80 * NANOS_PER_SECOND))
    );
}

#[test]
fn fireworks_can_shorten_a_burning_rocket() {
    let burning = Expire::new(30 * NANOS_PER_SECOND);
    let event = CreateFireworks::new(-30_000_000_000);
    assert_eq!(
        create_effect(&event, Rocket::Burning(burning)),
        FireworksPlan::Extend(Expire::new(0))
    );
}

#[test]
fn fireworks_of_no_duration() {
    let event = CreateFireworks::new(0);
    let plan = create_effect(&event, Rocket::Missing);
    assert_eq!(plan, FireworksPlan::Launch(Expire::new(0)));
    if let FireworksPlan::Launch(mut expire) = plan {
        assert_eq!(expire.tick(0), Some(Expired));
    }
}

#[test]
fn layers_are_apart() {
    assert_eq!(PARTICLE_LAYER, 2);
    assert_eq!(UI_LAYER, 1);
}

#[test]
fn expire_says_what_it_can_take() {
    let expire = Expire::new(5 * NANOS_PER_SECOND);
    assert!(expire.can_add_time(30_000_000_000));
    assert!(expire.can_add_time(-5_000_000_000));
    assert!(!expire.can_add_time(-5_000_000_001));
}

#[test]
fn fireworks_need_a_duration_that_fits() {
    let burning = Rocket::Burning(Expire::new(30 * NANOS_PER_SECOND));
    assert!(creatable(&CreateFireworks::new(0), Rocket::Missing));
    assert!(creatable(&CreateFireworks::new(MAX_SPAN as i128), Rocket::Spent));
    assert!(!creatable(&CreateFireworks::new(-1), Rocket::Missing));
    assert!(!creatable(&CreateFireworks::new(-1), Rocket::Spent));
    assert!(!creatable(&CreateFireworks::new(MAX_SPAN as i128 + 1), Rocket::Missing));
    assert!(creatable(&CreateFireworks::new(-1), burning));
    assert!(creatable(&CreateFireworks::new(-30_000_000_000), burning));
    assert!(!creatable(&CreateFireworks::new(-30_000_000_001), burning));
    assert!(!creatable(&CreateFireworks::new(MAX_SPAN as i128), burning));
}
