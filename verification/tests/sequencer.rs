use cosmo_svg_animation_lib::SceneHandler;
use cosmo_svg_animation_lib::SceneManager;

#[test]
fn empty_row_has_no_manager() {
    assert!(SceneManager::new(0).is_none());
}

#[test]
fn row_starts_at_its_first_scene() {
    let manager = SceneManager::new(3).unwrap();
    assert_eq!(manager.active(), 0);
    assert_eq!(manager.scene_count, 3);
}

#[test]
fn three_scenes_advance_once_per_scene_and_stop_at_the_last() {
    let mut manager = SceneManager::new(3).unwrap();
    let mut first = SceneHandler::activate(&manager, 1_000);
    first.next_scene(&mut manager, 1_500);
    assert_eq!(manager.active(), 1);
    first.next_scene(&mut manager, 1_600);
    assert_eq!(manager.active(), 1);

    let mut second = SceneHandler::activate(&manager, 1_500);
    assert_eq!(second.id, 1);
    second.next_scene(&mut manager, 2_000);
    assert_eq!(manager.active(), 2);

    let mut third = SceneHandler::activate(&manager, 2_000);
    third.next_scene(&mut manager, 2_700);
    assert_eq!(manager.active(), 2);
    third.next_scene(&mut manager, 2_800);
    assert_eq!(manager.active(), 2);
}

#[test]
fn stale_scene_cannot_move_the_row() {
    let mut manager = SceneManager::new(4).unwrap();
    let mut stale = SceneHandler::activate(&manager, 0);
    let mut current = SceneHandler::activate(&manager, 0);
    current.next_scene(&mut manager, 10);
    assert_eq!(manager.active(), 1);
    stale.next_scene(&mut manager, 20);
    assert_eq!(manager.active(), 1);
    assert!(stale.changed_scene);
}

#[test]
fn single_scene_row_never_moves() {
    let mut manager = SceneManager::new(1).unwrap();
    let mut only = SceneHandler::activate(&manager, 0);
    only.next_scene(&mut manager, 5);
    assert_eq!(manager.active(), 0);
}

#[test]
fn scene_time_starts_at_zero_and_follows_the_clock() {
    let manager = SceneManager::new(2).unwrap();
    let scene = SceneHandler::activate(&manager, 50_000);
    assert_eq!(scene.time(50_000), 0);
    assert_eq!(scene.time(50_016), 16);
    assert_eq!(scene.time(53_000), 3_000);
    assert_eq!(scene.time(49_000), 0);
}

#[test]
fn scene_time_freezes_at_the_first_report() {
    let mut manager = SceneManager::new(2).unwrap();
    let mut scene = SceneHandler::activate(&manager, 100);
    scene.next_scene(&mut manager, 350);
    assert_eq!(scene.stop_time, Some(250));
    assert_eq!(scene.time(350), 250);
    assert_eq!(scene.time(400), 250);
    assert_eq!(scene.time(1_000_000), 250);
    scene.next_scene(&mut manager, 900);
    assert_eq!(scene.time(900), 250);
}

#[test]
fn last_scene_freezes_its_time_too() {
    let mut manager = SceneManager::new(1).unwrap();
    let mut scene = SceneHandler::activate(&manager, 0);
    scene.next_scene(&mut manager, 75);
    assert!(scene.changed_scene);
    assert_eq!(scene.time(80), 75);
    assert_eq!(manager.active(), 0);
}
