use gravitation::visibility::{count_visible, needs_reset};

#[test]
fn reset_below_half_of_the_stars() {
    assert!(needs_reset(149, 300));
    assert!(!needs_reset(150, 300));
    assert!(!needs_reset(300, 300));
    assert!(needs_reset(0, 2));
}

#[test]
fn the_half_is_rounded_down() {
    assert!(needs_reset(0, 3));
    assert!(!needs_reset(1, 3));
    assert!(!needs_reset(0, 1));
    assert!(!needs_reset(0, 0));
}

#[test]
fn nothing_to_count_in_an_empty_world() {
    assert_eq!(count_visible(&vec![]), 0);
}

#[test]
fn counts_the_stars_on_screen() {
    assert_eq!(count_visible(&vec![true, false, true, true, false]), 3);
    assert_eq!(count_visible(&vec![false, false]), 0);
    assert_eq!(count_visible(&vec![true]), 1);
}

#[test]
fn the_count_never_exceeds_the_number_of_stars() {
    assert_eq!(count_visible(&vec![true; 300]), 300);
    let mixed: Vec<bool> = (0..300u32).map(|k| k % 3 == 0).collect();
    assert_eq!(count_visible(&mixed), 100);
    assert!(count_visible(&mixed) <= mixed.len());
}

#[test]
fn one_star_leaving_lowers_the_count_by_one() {
    let mut on_screen = vec![true, true, false, true];
    assert_eq!(count_visible(&on_screen), 3);
    on_screen[1] = false;
    assert_eq!(count_visible(&on_screen), 2);
    on_screen[2] = true;
    assert_eq!(count_visible(&on_screen), 3);
    on_screen[2] = true;
    assert_eq!(count_visible(&on_screen), 3);
}

#[test]
fn a_world_half_in_sight_is_kept_and_one_star_less_resets_it() {
    let mut on_screen = vec![false; 300];
    for flag in on_screen.iter_mut().take(150) {
        *flag = true;
    }
    assert!(!needs_reset(count_visible(&on_screen), on_screen.len()));
    on_screen[0] = false;
    assert!(needs_reset(count_visible(&on_screen), on_screen.len()));
}
