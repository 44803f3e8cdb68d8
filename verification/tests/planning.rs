use video_service::format::DeliveryTarget;
use video_service::plan::{plan_renditions, plan_steps, step_progress, Step};

#[test]
fn plan_for_full_hd_source_is_three_rungs() {
    assert_eq!(plan_renditions(1080), vec![480, 720, 1080]);
}

#[test]
fn plan_keeps_every_rung_up_to_the_source() {
    assert_eq!(plan_renditions(480), vec![480]);
    assert_eq!(plan_renditions(719), vec![480]);
    assert_eq!(plan_renditions(720), vec![480, 720]);
    assert_eq!(plan_renditions(1085), vec![480, 720, 1080]);
    assert_eq!(plan_renditions(1440), vec![480, 720, 1080, 1440]);
    assert_eq!(plan_renditions(2159), vec![480, 720, 1080, 1440]);
    assert_eq!(plan_renditions(2160), vec![480, 720, 1080, 1440, 2160]);
    assert_eq!(plan_renditions(u32::MAX), vec![480, 720, 1080, 1440, 2160]);
}

#[test]
fn plan_for_low_source_is_its_own_height() {
    assert_eq!(plan_renditions(300), vec![300]);
    assert_eq!(plan_renditions(479), vec![479]);
    assert_eq!(plan_renditions(1), vec![1]);
    assert_eq!(plan_renditions(0), vec![0]);
}

#[test]
fn plan_is_never_empty_and_never_upscales() {
    let mut height: u32 = 0;
    while height <= 2400 {
        let plan = plan_renditions(height);
        assert!(!plan.is_empty());
        for rung in &plan {
            assert!(*rung <= height);
        }
        for pair in plan.windows(2) {
            assert!(pair[0] < pair[1]);
        }
        for rung in [480u32, 720, 1080, 1440, 2160] {
            if height >= 480 {
                assert_eq!(plan.contains(&rung), rung <= height);
            }
        }
        height += 1;
    }
}

#[test]
fn home_steps_encode_each_rung_then_take_the_thumbnail() {
    assert_eq!(
        plan_steps(DeliveryTarget::Home, 1080, false),
        vec![Step::Encode(480), Step::Encode(720), Step::Encode(1080), Step::Thumbnail]
    );
    assert_eq!(
        plan_steps(DeliveryTarget::Home, 1080, true),
        vec![Step::Encode(480), Step::Encode(720), Step::Encode(1080)]
    );
    assert_eq!(plan_steps(DeliveryTarget::Home, 300, true), vec![Step::Encode(300)]);
}

#[test]
fn flash_steps_copy_once_whatever_the_height() {
    for height in [0u32, 300, 480, 1080, 1920, 2160, 5000] {
        assert_eq!(
            plan_steps(DeliveryTarget::Flash, height, false),
            vec![Step::Copy, Step::Thumbnail]
        );
        assert_eq!(plan_steps(DeliveryTarget::Flash, height, true), vec![Step::Copy]);
    }
}

#[test]
fn progress_is_the_share_of_steps_done_rounded_down() {
    assert_eq!(step_progress(0, 1), 0);
    assert_eq!(step_progress(0, 4), 0);
    assert_eq!(step_progress(1, 4), 25);
    assert_eq!(step_progress(2, 4), 50);
    assert_eq!(step_progress(3, 4), 75);
    assert_eq!(step_progress(1, 3), 33);
    assert_eq!(step_progress(2, 3), 66);
    assert_eq!(step_progress(1, 6), 16);
    assert_eq!(step_progress(5, 6), 83);
    assert_eq!(step_progress(1, 2), 50);
}

#[test]
fn progress_rises_with_the_step_and_stays_below_one_hundred() {
    for total in 1usize..=12 {
        let mut last = 0;
        for index in 0..total {
            let progress = step_progress(index, total);
            assert!(progress >= last);
            assert!(progress < 100);
            last = progress;
        }
    }
    assert_eq!(step_progress(usize::MAX - 1, usize::MAX), 99);
}
