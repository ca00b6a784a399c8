use hobby::settings::{AppInfo, Version};
use hobby::timer::{FrameTimer, PhysicsTimer};
use hobby::tools::frame_timer::FrameTimer as ReportingFrameTimer;

#[test]
fn version_new_keeps_fields() {
    let v = Version::new(3, 14, 159);
    assert_eq!((v.major, v.minor, v.patch), (3, 14, 159));
}

#[test]
fn vulkan_version_packs_fields() {
    assert_eq!(Version::new(1, 1, 92).into_vulkan_version(), (1 << 22) | (1 << 12) | 92);
    assert_eq!(Version::new(1, 1, 92).into_vulkan_version(), 4198492);
    assert_eq!(Version::new(0, 1, 0).into_vulkan_version(), 4096);
    assert_eq!(Version::new(0x3ff, 0x3ff, 0xfff).into_vulkan_version(), u32::MAX);
}

#[test]
fn vulkan_version_roundtrips() {
    let v = Version::new(7, 300, 4000).into_vulkan_version();
    assert_eq!(v >> 22, 7);
    assert_eq!((v >> 12) & 0x3ff, 300);
    assert_eq!(v & 0xfff, 4000);
}

#[test]
fn vulkan_version_keeps_order() {
    let a = Version::new(1, 2, 4095).into_vulkan_version();
    let b = Version::new(1, 3, 0).into_vulkan_version();
    let c = Version::new(2, 0, 0).into_vulkan_version();
    assert!(a < b && b < c);
}

#[test]
fn app_info_default() {
    let info = AppInfo::default();
    assert_eq!(info.app_name, "Default");
    assert_eq!(
        (info.app_version.major, info.app_version.minor, info.app_version.patch),
        (0, 1, 0)
    );
}

#[test]
fn physics_timer_exists() {
    let _timer = PhysicsTimer {};
}

#[test]
fn frame_timer_tic_reports_long_display_interval() {
    let mut timer = FrameTimer::new(1_000, 2_000_000_000);
    let t = timer.tic(1_500);
    assert_eq!(t.frame_time, 500);
    assert_eq!(t.display_interval_secs, None);
    let t = timer.tic(3_000_001_000);
    assert_eq!(t.frame_time, 3_000_000_000);
    assert_eq!(t.display_interval_secs, Some(3));
}

#[test]
fn frame_timer_tic_saturates_backwards_time() {
    let mut timer = FrameTimer::new(1_000, 10);
    let t = timer.tic(500);
    assert_eq!(t.frame_time, 0);
    assert_eq!(t.display_interval_secs, None);
}

#[test]
fn reporting_frame_timer_kick() {
    let mut timer = ReportingFrameTimer::new(0, 2_000, "app");
    assert_eq!(timer.name(), "app");
    timer.start(100);
    let k = timer.kick(600);
    assert_eq!((k.frame_time, k.update_debug, k.num_frames, k.elapsed), (500, false, 1, 500));
    let k = timer.kick(2_100);
    assert_eq!((k.frame_time, k.update_debug, k.num_frames, k.elapsed), (1_500, true, 2, 2_000));
    let k = timer.kick(2_200);
    assert_eq!((k.frame_time, k.update_debug, k.num_frames, k.elapsed), (100, false, 3, 2_100));
}

#[test]
fn frame_timer_counts_frames() {
    let mut timer = FrameTimer::new(0, 10);
    assert_eq!(timer.frame_counts(), (0, 0));
    timer.tic(5);
    timer.tic(7);
    assert_eq!(timer.frame_counts(), (2, 2));
}

#[test]
fn reporting_frame_timer_game_time() {
    let mut timer = ReportingFrameTimer::new(0, 2_000, "app");
    timer.start(100);
    assert_eq!(timer.num_frames(), 0);
    timer.kick(600);
    assert_eq!(timer.num_frames(), 1);
    assert_eq!(timer.game_time(1_100), 1_000);
    assert_eq!(timer.game_time(50), 0);
}
