use luna_shell::shell::{Command, Shell};
use luna_shell::window::{
    bottom_right_position, initial_position, ManagedWindow, Position, Size, Visibility,
};

#[test]
fn bottom_right_on_full_hd() {
    let monitor = Size { width: 1920, height: 1080 };
    let window = Size { width: 400, height: 600 };
    assert_eq!(bottom_right_position(monitor, window), Some(Position { x: 1500, y: 420 }));
}

#[test]
fn window_larger_than_monitor_goes_negative() {
    let monitor = Size { width: 800, height: 600 };
    let window = Size { width: 1000, height: 700 };
    assert_eq!(bottom_right_position(monitor, window), Some(Position { x: -220, y: -160 }));
}

#[test]
fn zero_sizes() {
    let z = Size { width: 0, height: 0 };
    assert_eq!(bottom_right_position(z, z), Some(Position { x: -20, y: -60 }));
}

#[test]
fn coordinates_out_of_range_give_no_position() {
    let huge = Size { width: u32::MAX, height: 100 };
    let small = Size { width: 10, height: 10 };
    assert_eq!(bottom_right_position(huge, small), None);
    let tall = Size { width: 100, height: u32::MAX };
    assert_eq!(bottom_right_position(small, tall), None);
}

#[test]
fn largest_coordinate_that_fits() {
    let monitor = Size { width: i32::MAX as u32 + 20, height: i32::MAX as u32 + 60 };
    let window = Size { width: 0, height: 0 };
    assert_eq!(
        bottom_right_position(monitor, window),
        Some(Position { x: i32::MAX, y: i32::MAX })
    );
    let monitor = Size { width: i32::MAX as u32 + 21, height: 1000 };
    assert_eq!(bottom_right_position(monitor, window), None);
}

#[test]
fn missing_sizes_skip_positioning() {
    let m = Size { width: 1920, height: 1080 };
    let w = Size { width: 400, height: 600 };
    assert_eq!(initial_position(None, Some(w)), None);
    assert_eq!(initial_position(Some(m), None), None);
    assert_eq!(initial_position(None, None), None);
    assert_eq!(initial_position(Some(m), Some(w)), Some(Position { x: 1500, y: 420 }));
}

#[test]
fn startup_commands_position_main() {
    let m = Size { width: 2560, height: 1440 };
    let w = Size { width: 360, height: 640 };
    assert_eq!(
        Shell::startup_commands(Some(m), Some(w)),
        vec![Command::SetPosition(ManagedWindow::Main, Position { x: 2180, y: 740 })]
    );
    assert_eq!(Shell::startup_commands(None, Some(w)), vec![]);
    assert_eq!(Shell::startup_commands(Some(m), None), vec![]);
}

#[test]
fn visibility_from_host_report() {
    assert_eq!(Visibility::from_report(Some(true)), Visibility::Visible);
    assert_eq!(Visibility::from_report(Some(false)), Visibility::Hidden);
    assert_eq!(Visibility::from_report(None), Visibility::Hidden);
    assert_eq!(Visibility::Visible.flip(), Visibility::Hidden);
    assert_eq!(Visibility::Hidden.flip(), Visibility::Visible);
}
