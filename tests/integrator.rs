use raytracer::integrator::{resolve_path, Bounce, Path, PathEnd, Step};

#[test]
fn zero_depth_is_black_before_any_trace() {
    let path = Path::new(0);
    assert_eq!(path.next_step(), Step::Finish(PathEnd::Black));
    assert_eq!(path.remaining(), 0);
    assert_eq!(path.scatters(), 0);
}

#[test]
fn zero_depth_is_black_for_any_bounces() {
    assert_eq!(resolve_path(0, &vec![]), Some((PathEnd::Black, 0)));
    assert_eq!(resolve_path(0, &vec![Bounce::Miss]), Some((PathEnd::Black, 0)));
    assert_eq!(
        resolve_path(0, &vec![Bounce::Scattered, Bounce::Scattered]),
        Some((PathEnd::Black, 0))
    );
}

#[test]
fn positive_depth_traces_first() {
    let path = Path::new(50);
    assert_eq!(path.next_step(), Step::Trace);
    assert_eq!(path.remaining(), 50);
}

#[test]
fn miss_ends_on_background() {
    let mut path = Path::new(3);
    assert_eq!(path.record(Bounce::Miss), Step::Finish(PathEnd::Background));
    assert_eq!(path.scatters(), 0);
    assert_eq!(path.remaining(), 3);
}

#[test]
fn absorbing_surface_ends_black() {
    let mut path = Path::new(3);
    assert_eq!(path.record(Bounce::Absorbed), Step::Finish(PathEnd::Black));
    assert_eq!(path.scatters(), 0);
}

#[test]
fn absorption_after_scatters_is_black() {
    assert_eq!(
        resolve_path(5, &vec![Bounce::Scattered, Bounce::Scattered, Bounce::Absorbed, Bounce::Miss]),
        Some((PathEnd::Black, 2))
    );
}

#[test]
fn scatter_spends_one_bounce() {
    let mut path = Path::new(2);
    assert_eq!(path.record(Bounce::Scattered), Step::Trace);
    assert_eq!(path.remaining(), 1);
    assert_eq!(path.scatters(), 1);
    assert_eq!(path.record(Bounce::Scattered), Step::Finish(PathEnd::Black));
    assert_eq!(path.remaining(), 0);
    assert_eq!(path.scatters(), 2);
}

#[test]
fn scatters_then_miss_ends_on_background() {
    assert_eq!(
        resolve_path(50, &vec![Bounce::Scattered, Bounce::Scattered, Bounce::Scattered, Bounce::Miss]),
        Some((PathEnd::Background, 3))
    );
}

#[test]
fn budget_caps_scatters() {
    let bounces = vec![Bounce::Scattered; 10];
    assert_eq!(resolve_path(4, &bounces), Some((PathEnd::Black, 4)));
}

#[test]
fn too_few_bounces_leave_path_open() {
    assert_eq!(resolve_path(3, &vec![]), None);
    assert_eq!(resolve_path(3, &vec![Bounce::Scattered, Bounce::Scattered]), None);
}

#[test]
fn unused_bounces_are_ignored() {
    assert_eq!(
        resolve_path(1, &vec![Bounce::Miss, Bounce::Absorbed, Bounce::Scattered]),
        Some((PathEnd::Background, 0))
    );
}
