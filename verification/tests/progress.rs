use isofetch::progress::ProgressReporter;

#[test]
fn position_advances_and_clamps() {
    let mut p = ProgressReporter::new(None, "https://example/a.iso", "/tmp/a.iso", 10, Some("a"));
    assert_eq!(p.position, 0);
    assert_eq!(p.length, 10);
    p.update(4);
    assert_eq!(p.position, 4);
    // Cumulative chunks overshoot the declared total: the position stops there.
    p.update(9);
    assert_eq!(p.position, 10);
    p.update(1);
    assert_eq!(p.position, 10);
    p.finish();
}

#[test]
fn reporter_keeps_its_target() {
    let p = ProgressReporter::new(None, "https://example/b.iso", "/d/b.iso", 100, None);
    assert_eq!(p.url, "https://example/b.iso");
    assert_eq!(p.out_path_str, "/d/b.iso");
    p.finish();
}

#[test]
fn reporters_share_one_display_surface() {
    let multi = indicatif::MultiProgress::new();
    let mut a = ProgressReporter::new(Some(&multi), "https://example/a.iso", "/d/a.iso", 8, Some("a"));
    let mut b = ProgressReporter::new(Some(&multi), "https://example/b.iso", "/d/b.iso", 8, Some("b"));
    a.update(8);
    b.update(3);
    assert_eq!(a.position, 8);
    assert_eq!(b.position, 3);
    a.finish();
    b.finish();
}
