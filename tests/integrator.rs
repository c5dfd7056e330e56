use ray_tracer::integrator::{step, traces, Bounce, Step};

#[test]
fn no_tracing_without_depth() {
    assert!(!traces(0));
    assert!(!traces(-5));
    assert!(traces(1));
    assert!(traces(50));
}

#[test]
fn steps_after_each_bounce() {
    assert_eq!(step(3, Bounce::Missed), Step::Sky);
    assert_eq!(step(3, Bounce::Absorbed), Step::Black);
    assert_eq!(step(3, Bounce::Scattered), Step::Trace { depth: 2 });
    assert_eq!(step(1, Bounce::Scattered), Step::Trace { depth: 0 });
}

#[test]
fn path_that_always_scatters_ends_black_after_max_depth() {
    let max_depth: i64 = 50;
    let mut depth = max_depth;
    let mut scattered = 0;
    let end = loop {
        if !traces(depth) {
            break Step::Black;
        }
        match step(depth, Bounce::Scattered) {
            Step::Trace { depth: d } => {
                scattered += 1;
                depth = d;
            }
            other => break other,
        }
    };
    assert_eq!(end, Step::Black);
    assert_eq!(scattered, max_depth);
}
