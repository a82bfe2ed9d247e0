use fractals::iteration::{
    carpet_iterations, escape_time, julia_constant_index, koch_iterations,
    mandelbrot_iteration_limit, triangle_iterations, RECURSION_LIMIT,
};

fn mandelbrot(c: (f32, f32), max_iter: i32) -> i32 {
    escape_time(
        (0.0f32, 0.0f32),
        max_iter,
        move |z: (f32, f32)| (z.0 * z.0 - z.1 * z.1 + c.0, 2.0 * z.0 * z.1 + c.1),
        |z: &(f32, f32)| z.0 * z.0 + z.1 * z.1 > 4.0,
    )
}

#[test]
fn mandelbrot_inside_never_escapes() {
    assert_eq!(mandelbrot((0.0, 0.0), 500), 500);
    assert_eq!(mandelbrot((-1.0, 0.0), 100), 100);
}

#[test]
fn mandelbrot_outside_escapes_early() {
    // c = 2: z1 = 2 (|z|^2 = 4, not > 4), z2 = 6 escapes at index 1.
    assert_eq!(mandelbrot((2.0, 0.0), 500), 1);
    // c = 3: z1 = 3 escapes at once.
    assert_eq!(mandelbrot((3.0, 0.0), 500), 0);
}

#[test]
fn escape_time_with_non_positive_limit() {
    assert_eq!(mandelbrot((3.0, 0.0), 0), 0);
    assert_eq!(mandelbrot((3.0, 0.0), -5), -5);
}

#[test]
fn escape_time_on_integers() {
    // Doubling from 1 passes 100 after 7 steps (128), at index 6.
    assert_eq!(escape_time(1u64, 50, |z: u64| z * 2, |z: &u64| *z > 100), 6);
    assert_eq!(escape_time(1u64, 3, |z: u64| z * 2, |z: &u64| *z > 100), 3);
}

#[test]
fn iteration_limit() {
    assert_eq!(mandelbrot_iteration_limit(50), 50);
    assert_eq!(mandelbrot_iteration_limit(500), 500);
    assert_eq!(mandelbrot_iteration_limit(10_000), RECURSION_LIMIT);
    assert_eq!(mandelbrot_iteration_limit(-3), -3);
}

#[test]
fn animated_depths() {
    assert_eq!(koch_iterations(0), -1);
    assert_eq!(koch_iterations(7), 6);
    assert_eq!(koch_iterations(9), 6);
    assert_eq!(koch_iterations(-6), -7);
    assert_eq!(carpet_iterations(5), 5);
    assert_eq!(carpet_iterations(7), 6);
    assert_eq!(triangle_iterations(7), 7);
    assert_eq!(triangle_iterations(8), 8);
    assert_eq!(triangle_iterations(9), 8);
}

#[test]
fn julia_constant_slots() {
    assert_eq!(julia_constant_index(0), 0);
    assert_eq!(julia_constant_index(5), 5);
    assert_eq!(julia_constant_index(6), 0);
    assert_eq!(julia_constant_index(13), 1);
    assert_eq!(julia_constant_index(-6), 0);
    assert_eq!(julia_constant_index(-1), (-1i32) as usize);
    assert!(julia_constant_index(-7) >= 6);
}

use fractals::iteration::{iterate_while, march, MarchEvent};

#[test]
fn iterate_while_stops_at_bailout() {
    // Doubling 1 while below 1000: 1, 2, ..., 1024 after 10 steps.
    let (z, n) = iterate_while(1u64, 25, |z: &u64| *z < 1000, |z: u64| z * 2);
    assert_eq!((z, n), (1024, 10));
}

#[test]
fn iterate_while_stops_at_limit() {
    let (z, n) = iterate_while(1u64, 3, |z: &u64| *z < 1000, |z: u64| z * 2);
    assert_eq!((z, n), (8, 3));
    let (z, n) = iterate_while(5u64, 0, |_z: &u64| true, |z: u64| z + 1);
    assert_eq!((z, n), (5, 0));
    let (z, n) = iterate_while(5u64, -2, |_z: &u64| true, |z: u64| z + 1);
    assert_eq!((z, n), (5, 0));
}

#[test]
fn iterate_while_checks_start_point() {
    let (z, n) = iterate_while(2000u64, 25, |z: &u64| *z < 1000, |z: u64| z * 2);
    assert_eq!((z, n), (2000, 0));
}

#[test]
fn march_stops_on_hit() {
    // Distance shrinks by 3 each step; a hit when it drops below 1.
    let end = march(10i64, 100, |d: i64| {
        let next = d - 3;
        (next, if next < 1 { MarchEvent::Hit } else { MarchEvent::Continue })
    });
    assert_eq!((end.state, end.steps, end.event), (-2, 4, MarchEvent::Hit));
}

#[test]
fn march_stops_on_escape() {
    let end = march(0i64, 100, |t: i64| {
        let next = t + 40;
        (next, if next > 100 { MarchEvent::Escaped } else { MarchEvent::Continue })
    });
    assert_eq!((end.state, end.steps, end.event), (120, 3, MarchEvent::Escaped));
}

#[test]
fn march_runs_out_of_steps() {
    let end = march(0i64, 5, |t: i64| (t + 1, MarchEvent::Continue));
    assert_eq!((end.state, end.steps, end.event), (5, 5, MarchEvent::Continue));
    let end = march(7i64, 0, |t: i64| (t + 1, MarchEvent::Hit));
    assert_eq!((end.state, end.steps, end.event), (7, 0, MarchEvent::Continue));
}

#[test]
fn julia_constants_cycle_every_six() {
    for c in 0..200 {
        assert_eq!(julia_constant_index(c + 6), julia_constant_index(c));
        assert!(julia_constant_index(c) < 6);
    }
}
