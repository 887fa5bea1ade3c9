use raytrace::path::{path_step, trace_path, PathAction, PathVerdict, TraceEvent, MAX_DEPTH};

#[test]
fn miss_emits_sky_at_any_depth() {
    assert_eq!(path_step(0, TraceEvent::Miss), PathAction::EmitSky);
    assert_eq!(path_step(MAX_DEPTH, TraceEvent::Miss), PathAction::EmitSky);
    assert_eq!(path_step(MAX_DEPTH + 7, TraceEvent::Miss), PathAction::EmitSky);
}

#[test]
fn scatter_bounces_below_the_cutoff() {
    assert_eq!(path_step(0, TraceEvent::Scattered), PathAction::Bounce);
    assert_eq!(path_step(MAX_DEPTH - 1, TraceEvent::Scattered), PathAction::Bounce);
}

#[test]
fn cutoff_emits_black_whatever_the_material_did() {
    assert_eq!(path_step(MAX_DEPTH, TraceEvent::Scattered), PathAction::EmitBlack);
    assert_eq!(path_step(MAX_DEPTH, TraceEvent::Absorbed), PathAction::EmitBlack);
}

#[test]
fn absorption_emits_black() {
    assert_eq!(path_step(3, TraceEvent::Absorbed), PathAction::EmitBlack);
}

#[test]
fn immediate_miss_is_sky_with_no_bounce() {
    assert_eq!(trace_path(&vec![TraceEvent::Miss]), Some((PathVerdict::Sky, 0)));
}

#[test]
fn bounce_then_miss_is_sky_with_one_attenuation() {
    let events = vec![TraceEvent::Scattered, TraceEvent::Miss];
    assert_eq!(trace_path(&events), Some((PathVerdict::Sky, 1)));
}

#[test]
fn bounce_then_absorption_is_black() {
    let events = vec![TraceEvent::Scattered, TraceEvent::Absorbed];
    assert_eq!(trace_path(&events), Some((PathVerdict::Black, 1)));
}

#[test]
fn path_reaching_the_cutoff_is_black() {
    // Fifty scatter events bring the path to the depth cutoff; the next
    // surface hit is cut off no matter how the material reacted.
    let mut events = vec![TraceEvent::Scattered; MAX_DEPTH as usize];
    events.push(TraceEvent::Scattered);
    assert_eq!(trace_path(&events), Some((PathVerdict::Black, MAX_DEPTH as usize)));

    let mut events = vec![TraceEvent::Scattered; MAX_DEPTH as usize];
    events.push(TraceEvent::Absorbed);
    assert_eq!(trace_path(&events), Some((PathVerdict::Black, MAX_DEPTH as usize)));
}

#[test]
fn miss_at_the_cutoff_is_still_sky() {
    let mut events = vec![TraceEvent::Scattered; MAX_DEPTH as usize];
    events.push(TraceEvent::Miss);
    assert_eq!(trace_path(&events), Some((PathVerdict::Sky, MAX_DEPTH as usize)));
}

#[test]
fn exhausted_events_leave_the_walk_open() {
    assert_eq!(trace_path(&Vec::new()), None);
    assert_eq!(trace_path(&vec![TraceEvent::Scattered]), None);
}
