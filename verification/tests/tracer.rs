use pathtracer::tracer::{trace_step, PathDecision};

#[test]
fn miss_emits_background_at_any_depth() {
    assert_eq!(trace_step(0, 5, false), PathDecision::EmitBackground);
    assert_eq!(trace_step(5, 5, false), PathDecision::EmitBackground);
    assert_eq!(trace_step(100, 5, false), PathDecision::EmitBackground);
}

#[test]
fn hit_below_the_bound_scatters_one_level_deeper() {
    assert_eq!(trace_step(0, 5, true), PathDecision::Scatter { next_depth: 1 });
    assert_eq!(trace_step(4, 5, true), PathDecision::Scatter { next_depth: 5 });
}

#[test]
fn hit_at_or_past_the_bound_is_cut_to_black() {
    assert_eq!(trace_step(5, 5, true), PathDecision::EmitBlack);
    assert_eq!(trace_step(9, 5, true), PathDecision::EmitBlack);
    assert_eq!(trace_step(0, 0, true), PathDecision::EmitBlack);
}
