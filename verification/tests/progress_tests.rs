use iter_progress::BufferRenderer;
use iter_progress::ExactSizeProducer;
use iter_progress::Producer;
use iter_progress::IterType;
use iter_progress::Progress;
use iter_progress::ProgressDisplay;
use iter_progress::VecProducer;

type IntProgress = Progress<VecProducer<i32>, BufferRenderer>;

const CLEAR: &str = "\u{1b}[2J\u{1b}[1;1H";

fn bounded_frame(count: usize, total: usize, filled: usize, width: usize) -> String {
    let mut bar = String::new();
    for _ in 0..filled {
        bar.push('\u{25ae}');
    }
    while bar.chars().count() < width {
        bar.push(' ');
    }
    format!("{CLEAR}Iter num:{count}; total_iter:{total};\n progress:[{bar}]\n")
}

#[test]
fn test() {
    let mut v = vec![];
    for i in 0..50 {
        v.push(i);
    }
    let mut p = VecProducer::new(v.clone()).with_progress(BufferRenderer::new()).bounded();
    let mut seen = vec![];
    while let Some(i) = p.next() {
        seen.push(i);
    }
    assert!(seen == v);
    assert!(p.consumed() == 50);
}

#[test]
fn three_elements_bounded_scenario() {
    let mut p =
        VecProducer::new(vec![10, 20, 30]).with_progress(BufferRenderer::new()).bounded();
    assert!(p.length_mode() == Some(IterType::Bounded(3)));

    assert!(p.next() == Some(10));
    assert!(IntProgress::compute(1, 3) == (1, 3));
    assert!(p.next() == Some(20));
    assert!(IntProgress::compute(2, 3) == (2, 3));
    assert!(p.next() == Some(30));
    assert!(IntProgress::compute(3, 3) == (3, 3));
    assert!(p.next() == None);

    let r = p.renderer_ref();
    assert!(r.len() == 4);
    assert!(r.frame_at(0).as_str() == bounded_frame(1, 3, 1, 3));
    assert!(r.frame_at(1).as_str() == bounded_frame(2, 3, 2, 3));
    assert!(r.frame_at(2).as_str() == bounded_frame(3, 3, 3, 3));
    assert!(r.frame_at(3).as_str() == CLEAR);
}

#[test]
fn hundred_elements_rescaled_scenario() {
    assert!(IntProgress::compute(50, 100) == (25, 50));
    assert!(IntProgress::compute(100, 100) == (50, 50));

    let items: Vec<i32> = (0..100).collect();
    let mut p = VecProducer::new(items).with_progress(BufferRenderer::new()).bounded();
    for _ in 0..100 {
        assert!(p.next().is_some());
    }
    let r = p.renderer_ref();
    assert!(r.frame_at(49).as_str() == bounded_frame(50, 100, 25, 50));
    assert!(r.frame_at(99).as_str() == bounded_frame(100, 100, 50, 50));
}

#[test]
fn transparency_keeps_the_sequence() {
    let items = vec![7, -3, 0, 42, 7];
    let mut p = VecProducer::new(items.clone()).with_progress(BufferRenderer::new());
    let out = p.collect_remaining();
    assert!(out == items);
    // One frame per item, then the bare clear prefix for the exhausted fetch.
    let r = p.renderer_ref();
    assert!(r.len() == 6);
    assert!(r.frame_at(0).as_str() == format!("{CLEAR}Iter num:1\n"));
    assert!(r.frame_at(4).as_str() == format!("{CLEAR}Iter num:5\n"));
    assert!(r.frame_at(5).as_str() == CLEAR);
    assert!(p.next() == None);
}

#[test]
fn count_is_one_per_successful_fetch() {
    let mut p = VecProducer::new(vec![1, 2, 3]).with_progress(BufferRenderer::new());
    assert!(p.consumed() == 0);
    p.next();
    assert!(p.consumed() == 1);
    p.next();
    assert!(p.consumed() == 2);
    p.next();
    assert!(p.consumed() == 3);
    p.next();
    assert!(p.consumed() == 3);
    p.next();
    assert!(p.consumed() == 3);
}

#[test]
fn bounded_total_is_captured_once() {
    let mut p =
        VecProducer::new(vec![5, 6, 7, 8]).with_progress(BufferRenderer::new()).bounded();
    assert!(p.length_mode() == Some(IterType::Bounded(4)));
    p.next();
    p.next();
    assert!(p.length_mode() == Some(IterType::Bounded(4)));
    p.next();
    p.next();
    p.next();
    assert!(p.length_mode() == Some(IterType::Bounded(4)));
}

#[test]
fn bounded_mid_traversal_captures_remaining_length() {
    let mut p = VecProducer::new(vec![1, 2, 3]).with_progress(BufferRenderer::new());
    p.next();
    let p = p.bounded();
    assert!(p.length_mode() == Some(IterType::Bounded(2)));
}

#[test]
fn exhausted_stays_exhausted() {
    let mut p = VecProducer::new(vec![9]).with_progress(BufferRenderer::new());
    assert!(p.next() == Some(9));
    for _ in 0..5 {
        assert!(p.next() == None);
        assert!(p.consumed() == 1);
    }
    let r = p.renderer_ref();
    assert!(r.len() == 6);
    for i in 1..6 {
        assert!(r.frame_at(i).as_str() == CLEAR);
    }
}

#[test]
fn empty_producer_renders_clear_only() {
    let empty: Vec<i32> = vec![];
    let mut p = VecProducer::new(empty).with_progress(BufferRenderer::new());
    assert!(p.next() == None);
    assert!(p.consumed() == 0);
    let r = p.renderer_ref();
    assert!(r.len() == 1);
    assert!(r.frame_at(0).as_str() == CLEAR);
}

#[test]
fn unbounded_frames_show_count_only() {
    let mut p = VecProducer::new(vec![4, 5]).with_progress(BufferRenderer::new());
    assert!(p.length_mode() == Some(IterType::Unbounded));
    p.next();
    p.next();
    p.next();
    let r = p.renderer_ref();
    assert!(r.len() == 3);
    assert!(r.frame_at(0).as_str() == format!("{CLEAR}Iter num:1\n"));
    assert!(r.frame_at(1).as_str() == format!("{CLEAR}Iter num:2\n"));
    assert!(r.frame_at(2).as_str() == CLEAR);
}

#[test]
fn compute_small_totals_pass_through() {
    assert!(IntProgress::compute(0, 0) == (0, 0));
    assert!(IntProgress::compute(0, 3) == (0, 3));
    assert!(IntProgress::compute(2, 3) == (2, 3));
    assert!(IntProgress::compute(50, 50) == (50, 50));
}

#[test]
fn compute_large_totals_rescale() {
    assert!(IntProgress::compute(0, 51) == (0, 50));
    assert!(IntProgress::compute(51, 51) == (51, 50));
    assert!(IntProgress::compute(99, 99) == (99, 50));
    assert!(IntProgress::compute(200, 1000) == (10, 50));
    assert!(IntProgress::compute(1000, 1000) == (50, 50));
}

#[test]
fn total_not_a_multiple_of_fifty_overflows_the_bar() {
    // With total 99 the divisor 99 / 50 is 1, so the filled cell count can
    // pass the 50-cell field: the bar overflows rather than clamps.
    let items: Vec<i32> = (0..99).collect();
    let mut p = VecProducer::new(items).with_progress(BufferRenderer::new()).bounded();
    for _ in 0..99 {
        assert!(p.next().is_some());
    }
    let r = p.renderer_ref();
    assert!(r.frame_at(98).as_str() == bounded_frame(99, 99, 99, 50));
}

#[test]
fn render_frame_exact_text() {
    let unbounded = IntProgress::render_frame(7, &Some(IterType::Unbounded));
    assert!(unbounded.as_str() == format!("{CLEAR}Iter num:7\n"));
    let bounded = IntProgress::render_frame(1, &Some(IterType::Bounded(3)));
    assert!(bounded.as_str() == bounded_frame(1, 3, 1, 3));
    let none = IntProgress::render_frame(1, &None);
    assert!(none.as_str() == CLEAR);
}

#[test]
fn decimal_rendering_exact() {
    assert!(iter_progress::render::usize_to_string(0).as_str() == "0");
    assert!(iter_progress::render::usize_to_string(7).as_str() == "7");
    assert!(iter_progress::render::usize_to_string(10).as_str() == "10");
    assert!(iter_progress::render::usize_to_string(123).as_str() == "123");
    assert!(iter_progress::render::usize_to_string(4294967295).as_str() == "4294967295");
}

#[test]
fn bar_field_exact() {
    assert!(iter_progress::render::bar_field(1, 3).as_str() == "\u{25ae}  ");
    assert!(iter_progress::render::bar_field(3, 3).as_str() == "\u{25ae}\u{25ae}\u{25ae}");
    assert!(iter_progress::render::bar_field(0, 2).as_str() == "  ");
    assert!(iter_progress::render::bar_field(0, 0).as_str() == "");
    // When filled exceeds the width the field overflows rather than clamps.
    assert!(
        iter_progress::render::bar_field(5, 3).as_str()
            == "\u{25ae}\u{25ae}\u{25ae}\u{25ae}\u{25ae}"
    );
}

#[test]
fn producer_yields_vector_in_order() {
    let mut p = VecProducer::new(vec![1, 2]);
    assert!(p.next() == Some(1));
    assert!(p.next() == Some(2));
    assert!(p.next() == None);
    assert!(p.next() == None);
}

#[test]
fn exact_size_reports_remaining() {
    let mut p = VecProducer::new(vec![1, 2, 3]);
    assert!(p.len() == 3);
    p.next();
    assert!(p.len() == 2);
    p.next();
    p.next();
    assert!(p.len() == 0);
}
