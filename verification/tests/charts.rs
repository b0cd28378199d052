use collatz_graph::chart::{
    compose_chart, pick_color, ChartSpec, ChartVariant, Color, Panel, PALETTE_LEN,
};
use collatz_graph::dataset::{generate_data_set, Dataset};
use collatz_graph::error::CollatzError;
use collatz_graph::text::{range_caption, u64_string};

#[test]
fn decimal_rendering() {
    assert_eq!(u64_string(0), "0");
    assert_eq!(u64_string(7), "7");
    assert_eq!(u64_string(10), "10");
    assert_eq!(u64_string(1234567890), "1234567890");
    assert_eq!(u64_string(u64::MAX), "18446744073709551615");
}

#[test]
fn captions_embed_the_range() {
    assert_eq!(range_caption("Max Value for ", 4, 5), "Max Value for 4 to 5");
    assert_eq!(
        range_caption("Collatz sequence for ", 0, 1000),
        "Collatz sequence for 0 to 1000"
    );
}

#[test]
fn default_configurations() {
    let b = ChartSpec::bitmap_default();
    assert_eq!(b.variant, ChartVariant::LineWithHistograms);
    assert_eq!((b.width, b.height), (1000, 1500));
    let t = ChartSpec::terminal_default();
    assert_eq!(t.variant, ChartVariant::LineOnly);
    assert_eq!((t.width, t.height), (80, 40));
}

#[test]
fn palette_is_a_fixed_cycle() {
    for i in 0..PALETTE_LEN {
        assert_eq!(pick_color(i), pick_color(i + PALETTE_LEN));
        for j in 0..i {
            assert_ne!(pick_color(i), pick_color(j));
        }
    }
}

#[test]
fn three_panel_chart_layout() {
    let d = generate_data_set(1, 3).unwrap();
    let c = compose_chart(&d, &ChartSpec::bitmap_default()).unwrap();
    assert_eq!((c.width, c.height, c.panel_height), (1000, 1500, 500));
    assert_eq!(c.panels.len(), 3);
    match &c.panels[0] {
        Panel::Line(lp) => {
            assert_eq!(lp.caption, "Collatz sequence for 1 to 3");
            assert_eq!(lp.x_max, d.max_iterations);
            assert_eq!(lp.y_max, d.max_height);
            assert_eq!(lp.series.len(), 2);
            // Trajectory of 2 is [2, 1]: points carry the iteration index.
            assert_eq!(lp.series[1].points, vec![(0, 2), (1, 1)]);
            assert_eq!(lp.series[0].color, pick_color(0));
            assert_eq!(lp.series[1].color, pick_color(1));
        }
        Panel::Histogram(_) => panic!("top panel must hold the line series"),
    }
    match &c.panels[1] {
        Panel::Histogram(hp) => {
            assert_eq!(hp.caption, "Iterations for 1 to 3");
            assert_eq!((hp.x_min, hp.x_max), (1, 3));
            assert_eq!(hp.y_max, d.max_iterations as u64);
            assert_eq!(hp.color, Color { r: 0, g: 255, b: 0 });
            assert_eq!(hp.bars, vec![(1, 1), (2, 2)]);
        }
        Panel::Line(_) => panic!("middle panel must hold the iteration bars"),
    }
    match &c.panels[2] {
        Panel::Histogram(hp) => {
            assert_eq!(hp.caption, "Max Value for 1 to 3");
            assert_eq!((hp.x_min, hp.x_max), (1, 3));
            assert_eq!(hp.y_max, d.max_height);
            assert_eq!(hp.color, Color { r: 0, g: 0, b: 255 });
            assert_eq!(hp.bars, vec![(1, 1), (2, 2)]);
        }
        Panel::Line(_) => panic!("bottom panel must hold the value bars"),
    }
}

#[test]
fn single_panel_chart_layout() {
    let d = generate_data_set(4, 5).unwrap();
    let c = compose_chart(&d, &ChartSpec::terminal_default()).unwrap();
    assert_eq!((c.width, c.height, c.panel_height), (80, 40, 40));
    assert_eq!(c.panels.len(), 1);
    match &c.panels[0] {
        Panel::Line(lp) => {
            assert_eq!(lp.caption, "Collatz sequence for 4 to 5");
            assert_eq!(lp.series.len(), 1);
            assert_eq!(lp.series[0].points, vec![(0, 4), (1, 2), (2, 1)]);
            assert_eq!((lp.x_max, lp.y_max), (3, 4));
        }
        Panel::Histogram(_) => panic!("the single panel must hold the line series"),
    }
}

#[test]
fn color_assignment_is_deterministic() {
    let cfg = ChartSpec::bitmap_default();
    let d1 = generate_data_set(1, 12).unwrap();
    let d2 = generate_data_set(1, 12).unwrap();
    let c1 = compose_chart(&d1, &cfg).unwrap();
    let c2 = compose_chart(&d2, &cfg).unwrap();
    let (l1, l2) = match (&c1.panels[0], &c2.panels[0]) {
        (Panel::Line(a), Panel::Line(b)) => (a, b),
        _ => panic!("both charts must start with the line panel"),
    };
    assert_eq!(l1.series.len(), l2.series.len());
    for i in 0..l1.series.len() {
        assert_eq!(l1.series[i].color, l2.series[i].color);
        // The palette cycles: index 8 reuses the first entry.
        assert_eq!(l1.series[i].color, pick_color(i % PALETTE_LEN));
    }
}

#[test]
fn empty_dataset_is_rejected() {
    let d = Dataset {
        start: 1,
        trajectories: Vec::new(),
        max_height: 0,
        max_iterations: 0,
    };
    let r = compose_chart(&d, &ChartSpec::bitmap_default());
    assert!(matches!(r, Err(CollatzError::EmptyDataset)));
}
