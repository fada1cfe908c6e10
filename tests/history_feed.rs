use mc_dashboard::clock::UtcDateTime;
use mc_dashboard::feed::Feed;
use mc_dashboard::history::{MetricsHistory, PlotArea, MAX_POINTS};

#[test]
fn history_keeps_last_window() {
    let mut h: MetricsHistory<u32> = MetricsHistory::new();
    assert!(h.cpu_data.is_empty());
    for i in 0..(MAX_POINTS as u32 + 5) {
        h.add_data(i, i + 1000, i + 2000, format!("t{}", i));
    }
    assert_eq!(h.cpu_data.len(), MAX_POINTS);
    assert_eq!(h.memory_data.len(), MAX_POINTS);
    assert_eq!(h.tps_data.len(), MAX_POINTS);
    assert_eq!(h.timestamps.len(), MAX_POINTS);
    assert_eq!(h.cpu_data[0], 5);
    assert_eq!(h.memory_data[0], 1005);
    assert_eq!(*h.tps_data.back().unwrap(), 2000 + MAX_POINTS as u32 + 4);
    assert_eq!(h.timestamps[0], "t5");
}

#[test]
fn history_with_float_samples() {
    let mut h: MetricsHistory<f64> = MetricsHistory::new();
    h.add_data(12.5, 40.0, 19.9, "a".to_string());
    h.add_data(13.5, 41.0, 20.0, "b".to_string());
    assert_eq!(h.cpu_data.iter().copied().collect::<Vec<f64>>(), vec![12.5, 13.5]);
    assert_eq!(h.timestamps.len(), 2);
}

#[test]
fn plot_geometry() {
    let a = PlotArea::new(400, 160);
    assert_eq!(a, PlotArea { x0: 36, y0: 8, width: 356, height: 134 });
    assert_eq!(a.capacity(), 89);
    assert_eq!(a.window(0), (0, 0));
    assert_eq!(a.window(50), (0, 50));
    assert_eq!(a.window(150), (61, 89));
    assert_eq!(a.point_x(89, 88), 392);
    assert_eq!(a.point_x(89, 0), 40);
    let small = PlotArea::new(20, 0);
    assert_eq!(small.width, 10);
    assert_eq!(small.height, 10);
    assert_eq!(small.capacity(), 2);
}

#[test]
fn feed_keeps_stale_data_on_bad_answer() {
    let now = UtcDateTime { year: 2024, month: 1, day: 2, hour: 13, minute: 4, second: 5, nanosecond: 0 };
    let mut f: Feed<Vec<u32>> = Feed::new(Vec::new());
    assert!(f.is_loading);
    f.receive(Some(vec![1, 2]), &now, true);
    assert_eq!(f.data, vec![1, 2]);
    assert!(!f.is_loading);
    assert_eq!(f.last_updated.as_deref(), Some("13:04:05 UTC"));
    f.start();
    assert!(f.is_loading);
    f.receive(None, &now, false);
    assert!(f.is_loading);
    assert_eq!(f.data, vec![1, 2]);
    f.receive(None, &now, true);
    assert!(!f.is_loading);
    assert_eq!(f.data, vec![1, 2]);
    let later = UtcDateTime { hour: 14, ..now };
    f.receive(Some(vec![3]), &later, false);
    assert_eq!(f.data, vec![3]);
    assert_eq!(f.last_updated.as_deref(), Some("14:04:05 UTC"));
}
