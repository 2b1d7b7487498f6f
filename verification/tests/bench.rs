use trench::bench::parse_bench_args;

fn args(v: &[&str]) -> Vec<String> {
  v.iter().map(|s| s.to_string()).collect()
}

#[test]
fn absent_flag_means_no_benchmark() {
  assert!(parse_bench_args(&args(&["trench", "--n", "5"])).is_none());
}

#[test]
fn defaults_apply_without_overrides() {
  let o = parse_bench_args(&args(&["trench", "--bench-render"])).unwrap();
  assert_eq!(o.scenario, "feed");
  assert_eq!((o.n, o.frames, o.width, o.height), (1000, 200, 160, 48));
}

#[test]
fn scenario_and_numbers_are_read() {
  let o = parse_bench_args(&args(&[
    "trench", "--bench-render", "search", "--n", "50", "--frames", "10", "--width", "70000",
    "--height", "+30",
  ]))
  .unwrap();
  assert_eq!(o.scenario, "search");
  assert_eq!(o.n, 50);
  assert_eq!(o.frames, 10);
  assert_eq!(o.width, (70000u32 % 65536) as u16);
  assert_eq!(o.height, 30);
}

#[test]
fn flag_after_bench_render_is_not_a_scenario_and_bad_numbers_are_ignored() {
  let o = parse_bench_args(&args(&["trench", "--bench-render", "--n", "x", "--frames"])).unwrap();
  assert_eq!(o.scenario, "feed");
  assert_eq!(o.n, 1000);
  assert_eq!(o.frames, 200);
}
