use pipeserve::codes::{exit_code_env, exit_codes, status_is_ok, to_exit_code};

#[test]
fn success_exit_maps_to_200() {
    assert_eq!(to_exit_code(Some(0)), 200);
}

#[test]
fn table_starts_with_success_and_keeps_numeric_order() {
    let table = exit_codes();
    assert_eq!(table[0], 200);
    assert_eq!(table.len(), 64);
    assert_eq!(table[1], 100);
    assert_eq!(table[63], 511);
}

#[test]
fn named_exit_maps_back_to_its_status() {
    let table = exit_codes();
    let idx404 = table.iter().position(|&s| s == 404).unwrap();
    assert_eq!(idx404, 28);
    assert_eq!(to_exit_code(Some(idx404 as i32)), 404);
    let idx403 = table.iter().position(|&s| s == 403).unwrap();
    assert_eq!(idx403, 27);
    assert_eq!(to_exit_code(Some(idx403 as i32)), 403);
}

#[test]
fn exit_beyond_table_is_500() {
    let n = exit_codes().len();
    assert_eq!(to_exit_code(Some(n as i32)), 500);
    assert_eq!(to_exit_code(Some(200)), 500);
    assert_eq!(to_exit_code(Some(-1)), 500);
}

#[test]
fn killed_process_is_500() {
    assert_eq!(to_exit_code(None), 500);
}

#[test]
fn status_ok_is_exactly_2xx() {
    assert!(status_is_ok(200));
    assert!(status_is_ok(299));
    assert!(!status_is_ok(199));
    assert!(!status_is_ok(300));
    assert!(!status_is_ok(404));
    assert!(!status_is_ok(500));
}

#[test]
fn env_pairs_name_each_status_with_its_index() {
    let env = exit_code_env();
    let table = exit_codes();
    assert_eq!(env.len(), table.len());
    assert_eq!(env[0].0, "200");
    assert_eq!(env[0].1, "0");
    assert!(env.iter().any(|(k, v)| k == "404" && v == "28"));
    assert!(env.iter().any(|(k, v)| k == "500" && v == "53"));
    // The duplicate entry for 200: publishing in order leaves "200" at the
    // later index, and that index still maps back to status 200.
    let last_200 = env.iter().rev().find(|(k, _)| k == "200").unwrap();
    assert_eq!(last_200.1, "5");
    assert_eq!(to_exit_code(Some(5)), 200);
}
