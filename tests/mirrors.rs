use dfint_installer::constants::base_urls;
use dfint_installer::fetch::{clamp, get_base_url, next_base_url_index, switch_to_next_base_url, Mirrors};

#[test]
fn mirror_index_moves_forward_and_stops_at_last() {
    let m = Mirrors::new(base_urls());
    assert_eq!(get_base_url(&m), "https://dfint.github.io");
    assert_eq!(m.current_index(), 0);
    switch_to_next_base_url(&m);
    assert_eq!(m.current_index(), 1);
    assert_eq!(get_base_url(&m), "https://gitverse.ru/api/repos/dfint/data-mirror/raw/branch/master");
    for _ in 0..10 {
        switch_to_next_base_url(&m);
        assert_eq!(m.current_index(), 1);
    }
}

#[test]
fn failover_retries_until_mirrors_run_out() {
    let m = Mirrors::new(vec![String::from("a"), String::from("b"), String::from("c")]);
    assert!(m.failover(0));
    assert_eq!(m.current_index(), 1);
    assert!(m.failover(0));
    assert_eq!(m.current_index(), 1);
    assert!(m.failover(1));
    assert!(!m.failover(2));
    assert_eq!(m.current_index(), 2);
    assert_eq!(m.url(2), "c");
    assert_eq!(m.len(), 3);
}

#[test]
fn failover_step_and_clamp() {
    assert_eq!(next_base_url_index(0, 1), Some(1));
    assert_eq!(next_base_url_index(1, 1), None);
    assert_eq!(next_base_url_index(7, 1), None);
    assert_eq!(clamp(5, 1), 1);
    assert_eq!(clamp(0, 1), 0);
}
