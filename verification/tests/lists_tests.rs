use frontend::lists::{
    first_index_of, position_of_key, prepend, prepend_bounded, remove_with_key,
    replace_first_with_key,
};
use frontend::model::{BlockedIp, Timestamp};

fn block(id: u128, ip: &str) -> BlockedIp {
    BlockedIp {
        id,
        ip_address: ip.to_string(),
        reason: "test".to_string(),
        blocked_at: Timestamp { secs: 0, nanos: 0 },
    }
}

fn ips(v: &[BlockedIp]) -> Vec<String> {
    v.iter().map(|b| b.ip_address.clone()).collect()
}

#[test]
fn bounded_feed_drops_the_oldest() {
    let mut feed = vec![2, 1];
    prepend_bounded(&mut feed, 3, 3);
    assert_eq!(feed, vec![3, 2, 1]);
    prepend_bounded(&mut feed, 4, 3);
    assert_eq!(feed, vec![4, 3, 2]);
}

#[test]
fn bounded_feed_of_cap_zero_stays_empty() {
    let mut feed: Vec<i32> = Vec::new();
    prepend_bounded(&mut feed, 9, 0);
    assert!(feed.is_empty());
}

#[test]
fn bounded_feed_law_on_values() {
    let mut feed: Vec<u32> = Vec::new();
    for i in 0..10u32 {
        prepend_bounded(&mut feed, i, 4);
        assert!(feed.len() <= 4);
        assert_eq!(feed[0], i);
    }
    assert_eq!(feed, vec![9, 8, 7, 6]);
}

#[test]
fn prepend_puts_first() {
    let mut v = vec![block(1, "a")];
    prepend(&mut v, block(2, "b"));
    assert_eq!(ips(&v), vec!["b", "a"]);
}

#[test]
fn first_index_finds_first() {
    let keys = vec![5u128, 7, 5];
    assert_eq!(first_index_of(&keys, 5), Some(0));
    assert_eq!(first_index_of(&keys, 7), Some(1));
    assert_eq!(first_index_of(&keys, 9), None);
}

#[test]
fn position_by_key() {
    let v = vec![block(1, "a"), block(2, "b"), block(2, "c")];
    assert_eq!(position_of_key(&v, 2), Some(1));
    assert_eq!(position_of_key(&v, 3), None);
}

#[test]
fn replace_changes_first_match_only() {
    let mut v = vec![block(1, "a"), block(2, "b"), block(2, "c")];
    replace_first_with_key(&mut v, 2, block(2, "z"));
    assert_eq!(ips(&v), vec!["a", "z", "c"]);
    replace_first_with_key(&mut v, 9, block(9, "q"));
    assert_eq!(ips(&v), vec!["a", "z", "c"]);
}

#[test]
fn remove_drops_every_match_and_is_idempotent() {
    let v = vec![block(1, "a"), block(2, "b"), block(1, "c"), block(3, "d")];
    let r = remove_with_key(v, 1);
    assert_eq!(ips(&r), vec!["b", "d"]);
    assert_eq!(position_of_key(&r, 1), None);
    let r2 = remove_with_key(r, 1);
    assert_eq!(ips(&r2), vec!["b", "d"]);
}
