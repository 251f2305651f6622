use rustbook::channel::{fan_in, Channel, Received};

fn strings(v: &[&str]) -> Vec<String> {
    v.iter().map(|s| s.to_string()).collect()
}

fn from_producer(r: &[String], a: &[String]) -> Vec<String> {
    r.iter().filter(|x| a.contains(x)).cloned().collect()
}

#[test]
fn two_producers_alternating() {
    let a = strings(&["hi", "from", "the", "thread"]);
    let b = strings(&["more", "messages", "for", "you"]);
    let schedule = vec![true, false, true, false, true, false, true, false];
    let r = fan_in(a.clone(), b.clone(), &schedule);
    assert_eq!(
        r,
        strings(&["hi", "more", "from", "messages", "the", "for", "thread", "you"])
    );
}

#[test]
fn two_producers_every_schedule_keeps_each_order() {
    let a = strings(&["hi", "from", "the", "thread"]);
    let b = strings(&["more", "messages", "for", "you"]);
    for bits in 0u32..256 {
        let schedule: Vec<bool> = (0..8).map(|i| bits & (1 << i) != 0).collect();
        let r = fan_in(a.clone(), b.clone(), &schedule);
        assert_eq!(r.len(), 8);
        assert_eq!(from_producer(&r, &a), a);
        assert_eq!(from_producer(&r, &b), b);
        let mut sorted = r.clone();
        sorted.sort();
        let mut both: Vec<String> = a.iter().chain(b.iter()).cloned().collect();
        both.sort();
        assert_eq!(sorted, both);
    }
}

#[test]
fn short_schedule_puts_first_producer_first() {
    let a = strings(&["a1", "a2"]);
    let b = strings(&["b1", "b2"]);
    assert_eq!(fan_in(a.clone(), b.clone(), &vec![]), strings(&["a1", "a2", "b1", "b2"]));
    assert_eq!(fan_in(a, b, &vec![false]), strings(&["b1", "a1", "a2", "b2"]));
}

#[test]
fn one_producer_silent() {
    let a = strings(&["x", "y"]);
    assert_eq!(fan_in(a.clone(), vec![], &vec![false, false]), a);
    assert_eq!(fan_in(vec![], a.clone(), &vec![true]), a);
    assert!(fan_in(vec![], vec![], &vec![true]).is_empty());
}

#[test]
fn receive_in_order_then_close() {
    let mut ch = Channel::new();
    ch.add_sender();
    assert!(ch.send("one".to_string()).is_ok());
    assert!(ch.send("two".to_string()).is_ok());
    assert_eq!(ch.pending_len(), 2);
    assert!(matches!(ch.recv(), Received::Value(v) if v == "one"));
    assert!(matches!(ch.recv(), Received::Value(v) if v == "two"));
    assert!(matches!(ch.recv(), Received::Empty));
    ch.drop_sender();
    assert!(matches!(ch.recv(), Received::Empty));
    ch.drop_sender();
    assert_eq!(ch.sender_count(), 0);
    assert!(matches!(ch.recv(), Received::Closed));
}

#[test]
fn values_left_after_senders_go_are_still_received() {
    let mut ch = Channel::new();
    assert!(ch.send("last".to_string()).is_ok());
    ch.drop_sender();
    assert!(matches!(ch.recv(), Received::Value(v) if v == "last"));
    assert!(matches!(ch.recv(), Received::Closed));
}

#[test]
fn send_after_receiver_closed_gives_value_back() {
    let mut ch = Channel::new();
    assert!(ch.send("kept".to_string()).is_ok());
    ch.close_receiver();
    assert!(!ch.is_receiver_open());
    assert_eq!(ch.pending_len(), 0);
    let e = ch.send("lost".to_string()).err().unwrap();
    assert_eq!(e.value, "lost");
}
