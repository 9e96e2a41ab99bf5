use rbox_core::registry::{SessionRegistry, HANDLE_LEN};

#[test]
fn connect_issues_fresh_handle_that_exists() {
    let mut reg: SessionRegistry<u32> = SessionRegistry::new();
    let mut seen: Vec<String> = Vec::new();
    for i in 0..20u32 {
        let (handle, displaced) = reg.insert_session(String::new(), i);
        assert!(displaced.is_none());
        assert_eq!(handle.chars().count(), HANDLE_LEN);
        assert!(handle.chars().all(|c| c.is_ascii_alphanumeric()));
        assert!(!seen.contains(&handle));
        assert!(reg.contains(&handle));
        assert_eq!(reg.get(&handle), Some(&i));
        seen.push(handle);
    }
    assert_eq!(reg.len(), 20);
}

#[test]
fn requested_handle_is_used_and_replaces() {
    let mut reg: SessionRegistry<u32> = SessionRegistry::new();
    let (h, d) = reg.insert_session(String::from("known"), 1);
    assert_eq!(h.as_str(), "known");
    assert!(d.is_none());
    let (h2, d2) = reg.insert_session(String::from("known"), 2);
    assert_eq!(h2.as_str(), "known");
    assert_eq!(d2, Some(1));
    assert_eq!(reg.get(&String::from("known")), Some(&2));
    assert_eq!(reg.len(), 1);
}

#[test]
fn disconnect_twice_reports_not_found() {
    let mut reg: SessionRegistry<u32> = SessionRegistry::new();
    let h = String::from("abc");
    reg.put(h.clone(), 7);
    assert_eq!(reg.remove(&h), Some(7));
    assert!(!reg.contains(&h));
    assert_eq!(reg.remove(&h), None);
    assert_eq!(reg.get(&h), None);
}

#[test]
fn distinct_handles_do_not_interfere() {
    let mut a: SessionRegistry<u32> = SessionRegistry::new();
    let mut b: SessionRegistry<u32> = SessionRegistry::new();
    let h1 = String::from("one");
    let h2 = String::from("two");
    let h3 = String::from("three");
    a.put(h2.clone(), 2);
    b.put(h2.clone(), 2);
    a.put(h3.clone(), 3);
    b.put(h3.clone(), 3);
    a.put(h1.clone(), 1);
    a.remove(&h2);
    b.remove(&h2);
    b.put(h1.clone(), 1);
    for reg in [&a, &b] {
        assert_eq!(reg.get(&h1), Some(&1));
        assert_eq!(reg.get(&h2), None);
        assert_eq!(reg.get(&h3), Some(&3));
        assert_eq!(reg.len(), 2);
    }
}

#[test]
fn fresh_handle_avoids_every_issued_handle() {
    let mut reg: SessionRegistry<u32> = SessionRegistry::new();
    reg.put(String::from("abc"), 1);
    assert_eq!(reg.fresh_handle(String::from("xyz")).as_str(), "xyz");
    assert_eq!(reg.fresh_handle(String::from("abc")).as_str(), "0000000000000000");
    reg.put(String::from("0000000000000000"), 2);
    reg.remove(&String::from("0000000000000000"));
    assert!(reg.was_issued(&String::from("0000000000000000")));
    assert!(!reg.contains(&String::from("0000000000000000")));
    let h = reg.fresh_handle(String::from("abc"));
    assert_eq!(h.as_str(), "1000000000000000");
    assert_eq!(h.chars().count(), HANDLE_LEN);
    reg.remove(&String::from("abc"));
    assert_eq!(reg.fresh_handle(String::from("abc")).as_str(), "1000000000000000");
}

#[test]
fn removed_handle_is_not_issued_again() {
    let mut reg: SessionRegistry<u32> = SessionRegistry::new();
    let (h, _) = reg.insert_session(String::new(), 1);
    assert_eq!(reg.remove(&h), Some(1));
    assert!(reg.was_issued(&h));
    let (h2, _) = reg.insert_session(String::new(), 2);
    assert_ne!(h, h2);
    assert_eq!(h2.chars().count(), HANDLE_LEN);
    assert!(h2.chars().all(|c| c.is_ascii_alphanumeric()));
}
