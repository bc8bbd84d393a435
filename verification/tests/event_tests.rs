use std::sync::{Arc, Mutex};
use ycrdt::doc::Doc;
use ycrdt::error::Error;
use ycrdt::event::{ArrayChange, ArrayEvent, PathStep, TextChange, TextEvent};
use yrs::Observable;

#[test]
fn array_event_reads_while_live() {
    let mut doc = Doc::new();
    let array = doc.get_or_insert_array("a");
    let log: Arc<Mutex<Vec<String>>> = Arc::new(Mutex::new(Vec::new()));
    let seen = log.clone();
    let _sub = array.as_yrs().observe(move |txn, e| {
        let mut ev = ArrayEvent::new(e, txn);
        let mut out = seen.lock().unwrap();
        for c in ev.delta_ec().unwrap().iter() {
            match c {
                ArrayChange::Added(values) => out.push(format!("added {}", values.len())),
                ArrayChange::Removed(n) => out.push(format!("removed {}", n)),
                ArrayChange::Retain(n) => out.push(format!("retain {}", n)),
            }
        }
        assert!(!ev.inserts_ec().unwrap().is_empty());
        assert!(ev.removes_ec().unwrap().is_empty());
        assert!(ev.path_ec().unwrap().is_empty());
        assert!(ev.target_ec().is_ok());
        ev.expire();
        assert!(matches!(ev.delta_ec(), Err(Error::EventExpired)));
        assert!(matches!(ev.inserts_ec(), Err(Error::EventExpired)));
        assert!(matches!(ev.target_ec(), Err(Error::EventExpired)));
    });
    let mut txn = doc.transact().unwrap();
    array.insert_any_ec(&mut txn, 0, yrs::Any::BigInt(1)).unwrap();
    array.insert_any_ec(&mut txn, 1, yrs::Any::BigInt(2)).unwrap();
    txn.commit();
    drop(txn);
    assert_eq!(*log.lock().unwrap(), vec!["added 2".to_string()]);
}

#[test]
fn text_event_reads_while_live() {
    let mut doc = Doc::new();
    let text = doc.get_or_insert_text("t");
    let log: Arc<Mutex<Vec<String>>> = Arc::new(Mutex::new(Vec::new()));
    let seen = log.clone();
    let _sub = text.as_yrs().observe(move |txn, e| {
        let mut ev = TextEvent::new(e, txn);
        let mut out = seen.lock().unwrap();
        for c in ev.delta_ec().unwrap().iter() {
            match c {
                TextChange::Inserted(yrs::Out::Any(yrs::Any::String(s))) => out.push(format!("insert {}", s)),
                TextChange::Inserted(_) => out.push("insert other".to_string()),
                TextChange::Deleted(n) => out.push(format!("delete {}", n)),
                TextChange::Retain(n) => out.push(format!("retain {}", n)),
            }
        }
        let path = ev.path_ec().unwrap();
        assert!(path.iter().all(|s| matches!(s, PathStep::Key(_) | PathStep::Index(_))));
        ev.expire();
        assert!(matches!(ev.path_ec(), Err(Error::EventExpired)));
    });
    let mut txn = doc.transact().unwrap();
    text.push_ec(&mut txn, "hi").unwrap();
    txn.commit();
    drop(txn);
    assert_eq!(*log.lock().unwrap(), vec!["insert hi".to_string()]);
}
