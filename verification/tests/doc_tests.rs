use ycrdt::doc::Doc;
use ycrdt::error::Error;
use ycrdt::prelim::{DetectedKind, Prelim};

#[test]
fn doc_describes_itself() {
    let doc = Doc::new();
    let expected = format!("Doc(id: {}, guid: {})", doc.client_id(), doc.guid());
    assert_eq!(doc.to_string(), expected);
    assert!(!doc.guid().is_empty());
}

#[test]
fn text_insert_push_read_back() {
    let mut doc = Doc::new();
    let text = doc.get_or_insert_text("t");
    let mut txn = doc.transact().unwrap();
    assert_eq!(text.len_ec(&txn).unwrap(), 0);
    text.insert_ec(&mut txn, 0, "hello").unwrap();
    text.push_ec(&mut txn, " world").unwrap();
    assert_eq!(text.get_string_ec(&txn).unwrap(), "hello world");
    assert_eq!(text.len_ec(&txn).unwrap(), 11);
    text.insert_ec(&mut txn, 5, ",").unwrap();
    assert_eq!(text.get_string_ec(&txn).unwrap(), "hello, world");
    text.remove_range_ec(&mut txn, 0, 7).unwrap();
    assert_eq!(text.get_string_ec(&txn).unwrap(), "world");
}

#[test]
fn text_offsets_count_bytes() {
    let mut doc = Doc::new();
    let text = doc.get_or_insert_text("t");
    let mut txn = doc.transact().unwrap();
    text.push_ec(&mut txn, "Hi \u{2605} to you").unwrap();
    assert_eq!(text.len_ec(&txn).unwrap(), 13);
    text.insert_ec(&mut txn, 6, "!").unwrap();
    assert_eq!(text.get_string_ec(&txn).unwrap(), "Hi \u{2605}! to you");
}

#[test]
fn text_try_insert_refuses_bad_offsets() {
    let mut doc = Doc::new();
    let text = doc.get_or_insert_text("t");
    let mut txn = doc.transact().unwrap();
    text.push_ec(&mut txn, "a\u{2605}b").unwrap();
    assert!(matches!(text.try_insert(&mut txn, 2, "x"), Err(Error::IndexOutOfRange)));
    assert!(matches!(text.try_insert(&mut txn, 9, "x"), Err(Error::IndexOutOfRange)));
    assert_eq!(text.get_string_ec(&txn).unwrap(), "a\u{2605}b");
    text.try_insert(&mut txn, 4, "x").unwrap();
    assert_eq!(text.get_string_ec(&txn).unwrap(), "a\u{2605}xb");
}

#[test]
fn text_try_remove_range_refuses_bad_ranges() {
    let mut doc = Doc::new();
    let text = doc.get_or_insert_text("t");
    let mut txn = doc.transact().unwrap();
    text.push_ec(&mut txn, "a\u{2605}b").unwrap();
    assert!(matches!(text.try_remove_range(&mut txn, 1, 1), Err(Error::IndexOutOfRange)));
    assert!(matches!(text.try_remove_range(&mut txn, 4, 5), Err(Error::IndexOutOfRange)));
    text.try_remove_range(&mut txn, 1, 3).unwrap();
    assert_eq!(text.get_string_ec(&txn).unwrap(), "ab");
}

#[test]
fn remove_undoes_insert() {
    let mut doc = Doc::new();
    let text = doc.get_or_insert_text("t");
    let mut txn = doc.transact().unwrap();
    text.push_ec(&mut txn, "abc").unwrap();
    text.insert_ec(&mut txn, 1, "xyz").unwrap();
    text.remove_range_ec(&mut txn, 1, 3).unwrap();
    assert_eq!(text.get_string_ec(&txn).unwrap(), "abc");
}

#[test]
fn committed_transaction_is_closed() {
    let mut doc = Doc::new();
    let text = doc.get_or_insert_text("t");
    let array = doc.get_or_insert_array("a");
    let mut txn = doc.transact().unwrap();
    assert!(txn.is_open_now());
    text.push_ec(&mut txn, "x").unwrap();
    txn.commit();
    assert!(!txn.is_open_now());
    assert!(matches!(text.len_ec(&txn), Err(Error::TransactionClosed)));
    assert!(matches!(text.get_string_ec(&txn), Err(Error::TransactionClosed)));
    assert!(matches!(text.push_ec(&mut txn, "y"), Err(Error::TransactionClosed)));
    assert!(matches!(array.len_ec(&txn), Err(Error::TransactionClosed)));
    assert!(matches!(array.remove_ec(&mut txn, 0), Err(Error::TransactionClosed)));
}

#[test]
fn edits_outlive_the_transaction() {
    let mut doc = Doc::new();
    let text = doc.get_or_insert_text("t");
    {
        let mut txn = doc.transact().unwrap();
        text.push_ec(&mut txn, "kept").unwrap();
        txn.commit();
    }
    let txn = doc.transact().unwrap();
    assert_eq!(text.get_string_ec(&txn).unwrap(), "kept");
}

#[test]
fn array_insert_get_remove() {
    let mut doc = Doc::new();
    let array = doc.get_or_insert_array("a");
    let mut txn = doc.transact().unwrap();
    assert_eq!(array.len_ec(&txn).unwrap(), 0);
    array.insert_any_ec(&mut txn, 0, yrs::Any::BigInt(5)).unwrap();
    array.insert_ec(&mut txn, 1, &Prelim::text("hi".to_string())).unwrap();
    array
        .insert_ec(&mut txn, 0, &Prelim::array(vec![yrs::Any::Bool(true), yrs::Any::Null]))
        .unwrap();
    array
        .insert_ec(&mut txn, 3, &Prelim::map(vec![("k".to_string(), yrs::Any::Bool(false))]))
        .unwrap();
    assert_eq!(array.len_ec(&txn).unwrap(), 4);
    assert!(array.get_ec(&txn, 3).unwrap().is_some());
    assert!(array.get_ec(&txn, 4).unwrap().is_none());
    match array.get_ec(&txn, 1).unwrap() {
        Some(yrs::Out::Any(yrs::Any::BigInt(5))) => {}
        other => panic!("unexpected {:?}", other),
    }
    array.remove_ec(&mut txn, 1).unwrap();
    assert_eq!(array.len_ec(&txn).unwrap(), 3);
}

#[test]
fn array_nested_types() {
    let mut doc = Doc::new();
    let array = doc.get_or_insert_array("a");
    let mut txn = doc.transact().unwrap();
    let text = array.insert_text_ec(&mut txn, 0).unwrap();
    assert_eq!(text.get_string_ec(&txn).unwrap(), "");
    text.push_ec(&mut txn, "inner").unwrap();
    assert_eq!(text.get_string_ec(&txn).unwrap(), "inner");
    let inner = array.insert_array_ec(&mut txn, 1).unwrap();
    assert_eq!(inner.len_ec(&txn).unwrap(), 0);
    inner.insert_any_ec(&mut txn, 0, yrs::Any::Null).unwrap();
    assert_eq!(inner.len_ec(&txn).unwrap(), 1);
    let _map = array.insert_map_ec(&mut txn, 2).unwrap();
    assert_eq!(array.len_ec(&txn).unwrap(), 3);
}

#[test]
fn array_try_insert_and_remove_refuse_bad_indexes() {
    let mut doc = Doc::new();
    let array = doc.get_or_insert_array("a");
    let mut txn = doc.transact().unwrap();
    let p = Prelim::any(yrs::Any::Null);
    assert!(matches!(array.try_insert(&mut txn, 1, &p), Err(Error::IndexOutOfRange)));
    assert!(matches!(array.try_remove(&mut txn, 0), Err(Error::IndexOutOfRange)));
    array.try_insert(&mut txn, 0, &p).unwrap();
    assert_eq!(array.len_ec(&txn).unwrap(), 1);
    array.try_remove(&mut txn, 0).unwrap();
    assert_eq!(array.len_ec(&txn).unwrap(), 0);
}

#[test]
fn prelim_detect() {
    assert!(matches!(Prelim::detect(true, true, true, true), DetectedKind::Prelim));
    assert!(matches!(Prelim::detect(false, true, false, false), DetectedKind::Text));
    assert!(matches!(Prelim::detect(false, false, true, true), DetectedKind::Mapping));
    assert!(matches!(Prelim::detect(false, false, true, false), DetectedKind::Array));
    assert!(matches!(Prelim::detect(false, false, false, false), DetectedKind::Any));
}

#[test]
fn prelim_map_inserts_a_map() {
    let mut doc = Doc::new();
    let array = doc.get_or_insert_array("a");
    let mut txn = doc.transact().unwrap();
    let p = Prelim::map(vec![
        ("k".to_string(), yrs::Any::BigInt(1)),
        ("k".to_string(), yrs::Any::BigInt(2)),
    ]);
    array.insert_ec(&mut txn, 0, &p).unwrap();
    match array.get_ec(&txn, 0).unwrap() {
        Some(yrs::Out::YMap(_)) => {}
        other => panic!("unexpected {:?}", other),
    }
}

#[test]
fn new_doc_identifiers_have_their_format() {
    for _ in 0..20 {
        let doc = Doc::new();
        assert!(doc.client_id() < u32::MAX as u64);
        let guid: Vec<char> = doc.guid().chars().collect();
        assert_eq!(guid.len(), 36);
        for (i, c) in guid.iter().enumerate() {
            if i == 8 || i == 13 || i == 18 || i == 23 {
                assert_eq!(*c, '-');
            } else {
                assert!(c.is_ascii_digit() || ('a'..='f').contains(c));
            }
        }
        assert_eq!(guid[14], '4');
        assert!(matches!(guid[19], '8' | '9' | 'a' | 'b'));
    }
}

#[test]
fn roots_of_one_name_are_one_shared_type() {
    let mut doc = Doc::new();
    let t1 = doc.get_or_insert_text("t");
    let t2 = doc.get_or_insert_text("t");
    let other = doc.get_or_insert_text("u");
    let a1 = doc.get_or_insert_array("a");
    let a2 = doc.get_or_insert_array("a");
    let mut txn = doc.transact().unwrap();
    t1.push_ec(&mut txn, "shared").unwrap();
    assert_eq!(t2.get_string_ec(&txn).unwrap(), "shared");
    assert_eq!(other.get_string_ec(&txn).unwrap(), "");
    a1.insert_any_ec(&mut txn, 0, yrs::Any::Null).unwrap();
    assert_eq!(a2.len_ec(&txn).unwrap(), 1);
}

#[test]
fn prelim_to_in_holds_the_values() {
    match Prelim::text("hi".to_string()).to_in() {
        yrs::In::Text(_) => {}
        _ => panic!("expected a text input"),
    }
    match Prelim::array(vec![yrs::Any::Bool(true), yrs::Any::Null]).to_in() {
        yrs::In::Array(a) => {
            assert_eq!(a.len(), 2);
            assert!(matches!(a[0], yrs::In::Any(yrs::Any::Bool(true))));
            assert!(matches!(a[1], yrs::In::Any(yrs::Any::Null)));
        }
        _ => panic!("expected an array input"),
    }
    let p = Prelim::map(vec![
        ("k".to_string(), yrs::Any::BigInt(1)),
        ("j".to_string(), yrs::Any::Bool(false)),
        ("k".to_string(), yrs::Any::BigInt(2)),
    ]);
    match p.to_in() {
        yrs::In::Map(m) => {
            assert_eq!(m.len(), 2);
            assert!(matches!(m.get("k"), Some(yrs::In::Any(yrs::Any::BigInt(2)))));
            assert!(matches!(m.get("j"), Some(yrs::In::Any(yrs::Any::Bool(false)))));
        }
        _ => panic!("expected a map input"),
    }
    assert!(matches!(Prelim::any(yrs::Any::Null).to_in(), yrs::In::Any(yrs::Any::Null)));
}

#[test]
fn array_insert_and_remove_follow_the_index() {
    let mut doc = Doc::new();
    let array = doc.get_or_insert_array("a");
    let mut txn = doc.transact().unwrap();
    array.insert_any_ec(&mut txn, 0, yrs::Any::BigInt(1)).unwrap();
    array.insert_any_ec(&mut txn, 1, yrs::Any::BigInt(3)).unwrap();
    array.insert_any_ec(&mut txn, 1, yrs::Any::BigInt(2)).unwrap();
    for (i, v) in [1i64, 2, 3].iter().enumerate() {
        match array.get_ec(&txn, i as u32).unwrap() {
            Some(yrs::Out::Any(yrs::Any::BigInt(x))) => assert_eq!(x, *v),
            other => panic!("unexpected {:?}", other),
        }
    }
    array.remove_ec(&mut txn, 1).unwrap();
    assert_eq!(array.len_ec(&txn).unwrap(), 2);
    match array.get_ec(&txn, 1).unwrap() {
        Some(yrs::Out::Any(yrs::Any::BigInt(3))) => {}
        other => panic!("unexpected {:?}", other),
    }
}

#[test]
fn array_nested_types_stand_at_their_index() {
    let mut doc = Doc::new();
    let array = doc.get_or_insert_array("a");
    let mut txn = doc.transact().unwrap();
    array.insert_any_ec(&mut txn, 0, yrs::Any::Null).unwrap();
    let text = array.insert_text_ec(&mut txn, 0).unwrap();
    text.push_ec(&mut txn, "x").unwrap();
    let inner = array.insert_array_ec(&mut txn, 2).unwrap();
    inner.insert_any_ec(&mut txn, 0, yrs::Any::Bool(true)).unwrap();
    assert_eq!(array.len_ec(&txn).unwrap(), 3);
    assert!(matches!(array.get_ec(&txn, 0).unwrap(), Some(yrs::Out::YText(_))));
    assert!(matches!(array.get_ec(&txn, 1).unwrap(), Some(yrs::Out::Any(yrs::Any::Null))));
    assert!(matches!(array.get_ec(&txn, 2).unwrap(), Some(yrs::Out::YArray(_))));
    let _map = array.insert_map_ec(&mut txn, 3).unwrap();
    assert!(matches!(array.get_ec(&txn, 3).unwrap(), Some(yrs::Out::YMap(_))));
    assert_eq!(inner.len_ec(&txn).unwrap(), 1);
    assert_eq!(text.get_string_ec(&txn).unwrap(), "x");
}

#[test]
fn array_prelim_values_land_in_the_new_array() {
    let mut doc = Doc::new();
    let array = doc.get_or_insert_array("a");
    let mut txn = doc.transact().unwrap();
    array
        .insert_ec(&mut txn, 0, &Prelim::array(vec![yrs::Any::BigInt(4), yrs::Any::Null]))
        .unwrap();
    match array.get_ec(&txn, 0).unwrap() {
        Some(yrs::Out::YArray(inner)) => {
            let inner = ycrdt::array::ArrayRef::from_yrs(inner);
            assert_eq!(inner.len_ec(&txn).unwrap(), 2);
            assert!(matches!(inner.get_ec(&txn, 0).unwrap(), Some(yrs::Out::Any(yrs::Any::BigInt(4)))));
        }
        other => panic!("unexpected {:?}", other),
    }
}

#[test]
fn a_second_root_handle_sees_what_the_first_wrote() {
    let mut doc = Doc::new();
    let x1 = doc.get_or_insert_text("t");
    let x2 = doc.get_or_insert_text("t");
    let mut txn = doc.transact().unwrap();
    assert_eq!(x2.get_string_ec(&txn).unwrap(), "");
    x1.insert_ec(&mut txn, 0, "ab").unwrap();
    assert_eq!(x2.get_string_ec(&txn).unwrap(), "ab");
    txn.commit();
    drop(txn);
    let x3 = doc.get_or_insert_text("t");
    let txn = doc.transact().unwrap();
    assert_eq!(x3.get_string_ec(&txn).unwrap(), "ab");
}

#[test]
fn ascii_text_edits_read_back_as_strings() {
    let mut doc = Doc::new();
    let x = doc.get_or_insert_text("t");
    let mut txn = doc.transact().unwrap();
    x.push_ec(&mut txn, "hello").unwrap();
    x.insert_ec(&mut txn, 2, "XY").unwrap();
    assert_eq!(x.get_string_ec(&txn).unwrap(), "heXYllo");
    assert_eq!(x.len_ec(&txn).unwrap(), 7);
    x.remove_range_ec(&mut txn, 1, 3).unwrap();
    assert_eq!(x.get_string_ec(&txn).unwrap(), "hllo");
    x.insert_ec(&mut txn, 0, "").unwrap();
    assert_eq!(x.get_string_ec(&txn).unwrap(), "hllo");
}
