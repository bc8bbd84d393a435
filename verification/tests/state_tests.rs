use ycrdt::error::Error;
use ycrdt::state::{DeleteSet, Snapshot, StateVector};
use yrs::updates::decoder::Decode;

fn sv(bytes: &[u8]) -> StateVector {
    StateVector::decode_v1(bytes).expect("valid state vector")
}

#[test]
fn state_vector_empty_encoding() {
    let empty = sv(&[0]);
    assert!(empty.is_empty());
    assert_eq!(empty.len(), 0);
    assert!(!empty.contains_client(1));
    assert_eq!(empty.encode_v1(), vec![0]);
}

#[test]
fn state_vector_decode_entries() {
    let s = sv(&[2, 1, 5, 2, 7]);
    assert!(!s.is_empty());
    assert_eq!(s.len(), 2);
    assert!(s.contains_client(1));
    assert!(s.contains_client(2));
    assert!(!s.contains_client(3));
}

#[test]
fn state_vector_large_client_ids() {
    // client 300 takes two bytes: 0xAC 0x02
    let s = sv(&[1, 0xAC, 0x02, 9]);
    assert!(s.contains_client(300));
    assert_eq!(s.encode_v1(), vec![1, 0xAC, 0x02, 9]);
}

#[test]
fn state_vector_encode_is_some_order_of_entries() {
    let s = sv(&[2, 1, 5, 2, 7]);
    let bytes = s.encode_v1();
    assert!(bytes == vec![2, 1, 5, 2, 7] || bytes == vec![2, 2, 7, 1, 5]);
}

#[test]
fn state_vector_decode_error() {
    assert!(matches!(StateVector::decode_v1(&[5]), Err(Error::Other(_))));
    assert!(matches!(StateVector::decode_v1(&[]), Err(Error::Other(_))));
}

#[test]
fn state_vector_ordering_less() {
    let a = sv(&[2, 1, 5, 2, 7]);
    let b = sv(&[2, 1, 5, 2, 8]);
    assert!(a.less_than(&b));
    assert!(a.less_than_equal(&b));
    assert!(!a.greater_than(&b));
    assert!(!a.greater_than_equal(&b));
    assert!(b.greater_than(&a));
    assert!(b.greater_than_equal(&a));
    assert!(a.not_equal(&b));
    assert!(!a.equal(&b));
}

#[test]
fn state_vector_ordering_incomparable() {
    let a = sv(&[2, 1, 1, 2, 2]);
    let b = sv(&[2, 2, 1, 3, 2]);
    assert!(!a.less_than(&b));
    assert!(!a.less_than_equal(&b));
    assert!(!a.greater_than(&b));
    assert!(!a.greater_than_equal(&b));
}

#[test]
fn state_vector_ordering_missing_client() {
    // a lacks client 1, which b has: a is before b
    let a = sv(&[2, 2, 2, 3, 2]);
    let b = sv(&[3, 1, 1, 2, 2, 3, 2]);
    assert!(a.less_than(&b));
    assert!(b.greater_than(&a));
}

#[test]
fn state_vector_level_but_not_equal() {
    let zero = sv(&[1, 4, 0]);
    let empty = sv(&[0]);
    assert!(zero.less_than_equal(&empty));
    assert!(empty.less_than_equal(&zero));
    assert!(!zero.less_than(&empty));
    assert!(zero.not_equal(&empty));
}

#[test]
fn state_vector_equal_and_duplicate() {
    let a = sv(&[2, 1, 5, 2, 7]);
    let b = sv(&[2, 2, 7, 1, 5]);
    assert!(a.equal(&b));
    assert!(!a.not_equal(&b));
    assert!(a.less_than_equal(&b) && a.greater_than_equal(&b));
    assert!(a.duplicate().equal(&a));
}

#[test]
fn state_vector_v2_round_trip() {
    let a = sv(&[2, 1, 5, 2, 7]);
    let bytes = a.encode_v2();
    let b = StateVector::decode_v2(&bytes).expect("v2 decodes");
    assert!(a.equal(&b));
}

fn ds(bytes: &[u8]) -> DeleteSet {
    DeleteSet::decode_v1(bytes).expect("valid delete set")
}

#[test]
fn delete_set_new_is_empty() {
    let d = DeleteSet::new();
    assert!(d.is_empty());
    assert_eq!(d.len(), 0);
    assert!(!d.is_deleted(1, 0));
    assert_eq!(d.encode_v1(), vec![0]);
}

#[test]
fn delete_set_decode_range() {
    // client 3, one range starting at clock 2 of length 4
    let d = ds(&[1, 3, 1, 2, 4]);
    assert_eq!(d.len(), 1);
    assert!(!d.is_empty());
    assert!(d.is_deleted(3, 2));
    assert!(d.is_deleted(3, 5));
    assert!(!d.is_deleted(3, 6));
    assert!(!d.is_deleted(3, 1));
    assert!(!d.is_deleted(4, 2));
    assert_eq!(d.encode_v1()[0], 1);
}

#[test]
fn delete_set_empty_range_counts_as_empty() {
    let d = ds(&[1, 3, 1, 2, 0]);
    assert_eq!(d.len(), 1);
    assert!(d.is_empty());
    assert!(!d.is_deleted(3, 2));
}

#[test]
fn delete_set_merge_combines() {
    let mut a = ds(&[1, 3, 1, 2, 4]);
    let b = ds(&[2, 3, 1, 10, 2, 4, 1, 0, 1]);
    a.merge(&b);
    assert_eq!(a.len(), 2);
    assert!(a.is_deleted(3, 2));
    assert!(a.is_deleted(3, 11));
    assert!(!a.is_deleted(3, 8));
    assert!(a.is_deleted(4, 0));
    assert!(!a.is_deleted(4, 1));
}

#[test]
fn delete_set_merge_commutes() {
    let x = ds(&[1, 3, 1, 2, 4]);
    let y = ds(&[1, 3, 1, 5, 4]);
    let mut xy = x.duplicate();
    xy.merge(&y);
    let mut yx = y.duplicate();
    yx.merge(&x);
    for clock in 0..12 {
        assert_eq!(xy.is_deleted(3, clock), yx.is_deleted(3, clock));
    }
    assert!(xy.is_deleted(3, 8));
    assert!(!xy.is_deleted(3, 9));
}

#[test]
fn delete_set_squash_keeps_deletions() {
    // two touching ranges [0,3) and [3,5), and [7,8)
    let mut d = ds(&[1, 1, 3, 0, 3, 3, 2, 7, 1]);
    let before: Vec<bool> = (0..10).map(|c| d.is_deleted(1, c)).collect();
    d.squash();
    let after: Vec<bool> = (0..10).map(|c| d.is_deleted(1, c)).collect();
    assert_eq!(before, after);
    assert_eq!(d.len(), 1);
}

#[test]
fn delete_set_equal() {
    let a = ds(&[1, 3, 1, 2, 4]);
    let b = ds(&[1, 3, 1, 2, 4]);
    let c = ds(&[1, 3, 1, 2, 5]);
    assert!(a.equal(&b));
    assert!(a.not_equal(&c));
}

#[test]
fn delete_set_decode_error() {
    assert!(matches!(DeleteSet::decode_v1(&[1]), Err(Error::Other(_))));
}

#[test]
fn snapshot_round_trip_v1() {
    let s = Snapshot::new(&sv(&[1, 1, 5]), &ds(&[1, 1, 1, 0, 2]));
    let bytes = s.encode_v1();
    assert_eq!(bytes, vec![1, 1, 1, 0, 2, 1, 1, 5]);
    let back = Snapshot::decode_v1(&bytes).expect("snapshot decodes");
    assert!(back.equal(&s));
    assert!(back.state_map().equal(&sv(&[1, 1, 5])));
    assert!(back.delete_set().is_deleted(1, 1));
}

#[test]
fn snapshot_round_trip_v2() {
    let s = Snapshot::new(&sv(&[1, 1, 5]), &ds(&[1, 1, 1, 0, 2]));
    let back = Snapshot::decode_v2(&s.encode_v2()).expect("snapshot decodes");
    assert!(back.equal(&s));
}

#[test]
fn snapshot_not_equal() {
    let a = Snapshot::new(&sv(&[1, 1, 5]), &DeleteSet::new());
    let b = Snapshot::new(&sv(&[1, 1, 6]), &DeleteSet::new());
    assert!(a.not_equal(&b));
    assert!(!a.equal(&b));
}

#[test]
fn delete_set_squash_joins_touching_ranges() {
    // [0,3), [3,5) and [7,8) become [0,5) and [7,8)
    let mut d = ds(&[1, 1, 3, 0, 3, 3, 2, 7, 1]);
    let compact = ds(&[1, 1, 2, 0, 5, 7, 1]);
    assert!(d.not_equal(&compact));
    d.squash();
    assert!(d.equal(&compact));
}

#[test]
fn delete_set_squash_single_range_becomes_continuous() {
    // two overlapping ranges [2,6) and [4,9) become the span [2,9)
    let mut d = ds(&[1, 4, 2, 2, 4, 4, 5]);
    let span = ds(&[1, 4, 1, 2, 7]);
    assert!(d.not_equal(&span));
    d.squash();
    assert!(d.equal(&span));
}

#[test]
fn delete_set_v2_round_trip() {
    let d = ds(&[2, 1, 3, 0, 3, 3, 2, 7, 1, 4, 1, 10, 2]);
    let back = DeleteSet::decode_v2(&d.encode_v2()).expect("v2 decodes");
    assert_eq!(back.len(), 2);
    for clock in 0..14 {
        assert_eq!(back.is_deleted(1, clock), d.is_deleted(1, clock));
        assert_eq!(back.is_deleted(4, clock), d.is_deleted(4, clock));
    }
    assert!(back.is_deleted(1, 4));
    assert!(!back.is_deleted(1, 5));
    assert!(back.is_deleted(4, 11));
}

#[test]
fn snapshot_v2_round_trip_with_several_clients() {
    let s = Snapshot::new(&sv(&[2, 1, 5, 9, 3]), &ds(&[1, 9, 1, 0, 3]));
    let back = Snapshot::decode_v2(&s.encode_v2()).expect("snapshot decodes");
    assert!(back.state_map().equal(&sv(&[2, 1, 5, 9, 3])));
    assert!(back.delete_set().is_deleted(9, 2));
    assert!(!back.delete_set().is_deleted(9, 3));
}

#[test]
fn state_vector_v2_round_trip_empty() {
    let a = sv(&[0]);
    let b = StateVector::decode_v2(&a.encode_v2()).expect("v2 decodes");
    assert!(b.is_empty());
}

#[test]
fn decoding_error_carries_the_library_message() {
    let expected = yrs::StateVector::decode_v1(&[]).unwrap_err().to_string();
    match StateVector::decode_v1(&[]) {
        Err(Error::Other(m)) => assert_eq!(m, expected),
        _ => panic!("expected a decoding error"),
    }
    let expected = yrs::DeleteSet::decode_v1(&[1]).unwrap_err().to_string();
    match DeleteSet::decode_v1(&[1]) {
        Err(Error::Other(m)) => assert_eq!(m, expected),
        _ => panic!("expected a decoding error"),
    }
}

#[test]
fn delete_set_v1_round_trip_after_squash_is_equal() {
    let mut d = ds(&[2, 1, 3, 0, 3, 3, 2, 7, 1, 4, 1, 10, 2]);
    d.squash();
    let back = DeleteSet::decode_v1(&d.encode_v1()).expect("v1 decodes");
    assert!(back.equal(&d));
    let back2 = DeleteSet::decode_v2(&d.encode_v2()).expect("v2 decodes");
    assert!(back2.equal(&d));
}

#[test]
fn snapshot_round_trips_after_squash_are_equal() {
    let mut d = ds(&[1, 1, 3, 0, 3, 3, 2, 7, 1]);
    d.squash();
    let s = Snapshot::new(&sv(&[2, 1, 5, 9, 3]), &d);
    let back = Snapshot::decode_v1(&s.encode_v1()).expect("v1 decodes");
    assert!(back.equal(&s));
    let back2 = Snapshot::decode_v2(&s.encode_v2()).expect("v2 decodes");
    assert!(back2.equal(&s));
}

#[test]
fn delete_set_zero_byte_is_empty() {
    let d = ds(&[0]);
    assert!(d.is_empty());
    assert_eq!(d.len(), 0);
    assert!(d.equal(&DeleteSet::new()));
}

#[test]
fn decoders_refuse_empty_input() {
    assert!(StateVector::decode_v1(&[]).is_err());
    assert!(StateVector::decode_v2(&[]).is_err());
    assert!(DeleteSet::decode_v1(&[]).is_err());
    assert!(DeleteSet::decode_v2(&[]).is_err());
    assert!(Snapshot::decode_v1(&[]).is_err());
    assert!(Snapshot::decode_v2(&[]).is_err());
}

#[test]
fn squash_is_idempotent() {
    let mut d = ds(&[1, 1, 4, 7, 1, 0, 3, 3, 2, 2, 4]);
    d.squash();
    let once = d.duplicate();
    d.squash();
    assert!(d.equal(&once));
}

#[test]
fn empty_range_is_reported() {
    assert!(!ds(&[1, 0, 1, 5, 0]).ranges_nonempty());
    assert!(ds(&[1, 0, 1, 5, 1]).ranges_nonempty());
    assert!(DeleteSet::new().ranges_nonempty());
}
