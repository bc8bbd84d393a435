use ycrdt::scan::{check_ds_v1, check_ds_v2, check_message_v1, check_message_v2, check_v2_header};
use ycrdt::state::{DeleteSet, Snapshot, StateVector};
use ycrdt::error::Error;
use ycrdt::message::{Message, SyncMessage};

#[test]
fn v2_header_running_off_the_end_is_refused() {
    // the second byte asks for more, and nothing follows
    assert!(!check_v2_header(&[0x00, 0x80]));
    assert!(!check_ds_v2(&[0x00, 0x80]));
    assert!(!check_message_v2(&[0x00, 0x80]));
}

#[test]
fn v2_header_that_fails_cleanly_is_accepted() {
    assert!(check_v2_header(&[]));
    assert!(check_v2_header(&[0x00]));
    assert!(check_v2_header(&[0x00, 0x05]));
}

#[test]
fn v2_encodings_are_accepted() {
    let sv = StateVector::decode_v1(&[2, 1, 5, 9, 3]).unwrap();
    assert!(check_v2_header(&sv.encode_v2()));
    let ds = DeleteSet::decode_v1(&[1, 1, 2, 0, 3, 7, 1]).unwrap();
    assert!(check_ds_v2(&ds.encode_v2()));
    let s = Snapshot::new(&sv, &ds);
    assert!(check_ds_v2(&s.encode_v2()));
}

#[test]
fn delete_set_v1_overflowing_range_is_refused() {
    // one client 0 with one range starting at u32::MAX of length 1
    assert!(!check_ds_v1(&[1, 0, 1, 0xff, 0xff, 0xff, 0xff, 0x0f, 1]));
    assert!(check_ds_v1(&[1, 0, 1, 0xff, 0xff, 0xff, 0xff, 0x0f, 0]));
    assert!(check_ds_v1(&[1, 0, 1, 5, 0]));
    assert!(check_ds_v1(&[]));
}

#[test]
fn delete_set_v1_encodings_are_accepted() {
    let ds = DeleteSet::decode_v1(&[2, 1, 3, 0, 3, 3, 2, 7, 1, 4, 1, 10, 2]).unwrap();
    assert!(check_ds_v1(&ds.encode_v1()));
}

#[test]
fn awareness_with_a_huge_count_is_refused() {
    let mut bytes = vec![1u8, 10];
    bytes.extend_from_slice(&[0xff; 9]);
    bytes.push(0x01);
    assert!(!check_message_v1(&bytes));
}

#[test]
fn awareness_entries_must_be_utf8() {
    // one entry: client 1, clock 0, JSON "{}"
    assert!(check_message_v1(&[1, 6, 1, 1, 0, 2, b'{', b'}']));
    assert!(!check_message_v1(&[1, 6, 1, 1, 0, 2, 0xff, b'}']));
}

#[test]
fn refused_authentication_reason_must_be_utf8() {
    assert!(check_message_v1(&[2, 0, 2, b'n', b'o']));
    assert!(!check_message_v1(&[2, 0, 1, 0xff]));
    assert!(check_message_v1(&[2, 1]));
    assert!(check_message_v1(&[0, 1, 1, 7]));
}

#[test]
fn awareness_with_a_count_past_its_payload_fails_without_panic() {
    // 1000 entries announced, none present: the decoder reports an error
    let bytes = [1u8, 2, 0xe8, 0x07];
    assert!(check_message_v1(&bytes));
    assert!(Message::decode_v1_ec(&bytes).is_err());
}

#[test]
fn try_decoders_refuse_what_would_panic() {
    assert!(matches!(StateVector::try_decode_v2(&[0x00, 0x80]), Err(Error::Unreadable)));
    assert!(matches!(DeleteSet::try_decode_v2(&[0x00, 0x80]), Err(Error::Unreadable)));
    assert!(matches!(Snapshot::try_decode_v2(&[0x00, 0x80]), Err(Error::Unreadable)));
    assert!(matches!(SyncMessage::try_decode_v2_ec(&[0x00, 0x80]), Err(Error::Unreadable)));
    assert!(matches!(Message::try_decode_v2_ec(&[0x00, 0x80]), Err(Error::Unreadable)));
    let overflowing = [1u8, 0, 1, 0xff, 0xff, 0xff, 0xff, 0x0f, 1];
    assert!(matches!(DeleteSet::try_decode_v1(&overflowing), Err(Error::Unreadable)));
    assert!(matches!(Snapshot::try_decode_v1(&overflowing), Err(Error::Unreadable)));
    assert!(matches!(Message::try_decode_v1_ec(&[2, 0, 1, 0xff]), Err(Error::Unreadable)));
}

#[test]
fn try_decoders_read_what_is_safe() {
    let ds = DeleteSet::try_decode_v1(&[1, 1, 1, 0, 2]).expect("decodes");
    assert!(ds.is_deleted(1, 1));
    let back = DeleteSet::try_decode_v2(&ds.try_encode_v2().unwrap()).expect("decodes");
    assert!(back.equal(&ds));
    assert!(Message::try_decode_v1_ec(&[3]).is_ok());
    assert!(StateVector::try_decode_v2(&[]).is_err());
}

#[test]
fn try_encode_v2_refuses_an_empty_range() {
    let ds = DeleteSet::decode_v1(&[1, 0, 1, 5, 0]).unwrap();
    assert!(matches!(ds.try_encode_v2(), Err(Error::EmptyRange)));
    let s = Snapshot::new(&StateVector::decode_v1(&[0]).unwrap(), &ds);
    assert!(matches!(s.try_encode_v2(), Err(Error::EmptyRange)));
}
