use ycrdt::error::Error;
use ycrdt::message::{Message, SyncMessage};
use ycrdt::state::StateVector;

fn other_message(e: Error) -> String {
    match e {
        Error::Other(m) => m,
        other => panic!("unexpected error {:?}", other),
    }
}

#[test]
fn update_reads_back_its_data() {
    let m = SyncMessage::from_update_ec(&[1, 2, 3]).unwrap();
    assert_eq!(m.step(), "update");
    assert!(m.is_update());
    assert!(!m.is_sync_step1());
    assert!(!m.is_sync_step2());
    assert_eq!(m.data_ec().unwrap(), vec![1, 2, 3]);
    let err = other_message(m.state_vector_ec().err().unwrap());
    assert_eq!(err, "Expected step to be 'sync_step1', got update");
}

#[test]
fn sync_step2_reads_back_its_data() {
    let m = SyncMessage::from_sync_step2_ec(&[4, 5]).unwrap();
    assert_eq!(m.step(), "sync_step2");
    assert!(m.is_sync_step2());
    assert_eq!(m.data_ec().unwrap(), vec![4, 5]);
    let err = other_message(m.state_vector_ec().err().unwrap());
    assert_eq!(err, "Expected step to be 'sync_step1', got sync_step2");
}

#[test]
fn sync_step1_reads_back_its_state_vector() {
    let sv = StateVector::decode_v1(&[1, 7, 3]).unwrap();
    let m = SyncMessage::from_sync_step1_ec(&sv).unwrap();
    assert_eq!(m.step(), "sync_step1");
    assert!(m.is_sync_step1());
    assert!(m.state_vector_ec().unwrap().equal(&sv));
    let err = other_message(m.data_ec().err().unwrap());
    assert_eq!(err, "Expected step to be 'sync_step2' or 'update`, got sync_step1");
}

#[test]
fn sync_encode_v1_frames() {
    let u = SyncMessage::from_update_ec(&[1, 2, 3]).unwrap();
    assert_eq!(u.encode_v1(), vec![2, 3, 1, 2, 3]);
    let s2 = SyncMessage::from_sync_step2_ec(&[]).unwrap();
    assert_eq!(s2.encode_v1(), vec![1, 0]);
    let sv = StateVector::decode_v1(&[0]).unwrap();
    let s1 = SyncMessage::from_sync_step1_ec(&sv).unwrap();
    assert_eq!(s1.encode_v1(), vec![0, 1, 0]);
}

#[test]
fn sync_decode_v1() {
    let m = SyncMessage::decode_v1_ec(&[2, 2, 9, 9]).unwrap();
    assert!(m.is_update());
    assert_eq!(m.data_ec().unwrap(), vec![9, 9]);
    let expected = SyncMessage::from_update_ec(&[9, 9]).unwrap();
    assert!(m.equal(&expected));
    assert!(!m.not_equal(&expected));
}

#[test]
fn sync_decode_errors() {
    assert!(matches!(SyncMessage::decode_v1_ec(&[7, 0]), Err(Error::Other(_))));
    assert!(matches!(SyncMessage::decode_v1_ec(&[2, 5, 1]), Err(Error::Other(_))));
    assert!(matches!(SyncMessage::decode_v1_ec(&[]), Err(Error::Other(_))));
}

#[test]
fn sync_round_trips() {
    let sv = StateVector::decode_v1(&[2, 1, 5, 2, 7]).unwrap();
    let msgs = vec![
        SyncMessage::from_sync_step1_ec(&sv).unwrap(),
        SyncMessage::from_sync_step2_ec(&[1, 2]).unwrap(),
        SyncMessage::from_update_ec(&[3]).unwrap(),
    ];
    for m in msgs.iter() {
        let v1 = SyncMessage::decode_v1_ec(&m.encode_v1()).unwrap();
        assert!(v1.equal(m));
        assert!(!m.encode_v2().is_empty());
    }
}

#[test]
fn sync_messages_differ_by_step_and_payload() {
    let a = SyncMessage::from_update_ec(&[1]).unwrap();
    let b = SyncMessage::from_sync_step2_ec(&[1]).unwrap();
    let c = SyncMessage::from_update_ec(&[2]).unwrap();
    assert!(a.not_equal(&b));
    assert!(a.not_equal(&c));
    assert!(a.equal(&a.duplicate()));
}

#[test]
fn message_decodes_sync() {
    let m = Message::decode_v1_ec(&[0, 2, 1, 4]).unwrap();
    assert!(m.is_sync_message());
    let inner = m.inner().unwrap();
    assert!(inner.is_update());
    assert_eq!(inner.data_ec().unwrap(), vec![4]);
    assert_eq!(m.encode_v1(), vec![0, 2, 1, 4]);
}

#[test]
fn message_other_kinds_are_unsupported() {
    let query = Message::decode_v1_ec(&[3]).unwrap();
    assert!(!query.is_sync_message());
    assert!(query.inner().is_none());
    let custom = Message::decode_v1_ec(&[9, 1, 5]).unwrap();
    assert!(!custom.is_sync_message());
    let auth = Message::decode_v1_ec(&[2, 1]).unwrap();
    assert!(!auth.is_sync_message());
}

#[test]
fn message_decode_error() {
    assert!(matches!(Message::decode_v1_ec(&[0, 9]), Err(Error::Other(_))));
}

#[test]
fn message_round_trip_v1() {
    let m = Message::from_sync_message(SyncMessage::from_sync_step2_ec(&[8, 8]).unwrap());
    let bytes = m.encode_v1();
    assert_eq!(bytes, vec![0, 1, 2, 8, 8]);
    let back = Message::decode_v1_ec(&bytes).unwrap();
    assert!(back.inner().unwrap().equal(m.inner().unwrap()));
    assert!(!m.encode_v2().is_empty());
}

#[test]
fn update_v2_encoding_depends_on_data_only() {
    let a = SyncMessage::from_update_ec(&[5, 6]).unwrap();
    let b = SyncMessage::decode_v1_ec(&[2, 2, 5, 6]).unwrap();
    assert_eq!(a.encode_v2(), b.encode_v2());
    let c = SyncMessage::from_sync_step2_ec(&[5, 6]).unwrap();
    assert_ne!(a.encode_v2(), c.encode_v2());
}

#[test]
fn awareness_query_is_unsupported() {
    let m = Message::decode_v1_ec(&[3]).expect("a query decodes");
    assert!(!m.is_sync_message());
    assert!(m.inner().is_none());
}

#[test]
fn sync_decoders_refuse_empty_input() {
    assert!(SyncMessage::decode_v1_ec(&[]).is_err());
    assert!(SyncMessage::decode_v2_ec(&[]).is_err());
    assert!(Message::decode_v1_ec(&[]).is_err());
    assert!(Message::decode_v2_ec(&[]).is_err());
}

#[test]
fn update_v2_frame_writes_the_length_twice() {
    let m = SyncMessage::from_update_ec(&[3]).unwrap();
    assert_eq!(m.encode_v2(), vec![0, 0, 0, 0, 0, 0, 1, 0, 0, 0, 0, 2, 1, 1, 3]);
    let outer = Message::from_sync_message(m);
    assert_eq!(outer.encode_v2(), vec![0, 0, 0, 0, 0, 0, 1, 0, 0, 0, 0, 0, 2, 1, 1, 3]);
}

#[test]
fn version_2_frame_reads_back_its_first_length_as_data() {
    // the frame holds the length twice; the decoder reads one length and
    // then takes the second as the data
    let m = SyncMessage::from_update_ec(&[3]).unwrap();
    let back = SyncMessage::decode_v2_ec(&m.encode_v2()).expect("decodes");
    assert_eq!(back.data_ec().unwrap(), vec![1]);
}
