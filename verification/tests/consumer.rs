use minimg::consumer::{announced, answer, AnswerError, Received};
use minimg::coordinator::{open_session, Action, Notice};
use minimg::request::NavigationRequest;
use minimg::store::CacheStore;

/// A store of four slots: one read, one being read, one failed, one unread.
fn mixed_store() -> CacheStore<u32> {
    let mut store = match CacheStore::new(4) {
        Ok(store) => store,
        Err(e) => panic!("{}", e.message()),
    };
    assert!(store.try_claim(0));
    store.resolve(0, Ok(100));
    assert!(store.try_claim(1));
    assert!(store.try_claim(2));
    store.resolve(2, Err("bad".to_string()));
    store
}

#[test]
fn a_notice_of_a_read_slot_announces_its_payload() {
    let store = mixed_store();
    assert_eq!(announced(&store, &Notice::Ready(0)), Ok(Some(&100)));
}

#[test]
fn a_notice_of_a_slot_that_is_not_read_announces_nothing() {
    let store = mixed_store();
    assert_eq!(announced(&store, &Notice::Ready(1)), Ok(None));
    assert_eq!(announced(&store, &Notice::Ready(2)), Ok(None));
    assert_eq!(announced(&store, &Notice::Ready(3)), Ok(None));
    assert_eq!(announced(&store, &Notice::Ready(4)), Ok(None));
    assert_eq!(announced(&store, &Notice::Ready(usize::MAX)), Ok(None));
}

#[test]
fn a_notice_of_a_failure_announces_its_reason() {
    let store = mixed_store();
    assert_eq!(
        announced(&store, &Notice::Failed("not a picture".to_string())),
        Err("not a picture".to_string())
    );
}

#[test]
fn an_empty_channel_shows_nothing() {
    let store = mixed_store();
    assert_eq!(answer(&store, &Received::Nothing), Ok(None));
}

#[test]
fn a_lost_channel_is_an_error() {
    let store = mixed_store();
    assert_eq!(answer(&store, &Received::Lost), Err(AnswerError::ChannelLost));
}

#[test]
fn a_ready_notice_shows_the_payload() {
    let store = mixed_store();
    assert_eq!(answer(&store, &Received::Notice(Notice::Ready(0))), Ok(Some(&100)));
    assert_eq!(answer(&store, &Received::Notice(Notice::Ready(1))), Ok(None));
    assert_eq!(answer(&store, &Received::Notice(Notice::Ready(9))), Ok(None));
}

#[test]
fn a_failed_decode_reaches_the_consumer_with_its_reason() {
    let store = mixed_store();
    let received = Received::Notice(Notice::Failed("unknown format".to_string()));
    assert_eq!(
        answer(&store, &received),
        Err(AnswerError::Decode("unknown format".to_string()))
    );
    assert_ne!(answer(&store, &received), Ok(None));
}

#[test]
fn a_failed_first_file_is_answered_with_an_error() {
    let (mut store, mut coordinator) = match open_session::<u32>(3, 0, 1) {
        Ok(session) => session,
        Err(e) => panic!("{}", e.message()),
    };
    assert_eq!(coordinator.poll(&mut store), Action::Decode(0));
    store.resolve(0, Err("truncated".to_string()));
    assert_eq!(coordinator.poll(&mut store), Action::Receive);
    coordinator.accept(&vec![NavigationRequest::Index(0)]);
    match coordinator.poll(&mut store) {
        Action::Deliver(notice, _) => assert_eq!(
            answer(&store, &Received::Notice(notice)),
            Err(AnswerError::Decode("truncated".to_string()))
        ),
        other => panic!("{:?}", other),
    }
}

#[test]
fn a_delivered_notice_leads_to_its_payload() {
    let (mut store, mut coordinator) = match open_session::<u32>(4, 0, 1) {
        Ok(session) => session,
        Err(e) => panic!("{}", e.message()),
    };
    assert_eq!(coordinator.poll(&mut store), Action::Decode(0));
    store.resolve(0, Ok(0));
    assert_eq!(coordinator.poll(&mut store), Action::Receive);
    coordinator.accept(&vec![NavigationRequest::Index(2)]);
    assert_eq!(coordinator.poll(&mut store), Action::Decode(2));
    store.resolve(2, Ok(222));
    match coordinator.poll(&mut store) {
        Action::Deliver(notice, _) => {
            assert_eq!(answer(&store, &Received::Notice(notice)), Ok(Some(&222)))
        }
        other => panic!("{:?}", other),
    }
}

#[test]
fn the_errors_in_words() {
    assert_eq!(
        AnswerError::ChannelLost.message(),
        "Found disconnected channel while checking if any image was available"
    );
    assert_eq!(
        AnswerError::Decode("unknown format".to_string()).message(),
        "unknown format"
    );
}

#[test]
fn only_a_lost_channel_is_fatal() {
    assert!(AnswerError::ChannelLost.is_fatal());
    assert!(!AnswerError::Decode("unknown format".to_string()).is_fatal());
}
