use mcaptcha::errors::{lookup_exists, map_row_not_found_err};
use mcaptcha::max_nonce::{MaxNonceAction, MaxNonceEvent, MaxNonceMachine, MaxNonceStage};
use mcaptcha::{DBError, QueryFailure};

#[test]
fn row_not_found_maps_to_given_error() {
    assert_eq!(map_row_not_found_err(QueryFailure::RowNotFound, DBError::AccountNotFound), DBError::AccountNotFound);
    assert_eq!(
        map_row_not_found_err(QueryFailure::Other(DBError::UsernameTaken), DBError::AccountNotFound),
        DBError::UsernameTaken
    );
}

#[test]
fn exists_from_lookup() {
    assert_eq!(lookup_exists(Ok(())), Ok(true));
    assert_eq!(lookup_exists(Err(QueryFailure::RowNotFound)), Ok(false));
    assert_eq!(
        lookup_exists(Err(QueryFailure::Other(DBError::DBError("down".into())))),
        Err(DBError::DBError("down".into()))
    );
}

#[test]
fn max_nonce_found_at_once() {
    let (mut m, a) = MaxNonceMachine::start(500);
    assert_eq!(a, MaxNonceAction::Lookup { difficulty_factor: 500 });
    assert_eq!(m.stage, MaxNonceStage::FirstLookup);
    let a = m.step(MaxNonceEvent::Looked(Ok(77)));
    assert_eq!(a, MaxNonceAction::Finish(Ok(77)));
    assert_eq!(m.stage, MaxNonceStage::Done);
}

#[test]
fn max_nonce_untracked_level_starts_at_zero() {
    let (mut m, _) = MaxNonceMachine::start(5000);
    let a = m.step(MaxNonceEvent::Looked(Err(QueryFailure::RowNotFound)));
    assert_eq!(a, MaxNonceAction::InsertZero { difficulty_factor: 5000 });
    let a = m.step(MaxNonceEvent::Inserted(Ok(())));
    assert_eq!(a, MaxNonceAction::Lookup { difficulty_factor: 5000 });
    let a = m.step(MaxNonceEvent::Looked(Ok(0)));
    assert_eq!(a, MaxNonceAction::Finish(Ok(0)));
    assert_eq!(m.stage, MaxNonceStage::Done);
}

#[test]
fn max_nonce_second_miss_is_an_error() {
    let (mut m, _) = MaxNonceMachine::start(1);
    m.step(MaxNonceEvent::Looked(Err(QueryFailure::RowNotFound)));
    m.step(MaxNonceEvent::Inserted(Ok(())));
    let a = m.step(MaxNonceEvent::Looked(Err(QueryFailure::RowNotFound)));
    assert_eq!(a, MaxNonceAction::Finish(Err(DBError::CaptchaNotFound)));
}

#[test]
fn max_nonce_errors_end_the_run() {
    let (mut m, _) = MaxNonceMachine::start(1);
    let a = m.step(MaxNonceEvent::Looked(Err(QueryFailure::Other(DBError::DBError("x".into())))));
    assert_eq!(a, MaxNonceAction::Finish(Err(DBError::DBError("x".into()))));

    let (mut m, _) = MaxNonceMachine::start(1);
    m.step(MaxNonceEvent::Looked(Err(QueryFailure::RowNotFound)));
    let a = m.step(MaxNonceEvent::Inserted(Err(QueryFailure::RowNotFound)));
    assert_eq!(a, MaxNonceAction::Finish(Err(DBError::CaptchaNotFound)));
}

#[test]
fn max_nonce_negative_nonce_wraps() {
    let (mut m, _) = MaxNonceMachine::start(u32::MAX);
    assert_eq!(m.difficulty_factor, -1);
    let a = m.step(MaxNonceEvent::Looked(Ok(-1)));
    assert_eq!(a, MaxNonceAction::Finish(Ok(u32::MAX)));
}
