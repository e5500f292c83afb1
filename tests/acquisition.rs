use rain_sg::acquire::{accept_response, plan_acquire, AcquireStep};
use rain_sg::error::RainError;

#[test]
fn cached_file_is_trusted() {
    assert_eq!(plan_acquire(true, false), AcquireStep::UseCached);
    assert_eq!(plan_acquire(false, false), AcquireStep::Fetch);
    assert_eq!(plan_acquire(true, true), AcquireStep::Fetch);
}

#[test]
fn second_acquisition_is_a_local_hit() {
    let mut fetches = 0;
    let mut cached = false;
    for _ in 0..2 {
        if plan_acquire(cached, false) == AcquireStep::Fetch {
            fetches += 1;
            if accept_response(200).is_ok() {
                cached = true;
            }
        }
    }
    assert_eq!(fetches, 1);
}

#[test]
fn status_classes() {
    assert_eq!(accept_response(200), Ok(()));
    assert_eq!(accept_response(299), Ok(()));
    assert_eq!(accept_response(199), Err(RainError::Acquire { status: 199 }));
    assert_eq!(accept_response(300), Err(RainError::Acquire { status: 300 }));
    assert_eq!(accept_response(404), Err(RainError::Acquire { status: 404 }));
}
