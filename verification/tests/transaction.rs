//! The batch bound: when the underlying call is issued at all.

use dvb::error::PropertyError;
use dvb::frontend::data::DTV_IOCTL_MAX_MSGS;
use dvb::frontend::functions::plan_properties_call;
use dvb::frontend::functions::properties_call_error;

/// A stand-in transport that records whether it was ever invoked.
struct FakeTransport {
    calls: usize,
}

impl FakeTransport {
    fn new() -> FakeTransport {
        FakeTransport { calls: 0 }
    }

    /// Drive a transaction of `count` entries the way an application
    /// would: plan first, invoke the transport only when the plan says so.
    fn run(&mut self, count: usize) -> Result<(), PropertyError> {
        match plan_properties_call(count)? {
            None => Ok(()),
            Some(n) => {
                self.calls += 1;
                assert_eq!(n as usize, count);
                Ok(())
            }
        }
    }
}

#[test]
fn empty_transaction_is_a_no_op_success() {
    let mut transport = FakeTransport::new();
    assert!(transport.run(0).is_ok());
    assert_eq!(transport.calls, 0);
}

#[test]
fn full_transaction_of_sixty_four_entries_is_issued() {
    let mut transport = FakeTransport::new();
    assert!(transport.run(DTV_IOCTL_MAX_MSGS).is_ok());
    assert_eq!(transport.calls, 1);
}

#[test]
fn transaction_of_sixty_five_entries_is_rejected_before_any_call() {
    let mut transport = FakeTransport::new();
    assert!(matches!(
        transport.run(DTV_IOCTL_MAX_MSGS + 1),
        Err(PropertyError::TooManyParameters)
    ));
    assert_eq!(transport.calls, 0);
}

#[test]
fn single_entry_transaction_is_issued() {
    let mut transport = FakeTransport::new();
    assert!(transport.run(1).is_ok());
    assert_eq!(transport.calls, 1);
}

#[test]
fn plan_carries_the_exact_count() {
    assert_eq!(plan_properties_call(0), Ok(None));
    assert_eq!(plan_properties_call(1), Ok(Some(1)));
    assert_eq!(plan_properties_call(64), Ok(Some(64)));
    assert_eq!(
        plan_properties_call(65),
        Err(PropertyError::TooManyParameters)
    );
    assert_eq!(
        plan_properties_call(usize::MAX),
        Err(PropertyError::TooManyParameters)
    );
}

#[test]
fn issued_call_failures_keep_direction_and_code() {
    assert_eq!(
        properties_call_error(false, 5),
        PropertyError::GetProperty(5)
    );
    assert_eq!(
        properties_call_error(true, 16),
        PropertyError::SetProperty(16)
    );
}
