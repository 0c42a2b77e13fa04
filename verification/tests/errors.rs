//! Classification of driver error codes.

use dvb::error::DmxSetPesFilterError;
use dvb::error::DmxStartError;
use dvb::error::EBUSY;
use dvb::error::EINVAL;

#[test]
fn busy_filter_start_is_a_resource_conflict() {
    assert_eq!(DmxStartError::from(EBUSY), DmxStartError::Conflicting);
}

#[test]
fn invalid_filter_start_is_a_rejected_argument() {
    assert_eq!(DmxStartError::from(EINVAL), DmxStartError::InvalidArgument);
}

#[test]
fn other_filter_start_codes_stay_verbatim() {
    // 5 is the input/output error code
    assert_eq!(DmxStartError::from(5), DmxStartError::Undefined(5));
    assert_eq!(DmxStartError::from(0), DmxStartError::Undefined(0));
}

#[test]
fn busy_stream_filter_is_a_resource_conflict() {
    assert_eq!(
        DmxSetPesFilterError::from(EBUSY),
        DmxSetPesFilterError::Conflicting
    );
}

#[test]
fn invalid_stream_filter_stays_verbatim() {
    // the stream-filter call does not single out the invalid-argument code
    assert_eq!(
        DmxSetPesFilterError::from(EINVAL),
        DmxSetPesFilterError::Undefined(EINVAL)
    );
}

#[test]
fn errno_constants_match_the_kernel_values() {
    assert_eq!(EINVAL, 22);
    assert_eq!(EBUSY, 16);
}
