use synesthesia::radio::{
    check_center_freq, check_sample_rate, check_status, is_rtl_success, rtl_error_to_string,
    DeviceInfo, RadioDevice, RadioDeviceType, RadioError, RtlSdrError, PLUTO_DEFAULT_SAMPLE_RATE_HZ,
    RTL_DEFAULT_CENTER_FREQ_HZ, RTL_DEFAULT_SAMPLE_RATE_HZ,
};

#[test]
fn test_radio_device_type_enum() {
    let rt = RadioDeviceType::RtlSdr;
    assert_eq!(rt, RadioDeviceType::RtlSdr);
    assert_ne!(rt, RadioDeviceType::PlutoPlus);
}

#[test]
fn test_radio_device_freq_update() {
    let _device_type = RadioDeviceType::RtlSdr;
}

#[test]
fn rtl_error_strings() {
    assert_eq!(rtl_error_to_string(0), "Success");
    assert_eq!(rtl_error_to_string(-1), "Device not found");
    assert_eq!(rtl_error_to_string(-2), "Hardware error");
    assert_eq!(rtl_error_to_string(-4), "Invalid argument");
    assert_eq!(rtl_error_to_string(-3), "Unknown error");
    assert_eq!(rtl_error_to_string(7), "Unknown error");
    assert!(is_rtl_success(0));
    assert!(!is_rtl_success(-1));
}

#[test]
fn frequency_and_rate_ranges() {
    assert_eq!(check_center_freq(0), Err(RtlSdrError::FrequencyOutOfRange { freq_hz: 0 }));
    assert_eq!(check_center_freq(1), Err(RtlSdrError::FrequencyOutOfRange { freq_hz: 1 }));
    assert_eq!(check_center_freq(9_999), Err(RtlSdrError::FrequencyOutOfRange { freq_hz: 9_999 }));
    assert_eq!(check_center_freq(10_000), Ok(()));
    assert_eq!(check_center_freq(300_000_000), Ok(()));
    assert_eq!(
        check_center_freq(300_000_001),
        Err(RtlSdrError::FrequencyOutOfRange { freq_hz: 300_000_001 })
    );
    assert_eq!(check_sample_rate(249_999), Err(RtlSdrError::SampleRateOutOfRange { rate_hz: 249_999 }));
    assert_eq!(check_sample_rate(250_000), Ok(()));
    assert_eq!(check_sample_rate(2_400_000), Ok(()));
    assert_eq!(
        check_sample_rate(2_400_001),
        Err(RtlSdrError::SampleRateOutOfRange { rate_hz: 2_400_001 })
    );
    assert_eq!(check_status(0), Ok(()));
    assert_eq!(check_status(-2), Err(RtlSdrError::Driver { code: -2 }));
}

#[test]
fn enumerated_device_names() {
    let named = DeviceInfo::enumerated(3, true);
    assert_eq!(named.index, 3);
    assert_eq!(named.name, "Device 3");
    let big = DeviceInfo::enumerated(4_000_000_000, true);
    assert_eq!(big.name, "Device 4000000000");
    let unnamed = DeviceInfo::enumerated(0, false);
    assert_eq!(unnamed.name, "Unknown");
}

#[test]
fn open_rtl_sdr_defaults_and_errors() {
    let dev = RadioDevice::open_rtl_sdr(2, 0, true).unwrap();
    assert_eq!(dev.device_type(), RadioDeviceType::RtlSdr);
    assert_eq!(dev.device_id(), 2);
    assert_eq!(dev.center_freq(), RTL_DEFAULT_CENTER_FREQ_HZ);
    assert_eq!(dev.center_freq(), 2_400_000_000);
    assert_eq!(dev.sample_rate(), RTL_DEFAULT_SAMPLE_RATE_HZ);
    assert!(matches!(
        RadioDevice::open_rtl_sdr(1, -1, false),
        Err(RadioError::OpenFailed { device_index: 1, code: -1 })
    ));
    assert!(matches!(
        RadioDevice::open_rtl_sdr(1, 0, false),
        Err(RadioError::OpenFailed { device_index: 1, code: 0 })
    ));
}

#[test]
fn tuning_updates_frequency_only_on_success() {
    let mut dev = RadioDevice::open_rtl_sdr(0, 0, true).unwrap();
    assert_eq!(dev.tune_argument(100_000_000), Ok(100_000_000));
    assert_eq!(dev.tune_argument(0xffff_ffff), Ok(0xffff_ffff));
    assert_eq!(
        dev.tune_argument(0x1_0000_0005),
        Err(RadioError::FreqNotRepresentable { freq_hz: 0x1_0000_0005 })
    );
    assert_eq!(dev.finish_tune(100_000_000, 0), Ok(()));
    assert_eq!(dev.center_freq(), 100_000_000);
    assert_eq!(dev.finish_tune(50_000_000, -2), Err(RadioError::FreqSetFailed { code: -2 }));
    assert_eq!(dev.center_freq(), 100_000_000);
}

#[test]
fn pluto_defaults_and_refusals() {
    let dev = RadioDevice::open_pluto_plus(9);
    assert_eq!(dev.device_type(), RadioDeviceType::PlutoPlus);
    assert_eq!(dev.device_id(), 9);
    assert_eq!(dev.sample_rate(), PLUTO_DEFAULT_SAMPLE_RATE_HZ);
    assert_eq!(dev.tune_argument(100), Err(RadioError::PlutoUnsupported));
    assert_eq!(dev.check_sync_read(), Err(RadioError::SyncReadUnsupported));
}

#[test]
fn read_results() {
    let dev = RadioDevice::open_rtl_sdr(0, 0, true).unwrap();
    assert_eq!(dev.check_sync_read(), Ok(()));
    assert_eq!(RadioDevice::finish_read(0, 512), Ok(512));
    assert_eq!(RadioDevice::finish_read(-1, 0), Err(RadioError::ReadFailed { code: -1 }));
}
