//! Radio front-end bookkeeping for RTL-SDR and Pluto+ devices.
//!
//! The driver calls themselves are made by the host application; this
//! module decides what to ask the driver, checks the arguments the driver
//! accepts, interprets its status codes and keeps the device state.

use vstd::prelude::*;

verus! {

// ── Driver status codes ──────────────────────────────────────────────────────

pub const RTLSDR_SUCCESS: i32 = 0;
pub const RTLSDR_ERROR_DEVICE_NOT_FOUND: i32 = -1;
pub const RTLSDR_ERROR_HW_ERROR: i32 = -2;
pub const RTLSDR_ERROR_INVALID_ARG: i32 = -4;

/// Human-readable meaning of a driver status code.
pub fn rtl_error_to_string(err: i32) -> (r: &'static str)
    ensures
        err == RTLSDR_SUCCESS ==> r@ == "Success"@,
        err == RTLSDR_ERROR_DEVICE_NOT_FOUND ==> r@ == "Device not found"@,
        err == RTLSDR_ERROR_HW_ERROR ==> r@ == "Hardware error"@,
        err == RTLSDR_ERROR_INVALID_ARG ==> r@ == "Invalid argument"@,
        err != RTLSDR_SUCCESS && err != RTLSDR_ERROR_DEVICE_NOT_FOUND && err != RTLSDR_ERROR_HW_ERROR
            && err != RTLSDR_ERROR_INVALID_ARG ==> r@ == "Unknown error"@,
{
    if err == RTLSDR_SUCCESS {
        "Success"
    } else if err == RTLSDR_ERROR_DEVICE_NOT_FOUND {
        "Device not found"
    } else if err == RTLSDR_ERROR_HW_ERROR {
        "Hardware error"
    } else if err == RTLSDR_ERROR_INVALID_ARG {
        "Invalid argument"
    } else {
        "Unknown error"
    }
}

/// Did the driver report success?
pub fn is_rtl_success(err: i32) -> (r: bool)
    ensures
        r == (err == RTLSDR_SUCCESS),
{
    err == RTLSDR_SUCCESS
}

// ── RTL-SDR argument ranges ──────────────────────────────────────────────────

/// Default sample buffer size (256 KB = 128K I/Q samples at 2 bytes each)
pub const DEFAULT_BUFFER_SIZE: usize = 256 * 1024;
/// Minimum sample rate (250 KS/s)
pub const MIN_SAMPLE_RATE: u32 = 250_000;
/// Maximum sample rate (2.4 MS/s)
pub const MAX_SAMPLE_RATE: u32 = 2_400_000;
/// Minimum frequency (10 kHz)
pub const MIN_FREQ_HZ: u32 = 10_000;
/// Maximum frequency (300 MHz)
pub const MAX_FREQ_HZ: u32 = 300_000_000;
/// Direct-sampling mode used for HF reception (Q branch).
pub const DIRECT_SAMPLING_HF: u32 = 2;
/// Direct-sampling mode used for VHF/UHF reception (off).
pub const DIRECT_SAMPLING_OFF: u32 = 0;

/// Why an RTL-SDR operation was refused.
#[derive(Debug, Clone, Copy, PartialEq, Eq, Structural)]
pub enum RtlSdrError {
    /// Requested center frequency outside 10 kHz – 300 MHz.
    FrequencyOutOfRange { freq_hz: u32 },
    /// Requested sample rate outside 250 kS/s – 2.4 MS/s.
    SampleRateOutOfRange { rate_hz: u32 },
    /// The driver returned a failure status.
    Driver { code: i32 },
}

/// Accept a center frequency within the tuner's range.
pub fn check_center_freq(freq_hz: u32) -> (r: Result<(), RtlSdrError>)
    ensures
        r is Ok <==> MIN_FREQ_HZ <= freq_hz <= MAX_FREQ_HZ,
        r is Err ==> r == Err::<(), RtlSdrError>(RtlSdrError::FrequencyOutOfRange { freq_hz }),
{
    if freq_hz < MIN_FREQ_HZ || freq_hz > MAX_FREQ_HZ {
        Err(RtlSdrError::FrequencyOutOfRange { freq_hz })
    } else {
        Ok(())
    }
}

/// Accept a sample rate within the tuner's range.
pub fn check_sample_rate(rate_hz: u32) -> (r: Result<(), RtlSdrError>)
    ensures
        r is Ok <==> MIN_SAMPLE_RATE <= rate_hz <= MAX_SAMPLE_RATE,
        r is Err ==> r == Err::<(), RtlSdrError>(RtlSdrError::SampleRateOutOfRange { rate_hz }),
{
    if rate_hz < MIN_SAMPLE_RATE || rate_hz > MAX_SAMPLE_RATE {
        Err(RtlSdrError::SampleRateOutOfRange { rate_hz })
    } else {
        Ok(())
    }
}

/// Turn a driver status into a result.
pub fn check_status(code: i32) -> (r: Result<(), RtlSdrError>)
    ensures
        r is Ok <==> code == RTLSDR_SUCCESS,
        r is Err ==> r == Err::<(), RtlSdrError>(RtlSdrError::Driver { code }),
{
    if is_rtl_success(code) {
        Ok(())
    } else {
        Err(RtlSdrError::Driver { code })
    }
}

/// Device information of an enumerated RTL-SDR.
#[derive(Debug, Clone)]
pub struct DeviceInfo {
    pub index: u32,
    pub name: String,
}

impl DeviceInfo {
    /// Entry for the device at `index`: "Device <index>" when the driver
    /// reports a name for it, "Unknown" otherwise.
    pub fn enumerated(index: u32, has_name: bool) -> (r: Self)
        ensures
            r.index == index,
            has_name ==> r.name@ == "Device "@ + crate::text::decimal_digits(index as nat),
            !has_name ==> r.name@ == "Unknown"@,
    {
        if has_name {
            let mut name = String::from_str("Device ");
            crate::text::append_decimal_u64(&mut name, index as u64);
            DeviceInfo { index, name }
        } else {
            DeviceInfo { index, name: String::from_str("Unknown") }
        }
    }
}

// ── Device handle state (RTL-SDR and Pluto+) ─────────────────────────────────

#[derive(Debug, Clone, Copy, PartialEq, Eq, Structural)]
pub enum RadioDeviceType {
    RtlSdr,
    PlutoPlus,
}

/// Center frequency an RTL-SDR is tuned to when opened (2.4 GHz).
pub const RTL_DEFAULT_CENTER_FREQ_HZ: u64 = 2_400_000_000;
/// Sample rate an RTL-SDR is set to when opened (2.4 MSPS).
pub const RTL_DEFAULT_SAMPLE_RATE_HZ: u32 = 2_400_000;
/// Sample rate of a freshly opened Pluto+ (2 MSPS).
pub const PLUTO_DEFAULT_SAMPLE_RATE_HZ: u32 = 2_000_000;

/// Why a radio operation was refused.
#[derive(Debug, Clone, Copy, PartialEq, Eq, Structural)]
pub enum RadioError {
    /// Opening the RTL-SDR failed (driver status `code`, or no handle).
    OpenFailed { device_index: u32, code: i32 },
    /// Setting the RTL-SDR center frequency failed.
    FreqSetFailed { code: i32 },
    /// The frequency does not fit the driver's 32-bit argument.
    FreqNotRepresentable { freq_hz: u64 },
    /// Reading samples failed.
    ReadFailed { code: i32 },
    /// Pluto+ support is not compiled into this build.
    PlutoUnsupported,
    /// Only the RTL-SDR supports synchronous reads.
    SyncReadUnsupported,
}

/// State of an open RTL-SDR or Pluto+ device. The driver handle itself is
/// owned by the caller alongside this state.
pub struct RadioDevice {
    device_type: RadioDeviceType,
    device_id: u32,
    center_freq_hz: u64,
    sample_rate_hz: u32,
}

impl RadioDevice {
    pub closed spec fn spec_device_type(&self) -> RadioDeviceType {
        self.device_type
    }

    pub closed spec fn spec_device_id(&self) -> u32 {
        self.device_id
    }

    pub closed spec fn spec_center_freq(&self) -> u64 {
        self.center_freq_hz
    }

    pub closed spec fn spec_sample_rate(&self) -> u32 {
        self.sample_rate_hz
    }

    /// Outcome of opening RTL-SDR `device_index`: given the driver's open
    /// status and whether it handed back a handle, either the device state
    /// with the safe defaults (2.4 GHz, 2.4 MSPS) or the open error.
    pub fn open_rtl_sdr(device_index: u32, status: i32, handle_present: bool) -> (r: Result<Self, RadioError>)
        ensures
            r is Ok <==> (status == RTLSDR_SUCCESS && handle_present),
            r is Err ==> r->Err_0 == (RadioError::OpenFailed { device_index, code: status }),
            r is Ok ==> {
                &&& r->Ok_0.spec_device_type() == RadioDeviceType::RtlSdr
                &&& r->Ok_0.spec_device_id() == device_index
                &&& r->Ok_0.spec_center_freq() == RTL_DEFAULT_CENTER_FREQ_HZ
                &&& r->Ok_0.spec_sample_rate() == RTL_DEFAULT_SAMPLE_RATE_HZ
            },
    {
        if status != RTLSDR_SUCCESS || !handle_present {
            return Err(RadioError::OpenFailed { device_index, code: status });
        }
        Ok(RadioDevice {
            device_type: RadioDeviceType::RtlSdr,
            device_id: device_index,
            center_freq_hz: RTL_DEFAULT_CENTER_FREQ_HZ,
            sample_rate_hz: RTL_DEFAULT_SAMPLE_RATE_HZ,
        })
    }

    /// State of a freshly opened Pluto+ device.
    pub fn open_pluto_plus(device_id: u32) -> (r: Self)
        ensures
            r.spec_device_type() == RadioDeviceType::PlutoPlus,
            r.spec_device_id() == device_id,
            r.spec_center_freq() == RTL_DEFAULT_CENTER_FREQ_HZ,
            r.spec_sample_rate() == PLUTO_DEFAULT_SAMPLE_RATE_HZ,
    {
        RadioDevice {
            device_type: RadioDeviceType::PlutoPlus,
            device_id,
            center_freq_hz: RTL_DEFAULT_CENTER_FREQ_HZ,
            sample_rate_hz: PLUTO_DEFAULT_SAMPLE_RATE_HZ,
        }
    }

    /// The argument to hand to the RTL-SDR driver to tune to `freq_hz`: the
    /// frequency itself, refused when it does not fit the driver's 32-bit
    /// field. Pluto+ tuning is not available in this build.
    pub fn tune_argument(&self, freq_hz: u64) -> (r: Result<u32, RadioError>)
        ensures
            self.spec_device_type() == RadioDeviceType::RtlSdr && freq_hz <= u32::MAX ==> r == Ok::<
                u32,
                RadioError,
            >(freq_hz as u32),
            self.spec_device_type() == RadioDeviceType::RtlSdr && freq_hz > u32::MAX ==> r == Err::<
                u32,
                RadioError,
            >(RadioError::FreqNotRepresentable { freq_hz }),
            self.spec_device_type() == RadioDeviceType::PlutoPlus ==> r == Err::<u32, RadioError>(
                RadioError::PlutoUnsupported,
            ),
    {
        match self.device_type {
            RadioDeviceType::RtlSdr => {
                if freq_hz > 0xffff_ffffu64 {
                    Err(RadioError::FreqNotRepresentable { freq_hz })
                } else {
                    Ok(freq_hz as u32)
                }
            },
            RadioDeviceType::PlutoPlus => Err(RadioError::PlutoUnsupported),
        }
    }

    /// Record the driver's answer to a tune request that sent `sent_hz`: on
    /// success the device is now at `sent_hz`, otherwise it is unchanged.
    pub fn finish_tune(&mut self, sent_hz: u32, status: i32) -> (r: Result<(), RadioError>)
        ensures
            r is Ok <==> status == RTLSDR_SUCCESS,
            r is Err ==> r == Err::<(), RadioError>(RadioError::FreqSetFailed { code: status }),
            final(self).spec_center_freq() == (if status == RTLSDR_SUCCESS { sent_hz as u64 } else { old(self).spec_center_freq() }),
            final(self).spec_device_type() == old(self).spec_device_type(),
            final(self).spec_device_id() == old(self).spec_device_id(),
            final(self).spec_sample_rate() == old(self).spec_sample_rate(),
    {
        if status != RTLSDR_SUCCESS {
            return Err(RadioError::FreqSetFailed { code: status });
        }
        self.center_freq_hz = sent_hz as u64;
        Ok(())
    }

    /// Synchronous reads are an RTL-SDR feature.
    pub fn check_sync_read(&self) -> (r: Result<(), RadioError>)
        ensures
            r is Ok <==> self.spec_device_type() == RadioDeviceType::RtlSdr,
            r is Err ==> r == Err::<(), RadioError>(RadioError::SyncReadUnsupported),
    {
        if self.device_type != RadioDeviceType::RtlSdr {
            return Err(RadioError::SyncReadUnsupported);
        }
        Ok(())
    }

    /// Interpret the driver's answer to a synchronous read of `n_read` bytes.
    pub fn finish_read(status: i32, n_read: i32) -> (r: Result<usize, RadioError>)
        ensures
            status == RTLSDR_SUCCESS ==> r == Ok::<usize, RadioError>(n_read as usize),
            status != RTLSDR_SUCCESS ==> r == Err::<usize, RadioError>(RadioError::ReadFailed { code: status }),
    {
        if status != RTLSDR_SUCCESS {
            return Err(RadioError::ReadFailed { code: status });
        }
        Ok(n_read as usize)
    }

    pub fn device_type(&self) -> (r: RadioDeviceType)
        ensures
            r == self.spec_device_type(),
    {
        self.device_type
    }

    pub fn center_freq(&self) -> (r: u64)
        ensures
            r == self.spec_center_freq(),
    {
        self.center_freq_hz
    }

    pub fn sample_rate(&self) -> (r: u32)
        ensures
            r == self.spec_sample_rate(),
    {
        self.sample_rate_hz
    }

    pub fn device_id(&self) -> (r: u32)
        ensures
            r == self.spec_device_id(),
    {
        self.device_id
    }
}

} // verus!
