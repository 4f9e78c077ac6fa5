use wasapi_host::config::{
    BufferSize, SampleFormat, SampleRate, StreamConfig, SupportedBufferSize, SupportedStreamConfig,
    SupportedStreamConfigRange,
};
use wasapi_host::default_device::{
    DataFlow, DefaultDevice, Role, E_CAPTURE, E_CONSOLE, E_RENDER,
};
use wasapi_host::device::{
    default_format, Device, DeviceType, Devices, Endpoint, MixFormat, NameProperty, StreamInner,
    VT_LPWSTR,
};
use wasapi_host::error::{
    BackendSpecificError, BuildStreamError, DefaultStreamConfigError, DeviceNameError,
    DevicesError, SupportedStreamConfigsError, AUDCLNT_E_DEVICE_INVALIDATED,
};
use wasapi_host::host::Host;
use wasapi_host::waveformat::{WaveFormat, WAVE_FORMAT_PCM};
use wasapi_host::wide::WideString;
use windows_core::{Error, HRESULT};

fn error(code: i32) -> Error {
    Error::from_hresult(HRESULT(code))
}

fn gone() -> Error {
    error(AUDCLNT_E_DEVICE_INVALIDATED)
}

fn default_of<D>(device: Option<D>) -> DeviceType<D> {
    DeviceType::Default(Some(DefaultDevice {
        flow: DataFlow(E_CAPTURE),
        role: Role(E_CONSOLE),
        device,
    }))
}

fn device_of<D>(device: DeviceType<D>) -> Device<D, u32> {
    Device {
        device,
        future_audio_client: None,
    }
}

fn with_flow(flow: i32) -> Device<Endpoint, u32> {
    Device::from_immdevice(Endpoint {
        flow: DataFlow(flow),
    })
}

fn id(text: &str) -> WideString {
    let mut units: Vec<u16> = text.encode_utf16().collect();
    units.push(0);
    WideString::new(units).unwrap()
}

fn mix(bits_per_sample: u16) -> MixFormat {
    MixFormat {
        wave: WaveFormat {
            format_tag: WAVE_FORMAT_PCM,
            channels: 1,
            samples_per_sec: 44100,
            bits_per_sample,
            sub_format: None,
        },
        limits: None,
    }
}

fn mix_config() -> SupportedStreamConfig {
    SupportedStreamConfig {
        channels: 1,
        sample_rate: SampleRate(44100),
        buffer_size: SupportedBufferSize::Range {
            min: 0,
            max: u32::MAX,
        },
        sample_format: SampleFormat::I16,
    }
}

fn some_range() -> SupportedStreamConfigRange {
    SupportedStreamConfigRange {
        channels: 1,
        min_sample_rate: SampleRate(44100),
        max_sample_rate: SampleRate(44100),
        buffer_size: SupportedBufferSize::Unknown,
        sample_format: SampleFormat::I16,
    }
}

#[test]
fn endpoint_of_a_device() {
    assert_eq!(DeviceType::Device(5).get(), Some(5));
    assert_eq!(default_of(Some(6)).get(), Some(6));
    assert_eq!(default_of::<u32>(None).get(), None);
    assert_eq!(DeviceType::<u32>::Default(None).get(), None);
    assert_eq!(DeviceType::Device(5).endpoint(), Some(&5));
}

#[test]
fn direction_of_a_device() {
    assert!(with_flow(E_CAPTURE).supports_input());
    assert!(!with_flow(E_CAPTURE).supports_output());
    assert!(with_flow(E_RENDER).supports_output());
    assert!(!with_flow(E_RENDER).supports_input());
    assert!(!with_flow(2).supports_input());
    assert!(!with_flow(2).supports_output());
    let absent: Device<Endpoint, u32> = device_of(default_of(None));
    assert_eq!(absent.data_flow(), None);
    assert!(!absent.supports_input());
    assert!(!absent.supports_output());
    assert_eq!(with_flow(2).data_flow(), Some(DataFlow(2)));
}

#[test]
fn supported_configs_of_the_right_direction() {
    let formats = || Some(Ok(vec![some_range()]));
    assert_eq!(
        with_flow(E_CAPTURE).supported_input_configs(formats()),
        Ok(vec![some_range()])
    );
    assert_eq!(
        with_flow(E_RENDER).supported_output_configs(formats()),
        Ok(vec![some_range()])
    );
    assert_eq!(
        with_flow(E_CAPTURE)
            .supported_input_configs(Some(Err(SupportedStreamConfigsError::DeviceNotAvailable))),
        Err(SupportedStreamConfigsError::DeviceNotAvailable)
    );
}

#[test]
fn no_supported_configs_of_the_other_direction() {
    assert_eq!(with_flow(E_RENDER).supported_input_configs(None), Ok(vec![]));
    assert_eq!(with_flow(E_CAPTURE).supported_output_configs(None), Ok(vec![]));
    let absent: Device<Endpoint, u32> = device_of(DeviceType::Default(None));
    assert_eq!(absent.supported_input_configs(None), Ok(vec![]));
    assert_eq!(absent.supported_output_configs(None), Ok(vec![]));
}

#[test]
fn default_config_of_the_right_direction() {
    assert_eq!(
        with_flow(E_CAPTURE).default_input_config(Some(Ok(mix(16)))),
        Ok(mix_config())
    );
    assert_eq!(
        with_flow(E_RENDER).default_output_config(Some(Ok(mix(16)))),
        Ok(mix_config())
    );
}

#[test]
fn no_default_config_of_the_other_direction() {
    assert_eq!(
        with_flow(E_RENDER).default_input_config(None),
        Err(DefaultStreamConfigError::StreamTypeNotSupported)
    );
    assert_eq!(
        with_flow(E_CAPTURE).default_output_config(None),
        Err(DefaultStreamConfigError::StreamTypeNotSupported)
    );
}

#[test]
fn default_format_of_the_mix_format() {
    assert_eq!(default_format(Ok(mix(16))), Ok(mix_config()));
    assert_eq!(
        default_format(Ok(mix(20))),
        Err(DefaultStreamConfigError::StreamTypeNotSupported)
    );
    assert_eq!(
        default_format(Err(gone())),
        Err(DefaultStreamConfigError::DeviceNotAvailable)
    );
    assert_eq!(
        default_format(Err(error(-7))),
        Err(DefaultStreamConfigError::BackendSpecific {
            err: BackendSpecificError {
                description: format!("{}", error(-7))
            }
        })
    );
}

#[test]
fn client_is_kept_until_it_is_handed_out() {
    let mut device: Device<u32, u32> = Device::from_immdevice(9);
    assert_eq!(device.endpoint_to_activate(), Some(&9));
    assert!(device.ensure_future_audio_client(Some(Ok(1))).is_ok());
    assert_eq!(device.future_audio_client, Some(1));
    assert_eq!(device.endpoint_to_activate(), None);
    assert!(device.ensure_future_audio_client(None).is_ok());
    assert_eq!(device.future_audio_client, Some(1));
    assert_eq!(device.build_audioclient(None).unwrap(), 1);
    assert_eq!(device.future_audio_client, None);
    assert_eq!(device.endpoint_to_activate(), Some(&9));
    assert_eq!(device.build_audioclient(Some(Ok(2))).unwrap(), 2);
    assert_eq!(device.future_audio_client, None);
}

#[test]
fn client_of_an_absent_device() {
    let mut device: Device<u32, u32> = device_of(default_of(None));
    assert_eq!(device.endpoint_to_activate(), None);
    let err = device.ensure_future_audio_client(None).unwrap_err();
    assert_eq!(err.code().0, AUDCLNT_E_DEVICE_INVALIDATED);
    let err = device.build_audioclient(None).unwrap_err();
    assert_eq!(err.code().0, AUDCLNT_E_DEVICE_INVALIDATED);
    assert_eq!(
        device.build_stream_client(None),
        Err(BuildStreamError::DeviceNotAvailable)
    );
    device.future_audio_client = Some(4);
    assert_eq!(device.build_stream_client(None), Ok(4));
}

#[test]
fn failed_activation_is_handed_back() {
    let mut device: Device<u32, u32> = Device::from_immdevice(9);
    let err = device
        .ensure_future_audio_client(Some(Err(error(-3))))
        .unwrap_err();
    assert_eq!(err.code(), HRESULT(-3));
    assert_eq!(device.future_audio_client, None);
    assert_eq!(
        device.build_stream_client(Some(Err(gone()))),
        Err(BuildStreamError::DeviceNotAvailable)
    );
    assert_eq!(
        device.build_stream_client(Some(Err(error(-3)))),
        Err(BuildStreamError::BackendSpecific {
            err: BackendSpecificError {
                description: format!("{}", error(-3))
            }
        })
    );
}

fn name_error(description: &str) -> Result<String, DeviceNameError> {
    Err(DeviceNameError::BackendSpecific {
        err: BackendSpecificError {
            description: description.to_string(),
        },
    })
}

#[test]
fn name_out_of_the_property_store() {
    let device: Device<u32, u32> = Device::from_immdevice(1);
    let property = NameProperty {
        vt: VT_LPWSTR,
        vt_text: "VARENUM(31)".to_string(),
        text: Some(id("Mikrofon (USB)")),
    };
    assert_eq!(device.name(Some(Ok(property))), Ok("Mikrofon (USB)".to_string()));
}

#[test]
fn names_that_cannot_be_had() {
    let device: Device<u32, u32> = Device::from_immdevice(1);
    let property = NameProperty {
        vt: 8,
        vt_text: "VARENUM(8)".to_string(),
        text: None,
    };
    assert_eq!(
        device.name(Some(Ok(property))),
        name_error("property store produced invalid data: VARENUM(8)")
    );
    assert_eq!(
        device.name(Some(Err(error(-3)))),
        name_error(&format!(
            "failed to retrieve name from property store: {}",
            error(-3)
        ))
    );
    let absent: Device<u32, u32> = device_of(default_of(None));
    assert_eq!(absent.name(None), name_error("device not found"));
}

#[test]
fn devices_are_the_same_by_identifier() {
    let a = device_of(DeviceType::Device(id("{0.0.0}.{a}")));
    let b = device_of(default_of(Some(id("{0.0.0}.{a}"))));
    let c = device_of(DeviceType::Device(id("{0.0.0}.{b}")));
    let none = device_of(default_of(None));
    let broken = device_of(DeviceType::Default(None));
    assert!(a == a);
    assert!(a == b && b == a);
    assert!(a != c && c != a);
    assert!(a != none && none != a);
    assert!(none == broken && broken == none);
}

#[test]
fn streams_do_not_run_at_first() {
    let config = StreamConfig {
        channels: 2,
        sample_rate: SampleRate(48000),
        buffer_size: BufferSize::Fixed(64),
    };
    let stream = StreamInner::from_device_state(Ok("state"), &config, SampleFormat::F32).unwrap();
    assert_eq!(stream.device_state, "state");
    assert!(!stream.playing);
    assert_eq!(stream.config, config);
    assert_eq!(stream.sample_format, SampleFormat::F32);
    let failed: Result<StreamInner<()>, BuildStreamError> = StreamInner::from_device_state(
        Err(BuildStreamError::StreamConfigNotSupported),
        &config,
        SampleFormat::F32,
    );
    assert_eq!(
        failed.unwrap_err(),
        BuildStreamError::StreamConfigNotSupported
    );
}

#[test]
fn devices_come_in_order() {
    let mut devices = Host.devices(Ok(("list", 3))).unwrap();
    let mut places = Vec::new();
    while let Some(place) = devices.next_place() {
        assert_eq!(devices.size_hint(), (3 - places.len(), Some(3 - places.len())));
        places.push(place);
        let device: Device<u32, ()> = devices.next(Some(place + 100)).unwrap();
        assert!(matches!(device.device, DeviceType::Device(d) if d == place + 100));
        assert!(device.future_audio_client.is_none());
    }
    assert_eq!(places, vec![0, 1, 2]);
    assert_eq!(devices.size_hint(), (0, Some(0)));
    for _ in 0..2 {
        let end: Option<Device<u32, ()>> = devices.next(None);
        assert!(end.is_none());
    }
    assert_eq!(devices.collection, "list");
    assert_eq!((devices.next_item, devices.total_count), (3, 3));
}

#[test]
fn empty_list_of_devices() {
    let mut devices: Devices<&str> = Devices::new(Ok(("list", 0))).unwrap();
    assert_eq!((devices.next_item, devices.total_count), (0, 0));
    assert_eq!(devices.next_place(), None);
    assert_eq!(devices.size_hint(), (0, Some(0)));
    let end: Option<Device<u32, ()>> = devices.next(None);
    assert!(end.is_none());
    assert_eq!((devices.next_item, devices.total_count), (0, 0));
}

#[test]
fn devices_that_cannot_be_enumerated() {
    let failed: Result<Devices<()>, DevicesError> = Devices::new(Err(error(-3)));
    assert_eq!(
        failed.unwrap_err(),
        DevicesError::BackendSpecific {
            err: BackendSpecificError {
                description: format!("{}", std::io::Error::from(error(-3)))
            }
        }
    );
}
