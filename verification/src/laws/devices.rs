//! Laws on devices, the host and the list of the devices.
use crate::config::{SampleFormat, StreamConfig, SupportedStreamConfig, SupportedStreamConfigRange};
use crate::default_device::{DataFlow, DefaultDevice, DefaultDevices};
use crate::device::{
    default_format, Device, DeviceType, Devices, Endpoint, MixFormat, NameProperty, StreamInner,
};
use crate::error::{
    error_code, is_display_of, is_error_with, is_io_text_of, is_text_of, BuildStreamError,
    DefaultStreamConfigError, DeviceNameError, DevicesError, HostUnavailable,
    SupportedStreamConfigsError,
};
use crate::host::Host;
use crate::waveformat::{format_from_waveformatex, WaveFormat};
use crate::wide::{utf16_lossy, WideString};
use vstd::prelude::*;

verus! {

/// A device stands for the endpoint: it is one for it, or one that follows a default device
/// that has it at the time.
pub open spec fn stands_for<D>(device: DeviceType<D>, e: D) -> bool {
    ||| device == DeviceType::Device(e)
    ||| (device matches DeviceType::Default(Some(d)) && d.device == Some(e))
}

/// A device stands for no endpoint: it follows a default device that has none at the time, or
/// that is not to be had.
pub open spec fn stands_for_none<D>(device: DeviceType<D>) -> bool {
    device matches DeviceType::Default(d) && (d is None || (d->0).device is None)
}

/// A device stands for the endpoint that it was made for, or for the one that its default
/// device has at the time.
pub proof fn lemma_device_stands_for_endpoint<D>(device: DeviceType<D>, e: D, r: Option<&D>)
    requires
        call_ensures(DeviceType::<D>::endpoint, (&device,), r),
    ensures
        device == DeviceType::Device(e) ==> r == Some(&e),
        forall|d: DefaultDevice<D>|
            device == DeviceType::Default(Some(d)) && d.device == Some(e) ==> r == Some(&e),
        forall|d: DefaultDevice<D>|
            device == DeviceType::Default(Some(d)) && d.device is None ==> r is None,
        device == DeviceType::<D>::Default(None) ==> r is None,
{
}

/// The copy of the endpoint is one of the endpoint that the device stands for, and there is
/// one exactly where there is an endpoint.
pub proof fn lemma_copy_is_of_the_endpoint<D: Clone>(device: DeviceType<D>, e: D, r: Option<D>)
    requires
        call_ensures(DeviceType::<D>::get, (&device,), r),
    ensures
        device == DeviceType::Device(e) ==> (r matches Some(copy) && cloned(e, copy)),
        forall|d: DefaultDevice<D>|
            device == DeviceType::Default(Some(d)) && d.device == Some(e) ==> (r matches Some(copy)
                && cloned(e, copy)),
        forall|d: DefaultDevice<D>|
            device == DeviceType::Default(Some(d)) && d.device is None ==> r is None,
        device == DeviceType::<D>::Default(None) ==> r is None,
{
}

/// A device that is made for an endpoint always stands for that endpoint.
pub proof fn lemma_device_for_endpoint<D, C>(e: D, r: Device<D, C>)
    requires
        call_ensures(Device::<D, C>::from_immdevice, (e,), r),
    ensures
        r.device == DeviceType::Device(e),
        r.future_audio_client is None,
{
}

/// A device that is made of a default device with an endpoint goes on following the default
/// device, whichever its data flow; of one without an endpoint no device is made.
pub proof fn lemma_device_follows_default<D, C>(d: DefaultDevice<D>, r: Option<Device<D, C>>)
    requires
        call_ensures(Device::<D, C>::from_default_device, (d,), r),
    ensures
        d.device is Some ==> (r matches Some(device) && device.device == DeviceType::Default(
            Some(d),
        ) && device.future_audio_client is None),
        d.device is None ==> r is None,
{
}

/// The host hands out devices that follow its default devices: the input device the one for
/// input, the output device the one for output.
pub proof fn lemma_host_hands_out_defaults<D, C>(
    host: Host,
    devices: DefaultDevices<D>,
    input: Option<Device<D, C>>,
    output: Option<Device<D, C>>,
)
    requires
        call_ensures(Host::default_input_device::<D, C>, (&host, devices), input),
        call_ensures(Host::default_output_device::<D, C>, (&host, devices), output),
    ensures
        devices.input_device.device is Some ==> (input matches Some(device) && device.device
            == DeviceType::Default(Some(devices.input_device)) && device.future_audio_client
            is None),
        devices.input_device.device is None ==> input is None,
        devices.output_device.device is Some ==> (output matches Some(device) && device.device
            == DeviceType::Default(Some(devices.output_device)) && device.future_audio_client
            is None),
        devices.output_device.device is None ==> output is None,
{
}

/// The host is there, and Windows always has it.
pub proof fn lemma_host_is_there(host: Result<Host, HostUnavailable>, available: bool)
    requires
        call_ensures(Host::new, (), host),
        call_ensures(Host::is_available, (), available),
    ensures
        host is Ok,
        available,
{
}

/// Sound goes through a device as it goes through the endpoint that the device stands for,
/// whether it is a device for that endpoint or one that follows a default device. Without an
/// endpoint it goes nowhere.
pub proof fn lemma_flow_is_the_endpoints<C>(
    device: Device<Endpoint, C>,
    e: Endpoint,
    r: Option<DataFlow>,
)
    requires
        call_ensures(Device::<Endpoint, C>::data_flow, (&device,), r),
    ensures
        device.device == DeviceType::Device(e) ==> r == Some(e.flow),
        forall|d: DefaultDevice<Endpoint>|
            device.device == DeviceType::Default(Some(d)) && d.device == Some(e) ==> r == Some(
                e.flow,
            ),
        forall|d: DefaultDevice<Endpoint>|
            device.device == DeviceType::Default(Some(d)) && d.device is None ==> r is None,
        device.device == DeviceType::<Endpoint>::Default(None) ==> r is None,
{
}

/// An endpoint tells its own data flow.
pub proof fn lemma_endpoint_tells_flow(e: Endpoint, r: DataFlow)
    requires
        call_ensures(Endpoint::data_flow, (&e,), r),
    ensures
        r == e.flow,
{
}

/// A device supports output exactly where it stands for an endpoint whose data flow has the
/// number 0, and input exactly where that number is 1. It makes no difference whether the
/// device follows a default device.
pub proof fn lemma_directions_by_number<C>(
    device: Device<Endpoint, C>,
    e: Endpoint,
    input: bool,
    output: bool,
)
    requires
        call_ensures(Device::<Endpoint, C>::supports_input, (&device,), input),
        call_ensures(Device::<Endpoint, C>::supports_output, (&device,), output),
    ensures
        stands_for(device.device, e) ==> (output <==> e.flow.0 == 0),
        stands_for(device.device, e) ==> (input <==> e.flow.0 == 1),
        stands_for_none(device.device) ==> !input && !output,
{
}

/// The result of the query is handed on for a device of the right direction. A device of
/// another direction, or without an endpoint, has no configurations.
pub proof fn lemma_configurations_by_direction<C>(
    device: Device<Endpoint, C>,
    e: Endpoint,
    formats: Result<Vec<SupportedStreamConfigRange>, SupportedStreamConfigsError>,
    input: Result<Vec<SupportedStreamConfigRange>, SupportedStreamConfigsError>,
    output: Result<Vec<SupportedStreamConfigRange>, SupportedStreamConfigsError>,
)
    requires
        call_ensures(
            Device::<Endpoint, C>::supported_input_configs,
            (&device, Some(formats)),
            input,
        ),
        call_ensures(
            Device::<Endpoint, C>::supported_output_configs,
            (&device, Some(formats)),
            output,
        ),
    ensures
        stands_for(device.device, e) && e.flow.0 == 1 ==> input == formats,
        stands_for(device.device, e) && e.flow.0 != 1 ==> (input matches Ok(list) && list@.len()
            == 0),
        stands_for(device.device, e) && e.flow.0 == 0 ==> output == formats,
        stands_for(device.device, e) && e.flow.0 != 0 ==> (output matches Ok(list) && list@.len()
            == 0),
        stands_for_none(device.device) ==> (input matches Ok(list) && list@.len() == 0) && (
        output matches Ok(list) && list@.len() == 0),
{
}

/// The default configuration of a device of the right direction is the default format. A
/// device of another direction, or without an endpoint, does not support such streams.
pub proof fn lemma_default_configuration_by_direction<C>(
    device: Device<Endpoint, C>,
    e: Endpoint,
    mix: MixFormat,
    input: Result<SupportedStreamConfig, DefaultStreamConfigError>,
    output: Result<SupportedStreamConfig, DefaultStreamConfigError>,
    format: Option<SupportedStreamConfig>,
)
    requires
        call_ensures(
            Device::<Endpoint, C>::default_input_config,
            (&device, Some(Ok(mix))),
            input,
        ),
        call_ensures(
            Device::<Endpoint, C>::default_output_config,
            (&device, Some(Ok(mix))),
            output,
        ),
        call_ensures(format_from_waveformatex, (&mix.wave, mix.limits), format),
    ensures
        stands_for(device.device, e) && e.flow.0 == 1 ==> (match format {
            Some(config) => input == Ok::<_, DefaultStreamConfigError>(config),
            None => input matches Err(DefaultStreamConfigError::StreamTypeNotSupported),
        }),
        stands_for(device.device, e) && e.flow.0 == 0 ==> (match format {
            Some(config) => output == Ok::<_, DefaultStreamConfigError>(config),
            None => output matches Err(DefaultStreamConfigError::StreamTypeNotSupported),
        }),
        stands_for(device.device, e) && e.flow.0 != 1 ==> input matches Err(
            DefaultStreamConfigError::StreamTypeNotSupported,
        ),
        stands_for(device.device, e) && e.flow.0 != 0 ==> output matches Err(
            DefaultStreamConfigError::StreamTypeNotSupported,
        ),
        stands_for_none(device.device) ==> input matches Err(
            DefaultStreamConfigError::StreamTypeNotSupported,
        ),
        stands_for_none(device.device) ==> output matches Err(
            DefaultStreamConfigError::StreamTypeNotSupported,
        ),
{
}

/// `r` fails for the reason that the error of Windows gives.
pub open spec fn is_reason_of_default_config(
    r: Result<SupportedStreamConfig, DefaultStreamConfigError>,
    error: windows_core::Error,
) -> bool {
    match r {
        Err(DefaultStreamConfigError::DeviceNotAvailable) => error_code(error) == 0x8889_0004
            - 0x1_0000_0000,
        Err(DefaultStreamConfigError::BackendSpecific { err }) => error_code(error) != 0x8889_0004
            - 0x1_0000_0000 && is_display_of(error, err.description@),
        _ => false,
    }
}

/// Where the system has no mix format for a device of the right direction, its error is the
/// reason: the device is gone, or the error's own text.
pub proof fn lemma_no_mix_format<C>(
    device: Device<Endpoint, C>,
    e: Endpoint,
    error: windows_core::Error,
    input: Result<SupportedStreamConfig, DefaultStreamConfigError>,
    output: Result<SupportedStreamConfig, DefaultStreamConfigError>,
    format: Result<SupportedStreamConfig, DefaultStreamConfigError>,
)
    requires
        call_ensures(
            Device::<Endpoint, C>::default_input_config,
            (&device, Some(Err(error))),
            input,
        ),
        call_ensures(
            Device::<Endpoint, C>::default_output_config,
            (&device, Some(Err(error))),
            output,
        ),
        call_ensures(default_format, (Err(error),), format),
    ensures
        is_reason_of_default_config(format, error),
        stands_for(device.device, e) && e.flow.0 == 1 ==> is_reason_of_default_config(input, error),
        stands_for(device.device, e) && e.flow.0 == 0 ==> is_reason_of_default_config(
            output,
            error,
        ),
{
}

/// The default format has the channels, the sample rate, the sample format and the buffer
/// limits of the mix format. A mix format with samples that streams cannot have is not
/// supported.
pub proof fn lemma_default_format_is_the_mix_format(
    mix: MixFormat,
    sample_format: Option<SampleFormat>,
    config: Option<SupportedStreamConfig>,
    r: Result<SupportedStreamConfig, DefaultStreamConfigError>,
)
    requires
        call_ensures(default_format, (Ok(mix),), r),
        call_ensures(WaveFormat::sample_format, (&mix.wave,), sample_format),
        call_ensures(format_from_waveformatex, (&mix.wave, mix.limits), config),
    ensures
        config matches Some(c) ==> r == Ok::<_, DefaultStreamConfigError>(c),
        sample_format matches Some(f) ==> (r matches Ok(config) && config.sample_format == f
            && config.channels == mix.wave.channels && config.sample_rate.0
            == mix.wave.samples_per_sec),
        sample_format is None ==> r matches Err(DefaultStreamConfigError::StreamTypeNotSupported),
{
}

/// Two devices are the same exactly where the identifiers of their endpoints are, unit by
/// unit, or where neither has an endpoint.
pub proof fn lemma_same_device_by_identifier<C>(
    a: Device<WideString, C>,
    b: Device<WideString, C>,
    id1: WideString,
    id2: WideString,
    r: bool,
)
    requires
        call_ensures(<Device<WideString, C> as PartialEq>::eq, (&a, &b), r),
    ensures
        stands_for(a.device, id1) && stands_for(b.device, id2) ==> (r <==> id1@.len() == id2@.len()
            && forall|i: int| 0 <= i < id1@.len() ==> id1@[i] == id2@[i]),
        stands_for_none(a.device) && stands_for_none(b.device) ==> r,
        stands_for(a.device, id1) && stands_for_none(b.device) ==> !r,
        stands_for_none(a.device) && stands_for(b.device, id2) ==> !r,
{
    if forall|i: int| 0 <= i < id1@.len() ==> id1@[i] == id2@[i] {
        if id1@.len() == id2@.len() {
            assert(id1@ =~= id2@);
        }
    }
}

/// An endpoint has to be activated exactly where there is one and no client is held: it is the
/// one that the device stands for.
pub proof fn lemma_endpoint_to_activate<D, C>(device: Device<D, C>, e: D, r: Option<&D>)
    requires
        call_ensures(Device::<D, C>::endpoint_to_activate, (&device,), r),
    ensures
        device.future_audio_client is Some ==> r is None,
        device.future_audio_client is None && stands_for(device.device, e) ==> r == Some(&e),
        device.future_audio_client is None && stands_for_none(device.device) ==> r is None,
{
}

/// The error has the number 0x88890004 and says when the device was not found.
pub open spec fn says_no_device(e: windows_core::Error) -> bool {
    error_code(e) == 0x8889_0004 - 0x1_0000_0000 && is_error_with(
        e,
        -0x7776_FFFCi32,
        "device not found when ensuring future audio client"@,
    )
}

/// A client that is held is kept; else the activated one is held from then on. Without an
/// endpoint there is none, and an error of the activation comes out as it is.
pub proof fn lemma_client_is_kept<D, C>(e: D, client: C, error: windows_core::Error)
    ensures
        forall|
            device: &mut Device<D, C>,
            activated: Option<Result<C, windows_core::Error>>,
            r: Result<(), windows_core::Error>,
        |
            #![trigger call_ensures(
                Device::<D, C>::ensure_future_audio_client,
                (device, activated),
                r,
            )]
            call_ensures(Device::<D, C>::ensure_future_audio_client, (device, activated), r) ==> {
                &&& final(device).device == device.device
                &&& device.future_audio_client == Some(client) ==> r is Ok
                    && final(device).future_audio_client == Some(client)
                &&& device.future_audio_client is None && stands_for(device.device, e) ==> {
                    &&& activated == Some(Ok::<_, windows_core::Error>(client)) ==> r is Ok
                        && final(device).future_audio_client == Some(client)
                    &&& activated == Some(Err::<C, _>(error)) ==> r == Err::<(), _>(error)
                        && final(device).future_audio_client is None
                }
                &&& device.future_audio_client is None && stands_for_none(device.device) ==> (
                r matches Err(err) && says_no_device(err)) && final(device).future_audio_client
                    is None
            },
{
}

/// Each client is handed out once: the one that is held, or else the activated one, and none
/// is held afterwards. Without an endpoint the error has the number 0x88890004.
pub proof fn lemma_client_is_handed_out_once<D, C>(e: D, client: C, error: windows_core::Error)
    ensures
        forall|
            device: &mut Device<D, C>,
            activated: Option<Result<C, windows_core::Error>>,
            r: Result<C, windows_core::Error>,
        |
            #![trigger call_ensures(Device::<D, C>::build_audioclient, (device, activated), r)]
            call_ensures(Device::<D, C>::build_audioclient, (device, activated), r) ==> {
                &&& final(device).device == device.device
                &&& final(device).future_audio_client is None
                &&& device.future_audio_client == Some(client) ==> r == Ok::<
                    _,
                    windows_core::Error,
                >(client)
                &&& device.future_audio_client is None && stands_for(device.device, e) ==> {
                    &&& activated == Some(Ok::<_, windows_core::Error>(client)) ==> r == Ok::<
                        _,
                        windows_core::Error,
                    >(client)
                    &&& activated == Some(Err::<C, _>(error)) ==> r == Err::<C, _>(error)
                }
                &&& device.future_audio_client is None && stands_for_none(device.device) ==> (
                r matches Err(err) && says_no_device(err))
            },
{
}

/// A stream is opened with the client that is held, or else with the activated one. Without an
/// endpoint the device is not available, and so it is where the activation fails with that
/// number; any other error of the activation is described by its text.
pub proof fn lemma_stream_client<D, C>(e: D, client: C, error: windows_core::Error)
    ensures
        forall|
            device: &mut Device<D, C>,
            activated: Option<Result<C, windows_core::Error>>,
            r: Result<C, BuildStreamError>,
        |
            #![trigger call_ensures(Device::<D, C>::build_stream_client, (device, activated), r)]
            call_ensures(Device::<D, C>::build_stream_client, (device, activated), r) ==> {
                &&& final(device).device == device.device
                &&& final(device).future_audio_client is None
                &&& device.future_audio_client == Some(client) ==> r == Ok::<_, BuildStreamError>(
                    client,
                )
                &&& device.future_audio_client is None && stands_for(device.device, e) ==> {
                    &&& activated == Some(Ok::<_, windows_core::Error>(client)) ==> r == Ok::<
                        _,
                        BuildStreamError,
                    >(client)
                    &&& activated == Some(Err::<C, _>(error)) && error_code(error) == 0x8889_0004
                        - 0x1_0000_0000 ==> r == Err::<C, _>(BuildStreamError::DeviceNotAvailable)
                    &&& activated == Some(Err::<C, _>(error)) && error_code(error) != 0x8889_0004
                        - 0x1_0000_0000 ==> (r matches Err(
                        BuildStreamError::BackendSpecific { err },
                    ) && is_display_of(error, err.description@))
                }
                &&& device.future_audio_client is None && stands_for_none(device.device) ==> r
                    == Err::<C, _>(BuildStreamError::DeviceNotAvailable)
            },
{
}

/// The name of a device with an endpoint is the text of the property, where that is of the
/// type with the number 31. Any other type is named in the error.
pub proof fn lemma_name_is_the_property<D, C>(
    device: Device<D, C>,
    e: D,
    property: NameProperty,
    r: Result<String, DeviceNameError>,
)
    requires
        call_ensures(Device::<D, C>::name, (&device, Some(Ok(property))), r),
    ensures
        stands_for(device.device, e) && property.vt == 31 ==> (property.text matches Some(text)
            ==> (r matches Ok(name) && name@ == utf16_lossy(text@))),
        stands_for(device.device, e) && property.vt != 31 ==> (r matches Err(
            DeviceNameError::BackendSpecific { err },
        ) && err.description@ == "property store produced invalid data: "@ + property.vt_text@),
        stands_for_none(device.device) ==> (r matches Err(DeviceNameError::BackendSpecific { err })
            && err.description@ == "device not found"@),
{
}

/// A device has no name where the property store fails, which the error tells with the
/// system's text behind it, nor where there is no endpoint.
pub proof fn lemma_no_name<D, C>(
    device: Device<D, C>,
    e: D,
    error: windows_core::Error,
    r: Result<String, DeviceNameError>,
    without: Result<String, DeviceNameError>,
)
    requires
        call_ensures(Device::<D, C>::name, (&device, Some(Err(error))), r),
        stands_for_none(device.device) ==> call_ensures(
            Device::<D, C>::name,
            (&device, None),
            without,
        ),
    ensures
        stands_for(device.device, e) ==> (r matches Err(DeviceNameError::BackendSpecific { err })
            && exists|text: Seq<char>| #[trigger]
            is_text_of(error, text) && err.description@
                == "failed to retrieve name from property store: "@ + text),
        stands_for_none(device.device) ==> (r matches Err(DeviceNameError::BackendSpecific { err })
            && err.description@ == "device not found"@),
        stands_for_none(device.device) ==> (without matches Err(
            DeviceNameError::BackendSpecific { err },
        ) && err.description@ == "device not found"@),
{
}

/// A new stream holds what the system made, the configuration and the sample format, and does
/// not play. Where the system made nothing, the reason comes out as it is.
pub proof fn lemma_new_stream<S>(
    state: Result<S, BuildStreamError>,
    config: StreamConfig,
    sample_format: SampleFormat,
    r: Result<StreamInner<S>, BuildStreamError>,
)
    requires
        call_ensures(StreamInner::<S>::from_device_state, (state, &config, sample_format), r),
    ensures
        state matches Ok(held) ==> (r matches Ok(stream) && stream.device_state == held
            && !stream.playing && stream.config.channels == config.channels
            && stream.config.sample_rate.0 == config.sample_rate.0 && stream.config.buffer_size
            == config.buffer_size && stream.sample_format == sample_format),
        state matches Err(reason) ==> (r matches Err(err) && err == reason),
{
}

/// The list starts at its first place and has as many as the system counts. Where the system
/// has no list, the words of its error come out.
pub proof fn lemma_list_starts_at_first<L>(
    host: Host,
    enumerated: Result<(L, u32), windows_core::Error>,
    a: Result<Devices<L>, DevicesError>,
    b: Result<Devices<L>, DevicesError>,
)
    requires
        call_ensures(Devices::<L>::new, (enumerated,), a),
        call_ensures(Host::devices::<L>, (&host, enumerated), b),
    ensures
        enumerated matches Ok(list) ==> (a matches Ok(devices) && devices.collection == list.0
            && devices.total_count == list.1 && devices.next_item == 0),
        enumerated matches Ok(list) ==> (b matches Ok(devices) && devices.collection == list.0
            && devices.total_count == list.1 && devices.next_item == 0),
        enumerated matches Err(e) ==> (a matches Err(DevicesError::BackendSpecific { err })
            && is_io_text_of(e, err.description@)),
        enumerated matches Err(e) ==> (b matches Err(DevicesError::BackendSpecific { err })
            && is_io_text_of(e, err.description@)),
{
}

/// The next place is the number of devices that were handed out, as long as that is below the
/// count, and the hint is what is left, no more and no less.
pub proof fn lemma_places_are_counted<L>(
    devices: Devices<L>,
    place: Option<u32>,
    hint: (usize, Option<usize>),
)
    requires
        devices.next_item <= devices.total_count,
        call_ensures(Devices::<L>::next_place, (&devices,), place),
        call_ensures(Devices::<L>::size_hint, (&devices,), hint),
    ensures
        devices.next_item < devices.total_count ==> place == Some(devices.next_item),
        devices.next_item == devices.total_count ==> place is None,
        devices.next_item + hint.0 == devices.total_count,
        hint.1 == Some(hint.0),
{
}

/// As long as fewer devices were handed out than there are, the next one is a device for the
/// handle that the system has for its place, and the place after it comes next. At the end
/// none is handed out, and the list stays at its end.
pub proof fn lemma_next_device<L, D, C>(item: D)
    ensures
        forall|devices: &mut Devices<L>, r: Option<Device<D, C>>|
            #![trigger call_ensures(Devices::<L>::next::<D, C>, (devices, Some(item)), r)]
            devices.next_item < devices.total_count && call_ensures(
                Devices::<L>::next::<D, C>,
                (devices, Some(item)),
                r,
            ) ==> {
                &&& r matches Some(device) && device.device == DeviceType::Device(item)
                    && device.future_audio_client is None
                &&& final(devices).next_item == devices.next_item + 1
                &&& final(devices).total_count == devices.total_count
                &&& final(devices).collection == devices.collection
            },
        forall|devices: &mut Devices<L>, item: Option<D>, r: Option<Device<D, C>>|
            #![trigger call_ensures(Devices::<L>::next::<D, C>, (devices, item), r)]
            devices.next_item == devices.total_count && call_ensures(
                Devices::<L>::next::<D, C>,
                (devices, item),
                r,
            ) ==> {
                &&& r is None
                &&& final(devices).next_item == devices.next_item
                &&& final(devices).total_count == devices.total_count
                &&& final(devices).collection == devices.collection
            },
{
}

} // verus!
