//! Devices: what they support, what they are called, and when two are the same.
//!
//! A device stands for an endpoint. What represents the endpoint depends on who asks: the
//! program around this crate has the system's own handle, the questions about the
//! direction of sound read an [`Endpoint`], and the comparison of devices reads the
//! identifier of the endpoint, a [`WideString`].
use crate::config::{
    SampleFormat, StreamConfig, SupportedStreamConfig, SupportedStreamConfigRange,
};
use crate::default_device::{DataFlow, DefaultDevice, E_CAPTURE, E_RENDER};
use crate::error::{
    comes_from, display_text, error_code, invalidated_error, is_error_with, is_io_text_of,
    is_text_of, windows_err_to_cpal_err,
    BackendSpecificError, BuildStreamError, DefaultStreamConfigError, DeviceNameError,
    DevicesError, ErrDeviceNotAvailable, SupportedStreamConfigsError,
    AUDCLNT_E_DEVICE_INVALIDATED,
};
use crate::waveformat::{config_for, format_from_waveformatex, limits_fit, WaveFormat};
use crate::wide::{utf16_lossy, WideString};
use vstd::prelude::*;
use vstd::std_specs::cmp::PartialEqSpec;

verus! {

/// `VT_LPWSTR`: the value is a wide string.
pub const VT_LPWSTR: u16 = 31;

/// An endpoint, as far as the direction of sound goes.
#[derive(Clone, Copy, Debug, PartialEq, Eq, Structural)]
pub struct Endpoint {
    pub flow: DataFlow,
}

impl Endpoint {
    /// Returns the direction in which sound goes through the endpoint.
    pub fn data_flow(&self) -> (r: DataFlow)
        ensures
            r == self.flow,
    {
        self.flow
    }
}

/// Which endpoint a device stands for.
#[derive(Clone, Debug)]
pub enum DeviceType<D> {
    /// Always the same one.
    Device(D),
    /// Whichever is the default one when it is asked. There is none to be had where a
    /// thread broke down while it had hold of the default device.
    Default(Option<DefaultDevice<D>>),
}

impl<D> DeviceType<D> {
    /// The endpoint that the device stands for, if there is one at this time.
    pub open spec fn spec_endpoint(self) -> Option<D> {
        match self {
            DeviceType::Device(device) => Some(device),
            DeviceType::Default(Some(default)) => default.device,
            DeviceType::Default(None) => None,
        }
    }

    /// Returns the endpoint that the device stands for, if there is one at this time.
    pub fn endpoint(&self) -> (r: Option<&D>)
        ensures
            r == (match self.spec_endpoint() {
                Some(device) => Some(&device),
                None => None,
            }),
    {
        match self {
            DeviceType::Device(device) => Some(device),
            DeviceType::Default(Some(default)) => default.device.as_ref(),
            DeviceType::Default(None) => None,
        }
    }
}

impl<D: Clone> DeviceType<D> {
    /// Returns a copy of the endpoint that the device stands for, if there is one at this
    /// time.
    pub fn get(&self) -> (r: Option<D>)
        ensures
            r is Some <==> self.spec_endpoint() is Some,
            r matches Some(copy) ==> cloned(self.spec_endpoint()->0, copy),
    {
        match self.endpoint() {
            Some(device) => Some(device.clone()),
            None => None,
        }
    }
}

/// An audio device. `D` stands for the endpoint and `C` for an audio client of it.
#[derive(Debug)]
pub struct Device<D, C> {
    pub device: DeviceType<D>,
    /// A client that was not used yet. Questions are put to it, so that not every question
    /// needs a client of its own.
    pub future_audio_client: Option<C>,
}

impl<D, C> Device<D, C> {
    /// A device for an endpoint.
    pub fn from_immdevice(device: D) -> (r: Device<D, C>)
        ensures
            r == (Device::<D, C> { device: DeviceType::Device(device), future_audio_client: None }),
    {
        Device { device: DeviceType::Device(device), future_audio_client: None }
    }

    /// The device for a default device, unless that has no endpoint at this time.
    pub open spec fn spec_from_default(device: DefaultDevice<D>) -> Option<Device<D, C>> {
        if device.device is Some {
            Some(
                Device {
                    device: DeviceType::Default(Some(device)),
                    future_audio_client: None,
                },
            )
        } else {
            None
        }
    }

    /// Returns a device that follows a default device, unless that has no endpoint at this
    /// time.
    pub fn from_default_device(device: DefaultDevice<D>) -> (r: Option<Device<D, C>>)
        ensures
            r == Self::spec_from_default(device),
    {
        if device.device.is_none() {
            return None;
        }
        Some(Device { device: DeviceType::Default(Some(device)), future_audio_client: None })
    }

    /// An endpoint has to be activated before there is a client.
    pub open spec fn needs_client(self) -> bool {
        self.future_audio_client is None && self.device.spec_endpoint() is Some
    }

    /// Returns the endpoint that has to be activated for a client, where there is no
    /// client yet.
    pub fn endpoint_to_activate(&self) -> (r: Option<&D>)
        ensures
            r == (if self.needs_client() {
                Some(&self.device.spec_endpoint()->0)
            } else {
                None
            }),
    {
        if self.future_audio_client.is_some() {
            None
        } else {
            self.device.endpoint()
        }
    }

    /// Makes sure that there is a client. `activated` is what activating the endpoint
    /// gave, where it had to be activated. Without a client or an endpoint the error says
    /// that the device is gone; an error of the activation is handed back.
    pub fn ensure_future_audio_client(
        &mut self,
        activated: Option<Result<C, windows_core::Error>>,
    ) -> (r: Result<(), windows_core::Error>)
        requires
            old(self).needs_client() ==> activated is Some,
        ensures
            final(self).device == old(self).device,
            r is Ok <==> final(self).future_audio_client is Some,
            old(self).future_audio_client is Some ==> *final(self) == *old(self),
            old(self).needs_client() ==> match activated->0 {
                Ok(client) => final(self).future_audio_client == Some(client),
                Err(e) => r == Err::<(), _>(e),
            },
            old(self).future_audio_client is None && old(self).device.spec_endpoint() is None ==> (
            r matches Err(e) && is_device_not_found(e)),
    {
        if self.future_audio_client.is_some() {
            return Ok(());
        }
        if self.device.endpoint().is_none() {
            return Err(invalidated_error("device not found when ensuring future audio client"));
        }
        match activated {
            Some(Ok(client)) => {
                self.future_audio_client = Some(client);
                Ok(())
            },
            Some(Err(e)) => Err(e),
            None => Ok(()),
        }
    }

    /// Hands out a client that was not used yet. The next one is a new one.
    pub fn build_audioclient(
        &mut self,
        activated: Option<Result<C, windows_core::Error>>,
    ) -> (r: Result<C, windows_core::Error>)
        requires
            old(self).needs_client() ==> activated is Some,
        ensures
            final(self).device == old(self).device,
            final(self).future_audio_client is None,
            match old(self).future_audio_client {
                Some(client) => r == Ok::<_, windows_core::Error>(client),
                None => if old(self).device.spec_endpoint() is Some {
                    r == activated->0
                } else {
                    r matches Err(e) && is_device_not_found(e)
                },
            },
    {
        match self.ensure_future_audio_client(activated) {
            Ok(()) => Ok(self.future_audio_client.take().unwrap()),
            Err(e) => Err(e),
        }
    }

    /// Hands out the client that a stream is opened with.
    pub fn build_stream_client(
        &mut self,
        activated: Option<Result<C, windows_core::Error>>,
    ) -> (r: Result<C, BuildStreamError>)
        requires
            old(self).needs_client() ==> activated is Some,
        ensures
            final(self).device == old(self).device,
            final(self).future_audio_client is None,
            match old(self).future_audio_client {
                Some(client) => r == Ok::<_, BuildStreamError>(client),
                None => if old(self).device.spec_endpoint() is None {
                    r == Err::<C, _>(BuildStreamError::DeviceNotAvailable)
                } else {
                    match activated->0 {
                        Ok(client) => r == Ok::<_, BuildStreamError>(client),
                        Err(e) => r matches Err(err) && comes_from(err, e),
                    }
                },
            },
    {
        match self.build_audioclient(activated) {
            Ok(client) => Ok(client),
            Err(e) => Err(windows_err_to_cpal_err::<BuildStreamError>(e)),
        }
    }

    /// Returns the name of the device. `property` is the friendly name out of the
    /// endpoint's property store, where there is an endpoint.
    pub fn name(
        &self,
        property: Option<Result<NameProperty, windows_core::Error>>,
    ) -> (r: Result<String, DeviceNameError>)
        requires
            self.device.spec_endpoint() is Some ==> property is Some,
            property matches Some(Ok(value)) ==> value.wf(),
        ensures
            match self.device.spec_endpoint() {
                None => r matches Err(err) && err.backend_description() == Some(
                    "device not found"@,
                ),
                Some(_) => match property->0 {
                    Err(e) => r matches Err(err) && exists|text: Seq<char>| #[trigger]
                        is_text_of(e, text) && err.backend_description() == Some(
                            "failed to retrieve name from property store: "@ + text,
                        ),
                    Ok(value) => if value.vt != VT_LPWSTR {
                        r matches Err(err) && err.backend_description() == Some(
                            "property store produced invalid data: "@ + value.vt_text@,
                        )
                    } else {
                        r matches Ok(name) && name@ == utf16_lossy(value.text->0@)
                    },
                },
            },
    {
        if self.device.endpoint().is_none() {
            return Err(name_error("device not found", ""));
        }
        match property {
            Some(Ok(value)) => {
                if value.vt != VT_LPWSTR {
                    return Err(
                        name_error("property store produced invalid data: ", value.vt_text.as_str()),
                    );
                }
                match value.text {
                    Some(text) => Ok(text.to_string_lossy()),
                    None => Ok(String::new()),
                }
            },
            Some(Err(e)) => {
                let text: String = display_text(&e);
                Err(name_error("failed to retrieve name from property store: ", text.as_str()))
            },
            None => Err(name_error("device not found", "")),
        }
    }
}

/// The error of a device that has no endpoint to make a client of: Windows' own error for a
/// device that is gone, with a message that says when that was found.
pub open spec fn is_device_not_found(e: windows_core::Error) -> bool {
    &&& error_code(e) == AUDCLNT_E_DEVICE_INVALIDATED
    &&& is_error_with(
        e,
        AUDCLNT_E_DEVICE_INVALIDATED,
        "device not found when ensuring future audio client"@,
    )
}

/// A value out of a property store that should be a name.
pub struct NameProperty {
    /// The type of the value.
    pub vt: u16,
    /// The type of the value in words.
    pub vt_text: String,
    /// The value, where it is a wide string.
    pub text: Option<WideString>,
}

impl NameProperty {
    /// A wide string is there where the type says so.
    pub open spec fn wf(self) -> bool {
        self.vt == VT_LPWSTR ==> self.text is Some
    }
}

/// An error with the given words.
fn name_error(message: &str, text: &str) -> (r: DeviceNameError)
    ensures
        r.backend_description() == Some(message@ + text@),
        text@ == ""@ ==> r.backend_description() == Some(message@),
{
    let mut description: String = message.to_owned();
    description.append(text);
    proof {
        reveal_strlit("");
        if text@ == ""@ {
            assert(message@ + text@ =~= message@);
        }
    }
    DeviceNameError::from(BackendSpecificError { description })
}

impl<C> Device<Endpoint, C> {
    /// The direction in which sound goes through the device, if it has an endpoint.
    pub open spec fn spec_data_flow(self) -> Option<DataFlow> {
        match self.device.spec_endpoint() {
            Some(endpoint) => Some(endpoint.flow),
            None => None,
        }
    }

    /// Sound comes from the device.
    pub open spec fn is_input(self) -> bool {
        self.spec_data_flow() == Some(DataFlow(E_CAPTURE))
    }

    /// Sound goes to the device.
    pub open spec fn is_output(self) -> bool {
        self.spec_data_flow() == Some(DataFlow(E_RENDER))
    }

    /// Returns the direction in which sound goes through the device, if it has an
    /// endpoint.
    pub fn data_flow(&self) -> (r: Option<DataFlow>)
        ensures
            r == self.spec_data_flow(),
    {
        match self.device.endpoint() {
            Some(endpoint) => Some(endpoint.data_flow()),
            None => None,
        }
    }

    /// Tells whether sound comes from the device.
    pub fn supports_input(&self) -> (r: bool)
        ensures
            r == self.is_input(),
    {
        match self.data_flow() {
            Some(flow) => flow == DataFlow(E_CAPTURE),
            None => false,
        }
    }

    /// Tells whether sound goes to the device.
    pub fn supports_output(&self) -> (r: bool)
        ensures
            r == self.is_output(),
    {
        match self.data_flow() {
            Some(flow) => flow == DataFlow(E_RENDER),
            None => false,
        }
    }

    /// Returns the configurations that the device can be heard in. `formats` is the result
    /// of the query for supported formats, which is made of an input device alone: any
    /// other device has no input configurations.
    pub fn supported_input_configs(
        &self,
        formats: Option<Result<Vec<SupportedStreamConfigRange>, SupportedStreamConfigsError>>,
    ) -> (r: Result<Vec<SupportedStreamConfigRange>, SupportedStreamConfigsError>)
        requires
            self.is_input() ==> formats is Some,
        ensures
            self.is_input() ==> r == formats->0,
            !self.is_input() ==> (r matches Ok(list) && list@.len() == 0),
    {
        if self.supports_input() {
            formats.unwrap()
        } else {
            Ok(Vec::new())
        }
    }

    /// Returns the configurations that the device can play. `formats` is the result of the
    /// query for supported formats, which is made of an output device alone: any other
    /// device has no output configurations.
    pub fn supported_output_configs(
        &self,
        formats: Option<Result<Vec<SupportedStreamConfigRange>, SupportedStreamConfigsError>>,
    ) -> (r: Result<Vec<SupportedStreamConfigRange>, SupportedStreamConfigsError>)
        requires
            self.is_output() ==> formats is Some,
        ensures
            self.is_output() ==> r == formats->0,
            !self.is_output() ==> (r matches Ok(list) && list@.len() == 0),
    {
        if self.supports_output() {
            formats.unwrap()
        } else {
            Ok(Vec::new())
        }
    }

    /// Returns the configuration that the device is best heard in. `mix` is what the
    /// system says of the format that it mixes in, asked of an input device alone: any
    /// other device does not support streams of this type.
    pub fn default_input_config(
        &self,
        mix: Option<Result<MixFormat, windows_core::Error>>,
    ) -> (r: Result<SupportedStreamConfig, DefaultStreamConfigError>)
        requires
            self.is_input() ==> mix is Some,
            mix matches Some(Ok(format)) ==> format.wf(),
        ensures
            self.is_input() ==> is_default_format(mix->0, r),
            !self.is_input() ==> r == Err::<SupportedStreamConfig, _>(
                DefaultStreamConfigError::StreamTypeNotSupported,
            ),
    {
        if self.supports_input() {
            default_format(mix.unwrap())
        } else {
            Err(DefaultStreamConfigError::StreamTypeNotSupported)
        }
    }

    /// Returns the configuration that the device plays best. `mix` is what the system says
    /// of the format that it mixes in, asked of an output device alone: any other device
    /// does not support streams of this type.
    pub fn default_output_config(
        &self,
        mix: Option<Result<MixFormat, windows_core::Error>>,
    ) -> (r: Result<SupportedStreamConfig, DefaultStreamConfigError>)
        requires
            self.is_output() ==> mix is Some,
            mix matches Some(Ok(format)) ==> format.wf(),
        ensures
            self.is_output() ==> is_default_format(mix->0, r),
            !self.is_output() ==> r == Err::<SupportedStreamConfig, _>(
                DefaultStreamConfigError::StreamTypeNotSupported,
            ),
    {
        if self.supports_output() {
            default_format(mix.unwrap())
        } else {
            Err(DefaultStreamConfigError::StreamTypeNotSupported)
        }
    }
}

/// The format that the audio engine mixes in.
#[derive(Clone, Copy, Debug)]
pub struct MixFormat {
    pub wave: WaveFormat,
    /// The least and the greatest duration of a buffer, in units of 100 nanoseconds, where
    /// the hardware sets limits.
    pub limits: Option<(i64, i64)>,
}

impl MixFormat {
    /// The wave format is in order, and its buffer limits can be turned into frames.
    pub open spec fn wf(self) -> bool {
        &&& self.wave.wf()
        &&& self.wave.spec_sample_format() is Some ==> limits_fit(
            self.limits,
            self.wave.samples_per_sec,
        )
    }
}

/// `r` is the default configuration that the system's answer stands for.
pub open spec fn is_default_format(
    mix: Result<MixFormat, windows_core::Error>,
    r: Result<SupportedStreamConfig, DefaultStreamConfigError>,
) -> bool {
    match mix {
        Err(e) => r matches Err(err) && comes_from(err, e),
        Ok(format) => match config_for(format.wave, format.limits) {
            Some(config) => r == Ok::<_, DefaultStreamConfigError>(config),
            None => r == Err::<SupportedStreamConfig, _>(
                DefaultStreamConfigError::StreamTypeNotSupported,
            ),
        },
    }
}

/// Returns the default configuration. In shared mode all sound goes through an audio
/// engine, and the one format that is sure to be supported is the one that it mixes in.
pub fn default_format(
    mix: Result<MixFormat, windows_core::Error>,
) -> (r: Result<SupportedStreamConfig, DefaultStreamConfigError>)
    requires
        mix matches Ok(format) ==> format.wf(),
    ensures
        is_default_format(mix, r),
{
    match mix {
        Ok(format) => match format_from_waveformatex(&format.wave, format.limits) {
            Some(config) => Ok(config),
            None => Err(DefaultStreamConfigError::StreamTypeNotSupported),
        },
        Err(e) => Err(windows_err_to_cpal_err::<DefaultStreamConfigError>(e)),
    }
}

impl<C> vstd::std_specs::cmp::PartialEqSpecImpl for Device<WideString, C> {
    open spec fn obeys_eq_spec() -> bool {
        true
    }

    open spec fn eq_spec(&self, other: &Device<WideString, C>) -> bool {
        match (self.device.spec_endpoint(), other.device.spec_endpoint()) {
            (Some(id1), Some(id2)) => id1@ == id2@,
            (None, None) => true,
            _ => false,
        }
    }
}

/// Two devices are the same where both stand for the same endpoint, or both for none. The
/// endpoint's identifier tells: the system may have many handles for one endpoint.
impl<C> PartialEq for Device<WideString, C> {
    fn eq(&self, other: &Device<WideString, C>) -> (r: bool) {
        match (self.device.endpoint(), other.device.endpoint()) {
            (Some(id1), Some(id2)) => id1.same(id2),
            (None, None) => true,
            _ => false,
        }
    }
}

impl<C> Eq for Device<WideString, C> {

}

/// The comparison of devices is an equivalence.
pub proof fn lemma_same_device_is_equivalence<C>(
    a: Device<WideString, C>,
    b: Device<WideString, C>,
    c: Device<WideString, C>,
)
    ensures
        a.eq_spec(&a),
        a.eq_spec(&b) ==> b.eq_spec(&a),
        a.eq_spec(&b) && b.eq_spec(&c) ==> a.eq_spec(&c),
{
}

/// A device that follows the default device is the same as a device for the endpoint that
/// is the default one at the time, whatever clients the two hold.
pub proof fn lemma_default_device_is_its_endpoint<C>(
    a: Device<WideString, C>,
    b: Device<WideString, C>,
    default: DefaultDevice<WideString>,
    id: WideString,
)
    requires
        a.device == DeviceType::Default(Some(default)),
        b.device == DeviceType::Device(id),
    ensures
        a.eq_spec(&b) <==> (default.device matches Some(other) && other@ == id@),
{
}

/// No device is for input and for output, and a device without an endpoint is for neither.
pub proof fn lemma_one_direction<C>(device: Device<Endpoint, C>)
    ensures
        !(device.is_input() && device.is_output()),
        device.device.spec_endpoint() is None ==> !device.is_input() && !device.is_output(),
{
}

/// An opened stream that does not run yet. `S` stands for what the system holds of it.
#[derive(Debug)]
pub struct StreamInner<S> {
    pub device_state: S,
    pub playing: bool,
    pub config: StreamConfig,
    pub sample_format: SampleFormat,
}

impl<S> StreamInner<S> {
    /// Makes a stream of what the system made of the configuration. It does not run yet.
    pub fn from_device_state(
        device_state: Result<S, BuildStreamError>,
        config: &StreamConfig,
        sample_format: SampleFormat,
    ) -> (r: Result<StreamInner<S>, BuildStreamError>)
        ensures
            match device_state {
                Ok(device_state) => r == Ok::<_, BuildStreamError>(
                    StreamInner { device_state, playing: false, config: *config, sample_format },
                ),
                Err(err) => r == Err::<StreamInner<S>, _>(err),
            },
    {
        match device_state {
            Ok(device_state) => Ok(
                StreamInner { device_state, playing: false, config: *config, sample_format },
            ),
            Err(err) => Err(err),
        }
    }
}

/// The devices of the system, one after the other. `L` stands for the system's own list.
#[derive(Debug)]
pub struct Devices<L> {
    pub collection: L,
    pub total_count: u32,
    pub next_item: u32,
}

impl<L> Devices<L> {
    /// No more devices were handed out than there are.
    pub open spec fn wf(self) -> bool {
        self.next_item <= self.total_count
    }

    /// The places in the list of the devices that are still to come, in their order.
    pub open spec fn to_come(self) -> Seq<u32> {
        Seq::new(
            (self.total_count - self.next_item) as nat,
            |i: int| (self.next_item + i) as u32,
        )
    }

    /// Starts with the first device of the system's list, which has the given number of
    /// devices.
    pub fn new(enumerated: Result<(L, u32), windows_core::Error>) -> (r: Result<
        Devices<L>,
        DevicesError,
    >)
        ensures
            match enumerated {
                Ok((collection, count)) => r matches Ok(devices) && devices.wf()
                    && devices.collection == collection && devices.total_count == count
                    && devices.next_item == 0 && devices.to_come() == Seq::new(
                    count as nat,
                    |i: int| i as u32,
                ),
                Err(e) => r matches Err(DevicesError::BackendSpecific { err }) && is_io_text_of(
                    e,
                    err.description@,
                ),
            },
    {
        match enumerated {
            Ok((collection, count)) => {
                let devices = Devices { collection, total_count: count, next_item: 0 };
                assert(devices.to_come() =~= Seq::new(count as nat, |i: int| i as u32));
                Ok(devices)
            },
            Err(e) => Err(DevicesError::from(BackendSpecificError::from(e))),
        }
    }

    /// Returns the place in the list of the next device, if there is one.
    pub fn next_place(&self) -> (r: Option<u32>)
        requires
            self.wf(),
        ensures
            r == (if self.to_come().len() > 0 {
                Some(self.to_come()[0])
            } else {
                None
            }),
    {
        if self.next_item >= self.total_count {
            None
        } else {
            Some(self.next_item)
        }
    }

    /// Returns the next device. `item` is the system's handle for the next place in the
    /// list, where there is one.
    pub fn next<D, C>(&mut self, item: Option<D>) -> (r: Option<Device<D, C>>)
        requires
            old(self).wf(),
            old(self).to_come().len() > 0 ==> item is Some,
        ensures
            final(self).wf(),
            final(self).collection == old(self).collection,
            final(self).total_count == old(self).total_count,
            old(self).to_come().len() > 0 ==> final(self).next_item == old(self).next_item + 1,
            old(self).to_come().len() > 0 ==> final(self).to_come() == old(
                self,
            ).to_come().drop_first() && r == Some(
                Device::<D, C> {
                    device: DeviceType::Device(item->0),
                    future_audio_client: None,
                },
            ),
            old(self).to_come().len() == 0 ==> *final(self) == *old(self) && r is None,
    {
        if self.next_item >= self.total_count {
            return None;
        }
        let device: D = item.unwrap();
        let ghost before = self.to_come();
        self.next_item = self.next_item + 1;
        assert(self.to_come() =~= before.drop_first());
        Some(Device::from_immdevice(device))
    }

    /// Returns how many devices are still to come.
    pub fn size_hint(&self) -> (r: (usize, Option<usize>))
        requires
            self.wf(),
        ensures
            r.0 == self.to_come().len(),
            r.1 == Some(r.0),
    {
        let num: u32 = self.total_count - self.next_item;
        let num: usize = num as usize;
        (num, Some(num))
    }
}

} // verus!
