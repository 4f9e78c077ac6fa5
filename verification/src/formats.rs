//! The formats that an endpoint supports.
//!
//! There is no way to ask an endpoint for the list of all formats that it supports, so
//! common ones are tried one by one: the endpoint's default format is taken, varied by
//! sample rate and sample format, and each variation is put to the endpoint. In shared
//! mode an endpoint takes only its default number of channels, so that stays as it is.
use crate::config::{
    common_rates, BufferSize, ChannelCount, SampleFormat, SampleRate, StreamConfig, SupportedStreamConfig,
    SupportedStreamConfigRange,
};
use crate::error::{
    comes_from, hresult_is_err, windows_err_to_cpal_err, BackendSpecificError,
    ErrDeviceNotAvailable, SupportedStreamConfigsError, AUDCLNT_E_DEVICE_INVALIDATED, S_FALSE,
};
use crate::waveformat::{
    config_for, format_from_waveformatex, limits_fit, needs_buffer_limits, WaveFormat,
};
use vstd::prelude::*;

verus! {

/// The endpoint is gone.
pub open spec fn says_gone(result: i32) -> bool {
    result == AUDCLNT_E_DEVICE_INVALIDATED
}

/// The endpoint takes the format exactly as it is. With `S_FALSE` it only takes one that
/// is close to it.
pub open spec fn says_supported(result: i32) -> bool {
    result >= 0 && result != S_FALSE
}

/// Reads the answer of `IsFormatSupported`: whether the endpoint takes the format as it
/// is. An answer that the endpoint is gone is an error, any other failure is a no.
pub fn is_format_supported(result: i32) -> (r: Result<bool, SupportedStreamConfigsError>)
    ensures
        says_gone(result) ==> r == Err::<bool, _>(SupportedStreamConfigsError::DeviceNotAvailable),
        !says_gone(result) ==> r == Ok::<_, SupportedStreamConfigsError>(says_supported(result)),
{
    if result == AUDCLNT_E_DEVICE_INVALIDATED {
        Err(SupportedStreamConfigsError::DeviceNotAvailable)
    } else if hresult_is_err(result) {
        Ok(false)
    } else if result == S_FALSE {
        Ok(false)
    } else {
        Ok(true)
    }
}

/// The sample rates that are tried: the common ones, and the default one where it is not
/// among them.
pub open spec fn tried_rates(common: Seq<SampleRate>, default: SampleRate) -> Seq<SampleRate> {
    if common.contains(default) {
        common
    } else {
        common.push(default)
    }
}

/// Returns the sample rates that are tried.
pub fn candidate_sample_rates(common: Vec<SampleRate>, default: SampleRate) -> (rates: Vec<
    SampleRate,
>)
    ensures
        rates@ == tried_rates(common@, default),
{
    let mut rates: Vec<SampleRate> = common;
    let mut i: usize = 0;
    while i < rates.len()
        invariant
            i <= rates.len(),
            rates@ == common@,
            forall|j: int| 0 <= j < i ==> rates@[j] != default,
        decreases rates.len() - i,
    {
        if rates[i] == default {
            return rates;
        }
        i = i + 1;
    }
    rates.push(default);
    rates
}

/// The sample formats that are tried, in this order.
pub open spec fn tried_formats() -> Seq<SampleFormat> {
    seq![
        SampleFormat::U8,
        SampleFormat::I16,
        SampleFormat::I24,
        SampleFormat::U24,
        SampleFormat::I32,
        SampleFormat::I64,
        SampleFormat::F32,
    ]
}

/// One variation of the default format.
#[derive(Clone, Copy, Debug, PartialEq, Eq, Structural)]
pub struct Candidate {
    pub config: StreamConfig,
    pub sample_format: SampleFormat,
}

/// The variation with the given sample rate and sample format.
pub open spec fn candidate(
    channels: ChannelCount,
    sample_rate: SampleRate,
    sample_format: SampleFormat,
) -> Candidate {
    Candidate {
        config: StreamConfig { channels, sample_rate, buffer_size: BufferSize::Default },
        sample_format,
    }
}

/// All variations: for each sample rate in turn every sample format.
pub open spec fn all_candidates(channels: ChannelCount, rates: Seq<SampleRate>) -> Seq<Candidate> {
    Seq::new(
        rates.len() * 7,
        |i: int| candidate(channels, rates[i / 7], tried_formats()[i % 7]),
    )
}

/// Returns all variations.
pub fn candidates(channels: ChannelCount, rates: &Vec<SampleRate>) -> (r: Vec<Candidate>)
    ensures
        r@ == all_candidates(channels, rates@),
{
    let formats: [SampleFormat; 7] = [
        SampleFormat::U8,
        SampleFormat::I16,
        SampleFormat::I24,
        SampleFormat::U24,
        SampleFormat::I32,
        SampleFormat::I64,
        SampleFormat::F32,
    ];
    assert(formats@ =~= tried_formats());
    let mut r: Vec<Candidate> = Vec::new();
    let mut i: usize = 0;
    while i < rates.len()
        invariant
            i <= rates.len(),
            formats@ == tried_formats(),
            r@.len() == i * 7,
            forall|k: int|
                0 <= k < i * 7 ==> r@[k] == candidate(
                    channels,
                    rates@[k / 7],
                    tried_formats()[k % 7],
                ),
        decreases rates.len() - i,
    {
        let mut j: usize = 0;
        while j < 7
            invariant
                i < rates.len(),
                j <= 7,
                formats@ == tried_formats(),
                r@.len() == i * 7 + j,
                forall|k: int|
                    0 <= k < i * 7 + j ==> r@[k] == candidate(
                        channels,
                        rates@[k / 7],
                        tried_formats()[k % 7],
                    ),
            decreases 7 - j,
        {
            r.push(
                Candidate {
                    config: StreamConfig {
                        channels,
                        sample_rate: rates[i],
                        buffer_size: BufferSize::Default,
                    },
                    sample_format: formats[j],
                },
            );
            j = j + 1;
        }
        i = i + 1;
    }
    assert(r@ =~= all_candidates(channels, rates@));
    r
}

/// What came of putting a variation to the endpoint.
#[derive(Clone, Copy, Debug, PartialEq, Eq, Structural)]
pub enum CandidateReply {
    /// There is no wave format for the variation, so the endpoint was not asked.
    Unrepresentable,
    /// The answer of `IsFormatSupported`.
    Answer(i32),
}

impl CandidateReply {
    /// The endpoint is gone.
    pub open spec fn gone(self) -> bool {
        self matches CandidateReply::Answer(result) && says_gone(result)
    }

    /// The endpoint takes the variation.
    pub open spec fn supported(self) -> bool {
        self matches CandidateReply::Answer(result) && !says_gone(result) && says_supported(result)
    }
}

/// The entry in the list of supported formats for a variation of the default format.
pub open spec fn range_for(
    format: SupportedStreamConfig,
    candidate: Candidate,
) -> SupportedStreamConfigRange {
    SupportedStreamConfigRange {
        channels: format.channels,
        min_sample_rate: candidate.config.sample_rate,
        max_sample_rate: candidate.config.sample_rate,
        buffer_size: format.buffer_size,
        sample_format: candidate.sample_format,
    }
}

/// The variations of a default format, some of them tried already.
pub struct FormatProbe {
    pub format: SupportedStreamConfig,
    pub candidates: Vec<Candidate>,
    pub position: usize,
    pub supported: Vec<SupportedStreamConfigRange>,
}

/// A `FormatProbe` as a mathematical value.
pub struct ProbeView {
    pub format: SupportedStreamConfig,
    pub candidates: Seq<Candidate>,
    pub position: int,
    pub supported: Seq<SupportedStreamConfigRange>,
}

impl View for FormatProbe {
    type V = ProbeView;

    open spec fn view(&self) -> ProbeView {
        ProbeView {
            format: self.format,
            candidates: self.candidates@,
            position: self.position as int,
            supported: self.supported@,
        }
    }
}

/// Nothing tried yet.
pub open spec fn probe_start(
    common: Seq<SampleRate>,
    format: SupportedStreamConfig,
) -> ProbeView {
    ProbeView {
        format,
        candidates: all_candidates(format.channels, tried_rates(common, format.sample_rate)),
        position: 0,
        supported: Seq::empty(),
    }
}

/// The next variation is tried, and was found supported or not.
pub open spec fn probe_advance(probe: ProbeView, reply: CandidateReply) -> ProbeView {
    ProbeView {
        position: probe.position + 1,
        supported: if reply.supported() {
            probe.supported.push(range_for(probe.format, probe.candidates[probe.position]))
        } else {
            probe.supported
        },
        ..probe
    }
}

/// `entry` is the entry of one of the variations tried so far.
pub open spec fn is_entry_of_tried(probe: ProbeView, entry: SupportedStreamConfigRange) -> bool {
    exists|i: int|
        0 <= i < probe.position && entry == range_for(probe.format, #[trigger] probe.candidates[i])
}

impl FormatProbe {
    /// No more variations were tried than there are, and what is listed as supported are
    /// entries of variations that were tried.
    pub open spec fn wf(self) -> bool {
        &&& self.position <= self.candidates@.len()
        &&& forall|j: int|
            0 <= j < self.supported@.len() ==> is_entry_of_tried(
                self@,
                #[trigger] self.supported@[j],
            )
    }

    /// Starts with the first variation.
    pub fn new(common: Vec<SampleRate>, format: SupportedStreamConfig) -> (r: FormatProbe)
        ensures
            r.wf(),
            r@ == probe_start(common@, format),
            r.candidates@.len() > 0,
    {
        let rates: Vec<SampleRate> = candidate_sample_rates(common, format.sample_rate);
        let candidates: Vec<Candidate> = candidates(format.channels, &rates);
        proof {
            lemma_default_rate_tried(common@, format.sample_rate);
        }
        FormatProbe { format, candidates, position: 0, supported: Vec::new() }
    }

    /// Returns the variation to try next.
    pub fn next_candidate(&self) -> (r: Option<Candidate>)
        ensures
            r == (if self.position < self.candidates@.len() {
                Some(self.candidates@[self.position as int])
            } else {
                None
            }),
    {
        if self.position < self.candidates.len() {
            Some(self.candidates[self.position])
        } else {
            None
        }
    }

    /// Takes in what came of trying the next variation. Where the endpoint is gone, that
    /// is the error, and nothing changes.
    pub fn answer(&mut self, reply: CandidateReply) -> (r: Result<(), SupportedStreamConfigsError>)
        requires
            old(self).wf(),
            old(self).position < old(self).candidates@.len(),
        ensures
            final(self).wf(),
            reply.gone() ==> r == Err::<(), _>(SupportedStreamConfigsError::DeviceNotAvailable)
                && *final(self) == *old(self),
            !reply.gone() ==> r == Ok::<_, SupportedStreamConfigsError>(()) && final(self)@
                == probe_advance(old(self)@, reply),
    {
        let accepted: bool = match reply {
            CandidateReply::Unrepresentable => false,
            CandidateReply::Answer(result) => match is_format_supported(result) {
                Ok(supported) => supported,
                Err(err) => {
                    return Err(err);
                },
            },
        };
        if accepted {
            let candidate: Candidate = self.candidates[self.position];
            self.supported.push(
                SupportedStreamConfigRange {
                    channels: self.format.channels,
                    min_sample_rate: candidate.config.sample_rate,
                    max_sample_rate: candidate.config.sample_rate,
                    buffer_size: self.format.buffer_size,
                    sample_format: candidate.sample_format,
                },
            );
        }
        assert(self.position < self.candidates.len());
        self.position = self.position + 1;
        proof {
            let before = old(self)@;
            let place = before.position;
            assert forall|j: int| 0 <= j < self.supported@.len() implies is_entry_of_tried(
                self@,
                #[trigger] self.supported@[j],
            ) by {
                let entry = self.supported@[j];
                if j < before.supported.len() {
                    assert(entry == before.supported[j]);
                    assert(is_entry_of_tried(before, old(self).supported@[j]));
                    let i = choose|i: int|
                        0 <= i < place && entry == range_for(
                            before.format,
                            #[trigger] before.candidates[i],
                        );
                    assert(self@.candidates[i] == before.candidates[i]);
                } else {
                    assert(entry == range_for(before.format, self@.candidates[place]));
                }
            }
        }
        Ok(())
    }
}

/// The query for the supported formats of an endpoint, as far as it has come. Each state
/// but the last waits for one answer of the system.
pub enum SupportedFormats {
    /// Waits for the format that the audio engine mixes in.
    MixFormat { common: Vec<SampleRate> },
    /// Waits for whether the endpoint takes that format.
    DefaultSupport { common: Vec<SampleRate>, wave: WaveFormat },
    /// Waits for the limits that the hardware sets on the buffer's duration.
    BufferLimits { common: Vec<SampleRate>, wave: WaveFormat },
    /// Waits for what comes of the next variation of that format.
    Probing { probe: FormatProbe },
    /// Has the list, or the reason why there is none.
    Finished { result: Result<Vec<SupportedStreamConfigRange>, SupportedStreamConfigsError> },
}

/// What the query needs to know next.
#[derive(Clone, Copy, Debug, PartialEq, Eq, Structural)]
pub enum FormatsAction {
    /// Get an audio client of the endpoint, and the mix format of it.
    GetMixFormat,
    /// Put the mix format to the endpoint.
    CheckMixFormat,
    /// Get the limits of the buffer's duration for the mix format.
    GetBufferSizeLimits,
    /// Put a variation to the endpoint.
    CheckCandidate { candidate: Candidate },
    /// Nothing more.
    Finish,
}

/// An answer of the system.
pub enum FormatsEvent {
    /// The mix format, or the error of the client or of the mix format.
    MixFormat { mix: Result<WaveFormat, windows_core::Error> },
    /// The answer of `IsFormatSupported` for the mix format.
    MixFormatChecked { result: i32 },
    /// The least and the greatest duration of a buffer, where there are limits.
    BufferSizeLimits { limits: Option<(i64, i64)> },
    /// What came of a variation.
    CandidateChecked { reply: CandidateReply },
}

/// The words of the error where the endpoint does not take its own mix format.
pub open spec fn default_unsupported_text() -> Seq<char> {
    "Could not determine support for default `WAVEFORMATEX`"@
}

/// The words of the error where the mix format has samples that streams cannot have.
pub open spec fn default_unknown_text() -> Seq<char> {
    "could not create a `cpal::SupportedStreamConfig` from a `WAVEFORMATEX`"@
}

/// The query failed, with these words of the backend.
pub open spec fn failed_with(state: SupportedFormats, text: Seq<char>) -> bool {
    state matches SupportedFormats::Finished { result: Err(err) } && err.backend_description()
        == Some(text)
}

/// The query failed because the endpoint is gone.
pub open spec fn failed_gone(state: SupportedFormats) -> bool {
    state matches SupportedFormats::Finished {
        result: Err(SupportedStreamConfigsError::DeviceNotAvailable),
    }
}

/// The query goes on with the variations, or has them all and lists those that are
/// supported.
pub open spec fn probing_at(state: SupportedFormats, probe: ProbeView) -> bool {
    if probe.position < probe.candidates.len() {
        state matches SupportedFormats::Probing { probe: p } && p@ == probe
    } else {
        state matches SupportedFormats::Finished { result: Ok(list) } && list@ == probe.supported
    }
}

impl SupportedFormats {
    /// What the query holds is in order.
    pub open spec fn wf(self) -> bool {
        match self {
            SupportedFormats::DefaultSupport { common, wave } => wave.wf(),
            SupportedFormats::BufferLimits { common, wave } => wave.wf()
                && wave.spec_sample_format() is Some,
            SupportedFormats::Probing { probe } => probe.wf() && probe.position
                < probe.candidates@.len(),
            _ => true,
        }
    }

    /// What the query needs to know next.
    pub open spec fn spec_action(self) -> FormatsAction {
        match self {
            SupportedFormats::MixFormat { common } => FormatsAction::GetMixFormat,
            SupportedFormats::DefaultSupport { common, wave } => FormatsAction::CheckMixFormat,
            SupportedFormats::BufferLimits { common, wave } => FormatsAction::GetBufferSizeLimits,
            SupportedFormats::Probing { probe } => FormatsAction::CheckCandidate {
                candidate: probe.candidates@[probe.position as int],
            },
            SupportedFormats::Finished { result } => FormatsAction::Finish,
        }
    }

    /// The answer is one to what the query needs to know.
    pub open spec fn awaits(self, event: FormatsEvent) -> bool {
        match event {
            FormatsEvent::MixFormat { mix } => self is MixFormat && (mix matches Ok(wave)
                ==> wave.wf()),
            FormatsEvent::MixFormatChecked { result } => self is DefaultSupport,
            FormatsEvent::BufferSizeLimits { limits } => self matches SupportedFormats::BufferLimits {
                common,
                wave,
            } && limits_fit(limits, wave.samples_per_sec),
            FormatsEvent::CandidateChecked { reply } => self is Probing,
        }
    }

    /// `next` is where the answer takes the query.
    pub open spec fn leads_to(self, event: FormatsEvent, next: SupportedFormats) -> bool {
        match (self, event) {
            (
                SupportedFormats::MixFormat { common },
                FormatsEvent::MixFormat { mix: Ok(wave) },
            ) => next == (SupportedFormats::DefaultSupport { common, wave }),
            (SupportedFormats::MixFormat { common }, FormatsEvent::MixFormat { mix: Err(e) }) => {
                next matches SupportedFormats::Finished { result: Err(err) } && comes_from(err, e)
            },
            (
                SupportedFormats::DefaultSupport { common, wave },
                FormatsEvent::MixFormatChecked { result },
            ) => {
                if says_gone(result) {
                    failed_gone(next)
                } else if !says_supported(result) {
                    failed_with(next, default_unsupported_text())
                } else if wave.spec_sample_format() is None {
                    failed_with(next, default_unknown_text())
                } else {
                    next == (SupportedFormats::BufferLimits { common, wave })
                }
            },
            (
                SupportedFormats::BufferLimits { common, wave },
                FormatsEvent::BufferSizeLimits { limits },
            ) => probing_at(next, probe_start(common@, config_for(wave, limits)->0)),
            (SupportedFormats::Probing { probe }, FormatsEvent::CandidateChecked { reply }) => {
                if reply.gone() {
                    failed_gone(next)
                } else {
                    probing_at(next, probe_advance(probe@, reply))
                }
            },
            _ => false,
        }
    }

    /// Starts a query that tries the given sample rates besides the default one.
    pub fn new(common: Vec<SampleRate>) -> (r: SupportedFormats)
        ensures
            r.wf(),
            r == (SupportedFormats::MixFormat { common }),
    {
        SupportedFormats::MixFormat { common }
    }

    /// Tells what the query needs to know next.
    pub fn action(&self) -> (r: FormatsAction)
        requires
            self.wf(),
        ensures
            r == self.spec_action(),
    {
        match self {
            SupportedFormats::MixFormat { .. } => FormatsAction::GetMixFormat,
            SupportedFormats::DefaultSupport { .. } => FormatsAction::CheckMixFormat,
            SupportedFormats::BufferLimits { .. } => FormatsAction::GetBufferSizeLimits,
            SupportedFormats::Probing { probe } => match probe.next_candidate() {
                Some(candidate) => FormatsAction::CheckCandidate { candidate },
                None => FormatsAction::Finish,
            },
            SupportedFormats::Finished { .. } => FormatsAction::Finish,
        }
    }

    /// A query that failed with the given words.
    fn failed(text: &str) -> (r: SupportedFormats)
        ensures
            r.wf(),
            failed_with(r, text@),
    {
        let err = BackendSpecificError { description: text.to_owned() };
        SupportedFormats::Finished { result: Err(SupportedStreamConfigsError::from(err)) }
    }

    /// The state for a probe that may have come to its end.
    fn probing(probe: FormatProbe) -> (r: SupportedFormats)
        requires
            probe.wf(),
        ensures
            r.wf(),
            probing_at(r, probe@),
    {
        if probe.position < probe.candidates.len() {
            SupportedFormats::Probing { probe }
        } else {
            SupportedFormats::Finished { result: Ok(probe.supported) }
        }
    }

    /// Takes in an answer of the system.
    pub fn step(self, event: FormatsEvent) -> (next: SupportedFormats)
        requires
            self.wf(),
            self.awaits(event),
        ensures
            next.wf(),
            self.leads_to(event, next),
    {
        match (self, event) {
            (SupportedFormats::MixFormat { common }, FormatsEvent::MixFormat { mix }) => match mix {
                Ok(wave) => SupportedFormats::DefaultSupport { common, wave },
                Err(e) => SupportedFormats::Finished {
                    result: Err(windows_err_to_cpal_err::<SupportedStreamConfigsError>(e)),
                },
            },
            (
                SupportedFormats::DefaultSupport { common, wave },
                FormatsEvent::MixFormatChecked { result },
            ) => match is_format_supported(result) {
                Err(err) => SupportedFormats::Finished { result: Err(err) },
                Ok(false) => SupportedFormats::failed(
                    "Could not determine support for default `WAVEFORMATEX`",
                ),
                Ok(true) => if needs_buffer_limits(&wave) {
                    SupportedFormats::BufferLimits { common, wave }
                } else {
                    SupportedFormats::failed(
                        "could not create a `cpal::SupportedStreamConfig` from a `WAVEFORMATEX`",
                    )
                },
            },
            (
                SupportedFormats::BufferLimits { common, wave },
                FormatsEvent::BufferSizeLimits { limits },
            ) => match format_from_waveformatex(&wave, limits) {
                Some(format) => SupportedFormats::probing(FormatProbe::new(common, format)),
                None => SupportedFormats::failed(
                    "could not create a `cpal::SupportedStreamConfig` from a `WAVEFORMATEX`",
                ),
            },
            (SupportedFormats::Probing { probe }, FormatsEvent::CandidateChecked { reply }) => {
                let mut probe: FormatProbe = probe;
                match probe.answer(reply) {
                    Ok(()) => SupportedFormats::probing(probe),
                    Err(err) => SupportedFormats::Finished { result: Err(err) },
                }
            },
            (state, _) => state,
        }
    }
}

/// A query after some answers about variations: still going on, done with a list, or
/// failed because the endpoint is gone.
pub enum ProbeOutcome {
    Next(ProbeView),
    Listed(Seq<SupportedStreamConfigRange>),
    Gone,
}

/// The outcome of one answer.
pub open spec fn probe_step(probe: ProbeView, reply: CandidateReply) -> ProbeOutcome {
    let after = probe_advance(probe, reply);
    if reply.gone() {
        ProbeOutcome::Gone
    } else if after.position < after.candidates.len() {
        ProbeOutcome::Next(after)
    } else {
        ProbeOutcome::Listed(after.supported)
    }
}

/// The outcome of answers that come one after the other. None are taken in once the query
/// is at its end.
pub open spec fn probe_run(probe: ProbeView, replies: Seq<CandidateReply>) -> ProbeOutcome
    decreases replies.len(),
{
    if replies.len() == 0 {
        ProbeOutcome::Next(probe)
    } else {
        match probe_run(probe, replies.drop_last()) {
            ProbeOutcome::Next(p) => probe_step(p, replies.last()),
            end => end,
        }
    }
}

/// The state of a query is the outcome of the answers so far.
pub open spec fn state_is(state: SupportedFormats, outcome: ProbeOutcome) -> bool {
    match outcome {
        ProbeOutcome::Next(probe) => state matches SupportedFormats::Probing { probe: p } && p@
            == probe,
        ProbeOutcome::Listed(list) => state matches SupportedFormats::Finished { result: Ok(l) }
            && l@ == list,
        ProbeOutcome::Gone => failed_gone(state),
    }
}

/// The entries for the variations that were answered with a yes, in the order in which
/// they were tried.
pub open spec fn accepted(
    format: SupportedStreamConfig,
    candidates: Seq<Candidate>,
    replies: Seq<CandidateReply>,
) -> Seq<SupportedStreamConfigRange>
    decreases replies.len(),
{
    if replies.len() == 0 {
        Seq::empty()
    } else {
        let before = accepted(format, candidates, replies.drop_last());
        if replies.last().supported() {
            before.push(range_for(format, candidates[replies.len() - 1]))
        } else {
            before
        }
    }
}

/// Each answer takes a query that tries variations to the outcome of that answer.
pub proof fn lemma_step_is_probe_step(
    state: SupportedFormats,
    probe: ProbeView,
    reply: CandidateReply,
    next: SupportedFormats,
)
    requires
        state_is(state, ProbeOutcome::Next(probe)),
        state.leads_to(FormatsEvent::CandidateChecked { reply }, next),
    ensures
        state_is(next, probe_step(probe, reply)),
{
}

/// A query that takes in answers about variations one after the other is, after all of
/// them, in the state that is their outcome. `states` are the states it goes through.
pub proof fn lemma_query_follows_answers(
    probe: ProbeView,
    states: Seq<SupportedFormats>,
    replies: Seq<CandidateReply>,
)
    requires
        states.len() == replies.len() + 1,
        state_is(states[0], ProbeOutcome::Next(probe)),
        forall|i: int|
            0 <= i < replies.len() ==> (#[trigger] states[i]).leads_to(
                FormatsEvent::CandidateChecked { reply: replies[i] },
                states[i + 1],
            ),
    ensures
        state_is(states.last(), probe_run(probe, replies)),
    decreases replies.len(),
{
    if replies.len() > 0 {
        let n = replies.len() as int;
        let before = states.drop_last();
        assert forall|i: int| 0 <= i < n - 1 implies (#[trigger] before[i]).leads_to(
            FormatsEvent::CandidateChecked { reply: replies.drop_last()[i] },
            before[i + 1],
        ) by {
            assert(before[i] == states[i] && before[i + 1] == states[i + 1]);
        }
        lemma_query_follows_answers(probe, before, replies.drop_last());
        let last = states[n - 1];
        assert(last.leads_to(
            FormatsEvent::CandidateChecked { reply: replies[n - 1] },
            states[n - 1 + 1],
        ));
        match probe_run(probe, replies.drop_last()) {
            ProbeOutcome::Next(p) => {
                lemma_step_is_probe_step(last, p, replies.last(), states.last());
            },
            _ => {},
        }
    }
}

/// As long as the endpoint is not gone, the query holds the entries of the variations
/// that were answered with a yes, and it has tried one variation for each answer.
pub proof fn lemma_probe_collects(probe: ProbeView, replies: Seq<CandidateReply>)
    requires
        probe.position == 0,
        probe.supported.len() == 0,
        replies.len() < probe.candidates.len(),
        forall|i: int| 0 <= i < replies.len() ==> !(#[trigger] replies[i]).gone(),
    ensures
        probe_run(probe, replies) == ProbeOutcome::Next(
            ProbeView {
                position: replies.len() as int,
                supported: accepted(probe.format, probe.candidates, replies),
                ..probe
            },
        ),
    decreases replies.len(),
{
    if replies.len() == 0 {
        assert(probe.supported =~= accepted(probe.format, probe.candidates, replies));
    } else {
        let before = replies.drop_last();
        assert forall|i: int| 0 <= i < before.len() implies !(#[trigger] before[i]).gone() by {
            assert(before[i] == replies[i]);
        }
        lemma_probe_collects(probe, before);
        assert(!replies[replies.len() - 1].gone());
    }
}

/// A query in which the endpoint answers for every variation ends with the list of those
/// that it takes, each once for each time it was tried, in the order in which they were
/// tried.
pub proof fn lemma_list_is_what_was_accepted(
    common: Seq<SampleRate>,
    format: SupportedStreamConfig,
    replies: Seq<CandidateReply>,
)
    requires
        replies.len() == probe_start(common, format).candidates.len(),
        forall|i: int| 0 <= i < replies.len() ==> !(#[trigger] replies[i]).gone(),
    ensures
        probe_run(probe_start(common, format), replies) == ProbeOutcome::Listed(
            accepted(format, probe_start(common, format).candidates, replies),
        ),
{
    let probe = probe_start(common, format);
    lemma_default_rate_tried(common, format.sample_rate);
    let before = replies.drop_last();
    assert forall|i: int| 0 <= i < before.len() implies !(#[trigger] before[i]).gone() by {
        assert(before[i] == replies[i]);
    }
    lemma_probe_collects(probe, before);
    assert(!replies[replies.len() - 1].gone());
}

/// The query fails with the first answer that the endpoint is gone, whatever was
/// supported before, and no later answer changes that.
pub proof fn lemma_gone_ends_query(
    common: Seq<SampleRate>,
    format: SupportedStreamConfig,
    replies: Seq<CandidateReply>,
    first: int,
)
    requires
        0 <= first < replies.len() <= probe_start(common, format).candidates.len(),
        replies[first].gone(),
        forall|i: int| 0 <= i < first ==> !(#[trigger] replies[i]).gone(),
    ensures
        probe_run(probe_start(common, format), replies) == ProbeOutcome::Gone,
    decreases replies.len(),
{
    let before = replies.drop_last();
    if first == replies.len() - 1 {
        assert forall|i: int| 0 <= i < before.len() implies !(#[trigger] before[i]).gone() by {
            assert(before[i] == replies[i]);
        }
        lemma_probe_collects(probe_start(common, format), before);
    } else {
        assert forall|i: int| 0 <= i < first implies !(#[trigger] before[i]).gone() by {
            assert(before[i] == replies[i]);
        }
        lemma_gone_ends_query(common, format, before, first);
    }
}

/// An entry is in the list exactly where some variation with that entry was answered with
/// a yes.
pub proof fn lemma_accepted_iff(
    format: SupportedStreamConfig,
    candidates: Seq<Candidate>,
    replies: Seq<CandidateReply>,
    entry: SupportedStreamConfigRange,
)
    requires
        replies.len() <= candidates.len(),
    ensures
        accepted(format, candidates, replies).contains(entry) <==> exists|i: int|
            0 <= i < replies.len() && (#[trigger] replies[i]).supported() && entry == range_for(
                format,
                candidates[i],
            ),
    decreases replies.len(),
{
    if replies.len() > 0 {
        let before = replies.drop_last();
        let last = replies.len() - 1;
        let list = accepted(format, candidates, replies);
        let list_before = accepted(format, candidates, before);
        lemma_accepted_iff(format, candidates, before, entry);
        if list.contains(entry) {
            let k = choose|k: int| 0 <= k < list.len() && list[k] == entry;
            if k < list_before.len() {
                assert(list_before[k] == entry);
                let i = choose|i: int|
                    0 <= i < before.len() && (#[trigger] before[i]).supported() && entry
                        == range_for(format, candidates[i]);
                assert(replies[i] == before[i]);
            } else {
                assert(replies[last].supported());
            }
        }
        if exists|i: int|
            0 <= i < replies.len() && (#[trigger] replies[i]).supported() && entry == range_for(
                format,
                candidates[i],
            ) {
            let i = choose|i: int|
                0 <= i < replies.len() && (#[trigger] replies[i]).supported() && entry
                    == range_for(format, candidates[i]);
            if i < last {
                assert(before[i] == replies[i]);
                let k = choose|k: int| 0 <= k < list_before.len() && list_before[k] == entry;
                assert(list[k] == entry);
            } else {
                assert(list[list_before.len() as int] == entry);
            }
        }
    }
}

/// Whatever the endpoint answers, an entry of the list has the channels and the buffer
/// size of the default format, exactly one sample rate, which is one of those that are
/// tried, and one of the sample formats that are tried.
pub proof fn lemma_entries_vary_the_default(
    common: Seq<SampleRate>,
    format: SupportedStreamConfig,
    replies: Seq<CandidateReply>,
    entry: SupportedStreamConfigRange,
)
    requires
        replies.len() <= probe_start(common, format).candidates.len(),
        accepted(format, probe_start(common, format).candidates, replies).contains(entry),
    ensures
        entry.channels == format.channels,
        entry.buffer_size == format.buffer_size,
        entry.min_sample_rate == entry.max_sample_rate,
        tried_rates(common, format.sample_rate).contains(entry.min_sample_rate),
        tried_formats().contains(entry.sample_format),
{
    let candidates = probe_start(common, format).candidates;
    let rates = tried_rates(common, format.sample_rate);
    lemma_accepted_iff(format, candidates, replies, entry);
    let i = choose|i: int|
        0 <= i < replies.len() && (#[trigger] replies[i]).supported() && entry == range_for(
            format,
            candidates[i],
        );
    assert(candidates[i] == candidate(format.channels, rates[i / 7], tried_formats()[i % 7]));
    assert(rates[i / 7] == entry.min_sample_rate);
    assert(tried_formats()[i % 7] == entry.sample_format);
}

/// Every sample rate is tried with every sample format.
pub proof fn lemma_every_variation_tried(
    channels: ChannelCount,
    rates: Seq<SampleRate>,
    sample_rate: SampleRate,
    sample_format: SampleFormat,
)
    requires
        rates.contains(sample_rate),
        tried_formats().contains(sample_format),
    ensures
        all_candidates(channels, rates).contains(candidate(channels, sample_rate, sample_format)),
{
    let r = choose|r: int| 0 <= r < rates.len() && rates[r] == sample_rate;
    let f = choose|f: int| 0 <= f < tried_formats().len() && tried_formats()[f] == sample_format;
    let i = r * 7 + f;
    assert(i / 7 == r && i % 7 == f);
    assert(all_candidates(channels, rates)[i] == candidate(channels, sample_rate, sample_format));
}

/// No variation is tried twice, where the common sample rates hold none twice.
pub proof fn lemma_no_variation_twice(
    channels: ChannelCount,
    common: Seq<SampleRate>,
    default: SampleRate,
)
    requires
        common.no_duplicates(),
    ensures
        all_candidates(channels, tried_rates(common, default)).no_duplicates(),
{
    let rates = tried_rates(common, default);
    let all = all_candidates(channels, rates);
    assert forall|i: int, j: int| 0 <= i < j < rates.len() implies rates[i] != rates[j] by {
        if j == common.len() {
            assert(common.contains(rates[i]));
        }
    }
    assert forall|i: int, j: int| 0 <= i < j < all.len() implies all[i] != all[j] by {
        if all[i] == all[j] {
            assert(rates[i / 7] == rates[j / 7]);
            assert(tried_formats()[i % 7] == tried_formats()[j % 7]);
            if i / 7 < j / 7 {
                assert(rates[i / 7] != rates[j / 7]);
            }
            assert(i / 7 == j / 7);
            assert(i % 7 != j % 7);
        }
    }
}

/// No two entries of the list have both the same sample rate and the same sample format,
/// where the common sample rates hold none twice.
pub proof fn lemma_no_entry_twice(
    common: Seq<SampleRate>,
    format: SupportedStreamConfig,
    replies: Seq<CandidateReply>,
    i: int,
    j: int,
)
    requires
        common.no_duplicates(),
        replies.len() <= probe_start(common, format).candidates.len(),
        0 <= i < j < accepted(format, probe_start(common, format).candidates, replies).len(),
    ensures
        ({
            let list = accepted(format, probe_start(common, format).candidates, replies);
            list[i].min_sample_rate != list[j].min_sample_rate || list[i].sample_format
                != list[j].sample_format
        }),
    decreases replies.len(),
{
    let candidates = probe_start(common, format).candidates;
    let list = accepted(format, candidates, replies);
    let before = replies.drop_last();
    let list_before = accepted(format, candidates, before);
    if j < list_before.len() {
        lemma_no_entry_twice(common, format, before, i, j);
    } else {
        let last = replies.len() - 1;
        assert(list[j] == range_for(format, candidates[last]));
        assert(list_before.contains(list[i])) by {
            assert(list_before[i] == list[i]);
        }
        lemma_accepted_iff(format, candidates, before, list[i]);
        let k = choose|k: int|
            0 <= k < before.len() && (#[trigger] before[k]).supported() && list[i] == range_for(
                format,
                candidates[k],
            );
        lemma_no_variation_twice(format.channels, common, format.sample_rate);
        assert(candidates[k] != candidates[last]);
    }
}

/// The common sample rates hold none twice.
pub proof fn lemma_common_rates_distinct()
    ensures
        common_rates().no_duplicates(),
{
}

/// How far a query is from its end: the answers before the variations, and the
/// variations.
pub open spec fn still_to_answer(state: SupportedFormats) -> (nat, nat) {
    match state {
        SupportedFormats::MixFormat { common } => (4, 0),
        SupportedFormats::DefaultSupport { common, wave } => (3, 0),
        SupportedFormats::BufferLimits { common, wave } => (2, 0),
        SupportedFormats::Probing { probe } => (
            1,
            (probe.candidates@.len() - probe.position) as nat,
        ),
        SupportedFormats::Finished { result } => (0, 0),
    }
}

/// Every answer brings a query closer to its end, so it ends, whatever the answers are.
pub proof fn lemma_query_ends(
    state: SupportedFormats,
    event: FormatsEvent,
    next: SupportedFormats,
)
    requires
        state.wf(),
        state.awaits(event),
        state.leads_to(event, next),
    ensures
        still_to_answer(next).0 < still_to_answer(state).0 || (still_to_answer(next).0
            == still_to_answer(state).0 && still_to_answer(next).1 < still_to_answer(state).1),
{
}

/// A finished query awaits nothing, and any other awaits some answer.
pub proof fn lemma_only_finished_awaits_nothing(state: SupportedFormats)
    requires
        state.wf(),
    ensures
        state is Finished <==> forall|event: FormatsEvent| !state.awaits(event),
{
    if state is MixFormat {
        let w = WaveFormat {
            format_tag: 0,
            channels: 0,
            samples_per_sec: 0,
            bits_per_sample: 0,
            sub_format: None,
        };
        assert(state.awaits(FormatsEvent::MixFormat { mix: Ok(w) }));
    } else if state is DefaultSupport {
        assert(state.awaits(FormatsEvent::MixFormatChecked { result: 0 }));
    } else if state is BufferLimits {
        assert(state.awaits(FormatsEvent::BufferSizeLimits { limits: None }));
    } else if state is Probing {
        assert(state.awaits(
            FormatsEvent::CandidateChecked { reply: CandidateReply::Unrepresentable },
        ));
    }
}

/// The default sample rate is always tried.
pub proof fn lemma_default_rate_tried(common: Seq<SampleRate>, default: SampleRate)
    ensures
        tried_rates(common, default).contains(default),
        tried_rates(common, default).len() > 0,
{
    if !common.contains(default) {
        assert(common.push(default)[common.len() as int] == default);
    }
}

} // verus!
