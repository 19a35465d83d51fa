//! The orchestrator: the providers of a configuration, the order in which
//! a group's providers are tried, and what to do after each attempt.

use crate::config::settings::{Config, ProviderConfig};
use crate::models::upload_request::{UploadRequest, UploadType};
use crate::models::upload_response::UploadResponse;
use crate::orchestrator::provider::{
    create_provider, is_provider_for, kind_of_name, Provider, ProviderKind,
};
use crate::providers::bunny::MAX_SIZE_MB;
use crate::providers::upload_trait::{check_file_size, UploadError};
use crate::text::{lowercased, str_eq};
use vstd::arithmetic::power2::{lemma_pow2_strictly_increases, lemma_pow2_unfold, pow2};
use vstd::prelude::*;

verus! {

/// The providers that are set up, and the settings for trying them.
pub struct UploadOrchestrator {
    /// The providers that the configuration gives, in its order.
    pub providers: Vec<Provider>,
    /// For each provider, the name under which it is configured and its
    /// place among the providers.
    pub provider_names: Vec<(String, usize)>,
    pub config: Config,
    pub max_retries: u32,
    pub retry_delay_ms: u64,
    pub timeout_seconds: u64,
}

/// What to do after a failed attempt.
#[derive(Debug, Clone, Copy, PartialEq, Eq, Structural)]
pub enum RetryStep {
    /// Wait for `delay_ms` milliseconds and try again; `retries` attempts
    /// have then been repeated.
    Wait { delay_ms: u64, retries: u32 },
    /// Give up with the error of the last attempt.
    GiveUp,
}

/// Whether a configured entry gives a provider: its name stands for a kind,
/// and SFTP and Bunny are configured as what they are.
pub open spec fn gives_provider(entry: (String, ProviderConfig)) -> bool {
    match kind_of_name(lowercased(entry.0@)) {
        None => false,
        Some(ProviderKind::Ftp) => entry.1 is FtpSftp,
        Some(ProviderKind::Bunny) => entry.1 is Bunny,
        Some(_) => true,
    }
}

/// The places, among the first `upto` configured entries, of those that
/// give a provider.
pub open spec fn provider_places(entries: Seq<(String, ProviderConfig)>, upto: int) -> Seq<int>
    decreases upto,
{
    if upto <= 0 {
        Seq::empty()
    } else if gives_provider(entries[upto - 1]) {
        provider_places(entries, upto - 1).push(upto - 1)
    } else {
        provider_places(entries, upto - 1)
    }
}

/// The place of the provider configured under `name`, going by the first
/// `upto` names, or -1.
pub open spec fn place_of(names: Seq<(String, usize)>, name: Seq<char>, upto: int) -> int
    decreases upto,
{
    if upto <= 0 {
        -1
    } else if place_of(names, name, upto - 1) >= 0 {
        place_of(names, name, upto - 1)
    } else if names[upto - 1].0@ == name {
        names[upto - 1].1 as int
    } else {
        -1
    }
}

/// The places of the providers to try, among the first `upto` of a
/// selection: those that are there under the selected name and take the
/// kind of upload.
pub open spec fn places_to_try(
    providers: Seq<Provider>,
    names: Seq<(String, usize)>,
    selection: Seq<(Seq<char>, ProviderConfig)>,
    upload_type: UploadType,
    upto: int,
) -> Seq<usize>
    decreases upto,
{
    if upto <= 0 {
        Seq::empty()
    } else {
        let before = places_to_try(providers, names, selection, upload_type, upto - 1);
        let at = place_of(names, selection[upto - 1].0, names.len() as int);
        if 0 <= at < providers.len() && providers[at].supports(upload_type) {
            before.push(at as usize)
        } else {
            before
        }
    }
}

/// The first place among the first `upto` providers whose provider is
/// known by `name`, or -1.
pub open spec fn place_by_provider_name(providers: Seq<Provider>, name: Seq<char>, upto: int) -> int
    decreases upto,
{
    if upto <= 0 {
        -1
    } else if place_by_provider_name(providers, name, upto - 1) >= 0 {
        place_by_provider_name(providers, name, upto - 1)
    } else if providers[upto - 1].name() == name {
        upto - 1
    } else {
        -1
    }
}

/// The delay before repeating an attempt for the `retries`-th time: the
/// configured delay, doubled with every repetition.
pub open spec fn backoff(retry_delay_ms: u64, retries: u32) -> int {
    retry_delay_ms * pow2(retries as nat)
}

impl UploadOrchestrator {
    /// Whether every name points at a provider.
    pub open spec fn wf(self) -> bool {
        forall|i: int|
            0 <= i < self.provider_names@.len() ==> (#[trigger] self.provider_names@[i]).1
                < self.providers@.len()
    }

    /// Whether the providers are those that `config` gives: one for each
    /// entry that gives one, in the order of the entries, each under the
    /// name of its entry.
    pub open spec fn made_from(self, config: Config) -> bool {
        let places = provider_places(config.providers@, config.providers@.len() as int);
        &&& self.providers@.len() == places.len()
        &&& self.provider_names@.len() == places.len()
        &&& forall|k: int|
            0 <= k < places.len() ==> {
                let entry = config.providers@[#[trigger] places[k]];
                &&& self.provider_names@[k].0@ == entry.0@
                &&& self.provider_names@[k].1 == k
                &&& is_provider_for(
                    Some(self.providers@[k]),
                    kind_of_name(lowercased(entry.0@)),
                    entry.1,
                    config.general.timeout_seconds,
                )
            }
    }

    /// Sets the orchestrator up for a configuration: makes each provider
    /// that the configuration names and takes over its retry settings. The
    /// size limit of a server of one's own has to be one whose number of
    /// bytes fits 64 bits.
    pub fn new(config: Config) -> (r: Self)
        requires
            forall|i: int|
                0 <= i < config.providers@.len() ==> ((
                #[trigger] config.providers@[i]).1 matches ProviderConfig::FtpSftp(c)
                    ==> c.max_file_size_mb <= MAX_SIZE_MB),
        ensures
            r.wf(),
            r.made_from(config),
            r.config == config,
            r.max_retries == config.general.max_retries,
            r.retry_delay_ms == config.general.retry_delay_ms,
            r.timeout_seconds == config.general.timeout_seconds,
    {
        let mut providers: Vec<Provider> = Vec::new();
        let mut provider_names: Vec<(String, usize)> = Vec::new();
        let timeout_seconds = config.general.timeout_seconds;
        let max_retries = config.general.max_retries;
        let retry_delay_ms = config.general.retry_delay_ms;
        let mut i: usize = 0;
        while i < config.providers.len()
            invariant
                i <= config.providers@.len(),
                timeout_seconds == config.general.timeout_seconds,
                forall|j: int|
                    0 <= j < config.providers@.len() ==> ((
                    #[trigger] config.providers@[j]).1 matches ProviderConfig::FtpSftp(c)
                        ==> c.max_file_size_mb <= MAX_SIZE_MB),
                providers@.len() == provider_places(config.providers@, i as int).len(),
                provider_names@.len() == providers@.len(),
                forall|k: int|
                    0 <= k < provider_names@.len() ==> (#[trigger] provider_names@[k]).1 == k,
                forall|k: int|
                    0 <= k < providers@.len() ==> {
                        let entry = config.providers@[#[trigger] provider_places(
                            config.providers@,
                            i as int,
                        )[k]];
                        &&& provider_names@[k].0@ == entry.0@
                        &&& provider_names@[k].1 == k
                        &&& is_provider_for(
                            Some(providers@[k]),
                            kind_of_name(lowercased(entry.0@)),
                            entry.1,
                            timeout_seconds,
                        )
                    },
            decreases config.providers@.len() - i,
        {
            let name = &config.providers[i].0;
            let provider_config = &config.providers[i].1;
            proof {
                lemma_provider_places_bounded(config.providers@, i as int);
                assert(config.providers@[i as int].1 matches ProviderConfig::FtpSftp(c)
                    ==> c.max_file_size_mb <= MAX_SIZE_MB);
            }
            match create_provider(name.as_str(), provider_config, timeout_seconds) {
                Some(provider) => {
                    let index = providers.len();
                    providers.push(provider);
                    provider_names.push((name.clone(), index));
                },
                None => {},
            }
            i += 1;
        }
        UploadOrchestrator {
            providers,
            provider_names,
            config,
            max_retries,
            retry_delay_ms,
            timeout_seconds,
        }
    }

    /// Looks up the place of the provider configured under `name`.
    pub fn provider_place(&self, name: &str) -> (r: Option<usize>)
        ensures
            ({
                let at = place_of(self.provider_names@, name@, self.provider_names@.len() as int);
                if at >= 0 {
                    r matches Some(place) && place == at
                } else {
                    r.is_none()
                }
            }),
    {
        let mut i: usize = 0;
        while i < self.provider_names.len()
            invariant
                i <= self.provider_names@.len(),
                place_of(self.provider_names@, name@, i as int) == -1,
            decreases self.provider_names@.len() - i,
        {
            if str_eq(self.provider_names[i].0.as_str(), name) {
                proof {
                    lemma_place_of_stays(
                        self.provider_names@,
                        name@,
                        i + 1,
                        self.provider_names@.len() as int,
                    );
                }
                return Some(self.provider_names[i].1);
            }
            i += 1;
        }
        None
    }

    /// Gives the places of the providers to try for a group, in the order
    /// in which to try them: the group's enabled providers that are set up
    /// and take the kind of upload.
    pub fn get_provider_indices_for_group(&self, group: &str, upload_type: UploadType) -> (r: Vec<
        usize,
    >)
        ensures
            r@ == places_to_try(
                self.providers@,
                self.provider_names@,
                self.config.selection(group@),
                upload_type,
                self.config.selection(group@).len() as int,
            ),
            forall|k: int| 0 <= k < r@.len() ==> #[trigger] r@[k] < self.providers@.len(),
    {
        let selection = self.config.get_providers_for_group(group);
        let ghost chosen = self.config.selection(group@);
        let mut out: Vec<usize> = Vec::new();
        let mut i: usize = 0;
        while i < selection.len()
            invariant
                i <= selection@.len(),
                selection@.map_values(
                    |e: (String, &ProviderConfig)| crate::config::settings::selected(e),
                ) == chosen,
                out@ == places_to_try(
                    self.providers@,
                    self.provider_names@,
                    chosen,
                    upload_type,
                    i as int,
                ),
                forall|k: int| 0 <= k < out@.len() ==> #[trigger] out@[k] < self.providers@.len(),
            decreases selection@.len() - i,
        {
            proof {
                assert(chosen[i as int] == crate::config::settings::selected(selection@[i as int]));
                assert(chosen[i as int].0 == selection@[i as int].0@);
            }
            let ghost at = place_of(
                self.provider_names@,
                chosen[i as int].0,
                self.provider_names@.len() as int,
            );
            match self.provider_place(selection[i].0.as_str()) {
                Some(index) => {
                    assert(index == at);
                    if index < self.providers.len() && self.providers[index].supports_upload_type(
                        upload_type,
                    ) {
                        out.push(index);
                    }
                },
                None => {
                    assert(at < 0);
                },
            }
            i += 1;
        }
        out
    }

    /// Finds a provider by the name by which it is known.
    pub fn find_provider(&self, provider_name: &str) -> (r: Option<usize>)
        ensures
            ({
                let at = place_by_provider_name(
                    self.providers@,
                    provider_name@,
                    self.providers@.len() as int,
                );
                if at >= 0 {
                    r matches Some(place) && place == at
                } else {
                    r.is_none()
                }
            }),
            r matches Some(index) ==> index < self.providers@.len(),
    {
        let mut i: usize = 0;
        while i < self.providers.len()
            invariant
                i <= self.providers@.len(),
                place_by_provider_name(self.providers@, provider_name@, i as int) == -1,
            decreases self.providers@.len() - i,
        {
            if str_eq(self.providers[i].provider_name(), provider_name) {
                proof {
                    lemma_place_by_name_stays(
                        self.providers@,
                        provider_name@,
                        i + 1,
                        self.providers@.len() as int,
                    );
                }
                return Some(i);
            }
            i += 1;
        }
        None
    }

    /// Checks a request against the size limit of the provider at `index`,
    /// before anything is sent. The provider's limit has to be one whose
    /// number of bytes fits 64 bits.
    pub fn check_size(&self, index: usize, request: &UploadRequest) -> (r: Result<(), UploadError>)
        requires
            index < self.providers@.len(),
            self.providers@[index as int].wf(),
        ensures
            request.content@.len() <= self.providers@[index as int].size_limit() ==> r.is_ok(),
            request.content@.len() > self.providers@[index as int].size_limit() ==> r == Err::<
                (),
                UploadError,
            >(
                UploadError::FileTooLarge {
                    max_size: self.providers@[index as int].size_limit() as u64,
                    actual_size: request.content@.len() as u64,
                },
            ),
    {
        check_file_size(request.file_size(), self.providers[index].max_file_size())
    }

    /// The error for a provider that cannot be reached.
    pub fn connection_failed(&self, index: usize) -> (e: UploadError)
        requires
            index < self.providers@.len(),
        ensures
            e matches UploadError::ConnectionFailed(why) && why@ == "Cannot connect to "@
                + self.providers@[index as int].name(),
    {
        UploadError::ConnectionFailed(
            String::from_str("Cannot connect to ").concat(self.providers[index].provider_name()),
        )
    }

    /// Decides what follows a failed attempt when `retries` attempts have
    /// been repeated so far: another one after a delay that doubles each
    /// time, until the configured number of repetitions is reached. The
    /// delay has to fit 64 bits.
    pub fn after_failure(&self, retries: u32) -> (step: RetryStep)
        requires
            retries < self.max_retries ==> backoff(self.retry_delay_ms, retries) <= u64::MAX,
        ensures
            retries < self.max_retries ==> step == (RetryStep::Wait {
                delay_ms: backoff(self.retry_delay_ms, retries) as u64,
                retries: (retries + 1) as u32,
            }),
            retries >= self.max_retries ==> step == RetryStep::GiveUp,
    {
        if retries >= self.max_retries {
            return RetryStep::GiveUp;
        }
        let mut delay: u64 = self.retry_delay_ms;
        let mut k: u32 = 0;
        proof {
            vstd::arithmetic::power2::lemma2_to64();
        }
        while k < retries
            invariant
                k <= retries < self.max_retries,
                delay == backoff(self.retry_delay_ms, k),
                backoff(self.retry_delay_ms, retries) <= u64::MAX,
            decreases retries - k,
        {
            proof {
                lemma_pow2_unfold((k + 1) as nat);
                lemma_backoff_grows(self.retry_delay_ms, (k + 1) as u32, retries);
                assert(self.retry_delay_ms * pow2((k + 1) as nat) == 2 * (self.retry_delay_ms
                    * pow2(k as nat))) by (nonlinear_arith)
                    requires
                        pow2((k + 1) as nat) == 2 * pow2(k as nat),
                ;
            }
            delay = delay * 2;
            k += 1;
        }
        RetryStep::Wait { delay_ms: delay, retries: retries + 1 }
    }

    /// The answer where a group has no provider to try.
    pub fn no_providers(group: &str) -> (r: UploadResponse)
        ensures
            !r.success,
            r.url.is_none(),
            r.provider@ == "orchestrator"@,
            r.error matches Some(why) && why@ == "No providers available for group: "@ + group@,
            r.metadata.is_none(),
    {
        UploadResponse::failed(
            String::from_str("orchestrator"),
            String::from_str("No providers available for group: ").concat(group),
        )
    }

    /// Takes note of how the attempt with one provider of a group ended. A
    /// success ends the round and is handed back; anything else is put on
    /// record, an error in the name of the provider, and the round goes on.
    pub fn record_attempt(
        errors: &mut Vec<UploadResponse>,
        provider_name: &str,
        outcome: Result<UploadResponse, UploadError>,
    ) -> (done: Option<UploadResponse>)
        ensures
            match outcome {
                Ok(response) => if response.success {
                    done == Some(response) && final(errors)@ == old(errors)@
                } else {
                    done.is_none() && final(errors)@ == old(errors)@.push(response)
                },
                Err(e) => {
                    &&& done.is_none()
                    &&& final(errors)@.len() == old(errors)@.len() + 1
                    &&& final(errors)@.subrange(0, old(errors)@.len() as int) == old(errors)@
                    &&& is_failure(final(errors)@.last(), provider_name@, e.message())
                },
            },
    {
        match outcome {
            Ok(response) => {
                if response.success {
                    Some(response)
                } else {
                    errors.push(response);
                    None
                }
            },
            Err(e) => {
                errors.push(UploadResponse::failed(String::from_str(provider_name), e.to_string()));
                proof {
                    assert(errors@.subrange(0, old(errors)@.len() as int) =~= old(errors)@);
                }
                None
            },
        }
    }

    /// The answer where the user asked for a provider that is not set up.
    pub fn unknown_provider(provider_name: &str) -> (r: UploadResponse)
        ensures
            is_failure(
                r,
                provider_name@,
                "Unknown provider: "@ + provider_name@
                    + ". Available providers: 0x0st, paste_rs, uguu, x0at, ftp_sftp, bunny"@,
            ),
    {
        let mut why = String::from_str("Unknown provider: ");
        why.append(provider_name);
        why.append(". Available providers: 0x0st, paste_rs, uguu, x0at, ftp_sftp, bunny");
        UploadResponse::failed(String::from_str(provider_name), why)
    }

    /// The answer where the provider asked for does not take the kind of
    /// upload.
    pub fn unsupported_type(provider_name: &str) -> (r: UploadResponse)
        ensures
            is_failure(
                r,
                provider_name@,
                "Provider '"@ + provider_name@ + "' does not support this upload type"@,
            ),
    {
        let mut why = String::from_str("Provider '");
        why.append(provider_name);
        why.append("' does not support this upload type");
        UploadResponse::failed(String::from_str(provider_name), why)
    }

    /// The answer for an upload to the one provider asked for: what the
    /// provider answered, or the error in its name.
    pub fn specific_outcome(
        provider_name: &str,
        outcome: Result<UploadResponse, UploadError>,
    ) -> (r: UploadResponse)
        ensures
            match outcome {
                Ok(response) => r == response,
                Err(e) => is_failure(r, provider_name@, e.message()),
            },
    {
        match outcome {
            Ok(response) => response,
            Err(e) => UploadResponse::failed(String::from_str(provider_name), e.to_string()),
        }
    }
}

/// Whether `r` is the failure of `provider` for the reason `why`.
pub open spec fn is_failure(r: UploadResponse, provider: Seq<char>, why: Seq<char>) -> bool {
    &&& !r.success
    &&& r.url.is_none()
    &&& r.provider@ == provider
    &&& r.error matches Some(reason)
    &&& reason@ == why
    &&& r.metadata.is_none()
}

/// The places of the entries that give a provider are places of entries,
/// in rising order.
pub proof fn lemma_provider_places_bounded(entries: Seq<(String, ProviderConfig)>, upto: int)
    requires
        0 <= upto <= entries.len(),
    ensures
        provider_places(entries, upto).len() <= upto,
        forall|k: int|
            0 <= k < provider_places(entries, upto).len() ==> 0 <= #[trigger] provider_places(
                entries,
                upto,
            )[k] < upto,
    decreases upto,
{
    if upto > 0 {
        lemma_provider_places_bounded(entries, upto - 1);
    }
}

/// Once a name is found among the first entries, it stays found.
pub proof fn lemma_place_of_stays(
    names: Seq<(String, usize)>,
    name: Seq<char>,
    from: int,
    upto: int,
)
    requires
        0 < from <= upto,
        place_of(names, name, from - 1) == -1,
        names[from - 1].0@ == name,
    ensures
        place_of(names, name, upto) == names[from - 1].1,
    decreases upto,
{
    if from < upto {
        lemma_place_of_stays(names, name, from, upto - 1);
    }
}

/// Once a provider is found among the first, it stays found.
pub proof fn lemma_place_by_name_stays(
    providers: Seq<Provider>,
    name: Seq<char>,
    from: int,
    upto: int,
)
    requires
        0 < from <= upto,
        place_by_provider_name(providers, name, from - 1) == -1,
        providers[from - 1].name() == name,
    ensures
        place_by_provider_name(providers, name, upto) == from - 1,
    decreases upto,
{
    if from < upto {
        lemma_place_by_name_stays(providers, name, from, upto - 1);
    }
}

/// The delay grows with the number of repetitions.
pub proof fn lemma_backoff_grows(retry_delay_ms: u64, fewer: u32, more: u32)
    requires
        fewer <= more,
    ensures
        backoff(retry_delay_ms, fewer) <= backoff(retry_delay_ms, more),
{
    if fewer < more {
        lemma_pow2_strictly_increases(fewer as nat, more as nat);
    }
    assert(retry_delay_ms * pow2(fewer as nat) <= retry_delay_ms * pow2(more as nat))
        by (nonlinear_arith)
        requires
            pow2(fewer as nat) <= pow2(more as nat),
    ;
}

} // verus!
