//! Turns the records of a recording into a profile.
//!
//! The converter keeps the state of the recorded processes and threads and
//! makes the profile's entries. Each record changes the state in a way that is
//! a function of the state and the record.

use crate::context_switch::ContextSwitchHandler;
use crate::dso::{BuildIds, DsoInfo, DsoKeyView};
use crate::pe_mappings::{PeMappingView, PeMappings};
use crate::processes::{Recording, RecordingView};
use crate::profile::{entries_view, opt_str, opt_text, texts, Profile};
use crate::stack::StackSource;
use vstd::prelude::*;

verus! {

/// The off-CPU sampling interval of recordings that are not sampled by time.
pub const DEFAULT_OFF_CPU_SAMPLING_INTERVAL_NS: u64 = 1_000_000;

/// What the attributes of a recording say of its events.
#[derive(Debug)]
pub struct EventInterpretation {
    /// The sampling interval in nanoseconds, if samples are taken by time.
    pub sampling_is_time_based: Option<u64>,
    /// Whether the recording has context switch records.
    pub have_context_switches: bool,
    /// The names of the events, by attribute index.
    pub event_names: Vec<String>,
}

/// What is known of the kernel that runs while the profile is made.
#[derive(Debug)]
pub struct KernelSymbols {
    /// The address at which the kernel is mapped, zero if it is not disclosed.
    pub base_avma: u64,
    pub build_id: Vec<u8>,
}

/// A sample.
#[derive(Debug)]
pub struct SampleRecord {
    pub pid: Option<i32>,
    pub tid: Option<i32>,
    pub timestamp: Option<u64>,
    pub period: Option<u64>,
    /// What the sample says of the stack.
    pub stack: StackSource,
}

/// What stays the same during a conversion.
pub struct Settings {
    /// The name of the product, as far as it is known from the start.
    pub product: String,
    /// The sampling interval in nanoseconds.
    pub interval_ns: u64,
    /// The raw time that counts as the start of the profile.
    pub reference_timestamp: u64,
    /// The build IDs that the recording knows.
    pub build_ids: BuildIds,
    /// Whether the recording was made on a little endian machine.
    pub little_endian: bool,
    /// The version of the recorded kernel.
    pub linux_version: Option<String>,
    /// An additional directory in which files are looked up.
    pub extra_binary_artifact_dir: Option<String>,
    pub context_switch_handler: ContextSwitchHandler,
    /// The weight of one off-CPU sample.
    pub off_cpu_weight_per_sample: i32,
    pub have_context_switches: bool,
    pub event_names: Vec<String>,
    pub kernel_symbols: Option<KernelSymbols>,
    /// Whether repeated frames at the base of the stack are folded into one.
    pub fold_recursive_prefix: bool,
}

impl Settings {
    /// The interval between off-CPU samples.
    pub open spec fn off_cpu_interval(self) -> u64 {
        self.context_switch_handler.off_cpu_sampling_interval_ns
    }

    /// An off-CPU sample counts once or not at all.
    pub open spec fn wf(self) -> bool {
        0 <= self.off_cpu_weight_per_sample <= 1
    }
}

/// Converts a recording.
pub struct Converter {
    pub settings: Settings,
    pub recording: Recording,
    /// The time of the last sample.
    pub current_sample_time: u64,
    /// Whether the product has its final name.
    pub have_product_name: bool,
    /// Whether the product is still to be named after a thread.
    pub product_name_pending: bool,
    /// The suspected PE images.
    pub suspected_pe_mappings: PeMappings,
}

/// The state of a [`Converter`].
#[verifier::ext_equal]
pub struct ConverterView {
    pub settings: Settings,
    pub recording: RecordingView,
    pub current_sample_time: u64,
    pub have_product_name: bool,
    pub product_name_pending: bool,
    pub suspected_pe_mappings: Map<u64, PeMappingView>,
}

impl View for Converter {
    type V = ConverterView;

    open spec fn view(&self) -> ConverterView {
        ConverterView {
            settings: self.settings,
            recording: self.recording@,
            current_sample_time: self.current_sample_time,
            have_product_name: self.have_product_name,
            product_name_pending: self.product_name_pending,
            suspected_pe_mappings: self.suspected_pe_mappings@,
        }
    }
}

/// The settings of a conversion, each given value taken over.
pub open spec fn settings_for(
    settings: Settings,
    product: Seq<char>,
    build_ids: Map<DsoKeyView, DsoInfo>,
    linux_version: Option<Seq<char>>,
    first_sample_time: u64,
    little_endian: bool,
    extra_binary_artifact_dir: Option<Seq<char>>,
    interpretation: EventInterpretation,
    kernel_symbols: Option<KernelSymbols>,
    fold_recursive_prefix: bool,
) -> bool {
    &&& settings.product@ == product
    &&& settings.build_ids@ == build_ids
    &&& opt_text(settings.linux_version) == linux_version
    &&& settings.reference_timestamp == first_sample_time
    &&& settings.little_endian == little_endian
    &&& opt_text(settings.extra_binary_artifact_dir) == extra_binary_artifact_dir
    &&& settings.have_context_switches == interpretation.have_context_switches
    &&& settings.event_names@ == interpretation.event_names@
    &&& settings.kernel_symbols == kernel_symbols
    &&& settings.fold_recursive_prefix == fold_recursive_prefix
    &&& match interpretation.sampling_is_time_based {
        Some(nanos) => {
            &&& settings.interval_ns == nanos
            &&& settings.off_cpu_interval() == nanos
            &&& settings.off_cpu_weight_per_sample == 1
        },
        None => {
            &&& settings.interval_ns == 1_000_000
            &&& settings.off_cpu_interval() == DEFAULT_OFF_CPU_SAMPLING_INTERVAL_NS
            &&& settings.off_cpu_weight_per_sample == 0
        },
    }
}

/// An optional string slice as an optional string.
fn owned(s: Option<&str>) -> (r: Option<String>)
    ensures
        r is Some == s is Some,
        r is Some ==> r->0@ == s->0@,
{
    match s {
        Some(s) => Some(s.to_owned()),
        None => None,
    }
}

impl Converter {
    /// Whether the converter is in order.
    pub open spec fn wf(self) -> bool {
        self.settings.wf()
    }

    /// A converter that has seen no record. With `delayed_product_name` the
    /// product is named after the first thread that is not `perf-exec`.
    pub fn new(
        product: &str,
        delayed_product_name: bool,
        build_ids: BuildIds,
        linux_version: Option<&str>,
        first_sample_time: u64,
        little_endian: bool,
        extra_binary_artifact_dir: Option<&str>,
        interpretation: EventInterpretation,
        kernel_symbols: Option<KernelSymbols>,
        merge_threads: bool,
        fold_recursive_prefix: bool,
    ) -> (r: Converter)
        ensures
            r.wf(),
            settings_for(
                r.settings,
                product@,
                build_ids@,
                opt_str(linux_version),
                first_sample_time,
                little_endian,
                opt_str(extra_binary_artifact_dir),
                interpretation,
                kernel_symbols,
                fold_recursive_prefix,
            ),
            r@ == (ConverterView {
                settings: r.settings,
                recording: RecordingView::empty(merge_threads),
                current_sample_time: first_sample_time,
                have_product_name: !delayed_product_name,
                product_name_pending: delayed_product_name,
                suspected_pe_mappings: Map::empty(),
            }),
    {
        let (interval_ns, off_cpu_interval_ns, off_cpu_weight_per_sample): (u64, u64, i32) =
            match interpretation.sampling_is_time_based {
            Some(nanos) => (nanos, nanos, 1),
            None => (1_000_000, DEFAULT_OFF_CPU_SAMPLING_INTERVAL_NS, 0),
        };
        Converter {
            settings: Settings {
                product: product.to_owned(),
                interval_ns,
                reference_timestamp: first_sample_time,
                build_ids,
                little_endian,
                linux_version: owned(linux_version),
                extra_binary_artifact_dir: owned(extra_binary_artifact_dir),
                context_switch_handler: ContextSwitchHandler::new(off_cpu_interval_ns),
                off_cpu_weight_per_sample,
                have_context_switches: interpretation.have_context_switches,
                event_names: interpretation.event_names,
                kernel_symbols,
                fold_recursive_prefix,
            },
            recording: Recording::new(merge_threads),
            current_sample_time: first_sample_time,
            have_product_name: !delayed_product_name,
            product_name_pending: delayed_product_name,
            suspected_pe_mappings: PeMappings::new(),
        }
    }

    /// The profile of the records seen so far.
    pub fn finish(self) -> (r: Profile)
        ensures
            r.product@ == self.settings.product@,
            r.interval_ns == self.settings.interval_ns,
            r.reference_timestamp == self.settings.reference_timestamp,
            texts(r.event_names@) == texts(self.settings.event_names@),
            entries_view(r.entries@) == self@.recording.entries,
    {
        Profile {
            product: self.settings.product,
            interval_ns: self.settings.interval_ns,
            reference_timestamp: self.settings.reference_timestamp,
            event_names: self.settings.event_names,
            entries: self.recording.entries,
        }
    }
}

} // verus!
