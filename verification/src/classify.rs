//! Substring-based classification of temperature sensors.

use vstd::prelude::*;
use crate::text::contains_seq;
use crate::text::str_contains;

verus! {

/// The class of a temperature sensor, decided by its label.
#[derive(Clone, Copy, PartialEq, Eq, Debug)]
pub enum SensorClass {
    Gpu,
    Nvme,
    CpuTemp,
    Other,
}

/// Classifies a sensor label: first match wins, in the order
/// GPU, NVMe, CPU; anything else is unclassified.
pub open spec fn spec_classify(label: Seq<char>) -> SensorClass {
    if contains_seq(label, "amdgpu"@) {
        SensorClass::Gpu
    } else if contains_seq(label, "nvme Composite"@) {
        SensorClass::Nvme
    } else if contains_seq(label, "Tctl"@) {
        SensorClass::CpuTemp
    } else {
        SensorClass::Other
    }
}

/// Classifies a sensor by substring match on its label, first match wins.
pub fn classify_sensor(label: &str) -> (c: SensorClass)
    ensures
        c == spec_classify(label@),
{
    if str_contains(label, "amdgpu") {
        SensorClass::Gpu
    } else if str_contains(label, "nvme Composite") {
        SensorClass::Nvme
    } else if str_contains(label, "Tctl") {
        SensorClass::CpuTemp
    } else {
        SensorClass::Other
    }
}

/// Classification is order-sensitive: a label that contains both the GPU
/// pattern and the CPU pattern classifies as GPU, because the GPU pattern
/// is tried first.
pub proof fn lemma_classify_first_match(label: Seq<char>)
    requires
        contains_seq(label, "amdgpu"@),
        contains_seq(label, "Tctl"@),
    ensures
        spec_classify(label) == SensorClass::Gpu,
{
}

} // verus!
