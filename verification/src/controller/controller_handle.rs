//! The controller subsystem as a whole: its errors, and how its settings split
//! between the collection and the processing stage.

use vstd::prelude::*;

use super::event_collector::CollectorError;
use super::event_processor::{ProcessorError, ProcessorSettings};

verus! {

/// Errors of the controller subsystem.
#[derive(Clone, Debug, PartialEq, Eq)]
pub enum ControllerError {
    CollectorError(CollectorError),
    ProcessorError(ProcessorError),
    ChannelError(String),
    InitializationError(String),
}

/// A running controller subsystem; its stages run on their own.
pub struct ControllerHandle {}

/// The processing stage's share of the subsystem settings: the cycle interval is
/// the collection interval, and the press threshold carries over.
pub fn processor_settings_for(collection_interval_ms: u64, button_press_threshold_ms: u32) -> (s: ProcessorSettings)
    ensures
        s.processing_interval_ms == collection_interval_ms,
        s.button_press_threshold_ms == button_press_threshold_ms,
{
    ProcessorSettings { processing_interval_ms: collection_interval_ms, button_press_threshold_ms }
}

} // verus!
