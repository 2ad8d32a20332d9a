//! What one ingestion is given besides the file: the settings that it works
//! under and the day on which the file arrived.

use vstd::prelude::*;
use crate::config::Config;
use crate::date::CalendarDate;

verus! {

/// The settings of one ingestion and the day of its start.
#[derive(Debug, PartialEq, Eq)]
pub struct Job {
    /// Language hint for the recognition engine.
    pub lang: String,
    /// Resolution at which pages are rasterized.
    pub dpi: i32,
    /// Root of permanent storage.
    pub storage_root: String,
    /// The day on which the file was received.
    pub received_on: CalendarDate,
}

/// What a job is, as plain values.
pub struct JobView {
    pub lang: Seq<char>,
    pub dpi: int,
    pub storage_root: Seq<char>,
    pub received_on: CalendarDate,
}

impl DeepView for Job {
    type V = JobView;

    open spec fn deep_view(&self) -> JobView {
        JobView {
            lang: self.lang@,
            dpi: self.dpi as int,
            storage_root: self.storage_root@,
            received_on: self.received_on,
        }
    }
}

/// The job that `config` asks for on the day `received_on`.
pub open spec fn job_of(config: &Config, received_on: CalendarDate) -> JobView {
    JobView {
        lang: config.ocr.lang@,
        dpi: config.ocr.dpi as int,
        storage_root: config.paths.data@,
        received_on,
    }
}

impl Job {
    /// The job for a file received on `received_on`, under the settings of `config`.
    pub fn new(config: &Config, received_on: CalendarDate) -> (job: Job)
        ensures
            job.deep_view() == job_of(config, received_on),
    {
        Job {
            lang: config.ocr.lang.clone(),
            dpi: config.ocr.dpi,
            storage_root: config.paths.data.clone(),
            received_on,
        }
    }
}

} // verus!
