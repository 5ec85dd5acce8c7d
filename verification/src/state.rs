//! Settings and the job queue shared by the application.
use vstd::prelude::*;

verus! {

/// The user's model choices.
#[derive(Debug, Clone)]
pub struct AppSettings {
    pub default_local_model: String,
    pub default_cloud_model: String,
}

impl Default for AppSettings {
    /// The local general model and the fast cloud model.
    fn default() -> (s: AppSettings)
        ensures
            s.default_local_model@ == "local_general"@,
            s.default_cloud_model@ == "cloud_fast"@,
    {
        AppSettings { default_local_model: "local_general".to_owned(), default_cloud_model: "cloud_fast".to_owned() }
    }
}

/// The queue that background extraction jobs are handed to.
pub struct JobQueue;

impl JobQueue {
    pub fn new() -> (q: JobQueue) {
        JobQueue
    }
}

impl Default for JobQueue {
    fn default() -> (q: JobQueue) {
        JobQueue::new()
    }
}

} // verus!
