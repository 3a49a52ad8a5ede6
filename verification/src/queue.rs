//! Work items for sync and retention.

use vstd::prelude::*;

use crate::scanner::FileMeta;

verus! {

/// One file to copy and verify.
#[derive(Debug)]
pub struct SyncJob {
    pub pair_id: String,
    pub relative_path: String,
    pub source_path: String,
    pub dest_root: String,
    pub size: u64,
    pub mtime: i64,
}

/// The job that copies the file `meta` of pair `pair_id` below `dest_root`.
pub open spec fn job_for(pair_id: Seq<char>, dest_root: Seq<char>, meta: FileMeta, job: SyncJob) -> bool {
    &&& job.pair_id@ == pair_id
    &&& job.relative_path == meta.relative_path
    &&& job.source_path == meta.absolute_path
    &&& job.dest_root@ == dest_root
    &&& job.size == meta.size
    &&& job.mtime == meta.mtime
}

impl SyncJob {
    pub fn from_meta(pair_id: &str, dest_root: &str, meta: &FileMeta) -> (r: SyncJob)
        ensures
            job_for(pair_id@, dest_root@, *meta, r),
    {
        SyncJob {
            pair_id: String::from_str(pair_id),
            relative_path: meta.relative_path.clone(),
            source_path: meta.absolute_path.clone(),
            dest_root: String::from_str(dest_root),
            size: meta.size,
            mtime: meta.mtime,
        }
    }
}

impl Clone for SyncJob {
    fn clone(&self) -> (r: Self)
        ensures
            r == *self,
    {
        SyncJob {
            pair_id: self.pair_id.clone(),
            relative_path: self.relative_path.clone(),
            source_path: self.source_path.clone(),
            dest_root: self.dest_root.clone(),
            size: self.size,
            mtime: self.mtime,
        }
    }
}

/// One source file to consider for retention.
#[derive(Debug)]
pub struct RetentionJob {
    pub pair_id: String,
    pub relative_path: String,
    pub source_path: String,
}

} // verus!
