//! Bookkeeping of the processes the application starts: their handles, and
//! the status of each by id.

use vstd::prelude::*;
use vstd::string::StringExecFns;
use std::path::PathBuf;
use std::time::Duration;
use crate::json::text_eq;
use crate::storage::fresh_uuid;

verus! {

/// A started process.
pub struct ProcessHandle {
    pub id: String,
    pub command: String,
    pub args: Vec<String>,
    pub cwd: PathBuf,
    pub status: ProcessStatus,
}

#[derive(Clone, Copy, Debug, PartialEq, Eq)]
pub enum ProcessStatus {
    Running,
    Completed,
    Failed,
    Killed,
}

/// How a process ended.
pub struct ProcessResult {
    pub exit_code: i32,
    pub stdout: String,
    pub stderr: String,
    pub duration: Duration,
}

/// What a process has written so far.
pub struct ProcessOutput {
    pub stdout: String,
    pub stderr: String,
    pub is_complete: bool,
}

pub enum ProcessError {
    ProcessNotFound { id: String },
    ProcessAlreadyRunning { id: String },
    ExecutionFailed { message: String },
    PermissionDenied { message: String },
    Timeout,
    InternalError { message: String },
}

/// Position of the process `id` in `table`.
pub open spec fn index_of(table: Seq<(String, ProcessStatus)>, id: Seq<char>) -> Option<int> {
    if exists|i: int| 0 <= i < table.len() && (#[trigger] table[i]).0@ == id {
        Some(choose|i: int| 0 <= i < table.len() && (#[trigger] table[i]).0@ == id)
    } else {
        None
    }
}

/// The status of each process started, by id.
pub struct ProcessManagerImpl {
    pub processes: Vec<(String, ProcessStatus)>,
}

impl ProcessManagerImpl {
    /// Ids are unique.
    pub open spec fn wf(&self) -> bool {
        forall|i: int, j: int|
            0 <= i < j < self.processes@.len() ==> (#[trigger] self.processes@[i]).0@
                != (#[trigger] self.processes@[j]).0@
    }

    pub fn new() -> (r: ProcessManagerImpl)
        ensures
            r.wf(),
            r.processes@.len() == 0,
    {
        ProcessManagerImpl { processes: Vec::new() }
    }

    fn position(&self, id: &str) -> (r: Option<usize>)
        requires
            self.wf(),
        ensures
            r matches Some(i) ==> index_of(self.processes@, id@) == Some(i as int),
            r is None ==> index_of(self.processes@, id@) is None,
    {
        let mut i: usize = 0;
        while i < self.processes.len()
            invariant
                self.wf(),
                i <= self.processes@.len(),
                forall|k: int| 0 <= k < i ==> (#[trigger] self.processes@[k]).0@ != id@,
            decreases self.processes@.len() - i,
        {
            if text_eq(self.processes[i].0.as_str(), id) {
                proof {
                    let k = choose|k: int|
                        0 <= k < self.processes@.len() && (#[trigger] self.processes@[k]).0@ == id@;
                    if k != i {
                        assert(self.processes@[k].0@ != self.processes@[i as int].0@);
                    }
                }
                return Some(i);
            }
            i += 1;
        }
        None
    }

    /// Records `status` for the process `id`, in place of any earlier record.
    fn record(&mut self, id: &String, status: ProcessStatus)
        requires
            old(self).wf(),
        ensures
            final(self).wf(),
            match index_of(old(self).processes@, id@) {
                Some(i) => final(self).processes@ == old(self).processes@.update(
                    i,
                    (old(self).processes@[i].0, status),
                ),
                None => final(self).processes@.len() == old(self).processes@.len() + 1
                    && final(self).processes@.drop_last() == old(self).processes@
                    && final(self).processes@.last().0@ == id@
                    && final(self).processes@.last().1 == status,
            },
    {
        match self.position(id.as_str()) {
            Some(i) => {
                let key = self.processes[i].0.clone();
                self.processes.set(i, (key, status));
            },
            None => {
                self.processes.push((id.clone(), status));
                proof {
                    assert(self.processes@.drop_last() =~= old(self).processes@);
                }
            },
        }
    }

    /// Records a process started with `command` and `args` in `cwd`, under a
    /// fresh id, as running.
    pub fn register_process(&mut self, command: &str, args: Vec<String>, cwd: PathBuf) -> (r: ProcessHandle)
        requires
            old(self).wf(),
        ensures
            final(self).wf(),
            r.command@ == command@,
            r.args == args,
            r.cwd == cwd,
            r.status == ProcessStatus::Running,
            r.id@.len() == 36,
            index_of(final(self).processes@, r.id@) matches Some(i) && final(self).processes@[i].1
                == ProcessStatus::Running,
    {
        let id = fresh_uuid();
        self.record(&id, ProcessStatus::Running);
        proof {
            match index_of(old(self).processes@, id@) {
                Some(i) => {
                    assert(self.processes@[i].0@ == id@);
                },
                None => {
                    assert(self.processes@[self.processes@.len() - 1].0@ == id@);
                },
            }
        }
        ProcessHandle { id, command: String::from_str(command), args, cwd, status: ProcessStatus::Running }
    }

    /// Forgets the process `id`, whose start failed.
    pub fn forget_process(&mut self, id: &str)
        requires
            old(self).wf(),
        ensures
            final(self).wf(),
            match index_of(old(self).processes@, id@) {
                Some(i) => final(self).processes@ == old(self).processes@.remove(i),
                None => final(self).processes@ == old(self).processes@,
            },
    {
        if let Some(i) = self.position(id) {
            self.processes.remove(i);
        }
    }

    /// Marks the process of `handle` as killed.
    pub fn kill_process(&mut self, handle: &ProcessHandle) -> (r: Result<(), ProcessError>)
        requires
            old(self).wf(),
        ensures
            final(self).wf(),
            match index_of(old(self).processes@, handle.id@) {
                Some(i) => r is Ok && final(self).processes@ == old(self).processes@.update(
                    i,
                    (old(self).processes@[i].0, ProcessStatus::Killed),
                ),
                None => final(self).processes@ == old(self).processes@ && (r matches Err(
                    ProcessError::ProcessNotFound { id },
                ) && id@ == handle.id@),
            },
    {
        match self.position(handle.id.as_str()) {
            Some(_) => {
                self.record(&handle.id, ProcessStatus::Killed);
                Ok(())
            },
            None => Err(ProcessError::ProcessNotFound { id: handle.id.clone() }),
        }
    }

    /// Marks the process of `handle` as completed, where it is recorded, and
    /// reports a clean exit after `elapsed`.
    pub fn wait_for_process(&mut self, handle: &ProcessHandle, elapsed: Duration) -> (r: Result<
        ProcessResult,
        ProcessError,
    >)
        requires
            old(self).wf(),
        ensures
            final(self).wf(),
            match index_of(old(self).processes@, handle.id@) {
                Some(i) => final(self).processes@ == old(self).processes@.update(
                    i,
                    (old(self).processes@[i].0, ProcessStatus::Completed),
                ),
                None => final(self).processes@ == old(self).processes@,
            },
            r matches Ok(res) && res.exit_code == 0 && res.stdout@ == "Process completed successfully"@
                && res.stderr@.len() == 0 && res.duration == elapsed,
    {
        if self.position(handle.id.as_str()).is_some() {
            self.record(&handle.id, ProcessStatus::Completed);
        }
        Ok(
            ProcessResult {
                exit_code: 0,
                stdout: String::from_str("Process completed successfully"),
                stderr: String::new(),
                duration: elapsed,
            },
        )
    }

    /// The output gathered for `handle`: the process is reported complete.
    pub fn get_process_output(&self, handle: &ProcessHandle) -> (r: Result<ProcessOutput, ProcessError>)
        ensures
            r matches Ok(out) && out.stdout@ == "Process output"@ && out.stderr@.len() == 0
                && out.is_complete,
    {
        Ok(ProcessOutput { stdout: String::from_str("Process output"), stderr: String::new(), is_complete: true })
    }

    /// The status recorded for `id`.
    pub fn status_of(&self, id: &str) -> (r: Option<ProcessStatus>)
        requires
            self.wf(),
        ensures
            match index_of(self.processes@, id@) {
                Some(i) => r == Some(self.processes@[i].1),
                None => r is None,
            },
    {
        match self.position(id) {
            Some(i) => Some(self.processes[i].1),
            None => None,
        }
    }
}

} // verus!
