use vstd::prelude::*;

verus! {

/// What an update is about.
pub enum ResourceTarget {
    System,
    Server(String),
    Deployment(String),
    Build(String),
    Procedure(String),
}

impl ResourceTarget {
    pub fn duplicate(&self) -> (r: Self)
        ensures
            r == *self,
    {
        match self {
            ResourceTarget::System => ResourceTarget::System,
            ResourceTarget::Server(id) => ResourceTarget::Server(id.clone()),
            ResourceTarget::Deployment(id) => ResourceTarget::Deployment(id.clone()),
            ResourceTarget::Build(id) => ResourceTarget::Build(id.clone()),
            ResourceTarget::Procedure(id) => ResourceTarget::Procedure(id.clone()),
        }
    }
}

/// The kind of action an update records.
#[derive(Clone, Copy, Debug, PartialEq, Eq, Structural)]
pub enum Operation {
    NoOperation,
    CreateServer,
    UpdateServer,
    DeleteServer,
    PruneNetworksServer,
    PruneImagesServer,
    PruneContainersServer,
    StopAllContainers,
    DeployContainer,
    StartContainer,
    StopContainer,
    RemoveContainer,
    CreateProcedure,
    UpdateProcedure,
    DeleteProcedure,
}

#[derive(Clone, Copy, Debug, PartialEq, Eq, Structural)]
pub enum UpdateStatus {
    Queued,
    InProgress,
    Complete,
}

/// One stage of output within an update.
pub struct Log {
    pub stage: String,
    pub command: String,
    pub stdout: String,
    pub stderr: String,
    pub success: bool,
    pub start_ts: i64,
    pub end_ts: i64,
}

impl Log {
    /// A successful log whose output is `msg`.
    pub fn simple(stage: &str, msg: String, ts: i64) -> (r: Log)
        ensures
            r.stage@ == stage@,
            r.stdout@ == msg@,
            r.stderr@ == Seq::<char>::empty(),
            r.command@ == Seq::<char>::empty(),
            r.success,
            r.start_ts == ts,
            r.end_ts == ts,
    {
        Log {
            stage: stage.to_owned(),
            command: String::new(),
            stdout: msg,
            stderr: String::new(),
            success: true,
            start_ts: ts,
            end_ts: ts,
        }
    }

    /// A failed log whose error output is `msg`.
    pub fn error(stage: &str, msg: String, ts: i64) -> (r: Log)
        ensures
            r.stage@ == stage@,
            r.stderr@ == msg@,
            r.stdout@ == Seq::<char>::empty(),
            r.command@ == Seq::<char>::empty(),
            !r.success,
            r.start_ts == ts,
            r.end_ts == ts,
    {
        Log {
            stage: stage.to_owned(),
            command: String::new(),
            stdout: String::new(),
            stderr: msg,
            success: false,
            start_ts: ts,
            end_ts: ts,
        }
    }

    pub fn duplicate(&self) -> (r: Log)
        ensures
            r == *self,
    {
        Log {
            stage: self.stage.clone(),
            command: self.command.clone(),
            stdout: self.stdout.clone(),
            stderr: self.stderr.clone(),
            success: self.success,
            start_ts: self.start_ts,
            end_ts: self.end_ts,
        }
    }
}

/// Whether every log in `logs` succeeded.
pub open spec fn all_success(logs: Seq<Log>) -> bool {
    forall|i: int| 0 <= i < logs.len() ==> (#[trigger] logs[i]).success
}

/// The number of failed logs in `logs`.
pub open spec fn failed_count(logs: Seq<Log>) -> nat
    decreases logs.len(),
{
    if logs.len() == 0 {
        0
    } else {
        failed_count(logs.drop_last()) + if logs.last().success {
            0nat
        } else {
            1nat
        }
    }
}

/// The audit record of one attempted action.
pub struct Update {
    pub id: u64,
    pub target: ResourceTarget,
    pub operation: Operation,
    pub operator: String,
    pub start_ts: i64,
    pub end_ts: Option<i64>,
    pub status: UpdateStatus,
    pub success: bool,
    pub version: Option<String>,
    pub logs: Vec<Log>,
}

impl Update {
    /// A fresh record of an action that starts at `start_ts`: in progress,
    /// successful so far, with no logs.
    pub fn start(target: ResourceTarget, operation: Operation, operator: &String, start_ts: i64) -> (r:
        Update)
        ensures
            r.id == 0,
            r.target == target,
            r.operation == operation,
            r.operator@ == operator@,
            r.start_ts == start_ts,
            r.end_ts.is_none(),
            r.status == UpdateStatus::InProgress,
            r.success,
            r.version.is_none(),
            r.logs@.len() == 0,
    {
        Update {
            id: 0,
            target,
            operation,
            operator: operator.clone(),
            start_ts,
            end_ts: None,
            status: UpdateStatus::InProgress,
            success: true,
            version: None,
            logs: Vec::new(),
        }
    }

    pub fn push_simple_log(&mut self, stage: &str, msg: String, ts: i64)
        ensures
            final(self).logs@.len() == old(self).logs@.len() + 1,
            final(self).logs@.drop_last() == old(self).logs@,
            final(self).logs@.last().stage@ == stage@,
            final(self).logs@.last().stdout@ == msg@,
            final(self).logs@.last().stderr@.len() == 0,
            final(self).logs@.last().success,
            final(self).id == old(self).id,
            final(self).target == old(self).target,
            final(self).operation == old(self).operation,
            final(self).operator == old(self).operator,
            final(self).start_ts == old(self).start_ts,
            final(self).end_ts == old(self).end_ts,
            final(self).status == old(self).status,
            final(self).success == old(self).success,
            final(self).version == old(self).version,
    {
        let log = Log::simple(stage, msg, ts);
        self.logs.push(log);
        assert(self.logs@.drop_last() =~= old(self).logs@);
    }

    pub fn push_error_log(&mut self, stage: &str, msg: String, ts: i64)
        ensures
            final(self).logs@.len() == old(self).logs@.len() + 1,
            final(self).logs@.drop_last() == old(self).logs@,
            final(self).logs@.last().stage@ == stage@,
            final(self).logs@.last().stderr@ == msg@,
            !final(self).logs@.last().success,
            final(self).id == old(self).id,
            final(self).target == old(self).target,
            final(self).operation == old(self).operation,
            final(self).operator == old(self).operator,
            final(self).start_ts == old(self).start_ts,
            final(self).end_ts == old(self).end_ts,
            final(self).status == old(self).status,
            final(self).success == old(self).success,
            final(self).version == old(self).version,
    {
        let log = Log::error(stage, msg, ts);
        self.logs.push(log);
        assert(self.logs@.drop_last() =~= old(self).logs@);
    }

    /// Closes the record at `now`: complete, and successful exactly when
    /// every log succeeded.
    pub fn finalize(&mut self, now: i64)
        ensures
            final(self).end_ts == Some(now),
            final(self).status == UpdateStatus::Complete,
            final(self).success == all_success(old(self).logs@),
            final(self).logs == old(self).logs,
            final(self).id == old(self).id,
            final(self).target == old(self).target,
            final(self).operation == old(self).operation,
            final(self).operator == old(self).operator,
            final(self).start_ts == old(self).start_ts,
            final(self).version == old(self).version,
    {
        let mut ok = true;
        let mut i: usize = 0;
        while i < self.logs.len()
            invariant
                i <= self.logs@.len(),
                ok == all_success(self.logs@.subrange(0, i as int)),
            decreases self.logs@.len() - i,
        {
            assert(self.logs@.subrange(0, i + 1).drop_last() =~= self.logs@.subrange(0, i as int));
            ok = ok && self.logs[i].success;
            i = i + 1;
            proof {
                let s = self.logs@.subrange(0, i as int);
                if ok {
                    assert forall|j: int| 0 <= j < s.len() implies (#[trigger] s[j]).success by {
                        if j < i - 1 {
                            assert(s[j] == self.logs@.subrange(0, i - 1)[j]);
                        }
                    }
                } else {
                    if !self.logs@[i - 1].success {
                        assert(!s[i - 1].success);
                    } else {
                        let p = self.logs@.subrange(0, i - 1);
                        let j = choose|j: int| 0 <= j < p.len() && !(#[trigger] p[j]).success;
                        assert(s[j] == p[j]);
                    }
                }
            }
        }
        assert(self.logs@.subrange(0, self.logs@.len() as int) =~= self.logs@);
        self.end_ts = Some(now);
        self.status = UpdateStatus::Complete;
        self.success = ok;
    }

    /// Equal field by field, logs compared by their contents.
    pub open spec fn same_as(self, o: Update) -> bool {
        &&& self.id == o.id
        &&& self.target == o.target
        &&& self.operation == o.operation
        &&& self.operator == o.operator
        &&& self.start_ts == o.start_ts
        &&& self.end_ts == o.end_ts
        &&& self.status == o.status
        &&& self.success == o.success
        &&& self.version == o.version
        &&& self.logs@ == o.logs@
    }

    pub fn duplicate(&self) -> (r: Update)
        ensures
            r.same_as(*self),
    {
        let mut logs: Vec<Log> = Vec::new();
        let mut i: usize = 0;
        while i < self.logs.len()
            invariant
                i <= self.logs@.len(),
                logs@ == self.logs@.subrange(0, i as int),
            decreases self.logs@.len() - i,
        {
            logs.push(self.logs[i].duplicate());
            i = i + 1;
            assert(logs@ =~= self.logs@.subrange(0, i as int));
        }
        assert(logs@ =~= self.logs@);
        let version = match &self.version {
            Some(v) => Some(v.clone()),
            None => None,
        };
        Update {
            id: self.id,
            target: self.target.duplicate(),
            operation: self.operation,
            operator: self.operator.clone(),
            start_ts: self.start_ts,
            end_ts: self.end_ts,
            status: self.status,
            success: self.success,
            version,
            logs,
        }
    }
}

} // verus!
