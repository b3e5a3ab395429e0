//! Kernel job-object policy: the priority classes a config may request and
//! the extended limit information handed to the process group.  The limit
//! word is modeled bit for bit, so the guarantee that kill-on-close is always
//! requested is stated and proved here; the platform binding only copies
//! these plain values into the OS structure.

use vstd::prelude::*;

verus! {

/// Flag bit requesting that closing the job handle terminates every member.
pub const JOB_OBJECT_LIMIT_KILL_ON_JOB_CLOSE: u32 = 0x2000;

/// Flag bit declaring that the limit information carries a priority class.
pub const JOB_OBJECT_LIMIT_PRIORITY_CLASS: u32 = 0x20;

/// Priority class applied to the whole process tree, one variant per OS
/// priority class.
#[derive(Debug, Copy, Clone, PartialEq, Eq, Structural)]
pub enum PriorityClass {
    Idle,
    BelowNormal,
    Normal,
    AboveNormal,
    High,
    Realtime,
}

impl PriorityClass {
    /// The OS constant that names this priority class.
    pub fn class_value(&self) -> (v: u32)
        ensures
            v == self.class_value_spec(),
    {
        match self {
            PriorityClass::Idle => 0x40,
            PriorityClass::BelowNormal => 0x4000,
            PriorityClass::Normal => 0x20,
            PriorityClass::AboveNormal => 0x8000,
            PriorityClass::High => 0x80,
            PriorityClass::Realtime => 0x100,
        }
    }

    pub open spec fn class_value_spec(&self) -> u32 {
        match self {
            PriorityClass::Idle => 0x40,
            PriorityClass::BelowNormal => 0x4000,
            PriorityClass::Normal => 0x20,
            PriorityClass::AboveNormal => 0x8000,
            PriorityClass::High => 0x80,
            PriorityClass::Realtime => 0x100,
        }
    }
}

/// Plain-value model of the extended limit information configured on a job
/// object before any member process exists: a flag word plus the requested
/// priority class value.
#[derive(Debug, Copy, Clone, PartialEq, Eq, Structural)]
pub struct ExtendedLimitInformation {
    pub limit_flags: u32,
    pub priority_class: u32,
}

impl ExtendedLimitInformation {
    /// Fresh limit information with every field zeroed, as the OS structure
    /// starts out.
    pub fn new() -> (r: Self)
        ensures
            r.limit_flags == 0,
            r.priority_class == 0,
    {
        ExtendedLimitInformation { limit_flags: 0, priority_class: 0 }
    }

    /// Request that releasing the job handle kills every remaining member.
    pub fn set_kill_on_close(&mut self)
        ensures
            final(self).limit_flags == old(self).limit_flags | JOB_OBJECT_LIMIT_KILL_ON_JOB_CLOSE,
            final(self).priority_class == old(self).priority_class,
    {
        self.limit_flags = self.limit_flags | JOB_OBJECT_LIMIT_KILL_ON_JOB_CLOSE;
    }

    /// Request a priority class for every member of the job.
    pub fn set_priority_class(&mut self, class: PriorityClass)
        ensures
            final(self).limit_flags == old(self).limit_flags | JOB_OBJECT_LIMIT_PRIORITY_CLASS,
            final(self).priority_class == class.class_value_spec(),
    {
        self.priority_class = class.class_value();
        self.limit_flags = self.limit_flags | JOB_OBJECT_LIMIT_PRIORITY_CLASS;
    }

    /// True when the limit word requests kill-on-close.
    pub open spec fn kill_on_close_requested(&self) -> bool {
        self.limit_flags & JOB_OBJECT_LIMIT_KILL_ON_JOB_CLOSE != 0
    }
}

/// The limit information a run configures on its process group, for each
/// shape of the config's job-object policy: kill-on-close is always
/// requested, and the priority class exactly when the config names one.
pub open spec fn limits_for_spec(job_object: Option<crate::config::JobObject>) -> ExtendedLimitInformation {
    match job_object {
        Some(jo) => match jo.priority_class {
            Some(class) => ExtendedLimitInformation {
                limit_flags: (0u32 | JOB_OBJECT_LIMIT_KILL_ON_JOB_CLOSE)
                    | JOB_OBJECT_LIMIT_PRIORITY_CLASS,
                priority_class: class.class_value_spec(),
            },
            None => ExtendedLimitInformation {
                limit_flags: 0u32 | JOB_OBJECT_LIMIT_KILL_ON_JOB_CLOSE,
                priority_class: 0,
            },
        },
        None => ExtendedLimitInformation {
            limit_flags: 0u32 | JOB_OBJECT_LIMIT_KILL_ON_JOB_CLOSE,
            priority_class: 0,
        },
    }
}

/// Whatever job-object policy a config declares, the limit information
/// configured on the process group requests kill-on-close, so releasing the
/// group — even without an explicit stop — terminates every member process
/// still alive.
pub proof fn lemma_kill_on_close_always(job_object: Option<crate::config::JobObject>)
    ensures
        limits_for_spec(job_object).kill_on_close_requested(),
{
    assert((0u32 | 0x2000) & 0x2000 != 0) by (bit_vector);
    assert(((0u32 | 0x2000) | 0x20) & 0x2000 != 0) by (bit_vector);
}

/// Build the limit information for the process group from the config's
/// job-object policy.  Whatever the policy, the result requests
/// kill-on-close: releasing the group terminates every member still alive,
/// which is the backstop that leaves no orphaned descendants behind.
pub fn limits_for(job_object: &Option<crate::config::JobObject>) -> (l: ExtendedLimitInformation)
    ensures
        l == limits_for_spec(*job_object),
        l.kill_on_close_requested(),
{
    let mut limits = ExtendedLimitInformation::new();
    limits.set_kill_on_close();
    match job_object {
        Some(jo) => match jo.priority_class {
            Some(class) => limits.set_priority_class(class),
            None => {},
        },
        None => {},
    }
    proof {
        lemma_kill_on_close_always(*job_object);
    }
    limits
}

} // verus!
