//! The local command runner: its configuration, and the selection of the
//! single platform-compatible variant out of a multi-platform request.

use vstd::prelude::*;

use crate::request::{
    first_keyed, ExecuteProcessRequest, MultiPlatformExecuteProcessRequest, Platform,
    PlatformConstraint,
};

verus! {

/// The constraint that exactly `p` satisfies.
pub open spec fn constraint_of(p: Platform) -> PlatformConstraint {
    match p {
        Platform::Darwin => PlatformConstraint::Darwin,
        Platform::Linux => PlatformConstraint::Linux,
    }
}

/// The variant a runner on platform `p` picks out of `m`: the first present
/// key among, in priority order, the platform-agnostic pairing, the pairing
/// authored for `p` with no target restriction, and the pairing targeted
/// exactly at `p`.
pub open spec fn compatible_request(
    p: Platform,
    m: MultiPlatformExecuteProcessRequest,
) -> Option<ExecuteProcessRequest> {
    let c = constraint_of(p);
    if m.spec_get((PlatformConstraint::Any, PlatformConstraint::Any)) is Some {
        m.spec_get((PlatformConstraint::Any, PlatformConstraint::Any))
    } else if m.spec_get((c, PlatformConstraint::Any)) is Some {
        m.spec_get((c, PlatformConstraint::Any))
    } else {
        m.spec_get((c, c))
    }
}

/// `first_keyed` finds an entry exactly when one carries the key.
pub proof fn lemma_first_keyed_some(
    s: Seq<((PlatformConstraint, PlatformConstraint), ExecuteProcessRequest)>,
    key: (PlatformConstraint, PlatformConstraint),
)
    ensures
        first_keyed(s, key) is Some <==> exists|i: int| 0 <= i < s.len() && s[i].0 == key,
    decreases s.len(),
{
    if s.len() > 0 && s[0].0 != key {
        lemma_first_keyed_some(s.drop_first(), key);
        assert forall|i: int| 0 <= i < s.len() && s[i].0 == key implies exists|j: int|
            0 <= j < s.drop_first().len() && s.drop_first()[j].0 == key by {
            assert(s.drop_first()[i - 1] == s[i]);
        }
    }
}

/// Selection priority: whenever a multi-platform request offers the
/// platform-agnostic pairing at all, every runner picks that variant, no
/// matter what else the request offers and no matter the local platform.
pub proof fn lemma_selection_priority(p: Platform, m: MultiPlatformExecuteProcessRequest)
    requires
        m.has_key((PlatformConstraint::Any, PlatformConstraint::Any)),
    ensures
        compatible_request(p, m) == m.spec_get(
            (PlatformConstraint::Any, PlatformConstraint::Any),
        ),
        compatible_request(p, m) is Some,
{
    lemma_first_keyed_some(m.0@, (PlatformConstraint::Any, PlatformConstraint::Any));
}

/// Runs commands on this machine, hermetically, inside a private sandbox
/// under a configured base directory.
#[derive(Debug, Clone)]
pub struct CommandRunner {
    /// Where sandboxes are created.
    pub work_dir_base: String,
    /// Whether a finished sandbox is deleted, or preserved for inspection.
    pub cleanup_local_dirs: bool,
    /// The platform of this machine, resolved once at construction.
    pub platform: Platform,
}

impl CommandRunner {
    /// A runner for the given base directory, cleanup policy, and platform
    /// identity.
    pub fn new(work_dir_base: String, cleanup_local_dirs: bool, platform: Platform) -> (r:
        CommandRunner)
        ensures
            r.work_dir_base@ == work_dir_base@,
            r.cleanup_local_dirs == cleanup_local_dirs,
            r.spec_platform() == platform,
    {
        CommandRunner { work_dir_base, cleanup_local_dirs, platform }
    }

    /// The platform this runner executes on.
    pub fn platform(&self) -> (p: Platform)
        ensures
            p == self.spec_platform(),
    {
        self.platform
    }

    /// The platform this runner executes on.
    pub open spec fn spec_platform(&self) -> Platform {
        self.platform
    }

    /// The variant of `req` compatible with this machine, per the fixed
    /// priority order, or nothing where no pairing matches.
    pub fn extract_compatible_request<'a>(
        &self,
        req: &'a MultiPlatformExecuteProcessRequest,
    ) -> (r: Option<&'a ExecuteProcessRequest>)
        ensures
            match r {
                Some(v) => compatible_request(self.spec_platform(), *req) == Some(*v),
                None => compatible_request(self.spec_platform(), *req) is None,
            },
    {
        let local: PlatformConstraint = PlatformConstraint::from(self.platform);
        if let Some(v) = req.get((PlatformConstraint::Any, PlatformConstraint::Any)) {
            return Some(v);
        }
        if let Some(v) = req.get((local, PlatformConstraint::Any)) {
            return Some(v);
        }
        req.get((local, local))
    }
}

impl MultiPlatformExecuteProcessRequest {
    /// The variant stored under `key`, if any.
    pub fn get<'a>(&'a self, key: (PlatformConstraint, PlatformConstraint)) -> (r: Option<
        &'a ExecuteProcessRequest,
    >)
        ensures
            match r {
                Some(v) => self.spec_get(key) == Some(*v),
                None => self.spec_get(key) is None,
            },
    {
        let n = self.0.len();
        let mut i: usize = 0;
        proof {
            assert(self.0@.skip(0) =~= self.0@);
        }
        while i < n
            invariant
                n == self.0@.len(),
                i <= n,
                first_keyed(self.0@.skip(i as int), key) == first_keyed(self.0@, key),
            decreases n - i,
        {
            let entry = &self.0[i];
            if entry.0.0 == key.0 && entry.0.1 == key.1 {
                proof {
                    assert(self.0@.skip(i as int)[0] == self.0@[i as int]);
                }
                return Some(&entry.1);
            }
            proof {
                assert(self.0@.skip(i as int)[0] == self.0@[i as int]);
                assert(self.0@.skip(i as int).drop_first() =~= self.0@.skip(i + 1));
            }
            i += 1;
        }
        proof {
            assert(self.0@.skip(n as int) =~= Seq::empty());
        }
        None
    }
}

} // verus!
