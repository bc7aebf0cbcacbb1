//! The data model of one local execution: platforms and their constraints,
//! relative paths inside the sandbox, content-addressed digests, the request
//! describing a command, and the result of running one.

use vstd::prelude::*;

verus! {

/// The family of machine this executor is running on.
#[derive(Clone, Copy, Debug, PartialEq, Eq, Hash, Structural)]
pub enum Platform {
    Darwin,
    Linux,
}

/// A restriction on where a request variant may run. `Any` places no
/// restriction; the other variants name an exact platform.
#[derive(Clone, Copy, Debug, PartialEq, Eq, Hash, Structural)]
pub enum PlatformConstraint {
    Darwin,
    Linux,
    Any,
}

impl From<Platform> for PlatformConstraint {
    /// The constraint that exactly the given platform satisfies.
    fn from(p: Platform) -> (c: PlatformConstraint) {
        match p {
            Platform::Darwin => PlatformConstraint::Darwin,
            Platform::Linux => PlatformConstraint::Linux,
        }
    }
}

impl vstd::std_specs::convert::FromSpecImpl<Platform> for PlatformConstraint {
    open spec fn obeys_from_spec() -> bool {
        true
    }

    open spec fn from_spec(p: Platform) -> PlatformConstraint {
        match p {
            Platform::Darwin => PlatformConstraint::Darwin,
            Platform::Linux => PlatformConstraint::Linux,
        }
    }
}

/// A relative path below the sandbox root, kept as its `/`-separated
/// segments. The empty segment list names the sandbox root itself.
#[derive(Debug)]
pub struct RelPath {
    pub segments: Vec<String>,
}

impl Clone for RelPath {
    fn clone(&self) -> (r: RelPath)
        ensures
            r@ == self@,
    {
        let segments = self.segments.clone();
        proof {
            assert(segments.deep_view() =~= self@);
        }
        RelPath { segments }
    }
}

impl View for RelPath {
    type V = Seq<Seq<char>>;

    open spec fn view(&self) -> Seq<Seq<char>> {
        self.segments.deep_view()
    }
}

impl PartialEq for RelPath {
    fn eq(&self, other: &RelPath) -> (r: bool) {
        if self.segments.len() != other.segments.len() {
            proof {
                assert(self@.len() != other@.len());
            }
            return false;
        }
        let n = self.segments.len();
        let mut i: usize = 0;
        while i < n
            invariant
                n == self.segments.len() == other.segments.len(),
                i <= n,
                forall|j: int| 0 <= j < i ==> self@[j] == other@[j],
            decreases n - i,
        {
            if self.segments[i] != other.segments[i] {
                proof {
                    assert(self@[i as int] != other@[i as int]);
                }
                return false;
            }
            i += 1;
        }
        proof {
            assert(self@ =~= other@);
        }
        true
    }
}

impl Eq for RelPath {}

impl vstd::std_specs::cmp::PartialEqSpecImpl for RelPath {
    open spec fn obeys_eq_spec() -> bool {
        true
    }

    open spec fn eq_spec(&self, other: &RelPath) -> bool {
        self@ == other@
    }
}

impl RelPath {
    /// A path from its segments.
    pub fn new(segments: Vec<String>) -> (p: RelPath)
        ensures
            p.segments@ == segments@,
    {
        RelPath { segments }
    }

    /// The path of the directory this path sits in: every segment but the
    /// last. The sandbox root itself has no parent.
    pub fn parent(&self) -> (r: Option<RelPath>)
        ensures
            match r {
                Some(p) => self@.len() >= 1 && p@ == self@.drop_last(),
                None => self@.len() == 0,
            },
    {
        if self.segments.len() == 0 {
            None
        } else {
            let mut segments = self.segments.clone();
            let _ = segments.pop();
            proof {
                assert(segments.deep_view() =~= self@.drop_last());
            }
            Some(RelPath { segments })
        }
    }
}

/// A content-addressed key of a file tree in the store: a fingerprint
/// together with the byte length of the serialized tree description.
#[derive(Debug, Clone, PartialEq, Eq)]
pub struct Digest {
    pub fingerprint: Vec<u8>,
    pub size_bytes: u64,
}

/// The fingerprint that content-addressed stores assign to the empty tree:
/// the SHA-256 digest of no bytes.
pub open spec fn empty_fingerprint() -> Seq<u8> {
    seq![
        0xe3u8, 0xb0u8, 0xc4u8, 0x42u8, 0x98u8, 0xfcu8, 0x1cu8, 0x14u8,
        0x9au8, 0xfbu8, 0xf4u8, 0xc8u8, 0x99u8, 0x6fu8, 0xb9u8, 0x24u8,
        0x27u8, 0xaeu8, 0x41u8, 0xe4u8, 0x64u8, 0x9bu8, 0x93u8, 0x4cu8,
        0xa4u8, 0x95u8, 0x99u8, 0x1bu8, 0x78u8, 0x52u8, 0xb8u8, 0x55u8,
    ]
}

/// Whether `d` is the canonical digest of the empty tree.
pub open spec fn is_empty_digest(d: Digest) -> bool {
    d.fingerprint@ == empty_fingerprint() && d.size_bytes == 0
}

impl Digest {
    /// The canonical digest of the empty tree.
    pub fn empty() -> (d: Digest)
        ensures
            is_empty_digest(d),
    {
        let fingerprint: Vec<u8> = vec![
            0xe3u8, 0xb0u8, 0xc4u8, 0x42u8, 0x98u8, 0xfcu8, 0x1cu8, 0x14u8,
            0x9au8, 0xfbu8, 0xf4u8, 0xc8u8, 0x99u8, 0x6fu8, 0xb9u8, 0x24u8,
            0x27u8, 0xaeu8, 0x41u8, 0xe4u8, 0x64u8, 0x9bu8, 0x93u8, 0x4cu8,
            0xa4u8, 0x95u8, 0x99u8, 0x1bu8, 0x78u8, 0x52u8, 0xb8u8, 0x55u8,
        ];
        proof {
            assert(fingerprint@ =~= empty_fingerprint());
        }
        Digest { fingerprint, size_bytes: 0 }
    }
}

/// Everything one hermetic execution needs: the command, its explicit
/// environment, declared inputs and outputs, a deadline, and presentation
/// details. Immutable once constructed.
#[derive(Debug, Clone)]
pub struct ExecuteProcessRequest {
    /// The command and its arguments; never empty.
    pub argv: Vec<String>,
    /// The complete environment the command sees, beyond the deliberate
    /// empty `PATH`.
    pub env: Vec<(String, String)>,
    /// Where inside the sandbox to run, if not at its root.
    pub working_directory: Option<RelPath>,
    /// The input file tree materialized into the sandbox first.
    pub input_files: Digest,
    /// A second input tree layered over the first, traded against
    /// hermeticity for speed at the caller's request.
    pub unsafe_local_only_files_because_we_favor_speed_over_correctness_for_this_rule: Digest,
    /// Files the command promises to produce, relative to the sandbox.
    pub output_files: Vec<RelPath>,
    /// Directories the command promises to produce, relative to the sandbox.
    pub output_directories: Vec<RelPath>,
    /// The deadline for the spawn-and-collect phase, in milliseconds.
    pub timeout_millis: u64,
    /// A human-readable description, used in reporting.
    pub description: String,
    /// A toolchain home to expose through a fixed symlink inside the
    /// sandbox, if any.
    pub jdk_home: Option<String>,
}

impl ExecuteProcessRequest {
    /// A request is well formed when it names a command to run.
    pub open spec fn wf(self) -> bool {
        self.argv@.len() >= 1
    }
}

/// One logical action expressed once per platform pairing: a mapping from a
/// (caller-required constraint, target constraint) key to the variant to run
/// there. Keys are unique.
#[derive(Debug, Clone)]
pub struct MultiPlatformExecuteProcessRequest(
    pub Vec<((PlatformConstraint, PlatformConstraint), ExecuteProcessRequest)>,
);

/// The first entry of `s` keyed by `key`, if any.
pub open spec fn first_keyed(
    s: Seq<((PlatformConstraint, PlatformConstraint), ExecuteProcessRequest)>,
    key: (PlatformConstraint, PlatformConstraint),
) -> Option<ExecuteProcessRequest>
    decreases s.len(),
{
    if s.len() == 0 {
        None
    } else if s[0].0 == key {
        Some(s[0].1)
    } else {
        first_keyed(s.drop_first(), key)
    }
}

impl MultiPlatformExecuteProcessRequest {
    /// Whether some entry carries this key.
    pub open spec fn has_key(self, key: (PlatformConstraint, PlatformConstraint)) -> bool {
        exists|i: int| 0 <= i < self.0@.len() && self.0@[i].0 == key
    }

    /// The variant stored under `key`.
    pub open spec fn spec_get(self, key: (PlatformConstraint, PlatformConstraint)) -> Option<
        ExecuteProcessRequest,
    > {
        first_keyed(self.0@, key)
    }

    /// Keys are unique: the mapping is a map, not a multimap.
    pub open spec fn wf(self) -> bool {
        forall|i: int, j: int|
            0 <= i < j < self.0@.len() ==> self.0@[i].0 != self.0@[j].0
    }
}

/// The externally observable outcome of one whole execution, success and
/// controlled failure (such as a timeout) alike.
#[derive(Debug, Clone, PartialEq, Eq)]
pub struct FallibleExecuteProcessResultWithPlatform {
    pub stdout: Vec<u8>,
    pub stderr: Vec<u8>,
    pub exit_code: i32,
    /// The content-addressed snapshot of the declared outputs.
    pub output_directory: Digest,
    /// A record of prior attempts; always empty at this layer.
    pub execution_attempts: Vec<String>,
    /// The platform the command actually ran on.
    pub platform: Platform,
}

/// Why an execution could not produce a result. `TimeoutElapsed` is the one
/// kind produced only by the deadline race, and the one kind absorbed back
/// into a normal-shaped result instead of surfaced.
#[derive(Debug, Clone, PartialEq, Eq)]
pub enum ExecutionError {
    /// No platform-compatible request variant was found.
    NoCompatibleRequest,
    /// Creating the sandbox, materializing inputs, linking the toolchain
    /// home, or pre-creating output parents failed.
    SandboxFailure(String),
    /// The executable could not be launched.
    SpawnFailure(String),
    /// Reading the child's output pipes failed.
    StreamFailure(String),
    /// The deadline elapsed before the child's output was fully collected.
    TimeoutElapsed,
    /// Expanding output globs or building the snapshot failed.
    SnapshotFailure(String),
}

} // verus!
