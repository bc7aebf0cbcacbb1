//! Planning a hermetic spawn: the command, its arguments, its working
//! directory, and a fully explicit environment in which `PATH` is
//! deliberately the empty string, so that the platform's own executable
//! search is neutralized and nothing is inherited from the caller.

use vstd::prelude::*;
use vstd::string::StringExecFns;

use crate::request::{ExecuteProcessRequest, RelPath};

verus! {

/// The value `key` takes in an environment built by applying `entries` in
/// order to an initially empty environment: the last entry wins.
pub open spec fn env_value(entries: Seq<(String, String)>, key: Seq<char>) -> Option<Seq<char>>
    decreases entries.len(),
{
    if entries.len() == 0 {
        None
    } else if entries.last().0@ == key {
        Some(entries.last().1@)
    } else {
        env_value(entries.drop_last(), key)
    }
}

/// `base` with every segment of `rel` appended behind a `/` separator.
pub open spec fn joined_path(base: Seq<char>, rel: Seq<Seq<char>>) -> Seq<char>
    decreases rel.len(),
{
    if rel.len() == 0 {
        base
    } else {
        joined_path(base, rel.drop_last()) + "/"@ + rel.last()
    }
}

/// A planned spawn that accepts no input stream and does not consult the
/// `PATH`: the child's environment is exactly the listed entries applied in
/// order to an empty environment, and the first entry pins `PATH` to the
/// empty string.
#[derive(Debug, Clone)]
pub struct StreamedHermeticCommand {
    /// The executable, taken verbatim; never searched for.
    pub program: String,
    /// Its arguments, in order.
    pub args: Vec<String>,
    /// The environment entries handed to the operating system, in order.
    pub env: Vec<(String, String)>,
    /// The absolute working directory, where one was chosen.
    pub current_dir: Option<String>,
}

impl StreamedHermeticCommand {
    /// A plan for `program` with no arguments yet, and the environment
    /// holding nothing but the deliberate empty `PATH`.
    pub fn new(program: &str) -> (r: StreamedHermeticCommand)
        ensures
            r.program@ == program@,
            r.args@.len() == 0,
            r.env@.len() == 1,
            r.env@[0].0@ == "PATH"@,
            r.env@[0].1@ == Seq::<char>::empty(),
            r.current_dir is None,
    {
        let path_key: String = "PATH".to_owned();
        let path_value: String = String::new();
        let env: Vec<(String, String)> = vec![(path_key, path_value)];
        StreamedHermeticCommand {
            program: program.to_owned(),
            args: Vec::new(),
            env,
            current_dir: None,
        }
    }

    /// Appends arguments, keeping everything else as it was.
    pub fn args(&mut self, args: &Vec<String>)
        ensures
            final(self).args@ == old(self).args@ + args@,
            final(self).program == old(self).program,
            final(self).env == old(self).env,
            final(self).current_dir == old(self).current_dir,
    {
        let n = args.len();
        let mut i: usize = 0;
        while i < n
            invariant
                n == args@.len(),
                i <= n,
                self.args@ == old(self).args@ + args@.take(i as int),
                self.program == old(self).program,
                self.env == old(self).env,
                self.current_dir == old(self).current_dir,
            decreases n - i,
        {
            self.args.push(args[i].clone());
            proof {
                assert(self.args@ =~= old(self).args@ + args@.take(i + 1));
            }
            i += 1;
        }
        proof {
            assert(args@.take(n as int) =~= args@);
        }
    }

    /// Appends environment entries, which the operating system applies in
    /// order over what is already listed: a later entry overrides an
    /// earlier one of the same name.
    pub fn envs(&mut self, vars: &Vec<(String, String)>)
        ensures
            final(self).env@ == old(self).env@ + vars@,
            final(self).program == old(self).program,
            final(self).args == old(self).args,
            final(self).current_dir == old(self).current_dir,
    {
        let n = vars.len();
        let mut i: usize = 0;
        while i < n
            invariant
                n == vars@.len(),
                i <= n,
                self.env@ == old(self).env@ + vars@.take(i as int),
                self.program == old(self).program,
                self.args == old(self).args,
                self.current_dir == old(self).current_dir,
            decreases n - i,
        {
            let entry = &vars[i];
            self.env.push((entry.0.clone(), entry.1.clone()));
            proof {
                assert(self.env@ =~= old(self).env@ + vars@.take(i + 1));
            }
            i += 1;
        }
        proof {
            assert(vars@.take(n as int) =~= vars@);
        }
    }

    /// Chooses the working directory.
    pub fn current_dir(&mut self, dir: String)
        ensures
            final(self).current_dir matches Some(d) && d@ == dir@,
            final(self).program == old(self).program,
            final(self).args == old(self).args,
            final(self).env == old(self).env,
    {
        self.current_dir = Some(dir);
    }
}

/// `base` extended below by a relative path, one `/`-separated segment at a
/// time.
pub fn join_path(base: &str, rel: &RelPath) -> (r: String)
    ensures
        r@ == joined_path(base@, rel@),
{
    let mut out: String = base.to_owned();
    let n = rel.segments.len();
    let mut i: usize = 0;
    while i < n
        invariant
            n == rel.segments@.len(),
            i <= n,
            out@ == joined_path(base@, rel@.take(i as int)),
        decreases n - i,
    {
        out.append("/");
        out.append(rel.segments[i].as_str());
        proof {
            assert(rel@.take(i + 1).drop_last() =~= rel@.take(i as int));
            assert(rel@.take(i + 1).last() == rel@[i as int]);
        }
        i += 1;
    }
    proof {
        assert(rel@.take(n as int) =~= rel@);
    }
    out
}

/// The spawn plan for `req` inside the sandbox at `workdir_path`: the first
/// argv entry verbatim as the program, the rest as arguments, the request's
/// declared environment behind the deliberate empty `PATH`, and the sandbox
/// path — extended by the request's working subdirectory, where one was
/// declared — as the working directory.
pub fn plan_hermetic_command(workdir_path: &str, req: &ExecuteProcessRequest) -> (r:
    StreamedHermeticCommand)
    requires
        req.wf(),
    ensures
        r.program@ == req.argv@[0]@,
        r.args@ == req.argv@.drop_first(),
        r.env@.len() == req.env@.len() + 1,
        r.env@[0].0@ == "PATH"@,
        r.env@[0].1@ == Seq::<char>::empty(),
        r.env@.drop_first() == req.env@,
        (match req.working_directory {
            Some(wd) => r.current_dir matches Some(d) && d@ == joined_path(workdir_path@, wd@),
            None => r.current_dir matches Some(d) && d@ == workdir_path@,
        }),
{
    let mut cmd = StreamedHermeticCommand::new(req.argv[0].as_str());
    let mut rest: Vec<String> = Vec::new();
    let n = req.argv.len();
    let mut i: usize = 1;
    while i < n
        invariant
            1 <= i <= n,
            n == req.argv@.len(),
            rest@ == req.argv@.subrange(1, i as int),
        decreases n - i,
    {
        rest.push(req.argv[i].clone());
        proof {
            assert(rest@ =~= req.argv@.subrange(1, i + 1));
        }
        i += 1;
    }
    proof {
        assert(req.argv@.subrange(1, n as int) =~= req.argv@.drop_first());
        assert(req.argv@.subrange(1, 1) =~= Seq::<String>::empty());
    }
    cmd.args(&rest);
    let dir: String = match &req.working_directory {
        Some(wd) => join_path(workdir_path, wd),
        None => workdir_path.to_owned(),
    };
    cmd.current_dir(dir);
    cmd.envs(&req.env);
    proof {
        assert(cmd.env@.drop_first() =~= req.env@);
        assert(cmd.args@ =~= req.argv@.drop_first());
    }
    cmd
}

/// Hermeticity: in the environment of a command planned here — the empty
/// `PATH` entry followed by the request's declared entries — a request that
/// does not itself declare `PATH` runs with `PATH` pinned to the empty
/// string, and every other name resolves exactly as the declared entries
/// alone dictate: nothing further is inherited from anywhere.
pub proof fn lemma_hermetic_environment(declared: Seq<(String, String)>, full: Seq<(String, String)>)
    requires
        full.len() == declared.len() + 1,
        full[0].0@ == "PATH"@,
        full[0].1@ == Seq::<char>::empty(),
        full.drop_first() == declared,
        forall|i: int| 0 <= i < declared.len() ==> (#[trigger] declared[i]).0@ != "PATH"@,
    ensures
        env_value(full, "PATH"@) == Some(Seq::<char>::empty()),
        forall|k: Seq<char>|
            k != "PATH"@ ==> #[trigger] env_value(full, k) == env_value(declared, k),
    decreases declared.len(),
{
    if declared.len() == 0 {
        assert(full.last() == full[0]);
        assert(full.drop_last() =~= Seq::<(String, String)>::empty());
        assert forall|k: Seq<char>| k != "PATH"@ implies #[trigger] env_value(full, k)
            == env_value(declared, k) by {
            assert(env_value(full, k) == env_value(full.drop_last(), k));
        }
    } else {
        let declared2 = declared.drop_last();
        let full2 = full.drop_last();
        assert(full.last() == declared.last()) by {
            assert(full.drop_first()[declared.len() - 1] == full[declared.len() as int]);
        }
        assert(full2[0] == full[0]);
        assert(full2.drop_first() =~= declared2);
        assert(declared.last() == declared[declared.len() - 1]);
        lemma_hermetic_environment(declared2, full2);
        assert(env_value(full, "PATH"@) == env_value(full2, "PATH"@));
        assert forall|k: Seq<char>| k != "PATH"@ implies #[trigger] env_value(full, k)
            == env_value(declared, k) by {
            if declared.last().0@ == k {
                assert(env_value(full, k) == Some(full.last().1@));
                assert(env_value(declared, k) == Some(declared.last().1@));
            } else {
                assert(env_value(full, k) == env_value(full2, k));
                assert(env_value(declared, k) == env_value(declared2, k));
            }
        }
    }
}

} // verus!
