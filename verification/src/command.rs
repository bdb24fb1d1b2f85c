//! Command descriptions and the privilege-escalation wrapper: an elevated
//! command runs the source program with identical arguments, the defined
//! environment entries, and the same working directory, under the elevation
//! binary. The source command is never mutated.

use vstd::prelude::*;
use crate::BootError;

verus! {

/// One environment entry of a command description. `value: None` records a
/// variable explicitly unset on the command.
pub struct EnvVar {
    pub key: String,
    pub value: Option<String>,
}

/// A command description: program, argument list, environment mapping and
/// working directory — everything a spawned process is given.
pub struct Cmd {
    pub program: String,
    pub args: Vec<String>,
    pub env: Vec<EnvVar>,
    pub cwd: Option<String>,
}

/// The argument list as character sequences.
pub open spec fn arg_views(args: Seq<String>) -> Seq<Seq<char>> {
    args.map_values(|a: String| a@)
}

/// The (key, value) pairs of the defined entries of an environment, in
/// order; explicitly unset entries contribute nothing.
pub open spec fn defined_pairs(env: Seq<EnvVar>) -> Seq<(Seq<char>, Seq<char>)>
    decreases env.len(),
{
    if env.len() == 0 {
        Seq::empty()
    } else {
        let rest = defined_pairs(env.drop_last());
        match env.last().value {
            Some(v) => rest.push((env.last().key@, v@)),
            None => rest,
        }
    }
}

impl Cmd {
    /// An environment is a mapping: keys are distinct.
    pub open spec fn wf(&self) -> bool {
        forall|i: int, j: int|
            0 <= i < j < self.env@.len() ==> self.env@[i].key@ != self.env@[j].key@
    }

    pub open spec fn cwd_view(&self) -> Option<Seq<char>> {
        match self.cwd {
            Some(d) => Some(d@),
            None => None,
        }
    }

    /// A fresh command: a program alone, with no arguments, no environment
    /// entries and no working directory of its own.
    pub fn new(program: String) -> (r: Cmd)
        ensures
            r.program@ == program@,
            r.args@.len() == 0,
            r.env@.len() == 0,
            r.cwd is None,
            r.wf(),
    {
        Cmd { program, args: Vec::new(), env: Vec::new(), cwd: None }
    }

    /// Appends one argument.
    pub fn arg(&mut self, a: String)
        ensures
            final(self).program == old(self).program,
            final(self).args@ == old(self).args@.push(a),
            final(self).env == old(self).env,
            final(self).cwd == old(self).cwd,
    {
        self.args.push(a);
    }
}

/// What it means for `r` to be the elevation of `src` under the elevation
/// binary at `sudo_path`: the program becomes the elevation binary; the
/// source program is the first argument and the source arguments follow it
/// unchanged and in order; exactly the defined environment entries are
/// forwarded; the working directory is kept.
pub open spec fn is_elevation_of(r: Cmd, sudo_path: Seq<char>, src: Cmd) -> bool {
    &&& r.program@ == sudo_path
    &&& arg_views(r.args@) == seq![src.program@] + arg_views(src.args@)
    &&& forall|i: int| 0 <= i < r.env@.len() ==> r.env@[i].value is Some
    &&& defined_pairs(r.env@) == defined_pairs(src.env@)
    &&& r.cwd_view() == src.cwd_view()
}

/// Builds the equivalent command under elevated privileges. Built fresh per
/// invocation from an immutable source; `cmd` itself is left untouched.
pub fn elevate(sudo_path: &str, cmd: &Cmd) -> (r: Cmd)
    ensures
        is_elevation_of(r, sudo_path@, *cmd),
        r.args@.len() == cmd.args@.len() + 1,
        r.args@[0]@ == cmd.program@,
        forall|i: int| 0 <= i < cmd.args@.len() ==> r.args@[i + 1]@ == cmd.args@[i]@,
{
    let mut args: Vec<String> = Vec::new();
    args.push(cmd.program.clone());
    let mut i: usize = 0;
    while i < cmd.args.len()
        invariant
            0 <= i <= cmd.args@.len(),
            args@.len() == i + 1,
            args@[0]@ == cmd.program@,
            forall|j: int| 0 <= j < i ==> args@[j + 1]@ == cmd.args@[j]@,
        decreases cmd.args@.len() - i,
    {
        args.push(cmd.args[i].clone());
        i = i + 1;
    }
    let mut env: Vec<EnvVar> = Vec::new();
    let mut k: usize = 0;
    proof {
        assert(cmd.env@.subrange(0, 0) =~= Seq::<EnvVar>::empty());
    }
    while k < cmd.env.len()
        invariant
            0 <= k <= cmd.env@.len(),
            forall|j: int| 0 <= j < env@.len() ==> env@[j].value is Some,
            defined_pairs(env@) == defined_pairs(cmd.env@.subrange(0, k as int)),
            forall|j: int| 0 <= j < env@.len() ==> #[trigger] env@[j].value is Some,
            defined_pairs(env@).len() == env@.len(),
            forall|j: int| 0 <= j < env@.len() ==> #[trigger] defined_pairs(env@)[j] == (
                env@[j].key@,
                env@[j].value.unwrap()@,
            ),
        decreases cmd.env@.len() - k,
    {
        let ghost env0 = env@;
        let ghost pre = cmd.env@.subrange(0, k as int);
        let ghost cur = cmd.env@.subrange(0, k as int + 1);
        proof {
            assert(cur.drop_last() =~= pre);
            assert(cur.last() == cmd.env@[k as int]);
        }
        match &cmd.env[k].value {
            Some(v) => {
                env.push(EnvVar { key: cmd.env[k].key.clone(), value: Some(v.clone()) });
                proof {
                    assert(env@.drop_last() =~= env0);
                    assert(defined_pairs(env@) == defined_pairs(env0).push(
                        (env@.last().key@, env@.last().value.unwrap()@),
                    ));
                }
            },
            None => {
                proof {
                    assert(defined_pairs(cur) == defined_pairs(pre));
                }
            },
        }
        k = k + 1;
    }
    proof {
        assert(cmd.env@.subrange(0, cmd.env@.len() as int) =~= cmd.env@);
        assert(arg_views(args@) =~= seq![cmd.program@] + arg_views(cmd.args@));
    }
    let cwd = match &cmd.cwd {
        Some(d) => Some(d.clone()),
        None => None,
    };
    Cmd { program: sudo_path.to_owned(), args, env, cwd }
}

/// The zero-argument credential-validation invocation of the elevation
/// binary: it is run eagerly, before any elevated command is built, so that
/// a missing credential fails the run before any privileged side effect.
pub fn sudo_validate_cmd(sudo_path: &str) -> (r: Cmd)
    ensures
        r.program@ == sudo_path@,
        arg_views(r.args@) == seq!["-v"@],
        r.env@.len() == 0,
        r.cwd is None,
        r.wf(),
{
    let mut c = Cmd::new(sudo_path.to_owned());
    c.arg("-v".to_owned());
    proof {
        assert(arg_views(c.args@) =~= seq!["-v"@]);
    }
    c
}

/// Elevates `cmd` once the eager credential validation has been run:
/// `validated` is the validation invocation's success. A failed validation
/// refuses with `Credential` before any elevated command is built.
pub fn sudo(sudo_path: &str, validated: bool, cmd: &Cmd) -> (r: Result<Cmd, BootError>)
    ensures
        validated ==> (r matches Ok(e) && is_elevation_of(e, sudo_path@, *cmd)),
        !validated ==> r == Err::<Cmd, BootError>(BootError::Credential),
{
    if validated {
        Ok(elevate(sudo_path, cmd))
    } else {
        Err(BootError::Credential)
    }
}

proof fn lemma_defined_pairs_from_some(env: Seq<EnvVar>, j: int)
    requires
        0 <= j < defined_pairs(env).len(),
    ensures
        exists|i: int|
            0 <= i < env.len() && env[i].key@ == defined_pairs(env)[j].0 && env[i].value is Some,
    decreases env.len(),
{
    if env.len() > 0 {
        let rest = defined_pairs(env.drop_last());
        match env.last().value {
            Some(v) => {
                if j < rest.len() {
                    lemma_defined_pairs_from_some(env.drop_last(), j);
                    let i = choose|i: int|
                        0 <= i < env.drop_last().len() && env.drop_last()[i].key@ == defined_pairs(
                            env.drop_last(),
                        )[j].0 && env.drop_last()[i].value is Some;
                    assert(env[i].key@ == defined_pairs(env)[j].0 && env[i].value is Some);
                } else {
                    assert(env[env.len() - 1].key@ == defined_pairs(env)[j].0);
                }
            },
            None => {
                lemma_defined_pairs_from_some(env.drop_last(), j);
                let i = choose|i: int|
                    0 <= i < env.drop_last().len() && env.drop_last()[i].key@ == defined_pairs(
                        env.drop_last(),
                    )[j].0 && env.drop_last()[i].value is Some;
                assert(env[i].key@ == defined_pairs(env)[j].0 && env[i].value is Some);
            },
        }
    }
}

/// Law: an elevated command forwards only defined environment variables — a
/// variable explicitly unset in the source command never appears in the
/// elevated command's environment.
pub proof fn unset_never_forwarded(src: Cmd, elev: Cmd, sudo_path: Seq<char>, k: Seq<char>)
    requires
        src.wf(),
        is_elevation_of(elev, sudo_path, src),
        exists|i: int| 0 <= i < src.env@.len() && src.env@[i].key@ == k && src.env@[i].value is None,
    ensures
        forall|j: int| 0 <= j < elev.env@.len() ==> elev.env@[j].key@ != k,
{
    let unset = choose|i: int|
        0 <= i < src.env@.len() && src.env@[i].key@ == k && src.env@[i].value is None;
    assert forall|j: int| 0 <= j < elev.env@.len() implies elev.env@[j].key@ != k by {
        lemma_defined_pairs_all_some(elev.env@, j);
        assert(elev.env@[j].key@ == defined_pairs(elev.env@)[j].0);
        lemma_defined_pairs_from_some(src.env@, j);
        let i = choose|i: int|
            0 <= i < src.env@.len() && src.env@[i].key@ == defined_pairs(src.env@)[j].0
                && src.env@[i].value is Some;
        if elev.env@[j].key@ == k {
            assert(src.env@[i].key@ == k);
            assert(i != unset);
        }
    }
}

proof fn lemma_defined_pairs_all_some(env: Seq<EnvVar>, j: int)
    requires
        forall|i: int| 0 <= i < env.len() ==> #[trigger] env[i].value is Some,
        0 <= j < env.len(),
    ensures
        defined_pairs(env).len() == env.len(),
        defined_pairs(env)[j].0 == env[j].key@,
    decreases env.len(),
{
    if env.len() > 0 {
        assert(forall|i: int|
            0 <= i < env.drop_last().len() ==> #[trigger] env.drop_last()[i].value is Some);
        lemma_defined_pairs_len_all_some(env.drop_last());
        if j < env.len() - 1 {
            lemma_defined_pairs_all_some(env.drop_last(), j);
        }
    }
}

proof fn lemma_defined_pairs_len_all_some(env: Seq<EnvVar>)
    requires
        forall|i: int| 0 <= i < env.len() ==> #[trigger] env[i].value is Some,
    ensures
        defined_pairs(env).len() == env.len(),
    decreases env.len(),
{
    if env.len() > 0 {
        assert(forall|i: int|
            0 <= i < env.drop_last().len() ==> #[trigger] env.drop_last()[i].value is Some);
        lemma_defined_pairs_len_all_some(env.drop_last());
    }
}

} // verus!
