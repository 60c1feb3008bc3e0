//! The worker pool's verified half: validating a pool request, laying out
//! one worker per requested target with its id, name and options, building
//! the argument list a target is spawned with, and recognising the sentinel
//! command that shuts a worker down.
//!
//! The threads, channels and child processes themselves are I/O and live
//! outside the library; they follow the plan produced here.

use vstd::prelude::*;
use vstd::string::StrSliceExecFns;

use crate::errors::Error;

verus! {

/// What a spawn-options value amounts to: an executable path and the extra
/// arguments, as plain text.
pub ghost struct SpawnOptionsView {
    pub exepath: Seq<char>,
    pub args: Seq<Seq<char>>,
}

/// Configuration for spawning the tool: the executable to launch and extra
/// command-line arguments placed before the target name. An empty `exepath`
/// is not special; choosing the well-known default happens only where a
/// whole options value is absent.
pub struct R2PipeSpawnOptions {
    pub exepath: String,
    pub args: Vec<&'static str>,
}

impl View for R2PipeSpawnOptions {
    type V = SpawnOptionsView;

    open spec fn view(&self) -> SpawnOptionsView {
        SpawnOptionsView { exepath: self.exepath@, args: self.args.deep_view() }
    }
}

impl DeepView for R2PipeSpawnOptions {
    type V = SpawnOptionsView;

    open spec fn deep_view(&self) -> SpawnOptionsView {
        self@
    }
}

impl Clone for R2PipeSpawnOptions {
    /// An options value is cloned per use, so one value can drive several
    /// spawns; the copy carries the same path and arguments.
    fn clone(&self) -> (r: Self)
        ensures
            r@ == self@,
    {
        let mut args: Vec<&'static str> = Vec::new();
        let mut j: usize = 0;
        while j < self.args.len()
            invariant
                j <= self.args@.len(),
                args@ =~= self.args@.subrange(0, j as int),
            decreases self.args@.len() - j,
        {
            args.push(self.args[j]);
            j = j + 1;
        }
        proof {
            assert(args@ =~= self.args@);
            assert(args.deep_view() =~= self.args.deep_view());
        }
        R2PipeSpawnOptions { exepath: self.exepath.clone(), args }
    }
}

impl Default for R2PipeSpawnOptions {
    /// The default options: an empty path and no extra arguments.
    fn default() -> (r: Self)
        ensures
            r@.exepath == Seq::<char>::empty(),
            r@.args == Seq::<Seq<char>>::empty(),
    {
        let r = R2PipeSpawnOptions { exepath: String::new(), args: Vec::new() };
        proof {
            assert(r@.args =~= Seq::<Seq<char>>::empty());
        }
        r
    }
}

/// The executable a spawn resolves to: the configured path, or the
/// well-known name looked up on the process search path when no options
/// were given.
pub open spec fn spawn_exepath(opts: Option<R2PipeSpawnOptions>) -> Seq<char> {
    match opts {
        Some(o) => o@.exepath,
        None => "r2"@,
    }
}

/// The extra arguments a spawn inserts between the quiet flag and the
/// target name.
pub open spec fn spawn_extra_args(opts: Option<R2PipeSpawnOptions>) -> Seq<Seq<char>> {
    match opts {
        Some(o) => o@.args,
        None => Seq::empty(),
    }
}

/// Resolves the executable and the full argument list for spawning one
/// target: the quiet flag first, then the configured extra arguments, then
/// the target name.
pub fn spawn_args(name: &str, opts: &Option<R2PipeSpawnOptions>) -> (r: (String, Vec<String>))
    ensures
        r.0@ == spawn_exepath(*opts),
        r.1@.len() == spawn_extra_args(*opts).len() + 2,
        r.1@[0]@ == "-q0"@,
        forall|i: int|
            0 <= i < spawn_extra_args(*opts).len() ==> (#[trigger] r.1@[i + 1])@
                == spawn_extra_args(*opts)[i],
        r.1@[r.1@.len() - 1]@ == name@,
{
    let exepath: String = match opts {
        Some(o) => o.exepath.clone(),
        None => "r2".to_owned(),
    };
    let mut argv: Vec<String> = Vec::new();
    argv.push("-q0".to_owned());
    match opts {
        Some(o) => {
            let mut j: usize = 0;
            while j < o.args.len()
                invariant
                    j <= o.args@.len(),
                    argv@.len() == j + 1,
                    argv@[0]@ == "-q0"@,
                    forall|i: int|
                        0 <= i < j ==> (#[trigger] argv@[i + 1])@ == o.args@[i]@,
                decreases o.args@.len() - j,
            {
                argv.push(o.args[j].to_owned());
                j = j + 1;
            }
        },
        None => {},
    }
    argv.push(name.to_owned());
    (exepath, argv)
}

/// One pool member as planned: its id (the position of its target in the
/// request), the target it will open, and the options it will be spawned
/// with. The background thread that owns the actual connection follows this
/// plan.
pub struct WorkerPlan {
    pub id: u16,
    pub name: &'static str,
    pub opts: Option<R2PipeSpawnOptions>,
}

/// Lays out the worker pool for a list of targets and a matching list of
/// options: one worker per target, in request order, with id equal to the
/// request index. Lists of different lengths are an `ArgumentMismatch` and
/// no worker is planned.
pub fn threads_plan(names: &Vec<&'static str>, opts: &Vec<Option<R2PipeSpawnOptions>>) -> (r:
    Result<Vec<WorkerPlan>, Error>)
    requires
        names@.len() <= 0x10000,
    ensures
        names@.len() != opts@.len() ==> r == Err::<Vec<WorkerPlan>, Error>(
            Error::ArgumentMismatch,
        ),
        names@.len() == opts@.len() ==> (r matches Ok(plan) && plan@.len() == names@.len()
            && (forall|i: int|
            0 <= i < plan@.len() ==> (#[trigger] plan@[i]).id as int == i && plan@[i].name@
                == names@[i]@ && plan@[i].opts.deep_view() == opts@[i].deep_view())),
{
    if names.len() != opts.len() {
        return Err(Error::ArgumentMismatch);
    }
    let mut plan: Vec<WorkerPlan> = Vec::new();
    let mut n: usize = 0;
    while n < names.len()
        invariant
            n <= names@.len() <= 0x10000,
            names@.len() == opts@.len(),
            plan@.len() == n,
            forall|i: int|
                0 <= i < n ==> (#[trigger] plan@[i]).id as int == i && plan@[i].name@
                    == names@[i]@ && plan@[i].opts.deep_view() == opts@[i].deep_view(),
        decreases names@.len() - n,
    {
        let worker = WorkerPlan {
            id: n as u16,
            name: names[n],
            opts: clone_options(&opts[n]),
        };
        plan.push(worker);
        n = n + 1;
    }
    Ok(plan)
}

/// Copies one entry of the options list for the worker that will own it.
fn clone_options(opts: &Option<R2PipeSpawnOptions>) -> (r: Option<R2PipeSpawnOptions>)
    ensures
        r.deep_view() == opts.deep_view(),
{
    match opts {
        Some(o) => Some(o.clone()),
        None => None,
    }
}

/// Recognises the sentinel command that asks a worker's background thread
/// to terminate cleanly.
pub fn is_quit(cmd: &str) -> (r: bool)
    ensures
        r == (cmd@ == "q"@),
{
    proof {
        reveal_strlit("q");
    }
    if cmd.unicode_len() == 1 {
        let r = cmd.get_char(0) == 'q';
        proof {
            if r {
                assert(cmd@ =~= "q"@);
            } else {
                assert(cmd@[0] != "q"@[0]);
            }
        }
        r
    } else {
        false
    }
}

} // verus!
