//! The uninstall: what to remove, in what order.
//!
//! The binary goes first (on Windows its whole directory, then its `PATH`
//! entry), then the configuration directory unless it is to be kept. Something
//! that is already gone counts as removed (see `tolerate_missing`); any other
//! failure ends the uninstall.
use vstd::prelude::*;
use vstd::string::*;
use crate::args::UninstallArgs;
use crate::errors::{missing_outcome, ErrorKind};
use crate::release::{binary_dir, binary_directory, binary_file, binary_path, Platform};
use crate::user_path::{lemma_remove_leaves_none, path_without, segments, updated};

verus! {

/// One removal, as the caller performs it.
#[derive(Debug)]
pub enum Removal {
    /// Remove the file at `path`.
    File { path: String },
    /// Remove the directory at `path` with all it holds.
    Directory { path: String },
    /// Remove `directory` from the per-user `PATH` (see `remove_from_path`).
    PathEntry { directory: String },
    /// Remove the configuration directory (see `get_config_dir`) with all it
    /// holds.
    ConfigDirectory,
}

/// A removal, over views.
pub enum Target {
    File(Seq<char>),
    Directory(Seq<char>),
    PathEntry(Seq<char>),
    ConfigDirectory,
}

impl View for Removal {
    type V = Target;

    open spec fn view(&self) -> Target {
        match self {
            Removal::File { path } => Target::File(path@),
            Removal::Directory { path } => Target::Directory(path@),
            Removal::PathEntry { directory } => Target::PathEntry(directory@),
            Removal::ConfigDirectory => Target::ConfigDirectory,
        }
    }
}

/// The removals of an uninstall, in order.
pub open spec fn uninstall_targets(keep_config: bool, platform: Platform) -> Seq<Target> {
    let binary = match platform {
        Platform::Linux => seq![Target::File(binary_path(platform))],
        Platform::Windows => seq![
            Target::Directory(binary_directory(platform)),
            Target::PathEntry(binary_directory(platform)),
        ],
    };
    if keep_config {
        binary
    } else {
        binary.push(Target::ConfigDirectory)
    }
}

pub open spec fn targets(v: Seq<Removal>) -> Seq<Target> {
    v.map_values(|r: Removal| r@)
}

/// The removals that uninstalling asks for, in order.
pub fn uninstall(args: &UninstallArgs, platform: Platform) -> (r: Vec<Removal>)
    ensures
        targets(r@) == uninstall_targets(args.keep_config, platform),
{
    let mut plan: Vec<Removal> = Vec::new();
    match platform {
        Platform::Linux => {
            plan.push(Removal::File { path: String::from_str(binary_file(platform)) });
        },
        Platform::Windows => {
            plan.push(Removal::Directory { path: String::from_str(binary_dir(platform)) });
            plan.push(Removal::PathEntry { directory: String::from_str(binary_dir(platform)) });
        },
    }
    if !args.keep_config {
        plan.push(Removal::ConfigDirectory);
    }
    assert(targets(plan@) =~= uninstall_targets(args.keep_config, platform));
    plan
}

/// The machine as far as an uninstall sees it: the paths that exist, the
/// per-user `PATH` value, and the configuration directory.
pub struct Machine {
    pub present: Set<Seq<char>>,
    pub path_var: Seq<char>,
    pub config_dir: Seq<char>,
}

/// Removing `p`: gone when it was there, `NotFound` when it was not.
pub open spec fn remove_present(m: Machine, p: Seq<char>) -> (Machine, Option<ErrorKind>) {
    if m.present.contains(p) {
        (Machine { present: m.present.remove(p), ..m }, None)
    } else {
        (m, Some(ErrorKind::NotFound))
    }
}

/// What performing one removal does to the machine, and how it fails.
pub open spec fn perform(m: Machine, t: Target) -> (Machine, Option<ErrorKind>) {
    match t {
        Target::File(p) => remove_present(m, p),
        Target::Directory(p) => remove_present(m, p),
        Target::PathEntry(d) => (
            Machine { path_var: updated(m.path_var, path_without(m.path_var, d)), ..m },
            None,
        ),
        Target::ConfigDirectory => remove_present(m, m.config_dir),
    }
}

/// The machine after performing the removals in order, each outcome judged
/// by `missing_outcome`; `None` when one of them ends the uninstall.
pub open spec fn run_removals(m: Machine, ts: Seq<Target>) -> Option<Machine>
    decreases ts.len(),
{
    if ts.len() == 0 {
        Some(m)
    } else {
        let (next, failure) = perform(m, ts[0]);
        if missing_outcome(failure) is Ok {
            run_removals(next, ts.drop_first())
        } else {
            None
        }
    }
}

proof fn lemma_removals_succeed(m: Machine, ts: Seq<Target>)
    ensures
        run_removals(m, ts) is Some,
    decreases ts.len(),
{
    if ts.len() > 0 {
        lemma_removals_succeed(perform(m, ts[0]).0, ts.drop_first());
    }
}

/// Uninstalling twice in a row succeeds both times: what is already gone
/// counts as removed, and the `PATH` entry is dropped only where it stands.
pub proof fn lemma_uninstall_twice(m: Machine, keep_config: bool, platform: Platform)
    ensures
        run_removals(m, uninstall_targets(keep_config, platform)) is Some,
        run_removals(
            run_removals(m, uninstall_targets(keep_config, platform))->0,
            uninstall_targets(keep_config, platform),
        ) is Some,
{
    let ts = uninstall_targets(keep_config, platform);
    lemma_removals_succeed(m, ts);
    lemma_removals_succeed(run_removals(m, ts)->0, ts);
}

/// The path whose removal takes the binary away.
pub open spec fn binary_target(platform: Platform) -> Seq<char> {
    match platform {
        Platform::Linux => binary_path(platform),
        Platform::Windows => binary_directory(platform),
    }
}

/// After an uninstall the binary is gone, on Windows its directory is in no
/// segment of `PATH`, and the configuration directory is gone, or where it
/// is kept, there as before.
pub proof fn lemma_uninstall_effect(m: Machine, keep_config: bool, platform: Platform)
    requires
        m.config_dir != binary_target(platform),
    ensures
        ({
            let after = run_removals(m, uninstall_targets(keep_config, platform))->0;
            &&& !after.present.contains(binary_target(platform))
            &&& platform == Platform::Windows ==> !segments(after.path_var).contains(
                binary_directory(platform),
            )
            &&& keep_config ==> after.present.contains(m.config_dir) == m.present.contains(
                m.config_dir,
            )
            &&& !keep_config ==> !after.present.contains(m.config_dir)
        }),
{
    let ts = uninstall_targets(keep_config, platform);
    let b = binary_target(platform);
    let m1 = perform(m, ts[0]).0;
    assert(!m1.present.contains(b));
    assert(m1.present.contains(m.config_dir) == m.present.contains(m.config_dir));
    assert(m1.config_dir == m.config_dir);
    match platform {
        Platform::Linux => {
            if keep_config {
                assert(ts.drop_first() =~= Seq::<Target>::empty());
            } else {
                assert(ts.drop_first() =~= seq![Target::ConfigDirectory]);
                let m2 = perform(m1, Target::ConfigDirectory).0;
                assert(ts.drop_first().drop_first() =~= Seq::<Target>::empty());
                assert(run_removals(m2, ts.drop_first().drop_first()) == Some(m2));
                assert(run_removals(m1, ts.drop_first()) == Some(m2));
            }
        },
        Platform::Windows => {
            let d = binary_directory(platform);
            reveal_strlit("C:\\ProgramData\\seaside");
            assert(d.len() > 0);
            let m2 = perform(m1, Target::PathEntry(d)).0;
            lemma_remove_leaves_none(m1.path_var, d);
            assert(!segments(m2.path_var).contains(d));
            if keep_config {
                assert(ts.drop_first() =~= seq![Target::PathEntry(d)]);
                assert(ts.drop_first().drop_first() =~= Seq::<Target>::empty());
                assert(run_removals(m1, ts.drop_first()) == Some(m2));
            } else {
                assert(ts.drop_first() =~= seq![Target::PathEntry(d), Target::ConfigDirectory]);
                let m3 = perform(m2, Target::ConfigDirectory).0;
                assert(ts.drop_first().drop_first() =~= seq![Target::ConfigDirectory]);
                assert(ts.drop_first().drop_first().drop_first() =~= Seq::<Target>::empty());
                assert(run_removals(m3, ts.drop_first().drop_first().drop_first()) == Some(m3));
                assert(run_removals(m2, ts.drop_first().drop_first()) == Some(m3));
                assert(run_removals(m1, ts.drop_first()) == Some(m3));
            }
        },
    }
}

} // verus!
