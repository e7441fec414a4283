//! The release helper's decisions: which task was asked for, which target
//! triples to build, and what the built files are called.

use vstd::prelude::*;
use crate::text;

verus! {

/// The target triples built by default.
pub open spec fn default_target_texts() -> Seq<Seq<char>> {
    seq![
        "x86_64-pc-windows-msvc"@,
        "x86_64-unknown-linux-gnu"@,
        "x86_64-unknown-linux-musl"@,
        "aarch64-unknown-linux-gnu"@,
        "x86_64-apple-darwin"@,
        "aarch64-apple-darwin"@,
    ]
}

/// The target triples built by default.
pub fn default_targets() -> (r: Vec<String>)
    ensures
        r.deep_view() == default_target_texts(),
{
    let r = vec![
        "x86_64-pc-windows-msvc".to_owned(),
        "x86_64-unknown-linux-gnu".to_owned(),
        "x86_64-unknown-linux-musl".to_owned(),
        "aarch64-unknown-linux-gnu".to_owned(),
        "x86_64-apple-darwin".to_owned(),
        "aarch64-apple-darwin".to_owned(),
    ];
    assert(r.deep_view() =~= default_target_texts());
    r
}

/// The refusal of `--target` without a value.
pub open spec fn missing_target_value_text() -> Seq<char> {
    "--target 需要指定 target triple"@
}

/// The refusal of a `package` call that names no target.
pub open spec fn no_target_text() -> Seq<char> {
    "請指定 --target 或 --all-default-targets"@
}

/// The refusal of an argument that `package` does not know.
pub open spec fn unknown_package_argument_text(arg: Seq<char>) -> Seq<char> {
    "未知 package 參數："@ + arg
}

/// Reads `--target <triple>` pairs from `args`, after the triples already in
/// `found`.
pub open spec fn targets_after(args: Seq<Seq<char>>, found: Seq<Seq<char>>) -> Result<Seq<Seq<char>>, Seq<char>>
    decreases args.len(),
{
    if args.len() == 0 {
        if found.len() == 0 {
            Err(no_target_text())
        } else {
            Ok(found)
        }
    } else if args[0] == "--target"@ {
        if args.len() < 2 {
            Err(missing_target_value_text())
        } else {
            targets_after(args.skip(2), found.push(args[1]))
        }
    } else {
        Err(unknown_package_argument_text(args[0]))
    }
}

/// The targets that `package` builds: the defaults when no argument is given
/// or `--all-default-targets` is among them, else the `--target` values in
/// order.
pub open spec fn package_targets(args: Seq<Seq<char>>) -> Result<Seq<Seq<char>>, Seq<char>> {
    if args.len() == 0 || args.contains("--all-default-targets"@) {
        Ok(default_target_texts())
    } else {
        targets_after(args, Seq::empty())
    }
}

/// Reads the arguments of `package`.
pub fn parse_targets(args: Vec<String>) -> (r: Result<Vec<String>, String>)
    ensures
        match package_targets(args.deep_view()) {
            Ok(targets) => r matches Ok(v) && v.deep_view() == targets,
            Err(message) => r matches Err(m) && m@ == message,
        },
{
    let ghost all = args.deep_view();
    let mut k: usize = 0;
    while k < args.len()
        invariant
            all == args.deep_view(),
            k <= args.len(),
            forall|j: int| 0 <= j < k ==> all[j] != "--all-default-targets"@,
        decreases args.len() - k,
    {
        if text::spells(&text::chars_of(args[k].as_str()), "--all-default-targets") {
            assert(all[k as int] == args@[k as int]@);
            assert(all.contains("--all-default-targets"@));
            return Ok(default_targets());
        }
        k += 1;
    }
    if args.len() == 0 {
        return Ok(default_targets());
    }
    assert(!all.contains("--all-default-targets"@));
    let mut targets: Vec<String> = Vec::new();
    let mut i: usize = 0;
    assert(all.skip(0) =~= all);
    assert(targets.deep_view() =~= Seq::<Seq<char>>::empty());
    while i < args.len()
        invariant
            all == args.deep_view(),
            i <= args.len(),
            package_targets(all) == targets_after(all, Seq::empty()),
            targets_after(all, Seq::empty()) == targets_after(all.skip(i as int), targets.deep_view()),
        decreases args.len() - i,
    {
        let ghost rest = all.skip(i as int);
        assert(rest.len() == args.len() - i);
        assert(rest[0] == args@[i as int]@);
        if text::spells(&text::chars_of(args[i].as_str()), "--target") {
            if i + 1 >= args.len() {
                assert(targets_after(rest, targets.deep_view()) == Err::<Seq<Seq<char>>, Seq<char>>(missing_target_value_text()));
                return Err("--target 需要指定 target triple".to_owned());
            }
            let ghost before = targets.deep_view();
            targets.push(args[i + 1].clone());
            assert(targets.deep_view() =~= before.push(rest[1]));
            assert(rest.skip(2) =~= all.skip(i + 2));
            i += 2;
        } else {
            let mut message = "未知 package 參數：".to_owned();
            message.append(args[i].as_str());
            assert(targets_after(rest, targets.deep_view()) == Err::<Seq<Seq<char>>, Seq<char>>(unknown_package_argument_text(rest[0])));
            return Err(message);
        }
    }
    assert(all.skip(i as int) =~= Seq::<Seq<char>>::empty());
    if targets.len() == 0 {
        Err("請指定 --target 或 --all-default-targets".to_owned())
    } else {
        Ok(targets)
    }
}

/// The helper's tasks.
#[derive(Debug, Clone)]
pub enum Task {
    Test,
    Ci,
    Package(Vec<String>),
    Help,
    Unknown(String),
}

/// The texts of `args`.
pub open spec fn texts_of(args: Seq<String>) -> Seq<Seq<char>> {
    args.map_values(|a: String| a@)
}

/// The task that the arguments after the program name ask for.
pub open spec fn task_named(args: Seq<String>, r: Task) -> bool {
    if args.len() == 0 {
        r is Help
    } else if args[0]@ == "test"@ {
        r is Test
    } else if args[0]@ == "ci"@ {
        r is Ci
    } else if args[0]@ == "package"@ {
        r matches Task::Package(rest) && rest.deep_view() == texts_of(args.skip(1))
    } else if args[0]@ == "-h"@ || args[0]@ == "--help"@ {
        r is Help
    } else {
        r matches Task::Unknown(other) && other@ == args[0]@
    }
}

/// Picks the task from the arguments after the program name.
pub fn task_from_args(args: Vec<String>) -> (r: Task)
    ensures
        task_named(args@, r),
{
    if args.len() == 0 {
        return Task::Help;
    }
    let first = text::chars_of(args[0].as_str());
    if text::spells(&first, "test") {
        Task::Test
    } else if text::spells(&first, "ci") {
        Task::Ci
    } else if text::spells(&first, "package") {
        let mut rest: Vec<String> = Vec::new();
        let mut i: usize = 1;
        while i < args.len()
            invariant
                1 <= i <= args.len(),
                args@.len() == args.len(),
                rest.deep_view() == texts_of(args@.subrange(1, i as int)),
            decreases args.len() - i,
        {
            let ghost before = rest.deep_view();
            rest.push(args[i].clone());
            assert(rest.deep_view() =~= before.push(args@[i as int]@));
            assert(rest.deep_view() =~= texts_of(args@.subrange(1, i + 1)));
            i += 1;
        }
        assert(args@.subrange(1, args.len() as int) =~= args@.skip(1));
        Task::Package(rest)
    } else if text::spells(&first, "-h") || text::spells(&first, "--help") {
        Task::Help
    } else {
        Task::Unknown(args[0].clone())
    }
}

/// The refusal of an unknown task.
pub fn unknown_task_message(task: &str) -> (r: String)
    ensures
        r@ == "未知 xtask 命令："@ + task@,
{
    let mut out = "未知 xtask 命令：".to_owned();
    out.append(task);
    out
}

/// Whether a target triple builds Windows executables.
pub open spec fn is_windows_target(target: Seq<char>) -> bool {
    text::has_infix(target, "windows"@)
}

/// The executable that `cargo build` leaves for `target`.
pub fn executable_name(target: &str) -> (r: &'static str)
    ensures
        r@ == if is_windows_target(target@) {
            "adoctl.exe"@
        } else {
            "adoctl"@
        },
{
    if text::text_contains(target, "windows") {
        "adoctl.exe"
    } else {
        "adoctl"
    }
}

/// The name of the packaged file for `target`.
pub open spec fn artifact_name_of(target: Seq<char>) -> Seq<char> {
    "adoctl-"@ + target + if is_windows_target(target) {
        ".exe"@
    } else {
        ""@
    }
}

pub fn artifact_file_name(target: &str) -> (r: String)
    ensures
        r@ == artifact_name_of(target@),
{
    let mut out = "adoctl-".to_owned();
    out.append(target);
    if text::text_contains(target, "windows") {
        out.append(".exe");
    } else {
        proof {
            reveal_strlit("");
        }
        assert(out@ + ""@ =~= out@);
    }
    out
}

} // verus!
