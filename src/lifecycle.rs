//! The rule file's lifecycle: what it holds after a run of steps, and the
//! laws that the plans of `set` and `unset` obey. The file is the only state
//! that lasts from one invocation to the next.
use vstd::prelude::*;
use vstd::string::*;
use crate::command::{command_of, Command};
use crate::plan::{plan_of, read_back_of, resync_of, steps_view, Step, StepModel};
use crate::rule::rule_line;

verus! {

/// Why a run fails on the rule file.
#[derive(PartialEq, Eq, Structural, Debug, Clone, Copy)]
pub enum RuleFileError {
    /// The file to delete was not there.
    NotFound,
}

/// The rule file's content, or `None` where it is absent.
pub open spec fn file_view(file: Option<String>) -> Option<Seq<char>> {
    match file {
        Some(s) => Some(s@),
        None => None,
    }
}

/// The model of what a run leaves of the rule file.
pub open spec fn outcome_view(r: Result<Option<String>, RuleFileError>) -> Result<
    Option<Seq<char>>,
    RuleFileError,
> {
    match r {
        Ok(f) => Ok(file_view(f)),
        Err(e) => Err(e),
    }
}

/// The effect of one step on the file at `rule_path`. Steps on other paths,
/// udevadm runs and property reads leave it as it is.
pub open spec fn after_step(file: Option<Seq<char>>, rule_path: Seq<char>, step: StepModel) -> Result<
    Option<Seq<char>>,
    RuleFileError,
> {
    match step {
        StepModel::WriteRule { path, content } => if path == rule_path {
            Ok(Some(content))
        } else {
            Ok(file)
        },
        StepModel::RemoveRule { path } => if path != rule_path {
            Ok(file)
        } else if file is None {
            Err(RuleFileError::NotFound)
        } else {
            Ok(None)
        },
        _ => Ok(file),
    }
}

/// The file at `rule_path` after `steps`, taken in order; the first step that
/// fails on it ends the run with its error.
pub open spec fn after_steps(
    file: Option<Seq<char>>,
    rule_path: Seq<char>,
    steps: Seq<StepModel>,
) -> Result<Option<Seq<char>>, RuleFileError>
    decreases steps.len(),
{
    if steps.len() == 0 {
        Ok(file)
    } else {
        match after_step(file, rule_path, steps[0]) {
            Ok(next) => after_steps(next, rule_path, steps.drop_first()),
            Err(e) => Err(e),
        }
    }
}

/// Works out, without touching any disk, what the file at `rule_path` holds
/// after `steps` when it held `file` before them.
pub fn rule_file_after(file: Option<String>, rule_path: &str, steps: &Vec<Step>) -> (r: Result<
    Option<String>,
    RuleFileError,
>)
    ensures
        outcome_view(r) == after_steps(file_view(file), rule_path@, steps_view(steps@)),
{
    let ghost whole = steps_view(steps@);
    let ghost start = file_view(file);
    let target = String::from_str(rule_path);
    let mut cur = file;
    let mut i: usize = 0;
    assert(whole.skip(0) =~= whole);
    while i < steps.len()
        invariant
            i <= steps@.len(),
            whole == steps_view(steps@),
            start == file_view(file),
            target@ == rule_path@,
            after_steps(start, rule_path@, whole) == after_steps(
                file_view(cur),
                rule_path@,
                whole.skip(i as int),
            ),
        decreases steps@.len() - i,
    {
        proof {
            assert(whole.skip(i as int).drop_first() =~= whole.skip(i + 1));
            assert(whole.skip(i as int)[0] == steps@[i as int]@);
        }
        match &steps[i] {
            Step::WriteRule { path, content } => {
                if *path == target {
                    cur = Some(content.clone());
                }
            },
            Step::RemoveRule { path } => {
                if *path == target {
                    if cur.is_none() {
                        return Err(RuleFileError::NotFound);
                    }
                    cur = None;
                }
            },
            _ => {},
        }
        i = i + 1;
    }
    assert(whole.skip(i as int) =~= Seq::<StepModel>::empty());
    Ok(cur)
}

/// Running `a` and then `b` is running `a + b`.
proof fn lemma_after_steps_append(
    file: Option<Seq<char>>,
    rule_path: Seq<char>,
    a: Seq<StepModel>,
    b: Seq<StepModel>,
)
    ensures
        after_steps(file, rule_path, a + b) == match after_steps(file, rule_path, a) {
            Ok(next) => after_steps(next, rule_path, b),
            Err(e) => Err(e),
        },
    decreases a.len(),
{
    if a.len() == 0 {
        assert(a + b =~= b);
    } else {
        assert((a + b).drop_first() =~= a.drop_first() + b);
        match after_step(file, rule_path, a[0]) {
            Ok(next) => lemma_after_steps_append(next, rule_path, a.drop_first(), b),
            Err(e) => {},
        }
    }
}

/// The udevadm runs and the read-back that follow the change to the file
/// leave the file as it is.
proof fn lemma_resync_keeps_file(file: Option<Seq<char>>, rule_path: Seq<char>, name: Seq<char>)
    ensures
        after_steps(file, rule_path, resync_of(name) + seq![read_back_of(name)]) == Ok::<
            Option<Seq<char>>,
            RuleFileError,
        >(file),
{
    let tail = resync_of(name) + seq![read_back_of(name)];
    assert(tail.drop_first().drop_first().drop_first().drop_first() =~= Seq::<StepModel>::empty());
    reveal_with_fuel(after_steps, 5);
}

/// What the plan of `cmd` leaves of the rule file: `set` writes the rule
/// line, `unset` deletes the file and fails where there is none, and the
/// usage command leaves it as it was.
pub open spec fn effect_of(file: Option<Seq<char>>, cmd: Command) -> Result<
    Option<Seq<char>>,
    RuleFileError,
> {
    match cmd {
        Command::SetRule(name) => Ok(Some(rule_line(name))),
        Command::UnsetRule(_) => if file is None {
            Err(RuleFileError::NotFound)
        } else {
            Ok(None)
        },
        Command::ShowUsage => Ok(file),
    }
}

/// The change to the file comes first in a plan, and the rest leaves it alone.
pub proof fn plan_effect(file: Option<Seq<char>>, rule_path: Seq<char>, cmd: Command)
    ensures
        after_steps(file, rule_path, plan_of(cmd, rule_path)) == effect_of(file, cmd),
{
    match cmd {
        Command::SetRule(name) => {
            let head = seq![StepModel::WriteRule { path: rule_path, content: rule_line(name) }];
            let tail = resync_of(name) + seq![read_back_of(name)];
            let line: Option<Seq<char>> = Some(rule_line(name));
            assert(plan_of(cmd, rule_path) =~= head + tail);
            assert(head.drop_first() =~= Seq::<StepModel>::empty());
            assert(after_steps(line, rule_path, head.drop_first()) == Ok::<Option<Seq<char>>, RuleFileError>(line));
            lemma_resync_keeps_file(line, rule_path, name);
            lemma_after_steps_append(file, rule_path, head, tail);
        },
        Command::UnsetRule(name) => {
            let head = seq![StepModel::RemoveRule { path: rule_path }];
            let tail = resync_of(name) + seq![read_back_of(name)];
            assert(plan_of(cmd, rule_path) =~= head + tail);
            assert(head.drop_first() =~= Seq::<StepModel>::empty());
            if file is Some {
                assert(after_steps(None, rule_path, head.drop_first()) == Ok::<Option<Seq<char>>, RuleFileError>(None));
            }
            lemma_resync_keeps_file(None, rule_path, name);
            lemma_after_steps_append(file, rule_path, head, tail);
        },
        Command::ShowUsage => {},
    }
}

/// After `set name`, whatever the rule file held before (or if it was
/// absent), it exists and holds exactly the rule line for `name`.
pub proof fn set_writes_exact_rule(file: Option<Seq<char>>, rule_path: Seq<char>, name: Seq<char>)
    ensures
        after_steps(file, rule_path, plan_of(Command::SetRule(name), rule_path)) == Ok::<
            Option<Seq<char>>,
            RuleFileError,
        >(Some(rule_line(name))),
{
    plan_effect(file, rule_path, Command::SetRule(name));
}

/// `unset` deletes the rule file where it exists and fails with `NotFound`
/// where it does not; so an `unset` right after an `unset` always fails.
pub proof fn unset_removes_then_fails(
    file: Option<Seq<char>>,
    rule_path: Seq<char>,
    first: Seq<char>,
    second: Seq<char>,
)
    ensures
        file is Some ==> after_steps(file, rule_path, plan_of(Command::UnsetRule(first), rule_path))
            == Ok::<Option<Seq<char>>, RuleFileError>(None),
        after_steps(
            file,
            rule_path,
            plan_of(Command::UnsetRule(first), rule_path) + plan_of(Command::UnsetRule(second), rule_path),
        ) == Err::<Option<Seq<char>>, RuleFileError>(RuleFileError::NotFound),
{
    let one = plan_of(Command::UnsetRule(first), rule_path);
    let two = plan_of(Command::UnsetRule(second), rule_path);
    plan_effect(file, rule_path, Command::UnsetRule(first));
    plan_effect(None, rule_path, Command::UnsetRule(second));
    lemma_after_steps_append(file, rule_path, one, two);
}

/// `set first` followed at once by `set second` leaves only the rule for
/// `second`: the file is overwritten, never appended to.
pub proof fn set_overwrites(file: Option<Seq<char>>, rule_path: Seq<char>, first: Seq<char>, second: Seq<char>)
    ensures
        after_steps(
            file,
            rule_path,
            plan_of(Command::SetRule(first), rule_path) + plan_of(Command::SetRule(second), rule_path),
        ) == Ok::<Option<Seq<char>>, RuleFileError>(Some(rule_line(second))),
{
    let one = plan_of(Command::SetRule(first), rule_path);
    let two = plan_of(Command::SetRule(second), rule_path);
    plan_effect(file, rule_path, Command::SetRule(first));
    plan_effect(Some(rule_line(first)), rule_path, Command::SetRule(second));
    lemma_after_steps_append(file, rule_path, one, two);
}

/// An argument list other than `<program> set <name>` or
/// `<program> unset <name>` (too few or too many arguments, or another action
/// word) asks for the usage line only: its plan has no step, so the rule file
/// and udev are left alone.
pub proof fn usage_touches_nothing(args: Seq<Seq<char>>, file: Option<Seq<char>>, rule_path: Seq<char>)
    requires
        args.len() != 3 || (args[1] != "set"@ && args[1] != "unset"@),
    ensures
        command_of(args) == Command::ShowUsage,
        plan_of(command_of(args), rule_path) == Seq::<StepModel>::empty(),
        after_steps(file, rule_path, plan_of(command_of(args), rule_path)) == Ok::<
            Option<Seq<char>>,
            RuleFileError,
        >(file),
{
}

/// In the plan of `set name` the property is read last, on the device of
/// `name`, after the rule is written and udev has reloaded its rules, had a
/// change event triggered on that device, and settled.
pub proof fn set_reads_back_after_resync(rule_path: Seq<char>, name: Seq<char>)
    ensures
        plan_of(Command::SetRule(name), rule_path).len() == 5,
        plan_of(Command::SetRule(name), rule_path)[0] == (StepModel::WriteRule {
            path: rule_path,
            content: rule_line(name),
        }),
        plan_of(Command::SetRule(name), rule_path).subrange(1, 4) == resync_of(name),
        plan_of(Command::SetRule(name), rule_path)[4] == read_back_of(name),
{
    assert(plan_of(Command::SetRule(name), rule_path).subrange(1, 4) =~= resync_of(name));
}

} // verus!
