//! The ordered steps that carry out an action: change the rule file, make
//! udev reload its rules, trigger a change event on the interface, wait for
//! udev to settle, then read the property back from the device.
use vstd::prelude::*;
use vstd::string::*;
use crate::command::{Action, Command};
use crate::rule::{device_sys_path, rule_content, rule_line, sys_path, PROPERTY_KEY};

verus! {

/// One step of a run. Each one is performed only after the one before it
/// succeeded; the first that fails ends the run.
pub enum Step {
    /// Create or truncate the file at `path` and write `content` to it.
    WriteRule { path: String, content: String },
    /// Delete the file at `path`; it fails when there is no such file.
    RemoveRule { path: String },
    /// Run `udevadm` with these arguments. Only a failure to start it counts
    /// as a failure; its exit status is not looked at.
    RunUdevadm { args: Vec<String> },
    /// Look up the udev device at `syspath` and report its property `key`.
    ReadProperty { syspath: String, key: String },
}

/// The model of a [`Step`].
pub enum StepModel {
    WriteRule { path: Seq<char>, content: Seq<char> },
    RemoveRule { path: Seq<char> },
    RunUdevadm { args: Seq<Seq<char>> },
    ReadProperty { syspath: Seq<char>, key: Seq<char> },
}

impl View for Step {
    type V = StepModel;

    open spec fn view(&self) -> StepModel {
        match self {
            Step::WriteRule { path, content } => StepModel::WriteRule { path: path@, content: content@ },
            Step::RemoveRule { path } => StepModel::RemoveRule { path: path@ },
            Step::RunUdevadm { args } => StepModel::RunUdevadm { args: args.deep_view() },
            Step::ReadProperty { syspath, key } => StepModel::ReadProperty {
                syspath: syspath@,
                key: key@,
            },
        }
    }
}

/// The models of a list of steps.
pub open spec fn steps_view(steps: Seq<Step>) -> Seq<StepModel> {
    steps.map_values(|s: Step| s@)
}

/// The three udevadm runs that bring udev in line with the rule file, for
/// interface `name`, in the order in which they are made.
pub open spec fn resync_of(name: Seq<char>) -> Seq<StepModel> {
    seq![
        StepModel::RunUdevadm { args: seq!["control"@, "--reload-rules"@] },
        StepModel::RunUdevadm { args: seq!["trigger"@, "--action"@, "change"@, sys_path(name)] },
        StepModel::RunUdevadm { args: seq!["settle"@] },
    ]
}

/// The read of the property that the rule sets, on the device of `name`.
pub open spec fn read_back_of(name: Seq<char>) -> StepModel {
    StepModel::ReadProperty { syspath: sys_path(name), key: PROPERTY_KEY@ }
}

/// The steps that carry out `cmd` with the rule file at `rule_path`.
/// The usage command has none: it leaves the file system and udev alone.
pub open spec fn plan_of(cmd: Command, rule_path: Seq<char>) -> Seq<StepModel> {
    match cmd {
        Command::SetRule(name) => seq![
            StepModel::WriteRule { path: rule_path, content: rule_line(name) },
        ] + resync_of(name) + seq![read_back_of(name)],
        Command::UnsetRule(name) => seq![StepModel::RemoveRule { path: rule_path }]
            + resync_of(name) + seq![read_back_of(name)],
        Command::ShowUsage => seq![],
    }
}

/// A udevadm run with `words` as its arguments.
fn udevadm_run(words: Vec<&str>) -> (r: Step)
    ensures
        r@ == (StepModel::RunUdevadm { args: words@.map_values(|w: &str| w@) }),
{
    let mut args: Vec<String> = Vec::new();
    let mut i: usize = 0;
    while i < words.len()
        invariant
            i <= words@.len(),
            args@.len() == i,
            forall|j: int| 0 <= j < i ==> #[trigger] args@[j]@ == words@[j]@,
        decreases words@.len() - i,
    {
        args.push(String::from_str(words[i]));
        i = i + 1;
    }
    assert(args.deep_view() =~= words@.map_values(|w: &str| w@));
    Step::RunUdevadm { args }
}

/// Builds the three udevadm runs that resynchronise udev for interface `name`.
pub fn resync_steps(name: &str) -> (r: Vec<Step>)
    ensures
        steps_view(r@) =~= resync_of(name@),
{
    let path = device_sys_path(name);
    let mut r: Vec<Step> = Vec::new();
    let mut words: Vec<&str> = Vec::new();
    words.push("control");
    words.push("--reload-rules");
    assert(words@.map_values(|w: &str| w@) =~= seq!["control"@, "--reload-rules"@]);
    r.push(udevadm_run(words));
    let mut words: Vec<&str> = Vec::new();
    words.push("trigger");
    words.push("--action");
    words.push("change");
    words.push(path.as_str());
    assert(words@.map_values(|w: &str| w@) =~= seq!["trigger"@, "--action"@, "change"@, sys_path(name@)]);
    r.push(udevadm_run(words));
    let mut words: Vec<&str> = Vec::new();
    words.push("settle");
    assert(words@.map_values(|w: &str| w@) =~= seq!["settle"@]);
    r.push(udevadm_run(words));
    r
}

/// Builds the steps that carry out `action` with the rule file at `rule_path`.
pub fn plan(action: &Action, rule_path: &str) -> (r: Vec<Step>)
    ensures
        steps_view(r@) =~= plan_of(action@, rule_path@),
{
    let mut r: Vec<Step> = Vec::new();
    let name = match action {
        Action::SetRule(name) => {
            r.push(Step::WriteRule { path: String::from_str(rule_path), content: rule_content(name.as_str()) });
            name
        },
        Action::UnsetRule(name) => {
            r.push(Step::RemoveRule { path: String::from_str(rule_path) });
            name
        },
        Action::ShowUsage => {
            return r;
        },
    };
    let mut resync = resync_steps(name.as_str());
    r.append(&mut resync);
    r.push(Step::ReadProperty {
        syspath: device_sys_path(name.as_str()),
        key: String::from_str(PROPERTY_KEY),
    });
    r
}

} // verus!
