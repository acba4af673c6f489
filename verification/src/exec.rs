use crate::error::Error;
use crate::net::Prefix;
use crate::target::{down_text, ipv4_only, up_text, Target};
use crate::text::{chars_of, lines, next_line, string_of, trim_span, trimmed};
use vstd::prelude::*;

verus! {

/// The operating systems that this library tells apart.
#[derive(Debug, Clone, Copy, PartialEq, Eq, Structural)]
pub enum HostOs {
    Windows,
    MacOs,
    Android,
    /// Linux, and every other system.
    Other,
}

/// The target whose scripts run on `os`.
pub open spec fn target_of(os: HostOs) -> Target {
    match os {
        HostOs::Windows => Target::Windows(1),
        HostOs::MacOs => Target::Mac,
        HostOs::Android => Target::Android,
        HostOs::Other => Target::Linux,
    }
}

/// Picks the target whose scripts run on `os`.
pub fn host_target(os: HostOs) -> (target: Target)
    ensures
        target == target_of(os),
{
    match os {
        HostOs::Windows => Target::Windows(1),
        HostOs::MacOs => Target::Mac,
        HostOs::Android => Target::Android,
        HostOs::Other => Target::Linux,
    }
}

/// The commands that add the routes on `os`, and those that remove them.
/// There always are commands that remove them. A failure of the source of
/// prefixes is handed on as it is.
pub fn get_commands(os: HostOs, source_ips: Result<Vec<Prefix>, Error>) -> (r: Result<
    (String, Option<String>),
    Error,
>)
    ensures
        match source_ips {
            Err(e) => r == Err::<(String, Option<String>), Error>(e),
            Ok(prefixes) => {
                &&& r is Ok
                &&& r->Ok_0.0@ == up_text(target_of(os), ipv4_only(prefixes@))
                &&& r->Ok_0.1 is Some
                &&& Some(r->Ok_0.1->Some_0@) == down_text(target_of(os), ipv4_only(prefixes@))
            },
        },
{
    host_target(os).export_str(source_ips)
}

/// What is done with one command of a script.
#[derive(Debug, Clone, Copy, PartialEq, Eq, Structural)]
pub enum Step {
    /// The command is run.
    Run,
    /// The command is shown and not run.
    Show,
    /// A note is shown that more commands follow, and the command is not
    /// run.
    ShowMore,
}

/// What is done with the command at place `index` of a script. A trial
/// run shows the first eleven commands and a note in place of the twelfth,
/// and runs the others.
pub open spec fn step_of(index: usize, trial: bool) -> Step {
    if !trial {
        Step::Run
    } else if index <= 10 {
        Step::Show
    } else if index == 11 {
        Step::ShowMore
    } else {
        Step::Run
    }
}

/// Decides what is done with the command at place `index` of a script.
pub fn command_step(index: usize, trial: bool) -> (step: Step)
    ensures
        step == step_of(index, trial),
{
    if !trial {
        Step::Run
    } else if index <= 10 {
        Step::Show
    } else if index == 11 {
        Step::ShowMore
    } else {
        Step::Run
    }
}

/// The commands of a script: its lines, each without the white space
/// around it.
pub open spec fn commands_of(script: Seq<char>) -> Seq<Seq<char>> {
    Seq::new(lines(script).len(), |i: int| trimmed(lines(script)[i]))
}

/// The texts that the strings hold.
pub open spec fn texts(strings: Seq<String>) -> Seq<Seq<char>> {
    Seq::new(strings.len(), |i: int| strings[i]@)
}

/// Takes a script apart into its commands.
pub fn command_lines(script: &str) -> (commands: Vec<String>)
    ensures
        texts(commands@) == commands_of(script@),
{
    let text = chars_of(script);
    let mut commands: Vec<String> = Vec::new();
    let mut start: usize = 0;
    let ghost mut done: Seq<Seq<char>> = Seq::empty();
    proof {
        assert(text@.skip(0) == text@);
    }
    while start < text.len()
        invariant
            start <= text@.len(),
            text@ == script@,
            lines(text@) == done + lines(text@.skip(start as int)),
            commands@.len() == done.len(),
            forall|i: int| 0 <= i < done.len() ==> (#[trigger] commands@[i])@ == trimmed(done[i]),
        decreases text.len() - start,
    {
        let (end, next) = next_line(text.as_slice(), start);
        let ghost line = text@.subrange(start as int, end as int);
        let (a, b) = trim_span(text.as_slice(), start, end);
        commands.push(string_of(text.as_slice(), a, b));
        proof {
            done = done.push(line);
        }
        start = next;
    }
    commands
}

} // verus!
