//! Operator input for the daemons: console keys, web-console commands, and the
//! servo id list of the arm configuration.

use vstd::prelude::*;
use crate::messages::control::{ControlCommand, ControlCommandView, opt_command_view};
use crate::messages::episode::EpisodeOutcome;
use crate::text::{str_eq, trim, trim_spec};

verus! {

/// The task name given to episodes started from the leader console.
pub open spec fn console_task() -> Seq<char> {
    "teleop"@
}

/// The command a (trimmed) console line stands for: `o` torque on, `x` torque off,
/// `s` start recording, `f` end the episode as a success, `r` re-record, `q` stop.
pub open spec fn key_command(key: Seq<char>) -> Option<ControlCommandView> {
    if key == "o"@ {
        Some(ControlCommandView::TorqueOn)
    } else if key == "x"@ {
        Some(ControlCommandView::TorqueOff)
    } else if key == "s"@ {
        Some(ControlCommandView::StartRecord { task: console_task() })
    } else if key == "f"@ {
        Some(ControlCommandView::EndRecord { outcome: EpisodeOutcome::Success })
    } else if key == "r"@ {
        Some(ControlCommandView::ReRecord)
    } else if key == "q"@ {
        Some(ControlCommandView::Stop)
    } else {
        None
    }
}

/// The command a web-console request names.
pub open spec fn web_command(name: Seq<char>) -> Option<ControlCommandView> {
    if name == "TorqueOn"@ {
        Some(ControlCommandView::TorqueOn)
    } else if name == "TorqueOff"@ {
        Some(ControlCommandView::TorqueOff)
    } else if name == "StartRecord"@ {
        Some(ControlCommandView::StartRecord { task: console_task() })
    } else if name == "EndRecord"@ {
        Some(ControlCommandView::EndRecord { outcome: EpisodeOutcome::Success })
    } else if name == "ReRecord"@ {
        Some(ControlCommandView::ReRecord)
    } else if name == "Stop"@ {
        Some(ControlCommandView::Stop)
    } else {
        None
    }
}

fn console_task_string() -> (t: String)
    ensures
        t@ == console_task(),
{
    String::from_str("teleop")
}

/// The command a line typed on the leader's console stands for, surrounding
/// whitespace ignored.
pub fn parse_key(line: &str) -> (r: Option<ControlCommand>)
    ensures
        opt_command_view(r) == key_command(trim_spec(line@)),
{
    let key = trim(line);
    if str_eq(key, "o") {
        Some(ControlCommand::TorqueOn)
    } else if str_eq(key, "x") {
        Some(ControlCommand::TorqueOff)
    } else if str_eq(key, "s") {
        Some(ControlCommand::StartRecord { task: console_task_string() })
    } else if str_eq(key, "f") {
        Some(ControlCommand::EndRecord { outcome: EpisodeOutcome::Success })
    } else if str_eq(key, "r") {
        Some(ControlCommand::ReRecord)
    } else if str_eq(key, "q") {
        Some(ControlCommand::Stop)
    } else {
        None
    }
}

/// The command a web-console request names, matched exactly.
pub fn parse_web_cmd(cmd: &str) -> (r: Option<ControlCommand>)
    ensures
        opt_command_view(r) == web_command(cmd@),
{
    if str_eq(cmd, "TorqueOn") {
        Some(ControlCommand::TorqueOn)
    } else if str_eq(cmd, "TorqueOff") {
        Some(ControlCommand::TorqueOff)
    } else if str_eq(cmd, "StartRecord") {
        Some(ControlCommand::StartRecord { task: console_task_string() })
    } else if str_eq(cmd, "EndRecord") {
        Some(ControlCommand::EndRecord { outcome: EpisodeOutcome::Success })
    } else if str_eq(cmd, "ReRecord") {
        Some(ControlCommand::ReRecord)
    } else if str_eq(cmd, "Stop") {
        Some(ControlCommand::Stop)
    } else {
        None
    }
}

/// The servo ids of the six joints: the first six configured ids, and id 1 for any
/// joint the configuration leaves out.
pub fn ids_to_array(ids: &[u8]) -> (arr: [u8; 6])
    ensures
        forall|i: int|
            0 <= i < 6 ==> #[trigger] arr[i] == if i < ids@.len() {
                ids@[i]
            } else {
                1u8
            },
{
    let mut arr: [u8; 6] = [1u8; 6];
    let mut i: usize = 0;
    while i < 6 && i < ids.len()
        invariant
            0 <= i <= 6,
            i <= ids@.len(),
            forall|k: int|
                0 <= k < 6 ==> #[trigger] arr[k] == if k < i {
                    ids@[k]
                } else {
                    1u8
                },
        decreases 6 - i,
    {
        arr.set(i, ids[i]);
        i = i + 1;
    }
    arr
}

} // verus!
