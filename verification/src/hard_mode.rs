//! Hard mode: the decisions around invoking the external blocking utility.
//!
//! The utility itself is an opaque side-effecting command; a driver outside
//! this library writes the blocklist file and launches it, and reports what
//! happened as a `HardModeEvent`. This library fixes the file contents and
//! maps each outcome to the caller-facing result.

use vstd::prelude::*;

verus! {

/// The well-known file the blocklist is written to, overwriting any prior
/// content.
pub const BLOCKLIST_FILE_PATH: &'static str = "/tmp/selfcontrol_blocklist.txt";

/// The external blocking utility.
pub const BLOCKER_COMMAND_PATH: &'static str = "/Applications/SelfControl.app/Contents/MacOS/SelfControl";

/// The given lines joined with a newline between each pair.
pub open spec fn join_lines(v: Seq<Seq<char>>) -> Seq<char>
    decreases v.len(),
{
    if v.len() == 0 {
        Seq::<char>::empty()
    } else if v.len() == 1 {
        v[0]
    } else {
        join_lines(v.drop_last()) + seq!['\n'] + v.last()
    }
}

/// The text written to the blocklist file: the sites, one per line.
pub fn blocklist_text(blocklist: &Vec<String>) -> (r: String)
    ensures
        r@ == join_lines(blocklist@.map_values(|s: String| s@)),
{
    let ghost lines = blocklist@.map_values(|s: String| s@);
    let mut text = String::new();
    let mut i: usize = 0;
    while i < blocklist.len()
        invariant
            0 <= i <= blocklist@.len(),
            lines == blocklist@.map_values(|s: String| s@),
            text@ == join_lines(lines.subrange(0, i as int)),
        decreases blocklist@.len() - i,
    {
        if i > 0 {
            text.append("\n");
        }
        text.append(blocklist[i].as_str());
        proof {
            reveal_strlit("\n");
            assert("\n"@ =~= seq!['\n']);
            assert(lines.subrange(0, i as int + 1).drop_last() =~= lines.subrange(0, i as int));
            assert(lines.subrange(0, i as int + 1).last() == lines[i as int]);
        }
        i += 1;
    }
    proof {
        assert(lines.subrange(0, blocklist@.len() as int) =~= lines);
    }
    text
}

/// What happened when a driver tried to enforce hard mode: the blocklist
/// file write failed, the utility could not be launched, or the utility ran
/// and exited with or without success. The two failure events carry the
/// reported reason.
pub enum HardModeEvent {
    WriteFailed(String),
    LaunchFailed(String),
    Exited(bool),
}

/// The caller-facing outcome of a hard-mode attempt: success exactly when
/// the utility ran and exited successfully, and a distinct message for each
/// of the three failures.
pub fn hard_mode_result(ev: HardModeEvent) -> (r: Result<(), String>)
    ensures
        match ev {
            HardModeEvent::WriteFailed(e) => r matches Err(m) && m@
                == "Failed to write blocklist file: "@ + e@,
            HardModeEvent::LaunchFailed(e) => r matches Err(m) && m@
                == "Failed to execute SelfControl: "@ + e@,
            HardModeEvent::Exited(ok) => if ok {
                r is Ok
            } else {
                r matches Err(m) && m@ == "SelfControl failed to start"@
            },
        },
{
    match ev {
        HardModeEvent::WriteFailed(e) => {
            let mut m = "Failed to write blocklist file: ".to_owned();
            m.append(e.as_str());
            Err(m)
        },
        HardModeEvent::LaunchFailed(e) => {
            let mut m = "Failed to execute SelfControl: ".to_owned();
            m.append(e.as_str());
            Err(m)
        },
        HardModeEvent::Exited(true) => Ok(()),
        HardModeEvent::Exited(false) => Err("SelfControl failed to start".to_owned()),
    }
}

} // verus!
