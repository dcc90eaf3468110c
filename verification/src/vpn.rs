//! The stand-alone VPN manager: the fixed profiles "off", "warp" and
//! "finland" on the interfaces `w` and `fl`, how a switch runs, and how
//! the address is fetched after it.

pub use crate::features::vpn::manager::IpInfo;

use vstd::prelude::*;
use crate::text::{join2, join3, to_string, trim, trim_str, seq_join, join_with};
use crate::base::event_bus::strings_view;
use crate::features::vpn::manager::{SwitchStep, SwitchStepView, steps_view, run_steps, step_effect};

verus! {

/// The stand-alone VPN profiles.
#[derive(Debug, Clone, Copy, PartialEq, Eq, Structural)]
pub enum VpnState {
    Off,
    Warp,
    Finland,
}

/// How each profile is named to the user.
pub open spec fn state_text(s: VpnState) -> Seq<char> {
    match s {
        VpnState::Off => "VPN выключен"@,
        VpnState::Warp => "Warp"@,
        VpnState::Finland => "Финляндия"@,
    }
}

impl VpnState {
    /// The profile's name for the user.
    pub fn text(&self) -> (r: &'static str)
        ensures
            r@ == state_text(*self),
    {
        match self {
            VpnState::Off => "VPN выключен",
            VpnState::Warp => "Warp",
            VpnState::Finland => "Финляндия",
        }
    }
}

/// The active profile, given whether `fl` and `w` are up: Finland wins
/// over Warp, and with neither the VPN is off.
pub open spec fn spec_detect_state(fl_up: bool, w_up: bool) -> VpnState {
    if fl_up {
        VpnState::Finland
    } else if w_up {
        VpnState::Warp
    } else {
        VpnState::Off
    }
}

pub open spec fn wg(dir: Seq<char>, itf: Seq<char>) -> Seq<Seq<char>> {
    seq!["doas"@, "wg-quick"@, dir, itf]
}

pub open spec fn down_step(itf: Seq<char>) -> SwitchStepView {
    SwitchStepView { interface: itf, when_up: true, cmd: wg("down"@, itf) }
}

pub open spec fn up_step(itf: Seq<char>) -> SwitchStepView {
    SwitchStepView { interface: itf, when_up: false, cmd: wg("up"@, itf) }
}

/// The steps of a switch to `target`, each checked against the interfaces
/// at the moment it runs, and whether the address is fetched after them:
/// off takes down `w` then `fl`; a profile takes down the other interface,
/// then brings its own up, and fetches the address.
pub open spec fn spec_old_plan(target: VpnState) -> (Seq<SwitchStepView>, bool) {
    match target {
        VpnState::Off => (seq![down_step("w"@), down_step("fl"@)], false),
        VpnState::Warp => (seq![down_step("fl"@), up_step("w"@)], true),
        VpnState::Finland => (seq![down_step("w"@), up_step("fl"@)], true),
    }
}

/// Where each command does what it is for, a switch to a profile makes
/// detection report that profile, whichever interfaces were up before.
pub proof fn law_fixed_switch_then_detect(target: VpnState, up: Set<Seq<char>>)
    ensures
        ({
            let after = run_steps(up, spec_old_plan(target).0);
            spec_detect_state(after.contains("fl"@), after.contains("w"@)) == target
        }),
{
    reveal_strlit("w");
    reveal_strlit("fl");
    assert("w"@ != "fl"@) by {
        assert("w"@.len() != "fl"@.len());
    }
    let steps = spec_old_plan(target).0;
    assert(steps.len() == 2);
    let up1 = step_effect(up, steps[0]);
    let up2 = step_effect(up1, steps[1]);
    assert(steps.drop_first().drop_first() =~= Seq::<SwitchStepView>::empty());
    assert(steps.drop_first()[0] == steps[1]);
    assert(run_steps(up2, steps.drop_first().drop_first()) == up2);
    assert(run_steps(up1, steps.drop_first()) == up2);
    assert(run_steps(up, steps) == up2);
}

/// The attempts to fetch the address after a switch.
pub open spec fn fetch_attempts() -> u32 {
    4
}

/// What follows an attempt to fetch the address.
#[derive(Debug, Clone)]
pub enum FetchStep {
    /// The address is known.
    Done(IpInfo),
    /// Wait `delay_ms`, then make attempt number `attempt` (from 0).
    Retry { attempt: u32, delay_ms: u64 },
    /// Every attempt failed.
    Failed(String),
}

pub open spec fn fetch_failed_msg(last_err: Seq<char>) -> Seq<char> {
    "Не удалось получить IP адрес после подключения: "@ + last_err
}

/// The stand-alone VPN manager.
pub struct VpnManager;

fn wg_cmd(dir: &str, itf: &str) -> (r: Vec<String>)
    ensures
        strings_view(r@) == wg(dir@, itf@),
{
    let mut r: Vec<String> = Vec::new();
    r.push(to_string("doas"));
    r.push(to_string("wg-quick"));
    r.push(to_string(dir));
    r.push(to_string(itf));
    assert(strings_view(r@) =~= wg(dir@, itf@));
    r
}

fn down(itf: &str) -> (r: SwitchStep)
    ensures
        r@ == down_step(itf@),
{
    proof {
        reveal_strlit("down");
    }
    SwitchStep { interface: to_string(itf), when_up: true, cmd: wg_cmd("down", itf) }
}

fn up(itf: &str) -> (r: SwitchStep)
    ensures
        r@ == up_step(itf@),
{
    SwitchStep { interface: to_string(itf), when_up: false, cmd: wg_cmd("up", itf) }
}

impl VpnManager {
    pub fn new() -> (r: Self) {
        VpnManager
    }

    /// The file whose presence tells that the interface `name` is up.
    pub fn interface_path(name: &str) -> (r: String)
        ensures
            r@ == "/sys/class/net/"@ + name@,
    {
        join2("/sys/class/net/", name)
    }

    /// The active profile, given whether `fl` and `w` are up.
    pub fn detect_state(fl_up: bool, w_up: bool) -> (r: VpnState)
        ensures
            r == spec_detect_state(fl_up, w_up),
    {
        if fl_up {
            VpnState::Finland
        } else if w_up {
            VpnState::Warp
        } else {
            VpnState::Off
        }
    }

    /// The steps of a switch to `target`, and whether the address is
    /// fetched after them.
    pub fn switch_plan(target: VpnState) -> (r: (Vec<SwitchStep>, bool))
        ensures
            steps_view(r.0@) == spec_old_plan(target).0,
            r.1 == spec_old_plan(target).1,
    {
        let mut v: Vec<SwitchStep> = Vec::new();
        let fetch = match target {
            VpnState::Off => {
                v.push(down("w"));
                v.push(down("fl"));
                false
            },
            VpnState::Warp => {
                v.push(down("fl"));
                v.push(up("w"));
                true
            },
            VpnState::Finland => {
                v.push(down("w"));
                v.push(up("fl"));
                true
            },
        };
        assert(steps_view(v@) =~= spec_old_plan(target).0);
        (v, fetch)
    }

    /// The text of a command line: the program, then its arguments, each
    /// after a space.
    pub fn command_text(cmd: &str, args: &Vec<String>) -> (r: String)
        ensures
            r@ == cmd@ + " "@ + seq_join(strings_view(args@), " "@),
    {
        let joined = join_with(args, " ");
        assert(args@.map_values(|s: String| s@) =~= strings_view(args@));
        join3(cmd, " ", joined.as_str())
    }

    /// The error of a command that could not be started.
    pub fn launch_error_message(cmd: &str, args: &Vec<String>, err: &str) -> (r: String)
        ensures
            r@ == "Не удалось запустить команду '"@ + cmd@ + " "@ + seq_join(strings_view(args@), " "@)
                + "': "@ + err@,
    {
        let line = Self::command_text(cmd, args);
        let mut r = join3("Не удалось запустить команду '", line.as_str(), "': ");
        r.append(err);
        r
    }

    /// The error of a command that failed, with its error output trimmed.
    pub fn failure_message(cmd: &str, args: &Vec<String>, stderr: &str) -> (r: String)
        ensures
            r@ == "Команда '"@ + cmd@ + " "@ + seq_join(strings_view(args@), " "@)
                + "' завершилась ошибкой: "@ + trim(stderr@),
    {
        let line = Self::command_text(cmd, args);
        let t = trim_str(stderr);
        let mut r = join3("Команда '", line.as_str(), "' завершилась ошибкой: ");
        r.append(t.as_str());
        r
    }

    /// How long to wait before attempt number `attempt` (from 0) to fetch
    /// the address: 400 ms more for each attempt.
    pub fn retry_delay_ms(attempt: u32) -> (r: u64)
        requires
            attempt < fetch_attempts(),
        ensures
            r == 400 * (attempt + 1),
    {
        400 * (attempt as u64 + 1)
    }

    /// What follows attempt number `attempt` (from 0) to fetch the address,
    /// given its result: done where it succeeded; else another attempt after
    /// its delay, until four have failed, and then the last error.
    pub fn after_attempt(attempt: u32, result: Result<IpInfo, String>) -> (r: FetchStep)
        requires
            attempt < fetch_attempts(),
        ensures
            match result {
                Ok(info) => r matches FetchStep::Done(i) && i.query@ == info.query@ && i.city@ == info.city@
                    && i.country@ == info.country@,
                Err(e) => if attempt + 1 < fetch_attempts() {
                    r matches FetchStep::Retry { attempt: a, delay_ms } && a == attempt + 1 && delay_ms
                        == 400 * (attempt + 2)
                } else {
                    r matches FetchStep::Failed(m) && m@ == fetch_failed_msg(e@)
                },
            },
    {
        match result {
            Ok(info) => FetchStep::Done(info),
            Err(e) => {
                if attempt + 1 < 4 {
                    FetchStep::Retry { attempt: attempt + 1, delay_ms: Self::retry_delay_ms(attempt + 1) }
                } else {
                    FetchStep::Failed(join2("Не удалось получить IP адрес после подключения: ", e.as_str()))
                }
            },
        }
    }
}

} // verus!
