//! Client for the capping controller's command-line agent: builds the
//! argument lists the agent is invoked with and parses its textual answers.
//!
//! The agent answers with line-oriented `label: value` text. Blank and
//! unrecognized lines are skipped; a required field that is absent or
//! non-numeric is an error, because an unknown cap state cannot be trusted.

use crate::strutil::{
    chars_of, dec_rep, parse_u64_chars, parse_u64_of, split_chars, split_of, str_eq_chars,
    trim_chars, trim_of, u64_string,
};
use vstd::prelude::*;

verus! {

/// Why an agent answer was rejected.
#[derive(Clone, Copy, Debug, PartialEq, Eq, Structural)]
pub enum BmcError {
    /// A recognized field's value was not of the `<number> <unit>` shape.
    MalformedReading,
    /// A recognized field's value was not an unsigned decimal number.
    NonNumeric,
    /// A required field did not occur in the answer.
    MissingField,
    /// The agent's timestamp line did not parse as a calendar time.
    BadTimestamp,
}

/// Credentials for the controller agent.
pub struct BMC {
    pub hostname: String,
    pub username: String,
    pub password: String,
}

/// One parsed power-reading answer.
#[derive(Clone, Copy, Debug, PartialEq, Eq, Structural)]
pub struct BMC_PowerReading {
    pub instant: u64,
    pub minimum: u64,
    pub maximum: u64,
    pub average: u64,
    /// The agent's own timestamp, as seconds since the Unix epoch.
    pub timestamp: i64,
}

/// One parsed cap-settings answer.
#[derive(Clone, Copy, Debug, PartialEq, Eq, Structural)]
pub struct BMC_CapSetting {
    pub is_active: bool,
    pub power_limit: u64,
}

// ---------------------------------------------------------------------------
// number fields
// ---------------------------------------------------------------------------

/// What parsing a `<number> <unit>` field yields: after trimming there must be
/// exactly two space-separated parts, the first of them a decimal number.
pub open spec fn spec_parse_number(s: Seq<char>) -> Result<u64, BmcError> {
    let parts = split_of(trim_of(s), seq![' ']);
    if parts.len() != 2 {
        Err(BmcError::MalformedReading)
    } else {
        match parse_u64_of(parts[0]) {
            Some(v) => Ok(v),
            None => Err(BmcError::NonNumeric),
        }
    }
}

fn parse_number_chars(v: &Vec<char>) -> (r: Result<u64, BmcError>)
    ensures
        r == spec_parse_number(v@),
{
    let t = trim_chars(v);
    let space = vec![' '];
    assert(space@ =~= seq![' ']);
    let parts = split_chars(&t, &space);
    if parts.len() != 2 {
        return Err(BmcError::MalformedReading);
    }
    match parse_u64_chars(&parts[0]) {
        Some(x) => Ok(x),
        None => Err(BmcError::NonNumeric),
    }
}

// ---------------------------------------------------------------------------
// cap-settings answers
// ---------------------------------------------------------------------------

/// The fields gathered after reading the first `i` lines of a cap-settings
/// answer: the later of duplicate lines wins, and a malformed number stops
/// the parse where the line stands.
pub open spec fn cap_state_after(ls: Seq<Seq<char>>, i: int) -> Result<
    (Option<bool>, Option<u64>),
    BmcError,
>
    decreases i
    when 0 <= i <= ls.len()
{
    if i <= 0 {
        Ok((None, None))
    } else {
        match cap_state_after(ls, i - 1) {
            Err(e) => Err(e),
            Ok(st) => {
                let parts = split_of(trim_of(ls[i - 1]), seq![':']);
                if parts.len() == 2 && parts[0] == "Current Limit State"@ {
                    Ok((Some(trim_of(parts[1]) == "Power Limit Active"@), st.1))
                } else if parts.len() == 2 && parts[0] == "Power Limit"@ {
                    match spec_parse_number(parts[1]) {
                        Ok(v) => Ok((st.0, Some(v))),
                        Err(e) => Err(e),
                    }
                } else {
                    Ok(st)
                }
            },
        }
    }
}

/// What parsing a whole cap-settings answer yields: both the limit state and
/// the wattage limit must occur, each taken from the last line that names it.
pub open spec fn spec_parse_cap_settings(s: Seq<char>) -> Result<BMC_CapSetting, BmcError> {
    let ls = split_of(s, seq!['\n']);
    match cap_state_after(ls, ls.len() as int) {
        Err(e) => Err(e),
        Ok((Some(a), Some(l))) => Ok(BMC_CapSetting { is_active: a, power_limit: l }),
        Ok(_) => Err(BmcError::MissingField),
    }
}

proof fn lemma_cap_state_err(ls: Seq<Seq<char>>, i: int, j: int)
    requires
        0 <= i <= j <= ls.len(),
        cap_state_after(ls, i) is Err,
    ensures
        cap_state_after(ls, j) == cap_state_after(ls, i),
    decreases j - i,
{
    if i < j {
        lemma_cap_state_err(ls, i, j - 1);
    }
}

impl BMC {
    /// Parses a cap-settings answer from the agent.
    pub fn parse_cap_settings(output: &str) -> (r: Result<BMC_CapSetting, BmcError>)
        ensures
            r == spec_parse_cap_settings(output@),
    {
        let chars = chars_of(output);
        let nl = vec!['\n'];
        assert(nl@ =~= seq!['\n']);
        let lines = split_chars(&chars, &nl);
        let ghost ls = split_of(output@, seq!['\n']);
        let mut active: Option<bool> = None;
        let mut limit: Option<u64> = None;
        let n = lines.len();
        let mut i: usize = 0;
        while i < n
            invariant
                n == lines@.len(),
                ls == split_of(output@, seq!['\n']),
                lines@.len() == ls.len(),
                forall|k: int| 0 <= k < ls.len() ==> lines@[k]@ == ls[k],
                i <= n,
                cap_state_after(ls, i as int) == Ok::<(Option<bool>, Option<u64>), BmcError>(
                    (active, limit),
                ),
            decreases n - i,
        {
            let line = trim_chars(&lines[i]);
            let colon = vec![':'];
            assert(colon@ =~= seq![':']);
            let parts = split_chars(&line, &colon);
            if parts.len() == 2 {
                if str_eq_chars(&parts[0], "Current Limit State") {
                    let rhs = trim_chars(&parts[1]);
                    active = Some(str_eq_chars(&rhs, "Power Limit Active"));
                } else if str_eq_chars(&parts[0], "Power Limit") {
                    match parse_number_chars(&parts[1]) {
                        Ok(v) => {
                            limit = Some(v);
                        },
                        Err(e) => {
                            proof {
                                assert(cap_state_after(ls, i as int + 1) == Err::<
                                    (Option<bool>, Option<u64>),
                                    BmcError,
                                >(e));
                                lemma_cap_state_err(ls, i as int + 1, ls.len() as int);
                            }
                            return Err(e);
                        },
                    }
                }
            }
            i = i + 1;
        }
        match (active, limit) {
            (Some(a), Some(l)) => Ok(BMC_CapSetting { is_active: a, power_limit: l }),
            _ => Err(BmcError::MissingField),
        }
    }

    /// Parses a `<number> <unit>` field, as the agent writes its wattages.
    pub fn parse_number(power_reading: &str) -> (r: Result<u64, BmcError>)
        ensures
            r == spec_parse_number(power_reading@),
    {
        let chars = chars_of(power_reading);
        parse_number_chars(&chars)
    }
}


// ---------------------------------------------------------------------------
// power-reading answers
// ---------------------------------------------------------------------------

/// What chrono parses the agent's `%a %b %e %H:%M:%S %Y` timestamp text to,
/// as seconds since the Unix epoch, or nothing where the text does not parse.
pub uninterp spec fn bmc_timestamp_of(s: Seq<char>) -> Option<i64>;

/// Relies on chrono's `NaiveDateTime::parse_from_str` with the agent's
/// `%a %b %e %H:%M:%S %Y` timestamp format: what a given text parses to
/// depends on that text alone; the value kept is the parsed time's count of
/// seconds since the Unix epoch.
#[verifier::external_body]
fn date_from_string(date_chars: &Vec<char>) -> (r: Option<i64>)
    ensures
        r == bmc_timestamp_of(date_chars@),
{
    let s: String = date_chars.iter().collect();
    match chrono::NaiveDateTime::parse_from_str(&s, "%a %b %e %H:%M:%S %Y") {
        Ok(t) => Some(t.and_utc().timestamp()),
        Err(_) => None,
    }
}

/// The fields gathered after reading the first `i` lines of a power-reading
/// answer. Lines split on `": "` (the timestamp value itself carries bare
/// colons); the first word before the separator names the field.
pub open spec fn power_state_after(ls: Seq<Seq<char>>, i: int) -> Result<
    (Option<u64>, Option<u64>, Option<u64>, Option<u64>, Option<i64>),
    BmcError,
>
    decreases i
    when 0 <= i <= ls.len()
{
    if i <= 0 {
        Ok((None, None, None, None, None))
    } else {
        match power_state_after(ls, i - 1) {
            Err(e) => Err(e),
            Ok(st) => {
                let parts = split_of(trim_of(ls[i - 1]), seq![':', ' ']);
                if parts.len() == 2 {
                    let key = split_of(parts[0], seq![' '])[0];
                    if key == "Instantaneous"@ {
                        match spec_parse_number(parts[1]) {
                            Ok(v) => Ok((Some(v), st.1, st.2, st.3, st.4)),
                            Err(e) => Err(e),
                        }
                    } else if key == "Minimum"@ {
                        match spec_parse_number(parts[1]) {
                            Ok(v) => Ok((st.0, Some(v), st.2, st.3, st.4)),
                            Err(e) => Err(e),
                        }
                    } else if key == "Maximum"@ {
                        match spec_parse_number(parts[1]) {
                            Ok(v) => Ok((st.0, st.1, Some(v), st.3, st.4)),
                            Err(e) => Err(e),
                        }
                    } else if key == "Average"@ {
                        match spec_parse_number(parts[1]) {
                            Ok(v) => Ok((st.0, st.1, st.2, Some(v), st.4)),
                            Err(e) => Err(e),
                        }
                    } else if key == "IPMI"@ {
                        match bmc_timestamp_of(trim_of(parts[1])) {
                            Some(t) => Ok((st.0, st.1, st.2, st.3, Some(t))),
                            None => Err(BmcError::BadTimestamp),
                        }
                    } else {
                        Ok(st)
                    }
                } else {
                    Ok(st)
                }
            },
        }
    }
}

/// What parsing a whole power-reading answer yields: the instantaneous,
/// minimum, maximum and average wattages and the agent's timestamp must all
/// occur, each taken from the last line that names it.
pub open spec fn spec_parse_power_reading(s: Seq<char>) -> Result<BMC_PowerReading, BmcError> {
    let ls = split_of(s, seq!['\n']);
    match power_state_after(ls, ls.len() as int) {
        Err(e) => Err(e),
        Ok((Some(a), Some(b), Some(c), Some(d), Some(t))) => Ok(
            BMC_PowerReading { instant: a, minimum: b, maximum: c, average: d, timestamp: t },
        ),
        Ok(_) => Err(BmcError::MissingField),
    }
}

/// The instantaneous wattage of a power-reading answer.
pub open spec fn spec_current_power(s: Seq<char>) -> Result<u64, BmcError> {
    match spec_parse_power_reading(s) {
        Ok(pr) => Ok(pr.instant),
        Err(e) => Err(e),
    }
}

proof fn lemma_power_state_err(ls: Seq<Seq<char>>, i: int, j: int)
    requires
        0 <= i <= j <= ls.len(),
        power_state_after(ls, i) is Err,
    ensures
        power_state_after(ls, j) == power_state_after(ls, i),
    decreases j - i,
{
    if i < j {
        lemma_power_state_err(ls, i, j - 1);
    }
}

impl BMC {
    /// Parses a power-reading answer from the agent.
    pub fn parse_power_reading(output: &str) -> (r: Result<BMC_PowerReading, BmcError>)
        ensures
            r == spec_parse_power_reading(output@),
    {
        let chars = chars_of(output);
        let nl = vec!['\n'];
        assert(nl@ =~= seq!['\n']);
        let lines = split_chars(&chars, &nl);
        let ghost ls = split_of(output@, seq!['\n']);
        let mut instant: Option<u64> = None;
        let mut minimum: Option<u64> = None;
        let mut maximum: Option<u64> = None;
        let mut average: Option<u64> = None;
        let mut timestamp: Option<i64> = None;
        let n = lines.len();
        let mut i: usize = 0;
        while i < n
            invariant
                n == lines@.len(),
                ls == split_of(output@, seq!['\n']),
                lines@.len() == ls.len(),
                forall|k: int| 0 <= k < ls.len() ==> lines@[k]@ == ls[k],
                i <= n,
                power_state_after(ls, i as int) == Ok::<
                    (Option<u64>, Option<u64>, Option<u64>, Option<u64>, Option<i64>),
                    BmcError,
                >((instant, minimum, maximum, average, timestamp)),
            decreases n - i,
        {
            let line = trim_chars(&lines[i]);
            let sep = vec![':', ' '];
            assert(sep@ =~= seq![':', ' ']);
            let parts = split_chars(&line, &sep);
            if parts.len() == 2 {
                let space = vec![' '];
                assert(space@ =~= seq![' ']);
                let lhs_parts = split_chars(&parts[0], &space);
                assert(split_of(parts@[0]@, seq![' ']).len() >= 1);
                let key = &lhs_parts[0];
                if str_eq_chars(key, "Instantaneous") {
                    match parse_number_chars(&parts[1]) {
                        Ok(v) => {
                            instant = Some(v);
                        },
                        Err(e) => {
                            proof {
                                lemma_power_state_err(ls, i as int + 1, ls.len() as int);
                            }
                            return Err(e);
                        },
                    }
                } else if str_eq_chars(key, "Minimum") {
                    match parse_number_chars(&parts[1]) {
                        Ok(v) => {
                            minimum = Some(v);
                        },
                        Err(e) => {
                            proof {
                                lemma_power_state_err(ls, i as int + 1, ls.len() as int);
                            }
                            return Err(e);
                        },
                    }
                } else if str_eq_chars(key, "Maximum") {
                    match parse_number_chars(&parts[1]) {
                        Ok(v) => {
                            maximum = Some(v);
                        },
                        Err(e) => {
                            proof {
                                lemma_power_state_err(ls, i as int + 1, ls.len() as int);
                            }
                            return Err(e);
                        },
                    }
                } else if str_eq_chars(key, "Average") {
                    match parse_number_chars(&parts[1]) {
                        Ok(v) => {
                            average = Some(v);
                        },
                        Err(e) => {
                            proof {
                                lemma_power_state_err(ls, i as int + 1, ls.len() as int);
                            }
                            return Err(e);
                        },
                    }
                } else if str_eq_chars(key, "IPMI") {
                    let rhs = trim_chars(&parts[1]);
                    match date_from_string(&rhs) {
                        Some(t) => {
                            timestamp = Some(t);
                        },
                        None => {
                            proof {
                                lemma_power_state_err(ls, i as int + 1, ls.len() as int);
                            }
                            return Err(BmcError::BadTimestamp);
                        },
                    }
                }
            }
            i = i + 1;
        }
        match (instant, minimum, maximum, average, timestamp) {
            (Some(a), Some(b), Some(c), Some(d), Some(t)) => Ok(
                BMC_PowerReading { instant: a, minimum: b, maximum: c, average: d, timestamp: t },
            ),
            _ => Err(BmcError::MissingField),
        }
    }
}


// ---------------------------------------------------------------------------
// commands
// ---------------------------------------------------------------------------

/// One command the controller agent understands.
#[derive(Clone, Copy, Debug, PartialEq, Eq, Structural)]
pub enum BmcCommand {
    /// Read the instantaneous/minimum/maximum/average power block.
    ReadPower,
    /// Read the cap-limit state block.
    ReadCapSettings,
    /// Set the cap limit to the given wattage.
    SetCapLevel(u64),
    /// Activate capping.
    ActivateCap,
    /// Deactivate capping.
    DeactivateCap,
}

/// The subcommand words the agent takes for each command.
pub open spec fn spec_subcommand(c: BmcCommand) -> Seq<Seq<char>> {
    match c {
        BmcCommand::ReadPower => seq!["dcmi"@, "power"@, "reading"@],
        BmcCommand::ReadCapSettings => seq!["dcmi"@, "power"@, "get_limit"@],
        BmcCommand::SetCapLevel(w) => seq![
            "dcmi"@,
            "power"@,
            "set_limit"@,
            "limit"@,
            dec_rep(w as nat),
        ],
        BmcCommand::ActivateCap => seq!["dcmi"@, "power"@, "activate"@],
        BmcCommand::DeactivateCap => seq!["dcmi"@, "power"@, "deactivate"@],
    }
}

/// The whole argument list: the credentials under `-H`, `-U` and `-P`,
/// followed by the subcommand words.
pub open spec fn spec_command_args(b: BMC, c: BmcCommand) -> Seq<Seq<char>> {
    seq!["-H"@, b.hostname@, "-U"@, b.username@, "-P"@, b.password@] + spec_subcommand(c)
}

impl BMC {
    pub fn new(hostname: &str, username: &str, password: &str) -> (r: BMC)
        ensures
            r.hostname@ == hostname@,
            r.username@ == username@,
            r.password@ == password@,
    {
        BMC {
            hostname: hostname.to_owned(),
            username: username.to_owned(),
            password: password.to_owned(),
        }
    }

    /// The argument list to invoke the agent with for one command.
    pub fn command_args(&self, command: &BmcCommand) -> (r: Vec<String>)
        ensures
            r@.len() == spec_command_args(*self, *command).len(),
            forall|i: int|
                0 <= i < r@.len() ==> r@[i]@ == spec_command_args(*self, *command)[i],
    {
        let mut args: Vec<String> = Vec::new();
        args.push("-H".to_owned());
        args.push(self.hostname.clone());
        args.push("-U".to_owned());
        args.push(self.username.clone());
        args.push("-P".to_owned());
        args.push(self.password.clone());
        args.push("dcmi".to_owned());
        args.push("power".to_owned());
        match command {
            BmcCommand::ReadPower => {
                args.push("reading".to_owned());
            },
            BmcCommand::ReadCapSettings => {
                args.push("get_limit".to_owned());
            },
            BmcCommand::SetCapLevel(w) => {
                args.push("set_limit".to_owned());
                args.push("limit".to_owned());
                args.push(u64_string(*w));
            },
            BmcCommand::ActivateCap => {
                args.push("activate".to_owned());
            },
            BmcCommand::DeactivateCap => {
                args.push("deactivate".to_owned());
            },
        }
        args
    }

    /// The argument list that sets the cap limit to `cap` watts.
    pub fn set_cap_power_level(&self, cap: u64) -> (r: Vec<String>)
        ensures
            r@.len() == spec_command_args(*self, BmcCommand::SetCapLevel(cap)).len(),
            forall|i: int|
                0 <= i < r@.len() ==> r@[i]@ == spec_command_args(
                    *self,
                    BmcCommand::SetCapLevel(cap),
                )[i],
    {
        self.command_args(&BmcCommand::SetCapLevel(cap))
    }

    /// The argument list that activates capping.
    pub fn activate_power_cap(&self) -> (r: Vec<String>)
        ensures
            r@.len() == spec_command_args(*self, BmcCommand::ActivateCap).len(),
            forall|i: int|
                0 <= i < r@.len() ==> r@[i]@ == spec_command_args(
                    *self,
                    BmcCommand::ActivateCap,
                )[i],
    {
        self.command_args(&BmcCommand::ActivateCap)
    }

    /// The argument list that deactivates capping.
    pub fn deactivate_power_cap(&self) -> (r: Vec<String>)
        ensures
            r@.len() == spec_command_args(*self, BmcCommand::DeactivateCap).len(),
            forall|i: int|
                0 <= i < r@.len() ==> r@[i]@ == spec_command_args(
                    *self,
                    BmcCommand::DeactivateCap,
                )[i],
    {
        self.command_args(&BmcCommand::DeactivateCap)
    }

    /// The instantaneous wattage carried in a power-reading answer.
    pub fn current_power(&self, agent_output: &str) -> (r: Result<u64, BmcError>)
        ensures
            r == spec_current_power(agent_output@),
    {
        match Self::parse_power_reading(agent_output) {
            Ok(pr) => Ok(pr.instant),
            Err(e) => Err(e),
        }
    }

    /// Whether a cap-settings answer says capping is enforced.
    pub fn capping_is_active(&self, agent_output: &str) -> (r: Result<bool, BmcError>)
        ensures
            r == match spec_parse_cap_settings(agent_output@) {
                Ok(cs) => Ok::<bool, BmcError>(cs.is_active),
                Err(e) => Err::<bool, BmcError>(e),
            },
    {
        match Self::parse_cap_settings(agent_output) {
            Ok(cs) => Ok(cs.is_active),
            Err(e) => Err(e),
        }
    }

    /// The configured wattage limit carried in a cap-settings answer.
    pub fn current_power_limit(&self, agent_output: &str) -> (r: Result<u64, BmcError>)
        ensures
            r == match spec_parse_cap_settings(agent_output@) {
                Ok(cs) => Ok::<u64, BmcError>(cs.power_limit),
                Err(e) => Err::<u64, BmcError>(e),
            },
    {
        match Self::parse_cap_settings(agent_output) {
            Ok(cs) => Ok(cs.power_limit),
            Err(e) => Err(e),
        }
    }
}


// ---------------------------------------------------------------------------
// what the parsed cap settings mean
// ---------------------------------------------------------------------------

/// A line that names the limit state: `Current Limit State: <value>`.
pub open spec fn spec_is_state_line(line: Seq<char>) -> bool {
    let parts = split_of(trim_of(line), seq![':']);
    parts.len() == 2 && parts[0] == "Current Limit State"@
}

/// The state a `Current Limit State` line reports: active exactly when its
/// trimmed value is `Power Limit Active`.
pub open spec fn spec_state_line_active(line: Seq<char>) -> bool {
    trim_of(split_of(trim_of(line), seq![':'])[1]) == "Power Limit Active"@
}

/// A line that names the wattage limit: `Power Limit: <value>`.
pub open spec fn spec_is_limit_line(line: Seq<char>) -> bool {
    let parts = split_of(trim_of(line), seq![':']);
    parts.len() == 2 && parts[0] == "Power Limit"@
}

/// What a `Power Limit` line's value parses to.
pub open spec fn spec_limit_line_value(line: Seq<char>) -> Result<u64, BmcError> {
    spec_parse_number(split_of(trim_of(line), seq![':'])[1])
}

/// What the fields gathered from the first `i` lines mean: a field is set
/// exactly when a line names it, and its value comes from such a line.
proof fn lemma_cap_fold_fields(ls: Seq<Seq<char>>, i: int)
    requires
        0 <= i <= ls.len(),
    ensures
        cap_state_after(ls, i) is Ok ==> {
            let st = cap_state_after(ls, i)->Ok_0;
            &&& (st.0 is Some <==> exists|k: int| 0 <= k < i && spec_is_state_line(#[trigger] ls[k]))
            &&& (st.0 is Some ==> exists|k: int|
                0 <= k < i && spec_is_state_line(#[trigger] ls[k]) && st.0 == Some(
                    spec_state_line_active(ls[k]),
                ))
            &&& (st.1 is Some <==> exists|k: int| 0 <= k < i && spec_is_limit_line(#[trigger] ls[k]))
            &&& (st.1 is Some ==> exists|k: int|
                0 <= k < i && spec_is_limit_line(#[trigger] ls[k]) && spec_limit_line_value(ls[k])
                    == Ok::<u64, BmcError>(st.1->0))
        },
    decreases i,
{
    reveal_strlit("Current Limit State");
    reveal_strlit("Power Limit");
    assert("Current Limit State"@.len() == 19);
    assert("Power Limit"@.len() == 11);
    if i > 0 {
        lemma_cap_fold_fields(ls, i - 1);
        if cap_state_after(ls, i) is Ok {
            let st = cap_state_after(ls, i)->Ok_0;
            let prev = cap_state_after(ls, i - 1)->Ok_0;
            let parts = split_of(trim_of(ls[i - 1]), seq![':']);
            if parts.len() == 2 && parts[0] == "Current Limit State"@ {
                assert(spec_is_state_line(ls[i - 1]));
                assert(!spec_is_limit_line(ls[i - 1]));
                assert(st.0 == Some(spec_state_line_active(ls[i - 1])));
            } else if parts.len() == 2 && parts[0] == "Power Limit"@ {
                assert(spec_is_limit_line(ls[i - 1]));
                assert(!spec_is_state_line(ls[i - 1]));
                assert(spec_limit_line_value(ls[i - 1]) == Ok::<u64, BmcError>(st.1->0));
            } else {
                assert(!spec_is_state_line(ls[i - 1]));
                assert(!spec_is_limit_line(ls[i - 1]));
                assert(st == prev);
            }
        }
    }
}

/// A successfully parsed cap-settings answer reports capping active exactly
/// when the answer holds a `Current Limit State` line whose trimmed value is
/// `Power Limit Active`, and reports as its wattage limit the parsed number
/// of the answer's `Power Limit` line; success itself needs both lines to
/// occur. Duplicate lines naming one field are decided by the last, so the
/// law speaks of answers that name each field at most once.
pub proof fn lemma_cap_settings_fields(s: Seq<char>)
    requires
        forall|i: int, j: int|
            0 <= i < j < split_of(s, seq!['\n']).len() ==> !(spec_is_state_line(
                #[trigger] split_of(s, seq!['\n'])[i],
            ) && spec_is_state_line(#[trigger] split_of(s, seq!['\n'])[j])),
        forall|i: int, j: int|
            0 <= i < j < split_of(s, seq!['\n']).len() ==> !(spec_is_limit_line(
                #[trigger] split_of(s, seq!['\n'])[i],
            ) && spec_is_limit_line(#[trigger] split_of(s, seq!['\n'])[j])),
    ensures
        spec_parse_cap_settings(s) is Ok ==> {
            let cs = spec_parse_cap_settings(s)->Ok_0;
            let ls = split_of(s, seq!['\n']);
            &&& (cs.is_active <==> exists|k: int|
                0 <= k < ls.len() && spec_is_state_line(#[trigger] ls[k]) && spec_state_line_active(
                    ls[k],
                ))
            &&& exists|k: int|
                0 <= k < ls.len() && spec_is_limit_line(#[trigger] ls[k]) && spec_limit_line_value(
                    ls[k],
                ) == Ok::<u64, BmcError>(cs.power_limit)
            &&& exists|k: int| 0 <= k < ls.len() && spec_is_state_line(#[trigger] ls[k])
        },
{
    let ls = split_of(s, seq!['\n']);
    lemma_cap_fold_fields(ls, ls.len() as int);
    if spec_parse_cap_settings(s) is Ok {
        let cs = spec_parse_cap_settings(s)->Ok_0;
        let st = cap_state_after(ls, ls.len() as int)->Ok_0;
        let k0 = choose|k: int|
            0 <= k < ls.len() && spec_is_state_line(#[trigger] ls[k]) && st.0 == Some(
                spec_state_line_active(ls[k]),
            );
        assert(cs.is_active == spec_state_line_active(ls[k0]));
        if exists|k: int|
            0 <= k < ls.len() && spec_is_state_line(#[trigger] ls[k]) && spec_state_line_active(
                ls[k],
            ) {
            let m = choose|k: int|
                0 <= k < ls.len() && spec_is_state_line(
                    #[trigger] ls[k],
                ) && spec_state_line_active(ls[k]);
            assert(m == k0);
            assert(cs.is_active);
        }
        if cs.is_active {
            assert(spec_is_state_line(ls[k0]) && spec_state_line_active(ls[k0]));
        }
    }
}

} // verus!
