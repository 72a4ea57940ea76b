//! The argument vector a front-end hands to a freshly spawned server
//! process: one flag/value pair for every setting that was overridden.

use vstd::prelude::*;
use vstd::string::StringExecFns;

use crate::text::{bool_text, bool_to_string, dec_digits, u64_to_string};

verus! {

/// Notification settings a front-end may override on the command line.
#[derive(Debug, Clone)]
pub struct NotificationSettings {
    pub enable_bell: Option<bool>,
    pub sound_file: Option<String>,
    pub volume: Option<u64>,
    pub show_notification: Option<bool>,
}

/// Timer durations and cadence a front-end may override.
#[derive(Debug, Copy, Clone)]
pub struct TimerSettings {
    pub timer: Option<u64>,
    pub minor_break: Option<u64>,
    pub major_break: Option<u64>,
    pub intervals: Option<u64>,
}

/// The server-relevant slice of the shared command-line arguments.
#[derive(Debug, Clone)]
pub struct ServerSettings {
    pub notifications: NotificationSettings,
    pub timers: TimerSettings,
}

/// Arguments every subcommand shares: the configuration path and the
/// server settings.
#[derive(Debug, Clone)]
pub struct CommonArgs {
    pub config: String,
    pub server_config: ServerSettings,
}

/// The flag/value pair an optional numeric setting contributes, if set.
pub open spec fn flag_u64(flag: Seq<char>, v: Option<u64>) -> Seq<Seq<char>> {
    match v {
        Some(n) => seq![flag, dec_digits(n as int)],
        None => Seq::empty(),
    }
}

/// The flag/value pair an optional switch contributes, if set.
pub open spec fn flag_bool(flag: Seq<char>, v: Option<bool>) -> Seq<Seq<char>> {
    match v {
        Some(b) => seq![flag, bool_text(b)],
        None => Seq::empty(),
    }
}

/// The flag/value pair an optional text setting contributes, if set.
pub open spec fn flag_text(flag: Seq<char>, v: Option<Seq<char>>) -> Seq<Seq<char>> {
    match v {
        Some(s) => seq![flag, s],
        None => Seq::empty(),
    }
}

/// The view of an optional text setting.
pub open spec fn text_opt_view(v: Option<String>) -> Option<Seq<char>> {
    match v {
        Some(s) => Some(s@),
        None => None,
    }
}

/// The whole argument vector: the configuration path first, then one
/// flag/value pair per overridden setting, in a fixed order.
pub open spec fn server_args_spec(c: CommonArgs) -> Seq<Seq<char>> {
    seq!["-c"@, c.config@]
        + flag_bool("--enable-bell"@, c.server_config.notifications.enable_bell)
        + flag_text("--sound-file"@, text_opt_view(c.server_config.notifications.sound_file))
        + flag_u64("--volume"@, c.server_config.notifications.volume)
        + flag_bool("--show-notification"@, c.server_config.notifications.show_notification)
        + flag_u64("--timer"@, c.server_config.timers.timer)
        + flag_u64("--minor-break"@, c.server_config.timers.minor_break)
        + flag_u64("--major-break"@, c.server_config.timers.major_break)
        + flag_u64("--intervals"@, c.server_config.timers.intervals)
}

/// Appends the flag/value pair of an optional numeric setting.
fn push_flag_u64(args: &mut Vec<String>, flag: &str, v: &Option<u64>)
    ensures
        final(args).deep_view() == old(args).deep_view() + flag_u64(flag@, *v),
{
    if let Some(n) = v {
        args.push(String::from_str(flag));
        args.push(u64_to_string(*n));
    }
    proof {
        assert(args.deep_view() =~~= old(args).deep_view() + flag_u64(flag@, *v));
    }
}

/// Appends the flag/value pair of an optional switch.
fn push_flag_bool(args: &mut Vec<String>, flag: &str, v: &Option<bool>)
    ensures
        final(args).deep_view() == old(args).deep_view() + flag_bool(flag@, *v),
{
    if let Some(b) = v {
        args.push(String::from_str(flag));
        args.push(bool_to_string(*b));
    }
    proof {
        assert(args.deep_view() =~~= old(args).deep_view() + flag_bool(flag@, *v));
    }
}

/// Appends the flag/value pair of an optional text setting.
fn push_flag_text(args: &mut Vec<String>, flag: &str, v: &Option<String>)
    ensures
        final(args).deep_view() == old(args).deep_view()
            + flag_text(flag@, text_opt_view(*v)),
{
    if let Some(s) = v {
        args.push(String::from_str(flag));
        args.push(s.clone());
    }
    proof {
        assert(args.deep_view() =~~= old(args).deep_view()
            + flag_text(flag@, text_opt_view(*v)));
    }
}

/// Builds the argument vector for a spawned server process, exactly as
/// [`server_args_spec`] lays it out.
pub fn get_server_args(common_args: &CommonArgs) -> (args: Vec<String>)
    ensures
        args.deep_view() == server_args_spec(*common_args),
{
    let mut args: Vec<String> = Vec::new();
    args.push(String::from_str("-c"));
    args.push(common_args.config.clone());
    proof {
        assert(args.deep_view() =~~= seq!["-c"@, common_args.config@]);
    }
    push_flag_bool(&mut args, "--enable-bell",
        &common_args.server_config.notifications.enable_bell);
    push_flag_text(&mut args, "--sound-file",
        &common_args.server_config.notifications.sound_file);
    push_flag_u64(&mut args, "--volume", &common_args.server_config.notifications.volume);
    push_flag_bool(&mut args, "--show-notification",
        &common_args.server_config.notifications.show_notification);
    push_flag_u64(&mut args, "--timer", &common_args.server_config.timers.timer);
    push_flag_u64(&mut args, "--minor-break", &common_args.server_config.timers.minor_break);
    push_flag_u64(&mut args, "--major-break", &common_args.server_config.timers.major_break);
    push_flag_u64(&mut args, "--intervals", &common_args.server_config.timers.intervals);
    proof {
        assert(args.deep_view() =~~= server_args_spec(*common_args));
    }
    args
}

} // verus!
