//! The decisions of the selection flow: what the loaded configuration
//! yields, when a platform is auto-selected and when the prompter is
//! invoked, and when a configured device bypasses enumeration.

use vstd::prelude::*;

use crate::platform_and_device::PlatformOrDevice;

verus! {

/// The run configuration produced once at start: the platform-name pattern
/// and, optionally, a device identifier that bypasses device selection.
pub struct EnvConfig {
    pub platform_pattern: String,
    pub device_id: Option<usize>,
}

/// Builds the run configuration from what the environment provided: a
/// missing pattern is left empty (it then matches every platform name), a
/// missing device identifier leaves device selection interactive.
pub fn resolve_env_config(pattern: Option<String>, device_id: Option<usize>) -> (c: EnvConfig)
    ensures
        pattern matches Some(p) ==> c.platform_pattern == p,
        pattern is None ==> c.platform_pattern@ == Seq::<char>::empty(),
        c.device_id == device_id,
{
    let platform_pattern = match pattern {
        Option::Some(p) => p,
        Option::None => String::new(),
    };
    EnvConfig { platform_pattern, device_id }
}

/// How the platform step proceeds from the pattern's matches.
#[derive(Debug)]
pub enum PlatformChoice {
    /// No platform matched: the flow cannot continue.
    NoneFound,
    /// Exactly one platform matched and is selected without prompting.
    Auto(PlatformOrDevice),
    /// Several platforms matched: the prompter is invoked once, with all of
    /// them as its options.
    Prompt(Vec<PlatformOrDevice>),
}

/// Decides the platform step: zero matches are fatal, a single match is
/// auto-selected without invoking the prompter, and two or more go to the
/// prompter exactly once, all of them as options.
pub fn resolve_platform_choice(matches: Vec<PlatformOrDevice>) -> (c: PlatformChoice)
    ensures
        matches@.len() == 0 ==> c is NoneFound,
        matches@.len() == 1 ==> c == PlatformChoice::Auto(matches@[0]),
        matches@.len() > 1 ==> c == PlatformChoice::Prompt(matches),
{
    if matches.len() == 0 {
        PlatformChoice::NoneFound
    } else if matches.len() == 1 {
        let mut matches = matches;
        let only = matches.remove(0);
        PlatformChoice::Auto(only)
    } else {
        PlatformChoice::Prompt(matches)
    }
}

/// How the device step proceeds from the loaded configuration.
#[derive(Clone, Copy, Debug, PartialEq, Eq, Structural)]
pub enum DeviceChoice {
    /// The configuration supplied the device: it is used directly, and
    /// neither device enumeration nor the prompter runs.
    Configured(usize),
    /// No configured device: the platform's devices are enumerated and
    /// prompted for.
    Enumerate,
}

/// Decides the device step: a device identifier present in the loaded
/// configuration short-circuits enumeration and prompting; otherwise both
/// run.
pub fn resolve_device_choice(configured: Option<usize>) -> (c: DeviceChoice)
    ensures
        configured matches Some(id) ==> c == DeviceChoice::Configured(id),
        configured is None ==> c is Enumerate,
{
    match configured {
        Option::Some(id) => DeviceChoice::Configured(id),
        Option::None => DeviceChoice::Enumerate,
    }
}

} // verus!
