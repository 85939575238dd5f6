//! Plain data shared by the watchers, the state machine and the program.

use vstd::prelude::*;

verus! {

/// One controllable backlight: the file its level is written to, its largest
/// level and the size of one manual step.
pub struct BacklightDevice {
    pub file: String,
    pub max: u32,
    pub step: u32,
}

/// An event handed from a watcher to the state machine.
#[derive(Clone, Copy, Debug, PartialEq, Eq, Structural)]
pub enum Message {
    Tick,
    Input,
    KbdUp,
    KbdDown,
    DspUp,
    DspDown,
}

/// The command line: an optional configuration file.
pub struct Args {
    pub flag_config: Option<String>,
}

/// Where the devices and status files live.
pub struct Paths {
    pub keyboard_backlight: String,
    pub keyboard_input: String,
    pub display: String,
    pub trackpad_input: String,
    pub illuminance: String,
    pub sound_card: String,
}

/// Numeric preferences. `dim_percent` is the share of the display level kept
/// while idle, in hundredths (0 to 100).
#[derive(Clone, Copy, Debug, PartialEq, Eq)]
pub struct Preferences {
    pub idle_timeout: u64,
    pub tick_time: u64,
    pub dim_percent: u32,
    pub keyboard_steps: u32,
    pub display_steps: u32,
}

/// The brightness file inside a backlight directory.
pub fn get_brightness_file(dir: &str) -> (r: String)
    ensures
        r@ == dir@ + "/brightness"@,
{
    let mut r = dir.to_owned();
    r.append("/brightness");
    r
}

/// The file holding the largest level inside a backlight directory.
pub fn get_max_file(dir: &str) -> (r: String)
    ensures
        r@ == dir@ + "/max_brightness"@,
{
    let mut r = dir.to_owned();
    r.append("/max_brightness");
    r
}

/// A backlight whose largest level is `max`, stepped in `steps` manual steps.
pub fn build_device(dir: &str, max: u32, steps: u32) -> (r: BacklightDevice)
    requires
        steps > 0,
    ensures
        r.file@ == dir@ + "/brightness"@,
        r.max == max,
        r.step == max / steps,
{
    BacklightDevice { file: get_brightness_file(dir), max, step: max / steps }
}

} // verus!
