//! What a turn of the dial does.
//!
//! Every mode maps the direction of a turn to one shell command line. A turn
//! with a direction above zero is clockwise; any other is counter-clockwise.

use vstd::prelude::*;
use vstd::string::StringExecFns;

verus! {

/// Program that runs a command line.
pub const SHELL: &'static str = "sh";

/// Flag before the command line, for [`SHELL`].
pub const SHELL_COMMAND_FLAG: &'static str = "-c";

/// What the dial does when it is turned.
#[derive(Clone, Copy, Debug, PartialEq, Eq, Structural)]
pub enum ActionMode {
    /// Raise or lower the master volume.
    Volume,
    /// Skip to the next or the previous track.
    MediaTrack,
    /// Seek forward or backward in the current track.
    MediaSeek,
    /// Scroll down or up.
    Scroll,
    /// Raise or lower the brightness of the screen.
    Brightness,
    /// Run a command of the user's.
    Custom,
}

impl Default for ActionMode {
    fn default() -> (mode: Self)
        ensures
            mode is Volume,
    {
        ActionMode::Volume
    }
}

/// The settings of one action instance.
#[derive(Clone, Debug)]
pub struct ActionSettings {
    pub mode: ActionMode,
    /// Command line of a clockwise turn in [`ActionMode::Custom`].
    pub cw_command: String,
    /// Command line of a counter-clockwise turn in [`ActionMode::Custom`].
    pub ccw_command: String,
}

impl Default for ActionSettings {
    fn default() -> (settings: Self)
        ensures
            settings.mode is Volume,
            settings.cw_command@ == Seq::<char>::empty(),
            settings.ccw_command@ == Seq::<char>::empty(),
    {
        ActionSettings {
            mode: ActionMode::Volume,
            cw_command: String::new(),
            ccw_command: String::new(),
        }
    }
}

/// A command line, and how to read the exit status of its run.
#[derive(Debug)]
pub struct ShellCommand {
    pub line: String,
    /// Whether a run that does not exit with success counts as a failure of
    /// the action.
    pub strict: bool,
}

/// Whether a turn in this direction is clockwise.
pub open spec fn is_clockwise(direction: i8) -> bool {
    direction > 0
}

/// `+` for a clockwise turn, `-` for any other.
pub open spec fn sign_of(direction: i8) -> Seq<char> {
    if is_clockwise(direction) {
        "+"@
    } else {
        "-"@
    }
}

/// The master volume goes up or down by five percent.
pub open spec fn volume_line(direction: i8) -> Seq<char> {
    "amixer sset Master 5%"@ + sign_of(direction)
}

/// The player skips to the next or to the previous track.
pub open spec fn media_track_line(direction: i8) -> Seq<char> {
    if is_clockwise(direction) {
        "playerctl next"@
    } else {
        "playerctl previous"@
    }
}

/// The player seeks five seconds forward or backward.
pub open spec fn media_seek_line(direction: i8) -> Seq<char> {
    "playerctl position 5"@ + sign_of(direction)
}

/// Three clicks of a mouse button: button five scrolls down, button four
/// scrolls up.
pub open spec fn scroll_line(direction: i8) -> Seq<char> {
    "xdotool click --repeat 3 "@ + (if is_clockwise(direction) {
        "5"@
    } else {
        "4"@
    })
}

/// The screen gets brighter or darker by ten percent.
pub open spec fn brightness_line(direction: i8) -> Seq<char> {
    "brightnessctl set 10%"@ + sign_of(direction)
}

/// The user's command line for this direction. An empty one stands for no
/// command.
pub open spec fn custom_line(direction: i8, settings: ActionSettings) -> Seq<char> {
    if is_clockwise(direction) {
        settings.cw_command@
    } else {
        settings.ccw_command@
    }
}

/// The command line that a turn runs under `settings`, if it runs any.
pub open spec fn command_line(direction: i8, settings: ActionSettings) -> Option<Seq<char>> {
    match settings.mode {
        ActionMode::Volume => Some(volume_line(direction)),
        ActionMode::MediaTrack => Some(media_track_line(direction)),
        ActionMode::MediaSeek => Some(media_seek_line(direction)),
        ActionMode::Scroll => Some(scroll_line(direction)),
        ActionMode::Brightness => Some(brightness_line(direction)),
        ActionMode::Custom => if custom_line(direction, settings).len() == 0 {
            None
        } else {
            Some(custom_line(direction, settings))
        },
    }
}

/// Whether a command of this mode has to exit with success. The media
/// commands need not: no player may be running.
pub open spec fn is_strict(mode: ActionMode) -> bool {
    !(mode is MediaTrack || mode is MediaSeek)
}

/// What `String::from_utf8_lossy` makes of `bytes`.
pub uninterp spec fn lossy_text(bytes: Seq<u8>) -> Seq<char>;

/// `String::from_utf8_lossy`, with its result as an owned string: the text
/// of `bytes`, in which U+FFFD stands for every part that is not UTF-8. The
/// contract only names that text.
#[verifier::external_body]
fn decode_lossy(bytes: &[u8]) -> (text: String)
    ensures
        text@ == lossy_text(bytes@),
{
    String::from_utf8_lossy(bytes).into_owned()
}

/// `"+"` or `"-"`.
fn sign(direction: i8) -> (text: &'static str)
    ensures
        text@ == sign_of(direction),
{
    if direction > 0 {
        "+"
    } else {
        "-"
    }
}

/// The command line that changes the master volume by five percent.
pub fn volume_command(direction: i8) -> (line: String)
    ensures
        line@ == volume_line(direction),
{
    let mut line = String::from_str("amixer sset Master 5%");
    line.append(sign(direction));
    line
}

/// The command line that changes the track.
pub fn media_track_command(direction: i8) -> (line: String)
    ensures
        line@ == media_track_line(direction),
{
    if direction > 0 {
        String::from_str("playerctl next")
    } else {
        String::from_str("playerctl previous")
    }
}

/// The command line that seeks five seconds.
pub fn media_seek_command(direction: i8) -> (line: String)
    ensures
        line@ == media_seek_line(direction),
{
    let mut line = String::from_str("playerctl position 5");
    line.append(sign(direction));
    line
}

/// The command line that scrolls three clicks.
pub fn scroll_command(direction: i8) -> (line: String)
    ensures
        line@ == scroll_line(direction),
{
    let mut line = String::from_str("xdotool click --repeat 3 ");
    line.append(if direction > 0 {
        "5"
    } else {
        "4"
    });
    line
}

/// The command line that changes the brightness of the screen by ten
/// percent.
pub fn brightness_command(direction: i8) -> (line: String)
    ensures
        line@ == brightness_line(direction),
{
    let mut line = String::from_str("brightnessctl set 10%");
    line.append(sign(direction));
    line
}

/// The user's command line for this direction, unless it is empty.
pub fn custom_command(direction: i8, settings: &ActionSettings) -> (line: Option<String>)
    ensures
        line is Some <==> custom_line(direction, *settings).len() > 0,
        line is Some ==> line->0@ == custom_line(direction, *settings),
{
    let chosen = if direction > 0 {
        &settings.cw_command
    } else {
        &settings.ccw_command
    };
    if chosen.as_str().is_empty() {
        None
    } else {
        Some(chosen.clone())
    }
}

/// The command that a turn of the dial runs under `settings`, if it runs
/// any.
pub fn rotation_command(
    direction: i8,
    settings: &ActionSettings,
) -> (command: Option<ShellCommand>)
    ensures
        command is Some <==> command_line(direction, *settings) is Some,
        command is Some ==> {
            &&& command->0.line@ == command_line(direction, *settings)->0
            &&& command->0.strict == is_strict(settings.mode)
        },
{
    match settings.mode {
        ActionMode::Volume => Some(ShellCommand { line: volume_command(direction), strict: true }),
        ActionMode::MediaTrack => Some(
            ShellCommand { line: media_track_command(direction), strict: false },
        ),
        ActionMode::MediaSeek => Some(
            ShellCommand { line: media_seek_command(direction), strict: false },
        ),
        ActionMode::Scroll => Some(ShellCommand { line: scroll_command(direction), strict: true }),
        ActionMode::Brightness => Some(
            ShellCommand { line: brightness_command(direction), strict: true },
        ),
        ActionMode::Custom => match custom_command(direction, settings) {
            Some(line) => Some(ShellCommand { line, strict: true }),
            None => None,
        },
    }
}

/// Reads the end of a run: whether it exited with success, and what it wrote
/// to its error stream. A strict command that did not succeed has failed,
/// with the text of its error stream as the message.
pub fn command_outcome(strict: bool, success: bool, stderr: &[u8]) -> (outcome: Result<(), String>)
    ensures
        outcome is Err <==> strict && !success,
        outcome is Err ==> outcome->Err_0@ == lossy_text(stderr@),
{
    if strict && !success {
        Err(decode_lossy(stderr))
    } else {
        Ok(())
    }
}

/// Two turns in the same direction run the same command, however many ticks
/// each of them reports.
pub proof fn lemma_only_direction_matters(a: i8, b: i8, settings: ActionSettings)
    requires
        is_clockwise(a) == is_clockwise(b),
    ensures
        command_line(a, settings) == command_line(b, settings),
{
}

/// No turn runs an empty command line.
pub proof fn lemma_command_is_never_empty(direction: i8, settings: ActionSettings)
    ensures
        command_line(direction, settings) matches Some(line) ==> line.len() > 0,
{
    reveal_strlit("+");
    reveal_strlit("-");
    reveal_strlit("4");
    reveal_strlit("5");
    reveal_strlit("playerctl next");
    reveal_strlit("playerctl previous");
    assert(sign_of(direction).len() == 1);
    match settings.mode {
        ActionMode::Volume => {
            assert(volume_line(direction).len() > 0);
        },
        ActionMode::MediaTrack => {
            assert(media_track_line(direction).len() > 0);
        },
        ActionMode::MediaSeek => {
            assert(media_seek_line(direction).len() > 0);
        },
        ActionMode::Scroll => {
            assert(scroll_line(direction).len() > 0);
        },
        ActionMode::Brightness => {
            assert(brightness_line(direction).len() > 0);
        },
        ActionMode::Custom => {},
    }
}

/// In every mode but the user's own, a turn one way and a turn the other way
/// run different commands.
pub proof fn lemma_directions_differ(cw: i8, ccw: i8, settings: ActionSettings)
    requires
        is_clockwise(cw),
        !is_clockwise(ccw),
        !(settings.mode is Custom),
    ensures
        command_line(cw, settings) != command_line(ccw, settings),
{
    reveal_strlit("+");
    reveal_strlit("-");
    reveal_strlit("4");
    reveal_strlit("5");
    match settings.mode {
        ActionMode::Volume => {
            lemma_last_char_decides("amixer sset Master 5%"@, "+"@, "-"@);
        },
        ActionMode::MediaTrack => {
            reveal_strlit("playerctl next");
            reveal_strlit("playerctl previous");
            assert(media_track_line(cw).len() != media_track_line(ccw).len());
        },
        ActionMode::MediaSeek => {
            lemma_last_char_decides("playerctl position 5"@, "+"@, "-"@);
        },
        ActionMode::Scroll => {
            lemma_last_char_decides("xdotool click --repeat 3 "@, "5"@, "4"@);
        },
        ActionMode::Brightness => {
            lemma_last_char_decides("brightnessctl set 10%"@, "+"@, "-"@);
        },
        ActionMode::Custom => {},
    }
}

/// Two texts with one beginning and different single characters after it are
/// different.
proof fn lemma_last_char_decides(start: Seq<char>, a: Seq<char>, b: Seq<char>)
    requires
        a.len() == 1,
        b.len() == 1,
        a[0] != b[0],
    ensures
        start + a != start + b,
{
    assert((start + a)[start.len() as int] == a[0]);
    assert((start + b)[start.len() as int] == b[0]);
}

} // verus!
