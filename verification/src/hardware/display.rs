//! What the OLED display shows: the lines of text of each screen, where they
//! go and in which font, and the width of the progress bar. Drawing them is
//! the caller's work.

use vstd::prelude::*;
use crate::text::{
    decimal, fixed1_of_hundredths, push_decimal, push_fixed1_of_hundredths, push_text, round_f32_hundredths,
    round_f32_hundredths_exec,
};

verus! {

/// Width of the display in pixels.
pub const DISPLAY_WIDTH: u32 = 128;
/// Height of the display in pixels.
pub const DISPLAY_HEIGHT: u32 = 64;

/// What the display presents. Weights in centigrams, flow in cg/s.
#[derive(Debug, Clone)]
pub struct DisplayState {
    pub weight_cg: i32,
    pub target_weight_cg: i32,
    pub flow_rate_cg_per_s: i32,
    pub timer_running: bool,
    pub brew_state: String,
    pub ble_connected: bool,
    pub battery_percent: u8,
    pub error: Option<String>,
}

impl Default for DisplayState {
    /// Nothing on the scale, a 36 g target, idle and disconnected.
    fn default() -> (r: Self)
        ensures
            r.weight_cg == 0,
            r.target_weight_cg == 3600,
            r.flow_rate_cg_per_s == 0,
            !r.timer_running,
            r.brew_state@ == "Idle"@,
            !r.ble_connected,
            r.battery_percent == 0,
            r.error is None,
    {
        DisplayState {
            weight_cg: 0,
            target_weight_cg: 3600,
            flow_rate_cg_per_s: 0,
            timer_running: false,
            brew_state: String::from_str("Idle"),
            ble_connected: false,
            battery_percent: 0,
            error: None,
        }
    }
}

/// A line of text placed at `(x, y)` (top-left), in the large title font or
/// the small text font.
#[derive(Debug, Clone)]
pub struct TextLine {
    pub text: String,
    pub x: i32,
    pub y: i32,
    pub large: bool,
}

/// A line as the specifications see it.
pub open spec fn line_view(l: TextLine) -> (Seq<char>, i32, i32, bool) {
    (l.text@, l.x, l.y, l.large)
}

/// Hundredths, held as the nearest `f32`, rounded to whole units as `{:.0}`
/// renders that `f32` (see `round_f32_hundredths`); a negative value keeps
/// its sign.
pub open spec fn fixed0_of_hundredths(v: int) -> Seq<char> {
    let a = if v < 0 { -v } else { v };
    let whole = round_f32_hundredths(a as nat, 100);
    (if v < 0 { seq!['-'] } else { Seq::<char>::empty() }) + decimal(whole)
}

/// The main screen: on an error, `ERROR:` and the message; otherwise the
/// weight, the target, the flow, the brew state with a timer mark, and the
/// connection and battery status.
pub open spec fn refresh_lines(s: DisplayState) -> Seq<(Seq<char>, i32, i32, bool)> {
    match s.error {
        Some(e) => seq![("ERROR:"@, 0, 15, true), (e@, 0, 31, false)],
        None => seq![
            (fixed1_of_hundredths(s.weight_cg as int) + "g"@, 0, 15, true),
            ("→"@ + fixed0_of_hundredths(s.target_weight_cg as int) + "g"@, 80, 15, false),
            ("Flow: "@ + fixed1_of_hundredths(s.flow_rate_cg_per_s as int) + "g/s"@, 0, 33, false),
            (s.brew_state@ + " "@ + (if s.timer_running { "⏱"@ } else { ""@ }), 0, 45, false),
            (
                "BLE:"@ + (if s.ble_connected { "✓"@ } else { "✗"@ }) + " Bat:"@ + decimal(s.battery_percent as nat)
                    + "%"@,
                0,
                57,
                false,
            ),
        ],
    }
}

/// Appends whole units of hundredths, rounded, to `s`.
fn push_fixed0_of_hundredths(s: &mut String, v: i32)
    ensures
        final(s)@ == old(s)@ + fixed0_of_hundredths(v as int),
{
    proof {
        reveal_strlit("-");
    }
    let ghost start = s@;
    let a: u64 = if v < 0 { (-(v as i64)) as u64 } else { v as u64 };
    let whole = round_f32_hundredths_exec(a, 100);
    if v < 0 {
        s.append("-");
    }
    push_decimal(s, whole);
    proof {
        assert(s@ =~= start + fixed0_of_hundredths(v as int));
    }
}

/// The lines of the main screen.
pub fn refresh_layout(state: &DisplayState) -> (r: Vec<TextLine>)
    ensures
        r@.map_values(|l: TextLine| line_view(l)) == refresh_lines(*state),
{
    let mut lines: Vec<TextLine> = Vec::new();
    match &state.error {
        Some(e) => {
            lines.push(TextLine { text: String::from_str("ERROR:"), x: 0, y: 15, large: true });
            lines.push(TextLine { text: e.clone(), x: 0, y: 31, large: false });
        },
        None => {
            let mut weight = String::new();
            push_fixed1_of_hundredths(&mut weight, state.weight_cg as i64);
            push_text(&mut weight, "g");
            lines.push(TextLine { text: weight, x: 0, y: 15, large: true });
            let mut target = String::from_str("→");
            push_fixed0_of_hundredths(&mut target, state.target_weight_cg);
            push_text(&mut target, "g");
            lines.push(TextLine { text: target, x: 80, y: 15, large: false });
            let mut flow = String::from_str("Flow: ");
            push_fixed1_of_hundredths(&mut flow, state.flow_rate_cg_per_s as i64);
            push_text(&mut flow, "g/s");
            lines.push(TextLine { text: flow, x: 0, y: 33, large: false });
            let mut st = state.brew_state.clone();
            push_text(&mut st, " ");
            if state.timer_running {
                push_text(&mut st, "⏱");
            } else {
                push_text(&mut st, "");
            }
            lines.push(TextLine { text: st, x: 0, y: 45, large: false });
            let mut status = String::from_str("BLE:");
            if state.ble_connected {
                push_text(&mut status, "✓");
            } else {
                push_text(&mut status, "✗");
            }
            push_text(&mut status, " Bat:");
            push_decimal(&mut status, state.battery_percent as u64);
            push_text(&mut status, "%");
            lines.push(TextLine { text: status, x: 0, y: 57, large: false });
        },
    }
    proof {
        assert(lines@.map_values(|l: TextLine| line_view(l)) =~= refresh_lines(*state));
    }
    lines
}

/// The boot screen's lines.
pub fn boot_screen_layout() -> (r: Vec<TextLine>)
    ensures
        r@.map_values(|l: TextLine| line_view(l)) == seq![
            ("Gravel Scale"@, 10i32, 20i32, true),
            ("Initializing..."@, 20i32, 40i32, false),
        ],
{
    let mut lines: Vec<TextLine> = Vec::new();
    lines.push(TextLine { text: String::from_str("Gravel Scale"), x: 10, y: 20, large: true });
    lines.push(TextLine { text: String::from_str("Initializing..."), x: 20, y: 40, large: false });
    proof {
        assert(lines@.map_values(|l: TextLine| line_view(l)) =~= seq![
            ("Gravel Scale"@, 10i32, 20i32, true),
            ("Initializing..."@, 20i32, 40i32, false),
        ]);
    }
    lines
}

/// Width in pixels of the progress bar for a progress in permille, clamped
/// to the bar's full width of 108 pixels.
pub fn progress_bar_width(progress_permille: u32) -> (r: u32)
    ensures
        r == (DISPLAY_WIDTH - 20) * (if progress_permille > 1000 { 1000 } else { progress_permille as int }) / 1000,
        r <= DISPLAY_WIDTH - 20,
{
    let p: u32 = if progress_permille > 1000 { 1000 } else { progress_permille };
    proof {
        assert(108 * p / 1000 <= 108) by (nonlinear_arith)
            requires p <= 1000;
    }
    (DISPLAY_WIDTH - 20) * p / 1000
}

} // verus!
