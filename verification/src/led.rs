//! LED color vocabulary and the LED actuator task's decision logic.
//!
//! The LED task dequeues text tokens, recognizes a closed, case-sensitive
//! set of color names, and hands the exactly-corresponding RGB triple to the
//! LED driver; an unrecognized token produces no driver call at all. The
//! driver itself (gamma and brightness correction, wire timing) is an
//! external collaborator fed by these values.

use vstd::prelude::*;
use crate::text::str_eq;

verus! {

/// The closed set of recognized LED color tokens.
#[derive(Clone, Copy, PartialEq, Eq, Structural, Debug)]
pub enum Color {
    Red,
    Green,
    Blue,
    Yellow,
    Orange,
    Purple,
    StrongOrange,
}

/// An RGB triple, exactly as handed to the LED driver.
#[derive(Clone, Copy, PartialEq, Eq, Structural, Debug)]
pub struct Rgb {
    pub red: u8,
    pub green: u8,
    pub blue: u8,
}

/// Which color a payload token names, if any; matching is exact and
/// case-sensitive, and every other token is unrecognized.
pub open spec fn spec_color_of_token(t: Seq<char>) -> Option<Color> {
    if t == "red"@ {
        Some(Color::Red)
    } else if t == "green"@ {
        Some(Color::Green)
    } else if t == "blue"@ {
        Some(Color::Blue)
    } else if t == "yellow"@ {
        Some(Color::Yellow)
    } else if t == "orange"@ {
        Some(Color::Orange)
    } else if t == "purple"@ {
        Some(Color::Purple)
    } else if t == "strongorange"@ {
        Some(Color::StrongOrange)
    } else {
        None
    }
}

/// The fixed RGB value driven for each color.
pub open spec fn spec_rgb_of(c: Color) -> Rgb {
    match c {
        Color::Red => Rgb { red: 255, green: 0, blue: 0 },
        Color::Green => Rgb { red: 0, green: 255, blue: 0 },
        Color::Blue => Rgb { red: 0, green: 0, blue: 255 },
        Color::Yellow => Rgb { red: 255, green: 255, blue: 0 },
        Color::Orange => Rgb { red: 255, green: 125, blue: 255 },
        Color::Purple => Rgb { red: 128, green: 0, blue: 128 },
        Color::StrongOrange => Rgb { red: 184, green: 134, blue: 11 },
    }
}

/// The driver call one dequeued LED command leads to: the RGB value of its
/// color for a recognized token, nothing for an unrecognized one.
pub open spec fn spec_led_drive(t: Seq<char>) -> Option<Rgb> {
    match spec_color_of_token(t) {
        Some(c) => Some(spec_rgb_of(c)),
        None => None,
    }
}

/// Decode one payload token into its color.
pub fn color_of_token(token: &str) -> (c: Option<Color>)
    ensures
        c == spec_color_of_token(token@),
{
    if str_eq(token, "red") {
        Some(Color::Red)
    } else if str_eq(token, "green") {
        Some(Color::Green)
    } else if str_eq(token, "blue") {
        Some(Color::Blue)
    } else if str_eq(token, "yellow") {
        Some(Color::Yellow)
    } else if str_eq(token, "orange") {
        Some(Color::Orange)
    } else if str_eq(token, "purple") {
        Some(Color::Purple)
    } else if str_eq(token, "strongorange") {
        Some(Color::StrongOrange)
    } else {
        None
    }
}

/// The RGB value for a color.
pub fn rgb_of(color: Color) -> (r: Rgb)
    ensures
        r == spec_rgb_of(color),
{
    match color {
        Color::Red => Rgb { red: 255, green: 0, blue: 0 },
        Color::Green => Rgb { red: 0, green: 255, blue: 0 },
        Color::Blue => Rgb { red: 0, green: 0, blue: 255 },
        Color::Yellow => Rgb { red: 255, green: 255, blue: 0 },
        Color::Orange => Rgb { red: 255, green: 125, blue: 255 },
        Color::Purple => Rgb { red: 128, green: 0, blue: 128 },
        Color::StrongOrange => Rgb { red: 184, green: 134, blue: 11 },
    }
}

/// One iteration of the LED actuator task: decide which RGB value the driver
/// is invoked with for one dequeued command, or that it is not invoked.
pub fn led_task_step(command: &str) -> (r: Option<Rgb>)
    ensures
        r == spec_led_drive(command@),
{
    match color_of_token(command) {
        Some(c) => Some(rgb_of(c)),
        None => None,
    }
}

/// The driver calls a whole sequence of dequeued LED commands leads to, in
/// order: every recognized token contributes its exact color once, and
/// unrecognized tokens contribute nothing.
pub open spec fn spec_led_drive_calls(cmds: Seq<Seq<char>>) -> Seq<Rgb>
    decreases cmds.len(),
{
    if cmds.len() == 0 {
        Seq::empty()
    } else {
        let rest = spec_led_drive_calls(cmds.drop_last());
        match spec_led_drive(cmds.last()) {
            Some(rgb) => rest.push(rgb),
            None => rest,
        }
    }
}

/// Run the LED task over a backlog of commands, returning the exact driver
/// calls made, in order.
pub fn led_drive_calls(commands: &Vec<String>) -> (calls: Vec<Rgb>)
    ensures
        calls@ == spec_led_drive_calls(commands@.map_values(|s: String| s@)),
{
    let views = Ghost(commands@.map_values(|s: String| s@));
    let mut calls: Vec<Rgb> = Vec::new();
    let mut i: usize = 0;
    while i < commands.len()
        invariant
            i <= commands.len(),
            views@ == commands@.map_values(|s: String| s@),
            calls@ == spec_led_drive_calls(views@.take(i as int)),
        decreases commands.len() - i,
    {
        let cmd = &commands[i];
        match led_task_step(cmd.as_str()) {
            Some(rgb) => calls.push(rgb),
            None => (),
        }
        proof {
            assert(views@.take(i + 1 as int).drop_last() =~= views@.take(i as int));
            assert(views@.take(i + 1 as int).last() == cmd@);
        }
        i = i + 1;
    }
    proof {
        assert(views@.take(commands@.len() as int) =~= views@);
    }
    calls
}

} // verus!
