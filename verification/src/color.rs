//! The `--color`/`--no-color` flags and the color choice they make.

use vstd::prelude::*;

verus! {

/// When to use colors, as given with `--color`.
#[derive(Copy, Clone, Debug, PartialEq, Eq, Structural)]
pub enum Choice {
    Auto,
    Always,
    Never,
}

impl Default for Choice {
    fn default() -> (r: Self)
        ensures
            r == Choice::Auto,
    {
        Choice::Auto
    }
}

/// How colored output is chosen for the process: detected from the
/// terminal and environment, forced on (with or without more than the
/// basic ANSI colors), or forced off.
#[derive(Copy, Clone, Debug, PartialEq, Eq, Structural)]
pub enum ColorChoice {
    Auto,
    AlwaysAnsi,
    Always,
    Never,
}

/// The color flags of a command line.
#[derive(Copy, Clone, Debug, PartialEq, Eq, Structural)]
pub struct Color {
    /// Control when to use colors
    color: Choice,
    /// Disable the use of color. Implies `--color=never`
    no_color: bool,
}

/// The choice that a `--color` value makes.
pub open spec fn choice_of(c: Choice) -> ColorChoice {
    match c {
        Choice::Auto => ColorChoice::Auto,
        Choice::Always => ColorChoice::Always,
        Choice::Never => ColorChoice::Never,
    }
}

impl Color {
    /// The `--color` value.
    pub closed spec fn color_flag(self) -> Choice {
        self.color
    }

    /// Whether `--no-color` was given.
    pub closed spec fn no_color_flag(self) -> bool {
        self.no_color
    }

    /// The choice these flags make.
    pub open spec fn choice(self) -> ColorChoice {
        if self.no_color_flag() {
            ColorChoice::Never
        } else {
            choice_of(self.color_flag())
        }
    }

    /// Flags with `--color=<color>`, and `--no-color` where `no_color` holds.
    pub fn new(color: Choice, no_color: bool) -> (r: Self)
        ensures
            r.color_flag() == color,
            r.no_color_flag() == no_color,
    {
        Color { color, no_color }
    }

    /// The `--color` value.
    pub fn color(&self) -> (r: Choice)
        ensures
            r == self.color_flag(),
    {
        self.color
    }

    /// Whether `--no-color` was given.
    pub fn no_color(&self) -> (r: bool)
        ensures
            r == self.no_color_flag(),
    {
        self.no_color
    }

    /// The choice these flags make: `--no-color` turns colors off whatever
    /// `--color` says; otherwise `--color` decides.
    pub fn as_color_choice(self) -> (r: ColorChoice)
        ensures
            r == self.choice(),
    {
        if self.no_color {
            ColorChoice::Never
        } else {
            match self.color {
                Choice::Auto => ColorChoice::Auto,
                Choice::Always => ColorChoice::Always,
                Choice::Never => ColorChoice::Never,
            }
        }
    }
}

impl Default for Color {
    fn default() -> (r: Self)
        ensures
            r.color_flag() == Choice::Auto,
            !r.no_color_flag(),
    {
        Color { color: Choice::Auto, no_color: false }
    }
}

/// The color setting for a command's own help and error output, given
/// whether ANSI colors reach the terminal: always when they do, never
/// when they do not.
pub fn app_color_choice(ansi_color: bool) -> (r: Choice)
    ensures
        r == (if ansi_color { Choice::Always } else { Choice::Never }),
{
    if ansi_color {
        Choice::Always
    } else {
        Choice::Never
    }
}

/// Law: `--no-color` implies `--color=never`: flags that hold `--no-color`
/// make the same choice as `--color=never` alone, whatever their `--color`.
pub proof fn lemma_no_color_implies_never(with_no_color: Color, never: Color)
    requires
        with_no_color.no_color_flag(),
        never.color_flag() == Choice::Never,
        !never.no_color_flag(),
    ensures
        with_no_color.choice() == never.choice(),
        never.choice() == ColorChoice::Never,
{
}

/// Law: without `--no-color`, each `--color` value makes a choice of its
/// own, and none of them forces more than basic ANSI colors.
pub proof fn lemma_color_values_distinct(a: Color, b: Color)
    requires
        !a.no_color_flag(),
        !b.no_color_flag(),
    ensures
        a.choice() == b.choice() <==> a.color_flag() == b.color_flag(),
        a.choice() != ColorChoice::AlwaysAnsi,
{
}

} // verus!
