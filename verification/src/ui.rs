//! The content of the display-settings view, computed from the retrieved
//! output records: one titled entry per output, its activity toggle, and the
//! resolution and refresh-rate texts of every supported mode.  Rendering the
//! entries on screen is a collaborator's concern, outside this crate.

use vstd::prelude::*;
use vstd::string::StringExecFns;
use crate::model::{Mode, Output};

verus! {

/// The decimal digit character for one value below ten.
pub open spec fn dec_digit(d: nat) -> char
    recommends
        d < 10,
{
    if d == 0 {
        '0'
    } else if d == 1 {
        '1'
    } else if d == 2 {
        '2'
    } else if d == 3 {
        '3'
    } else if d == 4 {
        '4'
    } else if d == 5 {
        '5'
    } else if d == 6 {
        '6'
    } else if d == 7 {
        '7'
    } else if d == 8 {
        '8'
    } else {
        '9'
    }
}

/// The decimal digit string of a number, most significant digit first, with
/// no leading zeroes except for the number zero itself.
pub open spec fn dec_str(n: nat) -> Seq<char>
    decreases n,
{
    if n < 10 {
        seq![dec_digit(n)]
    } else {
        dec_str(n / 10) + seq![dec_digit(n % 10)]
    }
}

/// A fraction of a thousand, padded with leading zeroes to three digits.
pub open spec fn pad3(m: nat) -> Seq<char>
    recommends
        m < 1000,
{
    if m < 10 {
        "00"@ + dec_str(m)
    } else if m < 100 {
        "0"@ + dec_str(m)
    } else {
        dec_str(m)
    }
}

/// The resolution text of a mode: width and height joined by an "x".
pub open spec fn res_text(m: Mode) -> Seq<char> {
    dec_str(m.width as nat) + "x"@ + dec_str(m.height as nat)
}

/// The refresh-rate text of a mode: the rate is wired in thousandths of Hz
/// and shown in Hz with exactly three fractional digits.
pub open spec fn refresh_text(m: Mode) -> Seq<char> {
    dec_str((m.refresh / 1000) as nat) + "."@ + pad3((m.refresh % 1000) as nat)
}

/// The title of one output's entry.
pub open spec fn title_text(name: Seq<char>) -> Seq<char> {
    "Output "@ + name
}

/// One entry of the view, fully determined by its output record and by
/// whether that output is the only one: the sole output's activity toggle is
/// not selectable, so that the last display cannot be switched off.
pub open spec fn view_matches(v: OutputView, o: Output, only: bool) -> bool {
    &&& v.title@ == title_text(o.name@)
    &&& v.active == o.active
    &&& v.selectable == !only
    &&& v.resolutions@.len() == o.modes@.len()
    &&& forall|j: int|
        0 <= j < o.modes@.len() ==> (#[trigger] v.resolutions@[j])@ == res_text(o.modes@[j])
    &&& v.refresh_rates@.len() == o.modes@.len()
    &&& forall|j: int|
        0 <= j < o.modes@.len() ==> (#[trigger] v.refresh_rates@[j])@ == refresh_text(o.modes@[j])
}

/// One output's entry in the display-settings view.
pub struct OutputView {
    /// The entry's caption, naming the output.
    pub title: String,
    /// The initial state of the activity toggle.
    pub active: bool,
    /// Whether the toggle may be operated at all.
    pub selectable: bool,
    /// The resolution text of each supported mode, in the peer's order.
    pub resolutions: Vec<String>,
    /// The refresh-rate text of each supported mode, in the same order.
    pub refresh_rates: Vec<String>,
}

/// The digit character of one value below ten, as a string.
fn digit_str(d: u32) -> (s: &'static str)
    requires
        d < 10,
    ensures
        s@ == seq![dec_digit(d as nat)],
{
    let s: &'static str = match d {
        0 => "0",
        1 => "1",
        2 => "2",
        3 => "3",
        4 => "4",
        5 => "5",
        6 => "6",
        7 => "7",
        8 => "8",
        _ => "9",
    };
    proof {
        reveal_strlit("0");
        reveal_strlit("1");
        reveal_strlit("2");
        reveal_strlit("3");
        reveal_strlit("4");
        reveal_strlit("5");
        reveal_strlit("6");
        reveal_strlit("7");
        reveal_strlit("8");
        reveal_strlit("9");
        assert(s@ =~= seq![dec_digit(d as nat)]);
    }
    s
}

/// Writes a number in decimal.
fn u32_dec(n: u32) -> (s: String)
    ensures
        s@ == dec_str(n as nat),
    decreases n,
{
    if n < 10 {
        digit_str(n).to_owned()
    } else {
        proof {
            assert(n / 10 < n) by (nonlinear_arith)
                requires
                    n >= 10,
            ;
        }
        let mut s = u32_dec(n / 10);
        s.append(digit_str(n % 10));
        s
    }
}

/// Writes a fraction of a thousand with exactly three digits.
fn frac3(m: u32) -> (s: String)
    requires
        m < 1000,
    ensures
        s@ == pad3(m as nat),
{
    if m < 10 {
        let mut s = "00".to_owned();
        let d = u32_dec(m);
        s.append(d.as_str());
        s
    } else if m < 100 {
        let mut s = "0".to_owned();
        let d = u32_dec(m);
        s.append(d.as_str());
        s
    } else {
        u32_dec(m)
    }
}

/// The resolution text of one mode.
fn mode_resolution(m: Mode) -> (s: String)
    ensures
        s@ == res_text(m),
{
    let mut s = u32_dec(m.width);
    s.append("x");
    let h = u32_dec(m.height);
    s.append(h.as_str());
    s
}

/// The refresh-rate text of one mode.
fn mode_refresh(m: Mode) -> (s: String)
    ensures
        s@ == refresh_text(m),
{
    let mut s = u32_dec(m.refresh / 1000);
    s.append(".");
    let f = frac3(m.refresh % 1000);
    s.append(f.as_str());
    s
}

/// Computes the display-settings view of the retrieved outputs: one entry
/// per output, in order, each determined by its record as `view_matches`
/// states.
pub fn run(outputs: &Vec<Output>) -> (views: Vec<OutputView>)
    ensures
        views@.len() == outputs@.len(),
        forall|i: int|
            0 <= i < outputs@.len() ==> view_matches(
                #[trigger] views@[i],
                outputs@[i],
                outputs@.len() == 1,
            ),
{
    let only = outputs.len() == 1;
    let mut views: Vec<OutputView> = Vec::new();
    let mut i: usize = 0;
    while i < outputs.len()
        invariant
            i <= outputs@.len(),
            views@.len() == i,
            only == (outputs@.len() == 1),
            forall|k: int|
                0 <= k < i ==> view_matches(#[trigger] views@[k], outputs@[k], outputs@.len() == 1),
        decreases outputs@.len() - i,
    {
        let o = &outputs[i];
        let mut title = "Output ".to_owned();
        title.append(o.name.as_str());
        let mut resolutions: Vec<String> = Vec::new();
        let mut refresh_rates: Vec<String> = Vec::new();
        let mut j: usize = 0;
        while j < o.modes.len()
            invariant
                j <= o.modes@.len(),
                resolutions@.len() == j,
                refresh_rates@.len() == j,
                forall|k: int|
                    0 <= k < j ==> (#[trigger] resolutions@[k])@ == res_text(o.modes@[k]),
                forall|k: int|
                    0 <= k < j ==> (#[trigger] refresh_rates@[k])@ == refresh_text(o.modes@[k]),
            decreases o.modes@.len() - j,
        {
            let m = o.modes[j];
            resolutions.push(mode_resolution(m));
            refresh_rates.push(mode_refresh(m));
            j += 1;
        }
        views.push(
            OutputView { title, active: o.active, selectable: !only, resolutions, refresh_rates },
        );
        i += 1;
    }
    views
}

} // verus!
