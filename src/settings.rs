//! Live-adjustable numeric settings and the panel that selects among them.
use crate::text::{decimal, digit_char, digit_str, push_decimal, signed_decimal, signed_text};
use vstd::prelude::*;
use vstd::string::*;

verus! {

/// One step up, held at the largest `i64`.
pub open spec fn step_up(v: i64) -> i64 {
    if v == i64::MAX { v } else { (v + 1) as i64 }
}

/// One step down, held at the smallest `i64`.
pub open spec fn step_down(v: i64) -> i64 {
    if v == i64::MIN { v } else { (v - 1) as i64 }
}

fn up_one(v: i64) -> (r: i64)
    ensures
        r == step_up(v),
{
    if v == i64::MAX { v } else { v + 1 }
}

fn down_one(v: i64) -> (r: i64)
    ensures
        r == step_down(v),
{
    if v == i64::MIN { v } else { v - 1 }
}

/// `G` shown without decimals: a one followed by `e` zeros when `G = 10^e`
/// is at least one, else zero.
pub open spec fn gravity_text(e: int) -> Seq<char> {
    if e < 0 {
        seq!['0']
    } else {
        seq!['1'] + Seq::new(e as nat, |i: int| '0')
    }
}

/// `h / 100` shown with two decimals.
pub open spec fn drag_text(h: int) -> Seq<char> {
    let m: nat = if h < 0 { (-h) as nat } else { h as nat };
    let sign: Seq<char> = if h < 0 { seq!['-'] } else { Seq::empty() };
    sign + decimal(m / 100) + seq!['.', digit_char((m % 100) / 10), digit_char(m % 10)]
}

/// The time step of one update, in whole units; it may go negative, which
/// runs the simulation backwards.
#[derive(Clone, Copy, PartialEq, Eq, Structural, Debug)]
pub struct Speed(pub i64);

/// The gravitational constant, held as its power of ten: `G = 10^self.0`.
/// Each step multiplies or divides `G` by ten.
#[derive(Clone, Copy, PartialEq, Eq, Structural, Debug)]
pub struct Gravity(pub i64);

/// The velocity drag factor, held in hundredths: the factor is
/// `self.0 / 100`. Each step adds or takes away one hundredth.
#[derive(Clone, Copy, PartialEq, Eq, Structural, Debug)]
pub struct Drag(pub i64);

/// A named numeric control: a label, a displayed value, and one step up or
/// down.
pub trait Settings: Sized {
    spec fn label(&self) -> Seq<char>;

    /// The displayed value.
    spec fn shown(&self) -> Seq<char>;

    /// The setting after one step up.
    spec fn incremented(&self) -> Self;

    /// The setting after one step down.
    spec fn decremented(&self) -> Self;

    fn text(&self) -> (r: &'static str)
        ensures
            r@ == self.label(),
    ;

    fn value(&self) -> (r: String)
        ensures
            r@ == self.shown(),
    ;

    fn increment(&mut self)
        ensures
            *final(self) == old(self).incremented(),
    ;

    fn decrement(&mut self)
        ensures
            *final(self) == old(self).decremented(),
    ;
}

impl Speed {
    pub fn new() -> (r: Speed)
        ensures
            r.0 == 3,
    {
        Speed(3)
    }
}

impl Settings for Speed {
    open spec fn label(&self) -> Seq<char> {
        "Speed:"@
    }

    open spec fn shown(&self) -> Seq<char> {
        signed_decimal(self.0 as int)
    }

    open spec fn incremented(&self) -> Speed {
        Speed(step_up(self.0))
    }

    open spec fn decremented(&self) -> Speed {
        Speed(step_down(self.0))
    }

    fn text(&self) -> (r: &'static str) {
        "Speed:"
    }

    fn value(&self) -> (r: String) {
        signed_text(self.0)
    }

    fn increment(&mut self) {
        self.0 = up_one(self.0);
    }

    fn decrement(&mut self) {
        self.0 = down_one(self.0);
    }
}

impl Gravity {
    pub fn new() -> (r: Gravity)
        ensures
            r.0 == 2,
    {
        Gravity(2)
    }
}

impl Settings for Gravity {
    open spec fn label(&self) -> Seq<char> {
        "Force (G):"@
    }

    open spec fn shown(&self) -> Seq<char> {
        gravity_text(self.0 as int)
    }

    open spec fn incremented(&self) -> Gravity {
        Gravity(step_up(self.0))
    }

    open spec fn decremented(&self) -> Gravity {
        Gravity(step_down(self.0))
    }

    fn text(&self) -> (r: &'static str) {
        "Force (G):"
    }

    fn value(&self) -> (r: String) {
        let mut s = String::new();
        if self.0 < 0 {
            proof { reveal_strlit("0"); }
            s.append("0");
            assert(s@ =~= gravity_text(self.0 as int));
            return s;
        }
        proof { reveal_strlit("1"); }
        s.append("1");
        let mut i: i64 = 0;
        while i < self.0
            invariant
                0 <= i <= self.0,
                s@ == seq!['1'] + Seq::new(i as nat, |k: int| '0'),
            decreases self.0 - i,
        {
            proof { reveal_strlit("0"); }
            s.append("0");
            i = i + 1;
            assert(s@ =~= seq!['1'] + Seq::new(i as nat, |k: int| '0'));
        }
        s
    }

    fn increment(&mut self) {
        self.0 = up_one(self.0);
    }

    fn decrement(&mut self) {
        self.0 = down_one(self.0);
    }
}

impl Drag {
    pub fn new() -> (r: Drag)
        ensures
            r.0 == 99,
    {
        Drag(99)
    }
}

impl Settings for Drag {
    open spec fn label(&self) -> Seq<char> {
        "Drag:"@
    }

    open spec fn shown(&self) -> Seq<char> {
        drag_text(self.0 as int)
    }

    open spec fn incremented(&self) -> Drag {
        Drag(step_up(self.0))
    }

    open spec fn decremented(&self) -> Drag {
        Drag(step_down(self.0))
    }

    fn text(&self) -> (r: &'static str) {
        "Drag:"
    }

    fn value(&self) -> (r: String) {
        let h = self.0;
        let m: u64 = if h < 0 { (0i128 - h as i128) as u64 } else { h as u64 };
        let mut s = String::new();
        if h < 0 {
            proof { reveal_strlit("-"); }
            s.append("-");
        }
        push_decimal(&mut s, m / 100);
        proof { reveal_strlit("."); }
        s.append(".");
        s.append(digit_str((m % 100) / 10));
        s.append(digit_str(m % 10));
        assert(s@ =~= drag_text(h as int));
        s
    }

    fn increment(&mut self) {
        self.0 = up_one(self.0);
    }

    fn decrement(&mut self) {
        self.0 = down_one(self.0);
    }
}

/// One adjustable setting of a simulation.
#[derive(Clone, Copy, PartialEq, Eq, Structural, Debug)]
pub enum Setting {
    Speed(Speed),
    Gravity(Gravity),
    Drag(Drag),
}

impl Setting {
    /// The integer that the steps move.
    pub open spec fn level(self) -> i64 {
        match self {
            Setting::Speed(s) => s.0,
            Setting::Gravity(g) => g.0,
            Setting::Drag(d) => d.0,
        }
    }

    /// The same kind of setting at level `v`.
    pub open spec fn with_level(self, v: i64) -> Setting {
        match self {
            Setting::Speed(_) => Setting::Speed(Speed(v)),
            Setting::Gravity(_) => Setting::Gravity(Gravity(v)),
            Setting::Drag(_) => Setting::Drag(Drag(v)),
        }
    }
}

impl Settings for Setting {
    open spec fn label(&self) -> Seq<char> {
        match *self {
            Setting::Speed(s) => s.label(),
            Setting::Gravity(g) => g.label(),
            Setting::Drag(d) => d.label(),
        }
    }

    open spec fn shown(&self) -> Seq<char> {
        match *self {
            Setting::Speed(s) => s.shown(),
            Setting::Gravity(g) => g.shown(),
            Setting::Drag(d) => d.shown(),
        }
    }

    open spec fn incremented(&self) -> Setting {
        self.with_level(step_up(self.level()))
    }

    open spec fn decremented(&self) -> Setting {
        self.with_level(step_down(self.level()))
    }

    fn text(&self) -> (r: &'static str) {
        match self {
            Setting::Speed(s) => s.text(),
            Setting::Gravity(g) => g.text(),
            Setting::Drag(d) => d.text(),
        }
    }

    fn value(&self) -> (r: String) {
        match self {
            Setting::Speed(s) => s.value(),
            Setting::Gravity(g) => g.value(),
            Setting::Drag(d) => d.value(),
        }
    }

    fn increment(&mut self) {
        match *self {
            Setting::Speed(s) => {
                let mut t = s;
                t.increment();
                *self = Setting::Speed(t);
            },
            Setting::Gravity(g) => {
                let mut t = g;
                t.increment();
                *self = Setting::Gravity(t);
            },
            Setting::Drag(d) => {
                let mut t = d;
                t.increment();
                *self = Setting::Drag(t);
            },
        }
    }

    fn decrement(&mut self) {
        match *self {
            Setting::Speed(s) => {
                let mut t = s;
                t.decrement();
                *self = Setting::Speed(t);
            },
            Setting::Gravity(g) => {
                let mut t = g;
                t.decrement();
                *self = Setting::Gravity(t);
            },
            Setting::Drag(d) => {
                let mut t = d;
                t.decrement();
                *self = Setting::Drag(t);
            },
        }
    }
}

/// `s` after `n` increments.
pub open spec fn raised(s: Setting, n: nat) -> Setting
    decreases n,
{
    if n == 0 { s } else { raised(s, (n - 1) as nat).incremented() }
}

/// `s` after `n` decrements.
pub open spec fn lowered(s: Setting, n: nat) -> Setting
    decreases n,
{
    if n == 0 { s } else { lowered(s, (n - 1) as nat).decremented() }
}

proof fn lemma_raised_level(s: Setting, n: nat)
    requires
        s.level() + n <= i64::MAX,
    ensures
        raised(s, n) == s.with_level((s.level() + n) as i64),
    decreases n,
{
    if n > 0 {
        lemma_raised_level(s, (n - 1) as nat);
    } else {
        assert(s.with_level(s.level()) == s);
    }
}

proof fn lemma_lowered_level(s: Setting, n: nat)
    requires
        s.level() - n >= i64::MIN,
    ensures
        lowered(s, n) == s.with_level((s.level() - n) as i64),
    decreases n,
{
    if n > 0 {
        lemma_lowered_level(s, (n - 1) as nat);
    } else {
        assert(s.with_level(s.level()) == s);
    }
}

/// Incrementing a setting `n` times and then decrementing it `n` times gives
/// back the same setting, and so the same displayed value, as long as the
/// increments do not reach the top of the range.
pub proof fn lemma_settings_round_trip(s: Setting, n: nat)
    requires
        s.level() + n <= i64::MAX,
    ensures
        lowered(raised(s, n), n) == s,
        lowered(raised(s, n), n).shown() == s.shown(),
{
    lemma_raised_level(s, n);
    let t = raised(s, n);
    lemma_lowered_level(t, n);
    assert(t.with_level(s.level()) == s);
}

/// An ordered list of settings with one of them selected.
pub struct SettingsBlock {
    settings: Vec<Setting>,
    selected: usize,
}

impl SettingsBlock {
    pub closed spec fn entries(&self) -> Seq<Setting> {
        self.settings@
    }

    pub closed spec fn selection(&self) -> int {
        self.selected as int
    }

    /// The selection points at an entry, or is zero when there is none.
    pub open spec fn wf(&self) -> bool {
        if self.entries().len() == 0 {
            self.selection() == 0
        } else {
            0 <= self.selection() < self.entries().len()
        }
    }

    /// The selection one entry up, stopping at the first.
    pub open spec fn selection_above(&self) -> int {
        if self.selection() > 0 { self.selection() - 1 } else { 0 }
    }

    /// The selection one entry down, stopping at the last.
    pub open spec fn selection_below(&self) -> int {
        if self.selection() + 1 < self.entries().len() {
            self.selection() + 1
        } else {
            self.selection()
        }
    }

    /// The entries with the selected one decremented.
    pub open spec fn entries_after_left(&self) -> Seq<Setting> {
        if self.entries().len() == 0 {
            self.entries()
        } else {
            self.entries().update(self.selection(), self.entries()[self.selection()].decremented())
        }
    }

    /// The entries with the selected one incremented.
    pub open spec fn entries_after_right(&self) -> Seq<Setting> {
        if self.entries().len() == 0 {
            self.entries()
        } else {
            self.entries().update(self.selection(), self.entries()[self.selection()].incremented())
        }
    }

    /// A panel over `settings` with the first one selected.
    pub fn new(settings: Vec<Setting>) -> (r: SettingsBlock)
        ensures
            r.wf(),
            r.entries() == settings@,
            r.selection() == 0,
    {
        SettingsBlock { settings, selected: 0 }
    }

    pub fn len(&self) -> (r: usize)
        ensures
            r == self.entries().len(),
    {
        self.settings.len()
    }

    pub fn selected(&self) -> (r: usize)
        ensures
            r == self.selection(),
    {
        self.selected
    }

    pub fn get(&self, i: usize) -> (r: Setting)
        requires
            i < self.entries().len(),
        ensures
            r == self.entries()[i as int],
    {
        self.settings[i]
    }

    /// Moves the selection one entry up, stopping at the first.
    pub fn up(&mut self)
        requires
            old(self).wf(),
        ensures
            final(self).wf(),
            final(self).entries() == old(self).entries(),
            final(self).selection() == old(self).selection_above(),
    {
        if self.selected != 0 {
            self.selected = self.selected - 1;
        }
    }

    /// Moves the selection one entry down, stopping at the last.
    pub fn down(&mut self)
        requires
            old(self).wf(),
        ensures
            final(self).wf(),
            final(self).entries() == old(self).entries(),
            final(self).selection() == old(self).selection_below(),
    {
        if self.settings.len() > 0 && self.selected < self.settings.len() - 1 {
            self.selected = self.selected + 1;
        }
    }

    /// Decrements the selected setting; nothing happens on an empty panel.
    pub fn left(&mut self)
        requires
            old(self).wf(),
        ensures
            final(self).wf(),
            final(self).selection() == old(self).selection(),
            final(self).entries() == old(self).entries_after_left(),
    {
        if self.selected < self.settings.len() {
            let mut s = self.settings[self.selected];
            s.decrement();
            self.settings.set(self.selected, s);
        }
    }

    /// Increments the selected setting; nothing happens on an empty panel.
    pub fn right(&mut self)
        requires
            old(self).wf(),
        ensures
            final(self).wf(),
            final(self).selection() == old(self).selection(),
            final(self).entries() == old(self).entries_after_right(),
    {
        if self.selected < self.settings.len() {
            let mut s = self.settings[self.selected];
            s.increment();
            self.settings.set(self.selected, s);
        }
    }

    /// One line per setting, label and value split by a tab, with a flag
    /// that marks the selected one.
    pub fn render(&self) -> (r: Vec<(String, bool)>)
        ensures
            r@.len() == self.entries().len(),
            forall|i: int|
                0 <= i < r@.len() ==> {
                    &&& (#[trigger] r@[i]).0@ == self.entries()[i].label() + seq!['\t']
                        + self.entries()[i].shown()
                    &&& r@[i].1 == (i == self.selection())
                },
    {
        let mut r: Vec<(String, bool)> = Vec::new();
        let mut i: usize = 0;
        while i < self.settings.len()
            invariant
                i <= self.settings@.len(),
                r@.len() == i,
                forall|k: int|
                    0 <= k < i ==> {
                        &&& (#[trigger] r@[k]).0@ == self.entries()[k].label() + seq!['\t']
                            + self.entries()[k].shown()
                        &&& r@[k].1 == (k == self.selection())
                    },
            decreases self.settings@.len() - i,
        {
            let s = self.settings[i];
            let mut line = String::new();
            line.append(s.text());
            proof { reveal_strlit("\t"); }
            line.append("\t");
            let v = s.value();
            line.append(v.as_str());
            assert(line@ =~= self.entries()[i as int].label() + seq!['\t']
                + self.entries()[i as int].shown());
            r.push((line, i == self.selected));
            i = i + 1;
        }
        r
    }
}

} // verus!
