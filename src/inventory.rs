//! The daemon's inventory of displays and the state of its event loop.
//!
//! The inventory is rebuilt whole whenever the output collaborator reports
//! that an output appeared or went away; between rebuilds it only is read.
use vstd::prelude::*;

use crate::search::{first_match, lemma_first_match, lemma_first_match_at, lemma_first_match_none};
use crate::text::{contains, is_substring, same_text};

verus! {

/// An output as the windowing system describes it.
#[derive(Clone, Debug)]
pub struct OutputInfo {
    pub name: Option<String>,
    pub model: String,
    pub description: Option<String>,
}

/// The control of one display's brightness: a backlight device directory, or
/// a monitor spoken to over DDC/CI through the handle `H`.
pub enum BrightnessControl<H> {
    Backlight(String),
    I2c(H),
}

/// A display of the inventory: an output paired with its control.
pub struct Display<H> {
    pub info: OutputInfo,
    pub control: BrightnessControl<H>,
}

/// An output with the control found for it, if any.
pub struct ProbedOutput<H> {
    pub info: OutputInfo,
    pub control: Option<BrightnessControl<H>>,
}

/// What the event loop does next.
#[derive(Clone, Copy, Debug, PartialEq, Eq, Structural)]
pub enum LoopStep {
    /// Termination was asked for: leave the loop.
    Exit,
    /// The outputs changed: rebuild the inventory first.
    Reload,
    /// Wait for the next event.
    Wait,
}

/// The daemon's state: the inventory and the flags that the event sources set.
pub struct Lumactld<H> {
    pub displays: Vec<Display<H>>,
    pub output_changed: bool,
    pub should_exit: bool,
}

impl OutputInfo {
    /// `display_name` occurs in the name, the model or the description.
    pub open spec fn matches(self, display_name: Seq<char>) -> bool {
        (self.name matches Some(n) && is_substring(display_name, n@)) || is_substring(
            display_name,
            self.model@,
        ) || (self.description matches Some(d) && is_substring(display_name, d@))
    }

    pub open spec fn is_named(self, display_name: Seq<char>) -> bool {
        self.name matches Some(n) && n@ == display_name
    }

    /// Match the display name against the output's name, model or description.
    pub fn match_name(&self, display_name: &str) -> (r: bool)
        ensures
            r == self.matches(display_name@),
    {
        let by_name = match &self.name {
            Some(n) => contains(n.as_str(), display_name),
            None => false,
        };
        let by_description = match &self.description {
            Some(d) => contains(d.as_str(), display_name),
            None => false,
        };
        by_name || contains(self.model.as_str(), display_name) || by_description
    }

    /// Whether the output's name is exactly `display_name`.
    pub fn has_name(&self, display_name: &str) -> (r: bool)
        ensures
            r == self.is_named(display_name@),
    {
        match &self.name {
            Some(n) => same_text(n.as_str(), display_name),
            None => false,
        }
    }
}

/// An output is kept in the inventory when it has a name and a control.
pub open spec fn keeps<H>(p: ProbedOutput<H>) -> bool {
    p.info.name is Some && p.control is Some
}

/// The inventory built from probed outputs, in their order.
pub open spec fn kept<H>(s: Seq<ProbedOutput<H>>) -> Seq<Display<H>>
    decreases s.len(),
{
    if s.len() == 0 {
        Seq::empty()
    } else {
        let rest = kept(s.drop_first());
        if keeps(s[0]) {
            seq![Display { info: s[0].info, control: s[0].control->0 }] + rest
        } else {
            rest
        }
    }
}

/// The display that `display_name` picks: the first one with exactly that
/// name, else the first whose name, model or description holds it.
pub open spec fn resolve_spec<H>(displays: Seq<Display<H>>, display_name: Seq<char>) -> Option<int> {
    match first_match(displays, |d: Display<H>| d.info.is_named(display_name)) {
        Some(i) => Some(i),
        None => first_match(displays, |d: Display<H>| d.info.matches(display_name)),
    }
}

proof fn lemma_kept_named<H>(s: Seq<ProbedOutput<H>>)
    ensures
        forall|i: int| 0 <= i < kept(s).len() ==> (#[trigger] kept(s)[i]).info.name is Some,
    decreases s.len(),
{
    if s.len() > 0 {
        lemma_kept_named(s.drop_first());
    }
}

impl<H> Lumactld<H> {
    /// Every display of the inventory has a name.
    pub open spec fn wf(&self) -> bool {
        forall|i: int| 0 <= i < self.displays@.len() ==> (#[trigger] self.displays@[i]).info.name is Some
    }

    /// A daemon with an empty inventory that still has to be built.
    pub fn new() -> (r: Self)
        ensures
            r.wf(),
            r.displays@.len() == 0,
            r.output_changed,
            !r.should_exit,
    {
        Lumactld { displays: Vec::new(), output_changed: true, should_exit: false }
    }

    /// An output appeared or went away.
    pub fn output_event(&mut self)
        ensures
            final(self).displays == old(self).displays,
            final(self).output_changed,
            final(self).should_exit == old(self).should_exit,
    {
        self.output_changed = true;
    }

    /// Termination was asked for.
    pub fn request_exit(&mut self)
        ensures
            final(self).displays == old(self).displays,
            final(self).output_changed == old(self).output_changed,
            final(self).should_exit,
    {
        self.should_exit = true;
    }

    /// What the loop does next: it leaves once termination was asked for,
    /// rebuilds the inventory after a change of outputs, and waits otherwise.
    pub fn next_step(&self) -> (r: LoopStep)
        ensures
            r == (if self.should_exit {
                LoopStep::Exit
            } else if self.output_changed {
                LoopStep::Reload
            } else {
                LoopStep::Wait
            }),
    {
        if self.should_exit {
            LoopStep::Exit
        } else if self.output_changed {
            LoopStep::Reload
        } else {
            LoopStep::Wait
        }
    }

    /// Replaces the inventory with the probed outputs that have a name and a
    /// control, in their order; the others are dropped.
    pub fn reload_displays(&mut self, probed: Vec<ProbedOutput<H>>)
        ensures
            final(self).wf(),
            final(self).displays@ == kept(probed@),
            !final(self).output_changed,
            final(self).should_exit == old(self).should_exit,
    {
        let mut rest = probed;
        let mut built: Vec<Display<H>> = Vec::new();
        let ghost all = rest@;
        while rest.len() > 0
            invariant
                kept(all) == built@ + kept(rest@),
            decreases rest@.len(),
        {
            let ghost before = rest@;
            let ghost built_before = built@;
            let p = rest.remove(0);
            assert(rest@ =~= before.drop_first());
            let ProbedOutput { info, control } = p;
            match control {
                Some(control) => {
                    if info.name.is_some() {
                        built.push(Display { info, control });
                        assert(built@ + kept(rest@) =~= built_before + kept(before));
                    }
                },
                None => {},
            }
        }
        assert(rest@ =~= Seq::<ProbedOutput<H>>::empty());
        assert(built@ =~= kept(all));
        proof {
            lemma_kept_named(all);
        }
        self.displays = built;
        self.output_changed = false;
    }

    /// The display that `display_name` picks, if any.
    pub fn resolve(&self, display_name: &str) -> (r: Option<usize>)
        ensures
            match r {
                Some(i) => i < self.displays@.len() && resolve_spec(self.displays@, display_name@)
                    == Some(i as int),
                None => resolve_spec(self.displays@, display_name@) == None::<int>,
            },
    {
        let ghost exact = |d: Display<H>| d.info.is_named(display_name@);
        let ghost loose = |d: Display<H>| d.info.matches(display_name@);
        let n = self.displays.len();
        let mut i: usize = 0;
        while i < n
            invariant
                n == self.displays@.len(),
                i <= n,
                exact == (|d: Display<H>| d.info.is_named(display_name@)),
                forall|k: int| 0 <= k < i ==> !exact(#[trigger] self.displays@[k]),
            decreases n - i,
        {
            if self.displays[i].info.has_name(display_name) {
                proof {
                    lemma_first_match_at(self.displays@, exact, i as int);
                }
                return Some(i);
            }
            i = i + 1;
        }
        proof {
            lemma_first_match_none(self.displays@, exact);
        }
        let mut j: usize = 0;
        while j < n
            invariant
                n == self.displays@.len(),
                j <= n,
                exact == (|d: Display<H>| d.info.is_named(display_name@)),
                loose == (|d: Display<H>| d.info.matches(display_name@)),
                first_match(self.displays@, exact) == None::<int>,
                forall|k: int| 0 <= k < j ==> !loose(#[trigger] self.displays@[k]),
            decreases n - j,
        {
            if self.displays[j].info.match_name(display_name) {
                proof {
                    lemma_first_match_at(self.displays@, loose, j as int);
                }
                return Some(j);
            }
            j = j + 1;
        }
        proof {
            lemma_first_match_none(self.displays@, loose);
        }
        None
    }
}

/// A display whose name is the identifier is picked over any display whose
/// model or description merely holds it, wherever the two stand in the
/// inventory: the display picked has exactly that name (the first such one).
pub proof fn lemma_exact_name_wins<H>(displays: Seq<Display<H>>, display_name: Seq<char>, k: int)
    requires
        0 <= k < displays.len(),
        displays[k].info.is_named(display_name),
    ensures
        match resolve_spec(displays, display_name) {
            Some(i) => 0 <= i <= k && displays[i].info.is_named(display_name) && forall|j: int|
                0 <= j < i ==> !(#[trigger] displays[j]).info.is_named(display_name),
            None => false,
        },
{
    let exact = |d: Display<H>| d.info.is_named(display_name);
    lemma_first_match(displays, exact);
    if let Some(i) = first_match(displays, exact) {
        if i > k {
            assert(!exact(displays[k]));
        }
    } else {
        assert(!exact(displays[k]));
    }
}

} // verus!
