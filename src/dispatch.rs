//! The handling of one client request, as a state machine.
//!
//! The hardware is driven from outside: the caller asks `action` what to do,
//! performs that read or write on the display it names, and hands the outcome
//! back to `resume`, until `action` answers with the reply. Requests are thus
//! handled one at a time, and every hardware operation of a request is over
//! before the next one starts.
//!
//! A request that names no display goes to every display of the inventory. A
//! failure on one display does not stop the others; the reply is then the
//! first failure, not a partial listing.
use vstd::prelude::*;

use crate::brightness::{apply_spec, parse_error_text, parse_spec, BrightnessSpec};
use crate::inventory::{resolve_spec, Display, Lumactld};
use crate::ipc::{DisplayBrightness, IpcError, IpcRequest, IpcResponse};
use crate::search::{first_match, lemma_first_match, lemma_first_match_at, lemma_first_match_none};
use crate::text::trimmed;

verus! {

/// What a request does to each display it targets.
#[derive(Clone, Copy, Debug, PartialEq, Eq, Structural)]
pub enum Operation {
    /// Read the display.
    Get,
    /// Read the display, then write the value that the change gives.
    Change(BrightnessSpec),
}

/// How the work on one display ended.
#[derive(Clone, Debug)]
pub enum Outcome {
    Read(u8, u8),
    Written,
    Failed(String),
}

/// The result of a hardware operation, as the caller reports it.
#[derive(Debug)]
pub enum Event {
    Read(Result<(u8, u8), String>),
    Written(Result<(), String>),
}

/// What the caller does next.
#[derive(Debug)]
pub enum Action {
    /// Read `(value, max)` from display `display` of the inventory.
    Read { display: usize },
    /// Write `value` to display `display` of the inventory.
    Write { display: usize, value: u8 },
    /// The request is done: send this answer.
    Reply(Result<IpcResponse, IpcError>),
}

/// One request in progress.
pub struct Dispatch {
    pub operation: Operation,
    /// The inventory positions of the displays the request goes to, in order.
    pub targets: Vec<usize>,
    /// The names of those displays.
    pub names: Vec<String>,
    /// How the work on each of the first targets ended.
    pub outcomes: Vec<Outcome>,
    /// The reading of the current target, while its write is pending.
    pub reading: Option<(u8, u8)>,
    /// An answer decided before any hardware operation.
    pub refusal: Option<IpcError>,
}

pub open spec fn is_failure(o: Outcome) -> bool {
    o is Failed
}

/// `v` lists the readings `outcomes` of the displays named `names`.
pub open spec fn listing_of(v: Seq<DisplayBrightness>, names: Seq<String>, outcomes: Seq<Outcome>) -> bool {
    &&& v.len() == outcomes.len()
    &&& forall|k: int|
        0 <= k < v.len() ==> (#[trigger] v[k]).name@ == names[k]@ && outcomes[k] == Outcome::Read(
            v[k].brightness,
            v[k].max_brightness,
        )
}

/// The targets of a request that names no display: the whole inventory.
pub open spec fn every_display(n: nat) -> Seq<usize> {
    Seq::new(n, |i: int| i as usize)
}

/// The dispatch at its start, with the given operation and targets.
pub open spec fn starts<H>(d: Dispatch, displays: Seq<Display<H>>, operation: Operation, targets: Seq<usize>) -> bool {
    &&& d.refusal is None
    &&& d.operation == operation
    &&& d.targets@ == targets
    &&& forall|k: int|
        0 <= k < targets.len() ==> (#[trigger] d.names@[k])@ == displays[targets[k] as int].info.name->0@
}

pub open spec fn refused(d: Dispatch, e: IpcError) -> bool {
    d.refusal == Some(e) && d.targets@.len() == 0
}

pub open spec fn refused_change(d: Dispatch, text: Seq<char>) -> bool {
    d.refusal matches Some(IpcError::SetBrightnessError { error }) && error@ == text
        && d.targets@.len() == 0
}

/// The dispatch that a request starts.
pub open spec fn started<H>(d: Dispatch, request: IpcRequest, displays: Seq<Display<H>>) -> bool {
    match request {
        IpcRequest::Get { display: None } => starts(
            d,
            displays,
            Operation::Get,
            every_display(displays.len()),
        ),
        IpcRequest::Get { display: Some(name) } => match resolve_spec(displays, name@) {
            None => refused(d, IpcError::DisplayNotFound { display: name }),
            Some(i) => starts(d, displays, Operation::Get, seq![i as usize]),
        },
        IpcRequest::SetBrightness { display: None, brightness } => match parse_spec(
            trimmed(brightness@),
        ) {
            Err(e) => refused_change(d, parse_error_text(e)),
            Ok(spec) => starts(d, displays, Operation::Change(spec), every_display(displays.len())),
        },
        IpcRequest::SetBrightness { display: Some(name), brightness } => match resolve_spec(
            displays,
            name@,
        ) {
            None => refused(d, IpcError::DisplayNotFound { display: name }),
            Some(i) => match parse_spec(trimmed(brightness@)) {
                Err(e) => refused_change(d, parse_error_text(e)),
                Ok(spec) => starts(d, displays, Operation::Change(spec), seq![i as usize]),
            },
        },
    }
}

impl Dispatch {
    pub open spec fn wf(&self) -> bool {
        &&& self.targets@.len() == self.names@.len()
        &&& self.outcomes@.len() <= self.targets@.len()
        &&& self.refusal is Some ==> self.targets@.len() == 0
        &&& self.reading is Some ==> self.operation is Change && self.outcomes@.len()
            < self.targets@.len()
        &&& self.operation is Get ==> forall|k: int|
            0 <= k < self.outcomes@.len() ==> !(#[trigger] self.outcomes@[k] is Written)
    }

    /// Every target is done: only the reply is left.
    pub open spec fn finished(&self) -> bool {
        self.refusal is Some || self.outcomes@.len() >= self.targets@.len()
    }

    /// The reply once every target is done: the first failure, if any; else
    /// the readings, or a plain success for a change.
    pub open spec fn final_reply(&self, a: Action) -> bool {
        match first_match(self.outcomes@, |o: Outcome| is_failure(o)) {
            Some(k) => match self.operation {
                Operation::Get => a == Action::Reply(
                    Err(IpcError::GetBrightnessError { error: self.outcomes@[k]->Failed_0 }),
                ),
                Operation::Change(_) => a == Action::Reply(
                    Err(IpcError::SetBrightnessError { error: self.outcomes@[k]->Failed_0 }),
                ),
            },
            None => match self.operation {
                Operation::Get => a matches Action::Reply(
                    Ok(IpcResponse::DisplayBrightness(v)),
                ) && listing_of(v@, self.names@, self.outcomes@),
                Operation::Change(_) => a == Action::Reply(Ok(IpcResponse::Done)),
            },
        }
    }

    /// What the caller is to do in this state.
    pub open spec fn expected(&self, a: Action) -> bool {
        match self.refusal {
            Some(e) => a == Action::Reply(Err(e)),
            None => if self.outcomes@.len() < self.targets@.len() {
                let t = self.targets@[self.outcomes@.len() as int];
                match self.reading {
                    Some((c, m)) => match self.operation {
                        Operation::Change(spec) => a == Action::Write {
                            display: t,
                            value: apply_spec(spec, c, m),
                        },
                        Operation::Get => a == Action::Read { display: t },
                    },
                    None => a == Action::Read { display: t },
                }
            } else {
                self.final_reply(a)
            },
        }
    }

    /// The outcomes and the pending reading after `e`. An event that answers
    /// no pending operation changes nothing.
    pub open spec fn after(&self, e: Event) -> (Seq<Outcome>, Option<(u8, u8)>) {
        let outcomes = self.outcomes@;
        if self.finished() {
            (outcomes, self.reading)
        } else {
            match self.reading {
                None => match e {
                    Event::Read(Ok((c, m))) => match self.operation {
                        Operation::Get => (outcomes.push(Outcome::Read(c, m)), None),
                        Operation::Change(_) => (outcomes, Some((c, m))),
                    },
                    Event::Read(Err(msg)) => (outcomes.push(Outcome::Failed(msg)), None),
                    Event::Written(_) => (outcomes, None),
                },
                Some(r) => match e {
                    Event::Written(Ok(())) => (outcomes.push(Outcome::Written), None),
                    Event::Written(Err(msg)) => (outcomes.push(Outcome::Failed(msg)), None),
                    Event::Read(_) => (outcomes, Some(r)),
                },
            }
        }
    }

    fn refuse(e: IpcError) -> (r: Dispatch)
        ensures
            r.wf(),
            refused(r, e),
            r.outcomes@.len() == 0,
            r.reading is None,
    {
        Dispatch {
            operation: Operation::Get,
            targets: Vec::new(),
            names: Vec::new(),
            outcomes: Vec::new(),
            reading: None,
            refusal: Some(e),
        }
    }

    fn begin<H>(daemon: &Lumactld<H>, operation: Operation, only: Option<usize>) -> (r: Dispatch)
        requires
            daemon.wf(),
            only matches Some(i) ==> i < daemon.displays@.len(),
        ensures
            r.wf(),
            r.outcomes@.len() == 0,
            r.reading is None,
            starts(
                r,
                daemon.displays@,
                operation,
                match only {
                    Some(i) => seq![i],
                    None => every_display(daemon.displays@.len()),
                },
            ),
    {
        let mut targets: Vec<usize> = Vec::new();
        let mut names: Vec<String> = Vec::new();
        let n = daemon.displays.len();
        let ghost wanted = match only {
            Some(i) => seq![i],
            None => every_display(daemon.displays@.len()),
        };
        let count: usize = match only {
            Some(_) => 1,
            None => n,
        };
        let mut k: usize = 0;
        while k < count
            invariant
                daemon.wf(),
                n == daemon.displays@.len(),
                only matches Some(i) ==> i < n,
                count == wanted.len(),
                wanted == (match only {
                    Some(i) => seq![i],
                    None => every_display(daemon.displays@.len()),
                }),
                k <= count,
                targets@ == wanted.subrange(0, k as int),
                names@.len() == k,
                forall|j: int|
                    0 <= j < k ==> (#[trigger] names@[j])@ == daemon.displays@[wanted[j] as int].info.name->0@,
            decreases count - k,
        {
            let t: usize = match only {
                Some(i) => i,
                None => k,
            };
            assert(t == wanted[k as int]);
            let name = match &daemon.displays[t].info.name {
                Some(name) => name.clone(),
                None => String::new(),
            };
            targets.push(t);
            names.push(name);
            k = k + 1;
            assert(targets@ =~= wanted.subrange(0, k as int));
        }
        assert(targets@ =~= wanted);
        Dispatch { operation, targets, names, outcomes: Vec::new(), reading: None, refusal: None }
    }

    /// Starts the handling of `request` against the inventory of `daemon`.
    /// A display that cannot be found, or a change that does not parse, is
    /// answered before any hardware operation.
    pub fn new<H>(request: &IpcRequest, daemon: &Lumactld<H>) -> (r: Dispatch)
        requires
            daemon.wf(),
        ensures
            r.wf(),
            r.outcomes@.len() == 0,
            r.reading is None,
            started(r, *request, daemon.displays@),
    {
        match request {
            IpcRequest::Get { display: None } => Dispatch::begin(daemon, Operation::Get, None),
            IpcRequest::Get { display: Some(name) } => match daemon.resolve(name.as_str()) {
                None => Dispatch::refuse(IpcError::DisplayNotFound { display: name.clone() }),
                Some(i) => Dispatch::begin(daemon, Operation::Get, Some(i)),
            },
            IpcRequest::SetBrightness { display: None, brightness } => match BrightnessSpec::parse(
                brightness.as_str(),
            ) {
                Err(e) => Dispatch::refuse(IpcError::SetBrightnessError { error: e.message() }),
                Ok(spec) => Dispatch::begin(daemon, Operation::Change(spec), None),
            },
            IpcRequest::SetBrightness { display: Some(name), brightness } => match daemon.resolve(
                name.as_str(),
            ) {
                None => Dispatch::refuse(IpcError::DisplayNotFound { display: name.clone() }),
                Some(i) => match BrightnessSpec::parse(brightness.as_str()) {
                    Err(e) => Dispatch::refuse(IpcError::SetBrightnessError { error: e.message() }),
                    Ok(spec) => Dispatch::begin(daemon, Operation::Change(spec), Some(i)),
                },
            },
        }
    }

    /// The message of the first failure, if any.
    fn first_failure(&self) -> (r: Option<String>)
        ensures
            match first_match(self.outcomes@, |o: Outcome| is_failure(o)) {
                Some(k) => r == Some(self.outcomes@[k]->Failed_0),
                None => r is None,
            },
    {
        let ghost p = |o: Outcome| is_failure(o);
        let mut k: usize = 0;
        while k < self.outcomes.len()
            invariant
                k <= self.outcomes@.len(),
                p == (|o: Outcome| is_failure(o)),
                forall|j: int| 0 <= j < k ==> !p(#[trigger] self.outcomes@[j]),
            decreases self.outcomes@.len() - k,
        {
            if let Outcome::Failed(msg) = &self.outcomes[k] {
                proof {
                    lemma_first_match_at(self.outcomes@, p, k as int);
                }
                return Some(msg.clone());
            }
            k = k + 1;
        }
        proof {
            lemma_first_match_none(self.outcomes@, p);
        }
        None
    }

    /// The readings of a finished read request without failures.
    fn listing(&self) -> (r: Vec<DisplayBrightness>)
        requires
            self.wf(),
            self.operation is Get,
            forall|j: int| 0 <= j < self.outcomes@.len() ==> !is_failure(#[trigger] self.outcomes@[j]),
        ensures
            listing_of(r@, self.names@, self.outcomes@),
    {
        let mut v: Vec<DisplayBrightness> = Vec::new();
        let mut k: usize = 0;
        while k < self.outcomes.len()
            invariant
                self.wf(),
                self.operation is Get,
                forall|j: int| 0 <= j < self.outcomes@.len() ==> !is_failure(#[trigger] self.outcomes@[j]),
                k <= self.outcomes@.len(),
                v@.len() == k,
                forall|j: int|
                    0 <= j < k ==> (#[trigger] v@[j]).name@ == self.names@[j]@ && self.outcomes@[j]
                        == Outcome::Read(v@[j].brightness, v@[j].max_brightness),
            decreases self.outcomes@.len() - k,
        {
            assert(!is_failure(self.outcomes@[k as int]));
            assert(!(self.outcomes@[k as int] is Written));
            if let Outcome::Read(c, m) = &self.outcomes[k] {
                v.push(DisplayBrightness {
                    name: self.names[k].clone(),
                    brightness: *c,
                    max_brightness: *m,
                });
            }
            k = k + 1;
        }
        v
    }

    /// What the caller is to do now.
    pub fn action(&self) -> (r: Action)
        requires
            self.wf(),
        ensures
            self.expected(r),
    {
        if let Some(e) = &self.refusal {
            return Action::Reply(Err(e.duplicate()));
        }
        let k = self.outcomes.len();
        if k < self.targets.len() {
            let t = self.targets[k];
            return match self.reading {
                Some((c, m)) => match &self.operation {
                    Operation::Change(spec) => Action::Write { display: t, value: spec.apply(c, m) },
                    Operation::Get => Action::Read { display: t },
                },
                None => Action::Read { display: t },
            };
        }
        proof {
            lemma_first_match(self.outcomes@, |o: Outcome| is_failure(o));
        }
        match self.first_failure() {
            Some(error) => match &self.operation {
                Operation::Get => Action::Reply(Err(IpcError::GetBrightnessError { error })),
                Operation::Change(_) => Action::Reply(Err(IpcError::SetBrightnessError { error })),
            },
            None => match &self.operation {
                Operation::Get => Action::Reply(Ok(IpcResponse::DisplayBrightness(self.listing()))),
                Operation::Change(_) => Action::Reply(Ok(IpcResponse::Done)),
            },
        }
    }

    /// Records the outcome of the hardware operation the caller performed.
    pub fn resume(&mut self, e: Event)
        requires
            old(self).wf(),
        ensures
            final(self).wf(),
            final(self).operation == old(self).operation,
            final(self).targets == old(self).targets,
            final(self).names == old(self).names,
            final(self).refusal == old(self).refusal,
            (final(self).outcomes@, final(self).reading) == old(self).after(e),
    {
        if self.refusal.is_some() || self.outcomes.len() >= self.targets.len() {
            return;
        }
        match self.reading {
            None => match e {
                Event::Read(Ok((c, m))) => match self.operation {
                    Operation::Get => {
                        self.outcomes.push(Outcome::Read(c, m));
                    },
                    Operation::Change(_) => {
                        self.reading = Some((c, m));
                    },
                },
                Event::Read(Err(msg)) => {
                    self.outcomes.push(Outcome::Failed(msg));
                },
                Event::Written(_) => {},
            },
            Some(_) => match e {
                Event::Written(Ok(())) => {
                    self.outcomes.push(Outcome::Written);
                    self.reading = None;
                },
                Event::Written(Err(msg)) => {
                    self.outcomes.push(Outcome::Failed(msg));
                    self.reading = None;
                },
                Event::Read(_) => {},
            },
        }
    }
}

/// Once every display is done, the reply is a failure exactly when the work on
/// some display failed: failures are never hidden behind a partial listing.
pub proof fn lemma_failures_are_visible(d: Dispatch, a: Action)
    requires
        d.wf(),
        d.refusal is None,
        d.outcomes@.len() == d.targets@.len(),
        d.expected(a),
    ensures
        (a matches Action::Reply(Err(_))) <==> exists|k: int|
            0 <= k < d.outcomes@.len() && is_failure(#[trigger] d.outcomes@[k]),
{
    lemma_first_match(d.outcomes@, |o: Outcome| is_failure(o));
}

} // verus!
