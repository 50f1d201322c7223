//! Finding the backend that controls a display, from the listing of the
//! graphics adapters' device directory.
//!
//! An adapter whose entry name starts with `card` and ends with the display
//! identifier serves that display. Under it a backlight device is looked for
//! first (an entry named after a known backlight driver), then the first of
//! the I2C buses `i2c-1` to `i2c-20` that exists.
use vstd::prelude::*;

use crate::display_info::{find_display, DisplayInfo};
use crate::search::{first_match, lemma_first_match_at, lemma_first_match_none};
use crate::text::{
    decimal_digits, decimal_string, ends_with, is_prefix, is_suffix, same_text, starts_with,
};

verus! {

/// One entry of the adapters' device directory with, where it could be
/// listed, the names of the entries under it.
#[derive(Clone, Debug)]
pub struct AdapterEntry {
    pub name: String,
    pub children: Option<Vec<String>>,
}

/// Where the brightness of a display is controlled.
#[derive(Clone, Copy, Debug, PartialEq, Eq, Structural)]
pub enum DeviceLocation {
    /// A backlight device: entry `entry` under adapter `adapter`.
    Backlight { adapter: usize, entry: usize },
    /// The I2C bus `i2c-<bus>` of adapter `adapter`, spoken to over DDC/CI.
    I2c { adapter: usize, bus: u8 },
}

/// What is found under one adapter.
#[derive(Clone, Copy, Debug, PartialEq, Eq, Structural)]
pub enum Backend {
    Backlight(usize),
    I2c(u8),
}

/// The listing of adapter `adapter` could not be read.
#[derive(Clone, Copy, Debug, PartialEq, Eq, Structural)]
pub struct ProbeError {
    pub adapter: usize,
}

/// Why a display could not be resolved.
#[derive(Clone, Debug)]
pub enum ResolveError {
    /// No display answers to the identifier.
    DisplayNotFound(String),
    /// The listing of an adapter that serves the display could not be read.
    BackendProbe(ProbeError),
}

pub open spec fn adapter_serves(entry: Seq<char>, identifier: Seq<char>) -> bool {
    is_prefix("card"@, entry) && is_suffix(identifier, entry)
}

pub open spec fn is_backlight_entry(name: Seq<char>) -> bool {
    is_prefix("amdgpu_bl"@, name) || is_prefix("intel_backlight"@, name) || is_prefix(
        "acpi_video"@,
        name,
    )
}

pub open spec fn bus_entry(bus: nat) -> Seq<char> {
    "i2c-"@ + decimal_digits(bus)
}

pub open spec fn has_entry(children: Seq<String>, name: Seq<char>) -> bool {
    exists|j: int| 0 <= j < children.len() && (#[trigger] children[j])@ == name
}

/// The first bus from `from` to 20 whose entry is listed.
pub open spec fn first_bus(children: Seq<String>, from: nat) -> Option<u8>
    decreases 21 - from,
{
    if from > 20 {
        None
    } else if has_entry(children, bus_entry(from)) {
        Some(from as u8)
    } else {
        first_bus(children, from + 1)
    }
}

/// The backend found in an adapter's listing: the first backlight entry,
/// else the first listed bus.
pub open spec fn backend_in(children: Seq<String>) -> Option<Backend> {
    match first_match(children, |c: String| is_backlight_entry(c@)) {
        Some(j) => Some(Backend::Backlight(j as usize)),
        None => match first_bus(children, 1) {
            Some(b) => Some(Backend::I2c(b)),
            None => None,
        },
    }
}

/// The adapter settles the search: it serves the display and either cannot be
/// listed or holds a backend.
pub open spec fn adapter_decides(a: AdapterEntry, identifier: Seq<char>) -> bool {
    adapter_serves(a.name@, identifier) && match a.children {
        None => true,
        Some(c) => backend_in(c@) is Some,
    }
}

pub open spec fn locate(adapter: int, b: Backend) -> DeviceLocation {
    match b {
        Backend::Backlight(j) => DeviceLocation::Backlight { adapter: adapter as usize, entry: j },
        Backend::I2c(bus) => DeviceLocation::I2c { adapter: adapter as usize, bus },
    }
}

/// The outcome of the direct search for `identifier` among `adapters`.
pub open spec fn for_device_spec(adapters: Seq<AdapterEntry>, identifier: Seq<char>) -> Option<
    Result<DeviceLocation, ProbeError>,
> {
    match first_match(adapters, |a: AdapterEntry| adapter_decides(a, identifier)) {
        None => None,
        Some(i) => Some(
            match adapters[i].children {
                None => Err(ProbeError { adapter: i as usize }),
                Some(c) => Ok(locate(i, backend_in(c@)->0)),
            },
        ),
    }
}

/// Whether an entry named `name` is listed in `children`.
fn has_child(children: &Vec<String>, name: &str) -> (r: bool)
    ensures
        r == has_entry(children@, name@),
{
    let mut j: usize = 0;
    while j < children.len()
        invariant
            j <= children@.len(),
            forall|k: int| 0 <= k < j ==> (#[trigger] children@[k])@ != name@,
        decreases children@.len() - j,
    {
        if same_text(children[j].as_str(), name) {
            return true;
        }
        j = j + 1;
    }
    false
}

fn is_backlight_name(name: &str) -> (r: bool)
    ensures
        r == is_backlight_entry(name@),
{
    starts_with(name, "amdgpu_bl") || starts_with(name, "intel_backlight") || starts_with(
        name,
        "acpi_video",
    )
}

/// The backend that an adapter's listing holds, if any.
pub fn backend_in_listing(children: &Vec<String>) -> (r: Option<Backend>)
    ensures
        r == backend_in(children@),
{
    let ghost p = |c: String| is_backlight_entry(c@);
    let mut j: usize = 0;
    while j < children.len()
        invariant
            j <= children@.len(),
            p == (|c: String| is_backlight_entry(c@)),
            forall|k: int| 0 <= k < j ==> !p(#[trigger] children@[k]),
        decreases children@.len() - j,
    {
        if is_backlight_name(children[j].as_str()) {
            proof {
                lemma_first_match_at(children@, p, j as int);
            }
            return Some(Backend::Backlight(j));
        }
        j = j + 1;
    }
    proof {
        lemma_first_match_none(children@, p);
    }
    let mut bus: u8 = 1;
    while bus <= 20
        invariant
            1 <= bus <= 21,
            p == (|c: String| is_backlight_entry(c@)),
            first_match(children@, p) == None::<int>,
            first_bus(children@, 1) == first_bus(children@, bus as nat),
        decreases 21 - bus,
    {
        let name = String::from_str("i2c-").concat(decimal_string(bus as u32).as_str());
        proof {
            reveal_strlit("i2c-");
        }
        assert(name@ =~= bus_entry(bus as nat));
        if has_child(children, name.as_str()) {
            return Some(Backend::I2c(bus));
        }
        bus = bus + 1;
    }
    None
}

/// Whether the adapter entry `name` serves the display `identifier`.
pub fn adapter_matches(name: &str, identifier: &str) -> (r: bool)
    ensures
        r == adapter_serves(name@, identifier@),
{
    starts_with(name, "card") && ends_with(name, identifier)
}

impl Backend {
    fn at(self, adapter: usize) -> (r: DeviceLocation)
        ensures
            r == locate(adapter as int, self),
    {
        match self {
            Backend::Backlight(entry) => DeviceLocation::Backlight { adapter, entry },
            Backend::I2c(bus) => DeviceLocation::I2c { adapter, bus },
        }
    }
}

/// Looks for the backend of the display `identifier` directly: `None` where
/// no adapter serving it holds one.
pub fn for_device(adapters: &Vec<AdapterEntry>, identifier: &str) -> (r: Option<
    Result<DeviceLocation, ProbeError>,
>)
    ensures
        r == for_device_spec(adapters@, identifier@),
{
    let ghost p = |a: AdapterEntry| adapter_decides(a, identifier@);
    let mut i: usize = 0;
    while i < adapters.len()
        invariant
            i <= adapters@.len(),
            p == (|a: AdapterEntry| adapter_decides(a, identifier@)),
            forall|k: int| 0 <= k < i ==> !p(#[trigger] adapters@[k]),
        decreases adapters@.len() - i,
    {
        let a = &adapters[i];
        if adapter_matches(a.name.as_str(), identifier) {
            match &a.children {
                None => {
                    proof {
                        lemma_first_match_at(adapters@, p, i as int);
                    }
                    return Some(Err(ProbeError { adapter: i }));
                },
                Some(children) => {
                    if let Some(b) = backend_in_listing(children) {
                        proof {
                            lemma_first_match_at(adapters@, p, i as int);
                        }
                        return Some(Ok(b.at(i)));
                    }
                },
            }
        }
        i = i + 1;
    }
    proof {
        lemma_first_match_none(adapters@, p);
    }
    None
}

/// The outcome of the direct search, as a resolution.
pub open spec fn direct_outcome(
    r: Result<DeviceLocation, ResolveError>,
    found: Result<DeviceLocation, ProbeError>,
) -> bool {
    match found {
        Ok(loc) => r == Ok::<DeviceLocation, ResolveError>(loc),
        Err(e) => r == Err::<DeviceLocation, ResolveError>(ResolveError::BackendProbe(e)),
    }
}

pub open spec fn not_found(r: Result<DeviceLocation, ResolveError>, name: Seq<char>) -> bool {
    r matches Err(ResolveError::DisplayNotFound(n)) && n@ == name
}

fn direct(found: Result<DeviceLocation, ProbeError>) -> (r: Result<DeviceLocation, ResolveError>)
    ensures
        direct_outcome(r, found),
{
    match found {
        Ok(loc) => Ok(loc),
        Err(e) => Err(ResolveError::BackendProbe(e)),
    }
}

/// The sentence that describes a failed resolution.
pub open spec fn resolve_error_text(e: ResolveError) -> Seq<char> {
    match e {
        ResolveError::DisplayNotFound(name) => "Display "@ + name@ + " not found"@,
        ResolveError::BackendProbe(_) => "failed to list the devices of the display's adapter"@,
    }
}

impl ResolveError {
    /// A sentence that describes the failure.
    pub fn message(&self) -> (r: String)
        ensures
            r@ == resolve_error_text(*self),
    {
        match self {
            ResolveError::DisplayNotFound(name) => String::from_str("Display ").concat(
                name.as_str(),
            ).concat(" not found"),
            ResolveError::BackendProbe(_) => String::from_str(
                "failed to list the devices of the display's adapter",
            ),
        }
    }
}

/// Finds the backend of the display that `display_arg` names. The argument is
/// first taken as the display's own name; where that finds nothing, the first
/// display of `displays` whose name, model or description holds it is
/// searched for by its name.
pub fn get_from_name(adapters: &Vec<AdapterEntry>, displays: &Vec<DisplayInfo>, display_arg: &str) -> (r:
    Result<DeviceLocation, ResolveError>)
    ensures
        match for_device_spec(adapters@, display_arg@) {
            Some(found) => direct_outcome(r, found),
            None => match first_match(displays@, |d: DisplayInfo| d.matches(display_arg@)) {
                Some(k) => match for_device_spec(adapters@, displays@[k].name@) {
                    Some(found) => direct_outcome(r, found),
                    None => not_found(r, displays@[k].name@),
                },
                None => not_found(r, display_arg@),
            },
        },
{
    match for_device(adapters, display_arg) {
        Some(found) => direct(found),
        None => match find_display(displays, display_arg) {
            Some(k) => {
                let name = displays[k].name.as_str();
                match for_device(adapters, name) {
                    Some(found) => direct(found),
                    None => {
                        let r = Err(ResolveError::DisplayNotFound(displays[k].name.clone()));
                        assert(not_found(r, displays@[k as int].name@));
                        r
                    },
                }
            },
            None => Err(ResolveError::DisplayNotFound(String::from_str(display_arg))),
        },
    }
}

} // verus!
