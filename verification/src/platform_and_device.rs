//! Platforms and devices as the selection flow sees them: a tagged union of
//! the two kinds of native handle, each with its display text, and the
//! filtering and annotation that build the selection lists.

use vstd::prelude::*;
use vstd::string::StringExecFns;

use crate::pattern::PlatformMatcher;
use crate::pattern::ci_match;
use crate::text::dec_str;
use crate::text::u64_to_dec;

verus! {

/// A platform or a device, each under its pointer-sized native handle.
/// A platform carries its vendor name; a device carries its display name,
/// annotated with its memory size.
#[derive(Clone, Debug, PartialEq)]
pub enum PlatformOrDevice {
    Plat(usize, String),
    Dev(usize, String),
}

impl PlatformOrDevice {
    /// The native handle, whichever the tag.
    pub open spec fn spec_id(self) -> usize {
        match self {
            PlatformOrDevice::Plat(id, _) => id,
            PlatformOrDevice::Dev(id, _) => id,
        }
    }

    /// The display text, whichever the tag.
    pub open spec fn spec_text(self) -> Seq<char> {
        match self {
            PlatformOrDevice::Plat(_, name) => name@,
            PlatformOrDevice::Dev(_, name) => name@,
        }
    }

    /// The line the selection prompt shows: display text, then the handle.
    pub open spec fn spec_label(self) -> Seq<char> {
        self.spec_text() + ":"@ + dec_str(self.spec_id() as nat)
    }

    /// Renders the selection-prompt line.
    pub fn label(&self) -> (s: String)
        ensures
            s@ == self.spec_label(),
    {
        let mut s = match self {
            PlatformOrDevice::Plat(_, name) => name.clone(),
            PlatformOrDevice::Dev(_, name) => name.clone(),
        };
        s.append(":");
        let id: usize = match self {
            PlatformOrDevice::Plat(id, _) => *id,
            PlatformOrDevice::Dev(id, _) => *id,
        };
        let digits = u64_to_dec(id as u64);
        s.append(digits.as_str());
        s
    }

    /// The platform handle of a platform-tagged value. Selection reaches
    /// this only for platforms; a device here is an unreachable state.
    pub fn platform_id(&self) -> (id: usize)
        requires
            self is Plat,
        ensures
            id == self.spec_id(),
    {
        match self {
            PlatformOrDevice::Plat(id, _) => *id,
            PlatformOrDevice::Dev(_, _) => vstd::pervasive::unreached(),
        }
    }
}

/// One enumerated platform: its handle and its vendor name.
pub struct PlatformReport {
    pub id: usize,
    pub name: String,
}

/// The platforms whose vendor name the pattern matches, in enumeration
/// order, tagged as platforms.
pub open spec fn spec_platform_matches(pattern: Seq<char>, ps: Seq<PlatformReport>) -> Seq<
    PlatformOrDevice,
> {
    ps.filter(|p: PlatformReport| ci_match(pattern, p.name@)).map_values(
        |p: PlatformReport| PlatformOrDevice::Plat(p.id, p.name),
    )
}

/// Keeps exactly the platforms whose vendor name the compiled pattern
/// matches, in enumeration order; an empty pattern keeps them all.
pub fn fuzzy_find_platform(matcher: &PlatformMatcher, platforms: &Vec<PlatformReport>) -> (r: Vec<
    PlatformOrDevice,
>)
    ensures
        r@ == spec_platform_matches(matcher.pattern(), platforms@),
        matcher.pattern().len() == 0 ==> r@ == platforms@.map_values(
            |p: PlatformReport| PlatformOrDevice::Plat(p.id, p.name),
        ),
{
    let ghost pattern = matcher.pattern();
    let ghost pred = |p: PlatformReport| ci_match(pattern, p.name@);
    let ghost entry = |p: PlatformReport| PlatformOrDevice::Plat(p.id, p.name);
    let mut r: Vec<PlatformOrDevice> = Vec::new();
    let mut i: usize = 0;
    while i < platforms.len()
        invariant
            0 <= i <= platforms@.len(),
            r@ == platforms@.subrange(0, i as int).filter(pred).map_values(entry),
            pattern.len() == 0 ==> r@ == platforms@.subrange(0, i as int).map_values(entry),
            pattern == matcher.pattern(),
            pred == (|p: PlatformReport| ci_match(pattern, p.name@)),
            entry == (|p: PlatformReport| PlatformOrDevice::Plat(p.id, p.name)),
        decreases platforms@.len() - i,
    {
        let ghost prefix = platforms@.subrange(0, i as int);
        let ghost grown = platforms@.subrange(0, i as int + 1);
        proof {
            broadcast use Seq::lemma_filter_push;

            assert(grown =~= prefix.push(platforms@[i as int]));
            assert(prefix.push(platforms@[i as int]).filter(pred) == grown.filter(pred));
        }
        let keep = matcher.is_match(platforms[i].name.as_str());
        if keep {
            let entry_exec = PlatformOrDevice::Plat(platforms[i].id, platforms[i].name.clone());
            r.push(entry_exec);
            proof {
                assert(grown.filter(pred) == prefix.filter(pred).push(platforms@[i as int]));
                assert(grown.filter(pred).map_values(entry) =~= prefix.filter(pred).map_values(
                    entry,
                ).push(entry(platforms@[i as int])));
                assert(grown.map_values(entry) =~= prefix.map_values(entry).push(
                    entry(platforms@[i as int]),
                ));
            }
        } else {
            proof {
                assert(grown.filter(pred) == prefix.filter(pred));
            }
        }
        i = i + 1;
    }
    proof {
        assert(platforms@.subrange(0, platforms@.len() as int) =~= platforms@);
    }
    r
}

/// One enumerated device, as the native queries reported it: its handle,
/// its name if one could be read, and its global memory size in bytes if
/// one could be read.
pub struct DeviceReport {
    pub id: usize,
    pub name: Option<String>,
    pub mem_bytes: Option<u64>,
}

/// The name a device is shown under: the reported one, or a placeholder.
pub open spec fn spec_reported_name(name: Option<String>) -> Seq<char> {
    match name {
        Option::Some(n) => n@,
        Option::None => "No Name"@,
    }
}

/// The memory size used for annotation: the reported bytes, or zero.
pub open spec fn spec_reported_mem(mem: Option<u64>) -> u64 {
    match mem {
        Option::Some(m) => m,
        Option::None => 0u64,
    }
}

/// Whole megabytes of a byte count: division by 1,000,000, truncated.
pub fn mb_of_bytes(bytes: u64) -> (mb: u64)
    ensures
        mb == bytes / 1000000,
{
    bytes / 1000000
}

/// A device's display text: its name, then its global memory in whole
/// megabytes (bytes divided by 1,000,000, truncated).
pub open spec fn spec_device_label(name: Seq<char>, mem_bytes: u64) -> Seq<char> {
    name + " [Memory="@ + dec_str((mem_bytes / 1000000) as nat) + "MB]"@
}

/// Renders a device's display text from its reported name and memory size.
pub fn device_label(name: &str, mem_bytes: u64) -> (s: String)
    ensures
        s@ == spec_device_label(name@, mem_bytes),
{
    let mut s = String::from_str(name);
    s.append(" [Memory=");
    let digits = u64_to_dec(mem_bytes / 1000000);
    s.append(digits.as_str());
    s.append("MB]");
    s
}

/// Turns one reported device into a selection entry: device-tagged, under
/// its handle, displayed with name (or the placeholder) and memory size
/// (or zero where none was reported).
pub fn annotate_device(report: DeviceReport) -> (d: PlatformOrDevice)
    ensures
        d is Dev,
        d.spec_id() == report.id,
        d.spec_text() == spec_device_label(
            spec_reported_name(report.name),
            spec_reported_mem(report.mem_bytes),
        ),
{
    let name = match &report.name {
        Option::Some(n) => n.clone(),
        Option::None => String::from_str("No Name"),
    };
    let mem: u64 = match report.mem_bytes {
        Option::Some(m) => m,
        Option::None => 0u64,
    };
    let text = device_label(name.as_str(), mem);
    PlatformOrDevice::Dev(report.id, text)
}

/// Turns the reported devices into selection entries, in enumeration order.
pub fn annotate_devices(reports: Vec<DeviceReport>) -> (r: Vec<PlatformOrDevice>)
    ensures
        r@.len() == reports@.len(),
        forall|i: int|
            0 <= i < reports@.len() ==> {
                &&& (#[trigger] r@[i]) is Dev
                &&& r@[i].spec_id() == reports@[i].id
                &&& r@[i].spec_text() == spec_device_label(
                    spec_reported_name(reports@[i].name),
                    spec_reported_mem(reports@[i].mem_bytes),
                )
            },
{
    let mut r: Vec<PlatformOrDevice> = Vec::new();
    let mut reports = reports;
    let ghost all = reports@;
    let total: usize = reports.len();
    let mut i: usize = 0;
    while reports.len() > 0
        invariant
            all.len() == total,
            0 <= i <= all.len(),
            reports@ == all.subrange(i as int, all.len() as int),
            r@.len() == i,
            forall|j: int|
                0 <= j < i ==> {
                    &&& (#[trigger] r@[j]) is Dev
                    &&& r@[j].spec_id() == all[j].id
                    &&& r@[j].spec_text() == spec_device_label(
                        spec_reported_name(all[j].name),
                        spec_reported_mem(all[j].mem_bytes),
                    )
                },
        decreases all.len() - i,
    {
        let report = reports.remove(0);
        proof {
            assert(report == all[i as int]);
            assert(all.subrange(i as int, all.len() as int).remove(0) =~= all.subrange(
                i as int + 1,
                all.len() as int,
            ));
        }
        let entry = annotate_device(report);
        r.push(entry);
        i = i + 1;
    }
    r
}

} // verus!
