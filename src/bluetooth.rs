//! Reconnection of paired Bluetooth devices: finding a device by name, the
//! checks before toggling its services, the retry decisions of a reconnect,
//! and the registry that keeps two reconnects of one device apart.

use vstd::prelude::*;
use crate::text::{contains_str, has_substring, lower_of, str_eq, to_lower, trim_str, trimmed_of};

verus! {

/// Milliseconds to wait between disabling and re-enabling the services.
pub const RECONNECT_DELAY_MS: u64 = 1000;

/// Milliseconds to wait before retrying the services that failed to re-enable.
pub const RETRY_DELAY_MS: u64 = 500;

/// The hands-free service class (Bluetooth SIG UUID 0x111E).
pub const HFP_SERVICE_UUID: u128 = 0x0000111E_0000_1000_8000_00805F9B34FB;

/// How well a device name matches a requested name.
#[derive(Debug, Clone, Copy, PartialEq, Eq, PartialOrd, Ord, Structural)]
pub enum MatchQuality {
    NoMatch,
    Contains,
    Exact,
}

/// The rank of a match: higher is better.
pub open spec fn quality_rank(q: MatchQuality) -> int {
    match q {
        MatchQuality::NoMatch => 0,
        MatchQuality::Contains => 1,
        MatchQuality::Exact => 2,
    }
}

/// A name as compared: trimmed, then lower-cased.
pub open spec fn normalized(name: Seq<char>) -> Seq<char> {
    lower_of(trimmed_of(name))
}

/// The match of a normalized request against a normalized device name.
pub open spec fn name_match(target: Seq<char>, device: Seq<char>) -> MatchQuality {
    if target == device {
        MatchQuality::Exact
    } else if has_substring(target, device) || has_substring(device, target) {
        MatchQuality::Contains
    } else {
        MatchQuality::NoMatch
    }
}

/// Trims and lower-cases a name for comparison.
pub fn normalize_name(name: &str) -> (r: String)
    ensures
        r@ == normalized(name@),
{
    to_lower(trim_str(name))
}

/// Scores a device name against an already normalized request: exact, a
/// substring in either direction, or no match.
pub fn check_name_match(target_normalized: &str, device_name: &str) -> (r: MatchQuality)
    ensures
        r == name_match(target_normalized@, normalized(device_name@)),
{
    let device = normalize_name(device_name);
    let d = device.as_str();
    if str_eq(target_normalized, d) {
        MatchQuality::Exact
    } else if contains_str(target_normalized, d) || contains_str(d, target_normalized) {
        MatchQuality::Contains
    } else {
        MatchQuality::NoMatch
    }
}

/// Exact outranks a substring match, which outranks no match; a name always
/// matches itself exactly.
pub proof fn lemma_match_quality_order(target: Seq<char>, device: Seq<char>)
    ensures
        quality_rank(MatchQuality::Exact) > quality_rank(MatchQuality::Contains),
        quality_rank(MatchQuality::Contains) > quality_rank(MatchQuality::NoMatch),
        name_match(target, target) == MatchQuality::Exact,
        name_match(target, device) == MatchQuality::Exact <==> target == device,
        name_match(target, device) == name_match(device, target),
{
}

/// A paired device with its installed services, read fresh for each request.
#[derive(Debug, Clone)]
pub struct PairedDevice {
    pub name: String,
    pub services: Vec<u128>,
}

/// Why a Bluetooth operation failed.
#[derive(Debug, Clone, Copy, PartialEq, Eq, Structural)]
pub enum BluetoothError {
    /// No paired device matches the name.
    DeviceNotFound,
    /// The device has no installed services.
    NoServices,
    /// The device does not expose the hands-free service.
    NoHandsFreeService,
    /// Some services stayed disabled after the retry: reconnect manually.
    ReconnectIncomplete { failed: usize, total: usize },
    /// A reconnect of this device is already in flight.
    AlreadyReconnecting,
}

/// The quality of device `k` for a request.
pub open spec fn quality_at(target: Seq<char>, devices: Seq<PairedDevice>, k: int) -> MatchQuality {
    name_match(normalized(target), normalized(devices[k].name@))
}

/// The device chosen for a request: the first exact match; else the first
/// substring match; else none.
pub open spec fn chosen_device(target: Seq<char>, devices: Seq<PairedDevice>, i: int, q: MatchQuality) -> bool {
    &&& 0 <= i < devices.len()
    &&& q == quality_at(target, devices, i)
    &&& q != MatchQuality::NoMatch
    &&& (q == MatchQuality::Exact ==> forall|k: int|
        0 <= k < i ==> quality_at(target, devices, k) != MatchQuality::Exact)
    &&& (q == MatchQuality::Contains ==> (forall|k: int|
        0 <= k < devices.len() ==> quality_at(target, devices, k) != MatchQuality::Exact) && (
    forall|k: int| 0 <= k < i ==> quality_at(target, devices, k) == MatchQuality::NoMatch))
}

/// Device `i` is the one chosen for a request.
pub open spec fn chosen(target: Seq<char>, devices: Seq<PairedDevice>, i: int) -> bool {
    chosen_device(target, devices, i, quality_at(target, devices, i))
}

/// Finds the paired device for a name. A `Contains` result is a fuzzy match
/// that the caller should report as such.
pub fn find_matching_device(target_name: &str, devices: &Vec<PairedDevice>) -> (r: Result<
    (usize, MatchQuality),
    BluetoothError,
>)
    ensures
        match r {
            Ok((i, q)) => chosen_device(target_name@, devices@, i as int, q),
            Err(e) => e == BluetoothError::DeviceNotFound && forall|k: int|
                0 <= k < devices@.len() ==> quality_at(target_name@, devices@, k)
                    == MatchQuality::NoMatch,
        },
{
    let target = normalize_name(target_name);
    let t = target.as_str();
    let mut best: Option<usize> = None;
    let mut i: usize = 0;
    while i < devices.len()
        invariant
            t@ == normalized(target_name@),
            i <= devices@.len(),
            forall|k: int| 0 <= k < i ==> quality_at(target_name@, devices@, k) != MatchQuality::Exact,
            match best {
                None => forall|k: int|
                    0 <= k < i ==> quality_at(target_name@, devices@, k) == MatchQuality::NoMatch,
                Some(b) => b < i && quality_at(target_name@, devices@, b as int) == MatchQuality::Contains
                    && forall|k: int|
                    0 <= k < b ==> quality_at(target_name@, devices@, k) == MatchQuality::NoMatch,
            },
        decreases devices@.len() - i,
    {
        let q = check_name_match(t, devices[i].name.as_str());
        if q == MatchQuality::Exact {
            return Ok((i, MatchQuality::Exact));
        }
        if q == MatchQuality::Contains && best.is_none() {
            best = Some(i);
        }
        i += 1;
    }
    match best {
        Some(b) => Ok((b, MatchQuality::Contains)),
        None => Err(BluetoothError::DeviceNotFound),
    }
}

/// Whether a service list holds the hands-free service.
pub fn has_hands_free(services: &Vec<u128>) -> (r: bool)
    ensures
        r == services@.contains(HFP_SERVICE_UUID),
{
    let mut i: usize = 0;
    while i < services.len()
        invariant
            i <= services@.len(),
            forall|k: int| 0 <= k < i ==> services@[k] != HFP_SERVICE_UUID,
        decreases services@.len() - i,
    {
        if services[i] == HFP_SERVICE_UUID {
            return true;
        }
        i += 1;
    }
    false
}

/// Chooses the device to reconnect fully: it must match the name and have
/// installed services. The caller then carries out the steps of a
/// `ReconnectSession` over those services.
pub fn reconnect_by_name(name: &str, devices: &Vec<PairedDevice>) -> (r: Result<usize, BluetoothError>)
    ensures
        match r {
            Ok(i) => chosen(name@, devices@, i as int)
                && devices@[i as int].services@.len() > 0,
            Err(BluetoothError::DeviceNotFound) => forall|k: int|
                0 <= k < devices@.len() ==> quality_at(name@, devices@, k) == MatchQuality::NoMatch,
            Err(BluetoothError::NoServices) => exists|i: int|
                chosen(name@, devices@, i) && devices@[i].services@.len() == 0,
            Err(_) => false,
        },
{
    match find_matching_device(name, devices) {
        Err(e) => Err(e),
        Ok((i, q)) => {
            assert(chosen_device(name@, devices@, i as int, q));
            assert(chosen(name@, devices@, i as int));
            if devices[i].services.len() == 0 {
                Err(BluetoothError::NoServices)
            } else {
                Ok(i)
            }
        },
    }
}

/// Chooses the device whose hands-free service is to be disabled, forcing
/// stereo without a full reconnect; it must expose that service.
pub fn disable_hfp_by_name(name: &str, devices: &Vec<PairedDevice>) -> (r: Result<usize, BluetoothError>)
    ensures
        match r {
            Ok(i) => chosen(name@, devices@, i as int)
                && devices@[i as int].services@.contains(HFP_SERVICE_UUID),
            Err(BluetoothError::DeviceNotFound) => forall|k: int|
                0 <= k < devices@.len() ==> quality_at(name@, devices@, k) == MatchQuality::NoMatch,
            Err(BluetoothError::NoHandsFreeService) => exists|i: int|
                chosen(name@, devices@, i) && !devices@[i].services@.contains(
                    HFP_SERVICE_UUID,
                ),
            Err(_) => false,
        },
{
    match find_matching_device(name, devices) {
        Err(e) => Err(e),
        Ok((i, q)) => {
            assert(chosen_device(name@, devices@, i as int, q));
            assert(chosen(name@, devices@, i as int));
            if has_hands_free(&devices[i].services) {
                Ok(i)
            } else {
                Err(BluetoothError::NoHandsFreeService)
            }
        },
    }
}

/// Chooses the device whose hands-free service is to be enabled again; it
/// must expose that service.
pub fn enable_hfp_by_name(name: &str, devices: &Vec<PairedDevice>) -> (r: Result<usize, BluetoothError>)
    ensures
        match r {
            Ok(i) => chosen(name@, devices@, i as int)
                && devices@[i as int].services@.contains(HFP_SERVICE_UUID),
            Err(BluetoothError::DeviceNotFound) => forall|k: int|
                0 <= k < devices@.len() ==> quality_at(name@, devices@, k) == MatchQuality::NoMatch,
            Err(BluetoothError::NoHandsFreeService) => exists|i: int|
                chosen(name@, devices@, i) && !devices@[i].services@.contains(
                    HFP_SERVICE_UUID,
                ),
            Err(_) => false,
        },
{
    match find_matching_device(name, devices) {
        Err(e) => Err(e),
        Ok((i, q)) => {
            assert(chosen_device(name@, devices@, i as int, q));
            assert(chosen(name@, devices@, i as int));
            if has_hands_free(&devices[i].services) {
                Ok(i)
            } else {
                Err(BluetoothError::NoHandsFreeService)
            }
        },
    }
}

/// One step of a full reconnect, for the caller to carry out.
#[derive(Debug, Clone, Copy, PartialEq, Eq)]
pub enum ServiceStep {
    /// Disable the service at this position; a failure does not stop the others.
    Disable(usize),
    /// Sleep this many milliseconds.
    Wait(u64),
    /// Enable the service at this position.
    Enable(usize),
    /// The reconnect is over, with this outcome.
    Finished(Result<(), BluetoothError>),
}

/// Where a full reconnect stands.
#[derive(Debug, Clone, Copy, PartialEq, Eq, Structural)]
pub enum ReconnectPhase {
    /// Disabling every service, in order.
    Disabling,
    /// Waiting for the platform to release the services.
    Settling,
    /// Re-enabling every service, in order.
    Enabling,
    /// Waiting before the retries.
    RetryWaiting,
    /// Enabling once more each service whose re-enable failed.
    Retrying,
    /// Over.
    Done,
}

/// A full reconnect of a device with `total` services: disable all, wait,
/// enable all, and retry each failed enable once after a shorter wait.
pub struct ReconnectSession {
    pub total: usize,
    pub phase: ReconnectPhase,
    /// Position within the current pass.
    pub next: usize,
    /// Positions whose re-enable failed, in order.
    pub failed: Vec<usize>,
    /// How many retries failed.
    pub still_failed: usize,
}

impl ReconnectSession {
    /// The pass positions are in range.
    pub open spec fn wf(&self) -> bool {
        &&& self.total > 0
        &&& (self.phase == ReconnectPhase::Disabling || self.phase == ReconnectPhase::Enabling)
            ==> self.next < self.total
        &&& self.phase == ReconnectPhase::Retrying ==> self.next < self.failed@.len()
        &&& self.phase == ReconnectPhase::RetryWaiting ==> self.failed@.len() > 0
        &&& self.failed@.len() <= self.total
        &&& forall|k: int| 0 <= k < self.failed@.len() ==> self.failed@[k] < self.total
        &&& self.still_failed <= self.failed@.len()
        &&& (self.phase == ReconnectPhase::Disabling || self.phase == ReconnectPhase::Settling)
            ==> self.failed@.len() == 0
        &&& self.phase == ReconnectPhase::Enabling ==> self.failed@.len() <= self.next
        &&& self.phase == ReconnectPhase::Retrying ==> self.still_failed <= self.next
        &&& (self.phase != ReconnectPhase::Retrying && self.phase != ReconnectPhase::Done)
            ==> self.still_failed == 0
    }

    /// The step the session asks for now.
    pub open spec fn step(&self) -> ServiceStep {
        match self.phase {
            ReconnectPhase::Disabling => ServiceStep::Disable(self.next),
            ReconnectPhase::Settling => ServiceStep::Wait(RECONNECT_DELAY_MS),
            ReconnectPhase::Enabling => ServiceStep::Enable(self.next),
            ReconnectPhase::RetryWaiting => ServiceStep::Wait(RETRY_DELAY_MS),
            ReconnectPhase::Retrying => ServiceStep::Enable(self.failed@[self.next as int]),
            ReconnectPhase::Done => ServiceStep::Finished(
                if self.still_failed == 0 {
                    Ok(())
                } else {
                    Err(BluetoothError::ReconnectIncomplete { failed: self.still_failed, total: self.total })
                },
            ),
        }
    }

    /// Starts a reconnect of a device with `total` installed services; a
    /// device without services cannot be reconnected.
    pub fn new(total: usize) -> (r: Result<Self, BluetoothError>)
        ensures
            total == 0 ==> r == Err::<Self, BluetoothError>(BluetoothError::NoServices),
            total > 0 ==> (r matches Ok(s) && s.wf() && s.total == total && s.phase
                == ReconnectPhase::Disabling && s.next == 0 && s.failed@.len() == 0
                && s.still_failed == 0),
    {
        if total == 0 {
            Err(BluetoothError::NoServices)
        } else {
            Ok(ReconnectSession {
                total,
                phase: ReconnectPhase::Disabling,
                next: 0,
                failed: Vec::new(),
                still_failed: 0,
            })
        }
    }

    /// The step to carry out now.
    pub fn current_step(&self) -> (r: ServiceStep)
        requires
            self.wf(),
        ensures
            r == self.step(),
    {
        match self.phase {
            ReconnectPhase::Disabling => ServiceStep::Disable(self.next),
            ReconnectPhase::Settling => ServiceStep::Wait(RECONNECT_DELAY_MS),
            ReconnectPhase::Enabling => ServiceStep::Enable(self.next),
            ReconnectPhase::RetryWaiting => ServiceStep::Wait(RETRY_DELAY_MS),
            ReconnectPhase::Retrying => ServiceStep::Enable(self.failed[self.next]),
            ReconnectPhase::Done => ServiceStep::Finished(
                if self.still_failed == 0 {
                    Ok(())
                } else {
                    Err(BluetoothError::ReconnectIncomplete { failed: self.still_failed, total: self.total })
                },
            ),
        }
    }

    /// Records that the current step was carried out, `succeeded` telling
    /// how it went, and moves to the next step. A failed disable is passed
    /// over; a failed enable is noted for one retry; a failed retry counts
    /// towards the final error.
    pub fn complete(&mut self, succeeded: bool)
        requires
            old(self).wf(),
        ensures
            final(self).wf(),
            final(self).total == old(self).total,
            match old(self).phase {
                ReconnectPhase::Disabling => {
                    &&& final(self).failed == old(self).failed
                    &&& final(self).still_failed == old(self).still_failed
                    &&& if old(self).next + 1 == old(self).total {
                        final(self).phase == ReconnectPhase::Settling
                    } else {
                        final(self).phase == ReconnectPhase::Disabling && final(self).next == old(
                            self,
                        ).next + 1
                    }
                },
                ReconnectPhase::Settling => {
                    &&& final(self).failed == old(self).failed
                    &&& final(self).still_failed == old(self).still_failed
                    &&& final(self).phase == ReconnectPhase::Enabling
                    &&& final(self).next == 0
                },
                ReconnectPhase::Enabling => {
                    &&& final(self).failed@ == (if succeeded {
                        old(self).failed@
                    } else {
                        old(self).failed@.push(old(self).next)
                    })
                    &&& final(self).still_failed == old(self).still_failed
                    &&& if old(self).next + 1 < old(self).total {
                        final(self).phase == ReconnectPhase::Enabling && final(self).next == old(
                            self,
                        ).next + 1
                    } else if final(self).failed@.len() == 0 {
                        final(self).phase == ReconnectPhase::Done
                    } else {
                        final(self).phase == ReconnectPhase::RetryWaiting
                    }
                },
                ReconnectPhase::RetryWaiting => {
                    &&& final(self).failed == old(self).failed
                    &&& final(self).still_failed == old(self).still_failed
                    &&& final(self).phase == ReconnectPhase::Retrying
                    &&& final(self).next == 0
                },
                ReconnectPhase::Retrying => {
                    &&& final(self).failed == old(self).failed
                    &&& final(self).still_failed == old(self).still_failed + (if succeeded {
                        0int
                    } else {
                        1int
                    })
                    &&& if old(self).next + 1 < old(self).failed@.len() {
                        final(self).phase == ReconnectPhase::Retrying && final(self).next == old(
                            self,
                        ).next + 1
                    } else {
                        final(self).phase == ReconnectPhase::Done
                    }
                },
                ReconnectPhase::Done => *final(self) == *old(self),
            },
    {
        match self.phase {
            ReconnectPhase::Disabling => {
                if self.next + 1 == self.total {
                    self.phase = ReconnectPhase::Settling;
                    self.next = 0;
                } else {
                    self.next = self.next + 1;
                }
            },
            ReconnectPhase::Settling => {
                self.phase = ReconnectPhase::Enabling;
                self.next = 0;
            },
            ReconnectPhase::Enabling => {
                if !succeeded {
                    let n = self.next;
                    self.failed.push(n);
                }
                if self.next + 1 < self.total {
                    self.next = self.next + 1;
                } else if self.failed.len() == 0 {
                    self.phase = ReconnectPhase::Done;
                    self.next = 0;
                } else {
                    self.phase = ReconnectPhase::RetryWaiting;
                    self.next = 0;
                }
            },
            ReconnectPhase::RetryWaiting => {
                self.phase = ReconnectPhase::Retrying;
                self.next = 0;
            },
            ReconnectPhase::Retrying => {
                if !succeeded {
                    self.still_failed = self.still_failed + 1;
                }
                if self.next + 1 < self.failed.len() {
                    self.next = self.next + 1;
                } else {
                    self.phase = ReconnectPhase::Done;
                    self.next = 0;
                }
            },
            ReconnectPhase::Done => {},
        }
    }
}

/// The platform's code for an element that was not found.
pub const ERROR_NOT_FOUND: u32 = 1168;

/// The platform's code for a service that does not exist.
pub const ERROR_SERVICE_DOES_NOT_EXIST: u32 = 1060;

/// Why toggling one service failed.
#[derive(Debug, Clone, Copy, PartialEq, Eq, Structural)]
pub enum ServiceFailure {
    /// The device is gone.
    DeviceNotFound,
    /// The device does not offer the service.
    ServiceNotAvailable,
    /// Any other platform error code.
    Other(u32),
}

/// Maps a failed service toggle's platform code to a kind of failure.
pub fn map_win32_error(error_code: u32) -> (r: ServiceFailure)
    ensures
        r == (if error_code == ERROR_NOT_FOUND {
            ServiceFailure::DeviceNotFound
        } else if error_code == ERROR_SERVICE_DOES_NOT_EXIST {
            ServiceFailure::ServiceNotAvailable
        } else {
            ServiceFailure::Other(error_code)
        }),
{
    if error_code == ERROR_NOT_FOUND {
        ServiceFailure::DeviceNotFound
    } else if error_code == ERROR_SERVICE_DOES_NOT_EXIST {
        ServiceFailure::ServiceNotAvailable
    } else {
        ServiceFailure::Other(error_code)
    }
}

/// The names of a list of strings.
pub open spec fn name_views(s: Seq<String>) -> Seq<Seq<char>> {
    s.map_values(|x: String| x@)
}

/// The names with every occurrence of `n` removed.
pub open spec fn without(s: Seq<Seq<char>>, n: Seq<char>) -> Seq<Seq<char>>
    decreases s.len(),
{
    if s.len() == 0 {
        Seq::empty()
    } else if s.last() == n {
        without(s.drop_last(), n)
    } else {
        without(s.drop_last(), n).push(s.last())
    }
}

/// What beginning a reconnect does to the in-flight names: accepted, and the
/// name added, unless the name is already in flight.
pub open spec fn begin_reconnect(s: Seq<Seq<char>>, n: Seq<char>) -> (bool, Seq<Seq<char>>) {
    if s.contains(n) {
        (false, s)
    } else {
        (true, s.push(n))
    }
}

/// The devices with a reconnect in flight.
pub struct ReconnectRegistry {
    pub names: Vec<String>,
}

impl ReconnectRegistry {
    /// A registry with nothing in flight.
    pub fn new() -> (r: Self)
        ensures
            r.names@.len() == 0,
    {
        ReconnectRegistry { names: Vec::new() }
    }

    /// Whether a reconnect of this device is in flight.
    pub fn is_reconnecting(&self, name: &str) -> (r: bool)
        ensures
            r == name_views(self.names@).contains(name@),
    {
        let mut i: usize = 0;
        while i < self.names.len()
            invariant
                i <= self.names@.len(),
                forall|k: int| 0 <= k < i ==> self.names@[k]@ != name@,
            decreases self.names@.len() - i,
        {
            if str_eq(self.names[i].as_str(), name) {
                assert(name_views(self.names@)[i as int] == name@);
                return true;
            }
            i += 1;
        }
        proof {
            if name_views(self.names@).contains(name@) {
                let j = choose|j: int| 0 <= j < name_views(self.names@).len() && name_views(self.names@)[j] == name@;
                assert(self.names@[j]@ == name@);
            }
        }
        false
    }

    /// Admits a reconnect of this device unless one is already in flight.
    pub fn try_begin(&mut self, name: &str) -> (r: Result<(), BluetoothError>)
        ensures
            r is Ok == begin_reconnect(name_views(old(self).names@), name@).0,
            r is Err ==> r == Err::<(), BluetoothError>(BluetoothError::AlreadyReconnecting),
            name_views(final(self).names@) == begin_reconnect(name_views(old(self).names@), name@).1,
    {
        if self.is_reconnecting(name) {
            Err(BluetoothError::AlreadyReconnecting)
        } else {
            let ghost prev = self.names@;
            self.names.push(String::from_str(name));
            proof {
                assert(name_views(self.names@) =~= name_views(prev).push(name@));
            }
            Ok(())
        }
    }

    /// Releases the device once its reconnect has ended, however it ended.
    pub fn finish(&mut self, name: &str)
        ensures
            name_views(final(self).names@) == without(name_views(old(self).names@), name@),
    {
        let ghost old_v = name_views(self.names@);
        let mut kept: Vec<String> = Vec::new();
        let mut rest: Vec<String> = Vec::new();
        core::mem::swap(&mut rest, &mut self.names);
        let n = rest.len();
        let ghost all = rest@;
        let mut i: usize = 0;
        proof {
            assert(all.subrange(0, 0) =~= Seq::<String>::empty());
            assert(name_views(kept@) =~= without(name_views(all.subrange(0, 0)), name@));
        }
        while i < n
            invariant
                old_v == name_views(all),
                n == all.len(),
                i <= n,
                rest@ == all.subrange(i as int, n as int),
                name_views(kept@) == without(name_views(all.subrange(0, i as int)), name@),
            decreases n - i,
        {
            let s = rest.remove(0);
            proof {
                assert(s == all[i as int]);
                assert(rest@ =~= all.subrange(i + 1, n as int));
                assert(name_views(all.subrange(0, i + 1)).drop_last() =~= name_views(all.subrange(0, i as int)));
                assert(name_views(all.subrange(0, i + 1)).last() == s@);
            }
            if !str_eq(s.as_str(), name) {
                let ghost prev = kept@;
                kept.push(s);
                proof {
                    assert(name_views(kept@) =~= name_views(prev).push(s@));
                }
            }
            i += 1;
        }
        proof {
            assert(all.subrange(0, n as int) =~= all);
        }
        self.names = kept;
    }
}

/// Removing a name leaves no occurrence of it.
proof fn lemma_without_removes(s: Seq<Seq<char>>, n: Seq<char>)
    ensures
        !without(s, n).contains(n),
    decreases s.len(),
{
    if s.len() > 0 {
        lemma_without_removes(s.drop_last(), n);
        let w = without(s.drop_last(), n);
        if s.last() != n {
            assert forall|k: int| 0 <= k < w.push(s.last()).len() implies w.push(s.last())[k] != n by {
                if k < w.len() {
                    assert(w[k] != n) by {
                        if w[k] == n {
                            assert(w.contains(n));
                        }
                    }
                }
            }
        }
    }
}

/// While a reconnect of a device is in flight a second request for it is
/// refused; once it has finished, successfully or not, a new one is accepted.
pub proof fn lemma_one_reconnect_per_device(s: Seq<Seq<char>>, n: Seq<char>)
    ensures
        begin_reconnect(s, n).0 ==> !begin_reconnect(begin_reconnect(s, n).1, n).0,
        begin_reconnect(without(begin_reconnect(s, n).1, n), n).0,
{
    let s1 = begin_reconnect(s, n).1;
    if begin_reconnect(s, n).0 {
        assert(s1[s1.len() - 1] == n);
        assert(s1.contains(n));
    } else {
        assert(s.contains(n));
    }
    lemma_without_removes(s1, n);
}

} // verus!
