//! A backend's side of a probe: going through its adapters for one request
//! of discovery, leaving out the pairs that are already claimed.

use vstd::prelude::*;
use crate::common::{DataFormat, Driver};
use crate::vram::probe::{
    claim,
    respects,
    zipped,
    DiscoveryState,
    ExclusionSet,
    ProbeResult,
};

verus! {

/// The time within which one attempt must succeed to count, in
/// milliseconds.
pub const PROBE_TIMEOUT_MS: u64 = 1000;

/// Whether an encode attempt passed: the backend returned success, the
/// frame it put out was a key frame, and that took less than the timeout.
pub fn encode_attempt_passed(status: i32, key: i32, elapsed_ms: u64) -> (passed: bool)
    ensures
        passed == (status == 0 && key == 1 && elapsed_ms < PROBE_TIMEOUT_MS),
{
    status == 0 && key == 1 && elapsed_ms < PROBE_TIMEOUT_MS
}

/// Whether a decode attempt passed: the backend returned success in less
/// than the timeout.
pub fn decode_attempt_passed(status: i32, elapsed_ms: u64) -> (passed: bool)
    ensures
        passed == (status == 0 && elapsed_ms < PROBE_TIMEOUT_MS),
{
    status == 0 && elapsed_ms < PROBE_TIMEOUT_MS
}

/// The state of a backend's walk through its adapters for one probe
/// request, as contracts speak of it.
pub struct WalkState {
    pub vendor: Driver,
    pub data_format: DataFormat,
    /// The backend's adapters by LUID, in enumeration order.
    pub adapters: Seq<i64>,
    /// The exclusion set that came with the request.
    pub exclusions: Seq<(i64, i32)>,
    /// How many adapters may be reported.
    pub capacity: int,
    /// How many adapters are done with.
    pub cursor: nat,
    /// The adapters that passed, in the order tried.
    pub passed: Seq<i64>,
}

impl WalkState {
    /// The state before the first attempt.
    pub open spec fn initial(
        vendor: Driver,
        data_format: DataFormat,
        adapters: Seq<i64>,
        exclusions: Seq<(i64, i32)>,
        capacity: int,
    ) -> WalkState {
        WalkState {
            vendor,
            data_format,
            adapters,
            exclusions,
            capacity,
            cursor: 0,
            passed: Seq::empty(),
        }
    }

    /// Whether an adapter is claimed for the format of this request.
    pub open spec fn excluded(self, luid: i64) -> bool {
        self.exclusions.contains(claim(luid, self.data_format))
    }

    /// The state with the excluded adapters done with, up to the first that
    /// is not excluded.
    pub open spec fn settled(self) -> WalkState
        decreases self.adapters.len() - self.cursor,
    {
        if self.cursor < self.adapters.len() && self.excluded(self.adapters[self.cursor as int]) {
            (WalkState { cursor: self.cursor + 1, ..self }).settled()
        } else {
            self
        }
    }

    /// The index of the adapter to try next: the first one left that is not
    /// excluded, unless the report is full or no adapter is left.
    pub open spec fn pending(self) -> Option<int> {
        let s = self.settled();
        if self.passed.len() < self.capacity && s.cursor < s.adapters.len() {
            Some(s.cursor as int)
        } else {
            None
        }
    }

    /// The state after the attempt on the pending adapter passed or failed.
    /// With no adapter pending, nothing is taken in.
    pub open spec fn tried(self, passed: bool) -> WalkState {
        match self.pending() {
            Some(index) => WalkState {
                cursor: (index + 1) as nat,
                passed: if passed {
                    self.passed.push(self.adapters[index])
                } else {
                    self.passed
                },
                ..self
            },
            None => self,
        }
    }

    /// The state after a run of attempts that passed or failed as `outcomes`
    /// says.
    pub open spec fn walked(self, outcomes: Seq<bool>) -> WalkState
        decreases outcomes.len(),
    {
        if outcomes.len() == 0 {
            self
        } else {
            self.walked(outcomes.drop_last()).tried(outcomes.last())
        }
    }

    /// What the walk reports: every adapter that passed, under the
    /// backend's own vendor tag.
    pub open spec fn report(self) -> Seq<(i64, i32)> {
        Seq::new(self.passed.len(), |i: int| (self.passed[i], self.vendor.tag() as i32))
    }

    /// Whether an adapter is among those done with.
    pub open spec fn done_with(self, luid: i64) -> bool {
        exists|k: int| 0 <= k < self.cursor && #[trigger] self.adapters[k] == luid
    }

    /// What holds of every state of a walk: the cursor is within the
    /// adapters, the report is within its capacity, and each adapter that
    /// passed is one of those done with and is not excluded.
    pub open spec fn inv(self) -> bool {
        &&& self.cursor <= self.adapters.len()
        &&& self.passed.len() <= self.cursor
        &&& (self.passed.len() <= self.capacity || self.passed.len() == 0)
        &&& forall|a: int|
            0 <= a < self.passed.len() ==> !self.excluded(#[trigger] self.passed[a])
                && self.done_with(self.passed[a])
    }
}

/// Settling a walk moves the cursor only, never past the end, over excluded
/// adapters only, and stops at an adapter that is not excluded.
pub proof fn lemma_walk_settled(state: WalkState)
    requires
        state.cursor <= state.adapters.len(),
    ensures
        state.settled() == (WalkState { cursor: state.settled().cursor, ..state }),
        state.cursor <= state.settled().cursor <= state.adapters.len(),
        state.settled().cursor < state.adapters.len() ==> !state.excluded(
            state.adapters[state.settled().cursor as int],
        ),
        forall|i: int|
            state.cursor <= i < state.settled().cursor ==> state.excluded(
                #[trigger] state.adapters[i],
            ),
    decreases state.adapters.len() - state.cursor,
{
    if state.cursor < state.adapters.len() && state.excluded(state.adapters[state.cursor as int]) {
        lemma_walk_settled(WalkState { cursor: state.cursor + 1, ..state });
    }
}

/// An adapter done with stays done with when the cursor moves on.
pub proof fn lemma_done_with_stays(state: WalkState, later: WalkState, luid: i64)
    requires
        state.done_with(luid),
        later.adapters == state.adapters,
        state.cursor <= later.cursor,
    ensures
        later.done_with(luid),
{
    let k = choose|k: int| 0 <= k < state.cursor && #[trigger] state.adapters[k] == luid;
    assert(0 <= k < later.cursor && later.adapters[k] == luid);
}

/// Settling keeps what holds of every state of a walk.
pub proof fn lemma_settled_keeps_inv(state: WalkState)
    requires
        state.inv(),
    ensures
        state.settled().inv(),
{
    lemma_walk_settled(state);
    let next = state.settled();
    assert forall|a: int| 0 <= a < next.passed.len() implies !next.excluded(
        #[trigger] next.passed[a],
    ) && next.done_with(next.passed[a]) by {
        assert(next.passed[a] == state.passed[a]);
        assert(!state.excluded(state.passed[a]));
        lemma_done_with_stays(state, next, state.passed[a]);
    }
}

/// One attempt keeps what holds of every state of a walk.
pub proof fn lemma_tried_keeps_inv(state: WalkState, passed: bool)
    requires
        state.inv(),
    ensures
        state.tried(passed).inv(),
        state.tried(passed) == (WalkState {
            cursor: state.tried(passed).cursor,
            passed: state.tried(passed).passed,
            ..state
        }),
        state.cursor <= state.tried(passed).cursor,
{
    lemma_walk_settled(state);
    match state.pending() {
        Some(index) => {
            let next = state.tried(passed);
            assert(next.adapters[index] == state.adapters[index]);
            assert forall|a: int| 0 <= a < next.passed.len() implies !next.excluded(
                #[trigger] next.passed[a],
            ) && next.done_with(next.passed[a]) by {
                if a < state.passed.len() {
                    assert(next.passed[a] == state.passed[a]);
                    assert(!state.excluded(state.passed[a]));
                    lemma_done_with_stays(state, next, state.passed[a]);
                } else {
                    assert(next.passed[a] == state.adapters[index]);
                    assert(0 <= index < next.cursor && next.adapters[index] == next.passed[a]);
                }
            }
        },
        None => {},
    }
}

/// One attempt keeps the adapters that passed distinct, if the backend's
/// adapters are.
pub proof fn lemma_tried(state: WalkState, passed: bool)
    requires
        state.inv(),
        state.adapters.no_duplicates(),
        state.passed.no_duplicates(),
    ensures
        state.tried(passed).inv(),
        state.tried(passed).passed.no_duplicates(),
        state.tried(passed) == (WalkState {
            cursor: state.tried(passed).cursor,
            passed: state.tried(passed).passed,
            ..state
        }),
{
    lemma_walk_settled(state);
    lemma_tried_keeps_inv(state, passed);
    match state.pending() {
        Some(index) => {
            let next = state.tried(passed);
            if passed {
                assert forall|a: int, b: int|
                    0 <= a < next.passed.len() && 0 <= b < next.passed.len() && a
                        != b implies next.passed[a] != next.passed[b] by {
                    if a < state.passed.len() && b < state.passed.len() {
                        assert(next.passed[a] == state.passed[a]);
                        assert(next.passed[b] == state.passed[b]);
                    } else if a < state.passed.len() {
                        assert(state.done_with(state.passed[a]));
                        let k = choose|k: int|
                            0 <= k < state.cursor && #[trigger] state.adapters[k]
                                == state.passed[a];
                        assert(k != index);
                        assert(next.passed[b] == state.adapters[index]);
                    } else {
                        assert(state.done_with(state.passed[b]));
                        let k = choose|k: int|
                            0 <= k < state.cursor && #[trigger] state.adapters[k]
                                == state.passed[b];
                        assert(k != index);
                        assert(next.passed[a] == state.adapters[index]);
                    }
                }
            }
        },
        None => {},
    }
}

/// A walk is honest: whatever the attempts come to, what a backend reports
/// after walking distinct adapters respects the exclusion set of the
/// request, and is within the capacity of the request.
pub proof fn lemma_walk_respects_exclusions(
    vendor: Driver,
    data_format: DataFormat,
    adapters: Seq<i64>,
    exclusions: Seq<(i64, i32)>,
    capacity: int,
    outcomes: Seq<bool>,
)
    requires
        adapters.no_duplicates(),
    ensures
        ({
            let end = WalkState::initial(vendor, data_format, adapters, exclusions, capacity).walked(
                outcomes,
            );
            &&& end.inv()
            &&& end.passed.no_duplicates()
            &&& end.exclusions == exclusions
            &&& end.data_format == data_format
            &&& end.vendor == vendor
            &&& end.adapters == adapters
            &&& end.capacity == capacity
            &&& respects(end.report(), exclusions, data_format)
            &&& (end.report().len() <= capacity || end.report().len() == 0)
        }),
    decreases outcomes.len(),
{
    let start = WalkState::initial(vendor, data_format, adapters, exclusions, capacity);
    if outcomes.len() > 0 {
        lemma_walk_respects_exclusions(
            vendor,
            data_format,
            adapters,
            exclusions,
            capacity,
            outcomes.drop_last(),
        );
        lemma_tried(start.walked(outcomes.drop_last()), outcomes.last());
    }
    let end = start.walked(outcomes);
    assert forall|i: int|
        0 <= i < end.report().len() && Driver::of_tag(
            (#[trigger] end.report()[i]).1 as int,
        ) is Some implies !exclusions.contains(claim(end.report()[i].0, data_format)) by {
        assert(!end.excluded(end.passed[i]));
    }
}

/// A walk makes progress: while an adapter is pending, every attempt taken
/// in has moved the cursor on by at least one adapter.
pub proof fn lemma_walk_progress(start: WalkState, outcomes: Seq<bool>)
    requires
        start.inv(),
    ensures
        start.walked(outcomes).inv(),
        start.walked(outcomes).adapters == start.adapters,
        start.walked(outcomes).pending() is Some ==> start.walked(outcomes).cursor
            >= start.cursor + outcomes.len(),
    decreases outcomes.len(),
{
    if outcomes.len() > 0 {
        let before = start.walked(outcomes.drop_last());
        lemma_walk_progress(start, outcomes.drop_last());
        lemma_tried_keeps_inv(before, outcomes.last());
        lemma_walk_settled(before);
    }
}

/// A walk ends: after as many attempts as the backend has adapters, none is
/// pending any more. A probe asks for no more attempts than that, whatever
/// they come to.
pub proof fn lemma_walk_ends(
    vendor: Driver,
    data_format: DataFormat,
    adapters: Seq<i64>,
    exclusions: Seq<(i64, i32)>,
    capacity: int,
    outcomes: Seq<bool>,
)
    requires
        outcomes.len() >= adapters.len(),
    ensures
        WalkState::initial(vendor, data_format, adapters, exclusions, capacity).walked(
            outcomes,
        ).pending() is None,
{
    let start = WalkState::initial(vendor, data_format, adapters, exclusions, capacity);
    lemma_walk_progress(start, outcomes);
    lemma_walk_settled(start.walked(outcomes));
}

/// A walk serves discovery honestly: whatever state a discovery run is in,
/// the report of a walk through distinct adapters, for the pending candidate
/// and with the run's exclusion set, is one that keeps the run's claims
/// distinct.
pub proof fn lemma_walk_is_honest(
    run: DiscoveryState,
    vendor: Driver,
    adapters: Seq<i64>,
    capacity: int,
    outcomes: Seq<bool>,
)
    requires
        adapters.no_duplicates(),
    ensures
        run.pending() matches Some(candidate) ==> run.honest(
            WalkState::initial(
                vendor,
                candidate.data_format,
                adapters,
                run.exclusions(),
                capacity,
            ).walked(outcomes).report(),
        ),
{
    match run.pending() {
        Some(candidate) => {
            lemma_walk_respects_exclusions(
                vendor,
                candidate.data_format,
                adapters,
                run.exclusions(),
                capacity,
                outcomes,
            );
        },
        None => {},
    }
}

/// A probe with every adapter excluded is over at once: no attempt is
/// asked for, whatever is reported as tried, and nothing is reported as
/// passed.
pub proof fn lemma_all_excluded_reports_nothing(
    vendor: Driver,
    data_format: DataFormat,
    adapters: Seq<i64>,
    exclusions: Seq<(i64, i32)>,
    capacity: int,
    outcomes: Seq<bool>,
)
    requires
        forall|i: int|
            0 <= i < adapters.len() ==> exclusions.contains(
                claim(#[trigger] adapters[i], data_format),
            ),
    ensures
        ({
            let start = WalkState::initial(vendor, data_format, adapters, exclusions, capacity);
            &&& start.pending() is None
            &&& start.walked(outcomes) == start
            &&& start.walked(outcomes).report().len() == 0
        }),
    decreases outcomes.len(),
{
    let start = WalkState::initial(vendor, data_format, adapters, exclusions, capacity);
    lemma_walk_settled(start);
    if start.settled().cursor < adapters.len() {
        assert(start.excluded(adapters[start.settled().cursor as int]));
    }
    if outcomes.len() > 0 {
        lemma_all_excluded_reports_nothing(
            vendor,
            data_format,
            adapters,
            exclusions,
            capacity,
            outcomes.drop_last(),
        );
    }
}

/// A backend's walk through its adapters for one probe request.
#[derive(Debug, Clone, PartialEq, Eq)]
pub struct AdapterWalk {
    vendor: Driver,
    data_format: DataFormat,
    adapters: Vec<i64>,
    exclusions: ExclusionSet,
    capacity: i32,
    cursor: usize,
    passed: Vec<i64>,
}

impl View for AdapterWalk {
    type V = WalkState;

    closed spec fn view(&self) -> WalkState {
        WalkState {
            vendor: self.vendor,
            data_format: self.data_format,
            adapters: self.adapters@,
            exclusions: self.exclusions@,
            capacity: self.capacity as int,
            cursor: self.cursor as nat,
            passed: self.passed@,
        }
    }
}

impl AdapterWalk {
    /// Begins the walk of a backend of `vendor` through `adapters`, its
    /// adapters by LUID in enumeration order, for a request with room for
    /// `capacity` adapters and the exclusion set in the two arrays.
    pub fn new(
        vendor: Driver,
        data_format: DataFormat,
        adapters: Vec<i64>,
        capacity: i32,
        excluded_luids: &Vec<i64>,
        exclude_formats: &Vec<i32>,
    ) -> (walk: AdapterWalk)
        ensures
            walk@ == WalkState::initial(
                vendor,
                data_format,
                adapters@,
                zipped(excluded_luids@, exclude_formats@),
                capacity as int,
            ),
            walk@.inv(),
    {
        AdapterWalk {
            vendor,
            data_format,
            adapters,
            exclusions: ExclusionSet::from_arrays(excluded_luids, exclude_formats),
            capacity,
            cursor: 0,
            passed: Vec::new(),
        }
    }

    /// The index of the adapter to try next, or `None` when the walk is
    /// over. Excluded adapters are done with on the way, untried.
    pub fn next_attempt(&mut self) -> (index: Option<usize>)
        requires
            old(self)@.inv(),
        ensures
            final(self)@.inv(),
            match old(self)@.pending() {
                Some(i) => index == Some(i as usize) && final(self)@ == old(self)@.settled(),
                None => index is None && final(self)@ == old(self)@,
            },
            final(self)@.pending() == old(self)@.pending(),
    {
        let ghost start = self@;
        proof {
            lemma_walk_settled(start);
            lemma_settled_keeps_inv(start);
            lemma_walk_settled(start.settled());
        }
        if self.capacity < 0 || self.passed.len() >= self.capacity as usize {
            return None;
        }
        let mut cursor = self.cursor;
        while cursor < self.adapters.len() && self.exclusions.contains(
            self.adapters[cursor],
            self.data_format.to_i32(),
        )
            invariant
                self@ == start,
                start.cursor <= cursor <= start.adapters.len(),
                (WalkState { cursor: cursor as nat, ..start }).settled() == start.settled(),
            decreases self.adapters.len() - cursor,
        {
            cursor += 1;
        }
        if cursor < self.adapters.len() {
            self.cursor = cursor;
            assert(self@ == start.settled());
            Some(cursor)
        } else {
            None
        }
    }

    /// Takes in whether the attempt on the pending adapter passed.
    pub fn report(&mut self, passed: bool)
        requires
            old(self)@.inv(),
        ensures
            final(self)@.inv(),
            final(self)@ == old(self)@.tried(passed),
    {
        let ghost start = self@;
        proof {
            lemma_walk_settled(start);
            lemma_tried_keeps_inv(start, passed);
        }
        match self.next_attempt() {
            Some(index) => {
                assert(index < self.adapters.len());
                let luid = self.adapters[index];
                self.cursor = index + 1;
                if passed {
                    self.passed.push(luid);
                }
                assert(self@ == start.tried(passed));
            },
            None => {
                assert(self@ == start.tried(passed));
            },
        }
    }

    /// Ends the walk with success: the adapters that passed, each under the
    /// backend's own vendor tag.
    pub fn finish(self) -> (result: ProbeResult)
        requires
            self@.inv(),
        ensures
            result.code == 0,
            result.desc_count == self@.passed.len(),
            result.luids@.len() == result.desc_count,
            result.vendors@.len() == result.desc_count,
            zipped(result.luids@, result.vendors@) == self@.report(),
            self@.capacity <= usize::MAX ==> result.reported(self@.capacity as usize)
                == self@.report(),
    {
        let count = self.passed.len();
        let tag = self.vendor.to_i32();
        let mut vendors: Vec<i32> = Vec::new();
        let mut i: usize = 0;
        while i < count
            invariant
                i <= count,
                vendors@.len() == i,
                forall|j: int| 0 <= j < i ==> vendors@[j] == tag,
            decreases count - i,
        {
            vendors.push(tag);
            i += 1;
        }
        assert(count <= i32::MAX);
        let result = ProbeResult {
            code: 0,
            desc_count: count as i32,
            luids: self.passed,
            vendors,
        };
        assert(zipped(result.luids@, result.vendors@) =~= self@.report());
        assert(self@.capacity <= usize::MAX ==> result.reported(self@.capacity as usize)
            =~= self@.report());
        result
    }
}

/// The LUID under which a backend reports the default adapter.
pub const DEFAULT_ADAPTER_LUID: i64 = 0;

/// Whether a backend that knows the default adapter only reports it for a
/// request: its driver is there, the request has room for an adapter, and
/// the default adapter is not claimed for the format.
pub open spec fn default_adapter_passes(
    driver_available: bool,
    capacity: i32,
    data_format: i32,
    exclusions: Seq<(i64, i32)>,
) -> bool {
    driver_available && capacity >= 1 && !exclusions.contains((DEFAULT_ADAPTER_LUID, data_format))
}

/// What a default-adapter backend reports respects the exclusion set it was
/// handed.
pub proof fn lemma_default_adapter_probe_is_honest(
    driver: Driver,
    driver_available: bool,
    capacity: i32,
    data_format: DataFormat,
    exclusions: Seq<(i64, i32)>,
)
    ensures
        respects(
            if default_adapter_passes(
                driver_available,
                capacity,
                data_format.code() as i32,
                exclusions,
            ) {
                seq![(DEFAULT_ADAPTER_LUID, driver.tag() as i32)]
            } else {
                Seq::empty()
            },
            exclusions,
            data_format,
        ),
{
}

/// The probe of a backend that binds to the default adapter rather than to
/// a LUID. It always runs, and reports the default adapter under the
/// backend's own tag or nothing.
pub fn default_adapter_probe(
    driver: Driver,
    driver_available: bool,
    capacity: i32,
    data_format: i32,
    excluded_luids: &Vec<i64>,
    exclude_formats: &Vec<i32>,
) -> (result: ProbeResult)
    ensures
        result.code == 0,
        result.luids@.len() == result.desc_count,
        result.vendors@.len() == result.desc_count,
        zipped(result.luids@, result.vendors@) == (if default_adapter_passes(
            driver_available,
            capacity,
            data_format,
            zipped(excluded_luids@, exclude_formats@),
        ) {
            seq![(DEFAULT_ADAPTER_LUID, driver.tag() as i32)]
        } else {
            Seq::empty()
        }),
{
    let mut luids: Vec<i64> = Vec::new();
    let mut vendors: Vec<i32> = Vec::new();
    let mut desc_count: i32 = 0;
    if driver_available && capacity >= 1 {
        let exclusions = ExclusionSet::from_arrays(excluded_luids, exclude_formats);
        if !exclusions.contains(DEFAULT_ADAPTER_LUID, data_format) {
            luids.push(DEFAULT_ADAPTER_LUID);
            vendors.push(driver.to_i32());
            desc_count = 1;
        }
    }
    assert(zipped(luids@, vendors@) =~= (if default_adapter_passes(
        driver_available,
        capacity,
        data_format,
        zipped(excluded_luids@, exclude_formats@),
    ) {
        seq![(DEFAULT_ADAPTER_LUID, driver.tag() as i32)]
    } else {
        Seq::empty()
    }));
    ProbeResult { code: 0, desc_count, luids, vendors }
}

} // verus!
