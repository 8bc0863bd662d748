//! Capability discovery: which backend can really encode or decode which
//! format on which adapter.
//!
//! Discovery goes through the candidates, pairs of a backend and a format,
//! in a fixed order. For each it has the backend probe its adapters by a real
//! attempt, and takes in the adapters that passed. An adapter that passed for
//! a format is claimed: every later probe is told to leave that pair alone,
//! so that no adapter is offered twice for one format.
//!
//! The probing itself is the backends' work. This module holds the
//! bookkeeping of the run: `Discovery` issues the requests and collects the
//! claims.

use vstd::prelude::*;
use crate::common::{DataFormat, Driver};
use crate::vram::{FeatureContext, MAX_ADATERS};

verus! {

/// What is being discovered: encoders or decoders.
#[derive(Debug, Clone, Copy, PartialEq, Eq, Structural)]
pub enum ProbeKind {
    Encode,
    Decode,
}

/// A backend together with a format it could plausibly support.
#[derive(Debug, Clone, Copy, PartialEq, Eq, Structural)]
pub struct Candidate {
    pub driver: Driver,
    pub data_format: DataFormat,
}

/// The pair under which an adapter is claimed for a format.
pub open spec fn claim(luid: i64, data_format: DataFormat) -> (i64, i32) {
    (luid, data_format.code() as i32)
}

/// A claim names one adapter and one format: two claims are the same pair
/// only for the same adapter and the same format.
pub proof fn lemma_claim_is_injective(
    luid: i64,
    data_format: DataFormat,
    other_luid: i64,
    other_format: DataFormat,
)
    ensures
        claim(luid, data_format) == claim(other_luid, other_format) <==> luid == other_luid
            && data_format == other_format,
{
}

/// The pairs that a list of configurations claims, in the list's order.
pub open spec fn claimed_pairs(outputs: Seq<FeatureContext>) -> Seq<(i64, i32)> {
    Seq::new(outputs.len(), |i: int| claim(outputs[i].luid, outputs[i].data_format))
}

/// Two parallel arrays read as a list of pairs, as far as both reach.
pub open spec fn zipped(luids: Seq<i64>, formats: Seq<i32>) -> Seq<(i64, i32)> {
    Seq::new(
        if luids.len() <= formats.len() {
            luids.len()
        } else {
            formats.len()
        },
        |i: int| (luids[i], formats[i]),
    )
}

/// The pairs of adapter and format that are already claimed.
#[derive(Debug, Clone, PartialEq, Eq)]
pub struct ExclusionSet {
    pairs: Vec<(i64, i32)>,
}

impl View for ExclusionSet {
    type V = Seq<(i64, i32)>;

    closed spec fn view(&self) -> Seq<(i64, i32)> {
        self.pairs@
    }
}

impl ExclusionSet {
    /// The set with no claim in it.
    pub fn new() -> (set: ExclusionSet)
        ensures
            set@ == Seq::<(i64, i32)>::empty(),
    {
        ExclusionSet { pairs: Vec::new() }
    }

    /// Reads the set back from the two parallel arrays that carry it across
    /// the boundary to a backend.
    pub fn from_arrays(luids: &Vec<i64>, formats: &Vec<i32>) -> (set: ExclusionSet)
        ensures
            set@ == zipped(luids@, formats@),
    {
        let n = if luids.len() <= formats.len() {
            luids.len()
        } else {
            formats.len()
        };
        let mut pairs: Vec<(i64, i32)> = Vec::new();
        let mut i: usize = 0;
        while i < n
            invariant
                i <= n,
                n <= luids.len(),
                n <= formats.len(),
                pairs@.len() == i,
                forall|j: int| 0 <= j < i ==> pairs@[j] == (luids@[j], formats@[j]),
            decreases n - i,
        {
            pairs.push((luids[i], formats[i]));
            i += 1;
        }
        assert(pairs@ =~= zipped(luids@, formats@));
        ExclusionSet { pairs }
    }

    /// How many claims the set holds.
    pub fn len(&self) -> (n: usize)
        ensures
            n == self@.len(),
    {
        self.pairs.len()
    }

    /// Adds a claim. The set only ever grows.
    pub fn insert(&mut self, luid: i64, format: i32)
        ensures
            final(self)@ == old(self)@.push((luid, format)),
    {
        self.pairs.push((luid, format));
    }

    /// Whether the adapter is claimed for the format.
    pub fn contains(&self, luid: i64, format: i32) -> (found: bool)
        ensures
            found == self@.contains((luid, format)),
    {
        let mut i: usize = 0;
        while i < self.pairs.len()
            invariant
                i <= self.pairs@.len(),
                forall|j: int| 0 <= j < i ==> self.pairs@[j] != (luid, format),
            decreases self.pairs.len() - i,
        {
            let pair = self.pairs[i];
            if pair.0 == luid && pair.1 == format {
                return true;
            }
            i += 1;
        }
        false
    }

    /// The set as two parallel arrays: the claimed adapters, and at the same
    /// positions the formats they are claimed for.
    pub fn unzip(&self) -> (arrays: (Vec<i64>, Vec<i32>))
        ensures
            arrays.0@.len() == self@.len(),
            arrays.1@.len() == self@.len(),
            zipped(arrays.0@, arrays.1@) == self@,
    {
        let mut luids: Vec<i64> = Vec::new();
        let mut formats: Vec<i32> = Vec::new();
        let mut i: usize = 0;
        while i < self.pairs.len()
            invariant
                i <= self.pairs@.len(),
                luids@.len() == i,
                formats@.len() == i,
                forall|j: int| 0 <= j < i ==> (luids@[j], formats@[j]) == self.pairs@[j],
            decreases self.pairs.len() - i,
        {
            let pair = self.pairs[i];
            luids.push(pair.0);
            formats.push(pair.1);
            i += 1;
        }
        assert(zipped(luids@, formats@) =~= self@);
        (luids, formats)
    }
}

/// What a backend's probe is called with.
#[derive(Debug, Clone, PartialEq, Eq)]
pub struct ProbeRequest {
    pub driver: Driver,
    pub data_format: DataFormat,
    /// How many adapters the probe may report.
    pub capacity: usize,
    /// The claimed adapters, and at the same positions in `exclude_formats`
    /// the formats they are claimed for.
    pub excluded_luids: Vec<i64>,
    pub exclude_formats: Vec<i32>,
}

/// What a backend's probe came back with: its status, 0 for a probe that
/// ran, and the first `desc_count` entries of `luids` and `vendors`, an
/// adapter that passed and the vendor tag it is reported under.
#[derive(Debug, Clone, PartialEq, Eq)]
pub struct ProbeResult {
    pub code: i32,
    pub desc_count: i32,
    pub luids: Vec<i64>,
    pub vendors: Vec<i32>,
}

impl ProbeResult {
    /// The adapters that count as reported to a request of `capacity`, each
    /// with its vendor tag. A probe that failed, or that claims to report
    /// more than it was given room for, counts as reporting nothing.
    pub open spec fn reported(self, capacity: usize) -> Seq<(i64, i32)> {
        if self.code == 0 && 0 <= self.desc_count <= capacity && self.desc_count
            <= self.luids@.len() && self.desc_count <= self.vendors@.len() {
            Seq::new(self.desc_count as nat, |i: int| (self.luids@[i], self.vendors@[i]))
        } else {
            Seq::empty()
        }
    }
}

/// The configurations that a candidate gains from the adapters reported for
/// it, in the order reported. An entry under a vendor tag that names no
/// backend family is passed over.
pub open spec fn claims(candidate: Candidate, reported: Seq<(i64, i32)>) -> Seq<FeatureContext>
    decreases reported.len(),
{
    if reported.len() == 0 {
        Seq::empty()
    } else {
        let front = claims(candidate, reported.drop_last());
        let (luid, tag) = reported.last();
        match Driver::of_tag(tag as int) {
            Some(vendor) => front.push(
                FeatureContext {
                    driver: candidate.driver,
                    vendor,
                    luid,
                    data_format: candidate.data_format,
                },
            ),
            None => front,
        }
    }
}

/// The candidates of one backend: one for each format, in the formats'
/// order.
pub open spec fn candidates_of(driver: Driver, formats: Seq<DataFormat>) -> Seq<Candidate> {
    Seq::new(formats.len(), |i: int| Candidate { driver, data_format: formats[i] })
}

/// All candidates in probe order: NVIDIA's, then AMD's, then Intel's.
pub open spec fn all_candidates(
    nv: Seq<DataFormat>,
    amf: Seq<DataFormat>,
    mfx: Seq<DataFormat>,
) -> Seq<Candidate> {
    candidates_of(Driver::NV, nv) + candidates_of(Driver::AMF, amf) + candidates_of(
        Driver::MFX,
        mfx,
    )
}

/// Whether a candidate is passed over without a probe. There is a sample
/// clip to decode for H.264 and for H.265 only; every format can be encoded
/// from a synthetic frame.
pub open spec fn passed_over(kind: ProbeKind, data_format: DataFormat) -> bool {
    kind == ProbeKind::Decode && data_format != DataFormat::H264 && data_format != DataFormat::H265
}

/// The state of a discovery run, as contracts speak of it.
pub struct DiscoveryState {
    pub kind: ProbeKind,
    pub candidates: Seq<Candidate>,
    /// How many candidates are done with.
    pub cursor: nat,
    /// The configurations found so far, in the order found.
    pub outputs: Seq<FeatureContext>,
}

impl DiscoveryState {
    /// The state before the first probe.
    pub open spec fn initial(kind: ProbeKind, candidates: Seq<Candidate>) -> DiscoveryState {
        DiscoveryState { kind, candidates, cursor: 0, outputs: Seq::empty() }
    }

    /// The exclusion set: the pairs that the configurations found so far
    /// claim.
    pub open spec fn exclusions(self) -> Seq<(i64, i32)> {
        claimed_pairs(self.outputs)
    }

    /// The state with the candidates that need no probe done with, up to
    /// the first that needs one.
    pub open spec fn settled(self) -> DiscoveryState
        decreases self.candidates.len() - self.cursor,
    {
        if self.cursor < self.candidates.len() && passed_over(
            self.kind,
            self.candidates[self.cursor as int].data_format,
        ) {
            (DiscoveryState { cursor: self.cursor + 1, ..self }).settled()
        } else {
            self
        }
    }

    /// The candidate that is to be probed next, if any is left.
    pub open spec fn pending(self) -> Option<Candidate> {
        let s = self.settled();
        if s.cursor < s.candidates.len() {
            Some(s.candidates[s.cursor as int])
        } else {
            None
        }
    }

    /// The state after the pending candidate's probe reported `reported`:
    /// the configurations gained are appended, and the candidate is done
    /// with. With no candidate pending, nothing is taken in.
    pub open spec fn absorbed(self, reported: Seq<(i64, i32)>) -> DiscoveryState {
        let s = self.settled();
        match self.pending() {
            Some(candidate) => DiscoveryState {
                cursor: s.cursor + 1,
                outputs: s.outputs + claims(candidate, reported),
                ..s
            },
            None => s,
        }
    }

    /// The state after a run of probes reported `reports`, one after the
    /// other.
    pub open spec fn ran(self, reports: Seq<Seq<(i64, i32)>>) -> DiscoveryState
        decreases reports.len(),
    {
        if reports.len() == 0 {
            self
        } else {
            self.ran(reports.drop_last()).absorbed(reports.last())
        }
    }
}

/// Settling moves the cursor only, never past the end, and stops at a
/// candidate that needs a probe.
pub proof fn lemma_settled(state: DiscoveryState)
    requires
        state.cursor <= state.candidates.len(),
    ensures
        state.settled() == (DiscoveryState { cursor: state.settled().cursor, ..state }),
        state.cursor <= state.settled().cursor <= state.candidates.len(),
        state.settled().settled() == state.settled(),
        state.settled().cursor < state.candidates.len() ==> !passed_over(
            state.kind,
            state.candidates[state.settled().cursor as int].data_format,
        ),
        forall|i: int|
            state.cursor <= i < state.settled().cursor ==> passed_over(
                state.kind,
                (#[trigger] state.candidates[i]).data_format,
            ),
    decreases state.candidates.len() - state.cursor,
{
    if state.cursor < state.candidates.len() && passed_over(
        state.kind,
        state.candidates[state.cursor as int].data_format,
    ) {
        lemma_settled(DiscoveryState { cursor: state.cursor + 1, ..state });
    }
}

/// A discovery run in progress.
#[derive(Debug, Clone, PartialEq, Eq)]
pub struct Discovery {
    kind: ProbeKind,
    candidates: Vec<Candidate>,
    cursor: usize,
    exclusions: ExclusionSet,
    outputs: Vec<FeatureContext>,
}

impl View for Discovery {
    type V = DiscoveryState;

    closed spec fn view(&self) -> DiscoveryState {
        DiscoveryState {
            kind: self.kind,
            candidates: self.candidates@,
            cursor: self.cursor as nat,
            outputs: self.outputs@,
        }
    }
}

impl Discovery {
    /// The run's own consistency: the cursor is within the candidates, and
    /// the exclusion set it keeps is the one its outputs claim.
    pub closed spec fn wf(self) -> bool {
        &&& self.cursor <= self.candidates@.len()
        &&& self.exclusions@ == claimed_pairs(self.outputs@)
    }

    /// Begins a run for the formats that each backend could plausibly
    /// support. The backends go in the fixed order NVIDIA, AMD, Intel.
    pub fn new(
        kind: ProbeKind,
        nv: &Vec<DataFormat>,
        amf: &Vec<DataFormat>,
        mfx: &Vec<DataFormat>,
    ) -> (run: Discovery)
        ensures
            run.wf(),
            run@ == DiscoveryState::initial(kind, all_candidates(nv@, amf@, mfx@)),
    {
        let mut candidates: Vec<Candidate> = Vec::new();
        Self::append_candidates(&mut candidates, Driver::NV, nv);
        Self::append_candidates(&mut candidates, Driver::AMF, amf);
        Self::append_candidates(&mut candidates, Driver::MFX, mfx);
        let run = Discovery {
            kind,
            candidates,
            cursor: 0,
            exclusions: ExclusionSet::new(),
            outputs: Vec::new(),
        };
        assert(run.exclusions@ =~= claimed_pairs(run.outputs@));
        run
    }

    fn append_candidates(candidates: &mut Vec<Candidate>, driver: Driver, formats: &Vec<DataFormat>)
        ensures
            final(candidates)@ == old(candidates)@ + candidates_of(driver, formats@),
    {
        let mut i: usize = 0;
        while i < formats.len()
            invariant
                i <= formats@.len(),
                candidates@ == old(candidates)@ + candidates_of(driver, formats@.take(i as int)),
            decreases formats.len() - i,
        {
            candidates.push(Candidate { driver, data_format: formats[i] });
            proof {
                assert(candidates_of(driver, formats@.take(i as int)).push(
                    Candidate { driver, data_format: formats@[i as int] },
                ) =~= candidates_of(driver, formats@.take(i + 1)));
            }
            i += 1;
        }
        proof {
            assert(formats@.take(i as int) == formats@);
        }
    }

    /// The candidates, in probe order.
    pub fn candidates(&self) -> (list: &Vec<Candidate>)
        ensures
            list@ == self@.candidates,
    {
        &self.candidates
    }

    /// The configurations found so far.
    pub fn outputs(&self) -> (list: &Vec<FeatureContext>)
        ensures
            list@ == self@.outputs,
    {
        &self.outputs
    }

    /// The exclusion set as it stands.
    pub fn exclusions(&self) -> (set: &ExclusionSet)
        requires
            self.wf(),
        ensures
            set@ == self@.exclusions(),
    {
        &self.exclusions
    }

    fn settle(&mut self)
        requires
            old(self).wf(),
        ensures
            final(self).wf(),
            final(self)@ == old(self)@.settled(),
            final(self)@.settled() == final(self)@,
    {
        while self.cursor < self.candidates.len() && self.kind == ProbeKind::Decode
            && self.candidates[self.cursor].data_format != DataFormat::H264
            && self.candidates[self.cursor].data_format != DataFormat::H265
            invariant
                self.wf(),
                self@.settled() == old(self)@.settled(),
            decreases self.candidates.len() - self.cursor,
        {
            self.cursor += 1;
        }
        proof {
            lemma_settled(old(self)@);
        }
    }

    /// The request for the next probe, or `None` when every candidate is
    /// done with. Candidates that need no probe are done with on the way.
    ///
    /// The request names the pending candidate, gives room for
    /// `MAX_ADATERS` adapters, and carries the exclusion set as it stands.
    pub fn next_request(&mut self) -> (request: Option<ProbeRequest>)
        requires
            old(self).wf(),
        ensures
            final(self).wf(),
            final(self)@ == old(self)@.settled(),
            match old(self)@.pending() {
                None => request is None,
                Some(candidate) => {
                    &&& request matches Some(r)
                    &&& r.driver == candidate.driver
                    &&& r.data_format == candidate.data_format
                    &&& r.capacity == MAX_ADATERS
                    &&& r.excluded_luids@.len() == r.exclude_formats@.len()
                    &&& zipped(r.excluded_luids@, r.exclude_formats@) == old(self)@.exclusions()
                },
            },
    {
        self.settle();
        proof {
            lemma_settled(old(self)@);
        }
        if self.cursor >= self.candidates.len() {
            return None;
        }
        let candidate = self.candidates[self.cursor];
        let (excluded_luids, exclude_formats) = self.exclusions.unzip();
        Some(
            ProbeRequest {
                driver: candidate.driver,
                data_format: candidate.data_format,
                capacity: MAX_ADATERS,
                excluded_luids,
                exclude_formats,
            },
        )
    }

    /// Takes in what the pending candidate's probe came back with.
    ///
    /// Every adapter reported under a known vendor tag becomes a
    /// configuration of the candidate's backend and format, and its pair of
    /// adapter and format joins the exclusion set. A probe that failed
    /// contributes nothing. Either way the candidate is done with.
    pub fn absorb(&mut self, result: &ProbeResult)
        requires
            old(self).wf(),
        ensures
            final(self).wf(),
            final(self)@ == old(self)@.absorbed(result.reported(MAX_ADATERS)),
            old(self)@.outputs.is_prefix_of(final(self)@.outputs),
            old(self)@.exclusions().is_prefix_of(final(self)@.exclusions()),
            distinct_claims(old(self)@.outputs) && old(self)@.honest(
                result.reported(MAX_ADATERS),
            ) ==> distinct_claims(final(self)@.outputs),
    {
        proof {
            let state = old(self)@;
            let reported = result.reported(MAX_ADATERS);
            lemma_settled(state);
            assert(state.outputs.is_prefix_of(state.absorbed(reported).outputs));
            assert(state.exclusions().is_prefix_of(state.absorbed(reported).exclusions()));
            if distinct_claims(state.outputs) && state.honest(reported) {
                lemma_absorb_keeps_claims_distinct(state, reported);
            }
        }
        self.settle();
        proof {
            lemma_settled(old(self)@);
        }
        if self.cursor >= self.candidates.len() {
            return ;
        }
        let candidate = self.candidates[self.cursor];
        self.cursor += 1;
        let ghost before = self.outputs@;
        let ghost reported = result.reported(MAX_ADATERS);
        if result.code == 0 && result.desc_count >= 0 && result.desc_count as usize <= MAX_ADATERS
            && result.desc_count as usize <= result.luids.len() && result.desc_count as usize
            <= result.vendors.len() {
            let count = result.desc_count as usize;
            let mut i: usize = 0;
            while i < count
                invariant
                    i <= count,
                    count == reported.len(),
                    count <= result.luids@.len(),
                    count <= result.vendors@.len(),
                    forall|j: int|
                        0 <= j < count ==> reported[j] == (result.luids@[j], result.vendors@[j]),
                    self.wf(),
                    self@.kind == old(self)@.kind,
                    self@.candidates == old(self)@.candidates,
                    self.cursor == old(self)@.settled().cursor + 1,
                    self.outputs@ == before + claims(candidate, reported.take(i as int)),
                decreases count - i,
            {
                proof {
                    assert(reported.take(i + 1).drop_last() == reported.take(i as int));
                }
                let luid = result.luids[i];
                match Driver::from_i32(result.vendors[i]) {
                    Some(vendor) => {
                        self.exclusions.insert(luid, candidate.data_format.to_i32());
                        self.outputs.push(
                            FeatureContext {
                                driver: candidate.driver,
                                vendor,
                                luid,
                                data_format: candidate.data_format,
                            },
                        );
                        proof {
                            assert(self.exclusions@ =~= claimed_pairs(self.outputs@));
                            assert(self.outputs@ =~= before + claims(
                                candidate,
                                reported.take(i + 1),
                            ));
                        }
                    },
                    None => {},
                }
                i += 1;
            }
            proof {
                assert(reported.take(i as int) == reported);
            }
        } else {
            assert(self.outputs@ =~= before + claims(candidate, reported));
        }
    }

    /// Ends the run and hands out what it found: every configuration that
    /// passed, in the order in which the probes reported them.
    pub fn finish(self) -> (outputs: Vec<FeatureContext>)
        ensures
            outputs@ == self@.outputs,
    {
        self.outputs
    }
}

/// No two configurations are for the same adapter and the same format.
pub open spec fn distinct_claims(outputs: Seq<FeatureContext>) -> bool {
    forall|i: int, j: int|
        0 <= i < j < outputs.len() ==> !((#[trigger] outputs[i]).luid == (#[trigger] outputs[j]).luid
            && outputs[i].data_format == outputs[j].data_format)
}

/// What a probe owes to the exclusion set it was handed: among the adapters
/// it reports under a known vendor tag, none is claimed for the format, and
/// none comes twice.
pub open spec fn respects(
    reported: Seq<(i64, i32)>,
    exclusions: Seq<(i64, i32)>,
    data_format: DataFormat,
) -> bool {
    &&& forall|i: int|
        0 <= i < reported.len() && Driver::of_tag((#[trigger] reported[i]).1 as int) is Some
            ==> !exclusions.contains(claim(reported[i].0, data_format))
    &&& forall|i: int, j: int|
        0 <= i < j < reported.len() && Driver::of_tag((#[trigger] reported[i]).1 as int) is Some
            && Driver::of_tag((#[trigger] reported[j]).1 as int) is Some ==> reported[i].0
            != reported[j].0
}

impl DiscoveryState {
    /// Whether a report that arrives in this state respects the exclusion
    /// set that the pending probe was handed.
    pub open spec fn honest(self, reported: Seq<(i64, i32)>) -> bool {
        match self.pending() {
            Some(candidate) => respects(reported, self.exclusions(), candidate.data_format),
            None => true,
        }
    }

    /// Whether every report of a run respects the exclusion set that its
    /// probe was handed.
    pub open spec fn honest_run(self, reports: Seq<Seq<(i64, i32)>>) -> bool
        decreases reports.len(),
    {
        reports.len() > 0 ==> self.honest_run(reports.drop_last()) && self.ran(
            reports.drop_last(),
        ).honest(reports.last())
    }
}

/// Every configuration that a candidate gains is of the candidate's backend
/// and format, on an adapter that was reported under a known vendor tag.
pub proof fn lemma_claims_members(candidate: Candidate, reported: Seq<(i64, i32)>)
    ensures
        claims(candidate, reported).len() <= reported.len(),
        forall|a: int|
            0 <= a < claims(candidate, reported).len() ==> {
                let c = #[trigger] claims(candidate, reported)[a];
                &&& c.driver == candidate.driver
                &&& c.data_format == candidate.data_format
                &&& exists|k: int|
                    0 <= k < reported.len() && Driver::of_tag((#[trigger] reported[k]).1 as int)
                        == Some(c.vendor) && reported[k].0 == c.luid
            },
    decreases reported.len(),
{
    if reported.len() > 0 {
        let front = reported.drop_last();
        lemma_claims_members(candidate, front);
        assert forall|a: int| 0 <= a < claims(candidate, reported).len() implies {
            let c = #[trigger] claims(candidate, reported)[a];
            &&& c.driver == candidate.driver
            &&& c.data_format == candidate.data_format
            &&& exists|k: int|
                0 <= k < reported.len() && Driver::of_tag((#[trigger] reported[k]).1 as int)
                    == Some(c.vendor) && reported[k].0 == c.luid
        } by {
            let c = claims(candidate, reported)[a];
            if a < claims(candidate, front).len() {
                assert(c == claims(candidate, front)[a]);
                let k = choose|k: int|
                    0 <= k < front.len() && Driver::of_tag((#[trigger] front[k]).1 as int) == Some(
                        c.vendor,
                    ) && front[k].0 == c.luid;
                assert(reported[k] == front[k]);
            } else {
                let k = reported.len() - 1;
                assert(reported[k] == reported.last());
            }
        }
    }
}

/// What a candidate gains from honest reports adds no duplicate to a list
/// without duplicates.
pub proof fn lemma_claims_stay_distinct(
    outputs: Seq<FeatureContext>,
    candidate: Candidate,
    reported: Seq<(i64, i32)>,
)
    requires
        distinct_claims(outputs),
        respects(reported, claimed_pairs(outputs), candidate.data_format),
    ensures
        distinct_claims(outputs + claims(candidate, reported)),
    decreases reported.len(),
{
    if reported.len() > 0 {
        let front = reported.drop_last();
        assert(respects(front, claimed_pairs(outputs), candidate.data_format)) by {
            assert forall|i: int|
                0 <= i < front.len() && Driver::of_tag(
                    (#[trigger] front[i]).1 as int,
                ) is Some implies !claimed_pairs(outputs).contains(
                claim(front[i].0, candidate.data_format),
            ) by {
                assert(front[i] == reported[i]);
            }
            assert forall|i: int, j: int|
                0 <= i < j < front.len() && Driver::of_tag((#[trigger] front[i]).1 as int) is Some
                    && Driver::of_tag((#[trigger] front[j]).1 as int) is Some implies front[i].0
                != front[j].0 by {
                assert(front[i] == reported[i]);
                assert(front[j] == reported[j]);
            }
        }
        lemma_claims_stay_distinct(outputs, candidate, front);
        lemma_claims_members(candidate, front);
        let (luid, tag) = reported.last();
        let last = reported.len() - 1;
        match Driver::of_tag(tag as int) {
            Some(vendor) => {
                let gained = FeatureContext {
                    driver: candidate.driver,
                    vendor,
                    luid,
                    data_format: candidate.data_format,
                };
                let sofar = outputs + claims(candidate, front);
                assert(outputs + claims(candidate, reported) =~= sofar.push(gained));
                assert forall|i: int| 0 <= i < sofar.len() implies !((#[trigger] sofar[i]).luid
                    == luid && sofar[i].data_format == candidate.data_format) by {
                    if i < outputs.len() {
                        assert(sofar[i] == outputs[i]);
                        assert(reported[last] == (luid, tag));
                        assert(claimed_pairs(outputs)[i] == claim(
                            outputs[i].luid,
                            outputs[i].data_format,
                        ));
                        if outputs[i].luid == luid && outputs[i].data_format
                            == candidate.data_format {
                            assert(claimed_pairs(outputs).contains(
                                claim(luid, candidate.data_format),
                            ));
                        }
                    } else {
                        let c = claims(candidate, front)[i - outputs.len()];
                        assert(sofar[i] == c);
                        let k = choose|k: int|
                            0 <= k < front.len() && Driver::of_tag((#[trigger] front[k]).1 as int)
                                == Some(c.vendor) && front[k].0 == c.luid;
                        assert(front[k] == reported[k]);
                        assert(reported[last] == (luid, tag));
                    }
                }
                assert forall|i: int, j: int| 0 <= i < j < sofar.push(gained).len() implies !((
                #[trigger] sofar.push(gained)[i]).luid == (#[trigger] sofar.push(gained)[j]).luid
                    && sofar.push(gained)[i].data_format == sofar.push(gained)[j].data_format) by {
                    if j < sofar.len() {
                        assert(sofar.push(gained)[i] == sofar[i]);
                        assert(sofar.push(gained)[j] == sofar[j]);
                    } else {
                        assert(sofar.push(gained)[i] == sofar[i]);
                    }
                }
            },
            None => {},
        }
    } else {
        assert(outputs + claims(candidate, reported) =~= outputs);
    }
}

/// One step of discovery keeps the claims distinct, as long as the report
/// respects the exclusion set that its probe was handed. It also keeps all
/// that was found before, in place: the exclusion set only grows.
pub proof fn lemma_absorb_keeps_claims_distinct(state: DiscoveryState, reported: Seq<(i64, i32)>)
    requires
        state.cursor <= state.candidates.len(),
        distinct_claims(state.outputs),
        state.honest(reported),
    ensures
        distinct_claims(state.absorbed(reported).outputs),
        state.outputs.is_prefix_of(state.absorbed(reported).outputs),
        state.exclusions().is_prefix_of(state.absorbed(reported).exclusions()),
        state.absorbed(reported).cursor <= state.candidates.len(),
        state.absorbed(reported).candidates == state.candidates,
        state.absorbed(reported).kind == state.kind,
{
    lemma_settled(state);
    match state.pending() {
        Some(candidate) => {
            lemma_claims_stay_distinct(state.outputs, candidate, reported);
        },
        None => {},
    }
}

/// No duplicate claims: in a discovery run whose every report respects the
/// exclusion set that its probe was handed, no two of the configurations
/// found are for the same adapter and the same format.
pub proof fn lemma_no_duplicate_claims(
    kind: ProbeKind,
    candidates: Seq<Candidate>,
    reports: Seq<Seq<(i64, i32)>>,
)
    requires
        DiscoveryState::initial(kind, candidates).honest_run(reports),
    ensures
        distinct_claims(DiscoveryState::initial(kind, candidates).ran(reports).outputs),
        DiscoveryState::initial(kind, candidates).ran(reports).cursor <= candidates.len(),
        DiscoveryState::initial(kind, candidates).ran(reports).candidates == candidates,
    decreases reports.len(),
{
    if reports.len() > 0 {
        lemma_no_duplicate_claims(kind, candidates, reports.drop_last());
        lemma_absorb_keeps_claims_distinct(
            DiscoveryState::initial(kind, candidates).ran(reports.drop_last()),
            reports.last(),
        );
    }
}

/// Discovery makes progress: every report taken in is the end of one more
/// candidate, as long as one is pending.
pub proof fn lemma_discovery_progress(start: DiscoveryState, reports: Seq<Seq<(i64, i32)>>)
    requires
        start.cursor <= start.candidates.len(),
    ensures
        start.ran(reports).cursor <= start.candidates.len(),
        start.ran(reports).candidates == start.candidates,
        start.ran(reports).kind == start.kind,
        start.ran(reports).pending() is Some ==> start.ran(reports).cursor >= start.cursor
            + reports.len(),
    decreases reports.len(),
{
    if reports.len() > 0 {
        let before = start.ran(reports.drop_last());
        lemma_discovery_progress(start, reports.drop_last());
        lemma_settled(before);
    }
    lemma_settled(start.ran(reports));
}

/// Discovery ends: after as many probes as there are candidates, none is
/// pending any more.
pub proof fn lemma_discovery_ends(
    kind: ProbeKind,
    candidates: Seq<Candidate>,
    reports: Seq<Seq<(i64, i32)>>,
)
    requires
        reports.len() >= candidates.len(),
    ensures
        DiscoveryState::initial(kind, candidates).ran(reports).pending() is None,
{
    let start = DiscoveryState::initial(kind, candidates);
    lemma_discovery_progress(start, reports);
    lemma_settled(start.ran(reports));
}

} // verus!
