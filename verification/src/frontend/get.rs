//! Typed read queries over the property transaction.
//!
//! A query pairs one command with one decoder. Its handle starts out
//! unsubmitted, is described into a batch, has its entry written back once
//! the batch ran, and is then consumed exactly once by `retrieve`. Asking
//! for the value earlier fails with `DtvError::NotRan`; a negative
//! per-entry result fails with `DtvError::Reported`.

use vstd::prelude::*;

use core::marker::PhantomData;

use crate::error::DtvError;
use crate::frontend::data::lemma_delivery_system_id_round_trip;
use crate::frontend::data::FeDeliverySystem;
use crate::frontend::data::FeModulation;
use crate::frontend::property::Command;
use crate::frontend::property::DtvProperty;
use crate::frontend::property::DtvPropertyUnion;
use crate::frontend::property::DtvStatsValue;
use crate::frontend::property::FeCapScaleParams;

verus! {

/// A typed read query: one command, one decoder.
///
/// `decodable` says which payloads the producing command guarantees, and
/// `decoded` relates such a payload to the value it decodes to. Every
/// union read is therefore paired with the proof that the command
/// guarantees that layout.
pub trait PropertyQuery: Sized {
    /// The command whose entries this query decodes.
    spec fn spec_command() -> Command;

    /// The payloads the associated command guarantees for its entries.
    spec fn decodable(u: DtvPropertyUnion) -> bool;

    /// How a guaranteed payload decodes.
    spec fn decoded(u: DtvPropertyUnion, r: Self) -> bool;

    /// The command whose entries this query decodes.
    fn associated_command() -> (c: Command)
        ensures
            c == Self::spec_command(),
    ;

    /// Decode a payload that the associated command produced.
    fn from_property(u: DtvPropertyUnion) -> (r: Self)
        requires
            Self::decodable(u),
        ensures
            Self::decoded(u, r),
    ;

    /// Create a handle that can be described into a batch. After the batch
    /// has run and the entry was written back, `retrieve` yields the value.
    fn query() -> (q: PendingQuery<Self>)
        ensures
            q.memory is None,
    {
        PendingQuery { phantom: PhantomData, memory: None }
    }
}

/// Caller-side handle of one typed read query.
///
/// `memory` is the entry written back by an executed batch; while it is
/// `None` the query has not run and has no value to give.
pub struct PendingQuery<T> {
    pub phantom: PhantomData<T>,
    pub memory: Option<DtvProperty>,
}

impl<T> core::default::Default for PendingQuery<T> {
    /// A fresh, unsubmitted handle.
    fn default() -> (q: PendingQuery<T>)
        ensures
            q.memory is None,
    {
        PendingQuery { phantom: PhantomData, memory: None }
    }
}

/// What a query contributes to a batch: its command, and the blank entry
/// reserving its slot.
pub struct QueryDescription {
    pub command: Command,
    pub property: DtvProperty,
}

impl<T: PropertyQuery> PendingQuery<T> {
    /// Exactly the outcomes `retrieve` may have on this handle: not-run
    /// and reported failures are pinned, and a success is a decoding of
    /// the entry the batch wrote back.
    pub open spec fn retrieves_to(self, r: Result<T, DtvError>) -> bool {
        match self.memory {
            None => r == Err::<T, DtvError>(DtvError::NotRan),
            Some(p) => if p.result < 0 {
                r == Err::<T, DtvError>(DtvError::Reported(p.result))
            } else {
                r is Ok && T::decoded(p.u, r->Ok_0)
            },
        }
    }

    /// Consume the handle and yield the decoded value.
    ///
    /// Fails with `NotRan` if the entry was never written back (the batch
    /// never executed, or this query was never added to the batch that
    /// ran), and with `Reported` if the kernel left a negative per-entry
    /// result.
    pub fn retrieve(self) -> (r: Result<T, DtvError>)
        requires
            self.memory matches Some(p) ==> p.result >= 0 ==> T::decodable(p.u),
        ensures
            self.retrieves_to(r),
    {
        let property = match self.memory {
            None => {
                return Err(DtvError::NotRan);
            },
            Some(p) => p,
        };
        if property.result < 0 {
            return Err(DtvError::Reported(property.result));
        }
        Ok(T::from_property(property.u))
    }

    /// Describe this query for a batch: its command and the blank entry to
    /// place into the transaction.
    pub fn desc(&self) -> (d: QueryDescription)
        ensures
            d.command == T::spec_command(),
            d.property == (DtvProperty {
                cmd: T::spec_command().spec_id(),
                u: DtvPropertyUnion::Data(0),
                result: 0,
            }),
    {
        let command = T::associated_command();
        QueryDescription { command, property: DtvProperty::new_empty(command) }
    }

    /// Hand back the entry of this query as an executed batch left it.
    pub fn complete(&mut self, filled: DtvProperty)
        ensures
            final(self).memory == Some(filled),
    {
        self.memory = Some(filled);
    }
}

/// Retrieving from a handle whose batch never ran always fails with the
/// not-yet-executed error, whatever the query type.
pub proof fn lemma_retrieve_before_run<T: PropertyQuery>(q: PendingQuery<T>, r: Result<T, DtvError>)
    requires
        q.memory is None,
        q.retrieves_to(r),
    ensures
        r == Err::<T, DtvError>(DtvError::NotRan),
{
}

/// Retrieving from a handle whose entry carries a negative per-entry
/// result fails with exactly that code, whatever the query type.
pub proof fn lemma_retrieve_reported<T: PropertyQuery>(
    q: PendingQuery<T>,
    r: Result<T, DtvError>,
)
    requires
        q.memory matches Some(p) && p.result < 0,
        q.retrieves_to(r),
    ensures
        r == Err::<T, DtvError>(DtvError::Reported(q.memory->Some_0.result)),
{
}

/// A decoded statistics sample: a signal-type measurement or a bare count.
#[derive(Debug, Clone, Copy, PartialEq, Eq, Structural)]
pub enum StatResult {
    Value(ValueStat),
    Count(u64),
}

/// A decoded signal-type measurement.
#[derive(Debug, Clone, Copy, PartialEq, Eq, Structural)]
pub enum ValueStat {
    /// Signed reading in 0.001 dB units.
    Decibel(i64),
    /// Unsigned relative reading, 0 to 65535 standing for 0% to 100%.
    Relative(u64),
}

impl StatResult {
    /// Decoding of one scale tag and sample: no value when the measure is
    /// unavailable, otherwise the sample bits read under the scale's
    /// signedness.
    pub open spec fn spec_from(scale: FeCapScaleParams, raw_value: DtvStatsValue) -> Option<
        StatResult,
    > {
        match scale {
            FeCapScaleParams::FE_SCALE_NOT_AVAILABLE => None,
            FeCapScaleParams::FE_SCALE_DECIBEL => Some(
                StatResult::Value(ValueStat::Decibel(raw_value.bits as i64)),
            ),
            FeCapScaleParams::FE_SCALE_RELATIVE => Some(
                StatResult::Value(ValueStat::Relative(raw_value.bits)),
            ),
            FeCapScaleParams::FE_SCALE_COUNTER => Some(StatResult::Count(raw_value.bits)),
        }
    }

    /// Decode one scale-tagged sample.
    pub fn from(scale: FeCapScaleParams, raw_value: DtvStatsValue) -> (r: Option<StatResult>)
        ensures
            r == StatResult::spec_from(scale, raw_value),
    {
        match scale {
            FeCapScaleParams::FE_SCALE_NOT_AVAILABLE => None,
            FeCapScaleParams::FE_SCALE_DECIBEL => Some(
                StatResult::Value(ValueStat::Decibel(raw_value.svalue())),
            ),
            FeCapScaleParams::FE_SCALE_RELATIVE => Some(
                StatResult::Value(ValueStat::Relative(raw_value.uvalue())),
            ),
            FeCapScaleParams::FE_SCALE_COUNTER => Some(StatResult::Count(raw_value.uvalue())),
        }
    }
}

/// Decoding a sample is total over the known scales and deterministic, and
/// preserves the sample bits exactly: the not-available scale alone gives
/// no value, the decibel scale gives the bits read as signed, and reading
/// them back as unsigned gives the same bits again.
pub proof fn lemma_stat_decode_total(scale: FeCapScaleParams, raw: DtvStatsValue)
    ensures
        StatResult::spec_from(scale, raw) is None <==> scale
            == FeCapScaleParams::FE_SCALE_NOT_AVAILABLE,
        scale == FeCapScaleParams::FE_SCALE_DECIBEL ==> StatResult::spec_from(scale, raw) == Some(
            StatResult::Value(ValueStat::Decibel(raw.bits as i64)),
        ),
        scale == FeCapScaleParams::FE_SCALE_RELATIVE ==> StatResult::spec_from(scale, raw) == Some(
            StatResult::Value(ValueStat::Relative(raw.bits)),
        ),
        scale == FeCapScaleParams::FE_SCALE_COUNTER ==> StatResult::spec_from(scale, raw) == Some(
            StatResult::Count(raw.bits),
        ),
        (raw.bits as i64) as u64 == raw.bits,
{
    let b = raw.bits;
    assert((b as i64) as u64 == b) by (bit_vector);
}

impl core::cmp::PartialOrd for ValueStat {
    /// Two relative readings order totally by their value. The encoding
    /// needed to compare two decibel readings is not determined, so they
    /// stay incomparable, as do readings of different kinds.
    fn partial_cmp(&self, other: &ValueStat) -> (r: Option<core::cmp::Ordering>) {
        match (self, other) {
            (ValueStat::Relative(a), ValueStat::Relative(b)) => {
                if *a < *b {
                    Some(core::cmp::Ordering::Less)
                } else if *a == *b {
                    Some(core::cmp::Ordering::Equal)
                } else {
                    Some(core::cmp::Ordering::Greater)
                }
            },
            _ => None,
        }
    }
}

impl vstd::std_specs::cmp::PartialOrdSpecImpl for ValueStat {
    open spec fn obeys_partial_cmp_spec() -> bool {
        true
    }

    open spec fn partial_cmp_spec(&self, other: &ValueStat) -> Option<core::cmp::Ordering> {
        match (self, other) {
            (ValueStat::Relative(a), ValueStat::Relative(b)) => if *a < *b {
                Some(core::cmp::Ordering::Less)
            } else if *a == *b {
                Some(core::cmp::Ordering::Equal)
            } else {
                Some(core::cmp::Ordering::Greater)
            },
            _ => None,
        }
    }
}

//
// ----- Individual queries

/// Strictly ascending by id: ordered, and free of duplicates.
pub open spec fn strictly_sorted(s: Seq<FeDeliverySystem>) -> bool {
    forall|i: int, j: int| 0 <= i < j < s.len() ==> s[i].spec_id() < s[j].spec_id()
}

/// Whether some element of `s` carries the id `v`.
pub open spec fn contains_id(s: Seq<FeDeliverySystem>, v: u32) -> bool {
    exists|i: int| 0 <= i < s.len() && s[i].spec_id() == v
}

/// `x` inserted into the ascending sequence `s`, keeping the order and
/// discarding a duplicated id.
pub open spec fn insert_sorted(s: Seq<FeDeliverySystem>, x: FeDeliverySystem) -> Seq<
    FeDeliverySystem,
>
    decreases s.len(),
{
    if s.len() == 0 {
        seq![x]
    } else if x.spec_id() < s[0].spec_id() {
        seq![x] + s
    } else if x.spec_id() == s[0].spec_id() {
        s
    } else {
        seq![s[0]] + insert_sorted(s.drop_first(), x)
    }
}

/// Inserting adds exactly the inserted id and no other: membership by id.
proof fn lemma_insert_sorted_membership(s: Seq<FeDeliverySystem>, x: FeDeliverySystem, v: u32)
    ensures
        contains_id(insert_sorted(s, x), v) <==> (contains_id(s, v) || v == x.spec_id()),
    decreases s.len(),
{
    let r = insert_sorted(s, x);
    if s.len() == 0 {
        if v == x.spec_id() {
            assert(r[0].spec_id() == v);
        }
        if contains_id(r, v) {
            let i = choose|i: int| 0 <= i < r.len() && r[i].spec_id() == v;
            assert(r[i] == x);
        }
    } else if x.spec_id() < s[0].spec_id() {
        // r == seq![x] + s: every old element moves one slot up
        if contains_id(r, v) {
            let i = choose|i: int| 0 <= i < r.len() && r[i].spec_id() == v;
            if i > 0 {
                assert(s[i - 1].spec_id() == v);
            }
        }
        if contains_id(s, v) {
            let i = choose|i: int| 0 <= i < s.len() && s[i].spec_id() == v;
            assert(r[i + 1].spec_id() == v);
        }
        if v == x.spec_id() {
            assert(r[0].spec_id() == v);
        }
    } else if x.spec_id() == s[0].spec_id() {
        // r == s, and the discarded id is already present at the front
        if v == x.spec_id() {
            assert(s[0].spec_id() == v);
        }
    } else {
        let s1 = s.drop_first();
        let r1 = insert_sorted(s1, x);
        lemma_insert_sorted_membership(s1, x, v);
        // r == seq![s[0]] + r1
        if contains_id(r, v) {
            let i = choose|i: int| 0 <= i < r.len() && r[i].spec_id() == v;
            if i == 0 {
                assert(s[0].spec_id() == v);
            } else {
                assert(r1[i - 1].spec_id() == v);
                assert(contains_id(r1, v));
                if contains_id(s1, v) {
                    let k = choose|k: int| 0 <= k < s1.len() && s1[k].spec_id() == v;
                    assert(s[k + 1].spec_id() == v);
                }
            }
        }
        if contains_id(s, v) {
            let i = choose|i: int| 0 <= i < s.len() && s[i].spec_id() == v;
            if i == 0 {
                assert(r[0].spec_id() == v);
            } else {
                assert(s1[i - 1].spec_id() == v);
                assert(contains_id(s1, v));
                assert(contains_id(r1, v));
                let k = choose|k: int| 0 <= k < r1.len() && r1[k].spec_id() == v;
                assert(r[k + 1].spec_id() == v);
            }
        } else if v == x.spec_id() {
            assert(contains_id(r1, v));
            let k = choose|k: int| 0 <= k < r1.len() && r1[k].spec_id() == v;
            assert(r[k + 1].spec_id() == v);
        }
    }
}

/// Inserting invents no elements: each slot holds the inserted value or
/// one that was already present.
proof fn lemma_insert_sorted_elements(s: Seq<FeDeliverySystem>, x: FeDeliverySystem, i: int)
    requires
        0 <= i < insert_sorted(s, x).len(),
    ensures
        insert_sorted(s, x)[i] == x || s.contains(insert_sorted(s, x)[i]),
    decreases s.len(),
{
    let r = insert_sorted(s, x);
    if s.len() == 0 {
        assert(r[i] == x);
    } else if x.spec_id() < s[0].spec_id() {
        if i > 0 {
            assert(r[i] == s[i - 1]);
            assert(s.contains(s[i - 1]));
        }
    } else if x.spec_id() == s[0].spec_id() {
        assert(s.contains(s[i]));
    } else {
        let s1 = s.drop_first();
        let r1 = insert_sorted(s1, x);
        if i == 0 {
            assert(r[0] == s[0]);
            assert(s.contains(s[0]));
        } else {
            lemma_insert_sorted_elements(s1, x, i - 1);
            assert(r[i] == r1[i - 1]);
            if r1[i - 1] != x {
                let k = choose|k: int| 0 <= k < s1.len() && s1[k] == r1[i - 1];
                assert(s[k + 1] == r1[i - 1]);
                assert(s.contains(s[k + 1]));
            }
        }
    }
}

/// Inserting into an ascending sequence keeps it ascending.
proof fn lemma_insert_sorted_sorted(s: Seq<FeDeliverySystem>, x: FeDeliverySystem)
    requires
        strictly_sorted(s),
    ensures
        strictly_sorted(insert_sorted(s, x)),
    decreases s.len(),
{
    let r = insert_sorted(s, x);
    if s.len() == 0 {
    } else if x.spec_id() < s[0].spec_id() {
        assert forall|i: int, j: int| 0 <= i < j < r.len() implies r[i].spec_id()
            < r[j].spec_id() by {
            if i > 0 {
                assert(r[i] == s[i - 1]);
            }
            assert(r[j] == s[j - 1]);
        }
    } else if x.spec_id() == s[0].spec_id() {
    } else {
        let s1 = s.drop_first();
        let r1 = insert_sorted(s1, x);
        assert forall|i: int, j: int| 0 <= i < j < s1.len() implies s1[i].spec_id()
            < s1[j].spec_id() by {
            assert(s1[i] == s[i + 1]);
            assert(s1[j] == s[j + 1]);
        }
        lemma_insert_sorted_sorted(s1, x);
        // every element of r1 carries an id above the one at the front
        assert forall|j: int| 0 <= j < r1.len() implies s[0].spec_id() < r1[j].spec_id() by {
            lemma_insert_sorted_elements(s1, x, j);
            if r1[j] != x {
                let k = choose|k: int| 0 <= k < s1.len() && s1[k] == r1[j];
                assert(s[k + 1] == r1[j]);
            }
        }
        assert forall|i: int, j: int| 0 <= i < j < r.len() implies r[i].spec_id()
            < r[j].spec_id() by {
            if i == 0 {
                assert(r[j] == r1[j - 1]);
            } else {
                assert(r[i] == r1[i - 1]);
                assert(r[j] == r1[j - 1]);
            }
        }
    }
}

/// Inserting into an ascending sequence keeps it ascending, adds exactly
/// the inserted id, and invents no elements.
pub proof fn lemma_insert_sorted(s: Seq<FeDeliverySystem>, x: FeDeliverySystem)
    requires
        strictly_sorted(s),
    ensures
        strictly_sorted(insert_sorted(s, x)),
        forall|v: u32|
            contains_id(insert_sorted(s, x), v) <==> (contains_id(s, v) || v == x.spec_id()),
    decreases s.len(),
{
    lemma_insert_sorted_sorted(s, x);
    assert forall|v: u32|
        contains_id(insert_sorted(s, x), v) <==> (contains_id(s, v) || v == x.spec_id()) by {
        lemma_insert_sorted_membership(s, x, v);
    }
}

/// The systems named by the first `len` bytes of `data`, ascending by id.
pub open spec fn decoded_systems(data: Seq<u8>, len: int) -> Seq<FeDeliverySystem>
    decreases len,
{
    if len <= 0 {
        Seq::empty()
    } else {
        insert_sorted(
            decoded_systems(data, len - 1),
            FeDeliverySystem::spec_try_from(data[len - 1])->Some_0,
        )
    }
}

/// The decoded enumeration is ascending by id, free of duplicates, and
/// holds exactly the ids named in the buffer prefix: duplicated bytes
/// collapse to one element.
pub proof fn lemma_decoded_systems(data: Seq<u8>, len: int)
    requires
        0 <= len <= data.len(),
        forall|i: int| 0 <= i < len ==> FeDeliverySystem::spec_try_from(#[trigger] data[i]) is Some,
    ensures
        strictly_sorted(decoded_systems(data, len)),
        forall|v: u32|
            contains_id(decoded_systems(data, len), v) <==> exists|i: int|
                0 <= i < len && data[i] as u32 == v,
    decreases len,
{
    if len > 0 {
        lemma_decoded_systems(data, len - 1);
        let prev = decoded_systems(data, len - 1);
        let x = FeDeliverySystem::spec_try_from(data[len - 1])->Some_0;
        lemma_delivery_system_id_round_trip(data[len - 1]);
        lemma_insert_sorted(prev, x);
        let cur = decoded_systems(data, len);
        assert forall|v: u32| contains_id(cur, v) implies exists|i: int|
            0 <= i < len && data[i] as u32 == v by {
            if contains_id(prev, v) {
                let i = choose|i: int| 0 <= i < len - 1 && data[i] as u32 == v;
                assert(0 <= i < len && data[i] as u32 == v);
            } else {
                assert(data[len - 1] as u32 == v);
            }
        }
        assert forall|v: u32|
            (exists|i: int| 0 <= i < len && data[i] as u32 == v) implies contains_id(cur, v) by {
            let i = choose|i: int| 0 <= i < len && data[i] as u32 == v;
            assert(contains_id(cur, v) <==> (contains_id(prev, v) || v == x.spec_id()));
            if i < len - 1 {
                assert(exists|j: int| 0 <= j < len - 1 && data[j] as u32 == v);
                assert(contains_id(prev, v));
            } else {
                assert(v == x.spec_id());
            }
        }
    }
}

/// List of the delivery systems an adapter supports.
///
/// The list is kept ascending by id and free of duplicates: each system
/// appears once, and older systems are enumerated before newer ones, as
/// they are the most likely to carry the most channels.
#[derive(Debug)]
pub struct EnumerateDeliverySystems(pub Vec<FeDeliverySystem>);

/// `insert_sorted`, executed on a vector.
fn insert_sorted_vec(s: Vec<FeDeliverySystem>, x: FeDeliverySystem) -> (r: Vec<FeDeliverySystem>)
    ensures
        r@ == insert_sorted(s@, x),
    decreases s@.len(),
{
    if s.len() == 0 {
        let mut r: Vec<FeDeliverySystem> = Vec::new();
        r.push(x);
        proof {
            assert(r@ =~= seq![x]);
        }
        r
    } else if x.id() < s[0].id() {
        let ghost s0 = s@;
        let mut r = s;
        r.insert(0, x);
        proof {
            assert(r@ =~= seq![x] + s0);
        }
        r
    } else if x.id() == s[0].id() {
        s
    } else {
        let ghost s0 = s@;
        let mut s = s;
        let first = s.remove(0);
        proof {
            assert(s@ =~= s0.drop_first());
        }
        let mut r = insert_sorted_vec(s, x);
        r.insert(0, first);
        proof {
            assert(r@ =~= seq![first] + insert_sorted(s0.drop_first(), x));
        }
        r
    }
}

impl PropertyQuery for EnumerateDeliverySystems {
    open spec fn spec_command() -> Command {
        Command::DTV_ENUM_DELSYS
    }

    open spec fn decodable(u: DtvPropertyUnion) -> bool {
        &&& u is Buffer
        &&& u->Buffer_0.len <= 32
        &&& forall|i: int|
            0 <= i < u->Buffer_0.len ==> FeDeliverySystem::spec_try_from(
                #[trigger] u->Buffer_0.data@[i],
            ) is Some
    }

    open spec fn decoded(u: DtvPropertyUnion, r: Self) -> bool {
        r.0@ == decoded_systems(u->Buffer_0.data@, u->Buffer_0.len as int)
    }

    fn associated_command() -> (c: Command) {
        Command::DTV_ENUM_DELSYS
    }

    fn from_property(u: DtvPropertyUnion) -> (r: Self) {
        match u {
            DtvPropertyUnion::Buffer(buffer) => {
                let len = buffer.len as usize;
                let mut systems: Vec<FeDeliverySystem> = Vec::new();
                let mut i: usize = 0;
                while i < len
                    invariant
                        i <= len,
                        len == buffer.len,
                        len <= 32,
                        u == DtvPropertyUnion::Buffer(buffer),
                        EnumerateDeliverySystems::decodable(u),
                        systems@ == decoded_systems(buffer.data@, i as int),
                    decreases len - i,
                {
                    let sys = FeDeliverySystem::try_from(buffer.data[i]).unwrap();
                    systems = insert_sorted_vec(systems, sys);
                    i = i + 1;
                }
                EnumerateDeliverySystems(systems)
            },
            // not reachable: the command guarantees the buffer layout
            _ => EnumerateDeliverySystems(Vec::new()),
        }
    }
}

/// What the enumeration guarantees of every decoded value: ascending by
/// id, free of duplicates, and exactly the ids that stand in the buffer.
pub proof fn lemma_delivery_systems_decoded(u: DtvPropertyUnion, r: EnumerateDeliverySystems)
    requires
        EnumerateDeliverySystems::decodable(u),
        EnumerateDeliverySystems::decoded(u, r),
    ensures
        strictly_sorted(r.0@),
        forall|v: u32|
            contains_id(r.0@, v) <==> exists|i: int|
                0 <= i < u->Buffer_0.len && u->Buffer_0.data@[i] as u32 == v,
{
    lemma_decoded_systems(u->Buffer_0.data@, u->Buffer_0.len as int);
}

/// Frequency of the transponder/channel, as the tuner reports it.
#[derive(Debug)]
pub struct Frequency(pub u32);

impl PropertyQuery for Frequency {
    open spec fn spec_command() -> Command {
        Command::DTV_FREQUENCY
    }

    open spec fn decodable(u: DtvPropertyUnion) -> bool {
        u is Data
    }

    open spec fn decoded(u: DtvPropertyUnion, r: Self) -> bool {
        r == Frequency(u->Data_0)
    }

    fn associated_command() -> (c: Command) {
        Command::DTV_FREQUENCY
    }

    fn from_property(u: DtvPropertyUnion) -> (r: Self) {
        match u {
            DtvPropertyUnion::Data(data) => Frequency(data),
            // not reachable: the command guarantees the scalar layout
            _ => Frequency(0),
        }
    }
}

/// Modulation in use, as the tuner reports it.
#[derive(Debug)]
pub struct Modulation(pub FeModulation);

impl PropertyQuery for Modulation {
    open spec fn spec_command() -> Command {
        Command::DTV_MODULATION
    }

    open spec fn decodable(u: DtvPropertyUnion) -> bool {
        u is Data && FeModulation::spec_try_from(u->Data_0) is Some
    }

    open spec fn decoded(u: DtvPropertyUnion, r: Self) -> bool {
        r == Modulation(FeModulation::spec_try_from(u->Data_0)->Some_0)
    }

    fn associated_command() -> (c: Command) {
        Command::DTV_MODULATION
    }

    fn from_property(u: DtvPropertyUnion) -> (r: Self) {
        match u {
            DtvPropertyUnion::Data(data) => Modulation(FeModulation::try_from(data).unwrap()),
            // not reachable: the command guarantees the scalar layout
            _ => Modulation(FeModulation::QPSK),
        }
    }
}

/// Symbol rate, as the tuner reports it.
#[derive(Debug)]
pub struct SymbolRate(pub u32);

impl PropertyQuery for SymbolRate {
    open spec fn spec_command() -> Command {
        Command::DTV_SYMBOL_RATE
    }

    open spec fn decodable(u: DtvPropertyUnion) -> bool {
        u is Data
    }

    open spec fn decoded(u: DtvPropertyUnion, r: Self) -> bool {
        r == SymbolRate(u->Data_0)
    }

    fn associated_command() -> (c: Command) {
        Command::DTV_SYMBOL_RATE
    }

    fn from_property(u: DtvPropertyUnion) -> (r: Self) {
        match u {
            DtvPropertyUnion::Data(data) => SymbolRate(data),
            // not reachable: the command guarantees the scalar layout
            _ => SymbolRate(0),
        }
    }
}

/// The one-sample statistics payloads whose sample decodes to a
/// signal-type measurement, or to no value at all.
pub open spec fn value_stat_payload(u: DtvPropertyUnion) -> bool {
    &&& u is St
    &&& u->St_0.len == 1
    &&& FeCapScaleParams::spec_try_from(u->St_0.stat@[0].scale) matches Some(s) && s
        != FeCapScaleParams::FE_SCALE_COUNTER
}

/// The one-sample statistics payloads whose sample decodes to a bare
/// count, or to no value at all.
pub open spec fn count_stat_payload(u: DtvPropertyUnion) -> bool {
    &&& u is St
    &&& u->St_0.len == 1
    &&& FeCapScaleParams::spec_try_from(u->St_0.stat@[0].scale) matches Some(s) && (s
        == FeCapScaleParams::FE_SCALE_NOT_AVAILABLE || s == FeCapScaleParams::FE_SCALE_COUNTER)
}

/// Signal strength level at the analog part of the tuner or of the demod.
#[derive(Debug, PartialEq, Eq)]
pub struct SignalStrength(pub Option<ValueStat>);

impl PropertyQuery for SignalStrength {
    open spec fn spec_command() -> Command {
        Command::DTV_STAT_SIGNAL_STRENGTH
    }

    open spec fn decodable(u: DtvPropertyUnion) -> bool {
        value_stat_payload(u)
    }

    open spec fn decoded(u: DtvPropertyUnion, r: Self) -> bool {
        match StatResult::spec_from(
            FeCapScaleParams::spec_try_from(u->St_0.stat@[0].scale)->Some_0,
            u->St_0.stat@[0].value,
        ) {
            None => r == SignalStrength(None),
            Some(StatResult::Value(v)) => r == SignalStrength(Some(v)),
            Some(StatResult::Count(_)) => false,
        }
    }

    fn associated_command() -> (c: Command) {
        Command::DTV_STAT_SIGNAL_STRENGTH
    }

    fn from_property(u: DtvPropertyUnion) -> (r: Self) {
        match u {
            DtvPropertyUnion::St(stats) => {
                let stat = stats.stat[0];
                let scale = FeCapScaleParams::try_from(stat.scale).unwrap();
                match StatResult::from(scale, stat.value) {
                    None => SignalStrength(None),
                    Some(StatResult::Value(value_stat)) => SignalStrength(Some(value_stat)),
                    // not reachable: the command's scales never count events
                    Some(StatResult::Count(_)) => SignalStrength(None),
                }
            },
            // not reachable: the command guarantees the statistics layout
            _ => SignalStrength(None),
        }
    }
}

impl core::cmp::PartialOrd for SignalStrength {
    /// A missing reading sorts below any present one; two present
    /// readings order as the measurements do.
    fn partial_cmp(&self, other: &SignalStrength) -> (r: Option<core::cmp::Ordering>) {
        match (self.0, other.0) {
            (None, None) => None,
            (None, Some(_)) => Some(core::cmp::Ordering::Less),
            (Some(_), None) => Some(core::cmp::Ordering::Greater),
            (Some(a), Some(b)) => a.partial_cmp(&b),
        }
    }
}

impl vstd::std_specs::cmp::PartialOrdSpecImpl for SignalStrength {
    open spec fn obeys_partial_cmp_spec() -> bool {
        true
    }

    open spec fn partial_cmp_spec(&self, other: &SignalStrength) -> Option<core::cmp::Ordering> {
        match (self.0, other.0) {
            (None, None) => None,
            (None, Some(_)) => Some(core::cmp::Ordering::Less),
            (Some(_), None) => Some(core::cmp::Ordering::Greater),
            (Some(a), Some(b)) => vstd::std_specs::cmp::PartialOrdSpec::partial_cmp_spec(&a, &b),
        }
    }
}

/// Signal to noise ratio for the main carrier.
#[derive(Debug)]
pub struct CarrierSignalToNoise(pub Option<ValueStat>);

/// Total number of blocks received since the measurement began.
#[derive(Debug)]
pub struct TotalBlockCount(pub Option<u64>);

impl PropertyQuery for TotalBlockCount {
    open spec fn spec_command() -> Command {
        Command::DTV_STAT_TOTAL_BLOCK_COUNT
    }

    open spec fn decodable(u: DtvPropertyUnion) -> bool {
        count_stat_payload(u)
    }

    open spec fn decoded(u: DtvPropertyUnion, r: Self) -> bool {
        match StatResult::spec_from(
            FeCapScaleParams::spec_try_from(u->St_0.stat@[0].scale)->Some_0,
            u->St_0.stat@[0].value,
        ) {
            None => r == TotalBlockCount(None),
            Some(StatResult::Count(c)) => r == TotalBlockCount(Some(c)),
            Some(StatResult::Value(_)) => false,
        }
    }

    fn associated_command() -> (c: Command) {
        Command::DTV_STAT_TOTAL_BLOCK_COUNT
    }

    fn from_property(u: DtvPropertyUnion) -> (r: Self) {
        match u {
            DtvPropertyUnion::St(stats) => {
                let stat = stats.stat[0];
                let scale = FeCapScaleParams::try_from(stat.scale).unwrap();
                match StatResult::from(scale, stat.value) {
                    None => TotalBlockCount(None),
                    Some(StatResult::Count(count)) => TotalBlockCount(Some(count)),
                    // not reachable: the command's scales never measure a signal
                    Some(StatResult::Value(_)) => TotalBlockCount(None),
                }
            },
            // not reachable: the command guarantees the statistics layout
            _ => TotalBlockCount(None),
        }
    }
}

} // verus!
