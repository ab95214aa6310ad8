//! The ingestion pipeline: each raw row goes through the format gate,
//! translation, an existence check against the store by natural key, for
//! propensity rows a cross-reference to the property table, and a save.
//! The decisions are made here; the store calls are made by the caller,
//! which hands each reply back.

use crate::parcel::{canonical_apn, AssessorParcelNumber};
use crate::property::Property;
use crate::propensity::PropertyPropensityScore;
use crate::rows::{
    is_row_apn, property_row_translates, propensity_row_translates, CsvProperty, CsvPropertyPropensityScore,
    RowRead,
};
use vstd::prelude::*;

verus! {

/// The terminal state of one row.
#[derive(Debug, Clone, Copy, PartialEq, Eq, Structural)]
pub enum RowOutcome {
    Saved,
    SkippedDuplicate,
    SkippedMissingScore,
    SkippedDeserializationFailure,
    SkippedValidationFailure,
    SkippedSaveFailure,
}

/// A call the pipeline asks the store to make for the current row.
#[derive(Debug, Clone, Copy, PartialEq, Eq, Structural)]
pub enum StoreCall {
    /// Look the row's natural key up in its own table.
    FindExisting,
    /// Look the row's natural key up in the property table.
    FindProperty,
    /// Save the row's record in its own transaction.
    Save,
}

/// What the store answered.
#[derive(Debug, Clone, Copy, PartialEq, Eq, Structural)]
pub enum StoreReply {
    Found,
    NotFound,
    Stored,
    Failed,
}

/// What comes next for a row.
#[derive(Debug, Clone, Copy, PartialEq, Eq, Structural)]
pub enum Next {
    Call(StoreCall),
    Finish(RowOutcome),
}

/// The step after the store answered `call` with `reply`. A failed lookup
/// ends the row as a deserialization failure; a record already present ends
/// it as a duplicate; the cross-reference never blocks the save.
pub open spec fn next_after(cross_reference: bool, call: StoreCall, reply: StoreReply) -> Next {
    match call {
        StoreCall::FindExisting => match reply {
            StoreReply::Found => Next::Finish(RowOutcome::SkippedDuplicate),
            StoreReply::NotFound => if cross_reference {
                Next::Call(StoreCall::FindProperty)
            } else {
                Next::Call(StoreCall::Save)
            },
            _ => Next::Finish(RowOutcome::SkippedDeserializationFailure),
        },
        StoreCall::FindProperty => Next::Call(StoreCall::Save),
        StoreCall::Save => match reply {
            StoreReply::Stored => Next::Finish(RowOutcome::Saved),
            _ => Next::Finish(RowOutcome::SkippedSaveFailure),
        },
    }
}

/// Decides the step after a store reply. `cross_reference` is set for
/// propensity rows, whose parcel is looked up among the properties before
/// the save.
pub fn next_step(cross_reference: bool, call: StoreCall, reply: StoreReply) -> (r: Next)
    ensures
        r == next_after(cross_reference, call, reply),
{
    match call {
        StoreCall::FindExisting => match reply {
            StoreReply::Found => Next::Finish(RowOutcome::SkippedDuplicate),
            StoreReply::NotFound => if cross_reference {
                Next::Call(StoreCall::FindProperty)
            } else {
                Next::Call(StoreCall::Save)
            },
            _ => Next::Finish(RowOutcome::SkippedDeserializationFailure),
        },
        StoreCall::FindProperty => Next::Call(StoreCall::Save),
        StoreCall::Save => match reply {
            StoreReply::Stored => Next::Finish(RowOutcome::Saved),
            _ => Next::Finish(RowOutcome::SkippedSaveFailure),
        },
    }
}

/// Whether the cross-reference reply leaves the parcel without a property
/// record; a failed lookup counts as absent.
pub fn lacks_property(reply: StoreReply) -> (b: bool)
    ensures
        b == (reply != StoreReply::Found),
{
    !matches!(reply, StoreReply::Found)
}

/// Where a propensity row ends before any store call, if it does: a row
/// without a score is skipped before it is validated or translated.
pub open spec fn propensity_row_start(read: RowRead<CsvPropertyPropensityScore>) -> Option<RowOutcome> {
    match read {
        RowRead::Malformed => Some(RowOutcome::SkippedDeserializationFailure),
        RowRead::Rejected(_) => Some(RowOutcome::SkippedValidationFailure),
        RowRead::Parsed(row) => if row.propensity_score is None {
            Some(RowOutcome::SkippedMissingScore)
        } else if !is_row_apn(row.apn@) {
            Some(RowOutcome::SkippedValidationFailure)
        } else if !propensity_row_translates(row) {
            Some(RowOutcome::SkippedDeserializationFailure)
        } else {
            None
        },
    }
}

/// Where a property row ends before any store call, if it does.
pub open spec fn property_row_start(read: RowRead<CsvProperty>) -> Option<RowOutcome> {
    match read {
        RowRead::Malformed => Some(RowOutcome::SkippedDeserializationFailure),
        RowRead::Rejected(_) => Some(RowOutcome::SkippedValidationFailure),
        RowRead::Parsed(row) => if !is_row_apn(row.apn@) {
            Some(RowOutcome::SkippedValidationFailure)
        } else if !property_row_translates(row) {
            Some(RowOutcome::SkippedDeserializationFailure)
        } else {
            None
        },
    }
}

/// The natural key of a propensity row that reached the store.
pub open spec fn propensity_row_key(read: RowRead<CsvPropertyPropensityScore>) -> Seq<char> {
    match read {
        RowRead::Parsed(row) => canonical_apn(row.apn@)->Ok_0,
        _ => Seq::empty(),
    }
}

/// The natural key of a property row that reached the store.
pub open spec fn property_row_key(read: RowRead<CsvProperty>) -> Seq<char> {
    match read {
        RowRead::Parsed(row) => canonical_apn(row.apn@)->Ok_0,
        _ => Seq::empty(),
    }
}

/// Takes a propensity row up to its first store call: parse failure, missing
/// score, format gate and translation, in that order.
pub fn start_propensity_row(read: &RowRead<CsvPropertyPropensityScore>) -> (r: Result<
    PropertyPropensityScore,
    RowOutcome,
>)
    ensures
        propensity_row_start(*read) matches Some(o) ==> r == Err::<PropertyPropensityScore, RowOutcome>(o),
        propensity_row_start(*read) is None ==> (r matches Ok(p) && p.apn@ == propensity_row_key(*read) && p.id is None),
{
    match read {
        RowRead::Malformed => Err(RowOutcome::SkippedDeserializationFailure),
        RowRead::Rejected(_) => Err(RowOutcome::SkippedValidationFailure),
        RowRead::Parsed(row) => {
            if row.propensity_score.is_none() {
                return Err(RowOutcome::SkippedMissingScore);
            }
            if row.validate().is_err() {
                return Err(RowOutcome::SkippedValidationFailure);
            }
            match row.to_domain() {
                Ok(Some(p)) => Ok(p),
                _ => Err(RowOutcome::SkippedDeserializationFailure),
            }
        },
    }
}

/// Takes a property row up to its first store call: parse failure, format
/// gate and translation, in that order.
pub fn start_property_row(read: RowRead<CsvProperty>) -> (r: Result<Property, RowOutcome>)
    ensures
        property_row_start(read) matches Some(o) ==> r == Err::<Property, RowOutcome>(o),
        property_row_start(read) is None ==> (r matches Ok(p) && p.apn@ == property_row_key(read) && p.id is None),
{
    match read {
        RowRead::Malformed => Err(RowOutcome::SkippedDeserializationFailure),
        RowRead::Rejected(_) => Err(RowOutcome::SkippedValidationFailure),
        RowRead::Parsed(row) => {
            if row.validate().is_err() {
                return Err(RowOutcome::SkippedValidationFailure);
            }
            match row.to_domain() {
                Ok(p) => Ok(p),
                Err(_) => Err(RowOutcome::SkippedDeserializationFailure),
            }
        },
    }
}

/// `v` with `x` added when `cond` holds.
pub open spec fn push_if(v: Seq<usize>, cond: bool, x: usize) -> Seq<usize> {
    if cond {
        v.push(x)
    } else {
        v
    }
}

/// Per-run data-quality accounting: the indices of the rows in each
/// category, and the raw rows whose save failed.
pub struct QualityReport<R> {
    pub saved: Vec<usize>,
    pub duplicates: Vec<usize>,
    pub missing_scores: Vec<usize>,
    pub deserialization_failures: Vec<usize>,
    pub validation_failures: Vec<usize>,
    pub save_failures: Vec<(usize, Option<R>)>,
    /// Propensity rows saved although no property has their parcel number.
    pub not_in_core_properties: Vec<usize>,
    /// Every row that was not saved, in order.
    pub skipped: Vec<usize>,
}

impl<R> QualityReport<R> {
    /// A report with nothing in it.
    pub fn new() -> (r: Self)
        ensures
            r.saved@.len() == 0,
            r.duplicates@.len() == 0,
            r.missing_scores@.len() == 0,
            r.deserialization_failures@.len() == 0,
            r.validation_failures@.len() == 0,
            r.save_failures@.len() == 0,
            r.not_in_core_properties@.len() == 0,
            r.skipped@.len() == 0,
    {
        QualityReport {
            saved: Vec::new(),
            duplicates: Vec::new(),
            missing_scores: Vec::new(),
            deserialization_failures: Vec::new(),
            validation_failures: Vec::new(),
            save_failures: Vec::new(),
            not_in_core_properties: Vec::new(),
            skipped: Vec::new(),
        }
    }

    /// Records the outcome of row `index`: under its category, and among the
    /// skipped rows unless it was saved. A save failure keeps the raw row.
    pub fn record(&mut self, index: usize, outcome: RowOutcome, row: Option<R>)
        ensures
            final(self).saved@ == push_if(old(self).saved@, outcome == RowOutcome::Saved, index),
            final(self).duplicates@ == push_if(
                old(self).duplicates@,
                outcome == RowOutcome::SkippedDuplicate,
                index,
            ),
            final(self).missing_scores@ == push_if(
                old(self).missing_scores@,
                outcome == RowOutcome::SkippedMissingScore,
                index,
            ),
            final(self).deserialization_failures@ == push_if(
                old(self).deserialization_failures@,
                outcome == RowOutcome::SkippedDeserializationFailure,
                index,
            ),
            final(self).validation_failures@ == push_if(
                old(self).validation_failures@,
                outcome == RowOutcome::SkippedValidationFailure,
                index,
            ),
            outcome == RowOutcome::SkippedSaveFailure ==> final(self).save_failures@ == old(self).save_failures@.push(
                (index, row),
            ),
            outcome != RowOutcome::SkippedSaveFailure ==> final(self).save_failures@ == old(self).save_failures@,
            final(self).not_in_core_properties@ == old(self).not_in_core_properties@,
            final(self).skipped@ == push_if(old(self).skipped@, outcome != RowOutcome::Saved, index),
    {
        match outcome {
            RowOutcome::Saved => self.saved.push(index),
            RowOutcome::SkippedDuplicate => self.duplicates.push(index),
            RowOutcome::SkippedMissingScore => self.missing_scores.push(index),
            RowOutcome::SkippedDeserializationFailure => self.deserialization_failures.push(index),
            RowOutcome::SkippedValidationFailure => self.validation_failures.push(index),
            RowOutcome::SkippedSaveFailure => self.save_failures.push((index, row)),
        }
        if !matches!(outcome, RowOutcome::Saved) {
            self.skipped.push(index);
        }
    }

    /// Notes that propensity row `index` has no matching property record.
    pub fn record_not_in_core(&mut self, index: usize)
        ensures
            final(self).not_in_core_properties@ == old(self).not_in_core_properties@.push(index),
            final(self).saved == old(self).saved,
            final(self).duplicates == old(self).duplicates,
            final(self).missing_scores == old(self).missing_scores,
            final(self).deserialization_failures == old(self).deserialization_failures,
            final(self).validation_failures == old(self).validation_failures,
            final(self).save_failures == old(self).save_failures,
            final(self).skipped == old(self).skipped,
    {
        self.not_in_core_properties.push(index);
    }

    /// The indices of the first `n` skipped rows.
    pub fn first_skipped(&self, n: usize) -> (r: Vec<usize>)
        ensures
            r@ == self.skipped@.take(if n < self.skipped@.len() { n as int } else { self.skipped@.len() as int }),
    {
        let end = if n < self.skipped.len() { n } else { self.skipped.len() };
        let mut r: Vec<usize> = Vec::new();
        let mut i: usize = 0;
        while i < end
            invariant
                end <= self.skipped@.len(),
                i <= end,
                r@ == self.skipped@.take(i as int),
            decreases end - i,
        {
            r.push(self.skipped[i]);
            assert(self.skipped@.take(i + 1) =~= self.skipped@.take(i as int).push(self.skipped@[i as int]));
            i = i + 1;
        }
        r
    }
}

/// An in-process table of natural keys, append-only, with the lookup and
/// insert semantics the pipeline expects of a store.
pub struct KeyTable {
    keys: Vec<String>,
}

impl View for KeyTable {
    type V = Seq<Seq<char>>;

    closed spec fn view(&self) -> Seq<Seq<char>> {
        self.keys@.map_values(|k: String| k@)
    }
}

impl KeyTable {
    /// An empty table.
    pub fn new() -> (r: Self)
        ensures
            r@ == Seq::<Seq<char>>::empty(),
    {
        let r = KeyTable { keys: Vec::new() };
        assert(r@ =~= Seq::<Seq<char>>::empty());
        r
    }

    /// Number of records.
    pub fn len(&self) -> (r: usize)
        ensures
            r == self@.len(),
    {
        self.keys.len()
    }

    /// Point lookup by natural key.
    pub fn find(&self, apn: &AssessorParcelNumber) -> (r: StoreReply)
        ensures
            r == (if self@.contains(apn@) { StoreReply::Found } else { StoreReply::NotFound }),
    {
        let key = String::from_str(apn.apn());
        let mut i: usize = 0;
        while i < self.keys.len()
            invariant
                i <= self.keys@.len(),
                key@ == apn@,
                forall|j: int| 0 <= j < i ==> self.keys@[j]@ != apn@,
            decreases self.keys@.len() - i,
        {
            if self.keys[i] == key {
                assert(self@[i as int] == apn@);
                return StoreReply::Found;
            }
            i = i + 1;
        }
        assert(!self@.contains(apn@)) by {
            if self@.contains(apn@) {
                let j = choose|j: int| 0 <= j < self@.len() && self@[j] == apn@;
                assert(self.keys@[j]@ == apn@);
            }
        }
        StoreReply::NotFound
    }

    /// Appends a record under its natural key.
    pub fn save(&mut self, apn: &AssessorParcelNumber) -> (r: StoreReply)
        ensures
            final(self)@ == old(self)@.push(apn@),
            r == StoreReply::Stored,
    {
        self.keys.push(String::from_str(apn.apn()));
        assert(self@ =~= old(self)@.push(apn@));
        StoreReply::Stored
    }
}

/// The outcome of a propensity row against a store that answers every call.
pub open spec fn propensity_outcome(store: Seq<Seq<char>>, read: RowRead<CsvPropertyPropensityScore>) -> RowOutcome {
    match propensity_row_start(read) {
        Some(o) => o,
        None => if store.contains(propensity_row_key(read)) {
            RowOutcome::SkippedDuplicate
        } else {
            RowOutcome::Saved
        },
    }
}

/// The outcome of a property row against a store that answers every call.
pub open spec fn property_outcome(store: Seq<Seq<char>>, read: RowRead<CsvProperty>) -> RowOutcome {
    match property_row_start(read) {
        Some(o) => o,
        None => if store.contains(property_row_key(read)) {
            RowOutcome::SkippedDuplicate
        } else {
            RowOutcome::Saved
        },
    }
}

/// The store's keys after a propensity row.
pub open spec fn propensity_store_after(store: Seq<Seq<char>>, read: RowRead<CsvPropertyPropensityScore>) -> Seq<
    Seq<char>,
> {
    if propensity_outcome(store, read) == RowOutcome::Saved {
        store.push(propensity_row_key(read))
    } else {
        store
    }
}

/// The store's keys after a property row.
pub open spec fn property_store_after(store: Seq<Seq<char>>, read: RowRead<CsvProperty>) -> Seq<Seq<char>> {
    if property_outcome(store, read) == RowOutcome::Saved {
        store.push(property_row_key(read))
    } else {
        store
    }
}

/// A saved propensity row is flagged when no property has its parcel number.
pub open spec fn flags_missing_property(
    store: Seq<Seq<char>>,
    properties: Seq<Seq<char>>,
    read: RowRead<CsvPropertyPropensityScore>,
) -> bool {
    propensity_outcome(store, read) == RowOutcome::Saved && !properties.contains(propensity_row_key(read))
}

/// The index lists of a report after `outcome` was recorded for row `index`.
pub open spec fn categorised<R>(before: QualityReport<R>, after: QualityReport<R>, index: usize, outcome: RowOutcome) -> bool {
    &&& after.saved@ == push_if(before.saved@, outcome == RowOutcome::Saved, index)
    &&& after.duplicates@ == push_if(before.duplicates@, outcome == RowOutcome::SkippedDuplicate, index)
    &&& after.missing_scores@ == push_if(before.missing_scores@, outcome == RowOutcome::SkippedMissingScore, index)
    &&& after.deserialization_failures@ == push_if(
        before.deserialization_failures@,
        outcome == RowOutcome::SkippedDeserializationFailure,
        index,
    )
    &&& after.validation_failures@ == push_if(
        before.validation_failures@,
        outcome == RowOutcome::SkippedValidationFailure,
        index,
    )
    &&& after.skipped@ == push_if(before.skipped@, outcome != RowOutcome::Saved, index)
    &&& (outcome != RowOutcome::SkippedSaveFailure ==> after.save_failures@ == before.save_failures@)
    &&& (outcome == RowOutcome::SkippedSaveFailure ==> after.save_failures@.len() == before.save_failures@.len() + 1
        && after.save_failures@.drop_last() == before.save_failures@ && after.save_failures@.last().0 == index)
}

/// Runs one propensity row against in-process tables: `store` holds the
/// propensity records, `properties` the property records.
pub fn ingest_propensity_row(
    store: &mut KeyTable,
    properties: &KeyTable,
    report: &mut QualityReport<CsvPropertyPropensityScore>,
    index: usize,
    read: RowRead<CsvPropertyPropensityScore>,
) -> (r: RowOutcome)
    ensures
        r == propensity_outcome(old(store)@, read),
        final(store)@ == propensity_store_after(old(store)@, read),
        categorised(*old(report), *final(report), index, r),
        final(report).not_in_core_properties@ == push_if(
            old(report).not_in_core_properties@,
            flags_missing_property(old(store)@, properties@, read),
            index,
        ),
{
    let record = match start_propensity_row(&read) {
        Err(o) => {
            report.record(index, o, None);
            return o;
        },
        Ok(p) => p,
    };
    let existing = store.find(&record.apn);
    let outcome = match next_step(true, StoreCall::FindExisting, existing) {
        Next::Finish(o) => o,
        Next::Call(_) => {
            let matched = properties.find(&record.apn);
            if lacks_property(matched) {
                report.record_not_in_core(index);
            }
            let saved = store.save(&record.apn);
            match next_step(true, StoreCall::Save, saved) {
                Next::Finish(o) => o,
                Next::Call(_) => RowOutcome::SkippedSaveFailure,
            }
        },
    };
    report.record(index, outcome, None);
    outcome
}

/// Runs one property row against an in-process table of property records.
pub fn ingest_property_row(
    store: &mut KeyTable,
    report: &mut QualityReport<CsvProperty>,
    index: usize,
    read: RowRead<CsvProperty>,
) -> (r: RowOutcome)
    ensures
        r == property_outcome(old(store)@, read),
        final(store)@ == property_store_after(old(store)@, read),
        categorised(*old(report), *final(report), index, r),
{
    let record = match start_property_row(read) {
        Err(o) => {
            report.record(index, o, None);
            return o;
        },
        Ok(p) => p,
    };
    let existing = store.find(&record.apn);
    let outcome = match next_step(false, StoreCall::FindExisting, existing) {
        Next::Finish(o) => o,
        Next::Call(_) => {
            let saved = store.save(&record.apn);
            match next_step(false, StoreCall::Save, saved) {
                Next::Finish(o) => o,
                Next::Call(_) => RowOutcome::SkippedSaveFailure,
            }
        },
    };
    report.record(index, outcome, None);
    outcome
}

/// Ingesting the same valid propensity row twice into an empty store saves
/// it the first time and skips it as a duplicate the second; the store then
/// holds exactly one record.
pub proof fn lemma_propensity_ingest_twice(read: RowRead<CsvPropertyPropensityScore>)
    requires
        propensity_row_start(read) is None,
    ensures
        propensity_outcome(Seq::empty(), read) == RowOutcome::Saved,
        propensity_outcome(propensity_store_after(Seq::empty(), read), read) == RowOutcome::SkippedDuplicate,
        propensity_store_after(propensity_store_after(Seq::empty(), read), read).len() == 1,
{
    let once = propensity_store_after(Seq::empty(), read);
    assert(once[0] == propensity_row_key(read));
}

/// Ingesting the same valid property row twice into an empty store saves it
/// the first time and skips it as a duplicate the second; the store then
/// holds exactly one record.
pub proof fn lemma_property_ingest_twice(read: RowRead<CsvProperty>)
    requires
        property_row_start(read) is None,
    ensures
        property_outcome(Seq::empty(), read) == RowOutcome::Saved,
        property_outcome(property_store_after(Seq::empty(), read), read) == RowOutcome::SkippedDuplicate,
        property_store_after(property_store_after(Seq::empty(), read), read).len() == 1,
{
    let once = property_store_after(Seq::empty(), read);
    assert(once[0] == property_row_key(read));
}

/// Re-ingesting any row right after it was ingested changes nothing: the
/// store is left as it was.
pub proof fn lemma_propensity_reingest_unchanged(store: Seq<Seq<char>>, read: RowRead<CsvPropertyPropensityScore>)
    ensures
        propensity_store_after(propensity_store_after(store, read), read) == propensity_store_after(store, read),
{
    let once = propensity_store_after(store, read);
    if propensity_outcome(store, read) == RowOutcome::Saved {
        assert(once[store.len() as int] == propensity_row_key(read));
    }
}

/// A valid propensity row whose parcel number has no property record is
/// still saved, and is flagged as not in the core properties.
pub proof fn lemma_unmatched_propensity_saved(
    store: Seq<Seq<char>>,
    properties: Seq<Seq<char>>,
    read: RowRead<CsvPropertyPropensityScore>,
)
    requires
        propensity_row_start(read) is None,
        !store.contains(propensity_row_key(read)),
        !properties.contains(propensity_row_key(read)),
    ensures
        propensity_outcome(store, read) == RowOutcome::Saved,
        propensity_store_after(store, read) == store.push(propensity_row_key(read)),
        flags_missing_property(store, properties, read),
{
}

/// A propensity row without a score is skipped as missing its score,
/// whatever else it holds, and leaves the store as it was.
pub proof fn lemma_missing_score_skipped(store: Seq<Seq<char>>, row: CsvPropertyPropensityScore)
    requires
        row.propensity_score is None,
    ensures
        propensity_outcome(store, RowRead::Parsed(row)) == RowOutcome::SkippedMissingScore,
        propensity_store_after(store, RowRead::Parsed(row)) == store,
{
}

} // verus!
