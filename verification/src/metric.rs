//! One tracked metric's history: named rotating series sharing a coordinate
//! space, an optional fixed ceiling used for scaling, the active axis
//! labeler, and the dirty flag a renderer acknowledges after a redraw.

use vstd::prelude::*;

use crate::labeler::{AxisLabels, ScaleLabeler};
use crate::ring::{rotated, RingSeries};

verus! {

/// The failures a history can report. Both indicate a programming defect in
/// the integration layer: a series that was never attached, or an attachment
/// with no points at all (a series' capacity is the length of its initial
/// points, and a capacity of zero cannot hold a history).
#[derive(Clone, Copy, Debug, PartialEq, Eq, Structural)]
pub enum HistoryError {
    NoSuchSeries,
    EmptyInitialPoints,
}

/// A metric's history: its rotating series, scaling policy and dirty flag.
pub struct MetricHistory {
    names: Vec<String>,
    series: Vec<RingSeries>,
    ceiling: Option<u64>,
    show_labels: bool,
    labeler: Option<ScaleLabeler>,
    dirty: bool,
}

impl MetricHistory {
    /// The attached series' contents, in attachment order, each newest first.
    pub closed spec fn series(&self) -> Seq<Seq<u64>> {
        self.series@.map_values(|r: RingSeries| r@)
    }

    /// The attached series' names, in attachment order.
    pub closed spec fn names(&self) -> Seq<Seq<char>> {
        self.names@.map_values(|n: String| n@)
    }

    /// The fixed scaling ceiling, when one is set; with none, scale is
    /// derived from the data itself.
    pub closed spec fn ceiling(&self) -> Option<u64> {
        self.ceiling
    }

    /// Whether axis labels are displayed for this history.
    pub closed spec fn show_labels(&self) -> bool {
        self.show_labels
    }

    /// The active axis labeler, when one is registered.
    pub closed spec fn labeler(&self) -> Option<ScaleLabeler> {
        self.labeler
    }

    /// Whether the contents changed since the last acknowledged render.
    pub closed spec fn dirty(&self) -> bool {
        self.dirty
    }

    /// Every attached series holds at least one sample, and each has a name.
    pub closed spec fn wf(&self) -> bool {
        &&& forall|i: int| 0 <= i < self.series@.len() ==> (#[trigger] self.series@[i]).wf()
        &&& self.names@.len() == self.series@.len()
    }

    /// A history with no series yet attached, not marked dirty, with no
    /// labeler registered.
    pub fn new(ceiling: Option<u64>, show_labels: bool) -> (history: MetricHistory)
        ensures
            history.series() == Seq::<Seq<u64>>::empty(),
            history.names() == Seq::<Seq<char>>::empty(),
            history.ceiling() == ceiling,
            history.show_labels() == show_labels,
            history.labeler() is None,
            !history.dirty(),
            history.wf(),
    {
        let history = MetricHistory {
            names: Vec::new(),
            series: Vec::new(),
            ceiling,
            show_labels,
            labeler: None,
            dirty: false,
        };
        proof {
            assert(history.series() =~= Seq::<Seq<u64>>::empty());
            assert(history.names() =~= Seq::<Seq<char>>::empty());
        }
        history
    }

    /// Registers a rotating series under a name; its fixed capacity is the
    /// length of `initial_points`, so an empty attachment is rejected and
    /// changes nothing. At most one labeler is active per history: a
    /// registration that brings one wins over any earlier registration, and
    /// one that brings none leaves the active labeler in place.
    pub fn attach_series(
        &mut self,
        name: String,
        initial_points: Vec<u64>,
        labeler: Option<ScaleLabeler>,
    ) -> (result: Result<(), HistoryError>)
        requires
            old(self).wf(),
        ensures
            result is Ok <==> initial_points@.len() >= 1,
            result is Ok ==> final(self).series() == old(self).series().push(initial_points@)
                && final(self).names() == old(self).names().push(name@)
                && final(self).labeler() == (if labeler is Some {
                    labeler
                } else {
                    old(self).labeler()
                }),
            result is Err ==> *final(self) == *old(self)
                && result == Result::<(), HistoryError>::Err(HistoryError::EmptyInitialPoints),
            final(self).ceiling() == old(self).ceiling(),
            final(self).show_labels() == old(self).show_labels(),
            final(self).dirty() == old(self).dirty(),
            final(self).wf(),
    {
        match RingSeries::new(initial_points) {
            None => Err(HistoryError::EmptyInitialPoints),
            Some(series) => {
                let ghost old_series = self.series@;
                let ghost old_names = self.names@;
                let ghost series_view = series@;
                self.names.push(name);
                self.series.push(series);
                if let Some(chosen) = labeler {
                    self.labeler = Some(chosen);
                }
                proof {
                    assert(self.series@ =~= old_series.push(series));
                    assert(self.series() =~= old(self).series().push(series_view));
                    assert(self.names() =~= old(self).names().push(name@));
                }
                Ok(())
            },
        }
    }

    /// Looks a series up by the name it was attached under: the index of the
    /// first series with that name, or nothing when no series carries it.
    pub fn series_index_of(&self, name: &String) -> (result: Option<usize>)
        ensures
            result matches Some(index) ==> index < self.names().len()
                && self.names()[index as int] == name@
                && forall|j: int| 0 <= j < index ==> self.names()[j] != name@,
            result is None ==> forall|j: int| 0 <= j < self.names().len()
                ==> self.names()[j] != name@,
    {
        let count = self.names.len();
        let mut i: usize = 0;
        while i < count
            invariant
                count == self.names@.len(),
                i <= count,
                forall|j: int| 0 <= j < i ==> self.names()[j] != name@,
            decreases count - i,
        {
            if self.names[i] == *name {
                return Some(i);
            }
            i = i + 1;
        }
        None
    }

    /// The number of attached series.
    pub fn series_count(&self) -> (n: usize)
        ensures
            n == self.series().len(),
    {
        self.series.len()
    }

    /// Borrows the series at `index` for reading, newest sample first.
    pub fn series_at(&self, index: usize) -> (result: Option<&RingSeries>)
        ensures
            result is Some <==> index < self.series().len(),
            result matches Some(series) ==> series@ == self.series()[index as int],
    {
        if index < self.series.len() {
            Some(&self.series[index])
        } else {
            None
        }
    }

    /// The most recently written sample of the series at `index`.
    pub fn newest(&self, index: usize) -> (result: Result<u64, HistoryError>)
        requires
            self.wf(),
        ensures
            result is Ok <==> index < self.series().len(),
            result matches Ok(value) ==> value == self.series()[index as int][0],
            result matches Err(e) ==> e == HistoryError::NoSuchSeries,
    {
        if index < self.series.len() {
            match self.series[index].get(0) {
                Ok(value) => Ok(value),
                Err(_) => Err(HistoryError::NoSuchSeries),
            }
        } else {
            Err(HistoryError::NoSuchSeries)
        }
    }

    /// Rotates the series at `index` so that `value` becomes its newest
    /// sample, and marks the history dirty. Recording never changes any
    /// series' length, and it sets the dirty flag on every successful call,
    /// whether or not the written value equals the previous one. Naming a
    /// series that does not exist is a caller error and changes nothing.
    pub fn record(&mut self, index: usize, value: u64) -> (result: Result<(), HistoryError>)
        requires
            old(self).wf(),
        ensures
            result is Ok <==> index < old(self).series().len(),
            result is Ok ==> final(self).series() == old(self).series().update(
                index as int,
                rotated(old(self).series()[index as int], value),
            ) && final(self).dirty(),
            result is Err ==> *final(self) == *old(self)
                && result == Result::<(), HistoryError>::Err(HistoryError::NoSuchSeries),
            final(self).names() == old(self).names(),
            final(self).ceiling() == old(self).ceiling(),
            final(self).show_labels() == old(self).show_labels(),
            final(self).labeler() == old(self).labeler(),
            final(self).wf(),
    {
        if index < self.series.len() {
            let ghost old_series = self.series@;
            let mut series = self.series.remove(index);
            series.rotate_and_set(value);
            self.series.insert(index, series);
            self.dirty = true;
            proof {
                assert(self.series@ =~= old_series.update(index as int, series));
                assert(self.series() =~= old(self).series().update(
                    index as int,
                    rotated(old(self).series()[index as int], value),
                ));
                assert(self.names() =~= old(self).names());
            }
            Ok(())
        } else {
            Err(HistoryError::NoSuchSeries)
        }
    }

    /// Marks the history as needing a redraw. Idempotent: the flag is simply
    /// set, whatever it was.
    pub fn invalidate(&mut self)
        ensures
            final(self).dirty(),
            final(self).series() == old(self).series(),
            final(self).names() == old(self).names(),
            final(self).ceiling() == old(self).ceiling(),
            final(self).show_labels() == old(self).show_labels(),
            final(self).labeler() == old(self).labeler(),
            final(self).wf() == old(self).wf(),
    {
        self.dirty = true;
    }

    /// The renderer's explicit acknowledgement after a redraw: the one way
    /// the dirty flag becomes false.
    pub fn acknowledge(&mut self)
        ensures
            !final(self).dirty(),
            final(self).series() == old(self).series(),
            final(self).names() == old(self).names(),
            final(self).ceiling() == old(self).ceiling(),
            final(self).show_labels() == old(self).show_labels(),
            final(self).labeler() == old(self).labeler(),
            final(self).wf() == old(self).wf(),
    {
        self.dirty = false;
    }

    /// Whether the contents changed since the last acknowledged render.
    pub fn is_dirty(&self) -> (dirty: bool)
        ensures
            dirty == self.dirty(),
    {
        self.dirty
    }

    /// The fixed scaling ceiling, when one is set.
    pub fn scale_ceiling(&self) -> (ceiling: Option<u64>)
        ensures
            ceiling == self.ceiling(),
    {
        self.ceiling
    }

    /// Whether axis labels are displayed for this history.
    pub fn displays_labels(&self) -> (shown: bool)
        ensures
            shown == self.show_labels(),
    {
        self.show_labels
    }

    /// The active labeler applied to a representative magnitude; nothing when
    /// no labeler is registered.
    pub fn axis_labels(&self, representative: u64) -> (result: Option<AxisLabels>)
        ensures
            result is Some <==> self.labeler() is Some,
            result matches Some(labels) ==> {
                let labeler = self.labeler()->0;
                &&& labels.top@ == crate::labeler::axis_top(labeler, representative)
                &&& labels.mid@ == crate::labeler::axis_mid(labeler, representative)
                &&& labels.bottom@ == crate::labeler::axis_bottom(labeler, representative)
                &&& labels.unit@ == crate::labeler::axis_unit(labeler, representative)
            },
    {
        match &self.labeler {
            Some(labeler) => Some(labeler.label(representative)),
            None => None,
        }
    }
}

} // verus!
